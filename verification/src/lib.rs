//! The state bridge between a frame-paced consumer and a concurrent storage
//! backend.
//!
//! A navigation node is redrawn many times a second and must never wait.
//! Whatever it wants of the store it asks for as a `Command`; a background
//! task makes the calls and sends each result back as a `Message` on the
//! node's bounded channel; the node takes the pending messages in, in
//! their order, at the start of its next frame, and may then ask the
//! router for a transition with an `Event`.
//!
//! - `model`: the records, messages, events and errors.
//! - `store`: the contract of a backend, and the backend in memory.
//! - `task`: what a background task asks and what it sends.
//! - `channel`: the bounded channel between the tasks and a node.
//! - `pane`: the nodes, and what each does in a frame.
//! - `router`: the stack of nodes and its transitions.
//! - `wire`: the record of the remote-call service and its conversion.
//! - `rest`: the client of the request-and-answer server.
//! - `clock`: the wall clock.

pub mod channel;
pub mod clock;
pub mod model;
pub mod pane;
pub mod rest;
pub mod router;
pub mod store;
pub mod task;
pub mod wire;
