//! The navigation router: a stack of nodes, of which the top one is
//! shown, and the transitions that the nodes ask for.

use crate::model::{Event, Times};
use vstd::prelude::*;

verus! {

/// A node on the stack, by what it shows.
#[derive(Debug, PartialEq, Eq)]
pub enum Node {
    /// The selection node, with which every stack starts.
    Select,
    /// The detail node of one `Times`.
    Times(Times),
    /// The log node.
    Log,
    /// The configuration node.
    Config,
}

/// What the application does to its nodes to follow the router.
#[derive(Debug, PartialEq, Eq)]
pub enum Transition {
    /// Build the node and show it above the others.
    Push(Node),
    /// Discard the top node and show the one below.
    Pop,
    /// Keep showing the top node.
    Stay,
}

/// The transition that an event leads to on a stack. Leaving the last
/// node is ignored.
pub open spec fn transition(stack: Seq<Node>, event: Option<Event>) -> Transition {
    match event {
        Some(Event::Select(times)) => Transition::Push(Node::Times(times)),
        Some(Event::OpenTimes(times)) => Transition::Push(Node::Times(times)),
        Some(Event::Pop) => if stack.len() > 1 {
            Transition::Pop
        } else {
            Transition::Stay
        },
        Some(Event::Logs) => Transition::Push(Node::Log),
        Some(Event::Config) => Transition::Push(Node::Config),
        Some(Event::Nothing) => Transition::Stay,
        None => Transition::Stay,
    }
}

/// The stack after a transition.
pub open spec fn moved(stack: Seq<Node>, transition: Transition) -> Seq<Node> {
    match transition {
        Transition::Push(node) => stack.push(node),
        Transition::Pop => stack.drop_last(),
        Transition::Stay => stack,
    }
}

/// The stack after an event.
pub open spec fn routed(stack: Seq<Node>, event: Option<Event>) -> Seq<Node> {
    moved(stack, transition(stack, event))
}

/// Whether a stack is one that a router can hold: it is not empty and
/// starts with the selection node.
pub open spec fn rooted(stack: Seq<Node>) -> bool {
    stack.len() > 0 && stack[0] is Select
}

/// No event empties the stack or replaces its first node.
pub proof fn lemma_routed_rooted(stack: Seq<Node>, event: Option<Event>)
    requires
        rooted(stack),
    ensures
        rooted(routed(stack, event)),
        routed(stack, event)[0] == stack[0],
{
}

/// Leaving the only node changes nothing.
pub proof fn lemma_pop_at_root(stack: Seq<Node>)
    requires
        stack.len() == 1,
    ensures
        routed(stack, Some(Event::Pop)) == stack,
{
}

/// Entering a node and leaving it again gives the stack back.
pub proof fn lemma_push_then_pop(stack: Seq<Node>, event: Option<Event>)
    requires
        rooted(stack),
        transition(stack, event) is Push,
    ensures
        routed(routed(stack, event), Some(Event::Pop)) == stack,
{
}

/// The navigation router. Its stack is always `rooted`: `new` makes it so
/// and `apply` keeps it so.
pub struct Router {
    stack: Vec<Node>,
}

impl View for Router {
    type V = Seq<Node>;

    closed spec fn view(&self) -> Seq<Node> {
        self.stack@
    }
}

impl Router {
    /// A router that shows the selection node.
    pub fn new() -> (router: Self)
        ensures
            router@ == seq![Node::Select],
            rooted(router@),
    {
        let mut stack: Vec<Node> = Vec::new();
        stack.push(Node::Select);
        Router { stack }
    }

    /// The number of nodes on the stack, which is never zero.
    pub fn depth(&self) -> (depth: usize)
        requires
            rooted(self@),
        ensures
            depth == self@.len(),
            depth > 0,
    {
        self.stack.len()
    }

    /// The node that is shown.
    pub fn top(&self) -> (node: &Node)
        requires
            rooted(self@),
        ensures
            *node == self@.last(),
    {
        &self.stack[self.stack.len() - 1]
    }

    /// Makes the transition that the top node asked for in this frame, and
    /// tells the application what to do to its nodes.
    pub fn apply(&mut self, event: Option<Event>) -> (done: Transition)
        requires
            rooted(old(self)@),
        ensures
            done == transition(old(self)@, event),
            final(self)@ == routed(old(self)@, event),
            rooted(final(self)@),
    {
        proof {
            lemma_routed_rooted(self@, event);
        }
        match event {
            Some(Event::Select(times)) => {
                self.stack.push(Node::Times(times.clone()));
                Transition::Push(Node::Times(times))
            },
            Some(Event::OpenTimes(times)) => {
                self.stack.push(Node::Times(times.clone()));
                Transition::Push(Node::Times(times))
            },
            Some(Event::Pop) => {
                if self.stack.len() > 1 {
                    self.stack.pop();
                    Transition::Pop
                } else {
                    Transition::Stay
                }
            },
            Some(Event::Logs) => {
                self.stack.push(Node::Log);
                Transition::Push(Node::Log)
            },
            Some(Event::Config) => {
                self.stack.push(Node::Config);
                Transition::Push(Node::Config)
            },
            Some(Event::Nothing) => Transition::Stay,
            None => Transition::Stay,
        }
    }
}

} // verus!
