//! The log node: it shows the records that the application's logger has
//! collected, and offers the node menu.

use crate::model::Event;
use crate::pane::{menu_event, pane_menu, MenuInput, Pane};
use std::sync::{Arc, Mutex};
use vstd::prelude::*;

verus! {

#[verifier::external_type_specification]
#[verifier::external_body]
#[verifier::reject_recursive_types(T)]
pub struct ExMutex<T: ?Sized>(Mutex<T>);

/// One line of the log.
#[derive(Debug, PartialEq, Eq)]
pub struct LogRecord {
    pub message: String,
}

impl Clone for LogRecord {
    fn clone(&self) -> (r: Self)
        ensures
            r == *self,
    {
        LogRecord { message: self.message.clone() }
    }
}

/// `std::sync::Mutex::lock`, then a copy of what the lock guards. A lock
/// that a panicking writer poisoned is read all the same. The writer runs
/// on other threads, so nothing is claimed of the records. The call waits
/// for the lock, and would wait for ever on a thread that holds it; the
/// library never holds it but here.
#[verifier::external_body]
fn snapshot(logs: &Arc<Mutex<Vec<LogRecord>>>) -> (records: Vec<LogRecord>) {
    match logs.lock() {
        Ok(guard) => guard.clone(),
        Err(poisoned) => poisoned.into_inner().clone(),
    }
}

/// The log node.
pub struct LogPane {
    logs: Arc<Mutex<Vec<LogRecord>>>,
}

impl LogPane {
    /// A node that shows the records behind `logs`.
    pub fn new(logs: Arc<Mutex<Vec<LogRecord>>>) -> (pane: Self)
        ensures
            pane.source() == logs,
    {
        LogPane { logs }
    }

    /// The shared list that the node reads.
    pub closed spec fn source(&self) -> Arc<Mutex<Vec<LogRecord>>> {
        self.logs
    }

    /// The records collected by now, oldest first.
    pub fn records(&self) -> (records: Vec<LogRecord>) {
        snapshot(&self.logs)
    }
}

impl Pane for LogPane {
    type Input = MenuInput;

    /// One frame: the node only offers the menu, and keeps what it shows.
    fn update(&mut self, input: MenuInput) -> (event: Option<Event>)
        ensures
            event == menu_event(input),
            final(self).source() == old(self).source(),
    {
        pane_menu(input)
    }

    /// The node reads the shared list afresh in every frame: there is
    /// nothing to fetch.
    fn reload(&mut self)
        ensures
            final(self).source() == old(self).source(),
    {
    }
}

} // verus!
