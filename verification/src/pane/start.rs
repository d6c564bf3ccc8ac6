//! The start node of the request-and-answer client: it lists every
//! `Times` that the server had when the node was made, and opens the one
//! that the user picks or creates.

use crate::model::{BackendError, Event, Times};
use crate::pane::{menu_event, pane_menu, MenuInput};
use vstd::prelude::*;

verus! {

/// What the user did to the start node in one frame.
pub struct StartInput {
    /// The entries of the node menu that were pressed.
    pub menu: MenuInput,
    /// The content of the title field after this frame's edits.
    pub title: String,
    /// What came of asking the server for a new `Times`, where the title
    /// field was submitted in this frame and the server was asked.
    pub created: Option<Result<Times, BackendError>>,
    /// The position of the row that was clicked, if any.
    pub clicked: Option<usize>,
}

/// The transition that one frame of the start node asks for. A click on
/// a listed row wins over a `Times` just created, and that over the menu.
/// A creation that failed asks for none.
pub open spec fn start_event(times: Seq<Times>, input: StartInput) -> Option<Event> {
    if input.clicked is Some && input.clicked->0 < times.len() {
        Some(Event::OpenTimes(times[input.clicked->0 as int]))
    } else {
        match input.created {
            Some(Ok(created)) => Some(Event::OpenTimes(created)),
            _ => menu_event(input.menu),
        }
    }
}

/// The failure that the node shows after a frame: that of the creation
/// asked for in the frame, none where the creation succeeded, and the one
/// shown before where none was asked for.
pub open spec fn start_failure(shown: Option<Seq<char>>, input: StartInput) -> Option<
    Seq<char>,
> {
    match input.created {
        Some(Ok(_)) => None,
        Some(Err(error)) => Some(error.description()),
        None => shown,
    }
}

/// The start node.
pub struct StartPane {
    times: Vec<Times>,
    title: String,
    failure: Option<String>,
}

impl StartPane {
    /// A node with an empty title field, made of the outcome of the
    /// server's listing: it lists what the server listed, or, where the
    /// listing failed, nothing, and shows the failure.
    pub fn new(listed: Result<Vec<Times>, BackendError>) -> (pane: Self)
        ensures
            pane.title_text() == Seq::<char>::empty(),
            match listed {
                Ok(times) => pane.listed() == times@ && pane.failure_text() is None,
                Err(error) => {
                    &&& pane.listed() == Seq::<Times>::empty()
                    &&& pane.failure_text() == Some(error.description())
                },
            },
    {
        match listed {
            Ok(times) => StartPane { times, title: String::new(), failure: None },
            Err(error) => StartPane {
                times: Vec::new(),
                title: String::new(),
                failure: Some(error.describe()),
            },
        }
    }

    /// The rows of the node, in the order in which the server listed them.
    pub closed spec fn listed(&self) -> Seq<Times> {
        self.times@
    }

    /// The content of the title field.
    pub closed spec fn title_text(&self) -> Seq<char> {
        self.title@
    }

    /// The text of the failure that the node shows, if any.
    pub closed spec fn failure_text(&self) -> Option<Seq<char>> {
        match self.failure {
            Some(text) => Some(text@),
            None => None,
        }
    }

    /// The rows of the node.
    pub fn times(&self) -> (times: &Vec<Times>)
        ensures
            times@ == self.listed(),
    {
        &self.times
    }

    /// The content of the title field.
    pub fn title(&self) -> (title: &String)
        ensures
            title@ == self.title_text(),
    {
        &self.title
    }

    /// The text of the failure that the node shows, if any.
    pub fn failure(&self) -> (failure: &Option<String>)
        ensures
            match *failure {
                Some(text) => self.failure_text() == Some(text@),
                None => self.failure_text() is None,
            },
    {
        &self.failure
    }

    /// The title to ask the server to create a `Times` with, once the
    /// title field has been submitted: its content, unless it is empty.
    pub fn create_request(title: &String, submitted: bool) -> (request: Option<String>)
        ensures
            request is Some <==> submitted && title@.len() > 0,
            request is Some ==> request->0 == *title,
    {
        if submitted && title.as_str().unicode_len() > 0 {
            Some(title.clone())
        } else {
            None
        }
    }

    /// One frame: the node keeps its rows, takes over the title field,
    /// shows the failure of a creation that failed, and asks for the
    /// transition that `start_event` names.
    pub fn update(&mut self, input: StartInput) -> (event: Option<Event>)
        ensures
            event == start_event(old(self).listed(), input),
            final(self).listed() == old(self).listed(),
            final(self).title_text() == input.title@,
            final(self).failure_text() == start_failure(old(self).failure_text(), input),
    {
        let StartInput { menu, title, created, clicked } = input;
        let mut event = pane_menu(menu);
        self.title = title;
        match created {
            Some(Ok(times)) => {
                self.failure = None;
                event = Some(Event::OpenTimes(times));
            },
            Some(Err(error)) => {
                self.failure = Some(error.describe());
            },
            None => {},
        }
        match clicked {
            Some(row) => {
                if row < self.times.len() {
                    event = Some(Event::OpenTimes(self.times[row].clone()));
                }
            },
            None => {},
        }
        event
    }
}

} // verus!
