//! The records that backends hand out and nodes cache, the signals that a
//! node gives to the router, and the messages that reach a node from its
//! background tasks.

use std::collections::HashMap;
use vstd::prelude::*;

verus! {

/// A calendar date and time of day without a time zone, field by field.
#[derive(Copy, Debug, PartialEq, Eq, Structural)]
pub struct CivilTime {
    pub year: i32,
    pub month: u32,
    pub day: u32,
    pub hour: u32,
    pub minute: u32,
    pub second: u32,
    pub nanosecond: u32,
}

impl Clone for CivilTime {
    fn clone(&self) -> (r: Self)
        ensures
            r == *self,
    {
        *self
    }
}

/// A named, timestamped grouping of posts. The backend that creates it
/// assigns `id` and `created_at`; the `id` never changes afterwards.
#[derive(Debug, PartialEq, Eq)]
pub struct Times {
    pub id: u64,
    pub title: String,
    pub created_at: CivilTime,
    pub updated_at: Option<CivilTime>,
}

impl Clone for Times {
    fn clone(&self) -> (r: Self)
        ensures
            r == *self,
    {
        Times {
            id: self.id,
            title: self.title.clone(),
            created_at: self.created_at,
            updated_at: self.updated_at,
        }
    }
}

/// One timestamped, free-text item inside a `Times`.
#[derive(Debug, PartialEq, Eq)]
pub struct Post {
    pub id: u64,
    pub post: String,
    pub created_at: CivilTime,
}

impl Clone for Post {
    fn clone(&self) -> (r: Self)
        ensures
            r == *self,
    {
        Post { id: self.id, post: self.post.clone(), created_at: self.created_at }
    }
}

/// What a node caches of one `Times`: the record itself and, once a task
/// has fetched it, the most recent post.
#[derive(Debug, PartialEq, Eq)]
pub struct TimesData {
    pub times: Times,
    pub latest: Option<Post>,
}

/// Why a backend call did not succeed.
#[derive(Debug, PartialEq, Eq)]
pub enum BackendError {
    /// The `Times` named by the call does not exist.
    NotFound,
    /// The backend enforces a uniqueness rule and the call would break it.
    Conflict,
    /// The backend could not be reached or could not complete the call.
    Unavailable(String),
    /// The backend answered with data that could not be decoded.
    Malformed(String),
}

impl BackendError {
    /// The text under which a failure is shown to the user.
    pub open spec fn description(self) -> Seq<char> {
        match self {
            BackendError::NotFound => "not found"@,
            BackendError::Conflict => "conflict"@,
            BackendError::Unavailable(detail) => "unavailable: "@ + detail@,
            BackendError::Malformed(detail) => "malformed: "@ + detail@,
        }
    }

    /// Renders the error as the text that a `Message::Error` carries.
    pub fn describe(&self) -> (text: String)
        ensures
            text@ == self.description(),
    {
        match self {
            BackendError::NotFound => String::from_str("not found"),
            BackendError::Conflict => String::from_str("conflict"),
            BackendError::Unavailable(detail) => String::from_str("unavailable: ").concat(
                detail.as_str(),
            ),
            BackendError::Malformed(detail) => String::from_str("malformed: ").concat(
                detail.as_str(),
            ),
        }
    }
}

/// Why a message could not be handed to a node.
#[derive(Copy, Clone, Debug, PartialEq, Eq, Structural)]
pub enum ChannelError {
    /// The node was popped and its receiver is gone.
    Closed,
}

/// A transition that a node asks the router to make.
#[derive(Debug, PartialEq, Eq)]
pub enum Event {
    /// Open the given `Times`, chosen in a node that holds the store.
    Select(Times),
    /// Open the given `Times`.
    OpenTimes(Times),
    /// Leave the current node.
    Pop,
    /// Show the log.
    Logs,
    /// Show the configuration.
    Config,
    /// Stay.
    Nothing,
}

/// The result of one background task step, on its way to the node that
/// started the task.
#[derive(Debug, PartialEq, Eq)]
pub enum Message {
    /// The backend created this `Times`.
    Create(Times),
    /// The backend listed these `Times`; none has its latest post yet.
    Refresh(HashMap<u64, TimesData>),
    /// The given `Times` has this latest post.
    UpdateLatest(u64, Post),
    /// A backend call failed, with the text to show.
    Error(String),
}

/// A backend call that a node wants a background task to make.
#[derive(Debug, PartialEq, Eq)]
pub enum Command {
    /// Create a `Times` with this title.
    Create(String),
    /// List every `Times` and fetch the latest post of each.
    Reload,
    /// Append a post with this text to the `Times` with this identifier.
    Append(u64, String),
}

} // verus!
