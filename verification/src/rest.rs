//! The client of the request-and-answer server: one list of comments,
//! fetched when the client starts, and a text field from which comments
//! are appended. The client decides what to ask of the server; the
//! application does the asking and hands back what came of it. A request
//! that failed changes nothing that the client shows but the failure.

use crate::clock::now;
use crate::model::{BackendError, CivilTime};
use vstd::prelude::*;

verus! {

/// A comment as the server lists it.
#[derive(Debug, PartialEq, Eq)]
pub struct Comments {
    pub id: i64,
    pub comment: String,
    pub created_at: CivilTime,
}

/// The body of the request that appends a comment.
#[derive(Debug, PartialEq, Eq)]
pub struct RequestData {
    pub comment: String,
}

/// A request to append a comment: where to post it, and what.
#[derive(Debug, PartialEq, Eq)]
pub struct AppendRequest {
    pub url: String,
    pub data: RequestData,
}

/// What the client holds, as mathematics.
pub struct ClientState {
    /// The content of the text field.
    pub input_text: Seq<char>,
    /// The address of the server.
    pub server: Seq<char>,
    /// The comments shown, oldest first.
    pub list: Seq<Comments>,
    /// The text of the failure of the last request, where it failed.
    pub failure: Option<Seq<char>>,
}

/// What the user did to the client in one frame.
pub struct ClientInput {
    /// The content of the text field after this frame's edits.
    pub text: String,
    /// Whether the text field was submitted.
    pub submitted: bool,
}

/// The address of the server's listing.
pub open spec fn list_address(server: Seq<char>) -> Seq<char> {
    server + "/list"@
}

/// The address to which comments are posted.
pub open spec fn append_address(server: Seq<char>) -> Seq<char> {
    server + "/append"@
}

/// The comment that the client shows for a text that the server has
/// taken: the client does not know the number that the server gave it.
pub open spec fn own_comment(text: String, created_at: CivilTime) -> Comments {
    Comments { id: 0, comment: text, created_at }
}

/// The client that starts on `server` with the outcome of the listing:
/// it shows what was listed, or nothing and the failure.
pub open spec fn started(server: Seq<char>, listed: Result<Vec<Comments>, BackendError>)
    -> ClientState {
    match listed {
        Ok(list) => ClientState { input_text: Seq::empty(), server, list: list@, failure: None },
        Err(error) => ClientState {
            input_text: Seq::empty(),
            server,
            list: Seq::empty(),
            failure: Some(error.description()),
        },
    }
}

/// The client after the server took the comment `text` at the moment
/// `created_at`: the comment ends the list, the text field is empty and
/// no failure is shown.
pub open spec fn appended(state: ClientState, text: String, created_at: CivilTime) -> ClientState {
    ClientState {
        input_text: Seq::empty(),
        list: state.list.push(own_comment(text, created_at)),
        failure: None,
        ..state
    }
}

/// The client after a request failed with `error`: it shows the failure,
/// and everything else as before.
pub open spec fn refused(state: ClientState, error: BackendError) -> ClientState {
    ClientState { failure: Some(error.description()), ..state }
}

/// The client.
pub struct TimesManApp {
    input_text: String,
    server: String,
    list: Vec<Comments>,
    failure: Option<String>,
}

impl View for TimesManApp {
    type V = ClientState;

    closed spec fn view(&self) -> ClientState {
        ClientState {
            input_text: self.input_text@,
            server: self.server@,
            list: self.list@,
            failure: match self.failure {
                Some(text) => Some(text@),
                None => None,
            },
        }
    }
}

impl TimesManApp {
    /// The address of the server that a client talks to unless told
    /// otherwise.
    pub fn default_server() -> (server: String)
        ensures
            server@ == "http://localhost:8080"@,
    {
        String::from_str("http://localhost:8080")
    }

    /// The address from which the comments of `server` are fetched.
    pub fn get_list(server: &String) -> (url: String)
        ensures
            url@ == list_address(server@),
    {
        server.clone().concat("/list")
    }

    /// A client of `server`, with an empty text field, made of the outcome
    /// of the listing: it shows the comments listed, or, where the listing
    /// failed, no comment and the failure.
    pub fn new(server: String, listed: Result<Vec<Comments>, BackendError>) -> (app: Self)
        ensures
            app@ == started(server@, listed),
    {
        match listed {
            Ok(list) => TimesManApp { input_text: String::new(), server, list, failure: None },
            Err(error) => TimesManApp {
                input_text: String::new(),
                server,
                list: Vec::new(),
                failure: Some(error.describe()),
            },
        }
    }

    /// The request that asks the server to append `text`. The client
    /// shows nothing of it before the server has answered.
    pub fn post(&self, text: &String) -> (request: AppendRequest)
        ensures
            request.url@ == append_address(self@.server),
            request.data.comment == *text,
    {
        let url = self.server.clone().concat("/append");
        let data = RequestData { comment: text.clone() };
        AppendRequest { url, data }
    }

    /// Takes the outcome of the request to append `text`. Where the
    /// server took it, the client shows the comment at the end of its
    /// list, as made at the moment of this call, and empties the text
    /// field. Where the request failed, the list and the text field stay
    /// as they are, and the failure is shown and handed back.
    pub fn posted(&mut self, text: &String, outcome: Result<(), BackendError>) -> (failure: Option<
        String,
    >)
        ensures
            match outcome {
                Ok(_) => {
                    &&& failure is None
                    &&& final(self)@ == appended(
                        old(self)@,
                        *text,
                        final(self)@.list.last().created_at,
                    )
                },
                Err(error) => {
                    &&& failure matches Some(shown) && shown@ == error.description()
                    &&& final(self)@ == refused(old(self)@, error)
                },
            },
    {
        match outcome {
            Ok(_) => {
                let com = Comments { id: 0, comment: text.clone(), created_at: now() };
                self.list.push(com);
                self.input_text = String::new();
                self.failure = None;
                None
            },
            Err(error) => {
                self.failure = Some(error.describe());
                Some(error.describe())
            },
        }
    }

    /// One frame: the client takes over the text field and, where it was
    /// submitted with a text in it, hands back the request that asks the
    /// server to append that text. A submission of an empty field is
    /// ignored. The list, the text and the failure shown stay until the
    /// outcome of the request is known.
    pub fn update(&mut self, input: ClientInput) -> (request: Option<AppendRequest>)
        ensures
            final(self)@ == (ClientState { input_text: input.text@, ..old(self)@ }),
            request is Some <==> input.submitted && input.text@.len() > 0,
            request matches Some(r) ==> {
                &&& r.url@ == append_address(old(self)@.server)
                &&& r.data.comment == input.text
            },
    {
        self.input_text = input.text;
        if input.submitted {
            if self.input_text.as_str().unicode_len() == 0 {
                return None;
            }
            let text = self.input_text.clone();
            return Some(self.post(&text));
        }
        None
    }

    /// The content of the text field.
    pub fn input_text(&self) -> (text: &String)
        ensures
            text@ == self@.input_text,
    {
        &self.input_text
    }

    /// The comments shown, oldest first.
    pub fn list(&self) -> (list: &Vec<Comments>)
        ensures
            list@ == self@.list,
    {
        &self.list
    }

    /// The text of the failure of the last request, where it failed.
    pub fn failure(&self) -> (failure: &Option<String>)
        ensures
            match *failure {
                Some(text) => self@.failure == Some(text@),
                None => self@.failure is None,
            },
    {
        &self.failure
    }
}

/// A request that fails leaves the list and the text field as they are,
/// whatever the failure.
pub proof fn lemma_failure_keeps_list(state: ClientState, error: BackendError)
    ensures
        refused(state, error).list == state.list,
        refused(state, error).input_text == state.input_text,
        refused(state, error).server == state.server,
        refused(state, error).failure is Some,
{
}

} // verus!
