//! What a background task makes of the backend's answers: the messages
//! that it sends to the node that started it. A task asks the backend,
//! turns each answer into at most one message, and ends with the first
//! failure, which it reports like any other answer. It also ends, without
//! another word, when a message can no longer be delivered.
//!
//! `Task` holds these decisions for an application that has to wait for
//! its backend: the application asks what `request` names, waits, hands
//! the answer to `answer`, and sends what comes back. `run_create`,
//! `run_append` and `run_reload` drive a `Task` against a backend whose
//! calls return.

use crate::model::{BackendError, ChannelError, Command, Message, Post, Times, TimesData};
use crate::store::{has_id, latest, lemma_latest_after_append, unique_ids, Store, StoreState};
use std::collections::HashMap;
use vstd::prelude::*;

verus! {

broadcast use vstd::std_specs::hash::group_hash_axioms;

/// The cache that a node starts from after a listing: every listed
/// `Times` under its identifier, none with a latest post yet. Of two
/// `Times` with one identifier the later in the listing stays.
pub open spec fn fresh_cache(times: Seq<Times>) -> Map<u64, TimesData>
    decreases times.len(),
{
    if times.len() == 0 {
        Map::empty()
    } else {
        fresh_cache(times.drop_last()).insert(
            times.last().id,
            TimesData { times: times.last(), latest: None },
        )
    }
}

/// The messages on the latest posts of the listed `Times`, in the order
/// of the listing: one for each `Times` that has a post.
pub open spec fn latest_updates(times: Seq<Times>, posts: Seq<(u64, Post)>) -> Seq<Message>
    decreases times.len(),
{
    if times.len() == 0 {
        Seq::empty()
    } else {
        latest_updates(times.drop_last(), posts) + match latest(posts, times.last().id) {
            Some(post) => seq![Message::UpdateLatest(times.last().id, post)],
            None => Seq::empty(),
        }
    }
}

/// Whether `message` reports the failure `error`.
pub open spec fn reports(message: Message, error: BackendError) -> bool {
    message matches Message::Error(text) && text@ == error.description()
}

/// Whether `message` carries the cache that a listing of `times` gives.
pub open spec fn refreshes(message: Message, times: Seq<Times>) -> bool {
    message matches Message::Refresh(cache) && cache@ == fresh_cache(times)
}

/// The messages of a reload on a backend in `state`: either the report
/// that the listing failed; or the fresh cache and then every message on
/// a latest post; or the fresh cache, some of those messages from the
/// first on, and the report of the failure that ended the task.
pub open spec fn reload_outcome(state: StoreState, messages: Seq<Message>) -> bool {
    let updates = latest_updates(state.times, state.posts);
    ||| messages.len() == 1 && messages[0] is Error
    ||| {
        &&& messages.len() >= 1
        &&& refreshes(messages[0], state.times)
        &&& messages.skip(1) == updates
    }
    ||| {
        &&& messages.len() >= 2
        &&& refreshes(messages[0], state.times)
        &&& messages.len() - 2 <= updates.len()
        &&& messages.subrange(1, messages.len() - 1) == updates.take(messages.len() - 2)
        &&& messages.last() is Error
    }
}

/// The updates for a listing that was cut short open the updates for the
/// whole listing.
pub proof fn lemma_updates_prefix(times: Seq<Times>, posts: Seq<(u64, Post)>, n: int)
    requires
        0 <= n <= times.len(),
    ensures
        latest_updates(times.take(n), posts).len() <= latest_updates(times, posts).len(),
        latest_updates(times.take(n), posts) == latest_updates(times, posts).take(
            latest_updates(times.take(n), posts).len() as int,
        ),
    decreases times.len(),
{
    if n == times.len() {
        assert(times.take(n) == times);
    } else {
        assert(times.drop_last().take(n) == times.take(n));
        lemma_updates_prefix(times.drop_last(), posts, n);
    }
}

/// A listed identifier is a key of the fresh cache, and no other is.
pub proof fn lemma_fresh_cache_keys(times: Seq<Times>, id: u64)
    ensures
        fresh_cache(times).contains_key(id) <==> has_id(times, id),
    decreases times.len(),
{
    if times.len() > 0 {
        let rest = times.drop_last();
        lemma_fresh_cache_keys(rest, id);
        if has_id(times, id) {
            let i = choose|i: int| 0 <= i < times.len() && (#[trigger] times[i]).id == id;
            if i < times.len() - 1 {
                assert(rest[i].id == id);
            }
        }
    }
}

/// Where no identifier is listed twice, the fresh cache holds every
/// listed `Times` under its identifier, without a latest post.
pub proof fn lemma_fresh_cache_holds(times: Seq<Times>, i: int)
    requires
        unique_ids(times),
        0 <= i < times.len(),
    ensures
        fresh_cache(times).contains_key(times[i].id),
        fresh_cache(times)[times[i].id] == (TimesData { times: times[i], latest: None }),
    decreases times.len(),
{
    if i < times.len() - 1 {
        let rest = times.drop_last();
        assert(unique_ids(rest));
        lemma_fresh_cache_holds(rest, i);
    }
}

/// The identifier of a `Times` that a backend has just created is new to
/// every node: it is no key of the cache that a listing from before the
/// creation gives, however long before, that is, however many of the
/// `Times` of that moment the listing had. In the cache that a listing
/// from after the creation gives, the identifier stands for the created
/// `Times`, and every other key is as it was.
pub proof fn lemma_created_id_is_new(before: Seq<Times>, created: Times, listed: int)
    requires
        !has_id(before, created.id),
        0 <= listed <= before.len(),
    ensures
        !fresh_cache(before.take(listed)).contains_key(created.id),
        !fresh_cache(before).contains_key(created.id),
        fresh_cache(before.push(created)) == fresh_cache(before).insert(
            created.id,
            TimesData { times: created, latest: None },
        ),
        unique_ids(before) ==> unique_ids(before.push(created)),
{
    lemma_fresh_cache_keys(before, created.id);
    lemma_fresh_cache_keys(before.take(listed), created.id);
    if has_id(before.take(listed), created.id) {
        let i = choose|i: int|
            0 <= i < before.take(listed).len() && (#[trigger] before.take(listed)[i]).id
                == created.id;
        assert(before[i].id == created.id);
    }
    assert(before.push(created).drop_last() == before);
    if unique_ids(before) {
        let after = before.push(created);
        assert forall|i: int, j: int| 0 <= i < j < after.len() implies (#[trigger] after[i]).id != (
        #[trigger] after[j]).id by {
        }
    }
}

/// The message on the outcome of a creation.
pub fn create_message(created: Result<Times, BackendError>) -> (message: Message)
    ensures
        match created {
            Ok(times) => message == Message::Create(times),
            Err(error) => reports(message, error),
        },
{
    match created {
        Ok(times) => Message::Create(times),
        Err(error) => Message::Error(error.describe()),
    }
}

/// The message on the outcome of appending a post to the `Times` with
/// the identifier `tid`: the post is now the latest of that `Times`.
pub fn append_message(tid: u64, appended: Result<Post, BackendError>) -> (message: Message)
    ensures
        match appended {
            Ok(post) => message == Message::UpdateLatest(tid, post),
            Err(error) => reports(message, error),
        },
{
    match appended {
        Ok(post) => Message::UpdateLatest(tid, post),
        Err(error) => Message::Error(error.describe()),
    }
}

/// The message that carries the cache for a listing.
pub fn refresh_message(times: &Vec<Times>) -> (message: Message)
    ensures
        refreshes(message, times@),
{
    let mut cache: HashMap<u64, TimesData> = HashMap::new();
    let mut i: usize = 0;
    while i < times.len()
        invariant
            i <= times.len(),
            cache@ == fresh_cache(times@.take(i as int)),
        decreases times.len() - i,
    {
        let t = &times[i];
        cache.insert(t.id, TimesData { times: t.clone(), latest: None });
        assert(times@.take(i + 1).drop_last() == times@.take(i as int));
        i = i + 1;
    }
    assert(times@.take(times@.len() as int) == times@);
    Message::Refresh(cache)
}

/// The message on the outcome of a listing.
pub fn list_message(listed: &Result<Vec<Times>, BackendError>) -> (message: Message)
    ensures
        match *listed {
            Ok(times) => refreshes(message, times@),
            Err(error) => reports(message, error),
        },
{
    match listed {
        Ok(times) => refresh_message(times),
        Err(error) => Message::Error(error.describe()),
    }
}

/// The message on the outcome of a look for the latest post of the
/// `Times` with the identifier `tid`; none where the `Times` has no post.
pub fn latest_message(tid: u64, found: Result<Option<Post>, BackendError>) -> (message: Option<
    Message,
>)
    ensures
        match found {
            Ok(Some(post)) => message == Some(Message::UpdateLatest(tid, post)),
            Ok(None) => message is None,
            Err(error) => message is Some && reports(message->0, error),
        },
{
    match found {
        Ok(Some(post)) => Some(Message::UpdateLatest(tid, post)),
        Ok(None) => None,
        Err(error) => Some(Message::Error(error.describe())),
    }
}

/// A call that a task wants made to the backend.
#[derive(Debug, PartialEq, Eq)]
pub enum Request {
    /// Create a `Times` with this title.
    Create(String),
    /// List every `Times`.
    List,
    /// Look for the latest post of the `Times` with this identifier.
    Latest(u64),
    /// Append a post with this text to the `Times` with this identifier.
    Append(u64, String),
}

/// What the backend answered to a request.
#[derive(Debug, PartialEq, Eq)]
pub enum Answer {
    /// The answer to `Request::Create`.
    Created(Result<Times, BackendError>),
    /// The answer to `Request::List`.
    Listed(Result<Vec<Times>, BackendError>),
    /// The answer to `Request::Latest`.
    Latest(Result<Option<Post>, BackendError>),
    /// The answer to `Request::Append`.
    Appended(Result<Post, BackendError>),
}

/// Where a task stands.
enum Phase {
    Creating(String),
    Appending(u64, String),
    Listing,
    Fetching,
    Ended,
}

/// A background task, as mathematics.
pub struct TaskState {
    /// The request that the task waits to have answered; none once the
    /// task has ended.
    pub pending: Option<Request>,
    /// The listing that a reload goes through; empty before the backend
    /// has listed, and in a creation or an append.
    pub listing: Seq<Times>,
    /// How many `Times` of the listing the task has dealt with.
    pub position: nat,
}

/// The request for the latest post of the next `Times` of the listing;
/// none at its end.
pub open spec fn next_latest(listing: Seq<Times>, position: nat) -> Option<Request> {
    if position < listing.len() {
        Some(Request::Latest(listing[position as int].id))
    } else {
        None
    }
}

/// The text that a task reports when it is handed an answer to a request
/// that it did not make.
pub open spec fn unexpected_text() -> Seq<char> {
    "unexpected answer"@
}

/// The task went from `before` to `after` on `answer`, and wants
/// `message` sent.
pub open spec fn answered(
    before: TaskState,
    answer: Answer,
    after: TaskState,
    message: Option<Message>,
) -> bool {
    match (before.pending, answer) {
        (Some(Request::Create(_)), Answer::Created(Ok(times))) => {
            &&& message == Some(Message::Create(times))
            &&& after == TaskState { pending: None, ..before }
        },
        (Some(Request::Create(_)), Answer::Created(Err(error))) => {
            &&& message is Some && reports(message->0, error)
            &&& after == TaskState { pending: None, ..before }
        },
        (Some(Request::List), Answer::Listed(Ok(times))) => {
            &&& message is Some && refreshes(message->0, times@)
            &&& after == TaskState {
                pending: next_latest(times@, 0),
                listing: times@,
                position: 0,
            }
        },
        (Some(Request::List), Answer::Listed(Err(error))) => {
            &&& message is Some && reports(message->0, error)
            &&& after == TaskState { pending: None, ..before }
        },
        (Some(Request::Latest(tid)), Answer::Latest(Ok(found))) => {
            &&& message == match found {
                Some(post) => Some(Message::UpdateLatest(tid, post)),
                None => None,
            }
            &&& after == TaskState {
                pending: next_latest(before.listing, before.position + 1),
                position: before.position + 1,
                ..before
            }
        },
        (Some(Request::Latest(_)), Answer::Latest(Err(error))) => {
            &&& message is Some && reports(message->0, error)
            &&& after == TaskState { pending: None, ..before }
        },
        (Some(Request::Append(tid, _)), Answer::Appended(Ok(post))) => {
            &&& message == Some(Message::UpdateLatest(tid, post))
            &&& after == TaskState { pending: None, ..before }
        },
        (Some(Request::Append(_, _)), Answer::Appended(Err(error))) => {
            &&& message is Some && reports(message->0, error)
            &&& after == TaskState { pending: None, ..before }
        },
        (Some(_), _) => {
            &&& message matches Some(Message::Error(text)) && text@ == unexpected_text()
            &&& after == TaskState { pending: None, ..before }
        },
        (None, _) => message is None && after == before,
    }
}

/// A background task: what it has asked of the backend and what it will
/// ask next.
pub struct Task {
    phase: Phase,
    times: Vec<Times>,
    position: usize,
}

impl View for Task {
    type V = TaskState;

    closed spec fn view(&self) -> TaskState {
        TaskState {
            pending: match self.phase {
                Phase::Creating(title) => Some(Request::Create(title)),
                Phase::Appending(tid, text) => Some(Request::Append(tid, text)),
                Phase::Listing => Some(Request::List),
                Phase::Fetching => next_latest(self.times@, self.position as nat),
                Phase::Ended => None,
            },
            listing: self.times@,
            position: self.position as nat,
        }
    }
}

impl Task {
    /// The task behind a creation.
    pub fn create(title: String) -> (task: Self)
        ensures
            task@ == (TaskState {
                pending: Some(Request::Create(title)),
                listing: Seq::empty(),
                position: 0,
            }),
    {
        Task { phase: Phase::Creating(title), times: Vec::new(), position: 0 }
    }

    /// The task behind an append.
    pub fn append(tid: u64, text: String) -> (task: Self)
        ensures
            task@ == (TaskState {
                pending: Some(Request::Append(tid, text)),
                listing: Seq::empty(),
                position: 0,
            }),
    {
        Task { phase: Phase::Appending(tid, text), times: Vec::new(), position: 0 }
    }

    /// The task behind a reload.
    pub fn reload() -> (task: Self)
        ensures
            task@ == (TaskState {
                pending: Some(Request::List),
                listing: Seq::empty(),
                position: 0,
            }),
    {
        Task { phase: Phase::Listing, times: Vec::new(), position: 0 }
    }

    /// The task behind a call that a node asked for.
    pub fn start(command: Command) -> (task: Self)
        ensures
            task@ == (TaskState {
                pending: Some(
                    match command {
                        Command::Create(title) => Request::Create(title),
                        Command::Reload => Request::List,
                        Command::Append(tid, text) => Request::Append(tid, text),
                    },
                ),
                listing: Seq::empty(),
                position: 0,
            }),
    {
        match command {
            Command::Create(title) => Task::create(title),
            Command::Reload => Task::reload(),
            Command::Append(tid, text) => Task::append(tid, text),
        }
    }

    /// The request that the task waits to have answered; none once the
    /// task has ended.
    pub fn request(&self) -> (request: Option<Request>)
        ensures
            request == self@.pending,
    {
        match &self.phase {
            Phase::Creating(title) => Some(Request::Create(title.clone())),
            Phase::Appending(tid, text) => Some(Request::Append(*tid, text.clone())),
            Phase::Listing => Some(Request::List),
            Phase::Fetching => if self.position < self.times.len() {
                Some(Request::Latest(self.times[self.position].id))
            } else {
                None
            },
            Phase::Ended => None,
        }
    }

    /// Takes the backend's answer to the pending request, and hands back
    /// the message to send for it, if any. A failure ends the task; so
    /// does an answer that belongs to another request than the pending
    /// one, which is reported as a failure too. A task that has ended
    /// takes no answer.
    pub fn answer(&mut self, answer: Answer) -> (message: Option<Message>)
        ensures
            answered(old(self)@, answer, final(self)@, message),
    {
        let request = self.request();
        match (request, answer) {
            (None, _) => None,
            (Some(Request::Create(_)), Answer::Created(created)) => {
                self.phase = Phase::Ended;
                Some(create_message(created))
            },
            (Some(Request::List), Answer::Listed(listed)) => {
                let message = list_message(&listed);
                match listed {
                    Ok(times) => {
                        self.times = times;
                        self.position = 0;
                        self.phase = Phase::Fetching;
                    },
                    Err(_) => {
                        self.phase = Phase::Ended;
                    },
                }
                Some(message)
            },
            (Some(Request::Append(tid, _)), Answer::Appended(appended)) => {
                self.phase = Phase::Ended;
                Some(append_message(tid, appended))
            },
            (Some(Request::Latest(tid)), Answer::Latest(found)) => {
                match &found {
                    Ok(_) => {
                        assert(self.position < self.times.len());
                        self.position = self.position + 1;
                    },
                    Err(_) => {
                        self.phase = Phase::Ended;
                    },
                }
                latest_message(tid, found)
            },
            (Some(_), _) => {
                self.phase = Phase::Ended;
                Some(Message::Error(String::from_str("unexpected answer")))
            },
        }
    }

    /// Takes note that a message could not be delivered because the node
    /// is gone: the task ends at once and asks for nothing more.
    pub fn undelivered(&mut self, error: ChannelError)
        ensures
            final(self)@ == (TaskState { pending: None, ..old(self)@ }),
    {
        match error {
            ChannelError::Closed => {
                self.phase = Phase::Ended;
            },
        }
    }
}

/// The task behind a creation, on a backend whose calls return: asks the
/// backend for a `Times` with the title, which is not empty, and answers
/// with what came of it. A backend that failed is as it was.
pub fn run_create<S: Store>(store: &mut S, title: String) -> (message: Message)
    requires
        old(store).inv(),
        title@.len() > 0,
    ensures
        final(store).inv(),
        match message {
            Message::Create(times) => {
                &&& times.title == title
                &&& !has_id(old(store).state().times, times.id)
                &&& final(store).state() == (StoreState {
                    times: old(store).state().times.push(times),
                    ..old(store).state()
                })
            },
            Message::Error(_) => final(store).state() == old(store).state(),
            _ => false,
        },
{
    create_message(store.create_times(title))
}

/// The task behind an append, on a backend whose calls return: asks the
/// backend to append a post with the text to the `Times` with the
/// identifier, and answers with what came of it. A backend that failed is
/// as it was.
pub fn run_append<S: Store>(store: &mut S, tid: u64, text: String) -> (message: Message)
    requires
        old(store).inv(),
    ensures
        final(store).inv(),
        match message {
            Message::UpdateLatest(id, post) => {
                &&& id == tid
                &&& post.post == text
                &&& has_id(old(store).state().times, tid)
                &&& final(store).state() == (StoreState {
                    posts: old(store).state().posts.push((tid, post)),
                    ..old(store).state()
                })
                &&& latest(final(store).state().posts, tid) == Some(post)
            },
            Message::Error(_) => final(store).state() == old(store).state(),
            _ => false,
        },
{
    let appended = store.create_post(tid, text);
    proof {
        if appended is Ok {
            lemma_latest_after_append(old(store).state().posts, tid, appended->Ok_0, tid);
        }
    }
    append_message(tid, appended)
}

/// The task behind a reload, on a backend whose calls return: lists every
/// `Times`, answers with the fresh cache, and then asks for the latest
/// post of each `Times` in turn and answers with each one found. The
/// first failure is reported and ends the task. The backend stays as it
/// was.
pub fn run_reload<S: Store>(store: &mut S) -> (messages: Vec<Message>)
    requires
        old(store).inv(),
    ensures
        final(store).inv(),
        final(store).state() == old(store).state(),
        reload_outcome(old(store).state(), messages@),
{
    let mut task = Task::reload();
    let mut messages: Vec<Message> = Vec::new();
    let listed = store.get_times();
    let failed = listed.is_err();
    if let Some(message) = task.answer(Answer::Listed(listed)) {
        messages.push(message);
    }
    if failed {
        return messages;
    }
    let ghost state = store.state();
    loop
        invariant
            store.inv(),
            store.state() == state,
            state == old(store).state(),
            task@.listing == state.times,
            task@.position <= state.times.len(),
            task@.pending == next_latest(task@.listing, task@.position),
            messages@.len() >= 1,
            refreshes(messages@[0], state.times),
            messages@.skip(1) == latest_updates(
                state.times.take(task@.position as int),
                state.posts,
            ),
        decreases state.times.len() - task@.position,
    {
        let ghost position = task@.position as int;
        let ghost before = messages@;
        let tid = match task.request() {
            Some(Request::Latest(tid)) => tid,
            _ => {
                assert(state.times.take(position) == state.times);
                return messages;
            },
        };
        let found = store.get_latest_post(tid);
        let failed = found.is_err();
        proof {
            assert(state.times.take(position + 1).drop_last() == state.times.take(position));
        }
        match task.answer(Answer::Latest(found)) {
            Some(message) => {
                messages.push(message);
                if failed {
                    proof {
                        lemma_updates_prefix(state.times, state.posts, position);
                        assert(messages@.subrange(1, messages@.len() - 1) == before.skip(1));
                    }
                    return messages;
                }
            },
            None => {},
        }
    }
}

} // verus!
