//! The selection node: it caches every `Times` of the store with its
//! latest post, lets the user pick one or create one, and learns of the
//! store's answers only through the messages on its channel.

use crate::channel::{
    another_sender, channel_limit, feeds, max_capacity, open_channel, try_receive,
    CHANNEL_CAPACITY,
};
use crate::clock::today_title;
use crate::model::{Command, Event, Message, Times, TimesData};
use crate::pane::Pane;
use std::collections::HashMap;
use tokio::sync::mpsc::{Receiver, Sender};
use vstd::prelude::*;

verus! {

broadcast use vstd::std_specs::hash::group_hash_axioms;

/// What the selection node holds, as mathematics.
pub struct SelectState {
    /// The cache: every known `Times` by its identifier.
    pub times: Map<u64, TimesData>,
    /// The content of the title field.
    pub new_title: Seq<char>,
    /// The texts of the failures reported so far, oldest first.
    pub failures: Seq<String>,
    /// The backend calls that the node has asked for and that the
    /// application has not yet taken, oldest first.
    pub commands: Seq<Command>,
    /// The number of messages that the node's channel holds before a
    /// sender has to wait.
    pub capacity: nat,
    /// The senders that reach the node: the sending ends of the channel
    /// that the node drains. They stay the same for as long as the node
    /// lives.
    pub senders: Set<Sender<Message>>,
    /// Whether the sender that the node holds is one of them.
    pub wired: bool,
}

/// What the user did to the selection node in one frame.
pub struct SelectInput {
    /// The transition chosen in the node's menu, if any.
    pub menu: Option<Event>,
    /// The content of the title field after this frame's edits.
    pub title: String,
    /// Whether the button for today's `Times` was pressed.
    pub today: bool,
    /// Whether the title field was submitted.
    pub enter: bool,
    /// The identifier of the row that was clicked, if any.
    pub clicked: Option<u64>,
}

/// Whether `times` is cached in `cache` under some identifier.
pub open spec fn cached(cache: Map<u64, TimesData>, times: Times) -> bool {
    exists|id: u64| #[trigger] cache.contains_key(id) && cache[id].times == times
}

/// Whether some cached `Times` carries `title`.
pub open spec fn has_title(cache: Map<u64, TimesData>, title: Seq<char>) -> bool {
    exists|id: u64| #[trigger] cache.contains_key(id) && cache[id].times.title@ == title
}

/// The transition that a message asks for: a created `Times` is opened at
/// once, every other message is silent.
pub open spec fn signal(message: Message) -> Option<Event> {
    match message {
        Message::Create(times) => Some(Event::Select(times)),
        _ => None,
    }
}

/// The state after one message has been taken in.
pub open spec fn received(state: SelectState, message: Message) -> SelectState {
    match message {
        Message::Create(_) => SelectState { new_title: Seq::empty(), ..state },
        Message::Refresh(cache) => SelectState { times: cache@, ..state },
        Message::UpdateLatest(id, post) => if state.times.contains_key(id) {
            SelectState {
                times: state.times.insert(
                    id,
                    TimesData { times: state.times[id].times, latest: Some(post) },
                ),
                ..state
            }
        } else {
            state
        },
        Message::Error(text) => SelectState { failures: state.failures.push(text), ..state },
    }
}

/// The state after the messages have been taken in, in their order.
pub open spec fn drained(state: SelectState, messages: Seq<Message>) -> SelectState
    decreases messages.len(),
{
    if messages.len() == 0 {
        state
    } else {
        received(drained(state, messages.drop_last()), messages.last())
    }
}

/// Whether none of the messages but possibly the last asks for a
/// transition.
pub open spec fn silent_but_last(messages: Seq<Message>) -> bool {
    forall|i: int| 0 <= i < messages.len() - 1 ==> signal(#[trigger] messages[i]) is None
}

/// The transition that a drain of exactly `messages` ends with.
pub open spec fn last_signal(messages: Seq<Message>) -> Option<Event> {
    if messages.len() == 0 {
        None
    } else {
        signal(messages.last())
    }
}

/// A drain that took exactly `messages` off the channel led from `before`
/// to `after` and ended with `event`.
pub open spec fn drain_outcome(
    before: SelectState,
    messages: Seq<Message>,
    after: SelectState,
    event: Option<Event>,
) -> bool {
    &&& silent_but_last(messages)
    &&& after == drained(before, messages)
    &&& event == last_signal(messages)
}

/// One step of a drain, on what the channel answered: the state after
/// it, whether the drain ends with it, and the transition it asks for.
/// The drain ends when the channel reports that nothing is pending, and
/// with the first message that asks for a transition.
pub open spec fn stepped(state: SelectState, next: Option<Message>) -> (
    SelectState,
    bool,
    Option<Event>,
) {
    match next {
        None => (state, true, None),
        Some(message) => (received(state, message), signal(message) is Some, signal(message)),
    }
}

/// The drain that gets `answers` from its channel, one for each step it
/// makes: the state it ends in and the transition it ends with. Answers
/// behind the step that ends the drain are not asked for.
pub open spec fn drain_run(state: SelectState, answers: Seq<Option<Message>>) -> (
    SelectState,
    Option<Event>,
)
    decreases answers.len(),
{
    if answers.len() == 0 {
        (state, None)
    } else {
        let (next, done, event) = stepped(state, answers[0]);
        if done {
            (next, event)
        } else {
            drain_run(next, answers.skip(1))
        }
    }
}

/// What a channel answers, step by step, on which `messages` are pending
/// and nothing is sent any more: each message in the order in which it
/// was sent, and then that nothing is pending.
pub open spec fn answers_of(messages: Seq<Message>) -> Seq<Option<Message>> {
    messages.map_values(|message: Message| Some(message)).push(None)
}

/// The commands that a press of the today button adds: none where the
/// press was not made or today's `Times` is cached, else its creation. No
/// `Times` is created without a title.
pub open spec fn today_commands(cache: Map<u64, TimesData>, today: Option<String>) -> Seq<
    Command,
> {
    match today {
        Some(title) => if has_title(cache, title@) || title@.len() == 0 {
            Seq::empty()
        } else {
            seq![Command::Create(title)]
        },
        None => Seq::empty(),
    }
}

/// Whether every creation among the commands names a title.
pub open spec fn titled_creations(commands: Seq<Command>) -> bool {
    forall|i: int|
        0 <= i < commands.len() ==> (#[trigger] commands[i] matches Command::Create(title)
            ==> title@.len() > 0)
}

/// The commands that a submission of the title field adds: the creation
/// of a `Times` with that title, unless the field is empty.
pub open spec fn enter_commands(input: SelectInput) -> Seq<Command> {
    if input.enter && input.title@.len() > 0 {
        seq![Command::Create(input.title)]
    } else {
        Seq::empty()
    }
}

/// The node reacted to `input`, with `today` the title of today's `Times`
/// where the today button was pressed: it went from `before` to `after`
/// and asked for `event`. A click on a cached row wins over the today
/// button, and that over the menu.
pub open spec fn reacted(
    before: SelectState,
    input: SelectInput,
    today: Option<String>,
    after: SelectState,
    event: Option<Event>,
) -> bool {
    &&& after.times == before.times
    &&& after.failures == before.failures
    &&& after.capacity == before.capacity
    &&& after.senders == before.senders
    &&& after.wired == before.wired
    &&& after.new_title == input.title@
    &&& after.commands == before.commands + today_commands(before.times, today)
        + enter_commands(input)
    &&& if input.clicked is Some && before.times.contains_key(input.clicked->0) {
        event == Some(Event::Select(before.times[input.clicked->0].times))
    } else if today is Some && has_title(before.times, today->0@) {
        &&& event matches Some(Event::Select(times))
        &&& cached(before.times, times)
        &&& times.title@ == today->0@
    } else {
        event == input.menu
    }
}

/// One frame of the node: a drain of exactly `messages`, and, unless the
/// drain ended with a transition, the reaction to `input`.
pub open spec fn updated(
    before: SelectState,
    messages: Seq<Message>,
    input: SelectInput,
    today: Option<String>,
    after: SelectState,
    event: Option<Event>,
) -> bool {
    &&& silent_but_last(messages)
    &&& if last_signal(messages) is Some {
        &&& after == drained(before, messages)
        &&& event == last_signal(messages)
    } else {
        &&& today is Some <==> input.today
        &&& reacted(drained(before, messages), input, today, after, event)
    }
}

/// A frame in which nothing is pending changes nothing and asks for no
/// transition.
pub proof fn lemma_nothing_pending(before: SelectState, after: SelectState, event: Option<Event>)
    requires
        drain_outcome(before, Seq::empty(), after, event),
    ensures
        after == before,
        event is None,
{
}

/// Whether the user did nothing in the frame.
pub open spec fn idle(input: SelectInput) -> bool {
    input.menu is None && !input.today && !input.enter && input.clicked is None
}

/// A frame in which nothing is pending and the user does nothing keeps
/// the cache, the failures and the commands, and asks for no transition.
pub proof fn lemma_idle_frame(
    before: SelectState,
    input: SelectInput,
    today: Option<String>,
    after: SelectState,
    event: Option<Event>,
)
    requires
        idle(input),
        updated(before, Seq::empty(), input, today, after, event),
    ensures
        after.times == before.times,
        after.failures == before.failures,
        after.commands == before.commands,
        after.capacity == before.capacity,
        after.senders == before.senders,
        after.wired == before.wired,
        event is None,
{
}

/// What a frame's drain made of the messages that it took is what the
/// drain makes, step by step, of a channel on which exactly these
/// messages were pending.
pub proof fn lemma_outcome_is_run(
    before: SelectState,
    messages: Seq<Message>,
    after: SelectState,
    event: Option<Event>,
)
    requires
        drain_outcome(before, messages, after, event),
    ensures
        drain_run(before, answers_of(messages)) == (after, event),
{
    if last_signal(messages) is Some {
        let at = messages.len() - 1;
        assert(messages.take(at + 1) == messages);
        lemma_drain_stops_at_signal(before, messages, at);
    } else {
        lemma_drain_in_send_order(before, messages);
    }
}

/// The node never asks for a `Times` without a title: where every creation
/// asked for so far names one, so does every creation asked for after the
/// node has reacted to a frame, whatever the user did and whatever the
/// title of the day.
pub proof fn lemma_creations_are_titled(
    before: SelectState,
    input: SelectInput,
    today: Option<String>,
    after: SelectState,
    event: Option<Event>,
)
    requires
        reacted(before, input, today, after, event),
        titled_creations(before.commands),
    ensures
        titled_creations(after.commands),
{
}

/// A message taken in first is taken in before all that follow.
pub proof fn lemma_drained_from_front(state: SelectState, first: Message, rest: Seq<Message>)
    ensures
        drained(state, seq![first] + rest) == drained(received(state, first), rest),
{
    assert(seq![first].drop_last() == Seq::<Message>::empty());
    assert(drained(state, Seq::<Message>::empty()) == state);
    assert(seq![first].last() == first);
    assert(drained(state, seq![first]) == received(state, first));
    lemma_drained_in_order(state, seq![first], rest);
}

/// A drain takes in every pending message, each once and in the order in
/// which it was sent: on a channel with `messages` pending, none of which
/// asks for a transition, it ends when the channel reports that nothing
/// is pending, in the state that the messages lead to one after the
/// other, and asks for no transition.
pub proof fn lemma_drain_in_send_order(state: SelectState, messages: Seq<Message>)
    requires
        forall|i: int| 0 <= i < messages.len() ==> signal(#[trigger] messages[i]) is None,
    ensures
        drain_run(state, answers_of(messages)) == (drained(state, messages), None::<Event>),
    decreases messages.len(),
{
    if messages.len() > 0 {
        let first = messages[0];
        let rest = messages.skip(1);
        assert(answers_of(messages).skip(1) == answers_of(rest));
        assert(messages == seq![first] + rest);
        lemma_drain_in_send_order(received(state, first), rest);
        lemma_drained_from_front(state, first, rest);
    }
}

/// A drain stops at the first pending message that asks for a
/// transition: it has then taken in that message and every one sent
/// before it, in the order in which they were sent, and leaves the rest
/// pending.
pub proof fn lemma_drain_stops_at_signal(state: SelectState, messages: Seq<Message>, at: int)
    requires
        0 <= at < messages.len(),
        forall|i: int| 0 <= i < at ==> signal(#[trigger] messages[i]) is None,
        signal(messages[at]) is Some,
    ensures
        drain_run(state, answers_of(messages)) == (
            drained(state, messages.take(at + 1)),
            signal(messages[at]),
        ),
    decreases at,
{
    let first = messages[0];
    let rest = messages.skip(1);
    if at == 0 {
        assert(messages.take(1) == seq![first] + Seq::<Message>::empty());
        lemma_drained_from_front(state, first, Seq::empty());
    } else {
        assert(answers_of(messages).skip(1) == answers_of(rest));
        assert(messages.take(at + 1) == seq![first] + rest.take(at));
        lemma_drain_stops_at_signal(received(state, first), rest, at - 1);
        lemma_drained_from_front(state, first, rest.take(at));
    }
}

/// Messages are taken in one after the other: what two drains in a row
/// make of their messages, one drain makes of all of them.
pub proof fn lemma_drained_in_order(state: SelectState, first: Seq<Message>, second: Seq<Message>)
    ensures
        drained(state, first + second) == drained(drained(state, first), second),
    decreases second.len(),
{
    if second.len() > 0 {
        assert((first + second).drop_last() == first + second.drop_last());
        lemma_drained_in_order(state, first, second.drop_last());
    }
}

/// Failures are kept in the order in which they arrive, and nothing else
/// is touched by them.
pub proof fn lemma_failures_in_order(state: SelectState, texts: Seq<String>)
    ensures
        drained(state, texts.map_values(|text: String| Message::Error(text))) == (SelectState {
            failures: state.failures + texts,
            ..state
        }),
    decreases texts.len(),
{
    let messages = texts.map_values(|text: String| Message::Error(text));
    if texts.len() > 0 {
        assert(messages.drop_last() == texts.drop_last().map_values(
            |text: String| Message::Error(text),
        ));
        lemma_failures_in_order(state, texts.drop_last());
        assert(state.failures + texts == (state.failures + texts.drop_last()).push(texts.last()));
    }
}

/// The node keeps its channel whatever messages it takes in: the senders
/// that reached it before reach it after, and a drain asks for no backend
/// call.
pub proof fn lemma_drained_keeps_channel(state: SelectState, messages: Seq<Message>)
    ensures
        drained(state, messages).senders == state.senders,
        drained(state, messages).wired == state.wired,
        drained(state, messages).capacity == state.capacity,
        drained(state, messages).commands == state.commands,
    decreases messages.len(),
{
    if messages.len() > 0 {
        lemma_drained_keeps_channel(state, messages.drop_last());
    }
}

/// A failure leaves the cache as it was.
pub proof fn lemma_failure_keeps_cache(state: SelectState, text: String)
    ensures
        received(state, Message::Error(text)).times == state.times,
        received(state, Message::Error(text)).failures == state.failures.push(text),
        signal(Message::Error(text)) is None,
{
}

/// The selection node.
pub struct SelectPane {
    times: HashMap<u64, TimesData>,
    new_title: String,
    failures: Vec<String>,
    commands: Vec<Command>,
    tx: Sender<Message>,
    rx: Receiver<Message>,
}

impl View for SelectPane {
    type V = SelectState;

    closed spec fn view(&self) -> SelectState {
        SelectState {
            times: self.times@,
            new_title: self.new_title@,
            failures: self.failures@,
            commands: self.commands@,
            capacity: channel_limit(self.rx) as nat,
            senders: Set::new(|tx: Sender<Message>| feeds(tx, self.rx)),
            wired: feeds(self.tx, self.rx),
        }
    }
}

/// Looks for a cached `Times` with the given title. Where several carry
/// it, any of them may be the one found.
pub fn find_title(cache: &HashMap<u64, TimesData>, title: &String) -> (found: Option<Times>)
    ensures
        match found {
            Some(times) => cached(cache@, times) && times.title@ == title@,
            None => !has_title(cache@, title@),
        },
{
    for entry in it: cache.iter()
        invariant
            forall|i: int| 0 <= i < it.index() ==> (*it.seq()[i].1).times.title@ != title@,
    {
        let (id, tdata) = entry;
        if tdata.times.title == *title {
            assert(cache@.contains_key(*id));
            return Some(tdata.times.clone());
        }
    }
    None
}

impl SelectPane {
    /// A node with an empty cache and a channel of its own, of which it
    /// holds both ends, and which asks for a first reload.
    pub fn new() -> (pane: Self)
        ensures
            pane@.times == Map::<u64, TimesData>::empty(),
            pane@.new_title == Seq::<char>::empty(),
            pane@.failures == Seq::<String>::empty(),
            pane@.commands == seq![Command::Reload],
            pane@.capacity == CHANNEL_CAPACITY,
            pane@.wired,
    {
        let (tx, rx) = open_channel(CHANNEL_CAPACITY);
        let mut pane = SelectPane {
            times: HashMap::new(),
            new_title: String::new(),
            failures: Vec::new(),
            commands: Vec::new(),
            tx,
            rx,
        };
        pane.reload();
        pane
    }

    /// Asks for the whole cache to be fetched again. The cache changes
    /// only when the answer arrives.
    pub fn reload(&mut self)
        ensures
            final(self)@ == (SelectState {
                commands: old(self)@.commands.push(Command::Reload),
                ..old(self)@
            }),
    {
        self.commands.push(Command::Reload);
    }

    /// Takes one message in.
    pub fn apply_message(&mut self, message: Message) -> (event: Option<Event>)
        ensures
            final(self)@ == received(old(self)@, message),
            event == signal(message),
    {
        match message {
            Message::Create(times) => {
                self.new_title = String::new();
                Some(Event::Select(times))
            },
            Message::Refresh(cache) => {
                self.times = cache;
                None
            },
            Message::UpdateLatest(id, post) => {
                match self.times.remove(&id) {
                    Some(tdata) => {
                        self.times.insert(id, TimesData { times: tdata.times, latest: Some(post) });
                        assert(self.times@ == old(self).times@.insert(
                            id,
                            TimesData { times: old(self).times@[id].times, latest: Some(post) },
                        ));
                    },
                    None => {
                        assert(self.times@ == old(self).times@);
                    },
                }
                None
            },
            Message::Error(text) => {
                self.failures.push(text);
                None
            },
        }
    }

    /// One step of a drain, on what the channel answered to an attempt
    /// to receive: a message is taken in, and the drain ends with it where
    /// it asks for a transition; where nothing is pending the node stays
    /// as it is and the drain ends.
    pub fn drain_step(&mut self, next: Option<Message>) -> (done: (bool, Option<Event>))
        ensures
            (final(self)@, done.0, done.1) == stepped(old(self)@, next),
    {
        match next {
            None => (true, None),
            Some(message) => {
                let event = self.apply_message(message);
                (event.is_some(), event)
            },
        }
    }

    /// Takes in the messages that are pending on the node's channel, oldest
    /// first and without waiting: it asks the channel again and again and
    /// makes a `drain_step` of each answer, until a step ends the drain.
    /// What is pending depends on what the senders have done by now, so the
    /// contract holds of whatever messages the channel handed out. So that
    /// a frame ends whatever the senders do, the drain makes at most
    /// `usize::MAX` steps.
    pub fn handle_message(&mut self) -> (event: Option<Event>)
        ensures
            exists|messages: Seq<Message>|
                drain_outcome(old(self)@, messages, final(self)@, event),
    {
        let ghost mut seen: Seq<Message> = Seq::empty();
        let mut budget: usize = usize::MAX;
        while budget > 0
            invariant
                self@ == drained(old(self)@, seen),
                forall|i: int| 0 <= i < seen.len() ==> signal(#[trigger] seen[i]) is None,
            decreases budget,
        {
            budget = budget - 1;
            let ghost senders = self@.senders;
            let next = try_receive(&mut self.rx);
            proof {
                assert(self@.senders =~= senders);
                if next is Some {
                    assert(seen.push(next->0).drop_last() == seen);
                    seen = seen.push(next->0);
                }
            }
            let (done, event) = self.drain_step(next);
            if done {
                assert(drain_outcome(old(self)@, seen, self@, event));
                return event;
            }
        }
        assert(drain_outcome(old(self)@, seen, self@, None));
        None
    }

    /// Reacts to what the user did in one frame. `today` is the title of
    /// today's `Times`, given where the today button was pressed.
    pub fn react(&mut self, input: SelectInput, today: Option<String>) -> (event: Option<Event>)
        ensures
            reacted(old(self)@, input, today, final(self)@, event),
    {
        let SelectInput { menu, title, today: _, enter, clicked } = input;
        let mut event = menu;
        match today {
            Some(day) => {
                match find_title(&self.times, &day) {
                    Some(times) => {
                        event = Some(Event::Select(times));
                    },
                    None => {
                        if day.as_str().unicode_len() > 0 {
                            self.commands.push(Command::Create(day));
                        }
                    },
                }
            },
            None => {},
        }
        if enter && title.as_str().unicode_len() > 0 {
            self.commands.push(Command::Create(title.clone()));
        }
        assert(self.commands@ == old(self)@.commands + today_commands(old(self)@.times, today)
            + enter_commands(input));
        self.new_title = title;
        match clicked {
            Some(id) => {
                match self.times.get(&id) {
                    Some(tdata) => {
                        event = Some(Event::Select(tdata.times.clone()));
                    },
                    None => {},
                }
            },
            None => {},
        }
        event
    }

    /// The number of messages that the node's channel holds before a
    /// sender has to wait.
    pub fn capacity(&self) -> (capacity: usize)
        ensures
            capacity == self@.capacity,
    {
        max_capacity(&self.rx)
    }

    /// The text field's content.
    pub fn new_title(&self) -> (title: &String)
        ensures
            title@ == self@.new_title,
    {
        &self.new_title
    }

    /// The cache.
    pub fn times(&self) -> (cache: &HashMap<u64, TimesData>)
        ensures
            cache@ == self@.times,
    {
        &self.times
    }

    /// The texts of the failures reported so far, oldest first.
    pub fn failures(&self) -> (texts: &Vec<String>)
        ensures
            texts@ == self@.failures,
    {
        &self.failures
    }

    /// Hands over the backend calls that the node has asked for, oldest
    /// first, and forgets them.
    pub fn take_commands(&mut self) -> (commands: Vec<Command>)
        ensures
            commands@ == old(self)@.commands,
            final(self)@ == (SelectState { commands: Seq::empty(), ..old(self)@ }),
    {
        let mut taken: Vec<Command> = Vec::new();
        std::mem::swap(&mut self.commands, &mut taken);
        taken
    }

    /// Another handle to the sending side of the node's channel, for a
    /// background task to answer on: what the task sends on it, this node
    /// drains.
    pub fn sender(&self) -> (tx: Sender<Message>)
        ensures
            self@.wired ==> self@.senders.contains(tx),
    {
        another_sender(&self.tx)
    }
}

impl Pane for SelectPane {
    type Input = SelectInput;

    /// One frame: the pending messages first and, unless one of them asks
    /// for a transition, the user's input.
    fn update(&mut self, input: SelectInput) -> (event: Option<Event>)
        ensures
            exists|messages: Seq<Message>, today: Option<String>|
                updated(old(self)@, messages, input, today, final(self)@, event),
    {
        let drained_event = self.handle_message();
        let ghost messages = choose|messages: Seq<Message>|
            drain_outcome(old(self)@, messages, self@, drained_event);
        if drained_event.is_some() {
            assert(updated(old(self)@, messages, input, None, self@, drained_event));
            return drained_event;
        }
        let today = if input.today {
            Some(today_title())
        } else {
            None
        };
        let event = self.react(input, today);
        assert(updated(old(self)@, messages, input, today, self@, event));
        event
    }

    /// Asks for the whole cache to be fetched again.
    fn reload(&mut self)
        ensures
            final(self)@ == (SelectState {
                commands: old(self)@.commands.push(Command::Reload),
                ..old(self)@
            }),
    {
        SelectPane::reload(self)
    }
}

} // verus!
