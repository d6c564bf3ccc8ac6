//! The detail node of one `Times`: it shows the `Times` and the post that
//! was appended to it last from this node, and has a text field from
//! which posts are appended. Like the selection node it asks for backend
//! calls as commands and learns of their outcome only through the
//! messages on its own channel.

use crate::channel::{
    another_sender, channel_limit, feeds, max_capacity, open_channel, try_receive,
    CHANNEL_CAPACITY,
};
use crate::model::{Command, Event, Message, Post, Times};
use crate::pane::{menu_event, pane_menu, MenuInput, Pane};
use tokio::sync::mpsc::{Receiver, Sender};
use vstd::prelude::*;

verus! {

/// What the detail node holds, as mathematics.
pub struct TimesState {
    /// The `Times` that the node shows.
    pub times: Times,
    /// The content of the text field.
    pub text: Seq<char>,
    /// The post that was appended last from this node, once the backend
    /// has answered.
    pub latest: Option<Post>,
    /// The texts of the failures reported so far, oldest first.
    pub failures: Seq<String>,
    /// The backend calls that the node has asked for and that the
    /// application has not yet taken, oldest first.
    pub commands: Seq<Command>,
    /// The number of messages that the node's channel holds before a
    /// sender has to wait.
    pub capacity: nat,
    /// The senders that reach the node: the sending ends of the channel
    /// that the node drains. They stay the same for as long as the node
    /// lives.
    pub senders: Set<Sender<Message>>,
    /// Whether the sender that the node holds is one of them.
    pub wired: bool,
}

/// What the user did to the detail node in one frame.
pub struct TimesInput {
    /// The entries of the node menu that were pressed.
    pub menu: MenuInput,
    /// The content of the text field after this frame's edits.
    pub text: String,
    /// Whether the text field was submitted.
    pub enter: bool,
}

/// The state after one message has been taken in. A post appended to the
/// node's `Times` becomes the latest and empties the text field; a
/// failure is added to the failures and leaves everything else, the text
/// field too; a message on anything else is passed over.
pub open spec fn noted(state: TimesState, message: Message) -> TimesState {
    match message {
        Message::UpdateLatest(id, post) => if id == state.times.id {
            TimesState { latest: Some(post), text: Seq::empty(), ..state }
        } else {
            state
        },
        Message::Error(text) => TimesState { failures: state.failures.push(text), ..state },
        _ => state,
    }
}

/// The state after the messages have been taken in, in their order.
pub open spec fn noted_all(state: TimesState, messages: Seq<Message>) -> TimesState
    decreases messages.len(),
{
    if messages.len() == 0 {
        state
    } else {
        noted(noted_all(state, messages.drop_last()), messages.last())
    }
}

/// One step of a drain, on what the channel answered: the state after
/// it, and whether the drain ends with it, which it does when the channel
/// reports that nothing is pending.
pub open spec fn noted_step(state: TimesState, next: Option<Message>) -> (TimesState, bool) {
    match next {
        None => (state, true),
        Some(message) => (noted(state, message), false),
    }
}

/// The commands that a frame adds: the append of the text field's
/// content where the field was submitted with a text in it.
pub open spec fn append_commands(id: u64, input: TimesInput) -> Seq<Command> {
    if input.enter && input.text@.len() > 0 {
        seq![Command::Append(id, input.text)]
    } else {
        Seq::empty()
    }
}

/// The state after the node has reacted to `input`: the text field is
/// taken over and stays until the backend has answered, and what the
/// node shows of the backend is as it was.
pub open spec fn typed(state: TimesState, input: TimesInput) -> TimesState {
    TimesState {
        text: input.text@,
        commands: state.commands + append_commands(state.times.id, input),
        ..state
    }
}

/// A failure leaves what the node shows of the backend, and the text
/// field, as they were.
pub proof fn lemma_failure_keeps_latest(state: TimesState, text: String)
    ensures
        noted(state, Message::Error(text)) == (TimesState {
            failures: state.failures.push(text),
            ..state
        }),
{
}

/// The node keeps its `Times` and its channel whatever messages it takes
/// in: the senders that reached it before reach it after.
pub proof fn lemma_noted_keeps_channel(state: TimesState, messages: Seq<Message>)
    ensures
        noted_all(state, messages).times == state.times,
        noted_all(state, messages).senders == state.senders,
        noted_all(state, messages).wired == state.wired,
        noted_all(state, messages).capacity == state.capacity,
        noted_all(state, messages).commands == state.commands,
    decreases messages.len(),
{
    if messages.len() > 0 {
        lemma_noted_keeps_channel(state, messages.drop_last());
    }
}

/// The detail node.
pub struct TimesPane {
    times: Times,
    text: String,
    latest: Option<Post>,
    failures: Vec<String>,
    commands: Vec<Command>,
    tx: Sender<Message>,
    rx: Receiver<Message>,
}

impl View for TimesPane {
    type V = TimesState;

    closed spec fn view(&self) -> TimesState {
        TimesState {
            times: self.times,
            text: self.text@,
            latest: self.latest,
            failures: self.failures@,
            commands: self.commands@,
            capacity: channel_limit(self.rx) as nat,
            senders: Set::new(|tx: Sender<Message>| feeds(tx, self.rx)),
            wired: feeds(self.tx, self.rx),
        }
    }
}

impl TimesPane {
    /// A node that shows `times`, with an empty text field and a channel
    /// of its own, of which it holds both ends.
    pub fn new(times: Times) -> (pane: Self)
        ensures
            pane@.times == times,
            pane@.text == Seq::<char>::empty(),
            pane@.latest is None,
            pane@.failures == Seq::<String>::empty(),
            pane@.commands == Seq::<Command>::empty(),
            pane@.capacity == CHANNEL_CAPACITY,
            pane@.wired,
    {
        let (tx, rx) = open_channel(CHANNEL_CAPACITY);
        TimesPane {
            times,
            text: String::new(),
            latest: None,
            failures: Vec::new(),
            commands: Vec::new(),
            tx,
            rx,
        }
    }

    /// Takes one message in.
    pub fn apply_message(&mut self, message: Message)
        ensures
            final(self)@ == noted(old(self)@, message),
    {
        match message {
            Message::UpdateLatest(id, post) => {
                if id == self.times.id {
                    self.latest = Some(post);
                    self.text = String::new();
                }
            },
            Message::Error(text) => {
                self.failures.push(text);
            },
            _ => {},
        }
    }

    /// One step of a drain, on what the channel answered to an attempt
    /// to receive: a message is taken in; where nothing is pending the
    /// node stays as it is and the drain ends.
    pub fn drain_step(&mut self, next: Option<Message>) -> (done: bool)
        ensures
            (final(self)@, done) == noted_step(old(self)@, next),
    {
        match next {
            None => true,
            Some(message) => {
                self.apply_message(message);
                false
            },
        }
    }

    /// Takes in the messages that are pending on the node's channel, oldest
    /// first and without waiting: it asks the channel again and again and
    /// makes a `drain_step` of each answer, until a step ends the drain.
    /// What is pending depends on what the senders have done by now, so the
    /// contract holds of whatever messages the channel handed out. So that
    /// a frame ends whatever the senders do, the drain makes at most
    /// `usize::MAX` steps.
    pub fn handle_message(&mut self)
        ensures
            exists|messages: Seq<Message>| final(self)@ == noted_all(old(self)@, messages),
    {
        let ghost mut seen: Seq<Message> = Seq::empty();
        let mut budget: usize = usize::MAX;
        while budget > 0
            invariant
                self@ == noted_all(old(self)@, seen),
            decreases budget,
        {
            budget = budget - 1;
            let ghost senders = self@.senders;
            let next = try_receive(&mut self.rx);
            proof {
                assert(self@.senders =~= senders);
                if next is Some {
                    assert(seen.push(next->0).drop_last() == seen);
                    seen = seen.push(next->0);
                }
            }
            if self.drain_step(next) {
                return ;
            }
        }
    }

    /// Reacts to what the user did in one frame: takes over the text
    /// field, asks for the append of its content where it was submitted
    /// with a text in it, and asks for the transition chosen in the menu.
    pub fn react(&mut self, input: TimesInput) -> (event: Option<Event>)
        ensures
            final(self)@ == typed(old(self)@, input),
            event == menu_event(input.menu),
    {
        let TimesInput { menu, text, enter } = input;
        if enter && text.as_str().unicode_len() > 0 {
            self.commands.push(Command::Append(self.times.id, text.clone()));
        }
        assert(self.commands@ == old(self)@.commands + append_commands(old(self)@.times.id, input));
        self.text = text;
        pane_menu(menu)
    }

    /// The `Times` that the node shows.
    pub fn times(&self) -> (times: &Times)
        ensures
            *times == self@.times,
    {
        &self.times
    }

    /// The content of the text field.
    pub fn text(&self) -> (text: &String)
        ensures
            text@ == self@.text,
    {
        &self.text
    }

    /// The post that was appended last from this node, if any.
    pub fn latest(&self) -> (latest: &Option<Post>)
        ensures
            *latest == self@.latest,
    {
        &self.latest
    }

    /// The texts of the failures reported so far, oldest first.
    pub fn failures(&self) -> (texts: &Vec<String>)
        ensures
            texts@ == self@.failures,
    {
        &self.failures
    }

    /// The number of messages that the node's channel holds before a
    /// sender has to wait.
    pub fn capacity(&self) -> (capacity: usize)
        ensures
            capacity == self@.capacity,
    {
        max_capacity(&self.rx)
    }

    /// Hands over the backend calls that the node has asked for, oldest
    /// first, and forgets them.
    pub fn take_commands(&mut self) -> (commands: Vec<Command>)
        ensures
            commands@ == old(self)@.commands,
            final(self)@ == (TimesState { commands: Seq::empty(), ..old(self)@ }),
    {
        let mut taken: Vec<Command> = Vec::new();
        std::mem::swap(&mut self.commands, &mut taken);
        taken
    }

    /// Another handle to the sending side of the node's channel, for a
    /// background task to answer on: what the task sends on it, this node
    /// drains.
    pub fn sender(&self) -> (tx: Sender<Message>)
        ensures
            self@.wired ==> self@.senders.contains(tx),
    {
        another_sender(&self.tx)
    }
}

impl Pane for TimesPane {
    type Input = TimesInput;

    /// One frame: the pending messages first, then the user's input.
    fn update(&mut self, input: TimesInput) -> (event: Option<Event>)
        ensures
            exists|messages: Seq<Message>|
                final(self)@ == typed(noted_all(old(self)@, messages), input),
            event == menu_event(input.menu),
    {
        self.handle_message();
        self.react(input)
    }

    /// The node shows only what was appended from it: there is nothing to
    /// fetch.
    fn reload(&mut self)
        ensures
            final(self)@ == old(self)@,
    {
    }
}

} // verus!
