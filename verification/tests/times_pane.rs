use timesman::model::{BackendError, CivilTime, Command, Event, Message, Post, Times};
use timesman::pane::times::{TimesInput, TimesPane};
use timesman::pane::{MenuInput, Pane};
use timesman::store::{MemoryStore, Store};
use timesman::task::{append_message, run_append, Answer, Request, Task};

fn at(day: u32) -> CivilTime {
    CivilTime { year: 2024, month: 1, day, hour: 9, minute: 30, second: 0, nanosecond: 0 }
}

fn times(id: u64, title: &str) -> Times {
    Times { id, title: title.to_string(), created_at: at(1), updated_at: None }
}

fn post(id: u64, text: &str) -> Post {
    Post { id, post: text.to_string(), created_at: at(2) }
}

fn input(text: &str, enter: bool) -> TimesInput {
    TimesInput {
        menu: MenuInput { logs: false, config: false, back: false },
        text: text.to_string(),
        enter,
    }
}

#[test]
fn new_detail_node_shows_its_times_and_asks_for_nothing() {
    let mut pane = TimesPane::new(times(3, "20240101"));
    assert_eq!(pane.times(), &times(3, "20240101"));
    assert_eq!(pane.text(), "");
    assert_eq!(pane.latest(), &None);
    assert!(pane.failures().is_empty());
    assert_eq!(pane.capacity(), 32);
    assert_eq!(pane.take_commands(), vec![]);
}

#[test]
fn submitted_text_is_asked_to_be_appended_and_stays_in_the_field() {
    let mut pane = TimesPane::new(times(3, "20240101"));
    assert_eq!(pane.update(input("hel", false)), None);
    assert_eq!(pane.text(), "hel");
    assert_eq!(pane.take_commands(), vec![]);
    assert_eq!(pane.update(input("hello", true)), None);
    assert_eq!(pane.text(), "hello");
    assert_eq!(pane.latest(), &None);
    assert_eq!(pane.take_commands(), vec![Command::Append(3, "hello".to_string())]);
    assert_eq!(pane.take_commands(), vec![]);
}

#[test]
fn submission_of_an_empty_field_asks_for_nothing() {
    let mut pane = TimesPane::new(times(3, "20240101"));
    assert_eq!(pane.react(input("", true)), None);
    assert_eq!(pane.take_commands(), vec![]);
}

#[test]
fn detail_node_menu_asks_for_its_transition() {
    let mut pane = TimesPane::new(times(3, "20240101"));
    let mut frame = input("x", true);
    frame.menu = MenuInput { logs: true, config: false, back: true };
    assert_eq!(pane.update(frame), Some(Event::Pop));
    assert_eq!(pane.take_commands(), vec![Command::Append(3, "x".to_string())]);
}

#[test]
fn appended_post_becomes_the_latest_and_empties_the_field() {
    let mut pane = TimesPane::new(times(3, "20240101"));
    assert_eq!(pane.react(input("hello", true)), None);
    pane.apply_message(Message::UpdateLatest(3, post(1, "hello")));
    assert_eq!(pane.latest(), &Some(post(1, "hello")));
    assert_eq!(pane.text(), "");
    assert!(pane.failures().is_empty());
}

#[test]
fn failed_append_keeps_latest_and_field_and_is_shown() {
    let mut pane = TimesPane::new(times(3, "20240101"));
    pane.apply_message(Message::UpdateLatest(3, post(1, "first")));
    assert_eq!(pane.react(input("second", true)), None);
    let failure = append_message(3, Err(BackendError::Unavailable("down".to_string())));
    assert_eq!(failure, Message::Error("unavailable: down".to_string()));
    pane.sender().try_send(failure).unwrap();
    pane.handle_message();
    assert_eq!(pane.latest(), &Some(post(1, "first")));
    assert_eq!(pane.text(), "second");
    assert_eq!(pane.failures(), &vec!["unavailable: down".to_string()]);
}

#[test]
fn messages_on_anything_else_are_passed_over() {
    let mut pane = TimesPane::new(times(3, "20240101"));
    assert_eq!(pane.react(input("typed", false)), None);
    pane.apply_message(Message::UpdateLatest(4, post(1, "other")));
    pane.apply_message(Message::Create(times(9, "new")));
    pane.apply_message(Message::Refresh(std::collections::HashMap::new()));
    assert_eq!(pane.latest(), &None);
    assert_eq!(pane.text(), "typed");
    assert_eq!(pane.times(), &times(3, "20240101"));
    assert!(pane.failures().is_empty());
}

#[test]
fn detail_node_drains_in_send_order() {
    let mut pane = TimesPane::new(times(3, "20240101"));
    let tx = pane.sender();
    tx.try_send(Message::UpdateLatest(3, post(1, "one"))).unwrap();
    tx.try_send(Message::Error("lost".to_string())).unwrap();
    tx.try_send(Message::UpdateLatest(3, post(2, "two"))).unwrap();
    tx.try_send(Message::Error("lost again".to_string())).unwrap();
    pane.handle_message();
    assert_eq!(pane.latest(), &Some(post(2, "two")));
    assert_eq!(pane.failures(), &vec!["lost".to_string(), "lost again".to_string()]);
    pane.handle_message();
    assert_eq!(pane.failures().len(), 2);
}

#[test]
fn detail_node_drain_step_by_step() {
    let mut pane = TimesPane::new(times(3, "20240101"));
    assert!(!pane.drain_step(Some(Message::UpdateLatest(3, post(1, "one")))));
    assert_eq!(pane.latest(), &Some(post(1, "one")));
    assert!(!pane.drain_step(Some(Message::Error("lost".to_string()))));
    assert!(pane.drain_step(None));
    assert_eq!(pane.latest(), &Some(post(1, "one")));
    assert_eq!(pane.failures(), &vec!["lost".to_string()]);
}

#[test]
fn detail_node_frame_with_nothing_pending_changes_nothing() {
    let mut pane = TimesPane::new(times(3, "20240101"));
    pane.apply_message(Message::UpdateLatest(3, post(1, "one")));
    assert_eq!(pane.update(input("", false)), None);
    pane.reload();
    assert_eq!(pane.latest(), &Some(post(1, "one")));
    assert!(pane.failures().is_empty());
    assert_eq!(pane.take_commands(), vec![]);
}

#[test]
fn detail_node_sender_reaches_its_own_node() {
    let mut first = TimesPane::new(times(1, "a"));
    let mut second = TimesPane::new(times(1, "a"));
    first.sender().try_send(Message::Error("for the first".to_string())).unwrap();
    second.handle_message();
    assert!(second.failures().is_empty());
    first.handle_message();
    assert_eq!(first.failures(), &vec!["for the first".to_string()]);
}

#[test]
fn append_task_asks_once_and_answers_once() {
    let mut task = Task::start(Command::Append(3, "hello".to_string()));
    assert_eq!(task.request(), Some(Request::Append(3, "hello".to_string())));
    let message = task.answer(Answer::Appended(Ok(post(7, "hello"))));
    assert_eq!(message, Some(Message::UpdateLatest(3, post(7, "hello"))));
    assert_eq!(task.request(), None);
    assert_eq!(task.answer(Answer::Appended(Ok(post(8, "again")))), None);
}

#[test]
fn failed_append_is_told_once() {
    let mut task = Task::append(3, "hello".to_string());
    let message = task.answer(Answer::Appended(Err(BackendError::NotFound)));
    assert_eq!(message, Some(Message::Error("not found".to_string())));
    assert_eq!(task.request(), None);
}

#[test]
fn append_task_refuses_an_answer_to_another_request() {
    let mut task = Task::append(3, "hello".to_string());
    let message = task.answer(Answer::Latest(Ok(None)));
    assert_eq!(message, Some(Message::Error("unexpected answer".to_string())));
    assert_eq!(task.request(), None);
    let mut task = Task::reload();
    let message = task.answer(Answer::Appended(Ok(post(1, "x"))));
    assert_eq!(message, Some(Message::Error("unexpected answer".to_string())));
    assert_eq!(task.request(), None);
}

#[test]
fn run_append_answers_with_the_latest_post() {
    let mut store = MemoryStore::new();
    let created = store.create_times("20240101".to_string()).unwrap();
    let message = run_append(&mut store, created.id, "hello".to_string());
    match &message {
        Message::UpdateLatest(tid, appended) => {
            assert_eq!(*tid, created.id);
            assert_eq!(appended.id, 1);
            assert_eq!(appended.post, "hello");
            assert_eq!(store.get_latest_post(created.id), Ok(Some(appended.clone())));
        }
        other => panic!("unexpected message {:?}", other),
    }
    let mut pane = TimesPane::new(created);
    pane.apply_message(message);
    assert_eq!(pane.latest().as_ref().map(|p| p.post.as_str()), Some("hello"));
}

#[test]
fn run_append_to_an_unknown_times_reports_and_changes_nothing() {
    let mut store = MemoryStore::new();
    let created = store.create_times("20240101".to_string()).unwrap();
    let message = run_append(&mut store, created.id + 1, "hello".to_string());
    assert_eq!(message, Message::Error("not found".to_string()));
    assert_eq!(store.get_latest_post(created.id), Ok(None));
    assert_eq!(store.get_times(), Ok(vec![created]));
}
