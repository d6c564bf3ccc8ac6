use timesman::model::{BackendError, ChannelError, CivilTime, Command, Message, Post, Times};
use timesman::task::{refresh_message, Answer, Request, Task};

fn at() -> CivilTime {
    CivilTime { year: 2024, month: 1, day: 1, hour: 0, minute: 0, second: 0, nanosecond: 0 }
}

fn times(id: u64, title: &str) -> Times {
    Times { id, title: title.to_string(), created_at: at(), updated_at: None }
}

fn post(id: u64, text: &str) -> Post {
    Post { id, post: text.to_string(), created_at: at() }
}

#[test]
fn creation_asks_once_and_answers_once() {
    let mut task = Task::create("20240101".to_string());
    assert_eq!(task.request(), Some(Request::Create("20240101".to_string())));
    assert_eq!(task.request(), Some(Request::Create("20240101".to_string())));
    let message = task.answer(Answer::Created(Ok(times(1, "20240101"))));
    assert_eq!(message, Some(Message::Create(times(1, "20240101"))));
    assert_eq!(task.request(), None);
    assert_eq!(task.answer(Answer::Created(Ok(times(2, "again")))), None);
}

#[test]
fn failed_creation_is_told_once() {
    let mut task = Task::create("20240101".to_string());
    let message = task.answer(Answer::Created(Err(BackendError::Unavailable("down".to_string()))));
    assert_eq!(message, Some(Message::Error("unavailable: down".to_string())));
    assert_eq!(task.request(), None);
}

#[test]
fn reload_lists_and_then_asks_for_each_latest_post_in_turn() {
    let mut task = Task::reload();
    assert_eq!(task.request(), Some(Request::List));
    let listing = vec![times(4, "a"), times(2, "b"), times(9, "c")];
    let message = task.answer(Answer::Listed(Ok(listing.clone())));
    assert_eq!(message, Some(refresh_message(&listing)));
    assert_eq!(task.request(), Some(Request::Latest(4)));
    assert_eq!(
        task.answer(Answer::Latest(Ok(Some(post(1, "x"))))),
        Some(Message::UpdateLatest(4, post(1, "x")))
    );
    assert_eq!(task.request(), Some(Request::Latest(2)));
    assert_eq!(task.answer(Answer::Latest(Ok(None))), None);
    assert_eq!(task.request(), Some(Request::Latest(9)));
    assert_eq!(
        task.answer(Answer::Latest(Ok(Some(post(7, "z"))))),
        Some(Message::UpdateLatest(9, post(7, "z")))
    );
    assert_eq!(task.request(), None);
    assert_eq!(task.answer(Answer::Latest(Ok(None))), None);
}

#[test]
fn reload_of_an_empty_backend_ends_after_the_listing() {
    let mut task = Task::reload();
    assert_eq!(task.answer(Answer::Listed(Ok(vec![]))), Some(refresh_message(&vec![])));
    assert_eq!(task.request(), None);
}

#[test]
fn reload_ends_with_the_first_failure() {
    let mut task = Task::reload();
    let message = task.answer(Answer::Listed(Err(BackendError::Malformed("eof".to_string()))));
    assert_eq!(message, Some(Message::Error("malformed: eof".to_string())));
    assert_eq!(task.request(), None);

    let mut task = Task::reload();
    task.answer(Answer::Listed(Ok(vec![times(1, "a"), times(2, "b")])));
    let message = task.answer(Answer::Latest(Err(BackendError::NotFound)));
    assert_eq!(message, Some(Message::Error("not found".to_string())));
    assert_eq!(task.request(), None);
}

#[test]
fn answer_to_another_request_ends_the_task_with_a_failure() {
    let mut task = Task::reload();
    let message = task.answer(Answer::Latest(Ok(None)));
    assert_eq!(message, Some(Message::Error("unexpected answer".to_string())));
    assert_eq!(task.request(), None);

    let mut task = Task::create("a".to_string());
    let message = task.answer(Answer::Listed(Ok(vec![])));
    assert_eq!(message, Some(Message::Error("unexpected answer".to_string())));
    assert_eq!(task.request(), None);

    let mut task = Task::reload();
    task.answer(Answer::Listed(Ok(vec![times(1, "a")])));
    let message = task.answer(Answer::Created(Ok(times(1, "a"))));
    assert_eq!(message, Some(Message::Error("unexpected answer".to_string())));
    assert_eq!(task.request(), None);
}

#[test]
fn task_ends_when_its_message_cannot_be_delivered() {
    let mut task = Task::reload();
    task.answer(Answer::Listed(Ok(vec![times(1, "a"), times(2, "b")])));
    assert_eq!(task.request(), Some(Request::Latest(1)));
    task.undelivered(ChannelError::Closed);
    assert_eq!(task.request(), None);
    assert_eq!(task.answer(Answer::Latest(Ok(Some(post(1, "x"))))), None);
}

#[test]
fn commands_start_their_tasks() {
    assert_eq!(
        Task::start(Command::Create("a".to_string())).request(),
        Some(Request::Create("a".to_string()))
    );
    assert_eq!(Task::start(Command::Reload).request(), Some(Request::List));
}
