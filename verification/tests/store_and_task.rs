use timesman::model::{BackendError, Message, Post, Times};
use timesman::pane::select::SelectPane;
use timesman::store::{MemoryStore, Store};
use timesman::task::{
    create_message, latest_message, list_message, refresh_message, run_create, run_reload,
};

fn drain(pane: &mut SelectPane, messages: Vec<Message>) {
    let tx = pane.sender();
    for message in messages {
        tx.try_send(message).unwrap();
    }
    while pane.handle_message().is_some() {}
}

#[test]
fn create_on_an_empty_backend_gives_the_first_id_and_is_listed() {
    let mut store = MemoryStore::new();
    assert_eq!(store.get_times(), Ok(vec![]));
    let created = store.create_times("20240101".to_string()).unwrap();
    assert_eq!(created.id, 1);
    assert_eq!(created.title, "20240101");
    assert_eq!(created.updated_at, None);
    assert_eq!(store.get_times(), Ok(vec![created]));
}

#[test]
fn created_ids_are_all_different() {
    let mut store = MemoryStore::new();
    let mut ids = Vec::new();
    for i in 0..20 {
        let created = store.create_times(format!("t{}", i % 3)).unwrap();
        assert!(!ids.contains(&created.id));
        ids.push(created.id);
    }
    assert_eq!(ids, (1..=20).collect::<Vec<u64>>());
    let listed = store.get_times().unwrap();
    assert_eq!(listed.iter().map(|t| t.id).collect::<Vec<u64>>(), ids);
}

#[test]
fn created_id_is_new_to_the_pane_until_it_reloads() {
    let mut store = MemoryStore::new();
    store.create_times("a".to_string()).unwrap();
    let mut pane = SelectPane::new();
    drain(&mut pane, run_reload(&mut store));
    let created = store.create_times("b".to_string()).unwrap();
    assert!(!pane.times().contains_key(&created.id));
    drain(&mut pane, run_reload(&mut store));
    assert_eq!(pane.times().len(), 2);
    assert_eq!(pane.times()[&created.id].times, created);
}

#[test]
fn store_that_keeps_titles_unique_reports_a_conflict() {
    let mut store = MemoryStore::with_unique_titles();
    let first = store.create_times("a".to_string()).unwrap();
    assert_eq!(store.create_times("a".to_string()), Err(BackendError::Conflict));
    assert_eq!(store.get_times(), Ok(vec![first.clone()]));
    let second = store.create_times("b".to_string()).unwrap();
    assert_eq!(second.id, 2);
    let mut free = MemoryStore::new();
    free.create_times("a".to_string()).unwrap();
    assert_eq!(free.create_times("a".to_string()).unwrap().id, 2);
}

#[test]
fn latest_post_of_an_empty_times_is_absent() {
    let mut store = MemoryStore::new();
    let created = store.create_times("a".to_string()).unwrap();
    assert_eq!(store.get_latest_post(created.id), Ok(None));
    let messages = run_reload(&mut store);
    assert_eq!(messages.len(), 1);
    let mut pane = SelectPane::new();
    drain(&mut pane, messages);
    assert_eq!(pane.times()[&created.id].latest, None);
    assert_eq!(pane.times()[&created.id].times, created);
}

#[test]
fn latest_post_is_the_one_appended_last_to_that_times() {
    let mut store = MemoryStore::new();
    let a = store.create_times("a".to_string()).unwrap();
    let b = store.create_times("b".to_string()).unwrap();
    let first = store.create_post(a.id, "first".to_string()).unwrap();
    let second = store.create_post(b.id, "second".to_string()).unwrap();
    let third = store.create_post(a.id, "third".to_string()).unwrap();
    assert_eq!((first.id, second.id, third.id), (1, 2, 3));
    assert_eq!(third.post, "third");
    assert_eq!(store.get_latest_post(a.id), Ok(Some(third)));
    assert_eq!(store.get_latest_post(b.id), Ok(Some(second)));
}

#[test]
fn unknown_times_is_not_found() {
    let mut store = MemoryStore::new();
    store.create_times("a".to_string()).unwrap();
    assert_eq!(store.create_post(9, "x".to_string()), Err(BackendError::NotFound));
    assert_eq!(store.get_latest_post(9), Err(BackendError::NotFound));
    assert_eq!(store.get_latest_post(1), Ok(None));
}

#[test]
fn errors_are_described() {
    assert_eq!(BackendError::NotFound.describe(), "not found");
    assert_eq!(BackendError::Conflict.describe(), "conflict");
    assert_eq!(BackendError::Unavailable("timeout".to_string()).describe(), "unavailable: timeout");
    assert_eq!(BackendError::Malformed("bad json".to_string()).describe(), "malformed: bad json");
}

#[test]
fn answers_become_messages() {
    let mut store = MemoryStore::new();
    let t = store.create_times("a".to_string()).unwrap();
    let p = store.create_post(t.id, "x".to_string()).unwrap();
    assert_eq!(create_message(Ok(t.clone())), Message::Create(t.clone()));
    assert_eq!(create_message(Err(BackendError::Conflict)), Message::Error("conflict".to_string()));
    assert_eq!(latest_message(t.id, Ok(Some(p.clone()))), Some(Message::UpdateLatest(t.id, p)));
    assert_eq!(latest_message(t.id, Ok(None)), None);
    assert_eq!(
        latest_message(t.id, Err(BackendError::NotFound)),
        Some(Message::Error("not found".to_string()))
    );
    assert_eq!(
        list_message(&Err(BackendError::Malformed("eof".to_string()))),
        Message::Error("malformed: eof".to_string())
    );
    assert_eq!(list_message(&Ok(vec![t.clone()])), refresh_message(&vec![t.clone()]));
    match refresh_message(&vec![t.clone()]) {
        Message::Refresh(cache) => {
            assert_eq!(cache.len(), 1);
            assert_eq!(cache[&t.id].times, t);
            assert_eq!(cache[&t.id].latest, None);
        }
        other => panic!("unexpected message {:?}", other),
    }
}

#[test]
fn refresh_keeps_the_later_of_two_times_with_one_id() {
    let mut store = MemoryStore::new();
    let t = store.create_times("a".to_string()).unwrap();
    let twin = Times { title: "b".to_string(), ..t.clone() };
    match refresh_message(&vec![t, twin.clone()]) {
        Message::Refresh(cache) => {
            assert_eq!(cache.len(), 1);
            assert_eq!(cache[&twin.id].times, twin);
        }
        other => panic!("unexpected message {:?}", other),
    }
}

#[test]
fn run_create_answers_with_the_created_times() {
    let mut store = MemoryStore::with_unique_titles();
    let message = run_create(&mut store, "a".to_string());
    let listed = store.get_times().unwrap();
    assert_eq!(listed.len(), 1);
    assert_eq!(message, Message::Create(listed[0].clone()));
    assert_eq!(run_create(&mut store, "a".to_string()), Message::Error("conflict".to_string()));
    assert_eq!(store.get_times().unwrap(), listed);
}

#[test]
fn run_reload_answers_with_the_cache_and_then_each_latest_post() {
    let mut store = MemoryStore::new();
    let a = store.create_times("a".to_string()).unwrap();
    let b = store.create_times("b".to_string()).unwrap();
    let c = store.create_times("c".to_string()).unwrap();
    store.create_post(c.id, "c1".to_string()).unwrap();
    store.create_post(a.id, "a1".to_string()).unwrap();
    let a2: Post = store.create_post(a.id, "a2".to_string()).unwrap();
    let c1 = store.get_latest_post(c.id).unwrap().unwrap();
    let messages = run_reload(&mut store);
    assert_eq!(messages.len(), 3);
    assert_eq!(messages[0], refresh_message(&vec![a.clone(), b.clone(), c.clone()]));
    assert_eq!(messages[1], Message::UpdateLatest(a.id, a2.clone()));
    assert_eq!(messages[2], Message::UpdateLatest(c.id, c1.clone()));
    let mut pane = SelectPane::new();
    drain(&mut pane, messages);
    assert_eq!(pane.times().len(), 3);
    assert_eq!(pane.times()[&a.id].latest, Some(a2));
    assert_eq!(pane.times()[&b.id].latest, None);
    assert_eq!(pane.times()[&c.id].latest, Some(c1));
}

#[test]
fn run_reload_on_an_empty_backend_gives_an_empty_cache() {
    let mut store = MemoryStore::new();
    let messages = run_reload(&mut store);
    assert_eq!(messages, vec![refresh_message(&vec![])]);
}
