use muednote::error::StoreError;
use muednote::records::{ChatMessage, Session};
use muednote::store::Store;

fn session(tick: u64, device: &str, title: Option<&str>, active: bool) -> Session {
    Session {
        id: tick.to_string(),
        device_id: device.to_string(),
        title: title.map(|t| t.to_string()),
        is_active: active,
        created_at: tick,
        last_message_at: tick,
    }
}

fn message(tick: u64, session_id: &str, content: &str) -> ChatMessage {
    ChatMessage {
        id: tick.to_string(),
        session_id: session_id.to_string(),
        role: "user".to_string(),
        content: content.to_string(),
        created_at: tick,
    }
}

#[test]
fn new_store_is_empty() {
    let store = Store::new();
    assert_eq!(store.message_count(), 0);
    assert_eq!(store.sessions().len(), 0);
    assert_eq!(store.clock(), 0);
    assert_eq!(store.fetch_recent_messages(50).len(), 0);
}

#[test]
fn first_lookup_opens_a_session() {
    let mut store = Store::new();
    let id = store.get_or_create_active_session("default", "first").unwrap();
    assert_eq!(id, "0");
    let sessions = store.sessions();
    assert_eq!(sessions.len(), 1);
    assert_eq!(sessions[0], session(0, "default", Some("first"), true));
    assert_eq!(store.clock(), 1);
}

#[test]
fn second_lookup_returns_the_open_session() {
    let mut store = Store::new();
    let first = store.get_or_create_active_session("default", "first").unwrap();
    let second = store.get_or_create_active_session("default", "second").unwrap();
    assert_eq!(first, second);
    let sessions = store.sessions();
    assert_eq!(sessions.len(), 1);
    assert_eq!(sessions[0].title, Some("first".to_string()));
    assert_eq!(store.clock(), 1);
}

#[test]
fn each_device_has_its_own_session() {
    let mut store = Store::new();
    let a = store.get_or_create_active_session("desk", "a").unwrap();
    let b = store.get_or_create_active_session("phone", "b").unwrap();
    let again = store.get_or_create_active_session("desk", "c").unwrap();
    assert_ne!(a, b);
    assert_eq!(a, again);
    assert_eq!(store.sessions().len(), 2);
}

#[test]
fn insert_into_missing_session_is_not_found_and_adds_nothing() {
    let mut store = Store::new();
    let sid = store.get_or_create_active_session("default", "t").unwrap();
    store.insert_message(&sid, "user", "kept").unwrap();
    let before = store.fetch_recent_messages(50);
    let clock = store.clock();
    let outcome = store.insert_message("no-such-session", "user", "lost");
    assert_eq!(outcome, Err(StoreError::NotFound));
    assert_eq!(store.message_count(), 1);
    assert_eq!(store.fetch_recent_messages(50), before);
    assert_eq!(store.clock(), clock);
}

#[test]
fn insert_into_empty_store_is_not_found() {
    let mut store = Store::new();
    assert_eq!(store.insert_message("0", "user", "x"), Err(StoreError::NotFound));
    assert_eq!(store.message_count(), 0);
}

#[test]
fn insert_appends_a_stamped_message() {
    let mut store = Store::new();
    let sid = store.get_or_create_active_session("default", "t").unwrap();
    assert_eq!(store.insert_message(&sid, "user", "one"), Ok(()));
    assert_eq!(store.insert_message(&sid, "user", "two"), Ok(()));
    let rows = store.fetch_recent_messages(50);
    assert_eq!(rows.len(), 2);
    assert_eq!(rows[0], message(2, "0", "two"));
    assert_eq!(rows[1], message(1, "0", "one"));
}

#[test]
fn fetch_returns_at_most_the_limit_newest_first() {
    let mut store = Store::new();
    let sid = store.get_or_create_active_session("default", "t").unwrap();
    let mut i: u64 = 0;
    while i < 60 {
        store.insert_message(&sid, "user", &format!("m{}", i)).unwrap();
        i += 1;
    }
    let rows = store.fetch_recent_messages(50);
    assert_eq!(rows.len(), 50);
    assert_eq!(rows[0].content, "m59");
    assert_eq!(rows[49].content, "m10");
    let mut k: usize = 1;
    while k < rows.len() {
        assert!(rows[k - 1].created_at > rows[k].created_at);
        k += 1;
    }
}

#[test]
fn fetch_with_other_limits() {
    let mut store = Store::new();
    let sid = store.get_or_create_active_session("default", "t").unwrap();
    store.insert_message(&sid, "user", "a").unwrap();
    store.insert_message(&sid, "user", "b").unwrap();
    store.insert_message(&sid, "user", "c").unwrap();
    assert_eq!(store.fetch_recent_messages(0).len(), 0);
    let two = store.fetch_recent_messages(2);
    assert_eq!(two.len(), 2);
    assert_eq!(two[0].content, "c");
    assert_eq!(two[1].content, "b");
    assert_eq!(store.fetch_recent_messages(3).len(), 3);
    assert_eq!(store.fetch_recent_messages(usize::MAX).len(), 3);
}

#[test]
fn fetch_spans_all_sessions() {
    let mut store = Store::new();
    let a = store.get_or_create_active_session("desk", "a").unwrap();
    store.insert_message(&a, "user", "from desk").unwrap();
    let b = store.get_or_create_active_session("phone", "b").unwrap();
    store.insert_message(&b, "user", "from phone").unwrap();
    let rows = store.fetch_recent_messages(50);
    assert_eq!(rows.len(), 2);
    assert_eq!(rows[0].session_id, b);
    assert_eq!(rows[1].session_id, a);
}

#[test]
fn delete_removes_exactly_that_message() {
    let mut store = Store::new();
    let sid = store.get_or_create_active_session("default", "t").unwrap();
    store.insert_message(&sid, "user", "one").unwrap();
    store.insert_message(&sid, "user", "two").unwrap();
    store.insert_message(&sid, "user", "three").unwrap();
    let sessions = store.sessions();
    assert_eq!(store.delete_message("2"), Ok(()));
    let rows = store.fetch_recent_messages(50);
    assert_eq!(rows.len(), 2);
    assert_eq!(rows[0], message(3, "0", "three"));
    assert_eq!(rows[1], message(1, "0", "one"));
    assert_eq!(store.sessions(), sessions);
}

#[test]
fn delete_of_missing_message_is_not_found_and_changes_nothing() {
    let mut store = Store::new();
    let sid = store.get_or_create_active_session("default", "t").unwrap();
    store.insert_message(&sid, "user", "one").unwrap();
    let before = store.fetch_recent_messages(50);
    assert_eq!(store.delete_message("77"), Err(StoreError::NotFound));
    assert_eq!(store.delete_message(""), Err(StoreError::NotFound));
    assert_eq!(store.delete_message("0"), Err(StoreError::NotFound));
    assert_eq!(store.fetch_recent_messages(50), before);
}

#[test]
fn deleted_identifier_is_gone_for_good() {
    let mut store = Store::new();
    let sid = store.get_or_create_active_session("default", "t").unwrap();
    store.insert_message(&sid, "user", "one").unwrap();
    assert_eq!(store.delete_message("1"), Ok(()));
    assert_eq!(store.delete_message("1"), Err(StoreError::NotFound));
    store.insert_message(&sid, "user", "two").unwrap();
    let rows = store.fetch_recent_messages(50);
    assert_eq!(rows.len(), 1);
    assert_eq!(rows[0].id, "2");
}

#[test]
fn touch_moves_the_last_message_time_and_keeps_the_title() {
    let mut store = Store::new();
    let sid = store.get_or_create_active_session("default", "first").unwrap();
    store.insert_message(&sid, "user", "one").unwrap();
    store.touch_session(&sid, "other");
    let sessions = store.sessions();
    assert_eq!(sessions[0].title, Some("first".to_string()));
    assert_eq!(sessions[0].last_message_at, 2);
    assert_eq!(sessions[0].created_at, 0);
    assert_eq!(store.clock(), 2);
}

#[test]
fn touch_sets_a_missing_title() {
    let mut store = Store::restore(vec![session(0, "default", None, true)], vec![], 5).unwrap();
    store.touch_session("0", "fallback");
    let sessions = store.sessions();
    assert_eq!(sessions[0].title, Some("fallback".to_string()));
    assert_eq!(sessions[0].last_message_at, 5);
}

#[test]
fn touch_of_missing_session_changes_nothing() {
    let mut store = Store::new();
    store.get_or_create_active_session("default", "first").unwrap();
    let before = store.sessions();
    store.touch_session("41", "other");
    assert_eq!(store.sessions(), before);
    assert_eq!(store.clock(), 1);
}

#[test]
fn exhausted_store_opens_no_session() {
    let mut store = Store::restore(vec![], vec![], u64::MAX).unwrap();
    let outcome = store.get_or_create_active_session("default", "t");
    assert_eq!(outcome, Err(StoreError::IO("store clock exhausted".to_string())));
    assert_eq!(store.sessions().len(), 0);
}

#[test]
fn exhausted_store_still_finds_the_open_session() {
    let rows = vec![session(3, "default", Some("t"), true)];
    let mut store = Store::restore(rows, vec![], u64::MAX).unwrap();
    assert_eq!(store.get_or_create_active_session("default", "x"), Ok("3".to_string()));
}

#[test]
fn exhausted_store_appends_no_message() {
    let rows = vec![session(3, "default", Some("t"), true)];
    let mut store = Store::restore(rows, vec![], u64::MAX).unwrap();
    let outcome = store.insert_message("3", "user", "x");
    assert_eq!(outcome, Err(StoreError::IO("store clock exhausted".to_string())));
    assert_eq!(store.message_count(), 0);
    assert_eq!(store.insert_message("4", "user", "x"), Err(StoreError::NotFound));
}

#[test]
fn restore_takes_rows_that_keep_the_invariant() {
    let sessions = vec![
        session(0, "desk", Some("a"), false),
        session(2, "desk", None, true),
        session(3, "phone", Some("c"), true),
    ];
    let messages = vec![message(1, "0", "x"), message(4, "3", "y"), message(7, "2", "z")];
    let store = Store::restore(sessions, messages, 8).unwrap();
    assert_eq!(store.sessions().len(), 3);
    assert_eq!(store.message_count(), 3);
    assert_eq!(store.clock(), 8);
    assert_eq!(store.fetch_recent_messages(1)[0].content, "z");
}

#[test]
fn restore_refuses_two_active_sessions_of_one_device() {
    let sessions = vec![session(0, "desk", None, true), session(1, "desk", None, true)];
    assert!(Store::restore(sessions, vec![], 2).is_none());
}

#[test]
fn restore_refuses_a_message_without_session() {
    let sessions = vec![session(0, "desk", None, true)];
    assert!(Store::restore(sessions, vec![message(1, "5", "x")], 2).is_none());
}

#[test]
fn restore_refuses_rows_out_of_order() {
    let sessions = vec![session(1, "desk", None, true), session(0, "phone", None, true)];
    assert!(Store::restore(sessions, vec![], 2).is_none());
    let sessions = vec![session(0, "desk", None, true)];
    let messages = vec![message(2, "0", "x"), message(1, "0", "y")];
    assert!(Store::restore(sessions, messages, 3).is_none());
    let sessions = vec![session(0, "desk", None, true)];
    let messages = vec![message(1, "0", "x"), message(1, "0", "y")];
    assert!(Store::restore(sessions, messages, 3).is_none());
}

#[test]
fn restore_refuses_rows_from_the_future() {
    let sessions = vec![session(2, "desk", None, true)];
    assert!(Store::restore(sessions, vec![], 2).is_none());
    let sessions = vec![session(0, "desk", None, true)];
    assert!(Store::restore(sessions, vec![message(3, "0", "x")], 3).is_none());
    let mut late = session(0, "desk", None, true);
    late.last_message_at = 4;
    assert!(Store::restore(vec![late], vec![], 3).is_none());
}

#[test]
fn restore_refuses_a_row_named_otherwise_than_by_its_tick() {
    let mut odd = session(1, "desk", None, true);
    odd.id = "01".to_string();
    assert!(Store::restore(vec![odd], vec![], 2).is_none());
    let sessions = vec![session(0, "desk", None, true)];
    let mut row = message(1, "0", "x");
    row.id = "one".to_string();
    assert!(Store::restore(sessions, vec![row], 2).is_none());
}
