use deepseek_tutor::message::Role;
use deepseek_tutor::session::{SessionManager, StoreError};

#[test]
fn create_then_materialize_yields_system_only() {
    let mut store = SessionManager::new();
    store.create_session("s1", "a", "You are a helpful tutor.");
    let conv = store.get_conversation("s1", "a").expect("session exists");
    assert_eq!(conv.len(), 1);
    assert_eq!(conv[0].role, Role::System);
    assert_eq!(conv[0].content, "You are a helpful tutor.");
}

#[test]
fn get_session_found_and_missing() {
    let mut store = SessionManager::new();
    store.create_session("s1", "a", "prompt");
    let data = store.get_session("s1", "a").expect("session exists");
    assert_eq!(data.system_prompt, "prompt");
    assert_eq!(data.messages.len(), 0);
    assert!(store.get_session("s1", "b").is_none());
    assert!(store.get_session("s2", "a").is_none());
}

#[test]
fn add_message_to_missing_session_fails() {
    let mut store = SessionManager::new();
    let r = store.add_message("s1", "a", Role::User, "hello");
    assert_eq!(r, Err(StoreError::SessionNotFound));
    assert!(store.get_conversation("s1", "a").is_none());
}

#[test]
fn appends_keep_insertion_order() {
    let mut store = SessionManager::new();
    store.create_session("s1", "a", "prompt");
    store.add_message("s1", "a", Role::User, "q1").unwrap();
    store.add_message("s1", "a", Role::Assistant, "a1").unwrap();
    store.add_message("s1", "a", Role::User, "q2").unwrap();
    let conv = store.get_conversation("s1", "a").unwrap();
    assert_eq!(conv.len(), 4);
    assert_eq!(conv[0].role, Role::System);
    assert_eq!(conv[0].content, "prompt");
    assert_eq!(conv[1].role, Role::User);
    assert_eq!(conv[1].content, "q1");
    assert_eq!(conv[2].role, Role::Assistant);
    assert_eq!(conv[2].content, "a1");
    assert_eq!(conv[3].role, Role::User);
    assert_eq!(conv[3].content, "q2");
}

#[test]
fn recreating_a_session_discards_prior_state() {
    let mut store = SessionManager::new();
    store.create_session("s1", "a", "old prompt");
    store.add_message("s1", "a", Role::User, "q1").unwrap();
    store.create_session("s1", "a", "new prompt");
    let conv = store.get_conversation("s1", "a").unwrap();
    assert_eq!(conv.len(), 1);
    assert_eq!(conv[0].role, Role::System);
    assert_eq!(conv[0].content, "new prompt");
}

#[test]
fn sessions_under_different_keys_are_independent() {
    let mut store = SessionManager::new();
    store.create_session("s1", "a", "prompt");
    store.create_session("s1", "b", "prompt");
    store.add_message("s1", "a", Role::User, "only in a").unwrap();
    let conv_a = store.get_conversation("s1", "a").unwrap();
    let conv_b = store.get_conversation("s1", "b").unwrap();
    assert_eq!(conv_a.len(), 2);
    assert_eq!(conv_b.len(), 1);
    assert!(conv_b.iter().all(|m| m.content != "only in a"));
}
