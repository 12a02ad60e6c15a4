use deepseek_tutor::message::Role;
use deepseek_tutor::service::{ProviderChoice, ProviderResponse, QueryError, TutorService};

fn service() -> TutorService {
    TutorService::new(String::from("You are a helpful tutor."))
}

fn reply_with(text: &str) -> ProviderResponse {
    ProviderResponse { choices: vec![ProviderChoice { content: Some(String::from(text)) }] }
}

#[test]
fn create_session_returns_a_fresh_token() {
    let mut svc = service();
    let sid = svc.create_session("s1").expect("valid student id");
    assert_eq!(sid.chars().count(), 36);
    assert!(!sid.trim().is_empty());
    let other = svc.create_session("s1").expect("valid student id");
    assert_ne!(sid, other);
}

#[test]
fn create_session_rejects_blank_student_id() {
    let mut svc = service();
    assert_eq!(svc.create_session(""), Err(QueryError::InvalidArgument));
    assert_eq!(svc.create_session("   "), Err(QueryError::InvalidArgument));
    assert_eq!(svc.create_session(" \t\n "), Err(QueryError::InvalidArgument));
}

#[test]
fn begin_query_rejects_blank_inputs_without_touching_state() {
    let mut svc = service();
    let sid = svc.create_session("s1").unwrap();
    let cases: [(&str, &str, &str); 3] =
        [("", &sid, "2+2?"), ("s1", "", "2+2?"), ("s1", &sid, "  ")];
    for (student, session, query) in cases {
        let r = svc.begin_query(student, session, query);
        assert_eq!(r, Err(QueryError::InvalidArgument));
    }
    let conv = svc.get_conversation("s1", &sid).unwrap();
    assert_eq!(conv.len(), 1);
}

#[test]
fn begin_query_on_unknown_session_is_not_found() {
    let mut svc = service();
    let r = svc.begin_query("s1", "no-such-session", "2+2?");
    assert_eq!(r, Err(QueryError::SessionNotFound));
    assert!(svc.get_conversation("s1", "no-such-session").is_none());
}

#[test]
fn successful_query_round_appends_user_and_assistant() {
    let mut svc = service();
    let sid = svc.create_session("s1").unwrap();
    let conv = svc.begin_query("s1", &sid, "2+2?").unwrap();
    assert_eq!(conv.len(), 2);
    assert_eq!(conv[0].role, Role::System);
    assert_eq!(conv[1].role, Role::User);
    assert_eq!(conv[1].content, "2+2?");
    let answer = svc.finish_query("s1", &sid, Ok(reply_with("4"))).unwrap();
    assert_eq!(answer, "4");
    let conv = svc.get_conversation("s1", &sid).unwrap();
    assert_eq!(conv.len(), 3);
    assert_eq!(conv[0].role, Role::System);
    assert_eq!(conv[0].content, "You are a helpful tutor.");
    assert_eq!(conv[1].role, Role::User);
    assert_eq!(conv[1].content, "2+2?");
    assert_eq!(conv[2].role, Role::Assistant);
    assert_eq!(conv[2].content, "4");
}

#[test]
fn reply_text_is_trimmed() {
    let mut svc = service();
    let sid = svc.create_session("s1").unwrap();
    svc.begin_query("s1", &sid, "2+2?").unwrap();
    let answer = svc.finish_query("s1", &sid, Ok(reply_with("  4 \n"))).unwrap();
    assert_eq!(answer, "4");
}

#[test]
fn empty_or_absent_reply_is_an_empty_answer_not_an_error() {
    let mut svc = service();
    let sid = svc.create_session("s1").unwrap();
    svc.begin_query("s1", &sid, "q1").unwrap();
    let none_reply = ProviderResponse { choices: vec![ProviderChoice { content: None }] };
    assert_eq!(svc.finish_query("s1", &sid, Ok(none_reply)).unwrap(), "");
    svc.begin_query("s1", &sid, "q2").unwrap();
    let no_choices = ProviderResponse { choices: vec![] };
    assert_eq!(svc.finish_query("s1", &sid, Ok(no_choices)).unwrap(), "");
    let conv = svc.get_conversation("s1", &sid).unwrap();
    assert_eq!(conv.len(), 5);
    assert_eq!(conv[2].role, Role::Assistant);
    assert_eq!(conv[2].content, "");
    assert_eq!(conv[4].role, Role::Assistant);
    assert_eq!(conv[4].content, "");
}

#[test]
fn provider_failure_leaves_the_user_turn_dangling() {
    let mut svc = service();
    let sid = svc.create_session("s1").unwrap();
    svc.begin_query("s1", &sid, "2+2?").unwrap();
    let r = svc.finish_query("s1", &sid, Err(String::from("connection reset")));
    assert_eq!(r, Err(QueryError::ProviderError(String::from("connection reset"))));
    let conv = svc.get_conversation("s1", &sid).unwrap();
    assert_eq!(conv.len(), 2);
    assert_eq!(conv[1].role, Role::User);
    assert_eq!(conv[1].content, "2+2?");
}

#[test]
fn two_sessions_of_one_student_stay_independent() {
    let mut svc = service();
    let sid_a = svc.create_session("s1").unwrap();
    let sid_b = svc.create_session("s1").unwrap();
    svc.begin_query("s1", &sid_a, "only in a").unwrap();
    svc.finish_query("s1", &sid_a, Ok(reply_with("noted"))).unwrap();
    let conv_a = svc.get_conversation("s1", &sid_a).unwrap();
    let conv_b = svc.get_conversation("s1", &sid_b).unwrap();
    assert_eq!(conv_a.len(), 3);
    assert_eq!(conv_b.len(), 1);
    assert!(conv_b.iter().all(|m| m.content != "only in a"));
}

#[test]
fn finish_query_on_unknown_session_is_not_found() {
    let mut svc = service();
    let r = svc.finish_query("s1", "no-such-session", Ok(reply_with("4")));
    assert_eq!(r, Err(QueryError::SessionNotFound));
}
