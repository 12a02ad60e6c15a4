use deepseek_tutor::models::AppError;
use deepseek_tutor::service::{ProviderChoice, ProviderResponse, QueryError};
use deepseek_tutor::service::extract_reply;
use deepseek_tutor::text::{check_blank, str_eq, trim_text};

#[test]
fn check_blank_on_empty_and_whitespace() {
    assert!(check_blank(""));
    assert!(check_blank(" "));
    assert!(check_blank(" \t\r\n"));
    assert!(check_blank("\u{00A0}\u{2003}\u{3000}"));
    assert!(!check_blank("a"));
    assert!(!check_blank("  a  "));
}

#[test]
fn trim_text_strips_surrounding_whitespace_only() {
    assert_eq!(trim_text(""), "");
    assert_eq!(trim_text("   "), "");
    assert_eq!(trim_text("4"), "4");
    assert_eq!(trim_text("  a b  "), "a b");
    assert_eq!(trim_text("\t x \n"), "x");
    assert_eq!(trim_text("\u{3000}x\u{2028}"), "x");
    assert_eq!(trim_text(" inner\tkept "), "inner\tkept");
}

#[test]
fn str_eq_compares_by_characters() {
    assert!(str_eq("", ""));
    assert!(str_eq("abc", "abc"));
    assert!(str_eq("héllo", "héllo"));
    assert!(!str_eq("abc", "abd"));
    assert!(!str_eq("abc", "ab"));
}

#[test]
fn extract_reply_takes_the_first_choice_trimmed() {
    let two = ProviderResponse {
        choices: vec![
            ProviderChoice { content: Some(String::from(" first ")) },
            ProviderChoice { content: Some(String::from("second")) },
        ],
    };
    assert_eq!(extract_reply(&two), "first");
    let none = ProviderResponse { choices: vec![ProviderChoice { content: None }] };
    assert_eq!(extract_reply(&none), "");
    let empty = ProviderResponse { choices: vec![] };
    assert_eq!(extract_reply(&empty), "");
}

#[test]
fn query_errors_map_onto_the_caller_facing_taxonomy() {
    let bad = AppError::of_query_error(QueryError::InvalidArgument);
    assert_eq!(bad, AppError::BadRequest(String::from("identifiers and query must not be blank")));
    let missing = AppError::of_query_error(QueryError::SessionNotFound);
    assert_eq!(missing, AppError::NotFound(String::from("Session not found")));
    let upstream = AppError::of_query_error(QueryError::ProviderError(String::from("boom")));
    assert_eq!(upstream, AppError::Internal(String::from("boom")));
}
