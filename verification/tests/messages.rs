use carapax::types::Response;
use carapax::ExecuteError;
use custos::decimal::decimal_text;
use custos::{ChatId, MemberId, MessageId, SequenceError};

fn permission_error() -> ExecuteError {
    let body = r#"{"ok":false,"error_code":400,"description":"Bad Request: not enough rights"}"#;
    match serde_json::from_str::<Response<bool>>(body) {
        Ok(Response::Error(error)) => ExecuteError::Response(error),
        other => panic!("not an error response: {:?}", other),
    }
}

#[test]
fn a_failed_removal_names_the_call_the_cause_and_the_identifiers() {
    let error = SequenceError::RemoveFailed(ExecuteError::TooManyRequests, ChatId(-1001234567890), MemberId(42));
    assert_eq!(
        error.render(),
        "failed to ban chat member: failed to execute method: too many requests \
         (chat_id=-1001234567890, user_id=42)"
    );
}

#[test]
fn a_failed_restoring_names_the_call_the_cause_and_the_identifiers() {
    let error = SequenceError::RestoreFailed(permission_error(), ChatId(5), MemberId(6));
    assert_eq!(
        error.render(),
        "failed to unban chat member: failed to execute method: a telegram error has occurred: \
         description=Bad Request: not enough rights; error_code=400 (chat_id=5, user_id=6)"
    );
}

#[test]
fn a_failed_deletion_names_the_call_the_cause_and_the_identifiers() {
    let error = SequenceError::DeleteMessageFailed(ExecuteError::TooManyRequests, ChatId(-7), MessageId(7001));
    assert_eq!(
        error.render(),
        "failed to delete message: failed to execute method: too many requests \
         (chat_id=-7, message_id=7001)"
    );
}

#[test]
fn a_message_is_one_line() {
    let error = SequenceError::RestoreFailed(permission_error(), ChatId(5), MemberId(6));
    assert!(!error.render().contains('\n'));
}

#[test]
fn the_message_shows_the_cause_in_the_clients_words() {
    let cause = permission_error();
    let shown = cause.to_string();
    assert!(shown.starts_with("failed to execute method: "));
    let error = SequenceError::RemoveFailed(cause, ChatId(1), MemberId(2));
    assert_eq!(error.render(), format!("failed to ban chat member: {} (chat_id=1, user_id=2)", shown));
    assert_eq!(error.render(), error.render_with(&shown));
}

#[test]
fn a_message_takes_any_text_for_the_cause() {
    let error = SequenceError::RemoveFailed(ExecuteError::TooManyRequests, ChatId(1), MemberId(2));
    assert_eq!(error.render_with("timeout"), "failed to ban chat member: timeout (chat_id=1, user_id=2)");
    assert_eq!(error.render_with(""), "failed to ban chat member:  (chat_id=1, user_id=2)");
    let error = SequenceError::RestoreFailed(ExecuteError::TooManyRequests, ChatId(0), MemberId(-3));
    assert_eq!(error.render_with("x"), "failed to unban chat member: x (chat_id=0, user_id=-3)");
    let error = SequenceError::DeleteMessageFailed(ExecuteError::TooManyRequests, ChatId(10), MessageId(20));
    assert_eq!(error.render_with("x"), "failed to delete message: x (chat_id=10, message_id=20)");
}

#[test]
fn identifiers_are_shown_over_their_whole_range() {
    let error = SequenceError::DeleteMessageFailed(
        ExecuteError::TooManyRequests,
        ChatId(i64::MIN),
        MessageId(i64::MAX),
    );
    assert_eq!(
        error.render_with("c"),
        "failed to delete message: c (chat_id=-9223372036854775808, message_id=9223372036854775807)"
    );
}

#[test]
fn an_error_hands_out_its_cause_and_its_chat() {
    let error = SequenceError::RestoreFailed(permission_error(), ChatId(5), MemberId(6));
    assert_eq!(error.chat_id(), ChatId(5));
    match error.cause() {
        ExecuteError::Response(response) => {
            assert_eq!(response.description(), "Bad Request: not enough rights");
        }
        other => panic!("unexpected cause: {:?}", other),
    }
    let error = SequenceError::RemoveFailed(ExecuteError::TooManyRequests, ChatId(8), MemberId(6));
    assert_eq!(error.chat_id(), ChatId(8));
    assert!(matches!(error.cause(), ExecuteError::TooManyRequests));
    let error = SequenceError::DeleteMessageFailed(ExecuteError::TooManyRequests, ChatId(9), MessageId(6));
    assert_eq!(error.chat_id(), ChatId(9));
    assert!(matches!(error.cause(), ExecuteError::TooManyRequests));
}

#[test]
fn decimal_notation_of_small_numbers() {
    assert_eq!(decimal_text(0), "0");
    assert_eq!(decimal_text(7), "7");
    assert_eq!(decimal_text(9), "9");
    assert_eq!(decimal_text(10), "10");
    assert_eq!(decimal_text(-1), "-1");
    assert_eq!(decimal_text(-10), "-10");
    assert_eq!(decimal_text(1234567890), "1234567890");
    assert_eq!(decimal_text(100), "100");
    assert_eq!(decimal_text(-909), "-909");
}

#[test]
fn decimal_notation_at_the_limits() {
    assert_eq!(decimal_text(i64::MAX), "9223372036854775807");
    assert_eq!(decimal_text(i64::MIN), "-9223372036854775808");
    assert_eq!(decimal_text(i64::MIN + 1), "-9223372036854775807");
}

#[test]
fn decimal_notation_agrees_with_the_standard_one() {
    let mut n: i64 = 1;
    for _ in 0..62 {
        assert_eq!(decimal_text(n), n.to_string());
        assert_eq!(decimal_text(-n), (-n).to_string());
        assert_eq!(decimal_text(n - 1), (n - 1).to_string());
        n *= 2;
    }
}
