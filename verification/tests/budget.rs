use aichat::error::ChatError;
use aichat::message::{estimate, within_max_tokens_limit, Message, MessageRole, MAX_TOKENS};

fn user(content: &str) -> Message {
    Message::new(content)
}

#[test]
fn estimate_empty_is_zero() {
    let msgs: Vec<Message> = Vec::new();
    assert_eq!(estimate(&msgs), 0);
}

#[test]
fn estimate_sums_content_lengths() {
    let msgs = vec![user("hi"), Message::with_role(MessageRole::Assistant, "abc")];
    assert_eq!(estimate(&msgs), 5);
}

#[test]
fn estimate_is_monotonic_in_appended_content() {
    let short = vec![user("hi")];
    let longer = vec![user("hi"), user("more text")];
    assert!(estimate(&short) <= estimate(&longer));
    let grown = vec![user("hi there")];
    assert!(estimate(&short) <= estimate(&grown));
}

#[test]
fn within_limit_accepts_boundary() {
    let msgs = vec![user(&"x".repeat(MAX_TOKENS as usize))];
    assert!(within_max_tokens_limit(&msgs).is_ok());
}

#[test]
fn within_limit_rejects_just_over() {
    let msgs = vec![user(&"x".repeat(MAX_TOKENS as usize + 1))];
    match within_max_tokens_limit(&msgs) {
        Err(ChatError::ExceedsLimit { estimated, limit }) => {
            assert_eq!(estimated, MAX_TOKENS + 1);
            assert_eq!(limit, MAX_TOKENS);
        }
        other => panic!("expected budget rejection, got {:?}", other),
    }
}

#[test]
fn message_new_is_a_user_message() {
    let m = user("hello");
    assert!(matches!(m.role, MessageRole::User));
    assert_eq!(m.content, "hello");
}
