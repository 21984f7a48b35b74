//! Messages for the log of reference changes.

use gix_remote::reflog::RefLogMessage;

#[test]
fn prefixed_message_has_action_and_context() {
    let message = RefLogMessage::Prefixed { action: "pull".to_owned() };
    assert_eq!(message.compose("fast-forward"), b"pull: fast-forward".to_vec());
}

#[test]
fn prefixed_message_with_empty_parts_keeps_the_separator() {
    let message = RefLogMessage::Prefixed { action: String::new() };
    assert_eq!(message.compose(""), b": ".to_vec());
}

#[test]
fn prefixed_message_is_encoded_as_utf8() {
    let message = RefLogMessage::Prefixed { action: "hol\u{e9}".to_owned() };
    assert_eq!(message.compose("\u{20ac}\u{1f600}"), "hol\u{e9}: \u{20ac}\u{1f600}".as_bytes().to_vec());
}

#[test]
fn overridden_message_ignores_the_context() {
    let message = RefLogMessage::Override { message: vec![0xff, b'x', 0] };
    assert_eq!(message.compose("ignored"), vec![0xff, b'x', 0]);
    assert_eq!(message.compose(""), vec![0xff, b'x', 0]);
}

#[test]
fn default_message_is_about_fetching() {
    assert_eq!(RefLogMessage::of_fetch().compose("storing head"), b"fetch: storing head".to_vec());
}
