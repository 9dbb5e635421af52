use gitlink::auth::{before_poll, poll_step, PollStep};

fn s(x: &str) -> Option<String> {
    Some(x.to_string())
}

#[test]
fn token_ends_polling() {
    assert!(matches!(poll_step(s("tok"), None, "{}", 5), PollStep::Token(t) if t == "tok"));
}

#[test]
fn pending_and_slow_down_wait() {
    assert!(matches!(poll_step(None, s("authorization_pending"), "", 5), PollStep::Wait(5)));
    assert!(matches!(poll_step(None, s("slow_down"), "", 5), PollStep::Wait(10)));
}

#[test]
fn errors_end_polling() {
    assert!(matches!(poll_step(None, s("expired_token"), "", 5), PollStep::Fail(m) if m == "Device code expired."));
    assert!(matches!(poll_step(None, s("access_denied"), "", 5), PollStep::Fail(m) if m == "Authorization denied by user."));
    assert!(matches!(poll_step(None, s("bad"), "", 5), PollStep::Fail(m) if m == "GitHub error: bad"));
    assert!(matches!(poll_step(None, None, "<html>", 5), PollStep::Fail(m) if m == "Unexpected response: <html>"));
}

#[test]
fn expiry_before_polling() {
    assert_eq!(before_poll(true), Some("Device code expired. Please try again.".to_string()));
    assert_eq!(before_poll(false), None);
}
