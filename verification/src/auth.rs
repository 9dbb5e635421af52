use vstd::prelude::*;

use crate::text::{push_str, str_eq, string_from};

verus! {

/// What the device authorization endpoint hands out: the code the user types in, where
/// to type it, the code the app polls with, and the polling interval and lifetime in
/// seconds.
pub struct DeviceFlowInfo {
    pub user_code: String,
    pub verification_uri: String,
    pub device_code: String,
    pub interval: u64,
    pub expires_in: u64,
}

/// What to do after one reply of the token endpoint.
pub enum PollStep {
    /// The user authorized the app: here is the token.
    Token(String),
    /// Not yet: wait this many seconds, then ask again.
    Wait(u64),
    /// Give up with this message.
    Fail(String),
}

/// The message when the device code ran out before the user authorized the app.
pub open spec fn expired_text() -> Seq<char> {
    "Device code expired. Please try again."@
}

/// What the app does before polling again: give up once the device code has run out.
pub fn before_poll(expired: bool) -> (r: Option<String>)
    ensures
        expired ==> (r matches Some(m) && m@ == expired_text()),
        !expired ==> r is None,
{
    if expired {
        Some(string_from("Device code expired. Please try again."))
    } else {
        None
    }
}

/// What one reply decides, as whether a token came, the token or the message, and the
/// seconds to wait before asking again (-1 to stop): a token ends the polling; an error
/// code either asks to wait (five seconds longer after `slow_down`) or ends it with a
/// message; a reply that is neither ends it too.
pub open spec fn poll_step_v(
    token: Option<Seq<char>>,
    error: Option<Seq<char>>,
    text: Seq<char>,
    interval: u64,
) -> (bool, Seq<char>, int) {
    match token {
        Some(t) => (true, t, -1),
        None => match error {
            Some(e) => if e == "authorization_pending"@ {
                (false, Seq::empty(), interval as int)
            } else if e == "slow_down"@ {
                (false, Seq::empty(), interval + 5)
            } else if e == "expired_token"@ {
                (false, "Device code expired."@, -1)
            } else if e == "access_denied"@ {
                (false, "Authorization denied by user."@, -1)
            } else {
                (false, "GitHub error: "@ + e, -1)
            },
            None => (false, "Unexpected response: "@ + text, -1),
        },
    }
}

/// The view of a poll step in the terms of `poll_step_v`.
pub open spec fn step_view(s: PollStep) -> (bool, Seq<char>, int) {
    match s {
        PollStep::Token(t) => (true, t@, -1),
        PollStep::Wait(i) => (false, Seq::empty(), i as int),
        PollStep::Fail(m) => (false, m@, -1),
    }
}

/// Decides what to do after a reply of the token endpoint, given the access token and
/// the error code the reply holds (if it holds them), the reply's text, and the
/// current interval in seconds.
pub fn poll_step(
    access_token: Option<String>,
    error: Option<String>,
    text: &str,
    interval: u64,
) -> (r: PollStep)
    requires
        interval + 5 <= u64::MAX,
    ensures
        step_view(r) == poll_step_v(
            match access_token {
                Some(t) => Some(t@),
                None => None,
            },
            match error {
                Some(e) => Some(e@),
                None => None,
            },
            text@,
            interval,
        ),
{
    match access_token {
        Some(t) => PollStep::Token(t),
        None => match error {
            Some(e) => {
                if str_eq(e.as_str(), "authorization_pending") {
                    PollStep::Wait(interval)
                } else if str_eq(e.as_str(), "slow_down") {
                    PollStep::Wait(interval + 5)
                } else if str_eq(e.as_str(), "expired_token") {
                    PollStep::Fail(string_from("Device code expired."))
                } else if str_eq(e.as_str(), "access_denied") {
                    PollStep::Fail(string_from("Authorization denied by user."))
                } else {
                    let mut m = string_from("GitHub error: ");
                    push_str(&mut m, e.as_str());
                    PollStep::Fail(m)
                }
            },
            None => {
                let mut m = string_from("Unexpected response: ");
                push_str(&mut m, text);
                PollStep::Fail(m)
            },
        },
    }
}

} // verus!
