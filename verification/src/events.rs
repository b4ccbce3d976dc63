//! The event-loop decisions: which key press produces which message, and
//! when a refresh of the log is due. The loop itself (terminal polling, the
//! network call, the sleep) lives outside and only feeds plain values in.

use vstd::prelude::*;
use crate::model::Message;
use crate::timefmt::TS_MAX_MS;
use crate::timefmt::TS_MIN_MS;

verus! {

/// A discrete key-press event, reduced to what the dashboard reads of it: a
/// printable character, or anything else.
#[derive(Debug, Clone, Copy, PartialEq, Eq, Structural)]
pub enum Key {
    Char(char),
    Other,
}

/// How many milliseconds may pass since the last successful refresh before a
/// new fetch is due.
pub const REFRESH_THRESHOLD_MS: i64 = 5000;

/// Map a key press to a message: 'q' quits, every other key is ignored.
pub fn handle_key(key: Key) -> (msg: Option<Message>)
    ensures
        msg is Some <==> key == Key::Char('q'),
        msg matches Some(m) ==> m is Quit,
{
    match key {
        Key::Char(c) => if c == 'q' {
            Some(Message::Quit)
        } else {
            None
        },
        Key::Other => None,
    }
}

/// Decide whether the refresh deadline has passed: true exactly when more
/// than the threshold has elapsed since the last successful refresh.
pub fn needs_refresh(last_updated: i64, now: i64) -> (r: bool)
    requires
        TS_MIN_MS <= last_updated <= TS_MAX_MS,
        TS_MIN_MS <= now <= TS_MAX_MS,
    ensures
        r == (now - last_updated > REFRESH_THRESHOLD_MS),
{
    now - last_updated > REFRESH_THRESHOLD_MS
}

} // verus!
