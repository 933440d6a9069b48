//! Fixed-window rate limiting: a counter per key, incremented on every
//! request, that expires at the end of the window.

use vstd::prelude::*;
use crate::error::{AppError, ErrorView};
use crate::text::{decimal, push_decimal, push_str};

verus! {

/// The counter of login attempts from an address.
pub fn login_key(ip: &str) -> (k: String)
    ensures
        k@ == "ratelimit:login:"@ + ip@,
{
    let mut k = "ratelimit:login:".to_owned();
    push_str(&mut k, ip);
    k
}

/// The counter of messages a user sends.
pub fn message_key(user_id: &str) -> (k: String)
    ensures
        k@ == "ratelimit:message:"@ + user_id@,
{
    let mut k = "ratelimit:message:".to_owned();
    push_str(&mut k, user_id);
    k
}

/// The counter of files a user uploads.
pub fn upload_key(user_id: &str) -> (k: String)
    ensures
        k@ == "ratelimit:upload:"@ + user_id@,
{
    let mut k = "ratelimit:upload:".to_owned();
    push_str(&mut k, user_id);
    k
}

/// The message of a refusal.
pub open spec fn exceeded_message(window_secs: u64) -> Seq<char> {
    "Rate limit exceeded. Try again in "@ + decimal(window_secs as nat) + " seconds."@
}

/// What to do with the counter value that an increment returned.
pub struct RateDecision {
    /// The first request of a window starts the window's expiry.
    pub start_window: bool,
    pub outcome: Result<(), AppError>,
}

/// Decides on a request from the counter's value after the increment: the
/// first request of a window sets its expiry, and any request beyond `max`
/// in a window is refused with the window's length as the retry delay.
pub fn decide(count: u64, max: u64, window_secs: u64) -> (d: RateDecision)
    ensures
        d.start_window == (count == 1),
        d.outcome is Ok <==> count <= max,
        d.outcome is Err ==> d.outcome->Err_0@ == ErrorView::TooManyRequests(exceeded_message(window_secs), window_secs),
{
    let start_window = count == 1;
    if count > max {
        let mut m = "Rate limit exceeded. Try again in ".to_owned();
        push_decimal(&mut m, window_secs);
        push_str(&mut m, " seconds.");
        return RateDecision { start_window, outcome: Err(AppError::TooManyRequests(m, window_secs)) };
    }
    RateDecision { start_window, outcome: Ok(()) }
}

} // verus!
