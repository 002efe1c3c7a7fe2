//! The system clock.
//!
//! The handlers take the current time as an argument so that everything they
//! decide is a function of their inputs; this module is the one place that
//! actually reads the clock for them.

use vstd::prelude::*;

verus! {

/// Relies on std::time::SystemTime::now and duration_since(UNIX_EPOCH):
/// reads the system clock. `None` on a clock set before 1970 (the call
/// errors then) or so far ahead that the milliseconds leave `i64`; a
/// duration since the epoch is never negative.
#[verifier::external_body]
fn millis_since_epoch() -> (r: Option<i64>)
    ensures
        r matches Some(t) ==> t >= 0,
{
    match std::time::SystemTime::now().duration_since(std::time::UNIX_EPOCH) {
        Ok(d) => i64::try_from(d.as_millis()).ok(),
        Err(_) => None,
    }
}

/// The current UTC time in milliseconds since the epoch; a clock outside
/// the representable range (before 1970, or absurdly far ahead) reads as
/// zero. Every call may return a different value.
pub fn current_time_millis() -> (r: i64)
    ensures
        r >= 0,
{
    match millis_since_epoch() {
        Some(t) => t,
        None => 0,
    }
}

} // verus!
