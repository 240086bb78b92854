//! The one clock read the engine needs: the date put on an outgoing
//! message.

use vstd::prelude::*;

verus! {

/// Relies on chrono's `Local::now`: the current local time as a unix
/// timestamp in seconds. Nothing can be promised of a clock reading.
/// Caveat: chrono converts the system time by unwrapping its distance
/// from the Unix epoch, so on a machine whose clock is set before the
/// epoch this call panics.
#[verifier::external_body]
pub fn now_timestamp() -> i64 {
    chrono::Local::now().timestamp()
}

} // verus!
