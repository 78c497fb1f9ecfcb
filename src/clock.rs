//! The wall clock, read as milliseconds since the Unix epoch.

use std::time::{Duration, SystemTime};
use vstd::prelude::*;

verus! {

/// std's wall-clock instant, carried through unread.
#[verifier::external_type_specification]
#[verifier::external_body]
pub struct ExSystemTime(SystemTime);

/// Relies on `SystemTime::now`: it returns the current wall-clock time, of
/// which nothing can be promised.
pub assume_specification[ SystemTime::now ]() -> SystemTime;

/// Relies on `Duration::as_millis`: the whole milliseconds of a duration.
/// A `Duration` is opaque here, so nothing is stated of the number.
pub assume_specification[ Duration::as_millis ](d: &Duration) -> u128;

/// Relies on `SystemTime::duration_since` with `UNIX_EPOCH`: the time
/// elapsed from the epoch to `t`. The error it gives for an instant before
/// the epoch leaves no way to go on, so the call panics there.
#[verifier::external_body]
fn since_epoch(t: &SystemTime) -> Duration {
    t.duration_since(std::time::UNIX_EPOCH).expect("system clock is set before the Unix epoch")
}

/// The current wall-clock time in milliseconds since the Unix epoch. The
/// clock may be set back, so two reads need not come in order.
pub(crate) fn now_millis() -> u128 {
    let now = SystemTime::now();
    since_epoch(&now).as_millis()
}

} // verus!
