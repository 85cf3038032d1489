//! Time, in whole seconds since the Unix epoch, UTC.

use vstd::prelude::*;

verus! {

/// `chrono::Utc::now`, as seconds since the Unix epoch.
///
/// Trusted: the outside function measures the system clock from the epoch
/// and does not return for a clock set before it, so the result is never
/// negative. Nothing else is claimed; two calls may differ.
#[verifier::external_body]
pub(crate) fn unix_now() -> (now: i64)
    ensures
        now >= 0,
{
    chrono::Utc::now().timestamp()
}

/// The instant `retention_secs` before `now`, or the earliest instant
/// there is where that would lie before it.
pub open spec fn deadline_of(now: i64, retention_secs: u64) -> i64 {
    if now - retention_secs < i64::MIN {
        i64::MIN
    } else {
        (now - retention_secs) as i64
    }
}

/// The deadline of a reaper tick that starts at `now`: records uploaded
/// before it have outlived the retention window.
pub fn deadline(now: i64, retention_secs: u64) -> (deadline: i64)
    ensures
        deadline == deadline_of(now, retention_secs),
{
    match now.checked_sub_unsigned(retention_secs) {
        Some(deadline) => deadline,
        None => i64::MIN,
    }
}

/// The deadline of a reaper tick that starts at this moment. Whatever the
/// clock reads, it is the deadline of some instant at or after the epoch.
pub fn deadline_now(retention_secs: u64) -> (deadline: i64)
    ensures
        exists|now: i64| now >= 0 && deadline == #[trigger] deadline_of(now, retention_secs),
{
    deadline(unix_now(), retention_secs)
}

} // verus!
