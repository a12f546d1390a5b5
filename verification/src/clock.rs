//! The machine's clock.
use vstd::prelude::*;

verus! {

/// `std::time::SystemTime::duration_since`, of the machine's time and the Unix epoch: the
/// seconds between them, if the time is not before the epoch. Nothing is claimed of the
/// number.
#[verifier::external_body]
pub(crate) fn unix_secs() -> Option<u64> {
    std::time::SystemTime::now().duration_since(std::time::UNIX_EPOCH).ok().map(|d| d.as_secs())
}

/// A time in seconds since the Unix epoch; one before it, which is not told, counts as the
/// epoch.
pub fn secs_or_epoch(secs: Option<u64>) -> (r: u64)
    ensures
        r == match secs {
            Some(secs) => secs,
            None => 0,
        },
{
    match secs {
        Some(secs) => secs,
        None => 0,
    }
}

/// The machine's time in seconds since the Unix epoch, as [`secs_or_epoch`] takes it.
/// Nothing is claimed of the number.
pub(crate) fn current_unix_secs() -> u64 {
    let secs: Option<u64> = unix_secs();
    secs_or_epoch(secs)
}

/// `chrono::Utc::now`: the machine's time as a timestamp in seconds. Nothing is claimed of
/// the number.
#[verifier::external_body]
pub(crate) fn utc_timestamp() -> i64 {
    chrono::Utc::now().timestamp()
}

/// A time that is told is taken as it is, and no time is later than one that is not told.
pub proof fn a_time_before_the_epoch_counts_as_the_epoch(
    a: Option<u64>,
    b: Option<u64>,
    r: u64,
    s: u64,
)
    requires
        call_ensures(secs_or_epoch, (a,), r),
        call_ensures(secs_or_epoch, (b,), s),
    ensures
        a is Some ==> r == a->0,
        a is None ==> r <= s && r == 0,
{
}

}
