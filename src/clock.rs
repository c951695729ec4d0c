use vstd::prelude::*;

verus! {

#[verifier::external_type_specification]
#[verifier::external_body]
pub struct ExSystemTime(std::time::SystemTime);

/// Relies on std::time::SystemTime::now: a reading of the system clock.
#[verifier::external_body]
fn clock_now() -> (r: std::time::SystemTime) {
    std::time::SystemTime::now()
}

/// Relies on SystemTime::duration_since with the Unix epoch: the time elapsed
/// since the epoch, or `None` where the clock reads earlier than it.
#[verifier::external_body]
fn since_epoch(t: &std::time::SystemTime) -> (r: Option<std::time::Duration>) {
    t.duration_since(std::time::UNIX_EPOCH).ok()
}

/// Relies on Duration::as_secs: the whole seconds of a duration.
#[verifier::external_body]
fn whole_seconds(d: &std::time::Duration) -> (r: u64) {
    d.as_secs()
}

/// The stamp for a clock reading given as whole seconds since the Unix epoch,
/// or `None` for a reading earlier than the epoch.
pub open spec fn stamp_of(since_epoch: Option<u64>) -> u64 {
    match since_epoch {
        Some(s) => s,
        None => 0,
    }
}

/// The stamp for a clock reading: its whole seconds since the epoch, or 0
/// for a reading earlier than the epoch.
pub fn timestamp_of(since_epoch: Option<u64>) -> (r: u64)
    ensures
        r == stamp_of(since_epoch),
{
    match since_epoch {
        Some(s) => s,
        None => 0,
    }
}

/// Stamps never go down as the clock reading goes up: a reading before the
/// epoch stamps lowest, and later readings stamp no lower.
pub proof fn law_stamp_is_monotone(earlier: Option<u64>, later: Option<u64>)
    requires
        earlier matches Some(a) ==> later matches Some(b) && a <= b,
    ensures
        stamp_of(earlier) <= stamp_of(later),
{
}

/// Reads the wall clock. Returns the reading, as whole seconds since the
/// Unix epoch or `None` where the clock reads earlier than the epoch, and the
/// stamp made from it.
pub fn now_timestamp() -> (r: (Option<u64>, u64))
    ensures
        r.1 == stamp_of(r.0),
{
    let now = clock_now();
    let reading = match since_epoch(&now) {
        Some(d) => Some(whole_seconds(&d)),
        None => None,
    };
    (reading, timestamp_of(reading))
}

} // verus!
