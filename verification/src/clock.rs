//! The system clock.

use vstd::prelude::*;

verus! {

/// A reading of the system clock.
#[verifier::external_type_specification]
#[verifier::external_body]
pub struct ExSystemTime(std::time::SystemTime);

/// What `SystemTime::duration_since` returns when the second reading is the
/// later one.
#[verifier::external_type_specification]
#[verifier::external_body]
pub struct ExSystemTimeError(std::time::SystemTimeError);

/// `SystemTime::now` reads the clock: nothing is known of the reading.
pub assume_specification[ std::time::SystemTime::now ]() -> (now: std::time::SystemTime)
;

/// `Duration::as_secs` gives the whole seconds of a duration: the contract
/// gives their number its name and claims nothing else of it.
pub assume_specification[ std::time::Duration::as_secs ](span: &std::time::Duration) -> (seconds:
    u64)
    ensures
        seconds == whole_seconds(*span),
;

/// The time from 1 January 1970, 00:00:00 UTC, to `reading`, as
/// `SystemTime::duration_since` measures it; none where `reading` lies
/// before that instant.
pub uninterp spec fn span_since_epoch(reading: std::time::SystemTime) -> Option<
    std::time::Duration,
>;

/// The whole seconds in `span`, as `Duration::as_secs` counts them: what is
/// short of a second is left out.
pub uninterp spec fn whole_seconds(span: std::time::Duration) -> u64;

/// The seconds that the system clock counts since 1 January 1970, 00:00:00
/// UTC: the clock is read once, and the result is the whole seconds from
/// that instant to the reading, whatever the reading is; `None` where the
/// reading lies before that instant.
pub(crate) fn seconds_since_epoch() -> (seconds: Option<u64>)
    ensures
        exists|reading: std::time::SystemTime| seconds == #[trigger] epoch_seconds(reading),
{
    let now = std::time::SystemTime::now();
    let seconds: Option<u64> = match since_unix_epoch(&now) {
        Ok(elapsed) => Some(elapsed.as_secs()),
        Err(_) => None,
    };
    assert(seconds == epoch_seconds(now));
    seconds
}

/// The whole seconds from 1 January 1970, 00:00:00 UTC, to `reading`; none
/// where `reading` lies before that instant.
pub open spec fn epoch_seconds(reading: std::time::SystemTime) -> Option<u64> {
    match span_since_epoch(reading) {
        Some(span) => Some(whole_seconds(span)),
        None => None,
    }
}

/// `SystemTime::duration_since`, measured from `std::time::UNIX_EPOCH`: the
/// time from 1 January 1970, 00:00:00 UTC, to `reading`, or an error where
/// `reading` lies before that instant. The contract gives the outcome its
/// name and claims nothing else of it.
#[verifier::external_body]
fn since_unix_epoch(reading: &std::time::SystemTime) -> (elapsed: Result<
    std::time::Duration,
    std::time::SystemTimeError,
>)
    ensures
        elapsed matches Ok(span) ==> span_since_epoch(*reading) == Some(span),
        elapsed is Err ==> span_since_epoch(*reading) is None,
{
    reading.duration_since(std::time::UNIX_EPOCH)
}

} // verus!
