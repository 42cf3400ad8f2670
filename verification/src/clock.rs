//! Wall-clock time in milliseconds, for the hover timer of the
//! picture-in-picture controls.
use vstd::prelude::*;

verus! {

/// The system clock's time points; opaque here.
#[verifier::external_type_specification]
#[verifier::external_body]
pub struct ExSystemTime(std::time::SystemTime);

/// The error `SystemTime::duration_since` returns when the clock is earlier
/// than the reference point; opaque here.
#[verifier::external_type_specification]
#[verifier::external_body]
pub struct ExSystemTimeError(std::time::SystemTimeError);

/// `SystemTime::now`: the current time; nothing is claimed about its value.
pub assume_specification[ std::time::SystemTime::now ]() -> std::time::SystemTime;

/// `SystemTime::duration_since`: how long after `earlier` the time point is,
/// or an error when it is before `earlier`; nothing is claimed about either.
pub assume_specification[ std::time::SystemTime::duration_since ](
    this: &std::time::SystemTime,
    earlier: std::time::SystemTime,
) -> Result<std::time::Duration, std::time::SystemTimeError>;

/// `Duration::as_millis`: the whole milliseconds of a duration; nothing is
/// claimed about the value, since the duration itself is opaque here.
pub assume_specification[ std::time::Duration::as_millis ](d: &std::time::Duration) -> u128;

/// `std::time::UNIX_EPOCH`, the reference point of Unix time.
#[verifier::external_body]
fn unix_epoch() -> std::time::SystemTime {
    std::time::UNIX_EPOCH
}

/// Milliseconds since the Unix epoch, or 0 when the system clock is set
/// before it. The value depends on the clock, so nothing more is stated.
pub fn now_ms() -> u128 {
    let now = std::time::SystemTime::now();
    match now.duration_since(unix_epoch()) {
        Ok(d) => d.as_millis(),
        Err(_) => 0,
    }
}

} // verus!
