use vstd::prelude::*;

verus! {

#[verifier::external_type_specification]
#[verifier::external_body]
pub struct ExSystemTime(std::time::SystemTime);

/// Calls `SystemTime::now` of std. Nothing is claimed about the reading.
#[verifier::external_body]
pub(crate) fn system_now() -> (now: std::time::SystemTime) {
    std::time::SystemTime::now()
}

/// Calls `SystemTime::duration_since` of std against the Unix epoch and
/// gives the distance in milliseconds; `None` where the reading lies before
/// the epoch. Nothing is claimed about the value.
#[verifier::external_body]
pub(crate) fn millis_since_epoch(at: &std::time::SystemTime) -> (millis: Option<u128>) {
    at.duration_since(std::time::UNIX_EPOCH).ok().map(|d| d.as_millis())
}

} // verus!
