use vstd::prelude::*;

verus! {

/// Relies on std::time::SystemTime: reads the wall clock as whole
/// milliseconds since the Unix epoch, or 0 if the clock reports a time
/// before the epoch. The value depends on the machine's clock, so nothing
/// is promised of it.
#[verifier::external_body]
pub fn now() -> u128 {
    std::time::SystemTime::now()
        .duration_since(std::time::SystemTime::UNIX_EPOCH)
        .map(|d| d.as_millis())
        .unwrap_or(0)
}

} // verus!
