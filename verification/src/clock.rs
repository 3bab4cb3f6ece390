//! The one place the library touches the system clock. Tokens store the
//! instant they were issued; how many seconds have passed since then is a
//! question only the clock can answer, so both calls are trusted and
//! everything computed from their answers is verified elsewhere.

use vstd::prelude::*;

verus! {

#[verifier::external_type_specification]
#[verifier::external_body]
pub struct ExSystemTime(std::time::SystemTime);

/// Relies on std::time::SystemTime::now for the current instant.
#[verifier::external_body]
pub(crate) fn system_time_now() -> std::time::SystemTime {
    std::time::SystemTime::now()
}

/// Relies on std::time::SystemTime::elapsed: the whole seconds since the
/// instant, or `None` when the clock has since gone backwards.
#[verifier::external_body]
pub(crate) fn elapsed_secs(t: &std::time::SystemTime) -> Option<u64> {
    match t.elapsed() {
        Ok(d) => Some(d.as_secs()),
        Err(_) => None,
    }
}

} // verus!
