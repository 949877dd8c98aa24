use vstd::prelude::*;

verus! {

/// The creation timestamp of a key carries second-level precision only, so
/// the library represents it as whole seconds since the Unix epoch;
/// sub-second components never exist in the first place.
///
/// Relies on `chrono::Utc::now` and `chrono::DateTime::timestamp`: the
/// current time as whole (non-leap) seconds since the Unix epoch. Nothing is
/// promised of the value, as the clock may be set to anything.
#[verifier::external_body]
pub fn now_seconds() -> (r: i64)
{
    chrono::Utc::now().timestamp()
}

} // verus!
