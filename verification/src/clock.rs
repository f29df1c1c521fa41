use vstd::prelude::*;

verus! {

/// Relies on chrono's `From<SystemTime>` conversion for `DateTime<Utc>` (read
/// through `DateTime::timestamp`): the current time as whole seconds since the
/// Unix epoch. The conversion handles a clock set before the Unix epoch
/// without panicking. The value depends on the system clock, so nothing is
/// promised of it.
#[verifier::external_body]
pub(crate) fn now_timestamp() -> i64 {
    chrono::DateTime::<chrono::Utc>::from(std::time::SystemTime::now()).timestamp()
}

} // verus!
