use vstd::prelude::*;

verus! {

/// Relies on `chrono::Utc::now` and `chrono::DateTime::timestamp`: the
/// current time as whole seconds since the Unix epoch. `Utc::now` panics
/// when the system clock is set before the epoch, so whenever it returns,
/// the timestamp is not negative.
#[verifier::external_body]
pub(crate) fn now_timestamp() -> (t: i64)
    ensures
        t >= 0,
{
    chrono::Utc::now().timestamp()
}

} // verus!
