use vstd::prelude::*;

verus! {

/// `chrono::Utc::now` and `DateTime::timestamp`: the current time in whole
/// seconds since the Unix epoch. It depends on the clock, so nothing is
/// claimed of it. `Utc::now` panics where the system's clock stands before
/// the Unix epoch; that is a state of the machine and no argument, so no
/// `requires` can leave it out.
#[verifier::external_body]
pub(crate) fn current_time() -> (now: i64) {
    chrono::Utc::now().timestamp()
}

} // verus!
