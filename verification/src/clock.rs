//! The wall clock.

use vstd::prelude::*;

verus! {

/// `std::time::SystemTime`, carried as an opaque value.
#[verifier::external_type_specification]
#[verifier::external_body]
pub struct ExSystemTime(std::time::SystemTime);

/// `SystemTime` is `Copy`; std documents `clone` on a `Copy` type as the
/// copy itself.
pub assume_specification[ <std::time::SystemTime as Clone>::clone ](t: &std::time::SystemTime) -> (r: std::time::SystemTime)
    ensures
        r == *t,
;

/// The current time, from `std::time::SystemTime::now()`. It rests on the
/// clock: the contract states nothing of it.
#[verifier::external_body]
pub(crate) fn system_now() -> (t: std::time::SystemTime) {
    std::time::SystemTime::now()
}

} // verus!
