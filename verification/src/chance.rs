//! Calls into the random-number and identifier crates. Nothing is promised
//! of a drawn value beyond its range.

use vstd::prelude::*;

verus! {

/// A uniformly drawn `usize`, from `rand::random::<usize>()` (the thread's
/// generator). Its value rests on chance: the contract states nothing of it.
#[verifier::external_body]
pub(crate) fn random_usize() -> (r: usize) {
    rand::random::<usize>()
}

/// A number drawn from `0..n` by `fastrand::usize(0..n)` (the thread's
/// generator), which panics on an empty range and otherwise returns a value
/// of the range; which one rests on chance.
#[verifier::external_body]
pub(crate) fn random_below(n: usize) -> (r: usize)
    requires
        n > 0,
    ensures
        r < n,
{
    fastrand::usize(0..n)
}

/// A lower-case hexadecimal digit.
pub open spec fn is_lower_hex(c: char) -> bool {
    ('0' <= c && c <= '9') || ('a' <= c && c <= 'f')
}

/// The text of a version-4 UUID as `Uuid`'s `Display` writes it: 36
/// characters, hyphens at positions 8, 13, 18 and 23, lower-case
/// hexadecimal digits elsewhere.
pub open spec fn is_hyphenated_uuid(s: Seq<char>) -> bool {
    &&& s.len() == 36
    &&& forall|i: int|
        0 <= i < 36 ==> if i == 8 || i == 13 || i == 18 || i == 23 {
            s[i] == '-'
        } else {
            is_lower_hex(#[trigger] s[i])
        }
}

/// A fresh random identifier, `uuid::Uuid::new_v4()` rendered by its
/// `Display` impl, which the uuid source writes in the hyphenated
/// lower-case form; which identifier comes out rests on chance.
#[verifier::external_body]
pub(crate) fn new_uuid_v4() -> (r: String)
    ensures
        is_hyphenated_uuid(r@),
{
    uuid::Uuid::new_v4().to_string()
}

/// The first eight characters of a fresh version-4 UUID: eight lower-case
/// hexadecimal digits, as identifiers of sessions, tasks and tunnels carry.
pub fn uuid_prefix8() -> (r: String)
    ensures
        r@.len() == 8,
        forall|i: int| 0 <= i < 8 ==> is_lower_hex(#[trigger] r@[i]),
{
    let u = new_uuid_v4();
    let cs = crate::text::chars_of(u.as_str());
    let r = crate::text::string_from_range(&cs, 0, 8);
    assert forall|i: int| 0 <= i < 8 implies is_lower_hex(#[trigger] r@[i]) by {
        assert(r@[i] == u@[i]);
    }
    r
}

} // verus!
