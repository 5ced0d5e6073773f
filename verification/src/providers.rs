//! External collaborators: the randomness provider and the identifier
//! generator.  These are the only places where the library calls outside
//! code, and each call is wrapped in a function whose contract states no
//! more than the callee's documentation promises.

use vstd::prelude::*;
use rand::Rng;

verus! {

/// Relies on `rand::random::<bool>`: a fair coin flip, `true` or `false`
/// each with probability one half.  Nothing can be promised of a single
/// outcome.
#[verifier::external_body]
pub(crate) fn coin_flip() -> bool {
    rand::random::<bool>()
}

/// Relies on `rand::Rng::gen_ratio`: returns `true` with probability
/// `numerator / denominator`.  Its documentation guarantees the outcome
/// only at the two ends of the range, and that is all this contract
/// states; it panics when `denominator == 0` or
/// `numerator > denominator`, so those inputs are excluded.
#[verifier::external_body]
pub(crate) fn bernoulli(numerator: u32, denominator: u32) -> (r: bool)
    requires
        0 < denominator,
        numerator <= denominator,
    ensures
        numerator == 0 ==> !r,
        numerator == denominator ==> r,
{
    rand::thread_rng().gen_ratio(numerator, denominator)
}

/// Relies on `uuid::Uuid::new_v4` and its `Display` form: a freshly drawn
/// random version-4 UUID, rendered in the 36-character hyphenated form.
/// The identifier is random, so nothing is promised beyond its length.
#[verifier::external_body]
pub(crate) fn fresh_identifier() -> (r: String)
    ensures
        r@.len() == 36,
{
    uuid::Uuid::new_v4().to_string()
}

/// Relies on `uuid::Uuid::new_v4` and `Uuid::as_u128`: the bits of a
/// freshly drawn random version-4 UUID as one integer.  The value is
/// random, so nothing is promised of it; the library uses it as a
/// collision-resistant handle for map identity.
#[verifier::external_body]
pub(crate) fn fresh_map_id() -> u128 {
    uuid::Uuid::new_v4().as_u128()
}

} // verus!
