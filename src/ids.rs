use rand::Rng;
use vstd::prelude::*;

verus! {

/// Relies on uuid's `Uuid::now_v7` and its `Display` impl: a fresh,
/// time-ordered identifier, rendered in the hyphenated form, which is always
/// 36 characters long (`Hyphenated::LENGTH`).
#[verifier::external_body]
pub(crate) fn fresh_user_id() -> (r: String)
    ensures
        r@.len() == 36,
{
    uuid::Uuid::now_v7().to_string()
}

/// Relies on rand's thread-local generator (`rand::rng`) and `Rng::random`:
/// a uniformly drawn 16-bit number; any value may come back.
#[verifier::external_body]
pub(crate) fn random_key() -> (r: u16) {
    rand::rng().random::<u16>()
}

} // verus!
