//! The crate's one source of randomness, wrapped so that every
//! decision taken from a draw is a verified function of the drawn
//! value.

use vstd::prelude::*;

verus! {

/// Relies on rand::random: one draw from the thread-local generator.
/// Nothing is promised of the value; callers state what holds of every
/// outcome.
#[verifier::external_body]
pub(crate) fn random_u32() -> u32 {
    rand::random::<u32>()
}

} // verus!
