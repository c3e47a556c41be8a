//! The game's sources of chance.
use vstd::prelude::*;

verus! {

/// A fair coin from the thread-local generator of `rand`
/// (`rand::random::<bool>()`, which draws `true` and `false` with even odds).
/// Nothing is claimed of the outcome: any value may come back.
#[verifier::external_body]
pub(crate) fn fair_coin() -> (heads: bool) {
    rand::random::<bool>()
}

} // verus!
