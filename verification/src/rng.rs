//! The one place where chance enters the game.

use vstd::prelude::*;

verus! {

/// A number from `rand::random::<u32>()`, which asks the thread's generator
/// for it. Nothing is claimed of the number: any `u32` may come, and two
/// calls need not agree. That the numbers are spread evenly is left to
/// `rand`. The call fails only where the system cannot seed the generator.
#[verifier::external_body]
pub(crate) fn random_u32() -> u32 {
    rand::random::<u32>()
}

} // verus!
