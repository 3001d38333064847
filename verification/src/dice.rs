//! The die.
use vstd::prelude::*;
use rand::Rng;

verus! {

/// Draws a number between 1 and `num`, both included, from the thread's
/// random generator: `rand::thread_rng()` and `Rng::gen_range` on the range
/// `1..=num`. The range must not be empty. Nothing is claimed of the number
/// but that it lies in the range.
#[verifier::external_body]
pub(crate) fn roll_die(num: u32) -> (roll: u32)
    requires
        num >= 1,
    ensures
        1 <= roll <= num,
{
    let mut rng = rand::thread_rng();
    rng.gen_range(1..=num)
}

} // verus!
