//! What the game leaves to chance: a session's id and the angle of a serve.
//! Both come from the `rand` crate's generator of the running thread.

use rand::Rng;
use vstd::prelude::*;

verus! {

/// How far a serve may lean to either side of the horizontal.
pub const SERVE_ANGLE_SPREAD: i32 = 45;

/// `rand::Rng::gen` on the thread's generator, for a `u32`: some value of
/// the type. Nothing is claimed of it.
#[verifier::external_body]
pub(crate) fn random_u32() -> u32 {
    rand::thread_rng().gen()
}

/// `rand::Rng::gen_range` on the thread's generator, for the half-open range
/// from `low` to `high`. The range must not be empty; the value lies in it.
#[verifier::external_body]
fn random_between(low: i32, high: i32) -> (value: i32)
    requires
        low < high,
    ensures
        low <= value < high,
{
    rand::thread_rng().gen_range(low..high)
}

/// The angle of a serve, drawn at random: from 45 below the horizontal up
/// to, but not including, 45 above.
pub fn serve_angle() -> (angle: i32)
    ensures
        -SERVE_ANGLE_SPREAD <= angle < SERVE_ANGLE_SPREAD,
{
    random_between(-SERVE_ANGLE_SPREAD, SERVE_ANGLE_SPREAD)
}

} // verus!
