//! The current input speed: a random walk that stays on the input axis.

use vstd::prelude::*;
use crate::fixed::{div_toward_zero, in_limit};
use crate::graph::AXIS_WIDTH;

verus! {

/// The divisor that turns the room toward an end of the axis into the
/// largest single move toward it.
pub const PACE: i64 = 16;

/// The input speed as the walk has left it, always within `[0, AXIS_WIDTH]`.
pub struct InputSpeed {
    speed: i64,
}

/// The least move that the walk may make from `speed`.
pub open spec fn least_move(speed: int) -> int {
    div_toward_zero(-speed, PACE as int)
}

/// The greatest move that the walk may make from `speed`.
pub open spec fn greatest_move(speed: int) -> int {
    div_toward_zero(AXIS_WIDTH - speed, PACE as int)
}

/// The speed lies on the input axis.
pub open spec fn on_axis(speed: int) -> bool {
    0 <= speed <= AXIS_WIDTH
}

/// Draws a number from the inclusive range `[lo, hi]`.
///
/// Trusted: calls `rand::random_range` on `lo..=hi`, which samples with the
/// thread's generator. It panics on an empty range, which `lo <= hi` rules
/// out, and returns a value of the range; which one is left open. The
/// generator itself gives up only where the system has no entropy to seed it.
#[verifier::external_body]
fn random_between(lo: i64, hi: i64) -> (drawn: i64)
    requires
        lo <= hi,
    ensures
        lo <= drawn <= hi,
{
    rand::random_range(lo..=hi)
}

/// The range of moves that the walk may make from `speed`: at most a
/// sixteenth of the room toward either end of the axis.
pub fn diff_range(speed: i64) -> (range: (i64, i64))
    requires
        in_limit(speed as int),
    ensures
        range.0 == least_move(speed as int),
        range.1 == greatest_move(speed as int),
        range.0 <= range.1,
{
    let begin: i64 = -speed / PACE;
    let end: i64 = (AXIS_WIDTH - speed) / PACE;
    (begin, end)
}

/// The speed after a move of `delta`. A move within the range of
/// `diff_range` keeps a speed on the axis on it.
pub fn moved(speed: i64, delta: i64) -> (next: i64)
    requires
        in_limit(speed as int),
        least_move(speed as int) <= delta <= greatest_move(speed as int),
    ensures
        next == speed + delta,
        on_axis(speed as int) ==> on_axis(next as int),
{
    speed + delta
}

impl InputSpeed {
    #[verifier::type_invariant]
    spec fn on_axis(self) -> bool {
        on_axis(self.speed as int)
    }

    /// The speed that the walk has reached.
    pub closed spec fn value(self) -> int {
        self.speed as int
    }

    /// A walk at rest: speed zero.
    pub fn new() -> (walk: InputSpeed)
        ensures
            walk.value() == 0,
    {
        InputSpeed { speed: 0 }
    }

    /// The speed that the walk has reached.
    pub fn current(&self) -> (speed: i64)
        ensures
            speed == self.value(),
            on_axis(speed as int),
    {
        proof {
            use_type_invariant(self);
        }
        self.speed
    }
}

/// Moves the walk by a random step within its range and returns the new
/// speed, which is on the axis again.
pub fn read_input_speed(walk: &mut InputSpeed) -> (speed: i64)
    ensures
        speed == final(walk).value(),
        on_axis(speed as int),
        least_move(old(walk).value()) <= speed - old(walk).value() <= greatest_move(
            old(walk).value(),
        ),
{
    proof {
        use_type_invariant(&*walk);
    }
    let (begin, end) = diff_range(walk.speed);
    let delta: i64 = random_between(begin, end);
    let next: i64 = moved(walk.speed, delta);
    walk.speed = next;
    next
}

} // verus!
