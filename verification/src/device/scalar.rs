//! Fixed-point numbers with six decimal places.

use vstd::prelude::*;

verus! {

/// Number of fixed-point units in one whole unit.
pub const SCALE: i64 = 1_000_000;

/// A real quantity held as a whole number of millionths.
#[derive(Clone, Copy, Debug, PartialEq, Eq, Structural)]
pub struct Scalar {
    pub micros: i64,
}

/// The integer part of `micros` millionths, rounded toward zero.
pub open spec fn whole_part(micros: int) -> int {
    if micros >= 0 {
        micros / (SCALE as int)
    } else {
        -((-micros) / (SCALE as int))
    }
}

/// `v` limited to the closed range `lo..=hi`; when the range is empty the
/// lower bound is tested first.
pub open spec fn clamp_spec(v: int, lo: int, hi: int) -> int {
    if v < lo {
        lo
    } else if v > hi {
        hi
    } else {
        v
    }
}

impl Scalar {
    /// The integer part as an index: rounded toward zero, with every
    /// negative quantity mapped to zero and limited to the range of `usize`.
    pub open spec fn index(self) -> int {
        clamp_spec(whole_part(self.micros as int), 0, usize::MAX as int)
    }

    /// The scalar that stands for the whole number `i`.
    pub fn from_int(i: i32) -> (r: Scalar)
        ensures
            r.micros == i * SCALE,
    {
        let wide: i64 = i as i64;
        assert(-0x8000_0000 * 1_000_000 <= wide * 1_000_000 <= 0x7fff_ffff * 1_000_000)
            by (nonlinear_arith)
            requires
                -0x8000_0000 <= wide <= 0x7fff_ffff,
        ;
        Scalar { micros: wide * SCALE }
    }

    pub fn to_index(self) -> (r: usize)
        ensures
            r == self.index(),
    {
        if self.micros < 0 {
            0
        } else {
            let q: u64 = (self.micros / SCALE) as u64;
            if q > usize::MAX as u64 {
                usize::MAX
            } else {
                q as usize
            }
        }
    }
}

/// Calls `num::clamp` on 128-bit integers. The bounds must be in order, as
/// the outside function asserts it; the result is then the lower bound for an
/// input below it, the upper bound for an input above it, and the input
/// otherwise.
#[verifier::external_body]
fn clamp_ordered(v: i128, lo: i128, hi: i128) -> (r: i128)
    requires
        lo <= hi,
    ensures
        r == clamp_spec(v as int, lo as int, hi as int),
{
    num::clamp(v, lo, hi)
}

/// Greatest magnitude, in millionths, of a movement that a slider takes.
pub const MOVEMENT_LIMIT: i128 = 0x4000_0000_0000_0000_0000_0000_0000_0000;

/// The movement of a slider whose touch went from `last` to `at`: the
/// distance travelled back from `last`, times the step `incr`, in millionths
/// and rounded toward zero.
pub open spec fn movement_of(last: Scalar, at: Scalar, incr: Scalar) -> int {
    whole_part((last.micros - at.micros) * incr.micros)
}

/// With a step of a whole number of units the movement is the distance
/// travelled times that number, with nothing rounded away.
pub proof fn lemma_movement_by_whole_step(last: Scalar, at: Scalar, incr: Scalar, whole: int)
    requires
        incr.micros == whole * SCALE,
    ensures
        movement_of(last, at, incr) == (last.micros - at.micros) * whole,
{
    let travelled = last.micros - at.micros;
    let moved = travelled * whole;
    assert(travelled * incr.micros == moved * 1_000_000) by (nonlinear_arith)
        requires
            incr.micros == whole * 1_000_000,
            moved == travelled * whole,
    ;
    if moved >= 0 {
        assert((moved * 1_000_000) / 1_000_000 == moved);
    } else {
        assert(-(moved * 1_000_000) == (-moved) * 1_000_000);
        assert(((-moved) * 1_000_000) / 1_000_000 == -moved);
    }
}

/// A touch that has not travelled makes no movement, and neither does a
/// step of zero.
pub proof fn lemma_no_movement(last: Scalar, at: Scalar, incr: Scalar)
    requires
        last == at || incr.micros == 0,
    ensures
        movement_of(last, at, incr) == 0,
{
    assert((last.micros - at.micros) * incr.micros == 0) by (nonlinear_arith)
        requires
            last.micros - at.micros == 0 || incr.micros == 0,
    ;
}

/// Works out the movement of a slider whose touch went from `last` to `at`.
pub fn movement(last: Scalar, at: Scalar, incr: Scalar) -> (r: i128)
    ensures
        r == movement_of(last, at, incr),
        -MOVEMENT_LIMIT <= r <= MOVEMENT_LIMIT,
{
    let travelled: i128 = last.micros as i128 - at.micros as i128;
    let step: i128 = incr.micros as i128;
    assert(-0xffff_ffff_ffff_ffff * 0x8000_0000_0000_0000 <= travelled * step
        <= 0xffff_ffff_ffff_ffff * 0x8000_0000_0000_0000) by (nonlinear_arith)
        requires
            -0xffff_ffff_ffff_ffff <= travelled <= 0xffff_ffff_ffff_ffff,
            -0x8000_0000_0000_0000 <= step < 0x8000_0000_0000_0000,
    ;
    let product: i128 = travelled * step;
    if product >= 0 {
        product / (SCALE as i128)
    } else {
        -((-product) / (SCALE as i128))
    }
}

/// The value of a slider after a movement of `moved` millionths from
/// `value`, kept within `min` and `max`.
pub open spec fn advanced(value: Scalar, min: Scalar, max: Scalar, moved: int) -> Scalar {
    Scalar { micros: clamp_spec(value.micros + moved, min.micros as int, max.micros as int) as i64 }
}

/// Moves a slider's value by `moved` millionths and clamps it.
pub fn advance(value: Scalar, min: Scalar, max: Scalar, moved: i128) -> (r: Scalar)
    requires
        -MOVEMENT_LIMIT <= moved <= MOVEMENT_LIMIT,
    ensures
        r == advanced(value, min, max, moved as int),
{
    let lo: i128 = min.micros as i128;
    let hi: i128 = max.micros as i128;
    let target: i128 = value.micros as i128 + moved;
    let kept: i128 = if lo <= hi {
        clamp_ordered(target, lo, hi)
    } else if target < lo {
        lo
    } else {
        hi
    };
    Scalar { micros: kept as i64 }
}

} // verus!
