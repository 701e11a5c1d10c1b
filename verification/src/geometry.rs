//! Fixed-point radial geometry.
//!
//! Angles never appear as raw radians inside the engine. Instead a stick
//! direction is represented by its unit vector scaled by `DIR_SCALE`: the
//! point at angle `a` is `(cos(a) * DIR_SCALE, sin(a) * DIR_SCALE)`, rounded
//! to integers by the host. The engine only ever multiplies these components
//! by a pixel radius, so every coordinate it emits is an exact integer
//! computation that the verifier can reason about.

use vstd::prelude::*;

verus! {

/// Scale of the fixed-point unit-vector components: a component of
/// `DIR_SCALE` stands for 1.0.
pub const DIR_SCALE: i32 = 65536;

/// A stick direction as a fixed-point unit vector. `x` is the cosine and
/// `y` the sine of the stick angle, both scaled by `DIR_SCALE`; the angle
/// convention is mathematical (counter-clockwise, y grows upward).
#[derive(Clone, Copy, PartialEq, Eq, Structural, Debug)]
pub struct Direction {
    pub x: i32,
    pub y: i32,
}

impl Direction {
    /// A scaled unit-vector component never exceeds 1.0 in magnitude.
    pub open spec fn wf(self) -> bool {
        -(DIR_SCALE as int) <= self.x <= DIR_SCALE as int
            && -(DIR_SCALE as int) <= self.y <= DIR_SCALE as int
    }

    /// The direction of angle 0: straight along the positive x axis.
    pub fn east() -> (d: Direction)
        ensures
            d == (Direction { x: DIR_SCALE, y: 0i32 }),
            d.wf(),
    {
        Direction { x: DIR_SCALE, y: 0 }
    }

    /// The direction of angle pi/2: straight up.
    pub fn north() -> (d: Direction)
        ensures
            d == (Direction { x: 0i32, y: DIR_SCALE }),
            d.wf(),
    {
        Direction { x: 0, y: DIR_SCALE }
    }

    /// The zero vector, used as the initial latched direction.
    pub fn zero() -> (d: Direction)
        ensures
            d == (Direction { x: 0i32, y: 0i32 }),
            d.wf(),
    {
        Direction { x: 0, y: 0 }
    }
}

/// Product of a fixed-point unit-vector component and a pixel length,
/// scaled back down to pixels. Rounds the magnitude toward zero.
pub open spec fn scale_mul_spec(c: int, len: int) -> int {
    if c >= 0 {
        (c * len) / (DIR_SCALE as int)
    } else {
        -(((-c) * len) / (DIR_SCALE as int))
    }
}

/// Multiplies a scaled unit-vector component by a pixel length.
pub fn scale_mul(c: i32, len: u32) -> (res: i64)
    requires
        -(DIR_SCALE as int) <= c <= DIR_SCALE as int,
        len <= 100_000_000,
    ensures
        res == scale_mul_spec(c as int, len as int),
        -(len as int) <= res <= len as int,
{
    if c >= 0 {
        proof {
            assert(c as int * len as int <= DIR_SCALE as int * 100_000_000) by (nonlinear_arith)
                requires 0 <= c <= DIR_SCALE as int, 0 <= len <= 100_000_000;
        }
        let wide: u64 = (c as u64) * (len as u64);
        proof {
            assert(wide / (DIR_SCALE as u64) <= len as u64) by {
                assert(c as int * len as int <= DIR_SCALE as int * len as int) by (nonlinear_arith)
                    requires 0 <= c <= DIR_SCALE as int, 0 <= len;
                vstd::arithmetic::div_mod::lemma_div_multiples_vanish(len as int, DIR_SCALE as int);
                vstd::arithmetic::div_mod::lemma_div_is_ordered(
                    c as int * len as int,
                    DIR_SCALE as int * len as int,
                    DIR_SCALE as int,
                );
            }
        }
        (wide / (DIR_SCALE as u64)) as i64
    } else {
        proof {
            assert((-(c as int)) * len as int <= DIR_SCALE as int * 100_000_000)
                by (nonlinear_arith)
                requires 0 <= -(c as int) <= DIR_SCALE as int, 0 <= len <= 100_000_000;
        }
        let mag: u64 = ((-c) as u64) * (len as u64);
        proof {
            assert(mag / (DIR_SCALE as u64) <= len as u64) by {
                assert((-(c as int)) * len as int <= DIR_SCALE as int * len as int)
                    by (nonlinear_arith)
                    requires 0 <= -(c as int) <= DIR_SCALE as int, 0 <= len;
                vstd::arithmetic::div_mod::lemma_div_multiples_vanish(len as int, DIR_SCALE as int);
                vstd::arithmetic::div_mod::lemma_div_is_ordered(
                    (-(c as int)) * len as int,
                    DIR_SCALE as int * len as int,
                    DIR_SCALE as int,
                );
            }
        }
        -((mag / (DIR_SCALE as u64)) as i64)
    }
}

/// Scaling a full-magnitude positive component by a length gives back the
/// length exactly, and scaling the zero component gives zero.
pub proof fn lemma_scale_mul_units(len: int)
    requires
        0 <= len,
    ensures
        scale_mul_spec(DIR_SCALE as int, len) == len,
        scale_mul_spec(0, len) == 0,
{
    vstd::arithmetic::div_mod::lemma_div_multiples_vanish(len, DIR_SCALE as int);
    assert(DIR_SCALE as int * len == len * DIR_SCALE as int) by (nonlinear_arith);
    assert(0 * len == 0) by (nonlinear_arith);
}

} // verus!
