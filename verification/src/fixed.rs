//! Fixed-point scalars and the vectors built from them.

use vstd::prelude::*;

verus! {

/// The fixed-point representation of 1.
pub const ONE: i64 = 1_000_000;

/// The `i64` nearest to `x`.
pub open spec fn saturate(x: int) -> i64 {
    if x < i64::MIN {
        i64::MIN
    } else if x > i64::MAX {
        i64::MAX
    } else {
        x as i64
    }
}

/// Narrows a wide intermediate result, saturating at the bounds of `i64`.
pub fn saturate_wide(x: i128) -> (r: i64)
    ensures
        r == saturate(x as int),
{
    if x < i64::MIN as i128 {
        i64::MIN
    } else if x > i64::MAX as i128 {
        i64::MAX
    } else {
        x as i64
    }
}

/// The product of a plain integer factor and a wide integer, saturated.
pub fn saturating_product(factor: i64, wide: i128) -> (r: i64)
    ensures
        r == saturate(factor * wide),
{
    if factor == 0 || wide == 0 {
        assert(factor * wide == 0) by (nonlinear_arith)
            requires
                factor == 0 || wide == 0,
        ;
        0
    } else if wide > i64::MAX as i128 || wide < i64::MIN as i128 {
        let up: bool = (factor > 0) == (wide > 0);
        proof {
            let f: int = factor as int;
            let w: int = wide as int;
            if f > 0 && w > i64::MAX {
                assert(f * w > i64::MAX) by (nonlinear_arith)
                    requires
                        f >= 1,
                        w > i64::MAX,
                ;
            } else if f < 0 && w < i64::MIN {
                assert(f * w > i64::MAX) by (nonlinear_arith)
                    requires
                        f <= -1,
                        w < i64::MIN,
                ;
            } else if f > 0 && w < i64::MIN {
                assert(f * w < i64::MIN) by (nonlinear_arith)
                    requires
                        f >= 1,
                        w < i64::MIN,
                ;
            } else {
                assert(f * w <= i64::MIN) by (nonlinear_arith)
                    requires
                        f <= -1,
                        w > i64::MAX,
                ;
            }
        }
        if up {
            i64::MAX
        } else {
            i64::MIN
        }
    } else {
        assert(i128::MIN <= factor * wide <= i128::MAX) by (nonlinear_arith)
            requires
                i64::MIN <= factor <= i64::MAX,
                i64::MIN <= wide <= i64::MAX,
        ;
        saturate_wide(factor as i128 * wide)
    }
}

/// A product of two fixed-point numbers brought back to scale, rounded
/// towards zero.
pub open spec fn rescaled(product: int) -> int {
    if product >= 0 {
        product / (ONE as int)
    } else {
        -((-product) / (ONE as int))
    }
}

/// Brings a wide product of two fixed-point numbers back to scale.
pub fn rescale(product: i128) -> (r: i64)
    ensures
        r == saturate(rescaled(product as int)),
{
    saturate_wide(product / (ONE as i128))
}

/// The fixed-point product of a fixed-point factor and a wide fixed-point
/// number, saturated.
pub fn scaled_product(factor: i64, wide: i128) -> (r: i64)
    ensures
        r == saturate(rescaled(factor * wide)),
{
    if factor == 0 || wide == 0 {
        assert(factor * wide == 0) by (nonlinear_arith)
            requires
                factor == 0 || wide == 0,
        ;
        return 0;
    }
    // Beyond this magnitude a product is out of range after rescaling.
    let limit: i128 = 0x8000_0000_0000_0000 * 1_000_000;
    let small_factor: bool = -ONE < factor && factor < ONE;
    let narrow: bool = i64::MIN as i128 <= wide && wide <= i64::MAX as i128;
    if -limit < wide && wide < limit && (small_factor || narrow) {
        assert(i128::MIN <= factor * wide <= i128::MAX) by (nonlinear_arith)
            requires
                -limit < wide < limit,
                limit == 0x8000_0000_0000_0000 * 1_000_000,
                (-1_000_000 < factor < 1_000_000) || (-0x8000_0000_0000_0000 <= wide
                    <= 0x7fff_ffff_ffff_ffff),
                -0x8000_0000_0000_0000 <= factor <= 0x7fff_ffff_ffff_ffff,
        ;
        rescale(factor as i128 * wide)
    } else {
        let up: bool = (factor > 0) == (wide > 0);
        proof {
            let f: int = factor as int;
            let w: int = wide as int;
            let l: int = limit as int;
            let far: bool = w >= l || w <= -l;
            assert(far || ((f >= 1_000_000 || f <= -1_000_000) && (w >= 0x8000_0000_0000_0000
                || w <= -0x8000_0000_0000_0000)));
            if up {
                assert(f * w >= l) by (nonlinear_arith)
                    requires
                        (f > 0) == (w > 0),
                        f != 0,
                        w != 0,
                        l == 0x8000_0000_0000_0000 * 1_000_000,
                        (w >= l || w <= -l) || ((f >= 1_000_000 || f <= -1_000_000) && (w
                            >= 0x8000_0000_0000_0000 || w <= -0x8000_0000_0000_0000)),
                ;
            } else {
                assert(f * w <= -l) by (nonlinear_arith)
                    requires
                        (f > 0) != (w > 0),
                        f != 0,
                        w != 0,
                        l == 0x8000_0000_0000_0000 * 1_000_000,
                        (w >= l || w <= -l) || ((f >= 1_000_000 || f <= -1_000_000) && (w
                            >= 0x8000_0000_0000_0000 || w <= -0x8000_0000_0000_0000)),
                ;
            }
        }
        if up {
            i64::MAX
        } else {
            i64::MIN
        }
    }
}

/// A pair of fixed-point components.
#[derive(Clone, Copy, Debug, PartialEq, Eq, Structural)]
pub struct Vec2 {
    pub x: i64,
    pub y: i64,
}

/// A triple of fixed-point components. The `y` axis points up.
#[derive(Clone, Copy, Debug, PartialEq, Eq, Structural)]
pub struct Vec3 {
    pub x: i64,
    pub y: i64,
    pub z: i64,
}

impl Vec3 {
    /// This vector moved by `by`, each component saturated.
    pub open spec fn translated(self, by: Vec3) -> Vec3 {
        Vec3 {
            x: saturate(self.x + by.x),
            y: saturate(self.y + by.y),
            z: saturate(self.z + by.z),
        }
    }

    /// Moves this vector by `by`.
    pub fn translate(self, by: Vec3) -> (moved: Vec3)
        ensures
            moved == self.translated(by),
    {
        Vec3 {
            x: saturate_wide(self.x as i128 + by.x as i128),
            y: saturate_wide(self.y as i128 + by.y as i128),
            z: saturate_wide(self.z as i128 + by.z as i128),
        }
    }
}

} // verus!
