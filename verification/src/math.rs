//! Integer vector and matrix values used throughout the bridge.
//!
//! Scalars are `i64` milliunits. The few arithmetic operations the bridge
//! performs (velocity unit conversion, offset composition, the model
//! world's integration step) saturate at the `i64` range instead of
//! wrapping or panicking; within the range they are exact, and every
//! contract says precisely when saturation happens.

use vstd::prelude::*;

verus! {

/// Clamps a mathematical integer into the `i64` range.
pub open spec fn clamp64(v: int) -> int {
    if v < i64::MIN {
        i64::MIN as int
    } else if v > i64::MAX {
        i64::MAX as int
    } else {
        v
    }
}

/// Integer division truncating toward zero (the convention used by the
/// model world's integration step).
pub open spec fn div_to_zero(a: int, b: int) -> int
    recommends
        b > 0,
{
    if a >= 0 {
        a / b
    } else {
        -((-a) / b)
    }
}

/// Saturating addition on scalars.
pub fn add_sat(a: i64, b: i64) -> (r: i64)
    ensures
        r == clamp64(a + b),
{
    let wide: i128 = a as i128 + b as i128;
    if wide < i64::MIN as i128 {
        i64::MIN
    } else if wide > i64::MAX as i128 {
        i64::MAX
    } else {
        wide as i64
    }
}

/// Saturating subtraction on scalars.
pub fn sub_sat(a: i64, b: i64) -> (r: i64)
    ensures
        r == clamp64(a - b),
{
    let wide: i128 = a as i128 - b as i128;
    if wide < i64::MIN as i128 {
        i64::MIN
    } else if wide > i64::MAX as i128 {
        i64::MAX
    } else {
        wide as i64
    }
}

/// Saturating multiplication on scalars.
pub fn mul_sat(a: i64, b: i64) -> (r: i64)
    ensures
        r == clamp64(a * b),
{
    assert((a as int) * (b as int) < i128::MAX && (a as int) * (b as int) > i128::MIN)
        by (nonlinear_arith)
        requires
            i64::MIN <= a <= i64::MAX,
            i64::MIN <= b <= i64::MAX,
    ;
    let wide: i128 = a as i128 * b as i128;
    if wide < i64::MIN as i128 {
        i64::MIN
    } else if wide > i64::MAX as i128 {
        i64::MAX
    } else {
        wide as i64
    }
}

/// Division truncating toward zero, with a positive divisor.
pub fn div_trunc(a: i64, b: i64) -> (r: i64)
    requires
        b > 0,
    ensures
        r == div_to_zero(a as int, b as int),
{
    let bu: u64 = b as u64;
    if a >= 0 {
        let q: u64 = (a as u64) / bu;
        assert(q <= a) by (nonlinear_arith)
            requires
                a >= 0,
                bu >= 1,
                q == (a as u64) / bu,
        ;
        q as i64
    } else {
        let m: u64 = (-(a as i128)) as u64;
        let q: u64 = m / bu;
        assert(q <= m) by (nonlinear_arith)
            requires
                bu >= 1,
                q == m / bu,
        ;
        if q >= 0x8000_0000_0000_0000 {
            assert(q == 0x8000_0000_0000_0000);
            assert(div_to_zero(a as int, b as int) == i64::MIN as int) by (nonlinear_arith)
                requires
                    a < 0,
                    b > 0,
                    m == -(a as int),
                    m <= 0x8000_0000_0000_0000,
                    m / (b as u64) >= 0x8000_0000_0000_0000,
                    div_to_zero(a as int, b as int) == -(m as int / (b as int)),
            ;
            i64::MIN
        } else {
            -(q as i64)
        }
    }
}

/// A three-axis vector of milliunit scalars.
#[derive(Clone, Copy, Debug, PartialEq, Eq, Structural)]
pub struct Vector3 {
    pub x: i64,
    pub y: i64,
    pub z: i64,
}

impl Vector3 {
    /// Builds a vector from its three components.
    pub fn new(x: i64, y: i64, z: i64) -> (r: Vector3)
        ensures
            r == (Vector3 { x, y, z }),
    {
        Vector3 { x, y, z }
    }

    /// The zero vector.
    pub fn zeros() -> (r: Vector3)
        ensures
            r == (Vector3 { x: 0, y: 0, z: 0 }),
    {
        Vector3 { x: 0, y: 0, z: 0 }
    }

    /// The vector sum, saturating per component.
    pub open spec fn spec_add(self, other: Vector3) -> Vector3 {
        Vector3 {
            x: clamp64(self.x + other.x) as i64,
            y: clamp64(self.y + other.y) as i64,
            z: clamp64(self.z + other.z) as i64,
        }
    }

    /// The vector scaled by an integer, saturating per component.
    pub open spec fn spec_scale(self, k: int) -> Vector3 {
        Vector3 {
            x: clamp64(self.x * k) as i64,
            y: clamp64(self.y * k) as i64,
            z: clamp64(self.z * k) as i64,
        }
    }

    /// The vector divided by a positive integer, truncating toward zero.
    pub open spec fn spec_div(self, k: int) -> Vector3 {
        Vector3 {
            x: div_to_zero(self.x as int, k) as i64,
            y: div_to_zero(self.y as int, k) as i64,
            z: div_to_zero(self.z as int, k) as i64,
        }
    }

    /// Adds another vector, saturating per component.
    pub fn add_vec(&self, other: &Vector3) -> (r: Vector3)
        ensures
            r == self.spec_add(*other),
    {
        Vector3 {
            x: add_sat(self.x, other.x),
            y: add_sat(self.y, other.y),
            z: add_sat(self.z, other.z),
        }
    }

    /// Scales by an integer, saturating per component.
    pub fn scale(&self, k: i64) -> (r: Vector3)
        ensures
            r == self.spec_scale(k as int),
    {
        Vector3 { x: mul_sat(self.x, k), y: mul_sat(self.y, k), z: mul_sat(self.z, k) }
    }

    /// Divides by a positive integer, truncating toward zero.
    pub fn div_scalar(&self, k: i64) -> (r: Vector3)
        requires
            k > 0,
        ensures
            r == self.spec_div(k as int),
    {
        Vector3 { x: div_trunc(self.x, k), y: div_trunc(self.y, k), z: div_trunc(self.z, k) }
    }
}

/// A three-by-three matrix of milliunit scalars (the bridge only ever
/// copies these between a component and the world, never computes on
/// them).
#[derive(Clone, Copy, Debug, PartialEq, Eq, Structural)]
pub struct Matrix3 {
    pub m00: i64,
    pub m01: i64,
    pub m02: i64,
    pub m10: i64,
    pub m11: i64,
    pub m12: i64,
    pub m20: i64,
    pub m21: i64,
    pub m22: i64,
}

impl Matrix3 {
    /// The zero matrix.
    pub fn zeros() -> (r: Matrix3)
        ensures
            r == (Matrix3 {
                m00: 0, m01: 0, m02: 0,
                m10: 0, m11: 0, m12: 0,
                m20: 0, m21: 0, m22: 0,
            }),
    {
        Matrix3 { m00: 0, m01: 0, m02: 0, m10: 0, m11: 0, m12: 0, m20: 0, m21: 0, m22: 0 }
    }

    /// A diagonal matrix with the given element on the diagonal.
    pub fn from_diagonal_element(d: i64) -> (r: Matrix3)
        ensures
            r == (Matrix3 {
                m00: d, m01: 0, m02: 0,
                m10: 0, m11: d, m12: 0,
                m20: 0, m21: 0, m22: d,
            }),
    {
        Matrix3 { m00: d, m01: 0, m02: 0, m10: 0, m11: d, m12: 0, m20: 0, m21: 0, m22: d }
    }
}

} // verus!
