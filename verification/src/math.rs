//! Scalars, matrices and pairs of numbers.

use vstd::prelude::*;
use vstd::std_specs::ops::{
    AddSpec, AddSpecImpl, DivSpec, DivSpecImpl, MulSpec, MulSpecImpl, SubSpec, SubSpecImpl,
};

verus! {

/// Bit pattern of the single-precision number 0.0.
pub const ZERO_BITS: u32 = 0;

/// Bit pattern of the single-precision number 1.0.
pub const ONE_BITS: u32 = 0x3F80_0000;

/// Bit pattern of the single-precision number 0.5.
pub const HALF_BITS: u32 = 0x3F00_0000;

/// Bit pattern of the single-precision number -0.5.
pub const NEG_HALF_BITS: u32 = 0xBF00_0000;

/// A single-precision number carried by its IEEE-754 bit pattern. The library
/// never does arithmetic on scalars: it places them in vertices, matrices and
/// uniform values and hands them to the driver as they are.
#[derive(Clone, Copy, Debug, PartialEq, Eq, Structural)]
pub struct Scalar {
    pub bits: u32,
}

impl Scalar {
    pub open spec fn spec_zero() -> Scalar {
        Scalar { bits: ZERO_BITS }
    }

    pub open spec fn spec_one() -> Scalar {
        Scalar { bits: ONE_BITS }
    }

    pub fn from_bits(bits: u32) -> (s: Scalar)
        ensures
            s.bits == bits,
    {
        Scalar { bits }
    }

    pub fn to_bits(self) -> (bits: u32)
        ensures
            bits == self.bits,
    {
        self.bits
    }

    #[verifier::when_used_as_spec(spec_zero)]
    pub fn zero() -> (s: Scalar)
        ensures
            s == Self::spec_zero(),
    {
        Scalar { bits: ZERO_BITS }
    }

    #[verifier::when_used_as_spec(spec_one)]
    pub fn one() -> (s: Scalar)
        ensures
            s == Self::spec_one(),
    {
        Scalar { bits: ONE_BITS }
    }
}

/// One column of a four-by-four matrix.
#[derive(Clone, Copy, Debug, PartialEq, Eq, Structural)]
pub struct Column {
    pub x: Scalar,
    pub y: Scalar,
    pub z: Scalar,
    pub w: Scalar,
}

/// A four-by-four matrix of scalars, stored column by column as the driver
/// reads it.
#[derive(Clone, Copy, Debug, PartialEq, Eq, Structural)]
pub struct Matrix {
    pub c0: Column,
    pub c1: Column,
    pub c2: Column,
    pub c3: Column,
}

impl Matrix {
    /// The matrix with ones on the diagonal and zeros elsewhere.
    pub open spec fn spec_identity() -> Matrix {
        let o = Scalar::spec_one();
        let z = Scalar::spec_zero();
        Matrix {
            c0: Column { x: o, y: z, z: z, w: z },
            c1: Column { x: z, y: o, z: z, w: z },
            c2: Column { x: z, y: z, z: o, w: z },
            c3: Column { x: z, y: z, z: z, w: o },
        }
    }

    /// The matrix whose rows, read left to right and top to bottom, are the
    /// sixteen arguments.
    pub open spec fn spec_from_rows(
        m11: Scalar, m12: Scalar, m13: Scalar, m14: Scalar,
        m21: Scalar, m22: Scalar, m23: Scalar, m24: Scalar,
        m31: Scalar, m32: Scalar, m33: Scalar, m34: Scalar,
        m41: Scalar, m42: Scalar, m43: Scalar, m44: Scalar,
    ) -> Matrix {
        Matrix {
            c0: Column { x: m11, y: m21, z: m31, w: m41 },
            c1: Column { x: m12, y: m22, z: m32, w: m42 },
            c2: Column { x: m13, y: m23, z: m33, w: m43 },
            c3: Column { x: m14, y: m24, z: m34, w: m44 },
        }
    }

    #[verifier::when_used_as_spec(spec_identity)]
    pub fn identity() -> (m: Matrix)
        ensures
            m == Self::spec_identity(),
    {
        let o = Scalar::one();
        let z = Scalar::zero();
        Matrix {
            c0: Column { x: o, y: z, z: z, w: z },
            c1: Column { x: z, y: o, z: z, w: z },
            c2: Column { x: z, y: z, z: o, w: z },
            c3: Column { x: z, y: z, z: z, w: o },
        }
    }

    #[verifier::when_used_as_spec(spec_from_rows)]
    pub fn from_rows(
        m11: Scalar, m12: Scalar, m13: Scalar, m14: Scalar,
        m21: Scalar, m22: Scalar, m23: Scalar, m24: Scalar,
        m31: Scalar, m32: Scalar, m33: Scalar, m34: Scalar,
        m41: Scalar, m42: Scalar, m43: Scalar, m44: Scalar,
    ) -> (m: Matrix)
        ensures
            m == Self::spec_from_rows(
                m11, m12, m13, m14, m21, m22, m23, m24, m31, m32, m33, m34, m41, m42, m43, m44,
            ),
    {
        Matrix {
            c0: Column { x: m11, y: m21, z: m31, w: m41 },
            c1: Column { x: m12, y: m22, z: m32, w: m42 },
            c2: Column { x: m13, y: m23, z: m33, w: m43 },
            c3: Column { x: m14, y: m24, z: m34, w: m44 },
        }
    }
}

/// The numbers that vectors are made of: with a default value and the four
/// arithmetic operators.
pub trait NumDefault: Default + core::ops::Add<Output = Self> + core::ops::Sub<
    Output = Self,
> + core::ops::Mul<Output = Self> + core::ops::Div<Output = Self> {

}

impl<
    T: Default + core::ops::Add<Output = T> + core::ops::Sub<Output = T> + core::ops::Mul<
        Output = T,
    > + core::ops::Div<Output = T>,
> NumDefault for T {

}

/// A pair of numbers. The four operators work on the two components
/// separately.
pub struct Vec2<T: NumDefault> {
    pub x: T,
    pub y: T,
}

impl<T: NumDefault> Vec2<T> {
    pub fn new(x: T, y: T) -> (v: Self)
        ensures
            v.x == x,
            v.y == y,
    {
        Vec2 { x, y }
    }
}

impl<T: NumDefault> Default for Vec2<T> {
    /// The vector whose components hold the default value of `T`.
    fn default() -> (v: Self)
        ensures
            call_ensures(T::default, (), v.x),
            call_ensures(T::default, (), v.y),
    {
        Vec2 { x: T::default(), y: T::default() }
    }
}

impl<T: NumDefault> core::ops::Sub for Vec2<T> {
    type Output = Vec2<T>;

    fn sub(self, other: Vec2<T>) -> (v: Vec2<T>) {
        Vec2 { x: self.x - other.x, y: self.y - other.y }
    }
}

impl<T: NumDefault> SubSpecImpl for Vec2<T> {
    open spec fn obeys_sub_spec() -> bool {
        T::obeys_sub_spec()
    }

    open spec fn sub_req(self, other: Vec2<T>) -> bool {
        self.x.sub_req(other.x) && self.y.sub_req(other.y)
    }

    open spec fn sub_spec(self, other: Vec2<T>) -> Vec2<T> {
        Vec2 { x: self.x.sub_spec(other.x), y: self.y.sub_spec(other.y) }
    }
}

impl<T: NumDefault> core::ops::Add for Vec2<T> {
    type Output = Vec2<T>;

    fn add(self, other: Vec2<T>) -> (v: Vec2<T>) {
        Vec2 { x: self.x + other.x, y: self.y + other.y }
    }
}

impl<T: NumDefault> AddSpecImpl for Vec2<T> {
    open spec fn obeys_add_spec() -> bool {
        T::obeys_add_spec()
    }

    open spec fn add_req(self, other: Vec2<T>) -> bool {
        self.x.add_req(other.x) && self.y.add_req(other.y)
    }

    open spec fn add_spec(self, other: Vec2<T>) -> Vec2<T> {
        Vec2 { x: self.x.add_spec(other.x), y: self.y.add_spec(other.y) }
    }
}

impl<T: NumDefault> core::ops::Mul for Vec2<T> {
    type Output = Vec2<T>;

    fn mul(self, other: Vec2<T>) -> (v: Vec2<T>) {
        Vec2 { x: self.x * other.x, y: self.y * other.y }
    }
}

impl<T: NumDefault> MulSpecImpl for Vec2<T> {
    open spec fn obeys_mul_spec() -> bool {
        T::obeys_mul_spec()
    }

    open spec fn mul_req(self, other: Vec2<T>) -> bool {
        self.x.mul_req(other.x) && self.y.mul_req(other.y)
    }

    open spec fn mul_spec(self, other: Vec2<T>) -> Vec2<T> {
        Vec2 { x: self.x.mul_spec(other.x), y: self.y.mul_spec(other.y) }
    }
}

impl<T: NumDefault> core::ops::Div for Vec2<T> {
    type Output = Vec2<T>;

    fn div(self, other: Vec2<T>) -> (v: Vec2<T>) {
        Vec2 { x: self.x / other.x, y: self.y / other.y }
    }
}

impl<T: NumDefault> DivSpecImpl for Vec2<T> {
    open spec fn obeys_div_spec() -> bool {
        T::obeys_div_spec()
    }

    open spec fn div_req(self, other: Vec2<T>) -> bool {
        self.x.div_req(other.x) && self.y.div_req(other.y)
    }

    open spec fn div_spec(self, other: Vec2<T>) -> Vec2<T> {
        Vec2 { x: self.x.div_spec(other.x), y: self.y.div_spec(other.y) }
    }
}

pub type Vec2i = Vec2<i32>;

pub type Vec2ui = Vec2<u32>;

} // verus!
