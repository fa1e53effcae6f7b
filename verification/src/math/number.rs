//! Capability traits for scalar numeric types.
//!
//! Every operation a scalar must offer to take part in the coordinate
//! transforms is stated as its own small trait, so an algorithm can ask
//! for exactly the capabilities it needs.  Each executable operation is
//! paired with an uninterpreted specification counterpart (`sin` with
//! `sin_spec`, and so on): an implementor decides what the operation
//! returns, and the contract of every caller is stated over those
//! counterparts, so a caller's result is pinned symbolically however the
//! scalar is represented.

use vstd::prelude::*;
use core::ops::{Add, Sub, Mul, Div};
use vstd::std_specs::ops::{AddSpec, SubSpec, MulSpec, DivSpec};

verus! {

/// Sine of a scalar, argument in radians.
pub trait Sin {
    type Output;

    /// The value `sin` returns.
    spec fn sin_spec(self) -> Self::Output where Self: Sized;

    fn sin(self) -> (r: Self::Output) where Self: Sized
        ensures
            r == self.sin_spec(),
    ;
}

/// Inverse sine of a scalar.
pub trait Asin {
    type Output;

    /// The value `asin` returns.
    spec fn asin_spec(self) -> Self::Output where Self: Sized;

    fn asin(self) -> (r: Self::Output) where Self: Sized
        ensures
            r == self.asin_spec(),
    ;
}

/// Cosine of a scalar, argument in radians.
pub trait Cos {
    type Output;

    /// The value `cos` returns.
    spec fn cos_spec(self) -> Self::Output where Self: Sized;

    fn cos(self) -> (r: Self::Output) where Self: Sized
        ensures
            r == self.cos_spec(),
    ;
}

/// Inverse cosine of a scalar.
pub trait Acos {
    type Output;

    /// The value `acos` returns.
    spec fn acos_spec(self) -> Self::Output where Self: Sized;

    fn acos(self) -> (r: Self::Output) where Self: Sized
        ensures
            r == self.acos_spec(),
    ;
}

/// Both trigonometric functions at once.
pub trait SinCos<T>: Sin<Output = T> + Cos<Output = T> {
}

/// Tangent and the inverse tangent of a ratio.
pub trait Tan {
    type Output;

    /// The value `tan` returns.
    spec fn tan_spec(self) -> Self::Output where Self: Sized;

    /// The value `atan2` returns.
    spec fn atan2_spec(self) -> Self::Output where Self: Sized;

    fn tan(self) -> (r: Self::Output) where Self: Sized
        ensures
            r == self.tan_spec(),
    ;

    fn atan2(self) -> (r: Self::Output) where Self: Sized
        ensures
            r == self.atan2_spec(),
    ;
}

/// Inverse tangent of a scalar.
pub trait Atan {
    type Output;

    /// The value `atan` returns.
    spec fn atan_spec(self) -> Self::Output where Self: Sized;

    fn atan(self) -> (r: Self::Output) where Self: Sized
        ensures
            r == self.atan_spec(),
    ;
}

/// Hyperbolic functions and their inverses.
pub trait Hyperbolic {
    type Output;

    /// The value `sinh` returns.
    spec fn sinh_spec(self) -> Self::Output where Self: Sized;

    /// The value `cosh` returns.
    spec fn cosh_spec(self) -> Self::Output where Self: Sized;

    /// The value `asinh` returns.
    spec fn asinh_spec(self) -> Self::Output where Self: Sized;

    /// The value `acosh` returns.
    spec fn acosh_spec(self) -> Self::Output where Self: Sized;

    /// The value `tanh` returns.
    spec fn tanh_spec(self) -> Self::Output where Self: Sized;

    /// The value `atanh` returns.
    spec fn atanh_spec(self) -> Self::Output where Self: Sized;

    fn sinh(self) -> (r: Self::Output) where Self: Sized
        ensures
            r == self.sinh_spec(),
    ;

    fn cosh(self) -> (r: Self::Output) where Self: Sized
        ensures
            r == self.cosh_spec(),
    ;

    fn asinh(self) -> (r: Self::Output) where Self: Sized
        ensures
            r == self.asinh_spec(),
    ;

    fn acosh(self) -> (r: Self::Output) where Self: Sized
        ensures
            r == self.acosh_spec(),
    ;

    fn tanh(self) -> (r: Self::Output) where Self: Sized
        ensures
            r == self.tanh_spec(),
    ;

    fn atanh(self) -> (r: Self::Output) where Self: Sized
        ensures
            r == self.atanh_spec(),
    ;
}

/// Square root of a scalar.
pub trait Sqrt {
    type Output;

    /// The value `sqrt` returns.
    spec fn sqrt_spec(self) -> Self::Output where Self: Sized;

    fn sqrt(self) -> (r: Self::Output) where Self: Sized
        ensures
            r == self.sqrt_spec(),
    ;
}

/// Additive closure: `+` and `-` stay within the scalar type, which is
/// passed by value.
///
/// An implementor must show that its `+` and `-` obey their vstd operator
/// specifications and accept every pair of operands, so generic callers
/// may apply the operators freely and state their results over `add_spec`
/// and `sub_spec`.
pub trait AddSub<T>: Add<Output = T> + Sub<Output = T> + Copy {
    proof fn add_sub_obeys()
        ensures
            Self::obeys_add_spec(),
            Self::obeys_sub_spec(),
            forall|a: Self, b: Self| #[trigger] a.add_req(b),
            forall|a: Self, b: Self| #[trigger] a.sub_req(b),
    ;
}

/// Multiplicative closure: `*` and `/` stay within the scalar type.
///
/// An implementor must show that its `*` and `/` obey their vstd operator
/// specifications and accept every pair of operands.
pub trait MulDiv<T>: Mul<Output = T> + Div<Output = T> + Copy {
    proof fn mul_div_obeys()
        ensures
            Self::obeys_mul_spec(),
            Self::obeys_div_spec(),
            forall|a: Self, b: Self| #[trigger] a.mul_req(b),
            forall|a: Self, b: Self| #[trigger] a.div_req(b),
    ;
}

/// The four basic operators together.
pub trait Arithmetic<T>: AddSub<T> + MulDiv<T> {
}

/// The additive identity of a scalar type.
pub trait Zero<T> {
    /// The value `zero` returns.
    spec fn zero_spec() -> T;

    fn zero() -> (r: T)
        ensures
            r == Self::zero_spec(),
    ;
}

/// The multiplicative identity of a scalar type.
pub trait One<T> {
    /// The value `one` returns.
    spec fn one_spec() -> T;

    fn one() -> (r: T)
        ensures
            r == Self::one_spec(),
    ;
}

/// The circle constant of a scalar type.
pub trait Pi<T> {
    /// The value `pi` returns.
    spec fn pi_spec() -> T;

    fn pi() -> (r: T)
        ensures
            r == Self::pi_spec(),
    ;
}

/// A scalar with the four basic operators and copy-by-value semantics.
pub trait Number<T>: AddSub<T> + MulDiv<T> + Copy {
}

/// Conversion from a machine integer, the portable source of the named
/// scalar constants a registry entry is built from.
pub trait FromU64 {
    /// The value `from_u64` returns.
    spec fn from_u64_spec(v: u64) -> Self where Self: Sized;

    fn from_u64(v: u64) -> (r: Self) where Self: Sized
        ensures
            r == Self::from_u64_spec(v),
    ;
}

impl Zero<i8> for i8 {
    open spec fn zero_spec() -> i8 {
        0
    }

    fn zero() -> i8 {
        0
    }
}

impl One<i8> for i8 {
    open spec fn one_spec() -> i8 {
        1
    }

    fn one() -> i8 {
        1
    }
}

impl Zero<i16> for i16 {
    open spec fn zero_spec() -> i16 {
        0
    }

    fn zero() -> i16 {
        0
    }
}

impl One<i16> for i16 {
    open spec fn one_spec() -> i16 {
        1
    }

    fn one() -> i16 {
        1
    }
}

impl Zero<i32> for i32 {
    open spec fn zero_spec() -> i32 {
        0
    }

    fn zero() -> i32 {
        0
    }
}

impl One<i32> for i32 {
    open spec fn one_spec() -> i32 {
        1
    }

    fn one() -> i32 {
        1
    }
}

impl Zero<i64> for i64 {
    open spec fn zero_spec() -> i64 {
        0
    }

    fn zero() -> i64 {
        0
    }
}

impl One<i64> for i64 {
    open spec fn one_spec() -> i64 {
        1
    }

    fn one() -> i64 {
        1
    }
}

impl Zero<u8> for u8 {
    open spec fn zero_spec() -> u8 {
        0
    }

    fn zero() -> u8 {
        0
    }
}

impl One<u8> for u8 {
    open spec fn one_spec() -> u8 {
        1
    }

    fn one() -> u8 {
        1
    }
}

impl Zero<u16> for u16 {
    open spec fn zero_spec() -> u16 {
        0
    }

    fn zero() -> u16 {
        0
    }
}

impl One<u16> for u16 {
    open spec fn one_spec() -> u16 {
        1
    }

    fn one() -> u16 {
        1
    }
}

impl Zero<u32> for u32 {
    open spec fn zero_spec() -> u32 {
        0
    }

    fn zero() -> u32 {
        0
    }
}

impl One<u32> for u32 {
    open spec fn one_spec() -> u32 {
        1
    }

    fn one() -> u32 {
        1
    }
}

impl Zero<u64> for u64 {
    open spec fn zero_spec() -> u64 {
        0
    }

    fn zero() -> u64 {
        0
    }
}

impl One<u64> for u64 {
    open spec fn one_spec() -> u64 {
        1
    }

    fn one() -> u64 {
        1
    }
}

} // verus!
