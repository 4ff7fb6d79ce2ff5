//! The scalar that every formula of the library computes with.

use vstd::prelude::*;

verus! {

/// A real scalar: arithmetic, square root, trigonometry, comparison and a
/// tolerance.
///
/// Each operation comes twice. The `*_spec` function names the value that
/// the operation yields, and the executable method promises to return
/// exactly that value. The library's contracts are stated over the `*_spec`
/// functions, so they say which expression over the scalar's own operations
/// a result is. Nothing here claims that the operations obey the laws of the
/// real numbers; where the library proves a law that needs them, the law
/// names that assumption (see [`crate::exact::exact`]).
///
/// Every operation is total: division by zero, the square root of a negative
/// number and the like must return some value rather than fail.
///
/// An implementation that is not itself verified gives each `*_spec`
/// function the body of the method it names.
pub trait Real: Sized + Copy {
    /// The additive identity.
    spec fn zero_spec() -> Self;

    /// The multiplicative identity.
    spec fn one_spec() -> Self;

    /// The tolerance below which a magnitude counts as zero.
    spec fn epsilon_spec() -> Self;

    /// The circle constant.
    spec fn pi_spec() -> Self;

    /// `self + rhs`.
    spec fn add_spec(self, rhs: Self) -> Self;

    /// `self - rhs`.
    spec fn sub_spec(self, rhs: Self) -> Self;

    /// `self * rhs`.
    spec fn mul_spec(self, rhs: Self) -> Self;

    /// `self / rhs`.
    spec fn div_spec(self, rhs: Self) -> Self;

    /// `-self`.
    spec fn neg_spec(self) -> Self;

    /// The square root of `self`.
    spec fn sqrt_spec(self) -> Self;

    /// The sine of `self`, an angle in radians.
    spec fn sin_spec(self) -> Self;

    /// The cosine of `self`, an angle in radians.
    spec fn cos_spec(self) -> Self;

    /// The angle in radians whose cosine is `self`.
    spec fn acos_spec(self) -> Self;

    /// The tangent of `self`, an angle in radians.
    spec fn tan_spec(self) -> Self;

    /// `self < rhs`.
    spec fn lt_spec(self, rhs: Self) -> bool;

    /// `self <= rhs`.
    spec fn le_spec(self, rhs: Self) -> bool;

    fn zero() -> (r: Self)
        ensures
            r == Self::zero_spec(),
    ;

    fn one() -> (r: Self)
        ensures
            r == Self::one_spec(),
    ;

    fn epsilon() -> (r: Self)
        ensures
            r == Self::epsilon_spec(),
    ;

    fn pi() -> (r: Self)
        ensures
            r == Self::pi_spec(),
    ;

    fn add(self, rhs: Self) -> (r: Self)
        ensures
            r == self.add_spec(rhs),
    ;

    fn sub(self, rhs: Self) -> (r: Self)
        ensures
            r == self.sub_spec(rhs),
    ;

    fn mul(self, rhs: Self) -> (r: Self)
        ensures
            r == self.mul_spec(rhs),
    ;

    fn div(self, rhs: Self) -> (r: Self)
        ensures
            r == self.div_spec(rhs),
    ;

    fn neg(self) -> (r: Self)
        ensures
            r == self.neg_spec(),
    ;

    fn sqrt(self) -> (r: Self)
        ensures
            r == self.sqrt_spec(),
    ;

    fn sin(self) -> (r: Self)
        ensures
            r == self.sin_spec(),
    ;

    fn cos(self) -> (r: Self)
        ensures
            r == self.cos_spec(),
    ;

    fn acos(self) -> (r: Self)
        ensures
            r == self.acos_spec(),
    ;

    fn tan(self) -> (r: Self)
        ensures
            r == self.tan_spec(),
    ;

    fn lt(self, rhs: Self) -> (r: bool)
        ensures
            r == self.lt_spec(rhs),
    ;

    fn le(self, rhs: Self) -> (r: bool)
        ensures
            r == self.le_spec(rhs),
    ;
}

/// `1 + 1` in the scalar's own arithmetic.
pub open spec fn two_spec<T: Real>() -> T {
    T::one_spec().add_spec(T::one_spec())
}

/// Computes `1 + 1`.
pub fn two<T: Real>() -> (r: T)
    ensures
        r == two_spec::<T>(),
{
    T::one().add(T::one())
}

} // verus!
