//! Lie groups and Lie algebras of rotations and rigid motions in three
//! dimensions.
//!
//! | group | algebra | vector |
//! |-------|---------|--------|
//! | `SO3` | `so3`   | `Vec3` |
//! | `SE3` | `se3`   | `Vec6` |
//!
//! A vector becomes an algebra element by `hat`, an algebra element a group
//! element by `exp`; `log` and `vee` lead back. A group element has an
//! adjoint, which acts on algebra elements.
//!
//! ```text
//! Vec3 ---> so3 ---> SO3 -------> AdjSO3
//!      hat      exp      adjoint
//!
//! Vec3 <--- so3 <--- SO3
//!       vee      log
//! ```
//!
//! ```text
//! Vec6 ---> se3 ---> SE3 -------> AdjSE3
//!      hat      exp      adjoint
//!
//! Vec6 <--- se3 <--- SE3
//!       vee      log
//! ```
//!
//! All of it is generic over a scalar that implements [`Real`]. Every
//! function states which expression over the scalar's operations its result
//! is. The laws of the two groups (`exp` yields a rotation, `log` undoes
//! `exp`, an element times its inverse is the identity, the adjoint moves a
//! twist block by block) are proved in [`laws`] for scalars whose arithmetic
//! is exact; see [`exact`].

pub mod determinant;
pub mod exact;
pub mod laws;
pub mod linalg;
pub mod matrices;
pub mod point;
pub mod rigid;
pub mod ring;
pub mod rodrigues;
pub mod rot;
pub mod scalar;
pub mod screw;
pub mod utils;

pub use point::Point;
pub use rigid::{se3, AdjSE3, SE3, Vec6};
pub use rot::{so3, AdjSO3, SO3, Vec3};
pub use scalar::Real;
pub use utils::{approx_zero, approx_zero_vec, axis_angle, hat, length};

use vstd::prelude::*;

verus! {

/// The vector that parameterises a Lie algebra element.
pub trait Vector {
    /// The algebra that the vector parameterises.
    type Algebra;

    /// Reads the vector as an algebra element.
    fn hat(&self) -> Self::Algebra;
}

/// An element of a Lie algebra.
pub trait Algebra {
    /// The group of the algebra.
    type Group;

    /// The vector that parameterises the algebra.
    type Vector;

    /// The exponential map, from the algebra to the group.
    fn exp(&self) -> Self::Group;

    /// Reads the algebra element as a vector.
    fn vee(&self) -> Self::Vector;
}

/// The adjoint of a group element: a linear map on the algebra.
pub trait Adjoint {
    /// The algebra on which the adjoint acts.
    type Algebra;

    /// Applies the adjoint to an algebra element.
    fn act(&self, other: &Self::Algebra) -> Self::Algebra;
}

/// An element of a matrix Lie group.
pub trait Group: Sized {
    /// The algebra of the group.
    type Algebra;

    /// The adjoint of a group element.
    type Adjoint;

    /// What the group acts on.
    type Point;

    /// The logarithm map, from the group to the algebra.
    fn log(&self) -> Self::Algebra;

    /// The adjoint of the element.
    fn adjoint(&self) -> Self::Adjoint;

    /// The inverse element.
    fn inv(&self) -> Self;

    /// The product `self · other`.
    fn mat_mul(&self, other: &Self) -> Self;

    /// Moves a point by the element.
    fn act(&self, other: &Self::Point) -> Self::Point;
}

} // verus!
