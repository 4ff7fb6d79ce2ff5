//! Rigid motions of three-dimensional space: a rotation and a translation.

mod adjoint;
mod algebra;
mod group;
mod vector;

pub use adjoint::AdjSE3;
pub use algebra::{exp_spec, exp_trans_spec, se3};
pub use group::{adjoint_spec, inv_spec, log_spec, log_trans_spec, SE3};
pub use vector::Vec6;
