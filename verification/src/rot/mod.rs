//! Rotations in three-dimensional space.

mod adjoint;
mod algebra;
mod group;
mod vector;

pub use adjoint::AdjSO3;
pub use algebra::{exp_spec, so3};
pub use group::{cos_angle_spec, euler_spec, log_half_turn_spec, log_spec, SO3};
pub use vector::Vec3;
