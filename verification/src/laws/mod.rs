//! Laws of the rotation and the rigid-motion group, proved of every scalar
//! whose arithmetic is exact (see [`crate::exact`]).
//!
//! Each law takes a valuation `v`, which sends a scalar to the real number
//! it stands for, and assumes no more of the scalar than that `v` is exact.
//! What a law says of a vector or a matrix, it says of the real vector or
//! matrix that `v` makes of it.

pub mod rigid;
pub mod rotation;

pub use rigid::{
    lemma_adjoint_act, lemma_blocks_are_rigid, lemma_exp_is_rigid, lemma_identity_motion_act,
    lemma_log_trans_exp_trans, lemma_product_is_rigid, lemma_rigid_act,
    lemma_rigid_exp_times_inverse, lemma_rigid_exp_zero, lemma_rigid_inverse, lemma_rigid_log_exp,
    lemma_rigid_product, lemma_rigid_product_act, lemma_rigid_product_associative,
};
pub use rotation::{
    lemma_axis_unit, lemma_euler_composition, lemma_euler_is_rotation, lemma_exp_is_rotation,
    lemma_exp_times_inverse, lemma_exp_zero, lemma_identity_rotation_act, lemma_inverse_is_rotation,
    lemma_length_image, lemma_log_exp, lemma_product_is_rotation, lemma_rotation_inverse,
    lemma_rotation_product_act, lemma_rotation_product_associative, lemma_zero_is_approx_zero,
};
