//! Type aliases for common chunked field configurations.

use vstd::prelude::*;
use super::layout::Field;
use super::types::Scalar;
use super::types::SymmTensor;
use super::types::Tensor;
use super::types::Vector;
use crate::common::Num;

verus! {

/// Scalar field: density, pressure, temperature.
pub type ScalarField = Field<Scalar, Num, 1>;

/// 2D vector field: position, velocity.
pub type Vector2Field = Field<Vector, Num, 2>;

/// 3D vector field: position, velocity, force.
pub type Vector3Field = Field<Vector, Num, 3>;

/// 4D vector field: homogeneous coordinates, quaternions.
pub type Vector4Field = Field<Vector, Num, 4>;

/// 2x2 tensor field: 2D deformation gradient.
pub type Tensor2Field = Field<Tensor, Num, 4>;

/// 3x3 tensor field: deformation gradient, rotation.
pub type Tensor3Field = Field<Tensor, Num, 9>;

/// 4x4 tensor field: homogeneous transformations.
pub type Tensor4Field = Field<Tensor, Num, 16>;

/// 2x2 symmetric tensor field: (xx, xy, yy). Stress, strain.
pub type SymmTensor2Field = Field<SymmTensor, Num, 3>;

/// 3x3 symmetric tensor field: (xx, xy, xz, yy, yz, zz). Stress, strain.
pub type SymmTensor3Field = Field<SymmTensor, Num, 6>;

/// 4x4 symmetric tensor field: (xx, xy, xz, xw, yy, yz, yw, zz, zw, ww).
pub type SymmTensor4Field = Field<SymmTensor, Num, 10>;

} // verus!
