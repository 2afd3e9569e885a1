//! Zero-sized type markers for field types.

use vstd::prelude::*;

verus! {

/// Scalar (one component): density, pressure, temperature.
pub struct Scalar;

/// Vector (rank 1): position, velocity, force.
pub struct Vector;

/// Tensor (rank above 1): deformation gradient, rotation matrices.
pub struct Tensor;

/// Symmetric tensor (rank above 1): stress, strain.
///
/// Stores the unique components in row-major upper triangle order, for
/// example (xx, xy, xz, yy, yz, zz) for the three-dimensional case.
pub struct SymmTensor;

} // verus!
