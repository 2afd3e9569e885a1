//! Crate-wide foundational types.
//!
//! The numeric scalar threaded through the core is configured here once, as a
//! single type alias, so that switching the scalar is a recompilation and
//! never a runtime branch.

use vstd::prelude::*;

verus! {

/// The configured numeric scalar type used by the concrete array and field
/// instantiations of this crate.
pub type Num = i64;

/// The default signed integer type.
pub type IntScalar = i64;

/// The default unsigned integer type.
pub type UIntScalar = u64;

/// Failure taxonomy of the core.
///
/// Every variant reflects a violated precondition that the caller controls;
/// none is a transient condition, so no operation retries.
#[derive(Clone, Copy, Debug, PartialEq, Eq, Structural)]
pub enum CoreError {
    /// An element or field index was at least the length.
    IndexOutOfBounds,
    /// A runtime-checked shape incompatibility between two operands.
    DimensionMismatch,
    /// Unequal lengths in a field-to-field compound assignment.
    LengthMismatch,
    /// A flat-slice constructor was supplied fewer scalars than required.
    InsufficientData,
}

} // verus!
