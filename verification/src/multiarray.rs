//! Multi-dimensional array type system.
//!
//! Provides `MultiArray<T, S, B>`: a single generic struct that all
//! mathematical array types (vectors, matrices) are aliases of, tagged by a
//! shape and carrying a backend storage value.

pub mod aliases;
pub mod backend;
pub mod linalg;
pub mod operators;
pub mod types;
