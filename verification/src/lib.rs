//! Numeric array and simulation-data library.
//!
//! Provides shape-tagged multi-dimensional array values (vectors, matrices),
//! growable contiguous field containers for per-entity simulation quantities,
//! and a flat scalar addressing layer for handing field contents to external
//! numerical solvers.

pub mod common;
pub mod fields;
pub mod multiarray;
pub mod visualiser;
