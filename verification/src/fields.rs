//! Field containers for simulation quantities.
//!
//! Two storage strategies are provided: [`storage::Field`], a growable
//! contiguous container with a flat scalar addressing layer for solver
//! interop, and [`layout::Field`], a chunked array-of-structures-of-arrays
//! container for cache-efficient iteration.

pub mod aliases;
pub mod layout;
pub mod ops;
pub mod storage;
pub mod traits;
pub mod types;
