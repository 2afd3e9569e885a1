//! Types and encoding helpers for mesh visualization output.
//!
//! The file writer itself performs I/O and lives outside the verified
//! library; only the cell-type vocabulary and the binary-payload encoding,
//! which are pure data transformations, are defined here.

pub mod encoding;
pub mod vtk_types;
