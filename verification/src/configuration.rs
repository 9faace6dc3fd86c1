//! Configuration loading, validation, and management snapshot state.
//!
//! Text is parsed into raw values at the edge; everything from raw values to a
//! validated configuration, its snapshot and its diagnostics is stated here.

pub mod address;
pub mod file;
pub mod raw;
pub mod validation;
pub mod parse_error;
