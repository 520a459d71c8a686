//! Discovery of a Python interpreter that satisfies a version request.
//!
//! The crate turns a request string into a structured selector, generates the
//! ordered candidate executable names for it, walks the search path in a
//! deterministic order, filters out decoy executables, and validates
//! candidates against the requested version.  Inspecting a candidate
//! executable (the query step) and running the Windows launcher are outside
//! work: the search is exposed as a step machine that asks its caller to
//! perform them and hands the answers back.

pub mod chars;
pub mod version;
pub mod names;
pub mod paths;
pub mod launcher;
pub mod interpreter;
pub mod finder;
pub mod laws;
