//! Library of a runner for decision-model compatibility test suites.
//!
//! The core of the library is the test-case value model: a recursive,
//! three-shaped representation of input, expected and computed values
//! (`model`), the parser that builds a test-suite tree from a hierarchical
//! markup fixture (`parser`, over the document model of `xml`), the wire
//! encoding exchanged with an evaluation collaborator (`dto`), and the
//! verdict engine that compares a computed value against an expected one
//! (`verdict`).

pub mod config;
pub mod dto;
pub mod errors;
pub mod model;
pub mod params;
pub mod parser;
pub mod results;
pub mod verdict;
pub mod utils;
pub mod xml;

use vstd::prelude::*;

verus! {

/// Returns the portion of `name` before the last `/`, or the empty string
/// when `name` holds no `/`.
pub fn dir_name(name: &str) -> (r: String)
    ensures
        r@ == crate::utils::spec_dir_name(name@),
{
    crate::utils::dir_name(name)
}

/// Returns the portion of `name` after the last `/`, or `name` itself
/// when `name` holds no `/`.
pub fn file_name(name: &str) -> (r: String)
    ensures
        r@ == crate::utils::spec_file_name(name@),
{
    crate::utils::file_name(name)
}

} // verus!
