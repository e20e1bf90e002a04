//! Runner configuration parameters.

use vstd::prelude::*;

verus! {

/// Configuration of one runner process. Reading and deserializing the
/// configuration file is the caller's concern; the library only holds
/// the plain values.
#[derive(Debug)]
pub struct ConfigurationParams {
    /// Path to the directory holding the test-case fixtures.
    pub test_cases_dir_path: String,
    /// Pattern for matching fixture file names; only files whose name
    /// matches are processed.
    pub file_name_pattern: String,
    /// URL of the service where model definitions are deployed.
    pub deploy_url: String,
    /// URL of the service where decision artifacts are evaluated.
    pub evaluate_url: String,
    /// Path of the report file to write.
    pub report_file_path: String,
    /// Whether testing stops at the first failed test.
    pub stop_on_failure: bool,
}

} // verus!
