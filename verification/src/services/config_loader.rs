//! Where the configuration file lives.

use std::path::{Path, PathBuf};
use vstd::prelude::*;

verus! {

/// `std::path::Path`. Opaque.
#[verifier::external_type_specification]
#[verifier::external_body]
pub struct ExPath(Path);

/// `std::path::PathBuf`. Opaque.
#[verifier::external_type_specification]
#[verifier::external_body]
pub struct ExPathBuf(PathBuf);

/// Calls `Path::join`: the path of `file` inside `dir`. A path is opaque
/// here, so nothing is claimed of the result.
#[verifier::external_body]
fn join_path(dir: &Path, file: &str) -> PathBuf {
    dir.join(file)
}

/// The name of the configuration file inside the application's data directory.
pub fn config_file_name() -> (name: &'static str)
    ensures
        name@ == "mcp_config.json"@,
{
    "mcp_config.json"
}

/// The path of the configuration file inside `app_data_dir`.
pub fn default_config_path(app_data_dir: &Path) -> PathBuf {
    join_path(app_data_dir, config_file_name())
}

} // verus!
