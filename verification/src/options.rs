//! The per-invocation options a session runs under, as the command line
//! hands them over.

use vstd::prelude::*;

verus! {

/// What one invocation operates on: the working directory, the names of the
/// configuration and result files inside it, the verbosity level, and
/// whether generated scripts are persisted.
#[derive(Clone, Debug)]
pub struct StartupOptions {
    pub filepath: String,
    pub config_file: String,
    pub result_file: String,
    pub verbosity: u8,
    pub persist: bool,
}

} // verus!
