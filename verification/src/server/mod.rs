pub mod alert;
pub mod config;
pub mod watch;

use vstd::prelude::*;

verus! {

/// The `server` subcommand: start watching with the given configuration file.
#[derive(Debug, Clone)]
pub struct Command {
    /// Path of the configuration file (a regular file, see `is_config_exist`).
    pub config_file: String,
}

} // verus!
