//! Command-line surface: one positional argument, the path of the JSON
//! configuration file.

use vstd::prelude::*;

use crate::error::Error;
use crate::sys;

verus! {

/// The parsed command line.
#[derive(Debug, Clone)]
pub struct Cli {
    pub config_json_path: String,
}

impl Cli {
    /// Reads the command line; fails with an `IOError` when the single
    /// required argument is missing.
    pub fn new() -> (r: Result<Cli, Error>)
        ensures
            r matches Err(e) ==> e matches Error::IOError(_),
    {
        match sys::parse_config_path_argument() {
            Some(path) => Ok(Cli { config_json_path: path }),
            None => Err(
                Error::IOError("usage: one argument, the configuration file's path".to_owned()),
            ),
        }
    }
}

} // verus!
