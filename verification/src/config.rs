//! The tool's configuration: the registry base URL.
//!
//! Reading a configuration file from disk and decoding it are the shell's
//! business; the type itself and its default value live here.

use vstd::prelude::*;
use vstd::string::StringExecFns;

verus! {

/// The configuration of one invocation.
#[derive(Debug, Clone, PartialEq, Eq)]
pub struct Config {
    pub registry_url: String,
}

impl Default for Config {
    /// The default registry: a local one on the conventional port.
    fn default() -> (r: Self)
        ensures
            r.registry_url@ == "https://localhost:5000"@,
    {
        Config { registry_url: String::from_str("https://localhost:5000") }
    }
}

} // verus!
