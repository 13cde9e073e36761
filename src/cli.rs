use vstd::prelude::*;

verus! {

/// The command-line options that the library reads.
#[derive(Debug, Clone)]
pub struct Command {
    /// Path of the configuration file.
    pub config: String,
    /// Cache directory that overrides the configured one.
    pub cache: Option<String>,
    /// An authorisation token supplied by the operator.
    pub token: Option<String>,
    /// Disables caching for this run.
    pub no_cache: bool,
    /// Print the status instead of posting it.
    pub dry_run: bool,
}

} // verus!
