//! Process settings.

use vstd::prelude::*;

verus! {

/// Where the gateway listens, where its credential file is, and how much it
/// logs.
#[derive(Debug, Clone)]
pub struct Config {
    /// Address to listen on.
    pub host: String,
    /// Path of the credential file.
    pub config: String,
    /// Port to listen on.
    pub port: u16,
    /// Whether to log verbosely.
    pub verbose: bool,
}

} // verus!
