//! Per-project and global settings for a developer command-line tool: the
//! settings record, how a new partial record merges over the stored one, the
//! compact JSON form it is stored in, where it is stored, and which
//! identities the global directory holds credential files for.
use vstd::prelude::*;

pub mod auth;
pub mod codec;
pub mod config;

verus! {

/// The top-level commands of the tool.
pub enum Commands {
    /// Read or update the settings of a scope.
    Config(config::Commands),
}

} // verus!
