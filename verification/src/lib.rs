//! Verified core of a personal reminder manager.
//!
//! Reminders are short text notes tagged with a priority name and an author.
//! They live in one global configuration file plus any number of
//! directory-scoped ("local") configuration files registered in the global
//! one. This crate holds the logic worth proving: the data model, the path
//! resolver that decides which local configuration is in scope for a working
//! directory, the aggregator that merges files into one provenance-tagged
//! result, the mutation operations, and the decision logic of the
//! idempotent global-config bootstrap. File I/O, TOML (de)serialization and
//! the terminal front end live outside this crate and hand it plain values.

use vstd::prelude::*;

pub mod aggregate;
pub mod config;
pub mod model;
pub mod paths;
pub mod store;

verus! {

/// Name of every configuration file, global or local.
pub open spec fn spec_config_file_name() -> Seq<char> {
    "rmnd.toml"@
}

/// Name of every configuration file, global or local.
pub fn config_file_name() -> (r: &'static str)
    ensures
        r@ == spec_config_file_name(),
{
    "rmnd.toml"
}

} // verus!
