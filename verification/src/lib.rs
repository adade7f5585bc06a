//! A query catalog for a database monitoring agent: an immutable mapping
//! from a closed set of logical check identifiers to concrete query text.
//!
//! Static templates live in [`bank`]; derived entries are composed from them
//! by the pure rules in [`compose`]; [`catalog`] builds the registry and
//! answers lookups. Every lookup is pinned to a spec-level model of the
//! text, so repeated lookups are byte-identical by contract.

pub mod bank;
pub mod catalog;
pub mod compose;
pub mod ids;

pub use bank::UTC_DATE_FIELD;
pub use catalog::get_query;
pub use catalog::get_win_registry_instances_query;
pub use catalog::get_wow64_32_registry_instances_query;
pub use catalog::Catalog;
pub use catalog::QueryError;
pub use catalog::RegistryHive;
pub use ids::Id;
