//! Protection and regeneration of machine-generated files in a git repository.
//!
//! The library holds the decisions: which paths count as changed, whether a
//! protected pattern was touched, which generator commands run and in what
//! order, which steps a subcommand performs, and the text of the git hook.
//! Reading the repository, expanding patterns on disk and spawning processes
//! is left to the caller, which hands the results over as plain values.
pub mod config;
pub mod check;
pub mod generate;
pub mod hook;
pub mod command;
