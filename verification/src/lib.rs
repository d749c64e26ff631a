//! Declarative management of application settings.
//!
//! One schema describes every configuration field of an application: its
//! type, its default value, and which sources (configuration files, the
//! command line) may set it.  From that single description the library
//! derives three synchronized views — the main value, a file overlay and a
//! command-line overlay — and the merge logic that combines them under a
//! fixed precedence: built-in default, then each configuration file in
//! order, then the command line.
//!
//! Field values cover unsigned and signed integers, booleans and text;
//! nested subcommand values are left to the embedding application as a
//! configuration choice of its own.

pub mod cli;
pub mod compile;
pub mod directives;
pub mod merge;
pub mod model;
pub mod parse;
pub mod pipeline;
pub mod project;
pub mod schema;
pub mod yaml;

pub use compile::cli_settings;
