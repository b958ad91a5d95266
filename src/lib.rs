//! Generator for a typed command-line client of a GraphQL API.
//!
//! The library maps the variable types of GraphQL operations to target
//! types, extracts operations and custom scalars from a definition list,
//! and renders the source text of the argument schema and of the dispatch
//! table of the generated program. It also holds the decisions of that
//! program: which request a parsed command line asks for, and how repeated
//! `key:value` arguments become one JSON object.

pub mod model;
pub mod mapping;
pub mod error;
pub mod extract;
pub mod emit;
pub mod reshape;
pub mod generate;
pub mod laws;
pub mod client;
