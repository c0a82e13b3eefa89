//! Parsers and generators for two small declarative notations: one that
//! describes the node kinds of a syntax tree, and one that describes a
//! tree-walking model with one clause per node kind.
//!
//! Input arrives as a flattened token sequence ([`token::Tok`]). The parsers
//! in [`parser`] turn it into schema values, and the generators in [`codegen`]
//! lower those into the definitions to emit.

pub mod codegen;
pub mod error;
pub mod parser;
pub mod token;
