//! Verified core of a client-code generator.

pub mod characters;
pub mod error;
pub mod files;
pub mod generation;
pub mod json_schema;
pub mod json_text;
pub mod language;
pub mod naming;
pub mod outcomes;
pub mod output;
pub mod paths;
pub mod plan;
pub mod proto;
pub mod text;
pub mod unique;
pub mod wit;
