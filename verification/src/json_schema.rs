//! JSON Schema nodes and the TypeScript code that is generated for them.

pub mod annotation;
pub mod backend;
pub mod checks;
pub mod constraints;
pub mod exchanges;
pub mod fields;
pub mod intake;
pub mod members;
pub mod model;
pub mod modules;
pub mod nested;
pub mod number;
pub mod object;
pub mod outgo;
pub mod parse;
pub mod runtime;
pub mod scalar;
pub mod schema;
pub mod sides;
pub mod ts_text;
pub mod union;
pub mod value;
