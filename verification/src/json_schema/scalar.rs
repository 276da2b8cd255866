//! The scalar kinds of JSON Schema and the assertions on them.

use vstd::prelude::*;

use crate::json_schema::schema::Schema;
use crate::json_schema::value::{JsonNumber, JsonValue};
use crate::text::text_eq;

verus! {

/// A JSON scalar kind that generated models hold.
#[derive(Debug, Clone, Copy, PartialEq, Eq, Structural)]
pub enum ScalarKind {
    String,
    Number,
    Integer,
    Boolean,
}

/// The scalar kind of a JSON Schema type name; other types have none.
pub open spec fn scalar_kind(name: Seq<char>) -> Option<ScalarKind> {
    if name == "string"@ {
        Some(ScalarKind::String)
    } else if name == "number"@ {
        Some(ScalarKind::Number)
    } else if name == "integer"@ {
        Some(ScalarKind::Integer)
    } else if name == "boolean"@ {
        Some(ScalarKind::Boolean)
    } else {
        None
    }
}

impl ScalarKind {
    /// The scalar kind of a JSON Schema type name; other types have none.
    pub fn from_name(name: &str) -> (kind: Option<ScalarKind>)
        ensures
            kind == scalar_kind(name@),
    {
        if text_eq(name, "string") {
            Some(ScalarKind::String)
        } else if text_eq(name, "number") {
            Some(ScalarKind::Number)
        } else if text_eq(name, "integer") {
            Some(ScalarKind::Integer)
        } else if text_eq(name, "boolean") {
            Some(ScalarKind::Boolean)
        } else {
            None
        }
    }
}

/// The scalar assertions on one schema node.
#[derive(Debug)]
pub struct ScalarMatcher<'a> {
    pub kind: Option<ScalarKind>,
    pub const_value: Option<&'a JsonValue>,
    pub enum_values: Option<&'a Vec<JsonValue>>,
    pub minimum: Option<&'a JsonNumber>,
    pub maximum: Option<&'a JsonNumber>,
    pub exclusive_minimum: Option<&'a JsonNumber>,
    pub exclusive_maximum: Option<&'a JsonNumber>,
    pub multiple_of: Option<&'a JsonNumber>,
    pub min_length: Option<u64>,
    pub max_length: Option<u64>,
    pub pattern: Option<&'a String>,
    pub format: Option<&'a String>,
}

/// A reference to what an option holds.
pub open spec fn borrowed<'a, T>(value: &'a Option<T>) -> Option<&'a T> {
    match value {
        Some(value) => Some(value),
        None => None,
    }
}

fn borrow<'a, T>(value: &'a Option<T>) -> (result: Option<&'a T>)
    ensures
        result == borrowed(value),
{
    match value {
        Some(value) => Some(value),
        None => None,
    }
}

/// The scalar kind that a type value names.
pub open spec fn kind_of(ty: Option<JsonValue>) -> Option<ScalarKind> {
    match ty {
        Some(JsonValue::Text(name)) => scalar_kind(name@),
        _ => None,
    }
}

/// The scalar assertions of a schema, without what it says of containers.
pub open spec fn matcher_of(schema: &Schema) -> ScalarMatcher {
    ScalarMatcher {
        kind: kind_of(schema.ty),
        const_value: borrowed(&schema.const_value),
        enum_values: borrowed(&schema.enum_values),
        minimum: borrowed(&schema.minimum),
        maximum: borrowed(&schema.maximum),
        exclusive_minimum: borrowed(&schema.exclusive_minimum),
        exclusive_maximum: borrowed(&schema.exclusive_maximum),
        multiple_of: borrowed(&schema.multiple_of),
        min_length: schema.min_length,
        max_length: schema.max_length,
        pattern: borrowed(&schema.pattern),
        format: borrowed(&schema.format),
    }
}

/// The scalar assertions of a schema, without what it says of containers.
pub fn scalar_matcher(schema: &Schema) -> (matcher: ScalarMatcher)
    ensures
        matcher == matcher_of(schema),
{
    ScalarMatcher {
        kind: match &schema.ty {
            Some(JsonValue::Text(name)) => ScalarKind::from_name(name.as_str()),
            _ => None,
        },
        const_value: borrow(&schema.const_value),
        enum_values: borrow(&schema.enum_values),
        minimum: borrow(&schema.minimum),
        maximum: borrow(&schema.maximum),
        exclusive_minimum: borrow(&schema.exclusive_minimum),
        exclusive_maximum: borrow(&schema.exclusive_maximum),
        multiple_of: borrow(&schema.multiple_of),
        min_length: schema.min_length,
        max_length: schema.max_length,
        pattern: borrow(&schema.pattern),
        format: borrow(&schema.format),
    }
}

} // verus!
