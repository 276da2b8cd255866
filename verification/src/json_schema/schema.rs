//! JSON Schema nodes as the TypeScript backend reads them.

use vstd::prelude::*;

use crate::json_schema::value::{
    any_is_text, find_member, get_member, opt_value_is_text, JsonMember, JsonNumber, JsonValue,
};
use crate::naming::to_lower_camel;
use crate::output::TsDateTimeTypes;
use crate::text::text_eq;

verus! {

/// A property of a schema.
#[derive(Debug)]
pub struct Property {
    pub name: String,
    pub schema: Schema,
}

/// The members that a member requires beside it.
#[derive(Debug, Clone)]
pub struct DependentRequired {
    pub name: String,
    pub required: Vec<String>,
}

/// What a schema says of members that it does not declare.
#[derive(Debug)]
pub enum AdditionalProperties {
    Allowed(bool),
    Matching(Box<Schema>),
    /// An object that cannot be read as a schema, with the reason.
    Invalid(String),
}

/// A schema node.
#[derive(Debug)]
pub struct Schema {
    pub reference: Option<String>,
    pub ty: Option<JsonValue>,
    pub title: Option<String>,
    pub description: Option<String>,
    pub deprecated: Option<bool>,
    pub properties: Option<Vec<Property>>,
    pub required: Option<Vec<String>>,
    pub additional_properties: Option<AdditionalProperties>,
    pub items: Option<Box<Schema>>,
    pub one_of: Option<Vec<Schema>>,
    pub default: Option<JsonValue>,
    pub const_value: Option<JsonValue>,
    pub max_properties: Option<u64>,
    pub min_properties: Option<u64>,
    pub property_names: Option<Box<Schema>>,
    pub dependent_required: Option<Vec<DependentRequired>>,
    pub minimum: Option<JsonNumber>,
    pub maximum: Option<JsonNumber>,
    pub exclusive_minimum: Option<JsonNumber>,
    pub exclusive_maximum: Option<JsonNumber>,
    pub multiple_of: Option<JsonNumber>,
    pub min_length: Option<u64>,
    pub max_length: Option<u64>,
    pub pattern: Option<String>,
    pub format: Option<String>,
    pub content_encoding: Option<String>,
    pub min_items: Option<u64>,
    pub max_items: Option<u64>,
    pub unique_items: Option<bool>,
    pub contains: Option<Box<Schema>>,
    pub min_contains: Option<u64>,
    pub max_contains: Option<u64>,
    pub enum_values: Option<Vec<JsonValue>>,
    pub x_ts_name: Option<String>,
}

/// A `format` whose values are points or spans of time.
#[derive(Debug, Clone, Copy, PartialEq, Eq, Structural)]
pub enum TemporalKind {
    DateTime,
    Date,
    Time,
    Duration,
}

/// A `contentEncoding` of bytes in a string.
#[derive(Debug, Clone, Copy, PartialEq, Eq, Structural)]
pub enum Encoding {
    Base64,
    Base64Url,
}

/// The temporal kind of a format, where it is temporal.
pub open spec fn temporal_kind_named(name: Seq<char>) -> Option<TemporalKind> {
    if (name == "date-time"@) {
        Some(TemporalKind::DateTime)
    } else if (name == "date"@) {
        Some(TemporalKind::Date)
    } else if (name == "time"@) {
        Some(TemporalKind::Time)
    } else if (name == "duration"@) {
        Some(TemporalKind::Duration)
    } else {
        None
    }
}

/// The temporal kind of a format, where it is temporal.
pub fn temporal_kind_from_name(name: &str) -> (result: Option<TemporalKind>)
    ensures
        result == temporal_kind_named(name@),
{
    if text_eq(name, "date-time") {
        Some(TemporalKind::DateTime)
    } else if text_eq(name, "date") {
        Some(TemporalKind::Date)
    } else if text_eq(name, "time") {
        Some(TemporalKind::Time)
    } else if text_eq(name, "duration") {
        Some(TemporalKind::Duration)
    } else {
        None
    }
}

/// The encoding of a name.
pub open spec fn encoding_named(name: Seq<char>) -> Option<Encoding> {
    if (name == "base64"@) {
        Some(Encoding::Base64)
    } else if (name == "base64url"@) {
        Some(Encoding::Base64Url)
    } else {
        None
    }
}

/// The encoding of a name.
pub fn encoding_from_name(name: &str) -> (result: Option<Encoding>)
    ensures
        result == encoding_named(name@),
{
    if text_eq(name, "base64") {
        Some(Encoding::Base64)
    } else if text_eq(name, "base64url") {
        Some(Encoding::Base64Url)
    } else {
        None
    }
}

/// Whether the type of the schema is exactly the one.
pub open spec fn has_type(schema: Schema, ty: Seq<char>) -> bool {
    crate::json_schema::value::opt_is_text(schema.ty, ty)
}

/// Whether the type of the schema is exactly the one.
pub fn type_is(schema: &Schema, ty: &str) -> (result: bool)
    ensures
        result == has_type(*schema, ty@),
{
    opt_value_is_text(&schema.ty, ty)
}

/// The encoding of a schema that is a string of bytes.
pub open spec fn content_encoding_of(schema: Schema) -> Option<Encoding> {
    if has_type(schema, "string"@) {
        match schema.content_encoding {
            Some(name) => encoding_named(name@),
            None => None,
        }
    } else {
        None
    }
}

/// The encoding of a schema that is a string of bytes.
pub fn content_encoding_direct(schema: &Schema) -> (result: Option<Encoding>)
    ensures
        result == content_encoding_of(*schema),
{
    if type_is(schema, "string") {
        match &schema.content_encoding {
            Some(name) => encoding_from_name(name.as_str()),
            None => None,
        }
    } else {
        None
    }
}

/// The temporal kind of a schema that is a temporal string.
pub open spec fn temporal_kind_of(schema: Schema) -> Option<TemporalKind> {
    if has_type(schema, "string"@) {
        match schema.format {
            Some(name) => temporal_kind_named(name@),
            None => None,
        }
    } else {
        None
    }
}

/// The temporal kind of a schema that is a temporal string.
pub fn temporal_kind_direct(schema: &Schema) -> (result: Option<TemporalKind>)
    ensures
        result == temporal_kind_of(*schema),
{
    if type_is(schema, "string") {
        match &schema.format {
            Some(name) => temporal_kind_from_name(name.as_str()),
            None => None,
        }
    } else {
        None
    }
}

/// Whether the kind has a type of its own in the representation, other than `string`.
pub open spec fn native_temporal(kind: TemporalKind, repr: TsDateTimeTypes) -> bool {
    match (kind, repr) {
        (TemporalKind::DateTime, TsDateTimeTypes::Date) => true,
        (TemporalKind::DateTime, TsDateTimeTypes::Temporal) => true,
        (TemporalKind::Date, TsDateTimeTypes::Temporal) => true,
        (TemporalKind::Duration, TsDateTimeTypes::Temporal) => true,
        _ => false,
    }
}

/// Whether the kind has a type of its own in the representation, other than `string`.
pub fn is_native_temporal(kind: TemporalKind, repr: TsDateTimeTypes) -> (result: bool)
    ensures
        result == native_temporal(kind, repr),
{
    match (kind, repr) {
        (TemporalKind::DateTime, TsDateTimeTypes::Date) => true,
        (TemporalKind::DateTime, TsDateTimeTypes::Temporal) => true,
        (TemporalKind::Date, TsDateTimeTypes::Temporal) => true,
        (TemporalKind::Duration, TsDateTimeTypes::Temporal) => true,
        _ => false,
    }
}

/// Whether a temporal value is changed on its way to the wire: in the given representation, or
/// in any of them where none is given.
pub open spec fn temporal_changes(kind: TemporalKind, repr: Option<TsDateTimeTypes>) -> bool {
    match repr {
        Some(repr) => native_temporal(kind, repr),
        None => kind != TemporalKind::Time,
    }
}

/// Whether a temporal value is changed on its way to the wire: in the given representation, or
/// in any of them where none is given.
pub fn temporal_serializes_non_identity(
    kind: TemporalKind,
    repr: Option<TsDateTimeTypes>,
) -> (result: bool)
    ensures
        result == temporal_changes(kind, repr),
{
    match repr {
        Some(repr) => is_native_temporal(kind, repr),
        None => kind != TemporalKind::Time,
    }
}

/// Asking for no representation is asking for any of them.
pub proof fn law_no_representation_is_any(kind: TemporalKind)
    ensures
        temporal_changes(kind, None) <==> exists|repr: TsDateTimeTypes|
            temporal_changes(kind, Some(repr)),
{
    assert(temporal_changes(kind, None) ==> temporal_changes(
        kind,
        Some(TsDateTimeTypes::Temporal),
    ));
}

/// Whether the type of a raw schema is the one, or a list that holds it.
pub open spec fn raw_type_includes(schema: JsonValue, ty: Seq<char>) -> bool {
    match crate::json_schema::value::member_of(schema, "type"@) {
        Some(JsonValue::Text(value)) => value@ == ty,
        Some(JsonValue::Array(values)) => crate::json_schema::value::has_text(values@, ty),
        _ => false,
    }
}

/// Whether the type of a raw schema is the one, or a list that holds it.
pub fn value_schema_type_includes(schema: &JsonValue, ty: &str) -> (result: bool)
    ensures
        result == raw_type_includes(*schema, ty@),
{
    match get_member(schema, "type") {
        Some(JsonValue::Text(value)) => text_eq(value.as_str(), ty),
        Some(JsonValue::Array(values)) => any_is_text(values, ty),
        _ => false,
    }
}

/// The temporal kind of a raw schema that is a temporal string.
pub open spec fn raw_temporal_kind(schema: JsonValue) -> Option<TemporalKind> {
    if raw_type_includes(schema, "string"@) {
        match crate::json_schema::value::member_of(schema, "format"@) {
            Some(JsonValue::Text(name)) => temporal_kind_named(name@),
            _ => None,
        }
    } else {
        None
    }
}

/// The temporal kind of a raw schema that is a temporal string.
pub fn value_temporal_kind_direct(schema: &JsonValue) -> (result: Option<TemporalKind>)
    ensures
        result == raw_temporal_kind(*schema),
{
    if value_schema_type_includes(schema, "string") {
        match get_member(schema, "format") {
            Some(JsonValue::Text(name)) => temporal_kind_from_name(name.as_str()),
            _ => None,
        }
    } else {
        None
    }
}

/// Whether a raw schema is a string of bytes.
pub open spec fn raw_content_encoding(schema: JsonValue) -> bool {
    if raw_type_includes(schema, "string"@) {
        match crate::json_schema::value::member_of(schema, "contentEncoding"@) {
            Some(JsonValue::Text(name)) => encoding_named(name@) is Some,
            _ => false,
        }
    } else {
        false
    }
}

/// Whether a raw schema is a string of bytes.
pub fn value_content_encoding_direct(schema: &JsonValue) -> (result: bool)
    ensures
        result == raw_content_encoding(*schema),
{
    if value_schema_type_includes(schema, "string") {
        match get_member(schema, "contentEncoding") {
            Some(JsonValue::Text(name)) => encoding_from_name(name.as_str()).is_some(),
            _ => false,
        }
    } else {
        false
    }
}

/// Whether a raw schema refers to another by name.
pub open spec fn raw_reference(schema: JsonValue) -> bool {
    match crate::json_schema::value::member_of(schema, "$ref"@) {
        Some(JsonValue::Text(_)) => true,
        _ => false,
    }
}

/// Whether a raw schema refers to another by name.
pub fn value_has_ref(schema: &JsonValue) -> (result: bool)
    ensures
        result == raw_reference(*schema),
{
    match get_member(schema, "$ref") {
        Some(JsonValue::Text(_)) => true,
        _ => false,
    }
}

/// The index of the first branch of a list that does not include `null`.
pub open spec fn first_non_null(branches: Seq<JsonValue>) -> Option<int>
    decreases branches.len(),
{
    if branches.len() == 0 {
        None
    } else {
        match first_non_null(branches.drop_last()) {
            Some(i) => Some(i),
            None => if !raw_type_includes(branches.last(), "null"@) {
                Some(branches.len() - 1)
            } else {
                None
            },
        }
    }
}

/// Whether some branch of a list includes `null`.
pub open spec fn some_null(branches: Seq<JsonValue>) -> bool {
    exists|i: int| 0 <= i < branches.len() && raw_type_includes(#[trigger] branches[i], "null"@)
}

proof fn lemma_first_non_null(branches: Seq<JsonValue>)
    ensures
        first_non_null(branches) matches Some(i) ==> 0 <= i < branches.len(),
    decreases branches.len(),
{
    if branches.len() > 0 {
        lemma_first_non_null(branches.drop_last());
    }
}

/// The first branch that is not `null` of a raw nullable schema, where that branch is one that
/// may change on its way to the wire.
pub open spec fn nullable_branch(branches: Seq<JsonValue>) -> Option<int> {
    match first_non_null(branches) {
        Some(i) => if some_null(branches) && (raw_reference(branches[i]) || raw_temporal_kind(
                branches[i],
            ) is Some || raw_content_encoding(branches[i])) {
            Some(i)
        } else {
            None
        },
        None => None,
    }
}

/// Whether the members of a raw schema declare a property.
pub open spec fn raw_declares_members(members: Seq<JsonMember>) -> bool {
    match crate::json_schema::value::member_index(members, "properties"@) {
        Some(k) => members[k].value matches JsonValue::Object(properties) && properties@.len() > 0,
        None => false,
    }
}

fn value_declares_members(members: &Vec<JsonMember>) -> (result: bool)
    ensures
        result == raw_declares_members(members@),
{
    match find_member(members, "properties") {
        Some(k) => match &members[k].value {
            JsonValue::Object(properties) => properties.len() > 0,
            _ => false,
        },
        None => false,
    }
}

/// Whether the TypeScript serializer changes the values of a raw schema: those of a reference,
/// of a temporal or encoded string, and of a nullable, an array or a map of such.
pub open spec fn changes_on_wire(schema: JsonValue, repr: Option<TsDateTimeTypes>) -> bool
    decreases schema,
{
    if raw_reference(schema) {
        true
    } else {
        match raw_temporal_kind(schema) {
            Some(kind) => temporal_changes(kind, repr),
            None => if raw_content_encoding(schema) {
                true
            } else {
                match schema {
                    JsonValue::Object(members) => {
                        let branch = match crate::json_schema::value::member_index(
                            members@,
                            "oneOf"@,
                        ) {
                            Some(k) => match members@[k].value {
                                JsonValue::Array(branches) => nullable_branch(branches@),
                                _ => None,
                            },
                            None => None,
                        };
                        match branch {
                            Some(i) => {
                                let k = crate::json_schema::value::member_index(
                                    members@,
                                    "oneOf"@,
                                )->Some_0;
                                if 0 <= k < members@.len() {
                                    match members@[k].value {
                                        JsonValue::Array(branches) => if 0 <= i < branches@.len() {
                                            changes_on_wire(branches@[i], repr)
                                        } else {
                                            false
                                        },
                                        _ => false,
                                    }
                                } else {
                                    false
                                }
                            },
                            None => if raw_type_includes(schema, "array"@) {
                                match crate::json_schema::value::member_index(members@, "items"@) {
                                    Some(k) => if 0 <= k < members@.len() {
                                        changes_on_wire(members@[k].value, repr)
                                    } else {
                                        false
                                    },
                                    None => false,
                                }
                            } else if raw_type_includes(schema, "object"@) && !raw_declares_members(
                                members@,
                            ) {
                                match crate::json_schema::value::member_index(
                                    members@,
                                    "additionalProperties"@,
                                ) {
                                    Some(k) => if 0 <= k < members@.len() {
                                        changes_on_wire(members@[k].value, repr)
                                    } else {
                                        false
                                    },
                                    None => false,
                                }
                            } else {
                                false
                            },
                        }
                    },
                    _ => false,
                }
            },
        }
    }
}

fn find_nullable_branch(branches: &Vec<JsonValue>) -> (index: Option<usize>)
    ensures
        match index {
            Some(i) => i < branches@.len() && nullable_branch(branches@) == Some(i as int),
            None => nullable_branch(branches@) is None,
        },
{
    let mut found: Option<usize> = None;
    let mut any_null = false;
    let mut i: usize = 0;
    while i < branches.len()
        invariant
            i <= branches.len(),
            match found {
                Some(k) => k < i && first_non_null(branches@.take(i as int)) == Some(k as int),
                None => first_non_null(branches@.take(i as int)) is None,
            },
            any_null == exists|k: int|
                0 <= k < i && raw_type_includes(#[trigger] branches@[k], "null"@),
        decreases branches.len() - i,
    {
        assert(branches@.take(i + 1).drop_last() =~= branches@.take(i as int));
        if value_schema_type_includes(&branches[i], "null") {
            any_null = true;
        } else if found.is_none() {
            found = Some(i);
        }
        i += 1;
    }
    assert(branches@.take(i as int) =~= branches@);
    match found {
        Some(k) => {
            let branch = &branches[k];
            if any_null && (value_has_ref(branch) || value_temporal_kind_direct(branch).is_some()
                || value_content_encoding_direct(branch)) {
                Some(k)
            } else {
                None
            }
        },
        None => None,
    }
}

/// Whether the TypeScript serializer changes the values of a raw schema, in the given
/// representation of temporal values or in any of them.
pub fn schema_serializes_non_identity(
    schema: &JsonValue,
    repr: Option<TsDateTimeTypes>,
) -> (changes: bool)
    ensures
        changes == changes_on_wire(*schema, repr),
    decreases schema,
{
    if value_has_ref(schema) {
        return true;
    }
    match value_temporal_kind_direct(schema) {
        Some(kind) => {
            return temporal_serializes_non_identity(kind, repr);
        },
        None => {},
    }
    if value_content_encoding_direct(schema) {
        return true;
    }
    match schema {
        JsonValue::Object(members) => {
            match find_member(members, "oneOf") {
                Some(k) => match &members[k].value {
                    JsonValue::Array(branches) => match find_nullable_branch(branches) {
                        Some(i) => {
                            return schema_serializes_non_identity(&branches[i], repr);
                        },
                        None => {},
                    },
                    _ => {},
                },
                None => {},
            }
            if value_schema_type_includes(schema, "array") {
                match find_member(members, "items") {
                    Some(k) => schema_serializes_non_identity(&members[k].value, repr),
                    None => false,
                }
            } else if value_schema_type_includes(schema, "object") && !value_declares_members(
                members,
            ) {
                match find_member(members, "additionalProperties") {
                    Some(k) => schema_serializes_non_identity(&members[k].value, repr),
                    None => false,
                }
            } else {
                false
            }
        },
        _ => false,
    }
}

/// The identifier of a property's member: the one that the schema asks for, else the name in
/// lower camel case.
pub open spec fn member_name_text(schema: Schema, json_name: Seq<char>) -> Seq<char> {
    match schema.x_ts_name {
        Some(name) => name@,
        None => crate::naming::lower_camel(json_name),
    }
}

/// The identifier of a property's member: the one that the schema asks for, else the name in
/// lower camel case.
pub fn ts_member_name(schema: &Schema, json_name: &str) -> (result: String)
    ensures
        result@ == member_name_text(*schema, json_name@),
{
    match &schema.x_ts_name {
        Some(name) => name.clone(),
        None => to_lower_camel(json_name),
    }
}

/// Whether the schema bounds numbers.
pub open spec fn numeric_constraints(schema: Schema) -> bool {
    schema.minimum.is_some()
        || schema.maximum.is_some()
        || schema.exclusive_minimum.is_some()
        || schema.exclusive_maximum.is_some()
        || schema.multiple_of.is_some()
}

/// Whether the schema bounds numbers.
pub fn has_numeric_constraints(schema: &Schema) -> (result: bool)
    ensures
        result == numeric_constraints(*schema),
{
    schema.minimum.is_some()
        || schema.maximum.is_some()
        || schema.exclusive_minimum.is_some()
        || schema.exclusive_maximum.is_some()
        || schema.multiple_of.is_some()
}

/// The `minLength` that constrains anything: zero does not.
pub open spec fn min_length_of(schema: Schema) -> Option<u64> {
    match schema.min_length {
        Some(min) => if min > 0 { Some(min) } else { None },
        None => None,
    }
}

/// The `minLength` that constrains anything: zero does not.
pub fn effective_min_length(schema: &Schema) -> (result: Option<u64>)
    ensures
        result == min_length_of(*schema),
{
    match schema.min_length {
        Some(min) => if min > 0 { Some(min) } else { None },
        None => None,
    }
}

/// Whether the schema constrains strings.
pub open spec fn string_constraints(schema: Schema) -> bool {
    min_length_of(schema) is Some
        || schema.max_length.is_some()
        || schema.pattern.is_some()
        || schema.format.is_some()
}

/// Whether the schema constrains strings.
pub fn has_string_constraints(schema: &Schema) -> (result: bool)
    ensures
        result == string_constraints(*schema),
{
    effective_min_length(schema).is_some()
        || schema.max_length.is_some()
        || schema.pattern.is_some()
        || schema.format.is_some()
}

/// Whether the schema constrains arrays.
pub open spec fn array_constraints(schema: Schema) -> bool {
    schema.min_items.is_some() || schema.max_items.is_some() || (
        match schema.unique_items { Some(unique) => unique, None => false }
    ) || schema.contains.is_some()
}

/// Whether the schema constrains arrays.
pub fn has_array_constraints(schema: &Schema) -> (result: bool)
    ensures
        result == array_constraints(*schema),
{
    schema.min_items.is_some() || schema.max_items.is_some() || (
        match schema.unique_items { Some(unique) => unique, None => false }
    ) || schema.contains.is_some()
}

} // verus!
