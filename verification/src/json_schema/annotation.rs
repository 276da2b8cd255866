//! The TypeScript types of schemas, and the expressions that turn their values into wire values.

use vstd::prelude::*;

use crate::error::{Error, ErrorView};
use crate::json_schema::fields::reference_limit;
use crate::json_schema::parse::find_first_object;
use crate::json_schema::schema::{
    content_encoding_direct, temporal_kind_direct, type_is, AdditionalProperties, Schema,
};
use crate::json_schema::ts_text::{
    next_depth, reference_model_name, ts_content_encoding_serialize_fn, ts_depth_suffix,
    ts_indexed_path, ts_keyed_path, ts_temporal_serialize_call, ts_temporal_type,
    ts_transfer_type_converter_name, typescript_const_annotation, typescript_string_literal,
    typescript_value_literal, JsonModel, TsContext,
};
use crate::json_schema::union::{classify_ts_union, TsUnion};
use crate::json_schema::value::{any_is_text, JsonValue};
use crate::text::{chars_of, contains_text, join_texts, matches_at, text_between, text_eq, trim};

verus! {

/// Whether the type of a schema is the one, or a list that holds it.
pub open spec fn type_includes(schema: Schema, ty: Seq<char>) -> bool {
    match schema.ty {
        Some(JsonValue::Text(value)) => value@ == ty,
        Some(JsonValue::Array(values)) => crate::json_schema::value::has_text(values@, ty),
        _ => false,
    }
}

/// Whether the type of a schema is the one, or a list that holds it.
pub fn schema_type_includes(schema: &Schema, ty: &str) -> (result: bool)
    ensures
        result == type_includes(*schema, ty@),
{
    match &schema.ty {
        Some(JsonValue::Text(value)) => text_eq(value.as_str(), ty),
        Some(JsonValue::Array(values)) => any_is_text(values, ty),
        _ => false,
    }
}

/// The indices of the branches that do not include `null`.
pub open spec fn non_null_indices(branches: Seq<Schema>) -> Seq<int>
    decreases branches.len(),
{
    if branches.len() == 0 {
        Seq::empty()
    } else if type_includes(branches.last(), "null"@) {
        non_null_indices(branches.drop_last())
    } else {
        non_null_indices(branches.drop_last()).push(branches.len() - 1)
    }
}

pub proof fn lemma_non_null_indices(branches: Seq<Schema>)
    ensures
        non_null_indices(branches).len() <= branches.len(),
        forall|k: int|
            0 <= k < non_null_indices(branches).len() ==> 0 <= #[trigger] non_null_indices(
                branches,
            )[k] < branches.len(),
    decreases branches.len(),
{
    if branches.len() > 0 {
        lemma_non_null_indices(branches.drop_last());
    }
}

/// The branches of a schema that do not include `null`, by their indices.
pub open spec fn schema_non_null(schema: Schema) -> Seq<int> {
    match schema.one_of {
        Some(branches) => non_null_indices(branches@),
        None => Seq::empty(),
    }
}

/// The branches of a schema that do not include `null`, by their indices.
pub fn find_non_null(branches: &Vec<Schema>) -> (indices: Vec<usize>)
    ensures
        indices@.map_values(|i: usize| i as int) == non_null_indices(branches@),
        forall|k: int| 0 <= k < indices@.len() ==> (#[trigger] indices@[k]) < branches@.len(),
{
    let mut indices: Vec<usize> = Vec::new();
    let mut i: usize = 0;
    while i < branches.len()
        invariant
            i <= branches.len(),
            indices@.map_values(|i: usize| i as int) == non_null_indices(branches@.take(i as int)),
            forall|k: int| 0 <= k < indices@.len() ==> (#[trigger] indices@[k]) < branches@.len(),
        decreases branches.len() - i,
    {
        assert(branches@.take(i + 1).drop_last() =~= branches@.take(i as int));
        if !schema_type_includes(&branches[i], "null") {
            let ghost before = indices@;
            indices.push(i);
            assert(indices@.map_values(|i: usize| i as int) =~= before.map_values(
                |i: usize| i as int,
            ).push(i as int));
        }
        i += 1;
    }
    assert(branches@.take(i as int) =~= branches@);
    indices
}

/// The one branch beside `null` of a nullable schema.
pub open spec fn nullable_branch_of(schema: Schema) -> Option<Schema> {
    match schema.one_of {
        Some(branches) => if non_null_indices(branches@).len() == 1 {
            Some(branches@[non_null_indices(branches@)[0]])
        } else {
            None
        },
        None => None,
    }
}

/// The first branch beside `null` of a schema with a `null` branch.
pub open spec fn branch_beside_null(schema: Schema) -> Option<Schema> {
    match schema.one_of {
        Some(branches) => if 0 < non_null_indices(branches@).len() < branches@.len() {
            Some(branches@[non_null_indices(branches@)[0]])
        } else {
            None
        },
        None => None,
    }
}

/// Whether a schema has a `null` branch.
pub open spec fn has_null_branch(schema: Schema) -> bool {
    match schema.one_of {
        Some(branches) => non_null_indices(branches@).len() < branches@.len(),
        None => false,
    }
}

pub proof fn lemma_branch_smaller(schema: Schema, i: int)
    requires
        schema.one_of is Some,
        0 <= i < schema.one_of->Some_0@.len(),
    ensures
        decreases_to!(schema => schema.one_of->Some_0@[i]),
{
    assert(decreases_to!(schema => schema.one_of));
    assert(decreases_to!(schema.one_of => schema.one_of->Some_0));
    assert(decreases_to!(schema.one_of->Some_0 => schema.one_of->Some_0@));
}

pub proof fn lemma_non_null_smaller(schema: Schema)
    ensures
        nullable_branch_of(schema) matches Some(branch) ==> decreases_to!(schema => branch),
        branch_beside_null(schema) matches Some(branch) ==> decreases_to!(schema => branch),
{
    match schema.one_of {
        Some(branches) => {
            lemma_non_null_indices(branches@);
            if non_null_indices(branches@).len() > 0 {
                lemma_branch_smaller(schema, non_null_indices(branches@)[0]);
            }
        },
        None => {},
    }
}

pub proof fn lemma_items_smaller(schema: Schema)
    ensures
        schema.items matches Some(items) ==> decreases_to!(schema => *items),
{
    match schema.items {
        Some(items) => {
            assert(decreases_to!(schema => schema.items));
            assert(decreases_to!(schema.items => schema.items->Some_0));
        },
        None => {},
    }
}

pub proof fn lemma_contains_smaller(schema: Schema)
    ensures
        schema.contains matches Some(matcher) ==> decreases_to!(schema => *matcher),
{
    match schema.contains {
        Some(_) => {
            assert(decreases_to!(schema => schema.contains));
            assert(decreases_to!(schema.contains => schema.contains->Some_0));
        },
        None => {},
    }
}

pub proof fn lemma_names_smaller(schema: Schema)
    ensures
        schema.property_names matches Some(names) ==> decreases_to!(schema => *names),
{
    match schema.property_names {
        Some(_) => {
            assert(decreases_to!(schema => schema.property_names));
            assert(decreases_to!(schema.property_names => schema.property_names->Some_0));
        },
        None => {},
    }
}

pub proof fn lemma_property_smaller(schema: Schema, i: int)
    requires
        schema.properties is Some,
        0 <= i < schema.properties->Some_0@.len(),
    ensures
        decreases_to!(schema => schema.properties->Some_0@[i].schema),
{
    assert(decreases_to!(schema => schema.properties));
    assert(decreases_to!(schema.properties => schema.properties->Some_0));
    assert(decreases_to!(schema.properties->Some_0 => schema.properties->Some_0@));
    assert(decreases_to!(schema.properties->Some_0@ => schema.properties->Some_0@[i]));
    assert(decreases_to!(schema.properties->Some_0@[i] => schema.properties->Some_0@[i].schema));
}

pub proof fn lemma_members_smaller(schema: Schema)
    ensures
        schema.additional_properties matches Some(
            AdditionalProperties::Matching(members),
        ) ==> decreases_to!(schema => *members),
{
    match schema.additional_properties {
        Some(AdditionalProperties::Matching(members)) => {
            assert(decreases_to!(schema => schema.additional_properties));
            assert(
                decreases_to!(schema.additional_properties => schema.additional_properties->Some_0)
            );
            assert(
                decreases_to!(
                    schema.additional_properties->Some_0 => schema.additional_properties->Some_0->Matching_0,
                )
            );
        },
        _ => {},
    }
}

/// The one branch beside `null` of a nullable schema.
pub fn nullable_non_null_schema(schema: &Schema) -> (branch: Option<&Schema>)
    ensures
        match (branch, nullable_branch_of(*schema)) {
            (Some(found), Some(wanted)) => *found == wanted,
            (None, None) => true,
            _ => false,
        },
{
    match &schema.one_of {
        Some(branches) => {
            let indices = find_non_null(branches);
            assert(indices@.len() == non_null_indices(branches@).len());
            if indices.len() == 1 {
                assert(indices@.map_values(|i: usize| i as int)[0] == indices@[0]);
                Some(&branches[indices[0]])
            } else {
                None
            }
        },
        None => None,
    }
}

/// The first branch beside `null` of a schema with a `null` branch.
pub fn non_null_branch(schema: &Schema) -> (branch: Option<&Schema>)
    ensures
        match (branch, branch_beside_null(*schema)) {
            (Some(found), Some(wanted)) => *found == wanted,
            (None, None) => true,
            _ => false,
        },
{
    match &schema.one_of {
        Some(branches) => {
            let indices = find_non_null(branches);
            assert(indices@.len() == non_null_indices(branches@).len());
            if indices.len() > 0 && indices.len() < branches.len() {
                assert(indices@.map_values(|i: usize| i as int)[0] == indices@[0]);
                Some(&branches[indices[0]])
            } else {
                None
            }
        },
        None => None,
    }
}

/// Whether a schema has a `null` branch.
pub fn schema_has_null_branch(schema: &Schema) -> (found: bool)
    ensures
        found == has_null_branch(*schema),
{
    match &schema.one_of {
        Some(branches) => {
            let indices = find_non_null(branches);
            assert(indices@.len() == non_null_indices(branches@).len());
            indices.len() < branches.len()
        },
        None => false,
    }
}

/// Whether a schema is a sum type: it has two or more branches beside `null`.
pub open spec fn is_union(schema: Schema) -> bool {
    schema_non_null(schema).len() >= 2
}

/// Whether a schema is a sum type: it has two or more branches beside `null`.
pub fn is_ts_union(schema: &Schema) -> (union: bool)
    ensures
        union == is_union(*schema),
{
    match &schema.one_of {
        Some(branches) => {
            let indices = find_non_null(branches);
            assert(indices@.len() == non_null_indices(branches@).len());
            indices.len() >= 2
        },
        None => false,
    }
}

/// A sum type is no nullable schema, and the other way round.
pub proof fn law_union_is_not_nullable(schema: Schema)
    ensures
        !(is_union(schema) && nullable_branch_of(schema) is Some),
{
}

/// Whether `null` is a value of one of the branches.
pub open spec fn some_null_allowed(branches: Seq<Schema>) -> bool
    decreases branches, 0nat,
{
    if branches.len() == 0 {
        false
    } else {
        some_null_allowed(branches.drop_last()) || null_allowed(branches.last())
    }
}

/// Whether `null` is a value of a schema.
pub open spec fn null_allowed(schema: Schema) -> bool
    decreases schema, 1nat,
{
    ||| schema.const_value matches Some(JsonValue::Null)
    ||| type_includes(schema, "null"@)
    ||| match schema.one_of {
        Some(branches) => some_null_allowed(branches@),
        None => false,
    }
}

/// Whether `null` is a value of a schema.
pub fn allows_null(schema: &Schema) -> (allowed: bool)
    ensures
        allowed == null_allowed(*schema),
    decreases schema,
{
    match &schema.const_value {
        Some(JsonValue::Null) => {
            return true;
        },
        _ => {},
    }
    if schema_type_includes(schema, "null") {
        return true;
    }
    match &schema.one_of {
        Some(branches) => {
            let mut found = false;
            let mut i: usize = 0;
            while i < branches.len()
                invariant
                    i <= branches.len(),
                    schema.one_of == Some(*branches),
                    found == some_null_allowed(branches@.take(i as int)),
                decreases branches.len() - i,
            {
                assert(branches@.take(i + 1).drop_last() =~= branches@.take(i as int));
                proof {
                    lemma_branch_smaller(*schema, i as int);
                }
                if allows_null(&branches[i]) {
                    found = true;
                }
                i += 1;
            }
            assert(branches@.take(i as int) =~= branches@);
            found
        },
        None => false,
    }
}

/// The error for members whose schema cannot be read.
pub open spec fn unreadable_members_error(reason: Seq<char>) -> ErrorView {
    ErrorView::InvalidJsonSchema {
        path: "<json-generator>"@,
        reason: "failed to read `additionalProperties`: "@ + reason,
    }
}

/// The error for members whose schema cannot be read.
pub fn unreadable_members(reason: &str) -> (error: Error)
    ensures
        error@ == unreadable_members_error(reason@),
{
    Error::InvalidJsonSchema {
        path: "<json-generator>".to_owned(),
        reason: "failed to read `additionalProperties`: ".to_owned().concat(reason),
    }
}

/// The schema of the members that a schema does not declare, where it gives one.
pub open spec fn member_schema(schema: Schema) -> Result<Option<Schema>, ErrorView> {
    match schema.additional_properties {
        Some(AdditionalProperties::Matching(members)) => Ok(Some(*members)),
        Some(AdditionalProperties::Invalid(reason)) => Err(unreadable_members_error(reason@)),
        _ => Ok(None),
    }
}

/// The schema of the members that a schema does not declare, where it gives one.
pub fn additional_properties_value_schema(schema: &Schema) -> (
    result: Result<Option<&Schema>, Error>
)
    ensures
        match (result, member_schema(*schema)) {
            (Ok(Some(found)), Ok(Some(wanted))) => *found == wanted,
            (Ok(None), Ok(None)) => true,
            (Err(error), Err(wanted)) => error@ == wanted,
            _ => false,
        },
{
    match &schema.additional_properties {
        Some(AdditionalProperties::Matching(members)) => Ok(Some(members)),
        Some(AdditionalProperties::Invalid(reason)) => Err(unreadable_members(reason.as_str())),
        _ => Ok(None),
    }
}

/// Whether a schema declares a member.
pub open spec fn has_declared_members(schema: Schema) -> bool {
    match schema.properties {
        Some(properties) => properties@.len() > 0,
        None => false,
    }
}

/// The schema of the members of an object that is written in place, where it is a map of such.
pub open spec fn map_values(schema: Schema) -> Option<Schema> {
    match schema.additional_properties {
        Some(AdditionalProperties::Matching(members)) => if crate::json_schema::schema::has_type(
            schema,
            "object"@,
        ) && !has_declared_members(schema) {
            Some(*members)
        } else {
            None
        },
        _ => None,
    }
}

/// The schema of the members of an object that is written in place, where it is a map of such.
pub fn map_value_schema(schema: &Schema) -> (result: Option<&Schema>)
    ensures
        match result {
            Some(members) => map_values(*schema) == Some(*members),
            None => map_values(*schema) is None,
        },
{
    match &schema.additional_properties {
        Some(AdditionalProperties::Matching(members)) => if type_is(schema, "object")
            && !declares_members(schema) {
            Some(members)
        } else {
            None
        },
        _ => None,
    }
}

/// Whether a schema declares a member.
pub fn declares_members(schema: &Schema) -> (result: bool)
    ensures
        result == has_declared_members(*schema),
{
    match &schema.properties {
        Some(properties) => properties.len() > 0,
        None => false,
    }
}

/// Whether a schema forbids the members that it does not declare.
pub open spec fn closed_schema(schema: Schema) -> bool {
    match schema.additional_properties {
        Some(AdditionalProperties::Allowed(allowed)) => !allowed,
        _ => false,
    }
}

/// Whether a schema forbids the members that it does not declare.
pub fn is_closed(schema: &Schema) -> (result: bool)
    ensures
        result == closed_schema(*schema),
{
    match &schema.additional_properties {
        Some(AdditionalProperties::Allowed(allowed)) => !*allowed,
        _ => false,
    }
}

/// Whether a schema declares members and takes others beside them.
pub open spec fn open_object(schema: Schema) -> bool {
    crate::json_schema::schema::has_type(schema, "object"@)
        && has_declared_members(schema)
        && !closed_schema(schema)
}

/// Whether a schema declares members and takes others beside them.
pub fn is_open_object(schema: &Schema) -> (result: bool)
    ensures
        result == open_object(*schema),
{
    type_is(schema, "object") && declares_members(schema) && !is_closed(schema)
}

/// The values without those that came before.
pub open spec fn distinct(values: Seq<Seq<char>>) -> Seq<Seq<char>>
    decreases values.len(),
{
    if values.len() == 0 {
        Seq::empty()
    } else if distinct(values.drop_last()).contains(values.last()) {
        distinct(values.drop_last())
    } else {
        distinct(values.drop_last()).push(values.last())
    }
}

/// The union of types, each once.
pub open spec fn union_text(values: Seq<Seq<char>>) -> Seq<char> {
    crate::text::join(distinct(values), " | "@)
}

/// The union of types, each once.
pub fn join_union(values: &Vec<String>) -> (result: String)
    ensures
        result@ == union_text(crate::text::texts(values@)),
{
    broadcast use crate::text::group_texts;

    let mut kept: Vec<String> = Vec::new();
    let mut i: usize = 0;
    while i < values.len()
        invariant
            i <= values.len(),
            crate::text::texts(kept@) == distinct(crate::text::texts(values@).take(i as int)),
        decreases values.len() - i,
    {
        assert(crate::text::texts(values@).take(i + 1).drop_last() =~= crate::text::texts(
            values@,
        ).take(i as int));
        assert(crate::text::texts(values@).take(i + 1).last() == values@[i as int]@);
        if !contains_text(&kept, values[i].as_str()) {
            kept.push(values[i].clone());
        }
        i += 1;
    }
    assert(crate::text::texts(values@).take(i as int) =~= crate::text::texts(values@));
    join_texts(&kept, " | ")
}

/// No type stands twice in a union, every type stands in it, and nothing else does.
pub proof fn law_union_members_are_distinct(values: Seq<Seq<char>>)
    ensures
        distinct(values).no_duplicates(),
        forall|value: Seq<char>| distinct(values).contains(value) <==> values.contains(value),
    decreases values.len(),
{
    if values.len() > 0 {
        law_union_members_are_distinct(values.drop_last());
        let kept = distinct(values.drop_last());
        assert forall|value: Seq<char>| distinct(values).contains(value) implies values.contains(
            value,
        ) by {
            if value == values.last() {
                assert(values[values.len() - 1] == value);
            } else {
                assert(kept.contains(value));
                assert(values.drop_last().contains(value));
                let i = choose|i: int| 0 <= i < values.drop_last().len()
                    && values.drop_last()[i] == value;
                assert(values[i] == value);
            }
        }
        assert forall|value: Seq<char>| values.contains(value) implies distinct(values).contains(
            value,
        ) by {
            let i = choose|i: int| 0 <= i < values.len() && values[i] == value;
            if i < values.len() - 1 {
                assert(values.drop_last()[i] == value);
                assert(values.drop_last().contains(value));
                assert(kept.contains(value));
                let k = choose|k: int| 0 <= k < kept.len() && kept[k] == value;
                assert(kept.push(values.last())[k] == value);
            } else {
                assert(kept.push(values.last())[kept.len() as int] == value);
            }
        }
    }
}

/// Where the scan of a type stands: the members that have ended, how deep in brackets it is,
/// where the member began that has not ended, and whether it is inside a string literal and
/// behind a backslash there.
#[verifier::ext_equal]
pub struct UnionScan {
    pub members: Seq<Seq<char>>,
    pub depth: nat,
    pub start: int,
    pub quoted: bool,
    pub escaped: bool,
}

/// The scan of the first characters of a type for the bars outside of brackets and of string
/// literals.
pub open spec fn union_scan(text: Seq<char>, count: nat) -> UnionScan
    decreases count,
{
    if count == 0 {
        UnionScan { members: Seq::empty(), depth: 0, start: 0, quoted: false, escaped: false }
    } else {
        let scan = union_scan(text, (count - 1) as nat);
        let c = text[count - 1];
        if scan.quoted {
            UnionScan {
                quoted: scan.escaped || c != '"',
                escaped: !scan.escaped && c == '\\',
                ..scan
            }
        } else if c == '"' {
            UnionScan { quoted: true, ..scan }
        } else if c == '<' || c == '(' || c == '[' || c == '{' {
            UnionScan { depth: scan.depth + 1, ..scan }
        } else if c == '>' || c == ')' || c == ']' || c == '}' {
            UnionScan { depth: if scan.depth == 0 { 0 } else { (scan.depth - 1) as nat }, ..scan }
        } else if c == '|' && scan.depth == 0 {
            UnionScan {
                members: scan.members.push(
                    crate::text::trimmed(text.subrange(scan.start, count - 1)),
                ),
                depth: 0,
                start: count as int,
                ..scan
            }
        } else {
            scan
        }
    }
}

/// The members of a union type: the texts between the bars that stand outside of brackets and of
/// string literals.
pub open spec fn union_members(text: Seq<char>) -> Seq<Seq<char>> {
    let scan = union_scan(text, text.len());
    scan.members.push(crate::text::trimmed(text.subrange(scan.start, text.len() as int)))
}

/// The members of a union type: the texts between the bars that stand outside of brackets and of
/// string literals.
pub fn split_top_level_union(annotation: &str) -> (members: Vec<String>)
    ensures
        crate::text::texts(members@) == union_members(annotation@),
{
    broadcast use crate::text::group_texts;

    let chars = chars_of(annotation);
    let mut members: Vec<String> = Vec::new();
    let mut depth: usize = 0;
    let mut start: usize = 0;
    let mut quoted = false;
    let mut escaped = false;
    let mut i: usize = 0;
    while i < chars.len()
        invariant
            i <= chars.len(),
            chars@ == annotation@,
            start <= i,
            depth <= i,
            union_scan(annotation@, i as nat) == (UnionScan {
                members: crate::text::texts(members@),
                depth: depth as nat,
                start: start as int,
                quoted,
                escaped,
            }),
        decreases chars.len() - i,
    {
        let c = chars[i];
        if quoted {
            quoted = escaped || c != '"';
            escaped = !escaped && c == '\\';
        } else if c == '"' {
            quoted = true;
        } else if c == '<' || c == '(' || c == '[' || c == '{' {
            depth += 1;
        } else if c == '>' || c == ')' || c == ']' || c == '}' {
            if depth > 0 {
                depth -= 1;
            }
        } else if c == '|' && depth == 0 {
            let member = text_between(&chars, start, i);
            members.push(trim(member.as_str()));
            start = i + 1;
        }
        i += 1;
    }
    let member = text_between(&chars, start, chars.len());
    members.push(trim(member.as_str()));
    members
}

/// A type as the element of an array type: in brackets where it is a union.
pub open spec fn element_type(annotation: Seq<char>) -> Seq<char> {
    if union_members(annotation).len() > 1 {
        "("@ + annotation + ")"@
    } else {
        annotation
    }
}

/// A type as the element of an array type: in brackets where it is a union.
pub fn element_annotation(annotation: &str) -> (result: String)
    ensures
        result@ == element_type(annotation@),
{
    if split_top_level_union(annotation).len() > 1 {
        "(".to_owned().concat(annotation).concat(")")
    } else {
        annotation.to_owned()
    }
}

/// Whether a part stands in a text.
pub open spec fn has_part(text: Seq<char>, part: Seq<char>) -> bool {
    exists|i: int| 0 <= i <= text.len() && crate::text::has_prefix(#[trigger] text.skip(i), part)
}

/// Whether a part stands in a text.
pub fn contains_part(text: &str, part: &str) -> (found: bool)
    ensures
        found == has_part(text@, part@),
{
    let chars = chars_of(text);
    let wanted = chars_of(part);
    let mut i: usize = 0;
    loop
        invariant
            i <= chars.len(),
            chars@ == text@,
            wanted@ == part@,
            forall|k: int|
                0 <= k < i ==> !crate::text::has_prefix(#[trigger] text@.skip(k), part@),
        decreases chars.len() - i,
    {
        if matches_at(&chars, i, &wanted) {
            return true;
        }
        if i == chars.len() {
            return false;
        }
        i += 1;
    }
}

/// The type of a member that may be absent.
pub open spec fn optional_type(annotation: Seq<char>) -> Seq<char> {
    if has_part(annotation, "undefined"@) {
        annotation
    } else {
        annotation + " | undefined"@
    }
}

/// The type of a member that may be absent.
pub fn optional_type_annotation(annotation: &str) -> (result: String)
    ensures
        result@ == optional_type(annotation@),
{
    if contains_part(annotation, "undefined") {
        annotation.to_owned()
    } else {
        annotation.to_owned().concat(" | undefined")
    }
}

/// The types of scalars, as far as each is one.
pub open spec fn const_annotations(values: Seq<JsonValue>) -> Seq<Seq<char>>
    decreases values.len(),
{
    if values.len() == 0 {
        Seq::empty()
    } else {
        match crate::json_schema::ts_text::const_annotation(values.last()) {
            Some(annotation) => const_annotations(values.drop_last()).push(annotation),
            None => const_annotations(values.drop_last()),
        }
    }
}

/// The types of scalars, as far as each is one.
pub fn const_annotations_of(values: &Vec<JsonValue>) -> (annotations: Vec<String>)
    ensures
        crate::text::texts(annotations@) == const_annotations(values@),
{
    broadcast use crate::text::group_texts;

    let mut annotations: Vec<String> = Vec::new();
    let mut i: usize = 0;
    while i < values.len()
        invariant
            i <= values.len(),
            crate::text::texts(annotations@) == const_annotations(values@.take(i as int)),
        decreases values.len() - i,
    {
        assert(values@.take(i + 1).drop_last() =~= values@.take(i as int));
        match typescript_const_annotation(&values[i]) {
            Some(annotation) => {
                annotations.push(annotation);
            },
            None => {},
        }
        i += 1;
    }
    assert(values@.take(i as int) =~= values@);
    annotations
}

/// The union of the scalars that a schema lists, where it lists scalars alone.
pub open spec fn enum_type(schema: Schema) -> Option<Seq<char>> {
    match schema.enum_values {
        Some(values) => {
            let annotations = const_annotations(values@);
            if annotations.len() > 0 && annotations.len() == values@.len() {
                Some(union_text(annotations))
            } else {
                None
            }
        },
        None => None,
    }
}

/// The union of the scalars that a schema lists, where it lists scalars alone.
pub fn enum_annotation(schema: &Schema) -> (result: Option<String>)
    ensures
        crate::text::opt_text(result) == enum_type(*schema),
{
    match &schema.enum_values {
        Some(values) => {
            let annotations = const_annotations_of(values);
            if annotations.len() > 0 && annotations.len() == values.len() {
                Some(join_union(&annotations))
            } else {
                None
            }
        },
        None => None,
    }
}

/// The type of the scalar that a schema is fixed to.
pub open spec fn fixed_type(schema: Schema) -> Option<Seq<char>> {
    match schema.const_value {
        Some(value) => crate::json_schema::ts_text::const_annotation(value),
        None => None,
    }
}

/// The type of the scalar that a schema is fixed to.
pub fn fixed_annotation(schema: &Schema) -> (result: Option<String>)
    ensures
        crate::text::opt_text(result) == fixed_type(*schema),
{
    match &schema.const_value {
        Some(value) => typescript_const_annotation(value),
        None => None,
    }
}

/// The types of branches, or the first error among them.
pub open spec fn branch_annotations(ctx: TsContext, branches: Seq<Schema>) -> Result<
    Seq<Seq<char>>,
    ErrorView,
>
    decreases branches, 0nat,
{
    if branches.len() == 0 {
        Ok(Seq::empty())
    } else {
        match branch_annotations(ctx, branches.drop_last()) {
            Ok(before) => match annotation_of(ctx, branches.last()) {
                Ok(annotation) => Ok(before.push(annotation)),
                Err(error) => Err(error),
            },
            Err(error) => Err(error),
        }
    }
}

/// The type of the members of a map.
pub open spec fn members_annotation(ctx: TsContext, schema: Schema) -> Result<Seq<char>, ErrorView>
    decreases schema, 0nat,
{
    match schema.additional_properties {
        Some(AdditionalProperties::Matching(members)) => annotation_of(ctx, *members),
        Some(AdditionalProperties::Invalid(reason)) => Err(unreadable_members_error(reason@)),
        _ => Ok("unknown"@),
    }
}

/// The type of an object that has no name.
pub open spec fn record_annotation(ctx: TsContext, schema: Schema) -> Result<Seq<char>, ErrorView>
    decreases schema, 1nat,
{
    if has_declared_members(schema) {
        Ok("Record<string, unknown>"@)
    } else {
        match members_annotation(ctx, schema) {
            Ok(value) => Ok("Record<string, "@ + value + ">"@),
            Err(error) => Err(error),
        }
    }
}

/// The TypeScript type of a schema.
pub open spec fn annotation_of(ctx: TsContext, schema: Schema) -> Result<Seq<char>, ErrorView>
    decreases schema, 2nat,
{
    match schema.reference {
        Some(reference) => Ok(crate::json_schema::ts_text::referenced_model(ctx, reference@)),
        None => match crate::json_schema::schema::temporal_kind_of(schema) {
            Some(kind) => Ok(crate::json_schema::ts_text::temporal_type_text(kind, ctx.repr)),
            None => if crate::json_schema::schema::content_encoding_of(schema) is Some {
                Ok("Uint8Array"@)
            } else {
                match fixed_type(schema) {
                    Some(annotation) => Ok(annotation),
                    None => match enum_type(schema) {
                        Some(annotation) => Ok(annotation),
                        None => match schema.one_of {
                            Some(branches) => match branch_annotations(ctx, branches@) {
                                Ok(annotations) => Ok(union_text(annotations)),
                                Err(error) => Err(error),
                            },
                            None => if crate::json_schema::schema::has_type(schema, "string"@) {
                                Ok("string"@)
                            } else if crate::json_schema::schema::has_type(schema, "integer"@)
                                || crate::json_schema::schema::has_type(schema, "number"@) {
                                Ok("number"@)
                            } else if crate::json_schema::schema::has_type(schema, "boolean"@) {
                                Ok("boolean"@)
                            } else if crate::json_schema::schema::has_type(schema, "array"@) {
                                match schema.items {
                                    Some(items) => match annotation_of(ctx, *items) {
                                        Ok(item) => Ok(element_type(item) + "[]"@),
                                        Err(error) => Err(error),
                                    },
                                    None => Ok(element_type("unknown"@) + "[]"@),
                                }
                            } else if crate::json_schema::schema::has_type(schema, "object"@) {
                                record_annotation(ctx, schema)
                            } else if crate::json_schema::schema::has_type(schema, "null"@) {
                                Ok("null"@)
                            } else {
                                Ok("unknown"@)
                            },
                        },
                    },
                }
            },
        },
    }
}

/// The type of the members of a map.
pub fn additional_properties_annotation(ctx: &TsContext, schema: &Schema) -> (result: Result<
    String,
    Error,
>)
    ensures
        crate::output::text_outcome(result) == members_annotation(*ctx, *schema),
    decreases schema, 0nat,
{
    proof {
        lemma_members_smaller(*schema);
    }
    match &schema.additional_properties {
        Some(AdditionalProperties::Matching(members)) => type_annotation(ctx, members),
        Some(AdditionalProperties::Invalid(reason)) => Err(unreadable_members(reason.as_str())),
        _ => Ok("unknown".to_owned()),
    }
}

/// The type of an object that has no name.
pub fn object_annotation(ctx: &TsContext, schema: &Schema) -> (result: Result<String, Error>)
    ensures
        crate::output::text_outcome(result) == record_annotation(*ctx, *schema),
    decreases schema, 1nat,
{
    if declares_members(schema) {
        Ok("Record<string, unknown>".to_owned())
    } else {
        match additional_properties_annotation(ctx, schema) {
            Ok(value) => Ok("Record<string, ".to_owned().concat(value.as_str()).concat(">")),
            Err(error) => Err(error),
        }
    }
}

/// The TypeScript type of a schema.
pub fn type_annotation(ctx: &TsContext, schema: &Schema) -> (result: Result<String, Error>)
    ensures
        crate::output::text_outcome(result) == annotation_of(*ctx, *schema),
    decreases schema, 2nat,
{
    match &schema.reference {
        Some(reference) => {
            return Ok(reference_model_name(ctx, reference.as_str()));
        },
        None => {},
    }
    match temporal_kind_direct(schema) {
        Some(kind) => {
            return Ok(ts_temporal_type(kind, ctx.repr));
        },
        None => {},
    }
    if content_encoding_direct(schema).is_some() {
        return Ok("Uint8Array".to_owned());
    }
    match fixed_annotation(schema) {
        Some(annotation) => {
            return Ok(annotation);
        },
        None => {},
    }
    match enum_annotation(schema) {
        Some(annotation) => {
            return Ok(annotation);
        },
        None => {},
    }
    match &schema.one_of {
        Some(branches) => {
            let mut annotations: Vec<String> = Vec::new();
            let mut i: usize = 0;
            assert(crate::text::texts(annotations@) =~= Seq::empty());
            while i < branches.len()
                invariant
                    i <= branches.len(),
                    schema.one_of == Some(*branches),
                    schema.reference is None,
                    crate::json_schema::schema::temporal_kind_of(*schema) is None,
                    crate::json_schema::schema::content_encoding_of(*schema) is None,
                    fixed_type(*schema) is None,
                    enum_type(*schema) is None,
                    branch_annotations(*ctx, branches@.take(i as int)) == Ok::<
                        Seq<Seq<char>>,
                        ErrorView,
                    >(crate::text::texts(annotations@)),
                decreases branches.len() - i,
            {
                broadcast use crate::text::group_texts;

                assert(branches@.take(i + 1).drop_last() =~= branches@.take(i as int));
                proof {
                    lemma_branch_smaller(*schema, i as int);
                }
                match type_annotation(ctx, &branches[i]) {
                    Ok(annotation) => {
                        annotations.push(annotation);
                    },
                    Err(error) => {
                        proof {
                            lemma_branch_error(*ctx, branches@, i + 1);
                        }
                        return Err(error);
                    },
                }
                i += 1;
            }
            assert(branches@.take(i as int) =~= branches@);
            return Ok(join_union(&annotations));
        },
        None => {},
    }
    proof {
        lemma_items_smaller(*schema);
    }
    if type_is(schema, "string") {
        Ok("string".to_owned())
    } else if type_is(schema, "integer") || type_is(schema, "number") {
        Ok("number".to_owned())
    } else if type_is(schema, "boolean") {
        Ok("boolean".to_owned())
    } else if type_is(schema, "array") {
        match &schema.items {
            Some(items) => match type_annotation(ctx, items) {
                Ok(item) => Ok(element_annotation(item.as_str()).concat("[]")),
                Err(error) => Err(error),
            },
            None => Ok(element_annotation("unknown").concat("[]")),
        }
    } else if type_is(schema, "object") {
        object_annotation(ctx, schema)
    } else if type_is(schema, "null") {
        Ok("null".to_owned())
    } else {
        Ok("unknown".to_owned())
    }
}

proof fn lemma_branch_error(ctx: TsContext, branches: Seq<Schema>, count: int)
    requires
        0 <= count <= branches.len(),
        branch_annotations(ctx, branches.take(count)) is Err,
    ensures
        branch_annotations(ctx, branches) == branch_annotations(ctx, branches.take(count)),
    decreases branches.len() - count,
{
    if count == branches.len() {
        assert(branches.take(count) =~= branches);
    } else {
        assert(branches.take(count + 1).drop_last() =~= branches.take(count));
        lemma_branch_error(ctx, branches, count + 1);
    }
}

/// The type of a schema, or another where it has none.
pub open spec fn annotation_or_else(
    ctx: TsContext,
    schema: Schema,
    other: Seq<char>,
) -> Seq<char> {
    match annotation_of(ctx, schema) {
        Ok(annotation) => annotation,
        Err(_) => other,
    }
}

/// The type of a schema, or another where it has none.
pub fn annotation_or(ctx: &TsContext, schema: &Schema, other: &str) -> (result: String)
    ensures
        result@ == annotation_or_else(*ctx, *schema, other@),
{
    match type_annotation(ctx, schema) {
        Ok(annotation) => annotation,
        Err(_) => other.to_owned(),
    }
}

/// A model that is a map: it declares no members, and what its others are. Members without a
/// schema are of any type.
#[derive(Debug)]
pub struct TsMapShape<'a> {
    pub value_schema: Option<&'a Schema>,
    pub value_annotation: String,
}

/// A [`TsMapShape`] by its contents.
#[verifier::ext_equal]
pub struct MapShape {
    pub value_schema: Option<Schema>,
    pub value_annotation: Seq<char>,
}

impl<'a> View for TsMapShape<'a> {
    type V = MapShape;

    open spec fn view(&self) -> MapShape {
        MapShape {
            value_schema: match self.value_schema {
                Some(schema) => Some(*schema),
                None => None,
            },
            value_annotation: self.value_annotation@,
        }
    }
}

/// The map that a schema describes, where it describes one.
pub open spec fn map_shape(ctx: TsContext, schema: Schema) -> Result<Option<MapShape>, ErrorView> {
    if !crate::json_schema::schema::has_type(schema, "object"@) || has_declared_members(schema) {
        Ok(None)
    } else {
        match member_schema(schema) {
            Err(error) => Err(error),
            Ok(Some(members)) => match annotation_of(ctx, members) {
                Ok(annotation) => Ok(
                    Some(
                        MapShape { value_schema: Some(members), value_annotation: annotation },
                    ),
                ),
                Err(error) => Err(error),
            },
            Ok(None) => if closed_schema(schema) {
                Ok(None)
            } else {
                Ok(Some(MapShape { value_schema: None, value_annotation: "unknown"@ }))
            },
        }
    }
}

/// The map that a schema describes, where it describes one.
pub fn ts_map_shape<'a>(ctx: &TsContext, schema: &'a Schema) -> (result: Result<
    Option<TsMapShape<'a>>,
    Error,
>)
    ensures
        match (result, map_shape(*ctx, *schema)) {
            (Ok(Some(shape)), Ok(Some(wanted))) => shape@ == wanted,
            (Ok(None), Ok(None)) => true,
            (Err(error), Err(wanted)) => error@ == wanted,
            _ => false,
        },
{
    if !type_is(schema, "object") || declares_members(schema) {
        return Ok(None);
    }
    match additional_properties_value_schema(schema) {
        Err(error) => Err(error),
        Ok(Some(members)) => match type_annotation(ctx, members) {
            Ok(annotation) => Ok(
                Some(TsMapShape { value_schema: Some(members), value_annotation: annotation }),
            ),
            Err(error) => Err(error),
        },
        Ok(None) => if is_closed(schema) {
            Ok(None)
        } else {
            Ok(Some(TsMapShape { value_schema: None, value_annotation: "unknown".to_owned() }))
        },
    }
}

/// The object whose members are those of a value, each taken through an expression over
/// `__entry`. The variables carry a suffix.
pub open spec fn entries_expr(
    value_expr: Seq<char>,
    suffix: Seq<char>,
    entry: Seq<char>,
) -> Seq<char> {
    "Object.fromEntries(Object.entries("@ + value_expr + ").map(([__key"@ + suffix + ", __entry"@
        + suffix + "]) => [__key"@ + suffix + ", "@ + entry + "]))"@
}

/// The object whose members are those of a value, each taken through an expression over
/// `__entry`. The variables carry a suffix.
pub fn map_entries_expr(value_expr: &str, suffix: &str, entry: &str) -> (result: String)
    ensures
        result@ == entries_expr(value_expr@, suffix@, entry@),
{
    "Object.fromEntries(Object.entries(".to_owned().concat(value_expr).concat(").map(([__key")
        .concat(suffix).concat(", __entry").concat(suffix).concat("]) => [__key").concat(suffix)
        .concat(", ").concat(entry).concat("]))")
}

/// An expression whose failure is collected under a path.
pub open spec fn collected_expr(expr: Seq<char>, path_expr: Seq<char>) -> Seq<char> {
    "(() => { try { return "@ + expr
        + "; } catch (error) { __nexgenDefinitions.collect(violations, "@ + path_expr
        + ", error); return undefined; } })()"@
}

/// An expression whose failure is collected under a path.
pub fn collect_serialize_expr(expr: &str, path_expr: &str) -> (result: String)
    ensures
        result@ == collected_expr(expr@, path_expr@),
{
    "(() => { try { return ".to_owned().concat(expr)
        .concat("; } catch (error) { __nexgenDefinitions.collect(violations, ").concat(path_expr)
        .concat(", error); return undefined; } })()")
}

/// The call of a converter that writes a value. Where there is a path, its failure is collected
/// under that.
pub open spec fn converter_call(
    converter: Seq<char>,
    argument: Seq<char>,
    path: Option<Seq<char>>,
) -> Seq<char> {
    let call = converter + ".toTransferType("@ + argument + ")"@;
    match path {
        Some(path_expr) => collected_expr(call, path_expr),
        None => call,
    }
}

/// The call of a converter that writes a value. Where there is a path, its failure is collected
/// under that.
pub fn write_call(converter: &str, argument: &str, path: &Option<String>) -> (result: String)
    ensures
        result@ == converter_call(converter@, argument@, crate::text::opt_text(*path)),
{
    let call = converter.to_owned().concat(".toTransferType(").concat(argument).concat(")");
    match path {
        Some(path_expr) => collect_serialize_expr(call.as_str(), path_expr.as_str()),
        None => call,
    }
}

/// The path of an element under an optional path of its array.
pub open spec fn element_path(path: Option<Seq<char>>, index: Seq<char>) -> Option<Seq<char>> {
    match path {
        Some(path_expr) => Some(crate::json_schema::ts_text::indexed_path(path_expr, index)),
        None => None,
    }
}

/// The path of an element under an optional path of its array.
pub fn path_of_element(path: &Option<String>, index: &str) -> (result: Option<String>)
    ensures
        crate::text::opt_text(result) == element_path(crate::text::opt_text(*path), index@),
{
    match path {
        Some(path_expr) => Some(ts_indexed_path(path_expr.as_str(), index)),
        None => None,
    }
}

/// The path of a member under an optional path of its map.
pub open spec fn entry_path(path: Option<Seq<char>>, key: Seq<char>) -> Option<Seq<char>> {
    match path {
        Some(path_expr) => Some(crate::json_schema::ts_text::keyed_path(path_expr, key)),
        None => None,
    }
}

/// The path of a member under an optional path of its map.
pub fn path_of_entry(path: &Option<String>, key: &str) -> (result: Option<String>)
    ensures
        crate::text::opt_text(result) == entry_path(crate::text::opt_text(*path), key@),
{
    match path {
        Some(path_expr) => Some(ts_keyed_path(path_expr.as_str(), key)),
        None => None,
    }
}

/// The array whose elements are those of a value, each taken through an expression. The index is a
/// variable where paths are collected.
pub open spec fn elements_expr(
    value_expr: Seq<char>,
    element: Seq<char>,
    index: Option<Seq<char>>,
    expr: Seq<char>,
) -> Seq<char> {
    let variables = match index {
        Some(index) => element + ", "@ + index,
        None => element,
    };
    value_expr + ".map(("@ + variables + ") => "@ + expr + ")"@
}

/// The array whose elements are those of a value, each taken through an expression. The index is a
/// variable where paths are collected.
pub fn map_elements_expr(value_expr: &str, element: &str, index: Option<&str>, expr: &str) -> (
    result: String)
    ensures
        result@ == elements_expr(
            value_expr@,
            element@,
            (match index {
                Some(index) => Some(index@),
                None => None,
            }),
            expr@,
        ),
{
    let variables = match index {
        Some(index) => element.to_owned().concat(", ").concat(index),
        None => element.to_owned(),
    };
    value_expr.to_owned().concat(".map((").concat(variables.as_str()).concat(") => ").concat(expr)
        .concat(")")
}

/// The expression for the wire form of a value. Where there is a path, the failures of the
/// converters inside it are collected under their paths. The variables of arrays and maps carry
/// how deep they stand; `follow` bounds how many references are followed from one union into
/// another.
pub open spec fn wire_form(
    ctx: TsContext,
    schema: Schema,
    value_expr: Seq<char>,
    path: Option<Seq<char>>,
    depth: u64,
    follow: u128,
) -> Seq<char>
    decreases follow, schema, 1nat, 0nat,
{
    proof {
        lemma_non_null_smaller(schema);
        lemma_items_smaller(schema);
        lemma_members_smaller(schema);
    }
    let suffix = crate::json_schema::ts_text::depth_suffix(depth);
    let inside = crate::json_schema::ts_text::deeper(depth);
    match schema.reference {
        Some(reference) => converter_call(
            crate::json_schema::ts_text::converter_name(
                crate::json_schema::ts_text::referenced_model(ctx, reference@),
            ),
            value_expr,
            path,
        ),
        None => match crate::json_schema::schema::temporal_kind_of(schema) {
            Some(kind) => crate::json_schema::ts_text::temporal_wire_text(
                kind,
                ctx.repr,
                value_expr,
            ),
            None => match crate::json_schema::schema::content_encoding_of(schema) {
                Some(encoding) => crate::json_schema::ts_text::encode_fn_text(encoding) + "("@
                    + value_expr + ")"@,
                None => if is_union(schema) {
                    match crate::json_schema::union::union_of(ctx, Seq::empty(), schema) {
                        Some(union) => null_kept(
                            union.nullable,
                            value_expr,
                            union_form(
                                ctx,
                                schema,
                                value_expr,
                                path,
                                depth,
                                follow,
                                union.variants.len(),
                            ),
                        ),
                        None => value_expr,
                    }
                } else {
                    let through = match nullable_branch_of(schema) {
                        Some(branch) => null_kept(
                            true,
                            value_expr,
                            wire_form(ctx, branch, value_expr, path, depth, follow),
                        ),
                        None => value_expr,
                    };
                    let element = "element"@ + suffix;
                    let index = "index"@ + suffix;
                    let elements = match schema.items {
                        Some(items) => if crate::json_schema::schema::has_type(schema, "array"@) {
                            wire_form(
                                ctx,
                                *items,
                                element,
                                element_path(path, index),
                                inside,
                                follow,
                            )
                        } else {
                            element
                        },
                        None => element,
                    };
                    let entry = "__entry"@ + suffix;
                    let entries = match map_values(schema) {
                        Some(members) => wire_form(
                            ctx,
                            members,
                            entry,
                            entry_path(path, "__key"@ + suffix),
                            inside,
                            follow,
                        ),
                        None => entry,
                    };
                    if through != value_expr {
                        through
                    } else if elements != element {
                        elements_expr(
                            value_expr,
                            element,
                            if path is Some {
                                Some(index)
                            } else {
                                None
                            },
                            elements,
                        )
                    } else if entries != entry {
                        entries_expr(value_expr, suffix, entries)
                    } else {
                        value_expr
                    }
                },
            },
        },
    }
}

/// An expression for the wire form of a value that may be `null`. One that changes nothing is left
/// as it is.
pub open spec fn null_kept(nullable: bool, value_expr: Seq<char>, expr: Seq<char>) -> Seq<char> {
    if nullable && expr != value_expr {
        value_expr + " === null ? null : "@ + expr
    } else {
        expr
    }
}

/// An expression for the wire form of a value that may be `null`. One that changes nothing is left
/// as it is.
pub fn keep_null(nullable: bool, value_expr: &str, expr: &str) -> (result: String)
    ensures
        result@ == null_kept(nullable, value_expr@, expr@),
{
    if nullable && !text_eq(expr, value_expr) {
        value_expr.to_owned().concat(" === null ? null : ").concat(expr)
    } else {
        expr.to_owned()
    }
}

/// The condition that selects an object out of the values of a union: its tag where the objects
/// are told apart by one. Without tags the first object stands for all.
pub open spec fn object_condition(
    union: crate::json_schema::union::UnionView,
    index: int,
    value_expr: Seq<char>,
) -> Option<Seq<char>> {
    match (union.discriminant, union.variants[index].discriminant_value) {
        (Some(name), Some(value)) => Some(
            "__nexgenDefinitions.isPlainObject("@ + value_expr + ") && ("@ + value_expr
                + " as unknown as Record<string, unknown>)["@
                + crate::json_schema::ts_text::string_literal(name) + "] === "@
                + crate::json_schema::ts_text::value_literal(value),
        ),
        _ => if crate::json_schema::parse::first_object(union.variants) == Some(index) {
            Some("__nexgenDefinitions.isPlainObject("@ + value_expr + ")"@)
        } else {
            None
        },
    }
}

fn select_object(union: &TsUnion, index: usize, value_expr: &str) -> (result: Option<String>)
    requires
        index < union.variants@.len(),
    ensures
        crate::text::opt_text(result) == object_condition(union@, index as int, value_expr@),
{
    let variant = &union.variants[index];
    assert(union@.variants[index as int] == variant@);
    match (&union.discriminant, &variant.discriminant_value) {
        (Some(name), Some(value)) => Some(
            "__nexgenDefinitions.isPlainObject(".to_owned().concat(value_expr).concat(") && (")
                .concat(value_expr).concat(" as unknown as Record<string, unknown>)[")
                .concat(typescript_string_literal(name.as_str()).as_str()).concat("] === ")
                .concat(typescript_value_literal(value).as_str()),
        ),
        _ => match find_first_object(&union.variants) {
            Some(first) => if first == index {
                Some(
                    "__nexgenDefinitions.isPlainObject(".to_owned().concat(value_expr).concat(")"),
                )
            } else {
                None
            },
            None => None,
        },
    }
}

/// The expression for the wire form of the value of a union, for the last of its members: each
/// that has another form on the wire than in memory, behind the condition that selects it.
pub open spec fn union_form(
    ctx: TsContext,
    schema: Schema,
    value_expr: Seq<char>,
    path: Option<Seq<char>>,
    depth: u64,
    follow: u128,
    left: nat,
) -> Seq<char>
    decreases follow, schema, 0nat, left,
        when crate::json_schema::union::union_of(ctx, Seq::empty(), schema) matches Some(union)
            && left <= union.variants.len()
{
    if left == 0 {
        value_expr
    } else {
        let union = crate::json_schema::union::union_of(ctx, Seq::empty(), schema)->Some_0;
        let index = union.variants.len() - left;
        let variant = union.variants[index];
        proof {
            if !variant.followed {
                crate::json_schema::union::lemma_variant_smaller(
                    ctx,
                    Seq::empty(),
                    schema,
                    index,
                );
            }
        }
        let rest = union_form(ctx, schema, value_expr, path, depth, follow, (left - 1) as nat);
        let member = "("@ + value_expr + " as "@ + variant.ts_type + ")"@;
        let condition = if variant.is_object {
            object_condition(union, index, value_expr)
        } else if variant.is_array {
            Some("Array.isArray("@ + value_expr + ")"@)
        } else {
            None
        };
        let expr = match variant.converter {
            Some(converter) => converter_call(
                converter,
                value_expr + " as unknown as "@ + variant.ts_type,
                path,
            ),
            None => if !variant.is_object && !variant.is_array {
                member
            } else if !variant.followed {
                wire_form(ctx, variant.schema, member, path, depth, follow)
            } else if follow > 0 {
                wire_form(ctx, variant.schema, member, path, depth, (follow - 1) as u128)
            } else {
                member
            },
        };
        chosen_form(condition, expr, member, rest)
    }
}

/// One choice of an expression: behind its condition, where it has one and changes anything.
pub open spec fn chosen_form(
    condition: Option<Seq<char>>,
    expr: Seq<char>,
    member: Seq<char>,
    rest: Seq<char>,
) -> Seq<char> {
    match condition {
        Some(condition) => if expr != member {
            condition + " ? "@ + expr + " : "@ + rest
        } else {
            rest
        },
        None => rest,
    }
}

fn choose_form(condition: &Option<String>, expr: &str, member: &str, rest: &str) -> (result: String)
    ensures
        result@ == chosen_form(crate::text::opt_text(*condition), expr@, member@, rest@),
{
    match condition {
        Some(condition) => if !text_eq(expr, member) {
            condition.clone().concat(" ? ").concat(expr).concat(" : ").concat(rest)
        } else {
            rest.to_owned()
        },
        None => rest.to_owned(),
    }
}

/// The expression for the wire form of a value, with a bound on the references that are followed.
fn write_form(
    ctx: &TsContext,
    schema: &Schema,
    value_expr: &str,
    path: &Option<String>,
    depth: u64,
    follow: u128,
) -> (result: String)
    ensures
        result@ == wire_form(
            *ctx,
            *schema,
            value_expr@,
            crate::text::opt_text(*path),
            depth,
            follow,
        ),
    decreases follow, schema, 1nat,
{
    proof {
        lemma_non_null_smaller(*schema);
        lemma_items_smaller(*schema);
        lemma_members_smaller(*schema);
    }
    match &schema.reference {
        Some(reference) => {
            let model_name = reference_model_name(ctx, reference.as_str());
            let converter = ts_transfer_type_converter_name(model_name.as_str());
            return write_call(converter.as_str(), value_expr, path);
        },
        None => {},
    }
    match temporal_kind_direct(schema) {
        Some(kind) => {
            return ts_temporal_serialize_call(kind, ctx.repr, value_expr);
        },
        None => {},
    }
    match content_encoding_direct(schema) {
        Some(encoding) => {
            return ts_content_encoding_serialize_fn(encoding).concat("(").concat(
                value_expr,
            ).concat(")");
        },
        None => {},
    }
    if is_ts_union(schema) {
        return write_union_form(ctx, schema, value_expr, path, depth, follow);
    }
    match nullable_non_null_schema(schema) {
        Some(branch) => {
            let inner = write_form(ctx, branch, value_expr, path, depth, follow);
            let through = keep_null(true, value_expr, inner.as_str());
            if !text_eq(through.as_str(), value_expr) {
                return through;
            }
        },
        None => {},
    }
    let suffix = ts_depth_suffix(depth);
    let inside = next_depth(depth);
    match &schema.items {
        Some(items) => {
            if type_is(schema, "array") {
                let element = "element".to_owned().concat(suffix.as_str());
                let index = "index".to_owned().concat(suffix.as_str());
                let item_path = path_of_element(path, index.as_str());
                let expr = write_form(ctx, items, element.as_str(), &item_path, inside, follow);
                if !text_eq(expr.as_str(), element.as_str()) {
                    let counted = if path.is_some() {
                        Some(index.as_str())
                    } else {
                        None
                    };
                    return map_elements_expr(value_expr, element.as_str(), counted, expr.as_str());
                }
            }
        },
        None => {},
    }
    match map_value_schema(schema) {
        Some(members) => {
            let entry = "__entry".to_owned().concat(suffix.as_str());
            let key = "__key".to_owned().concat(suffix.as_str());
            let member_path = path_of_entry(path, key.as_str());
            let expr = write_form(ctx, members, entry.as_str(), &member_path, inside, follow);
            if !text_eq(expr.as_str(), entry.as_str()) {
                return map_entries_expr(value_expr, suffix.as_str(), expr.as_str());
            }
        },
        None => {},
    }
    value_expr.to_owned()
}

fn write_union_form(
    ctx: &TsContext,
    schema: &Schema,
    value_expr: &str,
    path: &Option<String>,
    depth: u64,
    follow: u128,
) -> (result: String)
    ensures
        result@ == (match crate::json_schema::union::union_of(*ctx, Seq::empty(), *schema) {
            Some(union) => null_kept(
                union.nullable,
                value_expr@,
                union_form(
                    *ctx,
                    *schema,
                    value_expr@,
                    crate::text::opt_text(*path),
                    depth,
                    follow,
                    union.variants.len(),
                ),
            ),
            None => value_expr@,
        }),
    decreases follow, schema, 0nat,
{
    let models: Vec<JsonModel> = Vec::new();
    assert(models@ =~= Seq::empty());
    match classify_ts_union(ctx, schema, &models) {
        Some(union) => {
            let ghost wanted = crate::json_schema::union::union_of(
                *ctx,
                Seq::empty(),
                *schema,
            )->Some_0;
            let count = union.variants.len();
            let mut rest = value_expr.to_owned();
            let mut left: usize = 0;
            while left < count
                invariant
                    left <= count,
                    count == union.variants@.len(),
                    crate::json_schema::union::union_of(*ctx, Seq::empty(), *schema) == Some(
                        wanted,
                    ),
                    union@ == wanted,
                    rest@ == union_form(
                        *ctx,
                        *schema,
                        value_expr@,
                        crate::text::opt_text(*path),
                        depth,
                        follow,
                        left as nat,
                    ),
                decreases count - left,
            {
                let index: usize = count - left - 1;
                let variant = &union.variants[index];
                assert(wanted.variants[index as int] == variant@);
                proof {
                    if !variant.followed {
                        crate::json_schema::union::lemma_variant_smaller(
                            *ctx,
                            Seq::empty(),
                            *schema,
                            index as int,
                        );
                    }
                }
                let member = "(".to_owned().concat(value_expr).concat(" as ").concat(
                    variant.ts_type.as_str(),
                ).concat(")");
                let condition = if variant.is_object {
                    select_object(&union, index, value_expr)
                } else if variant.is_array {
                    Some("Array.isArray(".to_owned().concat(value_expr).concat(")"))
                } else {
                    None
                };
                let expr = match &variant.converter {
                    Some(converter) => {
                        let argument = value_expr.to_owned().concat(" as unknown as ").concat(
                            variant.ts_type.as_str(),
                        );
                        write_call(converter.as_str(), argument.as_str(), path)
                    },
                    None => if !variant.is_object && !variant.is_array {
                        member.clone()
                    } else if !variant.followed {
                        write_form(ctx, variant.schema, member.as_str(), path, depth, follow)
                    } else if follow > 0 {
                        write_form(ctx, variant.schema, member.as_str(), path, depth, follow - 1)
                    } else {
                        member.clone()
                    },
                };
                rest = choose_form(
                    &condition,
                    expr.as_str(),
                    member.as_str(),
                    rest.as_str(),
                );
                left += 1;
            }
            keep_null(union.nullable, value_expr, rest.as_str())
        },
        None => value_expr.to_owned(),
    }
}

/// The expression for the wire form of a value that stands in others. The variables of arrays and
/// maps carry how deep they stand.
pub open spec fn wire_expr_at(
    ctx: TsContext,
    schema: Schema,
    value_expr: Seq<char>,
    depth: u64,
) -> Seq<char> {
    wire_form(ctx, schema, value_expr, None, depth, crate::json_schema::fields::follow_limit(ctx))
}

/// The expression for the wire form of a value that stands in others. The variables of arrays and
/// maps carry how deep they stand.
pub fn serialize_expr_at_depth(
    ctx: &TsContext,
    schema: &Schema,
    value_expr: &str,
    depth: u64,
) -> (result: String)
    ensures
        result@ == wire_expr_at(*ctx, *schema, value_expr@, depth),
{
    let none: Option<String> = None;
    write_form(ctx, schema, value_expr, &none, depth, reference_limit(ctx))
}

/// The expression for the wire form of a value.
pub open spec fn wire_expr(ctx: TsContext, schema: Schema, value_expr: Seq<char>) -> Seq<char> {
    wire_expr_at(ctx, schema, value_expr, 0)
}

/// The expression for the wire form of a value.
pub fn serialize_expr(ctx: &TsContext, schema: &Schema, value_expr: &str) -> (result: String)
    ensures
        result@ == wire_expr(*ctx, *schema, value_expr@),
{
    serialize_expr_at_depth(ctx, schema, value_expr, 0)
}

/// The expression for the wire form of a value, with the failures of the converters inside it
/// collected under their paths.
pub open spec fn collecting_wire_expr(
    ctx: TsContext,
    schema: Schema,
    value_expr: Seq<char>,
    path_expr: Seq<char>,
) -> Seq<char> {
    wire_form(
        ctx,
        schema,
        value_expr,
        Some(path_expr),
        0,
        crate::json_schema::fields::follow_limit(ctx),
    )
}

/// The expression for the wire form of a value, with the failures of the converters inside it
/// collected under their paths.
pub fn serialize_expr_collecting(
    ctx: &TsContext,
    schema: &Schema,
    value_expr: &str,
    path_expr: &str,
) -> (result: String)
    ensures
        result@ == collecting_wire_expr(*ctx, *schema, value_expr@, path_expr@),
{
    let path = Some(path_expr.to_owned());
    write_form(ctx, schema, value_expr, &path, 0, reference_limit(ctx))
}

} // verus!
