//! The TypeScript declarations and converters of JSON models.

use vstd::prelude::*;

use crate::error::{Error, ErrorView};
use crate::json_schema::annotation::{
    additional_properties_annotation, additional_properties_value_schema, allows_null,
    collect_serialize_expr, declares_members, is_closed, is_open_object, is_ts_union,
    map_value_schema, non_null_branch, nullable_non_null_schema, optional_type_annotation,
    schema_type_includes, serialize_expr, serialize_expr_collecting, ts_map_shape, type_annotation,
    TsMapShape,
};
use crate::json_schema::checks::{
    indented_lines, render_ts_dependent_required, render_ts_property_count_checks,
    render_ts_property_name_checks,
};
use crate::json_schema::fields::{
    field_needs_serialize_check, model_needs_serialize_validation, reference_limit,
    render_ts_member_check, render_ts_serialize_property_check, render_ts_union_value_checks,
};
use crate::json_schema::parse::{
    render_const_parser, render_enum_parser, render_ts_union_parse, render_value_parser,
};
use crate::json_schema::schema::{
    content_encoding_direct, encoding_from_name, temporal_kind_direct, temporal_kind_from_name,
    temporal_serializes_non_identity, ts_member_name, Property, Schema, TemporalKind,
};
use crate::json_schema::ts_text::{
    declared_fields_const_name, reference_model_name, ts_content_encoding_parse_fn, ts_has_own,
    ts_index_access, ts_member_conflicts_with_object_prototype, ts_temporal_parse_fn,
    ts_transfer_type_converter_name, typescript_object_key, typescript_string_literal,
    typescript_value_literal, typescript_violation_path_literal, JsonModel, ReadSchema, TsContext,
};
use crate::json_schema::union::{
    admissible, classify_ts_union, requires_member, TsUnion, TsUnionVariant,
};
use crate::json_schema::value::JsonValue;
use crate::naming::{to_shouty_snake, to_upper_camel};
use crate::output::TsDateTimeTypes;
use crate::text::{join_texts, replace_text, split_lines, text_eq, trim, with_lines};

verus! {

/// The error for the schema of a model that cannot be read.
pub open spec fn unreadable_model_error(full_name: Seq<char>, reason: Seq<char>) -> ErrorView {
    ErrorView::InvalidJsonSchema {
        path: "<json-generator>"@,
        reason: "failed to read planned JSON schema `"@ + full_name + "`: "@ + reason,
    }
}

fn unreadable_model(full_name: &str, reason: &str) -> (error: Error)
    ensures
        error@ == unreadable_model_error(full_name@, reason@),
{
    Error::InvalidJsonSchema {
        path: "<json-generator>".to_owned(),
        reason: "failed to read planned JSON schema `".to_owned().concat(full_name).concat(
            "`: ",
        ).concat(reason),
    }
}

/// The schema of a model.
pub open spec fn decoded(model: JsonModel) -> Result<Schema, ErrorView> {
    match model.schema {
        ReadSchema::Read(schema) => Ok(schema),
        ReadSchema::Unreadable(reason) => Err(
            unreadable_model_error(model.full_name@, reason@),
        ),
    }
}

/// The schema of a model.
pub fn decode_schema(model: &JsonModel) -> (result: Result<&Schema, Error>)
    ensures
        match (result, decoded(*model)) {
            (Ok(found), Ok(wanted)) => *found == wanted,
            (Err(error), Err(wanted)) => error@ == wanted,
            _ => false,
        },
{
    match &model.schema {
        ReadSchema::Read(schema) => Ok(schema),
        ReadSchema::Unreadable(reason) => Err(
            unreadable_model(model.full_name.as_str(), reason.as_str()),
        ),
    }
}

/// The first error among the schemas of models.
pub open spec fn first_unreadable(models: Seq<JsonModel>) -> Option<ErrorView>
    decreases models.len(),
{
    if models.len() == 0 {
        None
    } else {
        match decoded(models[0]) {
            Ok(_) => first_unreadable(models.drop_first()),
            Err(error) => Some(error),
        }
    }
}

fn check_readable(models: &Vec<JsonModel>) -> (result: Option<Error>)
    ensures
        match (result, first_unreadable(models@)) {
            (Some(error), Some(wanted)) => error@ == wanted,
            (None, None) => true,
            _ => false,
        },
{
    let mut i: usize = 0;
    assert(models@.skip(0) =~= models@);
    while i < models.len()
        invariant
            i <= models.len(),
            first_unreadable(models@) == first_unreadable(models@.skip(i as int)),
        decreases models.len() - i,
    {
        assert(models@.skip(i as int).drop_first() =~= models@.skip(i + 1));
        match decode_schema(&models[i]) {
            Ok(_) => {},
            Err(error) => {
                return Some(error);
            },
        }
        i += 1;
    }
    None
}

/// The lines of a documentation comment.
pub open spec fn doc_line_texts(lines: Seq<Seq<char>>, indent: Seq<char>) -> Seq<char>
    decreases lines.len(),
{
    if lines.len() == 0 {
        Seq::empty()
    } else {
        let line = lines.last();
        doc_line_texts(lines.drop_last(), indent) + (
            if line.len() == 0 {
                indent + " *\n"@
            } else {
                indent + " * "@ + crate::text::replaced_text(line, "*/"@, "*\\/"@) + "\n"@
            }
        )
    }
}

/// The lines of a documentation comment.
pub fn doc_lines(lines: &Vec<String>, indent: &str) -> (result: String)
    ensures
        result@ == doc_line_texts(crate::text::texts(lines@), indent@),
{
    let mut result: String = String::new();
    let mut i: usize = 0;
    while i < lines.len()
        invariant
            i <= lines.len(),
            result@ == doc_line_texts(crate::text::texts(lines@).take(i as int), indent@),
        decreases lines.len() - i,
    {
        proof {
            assert(
                crate::text::texts(lines@).take(i + 1).drop_last()
                    =~= crate::text::texts(lines@).take(i as int)
            );
            assert(
                crate::text::texts(lines@).take(i + 1).last()
                    == crate::text::texts(lines@)[i as int]
            );
        }
        let line = lines[i].as_str();
        let part = {
        if line.is_empty() {
            indent.to_owned().concat(" *\n")
        } else {
            indent.to_owned().concat(" * ").concat(replace_text(line, "*/", "*\\/").as_str())
                .concat("\n")
        }
        };
        result.append(part.as_str());
        i += 1;
    }
    proof {
        crate::text::lemma_take_all(crate::text::texts(lines@));
    }
    result
}

/// A documentation comment of the lines; none where there are no lines.
pub open spec fn doc_comment(indent: Seq<char>, lines: Seq<Seq<char>>) -> Seq<char> {
    if lines.len() == 0 {
        Seq::<char>::empty()
    } else {
        let body = doc_line_texts(lines, indent);
        (indent + "/**\n"@ + body + indent + " */\n"@)
    }
}

/// A documentation comment of the lines; none where there are no lines.
pub fn render_typescript_doc_comment(indent: &str, lines: &Vec<String>) -> (result: String)
    ensures
        result@ == doc_comment(indent@, crate::text::texts(lines@)),
{
    if lines.len() == 0 {
        String::new()
    } else {
        let body = doc_lines(lines, indent);
        indent.to_owned().concat("/**\n").concat(body.as_str()).concat(indent).concat(" */\n")
    }
}

/// The lines of a text without the blanks around it; none where nothing is left.
pub open spec fn paragraph_lines(text: Option<Seq<char>>) -> Seq<Seq<char>> {
    match text {
        Some(text) => {
            let trimmed = crate::text::trimmed(text);
            if trimmed.len() == 0 {
                Seq::<Seq<char>>::empty()
            } else {
                crate::text::lines_of(trimmed)
            }
        },
        None => Seq::<Seq<char>>::empty(),
    }
}

/// The lines of a text without the blanks around it; none where nothing is left.
pub fn doc_paragraph(text: &Option<String>) -> (result: Vec<String>)
    ensures
        crate::text::texts(result@) == paragraph_lines(crate::text::opt_text(*text)),
{
    match text {
        Some(text) => {
            let trimmed = trim(text.as_str());
            if trimmed.as_str().is_empty() {
                Vec::new()
            } else {
                split_lines(trimmed.as_str())
            }
        },
        None => Vec::new(),
    }
}

/// A line, where it is wanted.
pub open spec fn wanted_line(wanted: bool, line: Seq<char>) -> Seq<Seq<char>> {
    if wanted {
        seq![line]
    } else {
        Seq::<Seq<char>>::empty()
    }
}

/// A line, where it is wanted.
pub fn line_if(wanted: bool, line: &str) -> (result: Vec<String>)
    ensures
        crate::text::texts(result@) == wanted_line(wanted, line@),
{
    if wanted {
        vec![line.to_owned()]
    } else {
        Vec::new()
    }
}

/// Whether a schema is deprecated.
pub open spec fn deprecated_schema(schema: Schema) -> bool {
    match schema.deprecated {
        Some(deprecated) => deprecated,
        None => false,
    }
}

/// Whether a schema is deprecated.
pub fn is_deprecated(schema: &Schema) -> (result: bool)
    ensures
        result == deprecated_schema(*schema),
{
    match schema.deprecated {
        Some(deprecated) => deprecated,
        None => false,
    }
}

/// The documentation of a schema: its title, its description, and whether it is deprecated.
pub open spec fn schema_doc(indent: Seq<char>, schema: Schema) -> Seq<char> {
    let title = paragraph_lines(crate::text::opt_text(schema.title));
    let description = paragraph_lines(crate::text::opt_text(schema.description));
    let gap = wanted_line(title.len() > 0 && description.len() > 0, ""@);
    let tags = wanted_line(deprecated_schema(schema), "@deprecated"@);
    let lines = title + gap + description + tags;
    doc_comment(indent, lines)
}

/// The documentation of a schema: its title, its description, and whether it is deprecated.
pub fn render_ts_schema_doc(indent: &str, schema: &Schema) -> (result: String)
    ensures
        result@ == schema_doc(indent@, *schema),
{
    let title = doc_paragraph(&schema.title);
    let description = doc_paragraph(&schema.description);
    let gap = line_if(title.len() > 0 && description.len() > 0, "");
    let tags = line_if(is_deprecated(schema), "@deprecated");
    let lines = with_lines(with_lines(with_lines(title, gap), description), tags);
    render_typescript_doc_comment(indent, &lines)
}

/// Whether the wire string of a property is held in another form in memory.
pub open spec fn materialized_property(property: Schema) -> bool {
    crate::json_schema::schema::temporal_kind_of(property) is Some
        || crate::json_schema::schema::content_encoding_of(property) is Some
        || match crate::json_schema::annotation::nullable_branch_of(property) {
        Some(branch) => crate::json_schema::schema::temporal_kind_of(branch) is Some
            || crate::json_schema::schema::content_encoding_of(branch) is Some,
        None => false,
    }
}

/// Whether the wire string of a property is held in another form in memory.
pub fn is_materialized_property(property: &Schema) -> (result: bool)
    ensures
        result == materialized_property(*property),
{
    temporal_kind_direct(property).is_some()
        || content_encoding_direct(property).is_some()
        || match nullable_non_null_schema(property) {
        Some(branch) => temporal_kind_direct(branch).is_some()
            || content_encoding_direct(branch).is_some(),
        None => false,
    }
}

/// Which constants a name may collide with.
#[derive(Debug, Clone, Copy, PartialEq, Eq, Structural)]
pub enum ConstNameCollisionKind {
    Const,
    Default,
}

/// Whether a property gives a constant of a kind under the identifier of a member.
pub open spec fn claims_name(
    property: Property,
    member_ident: Seq<char>,
    kind: ConstNameCollisionKind,
) -> bool {
    let name = crate::json_schema::schema::member_name_text(property.schema, property.name@);
    (name == member_ident) && match kind {
        ConstNameCollisionKind::Const => property.schema.const_value.is_some(),
        ConstNameCollisionKind::Default => property.schema.default.is_some(),
    }
}

/// Whether a property gives a constant of a kind under the identifier of a member.
pub fn claims_constant(
    property: &Property,
    member_ident: &str,
    kind: ConstNameCollisionKind,
) -> (result: bool)
    ensures
        result == claims_name(*property, member_ident@, kind),
{
    let name = ts_member_name(&property.schema, property.name.as_str());
    text_eq(name.as_str(), member_ident) && match kind {
        ConstNameCollisionKind::Const => property.schema.const_value.is_some(),
        ConstNameCollisionKind::Default => property.schema.default.is_some(),
    }
}

/// Whether one of the properties gives a constant of a kind under the identifier of a member.
pub open spec fn some_claims_name(
    properties: Seq<Property>,
    member_ident: Seq<char>,
    kind: ConstNameCollisionKind,
) -> bool {
    exists|i: int| 0 <= i < properties.len() && claims_name(
        #[trigger] properties[i],
        member_ident,
        kind,
    )
}

fn any_claims_constant(
    properties: &Vec<Property>,
    member_ident: &str,
    kind: ConstNameCollisionKind,
) -> (found: bool)
    ensures
        found == some_claims_name(properties@, member_ident@, kind),
{
    let mut i: usize = 0;
    while i < properties.len()
        invariant
            i <= properties.len(),
            forall|k: int|
                0 <= k < i ==> !claims_name(#[trigger] properties@[k], member_ident@, kind),
        decreases properties.len() - i,
    {
        if claims_constant(&properties[i], member_ident, kind) {
            return true;
        }
        i += 1;
    }
    false
}

/// Whether a model gives a constant of a kind under the identifier of a member.
pub open spec fn model_claims_name(
    model: JsonModel,
    member_ident: Seq<char>,
    kind: ConstNameCollisionKind,
) -> bool {
    match model.schema {
        ReadSchema::Read(schema) => match schema.properties {
            Some(properties) => some_claims_name(properties@, member_ident, kind),
            None => false,
        },
        ReadSchema::Unreadable(_) => false,
    }
}

/// Whether a model gives a constant of a kind under the identifier of a member.
pub fn model_claims_constant(
    model: &JsonModel,
    member_ident: &str,
    kind: ConstNameCollisionKind,
) -> (result: bool)
    ensures
        result == model_claims_name(*model, member_ident@, kind),
{
    match &model.schema {
        ReadSchema::Read(schema) => match &schema.properties {
            Some(properties) => any_claims_constant(properties, member_ident, kind),
            None => false,
        },
        ReadSchema::Unreadable(_) => false,
    }
}

/// How many models give a constant of a kind under the identifier of a member.
pub open spec fn claim_count(
    models: Seq<JsonModel>,
    member_ident: Seq<char>,
    kind: ConstNameCollisionKind,
) -> nat
    decreases models.len(),
{
    if models.len() == 0 {
        0
    } else {
        claim_count(models.drop_last(), member_ident, kind) + if model_claims_name(
            models.last(),
            member_ident,
            kind,
        ) {
            1nat
        } else {
            0nat
        }
    }
}

fn count_claims(
    models: &Vec<JsonModel>,
    member_ident: &str,
    kind: ConstNameCollisionKind,
) -> (count: usize)
    ensures
        count == claim_count(models@, member_ident@, kind),
{
    let mut count: usize = 0;
    let mut i: usize = 0;
    while i < models.len()
        invariant
            i <= models.len(),
            count <= i,
            count == claim_count(models@.take(i as int), member_ident@, kind),
        decreases models.len() - i,
    {
        assert(models@.take(i + 1).drop_last() =~= models@.take(i as int));
        if model_claims_constant(&models[i], member_ident, kind) {
            count += 1;
        }
        i += 1;
    }
    assert(models@.take(i as int) =~= models@);
    count
}

/// The name of a constant after the identifier of a member, with the model's name before it
/// unless one model alone gives such a constant.
pub open spec fn claimed_name_text(
    model_name: Seq<char>,
    member_ident: Seq<char>,
    models: Seq<JsonModel>,
    kind: ConstNameCollisionKind,
    prefix: Seq<char>,
    suffix: Seq<char>,
) -> Seq<char> {
    let member = crate::naming::shouty_snake(member_ident);
    if claim_count(models, member_ident, kind) == 1 {
        prefix + member + suffix
    } else {
        prefix + crate::naming::shouty_snake(model_name) + "_"@ + member + suffix
    }
}

/// The name of a constant after the identifier of a member, with the model's name before it
/// unless one model alone gives such a constant.
pub fn claimed_name(
    model_name: &str,
    member_ident: &str,
    models: &Vec<JsonModel>,
    kind: ConstNameCollisionKind,
    prefix: &str,
    suffix: &str,
) -> (result: String)
    ensures
        result@ == claimed_name_text(model_name@, member_ident@, models@, kind, prefix@, suffix@),
{
    let member = to_shouty_snake(member_ident);
    if count_claims(models, member_ident, kind) == 1 {
        prefix.to_owned().concat(member.as_str()).concat(suffix)
    } else {
        prefix.to_owned().concat(to_shouty_snake(model_name).as_str()).concat("_")
            .concat(member.as_str()).concat(suffix)
    }
}

/// The name of a constant after the identifier of a member; no name where the schema of a model
/// cannot be read.
pub open spec fn constant_name(
    model_name: Seq<char>,
    member_ident: Seq<char>,
    models: Seq<JsonModel>,
    kind: ConstNameCollisionKind,
    prefix: Seq<char>,
    suffix: Seq<char>,
) -> Result<Seq<char>, ErrorView> {
    match first_unreadable(models) {
        Some(error) => Err(error),
        None => Ok(claimed_name_text(model_name, member_ident, models, kind, prefix, suffix)),
    }
}

/// The name of a constant after the identifier of a member; no name where the schema of a model
/// cannot be read.
pub fn const_name(
    model_name: &str,
    member_ident: &str,
    models: &Vec<JsonModel>,
    kind: ConstNameCollisionKind,
    prefix: &str,
    suffix: &str,
) -> (result: Result<String, Error>)
    ensures
        crate::output::text_outcome(result) == constant_name(
            model_name@,
            member_ident@,
            models@,
            kind,
            prefix@,
            suffix@,
        ),
{
    match check_readable(models) {
        Some(error) => Err(error),
        None => Ok(claimed_name(model_name, member_ident, models, kind, prefix, suffix)),
    }
}

/// The name of the constant that a member is fixed to.
pub open spec fn const_const(
    model_name: Seq<char>,
    field_name: Seq<char>,
    models: Seq<JsonModel>,
    kind: ConstNameCollisionKind,
) -> Result<Seq<char>, ErrorView> {
    constant_name(model_name, field_name, models, kind, ""@, "_CONST"@)
}

/// The name of the constant that a member is fixed to.
pub fn const_const_name(
    model_name: &str,
    field_name: &str,
    models: &Vec<JsonModel>,
    kind: ConstNameCollisionKind,
) -> (result: Result<String, Error>)
    ensures
        crate::output::text_outcome(result) == const_const(model_name@, field_name@, models@, kind),
{
    const_name(model_name, field_name, models, kind, "", "_CONST")
}

/// The name of the constant for the default of a member. It does not depend on other models.
pub open spec fn default_const(field_name: Seq<char>) -> Seq<char> {
    "DEFAULT_"@ + crate::naming::shouty_snake(field_name)
}

/// The name of the constant for the default of a member. It does not depend on other models.
pub fn default_const_name(field_name: &str) -> (result: String)
    ensures
        result@ == default_const(field_name@),
{
    "DEFAULT_".to_owned().concat(to_shouty_snake(field_name).as_str())
}

/// A default in the type of the member: a temporal value and bytes go through their parsers.
pub open spec fn default_literal(schema: Schema, value: JsonValue) -> Seq<char> {
    let inner = match crate::json_schema::annotation::nullable_branch_of(schema) {
        Some(branch) => branch,
        None => schema,
    };
    let wire = crate::json_schema::ts_text::value_literal(value);
    match crate::json_schema::schema::temporal_kind_of(inner) {
        Some(kind) => crate::json_schema::ts_text::temporal_parse_text(kind) + "("@ + wire + ", '', [])!"@,
        None => match crate::json_schema::schema::content_encoding_of(inner) {
            Some(encoding) => crate::json_schema::ts_text::decode_fn_text(encoding) + "("@ + wire + ", '', [])!"@,
            None => wire,
        },
    }
}

/// A default in the type of the member: a temporal value and bytes go through their parsers.
pub fn typescript_default_literal(schema: &Schema, value: &JsonValue) -> (result: String)
    ensures
        result@ == default_literal(*schema, *value),
{
    let inner: &Schema = match nullable_non_null_schema(schema) {
        Some(branch) => branch,
        None => schema,
    };

    let wire = typescript_value_literal(value);
    match temporal_kind_direct(inner) {
        Some(kind) => ts_temporal_parse_fn(kind).concat("(").concat(wire.as_str())
            .concat(", '', [])!"),
        None => match content_encoding_direct(inner) {
            Some(encoding) => ts_content_encoding_parse_fn(encoding).concat("(")
                .concat(wire.as_str()).concat(", '', [])!"),
            None => wire,
        },
    }
}

/// The constants that the members of a model are fixed to.
pub open spec fn fixed_constant_texts(
    properties: Seq<Property>,
    model_name: Seq<char>,
    models: Seq<JsonModel>,
) -> Seq<char>
    decreases properties.len(),
{
    if properties.len() == 0 {
        Seq::empty()
    } else {
        let property = properties.last();
        fixed_constant_texts(properties.drop_last(), model_name, models) + (
            {
                match property.schema.const_value {
                    Some(value) => if materialized_property(property.schema) {
                        Seq::<char>::empty()
                    } else {
                        let member = crate::json_schema::schema::member_name_text(
                            property.schema,
                            property.name@,
                        );
                        let name = claimed_name_text(
                            model_name,
                            member,
                            models,
                            ConstNameCollisionKind::Const,
                            ""@,
                            "_CONST"@,
                        );
                        let literal = crate::json_schema::ts_text::value_literal(value);
                        ("const "@ + name + " = "@ + literal + ";\n"@)
                    },
                    None => Seq::<char>::empty(),
                }
            }
        )
    }
}

/// The constants that the members of a model are fixed to.
pub fn fixed_constants(
    properties: &Vec<Property>,
    model_name: &str,
    models: &Vec<JsonModel>,
) -> (result: String)
    ensures
        result@ == fixed_constant_texts(properties@, model_name@, models@),
{
    let mut result: String = String::new();
    let mut i: usize = 0;
    while i < properties.len()
        invariant
            i <= properties.len(),
            result@ == fixed_constant_texts(properties@.take(i as int), model_name@, models@),
        decreases properties.len() - i,
    {
        proof {
            assert(properties@.take(i + 1).drop_last() =~= properties@.take(i as int));
            assert(properties@.take(i + 1).last() == properties@[i as int]);
        }
        let property = &properties[i];
        let part = {
        match &property.schema.const_value {
            Some(value) => if is_materialized_property(&property.schema) {
                String::new()
            } else {
                let member = ts_member_name(&property.schema, property.name.as_str());
                let name = claimed_name(
                    model_name,
                    member.as_str(),
                    models,
                    ConstNameCollisionKind::Const,
                    "",
                    "_CONST",
                );
                let literal = typescript_value_literal(value);
                "const ".to_owned().concat(name.as_str()).concat(" = ").concat(literal.as_str())
                    .concat(";\n")
            },
            None => String::new(),
        }
        };
        result.append(part.as_str());
        i += 1;
    }
    proof {
        crate::text::lemma_take_all(properties@);
    }
    result
}

/// The constants for the defaults of the members of a model.
pub open spec fn default_constant_texts(properties: Seq<Property>) -> Seq<char>
    decreases properties.len(),
{
    if properties.len() == 0 {
        Seq::empty()
    } else {
        let property = properties.last();
        default_constant_texts(properties.drop_last()) + (
            {
                match property.schema.default {
                    Some(value) => {
                        let member = crate::json_schema::schema::member_name_text(
                            property.schema,
                            property.name@,
                        );
                        let name = default_const(member);
                        let literal = default_literal(property.schema, value);
                        ("export const "@ + name + " = "@ + literal + ";\n"@)
                    },
                    None => Seq::<char>::empty(),
                }
            }
        )
    }
}

/// The constants for the defaults of the members of a model.
pub fn default_constants(properties: &Vec<Property>) -> (result: String)
    ensures
        result@ == default_constant_texts(properties@),
{
    let mut result: String = String::new();
    let mut i: usize = 0;
    while i < properties.len()
        invariant
            i <= properties.len(),
            result@ == default_constant_texts(properties@.take(i as int)),
        decreases properties.len() - i,
    {
        proof {
            assert(properties@.take(i + 1).drop_last() =~= properties@.take(i as int));
            assert(properties@.take(i + 1).last() == properties@[i as int]);
        }
        let property = &properties[i];
        let part = {
        match &property.schema.default {
            Some(value) => {
                let member = ts_member_name(&property.schema, property.name.as_str());
                let name = default_const_name(member.as_str());
                let literal = typescript_default_literal(&property.schema, value);
                "export const ".to_owned().concat(name.as_str()).concat(" = ")
                    .concat(literal.as_str()).concat(";\n")
            },
            None => String::new(),
        }
        };
        result.append(part.as_str());
        i += 1;
    }
    proof {
        crate::text::lemma_take_all(properties@);
    }
    result
}

/// The constants that the members of models are fixed to.
pub open spec fn model_fixed_texts(list: Seq<JsonModel>, models: Seq<JsonModel>) -> Seq<char>
    decreases list.len(),
{
    if list.len() == 0 {
        Seq::empty()
    } else {
        let model = list.last();
        model_fixed_texts(list.drop_last(), models) + (
            match model.schema {
                ReadSchema::Read(schema) => match schema.properties {
                    Some(properties) => fixed_constant_texts(
                        properties@,
                        model.model_name@,
                        models,
                    ),
                    None => Seq::<char>::empty(),
                },
                ReadSchema::Unreadable(_) => Seq::<char>::empty(),
            }
        )
    }
}

/// The constants that the members of models are fixed to.
pub fn model_fixed_constants(list: &Vec<JsonModel>, models: &Vec<JsonModel>) -> (result: String)
    ensures
        result@ == model_fixed_texts(list@, models@),
{
    let mut result: String = String::new();
    let mut i: usize = 0;
    while i < list.len()
        invariant
            i <= list.len(),
            result@ == model_fixed_texts(list@.take(i as int), models@),
        decreases list.len() - i,
    {
        proof {
            assert(list@.take(i + 1).drop_last() =~= list@.take(i as int));
            assert(list@.take(i + 1).last() == list@[i as int]);
        }
        let model = &list[i];
        let part = {
        match &model.schema {
            ReadSchema::Read(schema) => match &schema.properties {
                Some(properties) => fixed_constants(properties, model.model_name.as_str(), models),
                None => String::new(),
            },
            ReadSchema::Unreadable(_) => String::new(),
        }
        };
        result.append(part.as_str());
        i += 1;
    }
    proof {
        crate::text::lemma_take_all(list@);
    }
    result
}

/// The constants for the defaults of the members of models.
pub open spec fn model_default_texts(list: Seq<JsonModel>) -> Seq<char>
    decreases list.len(),
{
    if list.len() == 0 {
        Seq::empty()
    } else {
        let model = list.last();
        model_default_texts(list.drop_last()) + (
            match model.schema {
                ReadSchema::Read(schema) => match schema.properties {
                    Some(properties) => default_constant_texts(properties@),
                    None => Seq::<char>::empty(),
                },
                ReadSchema::Unreadable(_) => Seq::<char>::empty(),
            }
        )
    }
}

/// The constants for the defaults of the members of models.
pub fn model_default_constants(list: &Vec<JsonModel>) -> (result: String)
    ensures
        result@ == model_default_texts(list@),
{
    let mut result: String = String::new();
    let mut i: usize = 0;
    while i < list.len()
        invariant
            i <= list.len(),
            result@ == model_default_texts(list@.take(i as int)),
        decreases list.len() - i,
    {
        proof {
            assert(list@.take(i + 1).drop_last() =~= list@.take(i as int));
            assert(list@.take(i + 1).last() == list@[i as int]);
        }
        let model = &list[i];
        let part = {
        match &model.schema {
            ReadSchema::Read(schema) => match &schema.properties {
                Some(properties) => default_constants(properties),
                None => String::new(),
            },
            ReadSchema::Unreadable(_) => String::new(),
        }
        };
        result.append(part.as_str());
        i += 1;
    }
    proof {
        crate::text::lemma_take_all(list@);
    }
    result
}

/// The constants of a module: what members are fixed to, then their defaults.
pub open spec fn module_constants(models: Seq<JsonModel>) -> Result<Seq<char>, ErrorView> {
    match first_unreadable(models) {
        Some(error) => Err(error),
        None => {
            let fixed = model_fixed_texts(models, models);
            let defaults = model_default_texts(models);
            if fixed.len() == 0 && defaults.len() == 0 {
                Ok(Seq::<char>::empty())
            } else {
                Ok("\n"@ + fixed + defaults)
            }
        },
    }
}

/// The constants of a module: what members are fixed to, then their defaults.
pub fn render_default_constants(models: &Vec<JsonModel>) -> (result: Result<String, Error>)
    ensures
        crate::output::text_outcome(result) == module_constants(models@),
{
    match check_readable(models) {
        Some(error) => Err(error),
        None => {
            let fixed = model_fixed_constants(models, models);
            let defaults = model_default_constants(models);
            if fixed.as_str().is_empty() && defaults.as_str().is_empty() {
                Ok(String::new())
            } else {
                Ok("\n".to_owned().concat(fixed.as_str()).concat(defaults.as_str()))
            }
        },
    }
}

/// The serialization of an array or an object of a union that is written in place, behind its
/// guard: the failures of the converters inside it are thrown together.
pub open spec fn inline_member_serializer(
    ctx: TsContext,
    variant: crate::json_schema::union::VariantView,
    guard: Seq<char>,
    value_expr: Seq<char>,
) -> Seq<char> {
    let member = "("@ + value_expr + " as "@ + variant.ts_type + ")"@;
    let root_path = crate::json_schema::ts_text::string_literal(""@);
    let serialized = crate::json_schema::annotation::collecting_wire_expr(
        ctx,
        variant.schema,
        member,
        root_path,
    );
    if variant.is_object && serialized == member {
        "  if ("@ + guard + ") {\n    return "@ + value_expr + ";\n  }\n"@
    } else {
        "  if ("@ + guard + ") {\n    const out = "@ + serialized
            + ";\n    if (violations.length) {\n      throw createPayloadValidationError(violations);\n    }\n    return out;\n  }\n"@
    }
}

/// The serialization of an array or an object of a union that is written in place, behind its
/// guard: the failures of the converters inside it are thrown together.
pub fn serialize_inline_member(
    ctx: &TsContext,
    variant: &TsUnionVariant,
    guard: &str,
    value_expr: &str,
) -> (result: String)
    ensures
        result@ == inline_member_serializer(*ctx, variant@, guard@, value_expr@),
{
    let member = "(".to_owned().concat(value_expr).concat(" as ").concat(variant.ts_type.as_str())
        .concat(")");
    let root_path = typescript_string_literal("");
    let serialized = serialize_expr_collecting(
        ctx,
        variant.schema,
        member.as_str(),
        root_path.as_str(),
    );
    if variant.is_object && text_eq(serialized.as_str(), member.as_str()) {
        "  if (".to_owned().concat(guard).concat(") {\n    return ").concat(value_expr)
            .concat(";\n  }\n")
    } else {
        "  if (".to_owned().concat(guard).concat(") {\n    const out = ")
            .concat(serialized.as_str())
            .concat(
                ";\n    if (violations.length) {\n      throw createPayloadValidationError(violations);\n    }\n    return out;\n  }\n",
            )
    }
}

/// The serialization of one member of a union.
pub open spec fn member_serializer(
    ctx: TsContext,
    variant: crate::json_schema::union::VariantView,
    discriminant: Option<Seq<char>>,
    value_expr: Seq<char>,
) -> Seq<char> {
    if variant.is_object {
        match variant.converter {
            None => {
                let guard = "__nexgenDefinitions.isPlainObject("@ + value_expr + ")"@;
                inline_member_serializer(ctx, variant, guard, value_expr)
            },
            Some(converter) => match (discriminant, variant.discriminant_value) {
                (Some(name), Some(value)) => {
                    let literal = crate::json_schema::ts_text::value_literal(value);
                    (
                        "  if (("@ + value_expr + " as unknown as Record<string, unknown>)["@
                            + crate::json_schema::ts_text::string_literal(name) + "] === "@
                            + literal + ") {\n    return "@ + converter + ".toTransferType("@
                            + value_expr + " as "@ + variant.ts_type + ");\n  }\n"@
                    )
                },
                _ => (
                    "  if (__nexgenDefinitions.isPlainObject("@ + value_expr + ")) {\n    return "@
                        + converter + ".toTransferType("@ + value_expr + " as unknown as "@
                        + variant.ts_type + ");\n  }\n"@
                ),
            },
        }
    } else if variant.is_array {
        inline_member_serializer(ctx, variant, "Array.isArray("@ + value_expr + ")"@, value_expr)
    } else if variant.is_integer {
        (
            "  if (typeof "@ + value_expr + " === 'number' && Number.isSafeInteger("@ + value_expr
                + ")) {\n    return "@ + value_expr + ";\n  }\n"@
        )
    } else {
        match variant.typeof_guard {
            Some(guard) => (
                "  if (typeof "@ + value_expr + " === '"@ + guard + "') {\n    return "@
                    + value_expr + ";\n  }\n"@
            ),
            None => Seq::<char>::empty(),
        }
    }
}

/// The serialization of one member of a union.
pub fn union_member_serializer(
    ctx: &TsContext,
    variant: &TsUnionVariant,
    discriminant: &Option<String>,
    value_expr: &str,
) -> (result: String)
    ensures
        result@ == member_serializer(
            *ctx,
            variant@,
            crate::text::opt_text(*discriminant),
            value_expr@,
        ),
{
    if variant.is_object {
        match &variant.converter {
            None => {
                let guard = "__nexgenDefinitions.isPlainObject(".to_owned().concat(value_expr)
                    .concat(")");
                serialize_inline_member(ctx, variant, guard.as_str(), value_expr)
            },
            Some(converter) => match (discriminant, &variant.discriminant_value) {
                (Some(name), Some(value)) => {
                    let literal = typescript_value_literal(value);
                    "  if ((".to_owned().concat(value_expr)
                        .concat(" as unknown as Record<string, unknown>)[")
                        .concat(typescript_string_literal(name.as_str()).as_str()).concat("] === ")
                        .concat(literal.as_str()).concat(") {\n    return ")
                        .concat(converter.as_str()).concat(".toTransferType(").concat(value_expr)
                        .concat(" as ").concat(variant.ts_type.as_str()).concat(");\n  }\n")
                },
                _ => "  if (__nexgenDefinitions.isPlainObject(".to_owned().concat(value_expr)
                    .concat(")) {\n    return ").concat(converter.as_str())
                    .concat(".toTransferType(").concat(value_expr).concat(" as unknown as ")
                    .concat(variant.ts_type.as_str()).concat(");\n  }\n"),
            },
        }
    } else if variant.is_array {
        let guard = "Array.isArray(".to_owned().concat(value_expr).concat(")");
        serialize_inline_member(ctx, variant, guard.as_str(), value_expr)
    } else if variant.is_integer {
        "  if (typeof ".to_owned().concat(value_expr)
            .concat(" === 'number' && Number.isSafeInteger(").concat(value_expr)
            .concat(")) {\n    return ").concat(value_expr).concat(";\n  }\n")
    } else {
        match &variant.typeof_guard {
            Some(guard) => "  if (typeof ".to_owned().concat(value_expr).concat(" === '")
                .concat(guard.as_str()).concat("') {\n    return ").concat(value_expr)
                .concat(";\n  }\n"),
            None => String::new(),
        }
    }
}

/// The serializations of the members of a union.
pub open spec fn member_serializers(
    variants: Seq<crate::json_schema::union::VariantView>,
    ctx: TsContext,
    discriminant: Option<Seq<char>>,
    value_expr: Seq<char>,
) -> Seq<char>
    decreases variants.len(),
{
    if variants.len() == 0 {
        Seq::empty()
    } else {
        let variant = variants.last();
        member_serializers(variants.drop_last(), ctx, discriminant, value_expr) + (
            member_serializer(ctx, variant, discriminant, value_expr)
        )
    }
}

/// The serializations of the members of a union.
pub fn union_member_serializers(
    variants: &Vec<TsUnionVariant>,
    ctx: &TsContext,
    discriminant: &Option<String>,
    value_expr: &str,
) -> (result: String)
    ensures
        result@ == member_serializers(
            crate::json_schema::union::variant_views(variants@),
            *ctx,
            crate::text::opt_text(*discriminant),
            value_expr@,
        ),
{
    let mut result: String = String::new();
    let mut i: usize = 0;
    while i < variants.len()
        invariant
            i <= variants.len(),
            result@ == member_serializers(
                crate::json_schema::union::variant_views(variants@).take(i as int),
                *ctx,
                crate::text::opt_text(*discriminant),
                value_expr@,
            ),
        decreases variants.len() - i,
    {
        proof {
            assert(
                crate::json_schema::union::variant_views(variants@).take(i + 1).drop_last()
                    =~= crate::json_schema::union::variant_views(variants@).take(i as int)
            );
            assert(
                crate::json_schema::union::variant_views(variants@).take(i + 1).last()
                    == crate::json_schema::union::variant_views(variants@)[i as int]
            );
        }
        let variant = &variants[i];
        let part = union_member_serializer(ctx, variant, discriminant, value_expr);
        result.append(part.as_str());
        i += 1;
    }
    proof {
        crate::text::lemma_take_all(crate::json_schema::union::variant_views(variants@));
    }
    result
}

/// The body of a function that serializes the value of a union.
pub open spec fn union_serializer(
    ctx: TsContext,
    union: crate::json_schema::union::UnionView,
    value_expr: Seq<char>,
) -> Seq<char> {
    let members = member_serializers(union.variants, ctx, union.discriminant, value_expr);
    let null_member = if union.nullable {
        ("  if ("@ + value_expr + " === null) {\n    return null;\n  }\n"@)
    } else {
        Seq::<char>::empty()
    };
    (
        null_member + members
            + "  throw createPayloadValidationError([{ path: '', reason: 'expected one of: "@
            + crate::json_schema::union::admissible_text(union) + "' }]);\n"@
    )
}

/// The body of a function that serializes the value of a union.
pub fn render_ts_union_serialize(
    ctx: &TsContext,
    union: &TsUnion,
    value_expr: &str,
) -> (result: String)
    ensures
        result@ == union_serializer(*ctx, union@, value_expr@),
{
    let members = union_member_serializers(&union.variants, ctx, &union.discriminant, value_expr);
    let null_member = if union.nullable {
        "  if (".to_owned().concat(value_expr).concat(" === null) {\n    return null;\n  }\n")
    } else {
        String::new()
    };
    null_member.concat(members.as_str())
        .concat("  throw createPayloadValidationError([{ path: '', reason: 'expected one of: ")
        .concat(admissible(union).as_str()).concat("' }]);\n")
}

/// The temporal kind of a schema whose type includes strings.
pub open spec fn included_temporal(schema: Schema) -> Option<TemporalKind> {
    if crate::json_schema::annotation::type_includes(schema, "string"@) {
        match schema.format {
            Some(name) => crate::json_schema::schema::temporal_kind_named(name@),
            None => None,
        }
    } else {
        None
    }
}

/// The temporal kind of a schema whose type includes strings.
pub fn included_temporal_kind(schema: &Schema) -> (result: Option<TemporalKind>)
    ensures
        result == included_temporal(*schema),
{
    if schema_type_includes(schema, "string") {
        match &schema.format {
            Some(name) => temporal_kind_from_name(name.as_str()),
            None => None,
        }
    } else {
        None
    }
}

/// Whether a schema whose type includes strings is one of bytes.
pub open spec fn included_encoding(schema: Schema) -> bool {
    if crate::json_schema::annotation::type_includes(schema, "string"@) {
        match schema.content_encoding {
            Some(name) => crate::json_schema::schema::encoding_named(name@) is Some,
            None => false,
        }
    } else {
        false
    }
}

/// Whether a schema whose type includes strings is one of bytes.
pub fn includes_encoding(schema: &Schema) -> (result: bool)
    ensures
        result == included_encoding(*schema),
{
    if schema_type_includes(schema, "string") {
        match &schema.content_encoding {
            Some(name) => encoding_from_name(name.as_str()).is_some(),
            None => false,
        }
    } else {
        false
    }
}

/// Whether the serializer changes the values of a schema.
pub open spec fn changed_by_serializer(schema: Schema, repr: TsDateTimeTypes) -> bool
    decreases schema,
{
    proof {
        crate::json_schema::annotation::lemma_non_null_smaller(schema);
        crate::json_schema::annotation::lemma_items_smaller(schema);
        crate::json_schema::annotation::lemma_members_smaller(schema);
    }

    if schema.reference.is_some() {
        true
    } else {
        match included_temporal(schema) {
            Some(kind) => crate::json_schema::schema::temporal_changes(kind, Some(repr)),
            None => if included_encoding(schema) {
                true
            } else {
                let through = match crate::json_schema::annotation::branch_beside_null(schema) {
                    Some(branch) => if branch.reference.is_some()
                        || included_temporal(branch) is Some
                        || included_encoding(branch) {
                        Some(changed_by_serializer(branch, repr))
                    } else {
                        None
                    },
                    None => None,
                };
                match through {
                    Some(changes) => changes,
                    None => if crate::json_schema::annotation::type_includes(schema, "array"@) {
                        match schema.items {
                            Some(items) => changed_by_serializer(*items, repr),
                            None => false,
                        }
                    } else {
                        match crate::json_schema::annotation::map_values(schema) {
                            Some(members) => changed_by_serializer(members, repr),
                            None => false,
                        }
                    },
                }
            },
        }
    }
}

/// Whether the serializer changes the values of a schema.
pub fn schema_changes(schema: &Schema, repr: TsDateTimeTypes) -> (result: bool)
    ensures
        result == changed_by_serializer(*schema, repr),
    decreases schema,
{
    proof {
        crate::json_schema::annotation::lemma_non_null_smaller(*schema);
        crate::json_schema::annotation::lemma_items_smaller(*schema);
        crate::json_schema::annotation::lemma_members_smaller(*schema);
    }
    if schema.reference.is_some() {
        true
    } else {
        match included_temporal_kind(schema) {
            Some(kind) => temporal_serializes_non_identity(kind, Some(repr)),
            None => if includes_encoding(schema) {
                true
            } else {
                let through = match non_null_branch(schema) {
                    Some(branch) => if branch.reference.is_some()
                        || included_temporal_kind(branch).is_some()
                        || includes_encoding(branch) {
                        Some(schema_changes(branch, repr))
                    } else {
                        None
                    },
                    None => None,
                };
                match through {
                    Some(changes) => changes,
                    None => if schema_type_includes(schema, "array") {
                        match &schema.items {
                            Some(items) => schema_changes(items, repr),
                            None => false,
                        }
                    } else {
                        match map_value_schema(schema) {
                            Some(members) => schema_changes(members, repr),
                            None => false,
                        }
                    },
                }
            },
        }
    }
}

/// Whether a member of a union has another form on the wire than in memory.
pub open spec fn converting_variant(
    variant: crate::json_schema::union::VariantView,
    repr: TsDateTimeTypes,
) -> bool {
    variant.converter.is_some() || ((variant.is_array || variant.is_object)
        && changed_by_serializer(variant.schema, repr))
}

/// Whether a member of a union has another form on the wire than in memory.
pub fn variant_converts(variant: &TsUnionVariant, repr: TsDateTimeTypes) -> (result: bool)
    ensures
        result == converting_variant(variant@, repr),
{
    variant.converter.is_some() || ((variant.is_array || variant.is_object) && schema_changes(
        variant.schema,
        repr,
    ))
}

/// Whether one of the members of a union has another form on the wire than in memory.
pub open spec fn some_variant_converts(
    variants: Seq<crate::json_schema::union::VariantView>,
    repr: TsDateTimeTypes,
) -> bool {
    exists|i: int| 0 <= i < variants.len() && converting_variant(#[trigger] variants[i], repr)
}

fn any_variant_converts(variants: &Vec<TsUnionVariant>, repr: TsDateTimeTypes) -> (found: bool)
    ensures
        found == some_variant_converts(crate::json_schema::union::variant_views(variants@), repr),
{
    let ghost views = crate::json_schema::union::variant_views(variants@);
    let mut i: usize = 0;
    while i < variants.len()
        invariant
            i <= variants.len(),
            views == crate::json_schema::union::variant_views(variants@),
            forall|k: int| 0 <= k < i ==> !converting_variant(#[trigger] views[k], repr),
        decreases variants.len() - i,
    {
        assert(views[i as int] == variants@[i as int]@);
        if variant_converts(&variants[i], repr) {
            return true;
        }
        i += 1;
    }
    false
}

/// The function that serializes the value of an inline union, where a member of it has another
/// form on the wire than in memory.
pub open spec fn inline_union_serializer(
    ctx: TsContext,
    model_name: Seq<char>,
    json_name: Seq<char>,
    property: Schema,
    models: Seq<JsonModel>,
) -> Option<Seq<char>> {
    match crate::json_schema::union::union_of(ctx, models, property) {
        Some(union) => if some_variant_converts(union.variants, ctx.repr) {
            let member = crate::json_schema::schema::member_name_text(property, json_name);
            Some("serialize"@ + model_name + crate::naming::upper_camel(member))
        } else {
            None
        },
        None => None,
    }
}

/// The function that serializes the value of an inline union, where a member of it has another
/// form on the wire than in memory.
pub fn ts_inline_union_serializer(
    ctx: &TsContext,
    model_name: &str,
    json_name: &str,
    property: &Schema,
    models: &Vec<JsonModel>,
) -> (result: Option<String>)
    ensures
        crate::text::opt_text(result) == inline_union_serializer(
            *ctx,
            model_name@,
            json_name@,
            *property,
            models@,
        ),
{
    match classify_ts_union(ctx, property, models) {
        Some(union) => if any_variant_converts(&union.variants, ctx.repr) {
            let member = ts_member_name(property, json_name);
            Some(
                "serialize".to_owned().concat(model_name)
                    .concat(to_upper_camel(member.as_str()).as_str()),
            )
        } else {
            None
        },
        None => None,
    }
}

/// The functions that serialize the values of the inline unions of a model.
pub open spec fn inline_union_texts(
    properties: Seq<Property>,
    ctx: TsContext,
    model_name: Seq<char>,
    models: Seq<JsonModel>,
) -> Result<Seq<char>, ErrorView>
    decreases properties.len(),
{
    if properties.len() == 0 {
        Ok(Seq::empty())
    } else {
        let property = properties.last();
        match inline_union_texts(properties.drop_last(), ctx, model_name, models) {
            Err(error) => Err(error),
            Ok(before) => {
                let outcome: Result<Seq<char>, ErrorView> = match inline_union_serializer(
                    ctx,
                    model_name,
                    property.name@,
                    property.schema,
                    models,
                ) {
                    Some(name) => match crate::json_schema::annotation::annotation_of(
                        ctx,
                        property.schema,
                    ) {
                        Ok(annotation) => match crate::json_schema::union::union_of(
                            ctx,
                            models,
                            property.schema,
                        ) {
                            Some(union) => {
                                let body = union_serializer(ctx, union, "value"@);
                                Ok(
                                    "\nfunction "@ + name + "(value: "@ + annotation
                                        + "): unknown {\n  const violations: __nexgenDefinitions.Violation[] = [];\n"@
                                        + body + "}\n"@,
                                )
                            },
                            None => Ok(Seq::<char>::empty()),
                        },
                        Err(error) => Err(error),
                    },
                    None => Ok(Seq::<char>::empty()),
                };
                match outcome {
                    Ok(part) => Ok(before + part),
                    Err(error) => Err(error),
                }
            },
        }
    }
}

proof fn lemma_inline_union_error(
    properties: Seq<Property>,
    ctx: TsContext,
    model_name: Seq<char>,
    models: Seq<JsonModel>,
    count: int,
)
    requires
        0 <= count <= properties.len(),
        inline_union_texts(properties.take(count), ctx, model_name, models) is Err,
    ensures
        inline_union_texts(properties, ctx, model_name, models) == inline_union_texts(
            properties.take(count),
            ctx,
            model_name,
            models,
        ),
    decreases properties.len() - count,
{
    if count == properties.len() {
        assert(properties.take(count) =~= properties);
    } else {
        assert(properties.take(count + 1).drop_last() =~= properties.take(count));
        lemma_inline_union_error(properties, ctx, model_name, models, count + 1);
    }
}

/// The functions that serialize the values of the inline unions of a model.
pub fn inline_union_functions(
    properties: &Vec<Property>,
    ctx: &TsContext,
    model_name: &str,
    models: &Vec<JsonModel>,
) -> (result: Result<String, Error>)
    ensures
        crate::output::text_outcome(result) == inline_union_texts(
            properties@,
            *ctx,
            model_name@,
            models@,
        ),
{
    let mut text = String::new();
    let mut i: usize = 0;
    while i < properties.len()
        invariant
            i <= properties.len(),
            inline_union_texts(
                properties@.take(i as int),
                *ctx,
                model_name@,
                models@,
            ) == Ok::<Seq<char>, ErrorView>(text@),
        decreases properties.len() - i,
    {
        assert(properties@.take(i + 1).drop_last() =~= properties@.take(i as int));
        let property = &properties[i];
        let outcome: Result<String, Error> = match ts_inline_union_serializer(
            ctx,
            model_name,
            property.name.as_str(),
            &property.schema,
            models,
        ) {
            Some(name) => match type_annotation(ctx, &property.schema) {
                Ok(annotation) => match classify_ts_union(ctx, &property.schema, models) {
                    Some(union) => {
                        let body = render_ts_union_serialize(ctx, &union, "value");
                        Ok(
                            "\nfunction ".to_owned().concat(name.as_str()).concat("(value: ")
                                .concat(annotation.as_str())
                                .concat(
                                    "): unknown {\n  const violations: __nexgenDefinitions.Violation[] = [];\n",
                                )
                                .concat(body.as_str()).concat("}\n"),
                        )
                    },
                    None => Ok(String::new()),
                },
                Err(error) => Err(error),
            },
            None => Ok(String::new()),
        };
        match outcome {
            Ok(part) => {
                text.append(part.as_str());
            },
            Err(error) => {
                proof {
                    lemma_inline_union_error(properties@, *ctx, model_name@, models@, i + 1);
                }
                return Err(error);
            },
        }
        i += 1;
    }
    assert(properties@.take(i as int) =~= properties@);
    Ok(text)
}

/// The functions that serialize the values of the inline unions of models.
pub open spec fn inline_unions_text(
    list: Seq<JsonModel>,
    ctx: TsContext,
    models: Seq<JsonModel>,
) -> Result<Seq<char>, ErrorView>
    decreases list.len(),
{
    if list.len() == 0 {
        Ok(Seq::empty())
    } else {
        let model = list.last();
        match inline_unions_text(list.drop_last(), ctx, models) {
            Err(error) => Err(error),
            Ok(before) => {
                let outcome: Result<Seq<char>, ErrorView> = match decoded(model) {
                    Ok(schema) => match schema.properties {
                        Some(properties) => inline_union_texts(
                            properties@,
                            ctx,
                            model.model_name@,
                            models,
                        ),
                        None => Ok(Seq::<char>::empty()),
                    },
                    Err(error) => Err(error),
                };
                match outcome {
                    Ok(part) => Ok(before + part),
                    Err(error) => Err(error),
                }
            },
        }
    }
}

proof fn lemma_inline_unions_error(
    list: Seq<JsonModel>,
    ctx: TsContext,
    models: Seq<JsonModel>,
    count: int,
)
    requires
        0 <= count <= list.len(),
        inline_unions_text(list.take(count), ctx, models) is Err,
    ensures
        inline_unions_text(list, ctx, models) == inline_unions_text(list.take(count), ctx, models),
    decreases list.len() - count,
{
    if count == list.len() {
        assert(list.take(count) =~= list);
    } else {
        assert(list.take(count + 1).drop_last() =~= list.take(count));
        lemma_inline_unions_error(list, ctx, models, count + 1);
    }
}

/// The functions that serialize the values of the inline unions of models.
pub fn inline_unions_of(
    list: &Vec<JsonModel>,
    ctx: &TsContext,
    models: &Vec<JsonModel>,
) -> (result: Result<String, Error>)
    ensures
        crate::output::text_outcome(result) == inline_unions_text(list@, *ctx, models@),
{
    let mut text = String::new();
    let mut i: usize = 0;
    while i < list.len()
        invariant
            i <= list.len(),
            inline_unions_text(
                list@.take(i as int),
                *ctx,
                models@,
            ) == Ok::<Seq<char>, ErrorView>(text@),
        decreases list.len() - i,
    {
        assert(list@.take(i + 1).drop_last() =~= list@.take(i as int));
        let model = &list[i];
        let outcome: Result<String, Error> = match decode_schema(model) {
            Ok(schema) => match &schema.properties {
                Some(properties) => inline_union_functions(
                    properties,
                    ctx,
                    model.model_name.as_str(),
                    models,
                ),
                None => Ok(String::new()),
            },
            Err(error) => Err(error),
        };
        match outcome {
            Ok(part) => {
                text.append(part.as_str());
            },
            Err(error) => {
                proof {
                    lemma_inline_unions_error(list@, *ctx, models@, i + 1);
                }
                return Err(error);
            },
        }
        i += 1;
    }
    assert(list@.take(i as int) =~= list@);
    Ok(text)
}

/// The functions that serialize the values of the inline unions of a module.
pub open spec fn inline_serializers(
    ctx: TsContext,
    models: Seq<JsonModel>,
) -> Result<Seq<char>, ErrorView> {
    inline_unions_text(models, ctx, models)
}

/// The functions that serialize the values of the inline unions of a module.
pub fn render_ts_inline_union_serializers(
    ctx: &TsContext,
    models: &Vec<JsonModel>,
) -> (result: Result<String, Error>)
    ensures
        crate::output::text_outcome(result) == inline_serializers(*ctx, models@),
{
    inline_unions_of(models, ctx, models)
}

/// Whether one of the members would hide one that every object has.
pub open spec fn some_hides_prototype(properties: Seq<Property>) -> bool {
    exists|i: int|
        0 <= i < properties.len() && hides_prototype(#[trigger] properties[i])
}

/// Whether a member would hide one that every object has.
pub open spec fn hides_prototype(property: Property) -> bool {
    let name = crate::json_schema::schema::member_name_text(property.schema, property.name@);
    crate::json_schema::ts_text::hides_prototype_member(name)
}

/// Whether a member would hide one that every object has.
pub fn member_hides_prototype(property: &Property) -> (result: bool)
    ensures
        result == hides_prototype(*property),
{
    let name = ts_member_name(&property.schema, property.name.as_str());
    ts_member_conflicts_with_object_prototype(name.as_str())
}

fn any_hides_prototype(properties: &Vec<Property>) -> (found: bool)
    ensures
        found == some_hides_prototype(properties@),
{
    let mut i: usize = 0;
    while i < properties.len()
        invariant
            i <= properties.len(),
            forall|k: int| 0 <= k < i ==> !hides_prototype(#[trigger] properties@[k]),
        decreases properties.len() - i,
    {
        if member_hides_prototype(&properties[i]) {
            return true;
        }
        i += 1;
    }
    false
}

/// Whether a model is declared as a type alias: an interface cannot hide the members that every
/// object has.
pub open spec fn is_alias(schema: Schema) -> bool {
    match schema.properties {
        Some(properties) => some_hides_prototype(properties@),
        None => false,
    }
}

/// Whether a model is declared as a type alias: an interface cannot hide the members that every
/// object has.
pub fn declared_as_alias(schema: &Schema) -> (result: bool)
    ensures
        result == is_alias(*schema),
{
    match &schema.properties {
        Some(properties) => any_hides_prototype(properties),
        None => false,
    }
}

/// The declarations of the members of a model.
pub open spec fn member_declaration_texts(
    properties: Seq<Property>,
    ctx: TsContext,
    schema: Schema,
) -> Result<Seq<char>, ErrorView>
    decreases properties.len(),
{
    if properties.len() == 0 {
        Ok(Seq::empty())
    } else {
        let property = properties.last();
        match member_declaration_texts(properties.drop_last(), ctx, schema) {
            Err(error) => Err(error),
            Ok(before) => {
                let outcome: Result<Seq<char>, ErrorView> = match crate::json_schema::annotation::annotation_of(ctx, property.schema) {
                    Ok(annotation) => {
                        let doc = schema_doc("  "@, property.schema);
                        let readonly = if property.schema.const_value.is_some() {
                            "readonly "@
                        } else {
                            Seq::<char>::empty()
                        };
                        let member = crate::json_schema::schema::member_name_text(
                            property.schema,
                            property.name@,
                        );
                        let key = crate::json_schema::ts_text::object_key(member);
                        let mark = if crate::json_schema::union::member_required(
                            schema,
                            property.name@,
                        ) {
                            Seq::<char>::empty()
                        } else {
                            "?"@
                        };
                        Ok(doc + "  "@ + readonly + key + mark + ": "@ + annotation + ";\n"@)
                    },
                    Err(error) => Err(error),
                };
                match outcome {
                    Ok(part) => Ok(before + part),
                    Err(error) => Err(error),
                }
            },
        }
    }
}

proof fn lemma_member_declaration_error(
    properties: Seq<Property>,
    ctx: TsContext,
    schema: Schema,
    count: int,
)
    requires
        0 <= count <= properties.len(),
        member_declaration_texts(properties.take(count), ctx, schema) is Err,
    ensures
        member_declaration_texts(properties, ctx, schema) == member_declaration_texts(
            properties.take(count),
            ctx,
            schema,
        ),
    decreases properties.len() - count,
{
    if count == properties.len() {
        assert(properties.take(count) =~= properties);
    } else {
        assert(properties.take(count + 1).drop_last() =~= properties.take(count));
        lemma_member_declaration_error(properties, ctx, schema, count + 1);
    }
}

/// The declarations of the members of a model.
pub fn member_declarations(
    properties: &Vec<Property>,
    ctx: &TsContext,
    schema: &Schema,
) -> (result: Result<String, Error>)
    ensures
        crate::output::text_outcome(result) == member_declaration_texts(properties@, *ctx, *schema),
{
    let mut text = String::new();
    let mut i: usize = 0;
    while i < properties.len()
        invariant
            i <= properties.len(),
            member_declaration_texts(
                properties@.take(i as int),
                *ctx,
                *schema,
            ) == Ok::<Seq<char>, ErrorView>(text@),
        decreases properties.len() - i,
    {
        assert(properties@.take(i + 1).drop_last() =~= properties@.take(i as int));
        let property = &properties[i];
        let outcome: Result<String, Error> = match type_annotation(ctx, &property.schema) {
            Ok(annotation) => {
                let doc = render_ts_schema_doc("  ", &property.schema);
                let readonly = if property.schema.const_value.is_some() {
                    "readonly ".to_owned()
                } else {
                    String::new()
                };
                let member = ts_member_name(&property.schema, property.name.as_str());
                let key = typescript_object_key(member.as_str());
                let mark = if requires_member(schema, property.name.as_str()) {
                    String::new()
                } else {
                    "?".to_owned()
                };
                Ok(
                    doc.clone().concat("  ").concat(readonly.as_str()).concat(key.as_str())
                        .concat(mark.as_str()).concat(": ").concat(annotation.as_str())
                        .concat(";\n"),
                )
            },
            Err(error) => Err(error),
        };
        match outcome {
            Ok(part) => {
                text.append(part.as_str());
            },
            Err(error) => {
                proof {
                    lemma_member_declaration_error(properties@, *ctx, *schema, i + 1);
                }
                return Err(error);
            },
        }
        i += 1;
    }
    assert(properties@.take(i as int) =~= properties@);
    Ok(text)
}

/// The declarations of the members of a model, those that it does not declare under one name.
pub open spec fn model_member_texts(
    ctx: TsContext,
    schema: Schema,
) -> Result<Seq<char>, ErrorView> {
    let declared = match schema.properties {
        Some(properties) => member_declaration_texts(properties@, ctx, schema),
        None => Ok(Seq::<char>::empty()),
    };
    match declared {
        Ok(members) => if crate::json_schema::annotation::open_object(schema) {
            match crate::json_schema::annotation::members_annotation(ctx, schema) {
                Ok(annotation) => Ok(
                    members + "  additionalProperties: Record<string, "@ + annotation + ">;\n"@,
                ),
                Err(error) => Err(error),
            }
        } else {
            Ok(members)
        },
        Err(error) => Err(error),
    }
}

/// The declarations of the members of a model, those that it does not declare under one name.
pub fn model_members(ctx: &TsContext, schema: &Schema) -> (result: Result<String, Error>)
    ensures
        crate::output::text_outcome(result) == model_member_texts(*ctx, *schema),
{
    let declared = match &schema.properties {
        Some(properties) => member_declarations(properties, ctx, schema),
        None => Ok(String::new()),
    };
    match declared {
        Ok(members) => if is_open_object(schema) {
            match additional_properties_annotation(ctx, schema) {
                Ok(annotation) => Ok(
                    members.clone().concat("  additionalProperties: Record<string, ")
                        .concat(annotation.as_str()).concat(">;\n"),
                ),
                Err(error) => Err(error),
            }
        } else {
            Ok(members)
        },
        Err(error) => Err(error),
    }
}

/// The declaration of the type of a schema's model.
pub open spec fn schema_interface_text(
    ctx: TsContext,
    model_name: Seq<char>,
    schema: Schema,
) -> Result<Seq<char>, ErrorView> {
    let doc = schema_doc(""@, schema);
    if crate::json_schema::annotation::is_union(schema) {
        match crate::json_schema::annotation::annotation_of(ctx, schema) {
            Ok(annotation) => Ok(
                doc + "export type "@ + model_name + " = "@ + annotation + ";\n"@,
            ),
            Err(error) => Err(error),
        }
    } else {
        let opened = if is_alias(schema) {
            doc + "export type "@ + model_name + " = {\n"@
        } else {
            doc + "export interface "@ + model_name + " {\n"@
        };
        let closed = if is_alias(schema) {
            "};\n"@
        } else {
            "}\n"@
        };
        match crate::json_schema::annotation::map_shape(ctx, schema) {
            Ok(Some(shape)) => Ok(
                opened + "  additionalProperties: Record<string, "@ + shape.value_annotation
                    + ">;\n"@ + closed,
            ),
            Ok(None) => match model_member_texts(ctx, schema) {
                Ok(members) => Ok(opened + members + closed),
                Err(error) => Err(error),
            },
            Err(error) => Err(error),
        }
    }
}

/// The declaration of the type of a schema's model.
pub fn schema_interface(
    ctx: &TsContext,
    model_name: &str,
    schema: &Schema,
) -> (result: Result<String, Error>)
    ensures
        crate::output::text_outcome(result) == schema_interface_text(*ctx, model_name@, *schema),
{
    let doc = render_ts_schema_doc("", schema);
    if is_ts_union(schema) {
        match type_annotation(ctx, schema) {
            Ok(annotation) => Ok(
                doc.clone().concat("export type ").concat(model_name).concat(" = ")
                    .concat(annotation.as_str()).concat(";\n"),
            ),
            Err(error) => Err(error),
        }
    } else {
        let opened = if declared_as_alias(schema) {
            doc.clone().concat("export type ").concat(model_name).concat(" = {\n")
        } else {
            doc.clone().concat("export interface ").concat(model_name).concat(" {\n")
        };
        let closed = if declared_as_alias(schema) {
            "};\n".to_owned()
        } else {
            "}\n".to_owned()
        };
        match ts_map_shape(ctx, schema) {
            Ok(Some(shape)) => Ok(
                opened.clone().concat("  additionalProperties: Record<string, ")
                    .concat(shape.value_annotation.as_str()).concat(">;\n").concat(closed.as_str()),
            ),
            Ok(None) => match model_members(ctx, schema) {
                Ok(members) => Ok(opened.clone().concat(members.as_str()).concat(closed.as_str())),
                Err(error) => Err(error),
            },
            Err(error) => Err(error),
        }
    }
}

/// The declaration of the type of a model.
pub open spec fn model_interface(
    ctx: TsContext,
    model: JsonModel,
) -> Result<Seq<char>, ErrorView> {
    match model.bare_reference {
        Some(reference) => Ok(
            "export type "@ + model.model_name@ + " = "@
                + crate::json_schema::ts_text::referenced_model(ctx, reference@) + ";\n"@,
        ),
        None => match decoded(model) {
            Ok(schema) => schema_interface_text(ctx, model.model_name@, schema),
            Err(error) => Err(error),
        },
    }
}

/// The declaration of the type of a model.
pub fn render_model_interface(
    ctx: &TsContext,
    model: &JsonModel,
) -> (result: Result<String, Error>)
    ensures
        crate::output::text_outcome(result) == model_interface(*ctx, *model),
{
    match &model.bare_reference {
        Some(reference) => Ok(
            "export type ".to_owned().concat(model.model_name.as_str()).concat(" = ")
                .concat(reference_model_name(ctx, reference.as_str()).as_str()).concat(";\n"),
        ),
        None => match decode_schema(model) {
            Ok(schema) => schema_interface(ctx, model.model_name.as_str(), schema),
            Err(error) => Err(error),
        },
    }
}

/// The start of a model's converter, with the method that parses.
pub open spec fn converter_opening(model_name: Seq<char>) -> Seq<char> {
    "export const "@ + crate::json_schema::ts_text::converter_name(model_name)
        + " = new class implements TransferTypeConverter<"@ + model_name
        + "> {\n  public fromTransferType(raw: unknown): "@ + model_name + " {\n"@
}

/// The start of a model's converter, with the method that parses.
pub fn open_transfer_type_converter(model_name: &str) -> (result: String)
    ensures
        result@ == converter_opening(model_name@),
{
    "export const ".to_owned().concat(ts_transfer_type_converter_name(model_name).as_str())
        .concat(" = new class implements TransferTypeConverter<").concat(model_name)
        .concat("> {\n  public fromTransferType(raw: unknown): ").concat(model_name).concat(" {\n")
}

/// The end of the method that parses, and the start of the one that serializes.
pub open spec fn converter_split(model_name: Seq<char>) -> Seq<char> {
    "  }\n\n  public toTransferType(value: "@ + model_name + "): unknown {\n"@
}

/// The end of the method that parses, and the start of the one that serializes.
pub fn split_transfer_type_converter(model_name: &str) -> (result: String)
    ensures
        result@ == converter_split(model_name@),
{
    "  }\n\n  public toTransferType(value: ".to_owned().concat(model_name).concat("): unknown {\n")
}

/// The end of a model's converter.
pub open spec fn converter_closing() -> Seq<char> {
    "  }\n}();\n"@
}

/// The end of a model's converter.
pub fn close_transfer_type_converter() -> (result: String)
    ensures
        result@ == converter_closing(),
{
    "  }\n}();\n".to_owned()
}

/// The names of declared members, as literals.
pub open spec fn member_literal_texts(properties: Seq<Property>) -> Seq<Seq<char>>
    decreases properties.len(),
{
    if properties.len() == 0 {
        Seq::empty()
    } else {
        let property = properties.last();
        member_literal_texts(properties.drop_last()) + (
            seq![crate::json_schema::ts_text::string_literal(property.name@)]
        )
    }
}

/// The names of declared members, as literals.
pub fn member_name_literals(properties: &Vec<Property>) -> (result: Vec<String>)
    ensures
        crate::text::texts(result@) == member_literal_texts(properties@),
{
    broadcast use crate::text::group_texts;

    let mut result: Vec<String> = Vec::new();
    let mut i: usize = 0;
    while i < properties.len()
        invariant
            i <= properties.len(),
            crate::text::texts(result@) == member_literal_texts(properties@.take(i as int)),
        decreases properties.len() - i,
    {
        proof {
            assert(properties@.take(i + 1).drop_last() =~= properties@.take(i as int));
            assert(properties@.take(i + 1).last() == properties@[i as int]);
        }
        let property = &properties[i];
        let part = vec![typescript_string_literal(property.name.as_str())];
        result = with_lines(result, part);
        i += 1;
    }
    proof {
        crate::text::lemma_take_all(properties@);
    }
    result
}

/// The constant with the names of a model's declared members.
pub open spec fn declared_field_set(model_name: Seq<char>, schema: Schema) -> Seq<char> {
    let literals = match schema.properties {
        Some(properties) => member_literal_texts(properties@),
        None => Seq::<Seq<char>>::empty(),
    };
    let all = crate::text::join(literals, ", "@);
    (
        "const "@ + crate::json_schema::ts_text::declared_const(model_name) + " = new Set(["@ + all
            + "]);\n"@
    )
}

/// The constant with the names of a model's declared members.
pub fn render_declared_field_set(model_name: &str, schema: &Schema) -> (result: String)
    ensures
        result@ == declared_field_set(model_name@, *schema),
{
    let literals = match &schema.properties {
        Some(properties) => member_name_literals(properties),
        None => Vec::new(),
    };
    let all = join_texts(&literals, ", ");
    "const ".to_owned().concat(declared_fields_const_name(model_name).as_str())
        .concat(" = new Set([").concat(all.as_str()).concat("]);\n")
}

/// The collection of the members that a model does not declare.
pub open spec fn open_collection(
    ctx: TsContext,
    model_name: Seq<char>,
    schema: Schema,
) -> Result<Seq<char>, ErrorView> {
    match crate::json_schema::annotation::member_schema(schema) {
        Ok(Some(members)) => match crate::json_schema::annotation::annotation_of(ctx, members) {
            Ok(annotation) => {
                let parser = crate::json_schema::parse::plain_parser(
                    ctx,
                    members,
                    "raw[key]"@,
                    "entry"@,
                    "path"@,
                    "      "@,
                );
                Ok(
                    (
                        "  const additionalProperties: Record<string, "@ + annotation
                            + "> = Object.create(null) as Record<string, "@ + annotation
                            + ">;\n  for (const key of Object.keys(raw)) {\n    if (!"@
                            + crate::json_schema::ts_text::declared_const(model_name)
                            + ".has(key)) {\n      const path = __nexgenDefinitions.memberPath(key);\n      let entry: "@
                            + annotation + " | undefined = undefined;\n"@ + parser
                            + "      if (entry !== undefined) {\n        additionalProperties[key] = entry;\n      }\n    }\n  }\n\n"@
                    ),
                )
            },
            Err(error) => Err(error),
        },
        Ok(None) => Ok(
            (
                "  const additionalProperties: Record<string, unknown> = Object.create(null) as Record<string, unknown>;\n  for (const key of Object.keys(raw)) {\n    if (!"@
                    + crate::json_schema::ts_text::declared_const(model_name)
                    + ".has(key)) {\n      additionalProperties[key] = raw[key];\n    }\n  }\n\n"@
            ),
        ),
        Err(error) => Err(error),
    }
}

/// The collection of the members that a model does not declare.
pub fn render_open_object_collection(
    ctx: &TsContext,
    model_name: &str,
    schema: &Schema,
) -> (result: Result<String, Error>)
    ensures
        crate::output::text_outcome(result) == open_collection(*ctx, model_name@, *schema),
{
    match additional_properties_value_schema(schema) {
        Ok(Some(members)) => match type_annotation(ctx, members) {
            Ok(annotation) => {
                let parser = render_value_parser(
                    ctx,
                    members,
                    "raw[key]",
                    "entry",
                    "path",
                    "      ",
                );
                Ok(
                    "  const additionalProperties: Record<string, ".to_owned()
                        .concat(annotation.as_str())
                        .concat("> = Object.create(null) as Record<string, ")
                        .concat(annotation.as_str())
                        .concat(">;\n  for (const key of Object.keys(raw)) {\n    if (!")
                        .concat(declared_fields_const_name(model_name).as_str())
                        .concat(
                            ".has(key)) {\n      const path = __nexgenDefinitions.memberPath(key);\n      let entry: ",
                        )
                        .concat(annotation.as_str()).concat(" | undefined = undefined;\n")
                        .concat(parser.as_str())
                        .concat(
                            "      if (entry !== undefined) {\n        additionalProperties[key] = entry;\n      }\n    }\n  }\n\n",
                        ),
                )
            },
            Err(error) => Err(error),
        },
        Ok(None) => Ok(
            "  const additionalProperties: Record<string, unknown> = Object.create(null) as Record<string, unknown>;\n  for (const key of Object.keys(raw)) {\n    if (!".to_owned()
                .concat(declared_fields_const_name(model_name).as_str())
                .concat(
                    ".has(key)) {\n      additionalProperties[key] = raw[key];\n    }\n  }\n\n",
                ),
        ),
        Err(error) => Err(error),
    }
}

/// The conditions that a key is none of the declared names.
pub open spec fn unknown_key_texts(properties: Seq<Property>) -> Seq<Seq<char>>
    decreases properties.len(),
{
    if properties.len() == 0 {
        Seq::empty()
    } else {
        let property = properties.last();
        unknown_key_texts(properties.drop_last()) + (
            seq![("key !== "@ + crate::json_schema::ts_text::string_literal(property.name@))]
        )
    }
}

/// The conditions that a key is none of the declared names.
pub fn unknown_key_conditions(properties: &Vec<Property>) -> (result: Vec<String>)
    ensures
        crate::text::texts(result@) == unknown_key_texts(properties@),
{
    broadcast use crate::text::group_texts;

    let mut result: Vec<String> = Vec::new();
    let mut i: usize = 0;
    while i < properties.len()
        invariant
            i <= properties.len(),
            crate::text::texts(result@) == unknown_key_texts(properties@.take(i as int)),
        decreases properties.len() - i,
    {
        proof {
            assert(properties@.take(i + 1).drop_last() =~= properties@.take(i as int));
            assert(properties@.take(i + 1).last() == properties@[i as int]);
        }
        let property = &properties[i];
        let part = vec![
            "key !== ".to_owned()
                .concat(typescript_string_literal(property.name.as_str()).as_str()),
        ];
        result = with_lines(result, part);
        i += 1;
    }
    proof {
        crate::text::lemma_take_all(properties@);
    }
    result
}

/// The check that an object has no other members than the declared ones.
pub open spec fn unknown_key_check(schema: Schema) -> Seq<char> {
    let conditions = match schema.properties {
        Some(properties) => unknown_key_texts(properties@),
        None => Seq::<Seq<char>>::empty(),
    };
    if conditions.len() == 0 {
        "  for (const key of Object.keys(raw)) {\n    violations.push({ path: __nexgenDefinitions.memberPath(key), reason: 'unknown field' });\n  }\n\n"@
    } else {
        let condition = crate::text::join(conditions, " && "@);
        (
            "  for (const key of Object.keys(raw)) {\n    if ("@ + condition
                + ") {\n      violations.push({ path: __nexgenDefinitions.memberPath(key), reason: 'unknown field' });\n    }\n  }\n\n"@
        )
    }
}

/// The check that an object has no other members than the declared ones.
pub fn render_closed_object_unknown_key_check(schema: &Schema) -> (result: String)
    ensures
        result@ == unknown_key_check(*schema),
{
    let conditions = match &schema.properties {
        Some(properties) => unknown_key_conditions(properties),
        None => Vec::new(),
    };
    if conditions.len() == 0 {
        "  for (const key of Object.keys(raw)) {\n    violations.push({ path: __nexgenDefinitions.memberPath(key), reason: 'unknown field' });\n  }\n\n".to_owned()
    } else {
        let condition = join_texts(&conditions, " && ");
        "  for (const key of Object.keys(raw)) {\n    if (".to_owned().concat(condition.as_str())
            .concat(
                ") {\n      violations.push({ path: __nexgenDefinitions.memberPath(key), reason: 'unknown field' });\n    }\n  }\n\n",
            )
    }
}

/// The checks of the names of a map's members.
pub open spec fn map_names(ctx: TsContext, schema: Schema) -> Seq<char> {
    match schema.property_names {
        Some(names) => crate::json_schema::checks::property_names_text(ctx, "keys"@, *names, "  "@),
        None => Seq::<char>::empty(),
    }
}

/// The checks of the names of a map's members.
pub fn map_name_checks(ctx: &TsContext, schema: &Schema) -> (result: String)
    ensures
        result@ == map_names(*ctx, *schema),
{
    match &schema.property_names {
        Some(names) => render_ts_property_name_checks(ctx, "keys", names, "  "),
        None => String::new(),
    }
}

/// The body of the method that parses a map.
pub open spec fn map_parser(
    ctx: TsContext,
    schema: Schema,
    shape: crate::json_schema::annotation::MapShape,
) -> Seq<char> {
    let counts = crate::json_schema::checks::property_count_checks("keys.length"@, schema, "  "@);
    let names = map_names(ctx, schema);
    let entry = match shape.value_schema {
        None => "    additionalProperties[key] = raw[key];\n"@,
        Some(members) => {
            let parser = crate::json_schema::parse::plain_parser(
                ctx,
                members,
                "raw[key]"@,
                "entry"@,
                "path"@,
                "    "@,
            );
            (
                "    const path = __nexgenDefinitions.memberPath(key);\n    let entry: "@
                    + shape.value_annotation + " | undefined = undefined;\n"@ + parser
                    + "    if (entry !== undefined) {\n      additionalProperties[key] = entry;\n    }\n"@
            )
        },
    };
    (
        "  const keys = Object.keys(raw);\n"@ + counts + names
            + "  const additionalProperties: Record<string, "@ + shape.value_annotation
            + "> = Object.create(null) as Record<string, "@ + shape.value_annotation
            + ">;\n  for (const key of keys) {\n"@ + entry
            + "  }\n"@
            + "  if (violations.length) {\n    throw createPayloadValidationError(violations);\n  }\n"@
            + "  return { additionalProperties };\n"@
    )
}

/// The body of the method that parses a map.
pub fn render_map_parser_body(
    ctx: &TsContext,
    schema: &Schema,
    shape: &TsMapShape,
) -> (result: String)
    ensures
        result@ == map_parser(*ctx, *schema, shape@),
{
    let counts = render_ts_property_count_checks("keys.length", schema, "  ");
    let names = map_name_checks(ctx, schema);
    let entry = match shape.value_schema {
        None => "    additionalProperties[key] = raw[key];\n".to_owned(),
        Some(members) => {
            let parser = render_value_parser(ctx, members, "raw[key]", "entry", "path", "    ");
            "    const path = __nexgenDefinitions.memberPath(key);\n    let entry: ".to_owned()
                .concat(shape.value_annotation.as_str()).concat(" | undefined = undefined;\n")
                .concat(parser.as_str())
                .concat(
                    "    if (entry !== undefined) {\n      additionalProperties[key] = entry;\n    }\n",
                )
        },
    };
    "  const keys = Object.keys(raw);\n".to_owned().concat(counts.as_str()).concat(names.as_str())
        .concat("  const additionalProperties: Record<string, ")
        .concat(shape.value_annotation.as_str())
        .concat("> = Object.create(null) as Record<string, ")
        .concat(shape.value_annotation.as_str()).concat(">;\n  for (const key of keys) {\n")
        .concat(entry.as_str()).concat("  }\n")
        .concat(
            "  if (violations.length) {\n    throw createPayloadValidationError(violations);\n  }\n",
        ).concat("  return { additionalProperties };\n")
}

/// The parser of the value of a declared member.
pub open spec fn property_value_parser(
    ctx: TsContext,
    model_name: Seq<char>,
    models: Seq<JsonModel>,
    json_name: Seq<char>,
    property: Schema,
    field_name: Seq<char>,
) -> Result<Seq<char>, ErrorView> {
    let raw_expr = crate::json_schema::ts_text::index_access("raw"@, json_name);
    let path_expr = crate::json_schema::ts_text::violation_path(json_name);
    let materialized = materialized_property(property);
    match (property.const_value, property.enum_values) {
        (Some(value), _) if !materialized => match const_const(
            model_name,
            field_name,
            models,
            ConstNameCollisionKind::Const,
        ) {
            Ok(name) => Ok(
                crate::json_schema::parse::const_parser(
                    value,
                    raw_expr,
                    field_name,
                    path_expr,
                    "    "@,
                    name,
                ),
            ),
            Err(error) => Err(error),
        },
        (None, Some(values)) if !materialized => Ok(
            crate::json_schema::parse::enum_parser(
                values@,
                raw_expr,
                field_name,
                path_expr,
                "    "@,
            ),
        ),
        _ => if crate::json_schema::annotation::is_union(property) {
            Ok(
                crate::json_schema::parse::union_parser(
                    ctx,
                    models,
                    property,
                    raw_expr,
                    field_name,
                    path_expr,
                    "    "@,
                    0,
                    crate::json_schema::fields::follow_limit(ctx),
                ),
            )
        } else {
            Ok(
                crate::json_schema::parse::plain_parser(
                    ctx,
                    property,
                    raw_expr,
                    field_name,
                    path_expr,
                    "    "@,
                ),
            )
        },
    }
}

/// The parser of the value of a declared member.
pub fn render_property_value_parser(
    ctx: &TsContext,
    model_name: &str,
    models: &Vec<JsonModel>,
    json_name: &str,
    property: &Schema,
    field_name: &str,
) -> (result: Result<String, Error>)
    ensures
        crate::output::text_outcome(result) == property_value_parser(
            *ctx,
            model_name@,
            models@,
            json_name@,
            *property,
            field_name@,
        ),
{
    let raw_expr = ts_index_access("raw", json_name);
    let path_expr = typescript_violation_path_literal(json_name);
    let materialized = is_materialized_property(property);
    match (&property.const_value, &property.enum_values) {
        (Some(value), _) if !materialized => match const_const_name(
            model_name,
            field_name,
            models,
            ConstNameCollisionKind::Const,
        ) {
            Ok(name) => Ok(
                render_const_parser(
                    value,
                    raw_expr.as_str(),
                    field_name,
                    path_expr.as_str(),
                    "    ",
                    name.as_str(),
                ),
            ),
            Err(error) => Err(error),
        },
        (None, Some(values)) if !materialized => Ok(
            render_enum_parser(values, raw_expr.as_str(), field_name, path_expr.as_str(), "    "),
        ),
        _ => if is_ts_union(property) {
            Ok(
                render_ts_union_parse(
                    ctx,
                    property,
                    models,
                    raw_expr.as_str(),
                    field_name,
                    path_expr.as_str(),
                    "    ",
                ),
            )
        } else {
            Ok(
                render_value_parser(
                    ctx,
                    property,
                    raw_expr.as_str(),
                    field_name,
                    path_expr.as_str(),
                    "    ",
                ),
            )
        },
    }
}

/// The test that a declared member is there, or is there and `null`, and what is reported.
pub open spec fn presence_text(
    json_name: Seq<char>,
    property: Schema,
    required: bool,
) -> Seq<char> {
    let has_own = crate::json_schema::ts_text::has_own_text("raw"@, json_name);
    let raw_access = crate::json_schema::ts_text::index_access("raw"@, json_name);
    let path_expr = crate::json_schema::ts_text::violation_path(json_name);
    if required {
        if crate::json_schema::annotation::null_allowed(property) {
            (
                "  if (!"@ + has_own + ") {\n    violations.push({ path: "@ + path_expr
                    + ", reason: 'required' });\n  } else {\n"@
            )
        } else {
            (
                "  if (!"@ + has_own + " || "@ + raw_access
                    + " === null) {\n    violations.push({ path: "@ + path_expr
                    + ", reason: 'required' });\n  } else {\n"@
            )
        }
    } else {
        if crate::json_schema::annotation::null_allowed(property) {
            ("  if ("@ + has_own + ") {\n"@)
        } else {
            (
                "  if ("@ + has_own + " && "@ + raw_access
                    + " === null) {\n    violations.push({ path: "@ + path_expr
                    + ", reason: 'explicit null not allowed' });\n  } else if ("@ + has_own
                    + ") {\n"@
            )
        }
    }
}

/// The test that a declared member is there, or is there and `null`, and what is reported.
pub fn property_presence(json_name: &str, property: &Schema, required: bool) -> (result: String)
    ensures
        result@ == presence_text(json_name@, *property, required),
{
    let has_own = ts_has_own("raw", json_name);
    let raw_access = ts_index_access("raw", json_name);
    let path_expr = typescript_violation_path_literal(json_name);
    if required {
        if allows_null(property) {
            "  if (!".to_owned().concat(has_own.as_str())
                .concat(") {\n    violations.push({ path: ").concat(path_expr.as_str())
                .concat(", reason: 'required' });\n  } else {\n")
        } else {
            "  if (!".to_owned().concat(has_own.as_str()).concat(" || ").concat(raw_access.as_str())
                .concat(" === null) {\n    violations.push({ path: ").concat(path_expr.as_str())
                .concat(", reason: 'required' });\n  } else {\n")
        }
    } else {
        if allows_null(property) {
            "  if (".to_owned().concat(has_own.as_str()).concat(") {\n")
        } else {
            "  if (".to_owned().concat(has_own.as_str()).concat(" && ").concat(raw_access.as_str())
                .concat(" === null) {\n    violations.push({ path: ").concat(path_expr.as_str())
                .concat(", reason: 'explicit null not allowed' });\n  } else if (")
                .concat(has_own.as_str()).concat(") {\n")
        }
    }
}

/// The parser of a declared member.
pub open spec fn property_parser(
    ctx: TsContext,
    model_name: Seq<char>,
    models: Seq<JsonModel>,
    json_name: Seq<char>,
    property: Schema,
    required: bool,
) -> Result<Seq<char>, ErrorView> {
    let field_name = crate::json_schema::schema::member_name_text(property, json_name);
    match crate::json_schema::annotation::annotation_of(ctx, property) {
        Ok(value_annotation) => {
            let annotation = if required {
                value_annotation
            } else {
                crate::json_schema::annotation::optional_type(value_annotation)
            };
            let presence = presence_text(json_name, property, required);
            match property_value_parser(ctx, model_name, models, json_name, property, field_name) {
                Ok(parser) => Ok(
                    (
                        "  let "@ + field_name + ": "@ + annotation + " = undefined as unknown as "@
                            + annotation + ";\n"@ + presence + parser + "  }\n"@
                    ),
                ),
                Err(error) => Err(error),
            }
        },
        Err(error) => Err(error),
    }
}

/// The parser of a declared member.
pub fn render_property_parser(
    ctx: &TsContext,
    model_name: &str,
    models: &Vec<JsonModel>,
    json_name: &str,
    property: &Schema,
    required: bool,
) -> (result: Result<String, Error>)
    ensures
        crate::output::text_outcome(result) == property_parser(
            *ctx,
            model_name@,
            models@,
            json_name@,
            *property,
            required,
        ),
{
    let field_name = ts_member_name(property, json_name);
    match type_annotation(ctx, property) {
        Ok(value_annotation) => {
            let annotation = if required {
                value_annotation
            } else {
                optional_type_annotation(value_annotation.as_str())
            };
            let presence = property_presence(json_name, property, required);
            match render_property_value_parser(
                ctx,
                model_name,
                models,
                json_name,
                property,
                field_name.as_str(),
            ) {
                Ok(parser) => Ok(
                    "  let ".to_owned().concat(field_name.as_str()).concat(": ")
                        .concat(annotation.as_str()).concat(" = undefined as unknown as ")
                        .concat(annotation.as_str()).concat(";\n").concat(presence.as_str())
                        .concat(parser.as_str()).concat("  }\n"),
                ),
                Err(error) => Err(error),
            }
        },
        Err(error) => Err(error),
    }
}

/// The parsers of the declared members.
pub open spec fn property_parser_texts(
    properties: Seq<Property>,
    ctx: TsContext,
    model_name: Seq<char>,
    models: Seq<JsonModel>,
    schema: Schema,
) -> Result<Seq<char>, ErrorView>
    decreases properties.len(),
{
    if properties.len() == 0 {
        Ok(Seq::empty())
    } else {
        let property = properties.last();
        match property_parser_texts(properties.drop_last(), ctx, model_name, models, schema) {
            Err(error) => Err(error),
            Ok(before) => {
                let outcome: Result<Seq<char>, ErrorView> = match property_parser(
                    ctx,
                    model_name,
                    models,
                    property.name@,
                    property.schema,
                    crate::json_schema::union::member_required(schema, property.name@),
                ) {
                    Ok(parser) => Ok(parser + "\n"@),
                    Err(error) => Err(error),
                };
                match outcome {
                    Ok(part) => Ok(before + part),
                    Err(error) => Err(error),
                }
            },
        }
    }
}

proof fn lemma_property_parser_error(
    properties: Seq<Property>,
    ctx: TsContext,
    model_name: Seq<char>,
    models: Seq<JsonModel>,
    schema: Schema,
    count: int,
)
    requires
        0 <= count <= properties.len(),
        property_parser_texts(properties.take(count), ctx, model_name, models, schema) is Err,
    ensures
        property_parser_texts(properties, ctx, model_name, models, schema) == property_parser_texts(
            properties.take(count),
            ctx,
            model_name,
            models,
            schema,
        ),
    decreases properties.len() - count,
{
    if count == properties.len() {
        assert(properties.take(count) =~= properties);
    } else {
        assert(properties.take(count + 1).drop_last() =~= properties.take(count));
        lemma_property_parser_error(properties, ctx, model_name, models, schema, count + 1);
    }
}

/// The parsers of the declared members.
#[verifier::rlimit(60)]
pub fn property_parsers(
    properties: &Vec<Property>,
    ctx: &TsContext,
    model_name: &str,
    models: &Vec<JsonModel>,
    schema: &Schema,
) -> (result: Result<String, Error>)
    ensures
        crate::output::text_outcome(result) == property_parser_texts(
            properties@,
            *ctx,
            model_name@,
            models@,
            *schema,
        ),
{
    let mut text = String::new();
    let mut i: usize = 0;
    while i < properties.len()
        invariant
            i <= properties.len(),
            property_parser_texts(
                properties@.take(i as int),
                *ctx,
                model_name@,
                models@,
                *schema,
            ) == Ok::<Seq<char>, ErrorView>(text@),
        decreases properties.len() - i,
    {
        assert(properties@.take(i + 1).drop_last() =~= properties@.take(i as int));
        let property = &properties[i];
        let outcome: Result<String, Error> = match render_property_parser(
            ctx,
            model_name,
            models,
            property.name.as_str(),
            &property.schema,
            requires_member(schema, property.name.as_str()),
        ) {
            Ok(parser) => Ok(parser.clone().concat("\n")),
            Err(error) => Err(error),
        };
        match outcome {
            Ok(part) => {
                text.append(part.as_str());
            },
            Err(error) => {
                proof {
                    lemma_property_parser_error(
                        properties@,
                        *ctx,
                        model_name@,
                        models@,
                        *schema,
                        i + 1,
                    );
                }
                return Err(error);
            },
        }
        i += 1;
    }
    assert(properties@.take(i as int) =~= properties@);
    Ok(text)
}

/// Whether a member is fixed and may be absent.
pub open spec fn is_readonly_optional(property: Property, schema: Schema) -> bool {
    property.schema.const_value.is_some() && !crate::json_schema::union::member_required(
        schema,
        property.name@,
    )
}

/// Whether a member is fixed and may be absent.
pub fn readonly_optional(property: &Property, schema: &Schema) -> (result: bool)
    ensures
        result == is_readonly_optional(*property, *schema),
{
    property.schema.const_value.is_some() && !requires_member(schema, property.name.as_str())
}

/// Whether one of the members is fixed and may be absent.
pub open spec fn some_readonly_optional(properties: Seq<Property>, schema: Schema) -> bool {
    exists|i: int|
        0 <= i < properties.len() && is_readonly_optional(#[trigger] properties[i], schema)
}

fn any_readonly_optional(properties: &Vec<Property>, schema: &Schema) -> (found: bool)
    ensures
        found == some_readonly_optional(properties@, *schema),
{
    let mut i: usize = 0;
    while i < properties.len()
        invariant
            i <= properties.len(),
            forall|k: int| 0 <= k < i ==> !is_readonly_optional(#[trigger] properties@[k], *schema),
        decreases properties.len() - i,
    {
        if readonly_optional(&properties[i], schema) {
            return true;
        }
        i += 1;
    }
    false
}

/// The identifiers of the required members.
pub open spec fn required_member_texts(
    properties: Seq<Property>,
    schema: Schema,
) -> Seq<Seq<char>>
    decreases properties.len(),
{
    if properties.len() == 0 {
        Seq::empty()
    } else {
        let property = properties.last();
        required_member_texts(properties.drop_last(), schema) + (
            if crate::json_schema::union::member_required(schema, property.name@) {
                seq![crate::json_schema::schema::member_name_text(property.schema, property.name@)]
            } else {
                Seq::<Seq<char>>::empty()
            }
        )
    }
}

/// The identifiers of the required members.
pub fn required_members(properties: &Vec<Property>, schema: &Schema) -> (result: Vec<String>)
    ensures
        crate::text::texts(result@) == required_member_texts(properties@, *schema),
{
    broadcast use crate::text::group_texts;

    let mut result: Vec<String> = Vec::new();
    let mut i: usize = 0;
    while i < properties.len()
        invariant
            i <= properties.len(),
            crate::text::texts(result@) == required_member_texts(
                properties@.take(i as int),
                *schema,
            ),
        decreases properties.len() - i,
    {
        proof {
            assert(properties@.take(i + 1).drop_last() =~= properties@.take(i as int));
            assert(properties@.take(i + 1).last() == properties@[i as int]);
        }
        let property = &properties[i];
        let part = {
        if requires_member(schema, property.name.as_str()) {
            vec![ts_member_name(&property.schema, property.name.as_str())]
        } else {
            Vec::new()
        }
        };
        result = with_lines(result, part);
        i += 1;
    }
    proof {
        crate::text::lemma_take_all(properties@);
    }
    result
}

/// The assignments of the members that may be absent.
pub open spec fn optional_assignment_texts(
    properties: Seq<Property>,
    schema: Schema,
) -> Seq<char>
    decreases properties.len(),
{
    if properties.len() == 0 {
        Seq::empty()
    } else {
        let property = properties.last();
        optional_assignment_texts(properties.drop_last(), schema) + (
            {
                if crate::json_schema::union::member_required(schema, property.name@) {
                    Seq::<char>::empty()
                } else {
                    let member = crate::json_schema::schema::member_name_text(
                        property.schema,
                        property.name@,
                    );
                    (
                        "  if ("@ + member + " !== undefined) {\n    out."@ + member + " = "@
                            + member + ";\n  }\n"@
                    )
                }
            }
        )
    }
}

/// The assignments of the members that may be absent.
pub fn optional_assignments(properties: &Vec<Property>, schema: &Schema) -> (result: String)
    ensures
        result@ == optional_assignment_texts(properties@, *schema),
{
    let mut result: String = String::new();
    let mut i: usize = 0;
    while i < properties.len()
        invariant
            i <= properties.len(),
            result@ == optional_assignment_texts(properties@.take(i as int), *schema),
        decreases properties.len() - i,
    {
        proof {
            assert(properties@.take(i + 1).drop_last() =~= properties@.take(i as int));
            assert(properties@.take(i + 1).last() == properties@[i as int]);
        }
        let property = &properties[i];
        let part = {
        if requires_member(schema, property.name.as_str()) {
            String::new()
        } else {
            let member = ts_member_name(&property.schema, property.name.as_str());
            "  if (".to_owned().concat(member.as_str()).concat(" !== undefined) {\n    out.")
                .concat(member.as_str()).concat(" = ").concat(member.as_str()).concat(";\n  }\n")
        }
        };
        result.append(part.as_str());
        i += 1;
    }
    proof {
        crate::text::lemma_take_all(properties@);
    }
    result
}

/// The end of the method that parses a model: the result is built of the parsed members.
pub open spec fn parser_result_text(model_name: Seq<char>, schema: Schema) -> Seq<char> {
    let staging = match schema.properties {
        Some(properties) => if some_readonly_optional(properties@, schema) {
            "{ -readonly [K in keyof "@ + model_name + "]: "@ + model_name + "[K] }"@
        } else {
            model_name
        },
        None => model_name,
    };
    let members = match schema.properties {
        Some(properties) => required_member_texts(properties@, schema),
        None => Seq::<Seq<char>>::empty(),
    };
    let others = wanted_line(
        crate::json_schema::annotation::open_object(schema),
        "additionalProperties"@,
    );
    let listed = members + others;
    let all = crate::text::join(listed, ", "@);
    let optional = match schema.properties {
        Some(properties) => optional_assignment_texts(properties@, schema),
        None => Seq::<char>::empty(),
    };
    ("  const out: "@ + staging + " = { "@ + all + " };\n"@ + optional + "  return out;\n"@)
}

/// The end of the method that parses a model: the result is built of the parsed members.
pub fn parser_result(model_name: &str, schema: &Schema) -> (result: String)
    ensures
        result@ == parser_result_text(model_name@, *schema),
{
    let staging = match &schema.properties {
        Some(properties) => if any_readonly_optional(properties, schema) {
            "{ -readonly [K in keyof ".to_owned().concat(model_name).concat("]: ")
                .concat(model_name).concat("[K] }")
        } else {
            model_name.to_owned()
        },
        None => model_name.to_owned(),
    };
    let members = match &schema.properties {
        Some(properties) => required_members(properties, schema),
        None => Vec::new(),
    };
    let others = line_if(is_open_object(schema), "additionalProperties");
    let listed = with_lines(members, others);
    let all = join_texts(&listed, ", ");
    let optional = match &schema.properties {
        Some(properties) => optional_assignments(properties, schema),
        None => String::new(),
    };
    "  const out: ".to_owned().concat(staging.as_str()).concat(" = { ").concat(all.as_str())
        .concat(" };\n").concat(optional.as_str()).concat("  return out;\n")
}

/// What a parser does with the members that a model does not declare.
pub open spec fn other_members(
    ctx: TsContext,
    model_name: Seq<char>,
    schema: Schema,
) -> Result<Seq<char>, ErrorView> {
    if crate::json_schema::annotation::closed_schema(schema) {
        Ok(unknown_key_check(schema))
    } else if crate::json_schema::annotation::has_declared_members(schema) {
        open_collection(ctx, model_name, schema)
    } else {
        Ok(Seq::<char>::empty())
    }
}

/// What a parser does with the members that a model does not declare.
pub fn other_member_parser(
    ctx: &TsContext,
    model_name: &str,
    schema: &Schema,
) -> (result: Result<String, Error>)
    ensures
        crate::output::text_outcome(result) == other_members(*ctx, model_name@, *schema),
{
    if is_closed(schema) {
        Ok(render_closed_object_unknown_key_check(schema))
    } else if declares_members(schema) {
        render_open_object_collection(ctx, model_name, schema)
    } else {
        Ok(String::new())
    }
}

/// The body of the method that parses a model.
pub open spec fn model_parser(
    ctx: TsContext,
    model_name: Seq<char>,
    schema: Schema,
    models: Seq<JsonModel>,
) -> Result<Seq<char>, ErrorView> {
    let opened = "  const violations: __nexgenDefinitions.Violation[] = [];\n  if (!__nexgenDefinitions.isPlainObject(raw)) {\n    throw createPayloadValidationError([{ path: '', reason: 'expected object' }]);\n  }\n\n"@;
    match crate::json_schema::annotation::map_shape(ctx, schema) {
        Err(error) => Err(error),
        Ok(Some(shape)) => {
            let body = map_parser(ctx, schema, shape);
            Ok(opened + body)
        },
        Ok(None) => {
            let parsed = match schema.properties {
                Some(properties) => property_parser_texts(
                    properties@,
                    ctx,
                    model_name,
                    models,
                    schema,
                ),
                None => Ok(Seq::<char>::empty()),
            };
            match parsed {
                Err(error) => Err(error),
                Ok(members) => match other_members(ctx, model_name, schema) {
                    Err(error) => Err(error),
                    Ok(others) => {
                        let counts = crate::json_schema::checks::property_count_checks(
                            "Object.keys(raw).length"@,
                            schema,
                            "  "@,
                        );
                        let dependencies = crate::json_schema::checks::dependent_required_text(
                            "raw"@,
                            schema,
                            "  "@,
                        );
                        let result = parser_result_text(model_name, schema);
                        Ok(
                            (
                                opened + members + others + counts + dependencies
                                    + "  if (violations.length) {\n    throw createPayloadValidationError(violations);\n  }\n"@
                                    + result
                            ),
                        )
                    },
                },
            }
        },
    }
}

/// The body of the method that parses a model.
pub fn render_model_parser_body(
    ctx: &TsContext,
    model_name: &str,
    schema: &Schema,
    models: &Vec<JsonModel>,
) -> (result: Result<String, Error>)
    ensures
        crate::output::text_outcome(result) == model_parser(*ctx, model_name@, *schema, models@),
{
    let opened = "  const violations: __nexgenDefinitions.Violation[] = [];\n  if (!__nexgenDefinitions.isPlainObject(raw)) {\n    throw createPayloadValidationError([{ path: '', reason: 'expected object' }]);\n  }\n\n".to_owned();
    match ts_map_shape(ctx, schema) {
        Err(error) => Err(error),
        Ok(Some(shape)) => {
            let body = render_map_parser_body(ctx, schema, &shape);
            Ok(opened.clone().concat(body.as_str()))
        },
        Ok(None) => {
            let parsed = match &schema.properties {
                Some(properties) => property_parsers(properties, ctx, model_name, models, schema),
                None => Ok(String::new()),
            };
            match parsed {
                Err(error) => Err(error),
                Ok(members) => match other_member_parser(ctx, model_name, schema) {
                    Err(error) => Err(error),
                    Ok(others) => {
                        let counts = render_ts_property_count_checks(
                            "Object.keys(raw).length",
                            schema,
                            "  ",
                        );
                        let dependencies = render_ts_dependent_required("raw", schema, "  ");
                        let result = parser_result(model_name, schema);
                        Ok(
                            opened.clone().concat(members.as_str()).concat(others.as_str())
                                .concat(counts.as_str()).concat(dependencies.as_str())
                                .concat(
                                    "  if (violations.length) {\n    throw createPayloadValidationError(violations);\n  }\n",
                                )
                                .concat(result.as_str()),
                        )
                    },
                },
            }
        },
    }
}

/// The assignment of a member's wire form, left out where the member has violations and its wire
/// form is another than its form in memory.
pub open spec fn gated_text(
    json_name: Seq<char>,
    field_name: Seq<char>,
    value_expr: Seq<char>,
    assignment: Seq<char>,
    checks: Seq<char>,
    indent: Seq<char>,
) -> Seq<char> {
    let target = crate::json_schema::ts_text::index_access("out"@, json_name);
    if (assignment == value_expr) {
        checks + indent + target + " = "@ + assignment + ";\n"@
    } else {
        (
            indent + "const "@ + field_name + "ViolationCount = violations.length;\n"@ + checks
                + indent + "if (violations.length === "@ + field_name + "ViolationCount) {\n"@
                + indent + "  "@ + target + " = "@ + assignment + ";\n"@ + indent + "}\n"@
        )
    }
}

/// The assignment of a member's wire form, left out where the member has violations and its wire
/// form is another than its form in memory.
pub fn gated_assignment(
    json_name: &str,
    field_name: &str,
    value_expr: &str,
    assignment: &str,
    checks: &str,
    indent: &str,
) -> (result: String)
    ensures
        result@ == gated_text(json_name@, field_name@, value_expr@, assignment@, checks@, indent@),
{
    let target = ts_index_access("out", json_name);
    if text_eq(assignment, value_expr) {
        checks.to_owned().concat(indent).concat(target.as_str()).concat(" = ").concat(assignment)
            .concat(";\n")
    } else {
        indent.to_owned().concat("const ").concat(field_name)
            .concat("ViolationCount = violations.length;\n").concat(checks).concat(indent)
            .concat("if (violations.length === ").concat(field_name).concat("ViolationCount) {\n")
            .concat(indent).concat("  ").concat(target.as_str()).concat(" = ").concat(assignment)
            .concat(";\n").concat(indent).concat("}\n")
    }
}

/// The expression for the wire form of a declared member.
pub open spec fn property_wire_expr(
    ctx: TsContext,
    model_name: Seq<char>,
    json_name: Seq<char>,
    property: Schema,
    models: Seq<JsonModel>,
    value_expr: Seq<char>,
    path_expr: Seq<char>,
) -> Seq<char> {
    match inline_union_serializer(ctx, model_name, json_name, property, models) {
        Some(name) => {
            let call = name + "("@ + value_expr + ")"@;
            if crate::json_schema::fields::checked_on_wire(property) {
                crate::json_schema::annotation::collected_expr(call, path_expr)
            } else {
                call
            }
        },
        None => crate::json_schema::annotation::collecting_wire_expr(
            ctx,
            property,
            value_expr,
            path_expr,
        ),
    }
}

/// The expression for the wire form of a declared member.
pub fn property_assignment(
    ctx: &TsContext,
    model_name: &str,
    json_name: &str,
    property: &Schema,
    models: &Vec<JsonModel>,
    value_expr: &str,
    path_expr: &str,
) -> (result: String)
    ensures
        result@ == property_wire_expr(
            *ctx,
            model_name@,
            json_name@,
            *property,
            models@,
            value_expr@,
            path_expr@,
        ),
{
    match ts_inline_union_serializer(ctx, model_name, json_name, property, models) {
        Some(name) => {
            let call = name.clone().concat("(").concat(value_expr).concat(")");
            if field_needs_serialize_check(property) {
                collect_serialize_expr(call.as_str(), path_expr)
            } else {
                call
            }
        },
        None => serialize_expr_collecting(ctx, property, value_expr, path_expr),
    }
}

/// The serialization of a declared member.
pub open spec fn property_serializer_text(
    ctx: TsContext,
    model_name: Seq<char>,
    json_name: Seq<char>,
    property: Schema,
    models: Seq<JsonModel>,
    required: bool,
) -> Seq<char> {
    let field_name = crate::json_schema::schema::member_name_text(property, json_name);
    let value_expr = "value."@ + field_name;
    let path_expr = crate::json_schema::ts_text::violation_path(json_name);
    let assignment = property_wire_expr(
        ctx,
        model_name,
        json_name,
        property,
        models,
        value_expr,
        path_expr,
    );
    if required {
        if crate::json_schema::annotation::null_allowed(property) {
            let checks = crate::json_schema::fields::property_checks(
                ctx,
                json_name,
                property,
                "  "@,
            );
            gated_text(json_name, field_name, value_expr, assignment, checks, "  "@)
        } else {
            let checks = crate::json_schema::fields::property_checks(
                ctx,
                json_name,
                property,
                "    "@,
            );
            let assigned = gated_text(
                json_name,
                field_name,
                value_expr,
                assignment,
                checks,
                "    "@,
            );
            (
                "  if ("@ + value_expr + " === undefined || "@ + value_expr
                    + " === null) {\n    violations.push({ path: "@ + path_expr
                    + ", reason: 'required' });\n  } else {\n"@ + assigned + "  }\n"@
            )
        }
    } else {
        if crate::json_schema::annotation::null_allowed(property) {
            let checks = crate::json_schema::fields::property_checks(
                ctx,
                json_name,
                property,
                "    "@,
            );
            let assigned = gated_text(
                json_name,
                field_name,
                value_expr,
                assignment,
                checks,
                "    "@,
            );
            ("  if (value."@ + field_name + " !== undefined) {\n"@ + assigned + "  }\n"@)
        } else {
            let checks = crate::json_schema::fields::property_checks(
                ctx,
                json_name,
                property,
                "      "@,
            );
            let assigned = gated_text(
                json_name,
                field_name,
                value_expr,
                assignment,
                checks,
                "      "@,
            );
            (
                "  if (value."@ + field_name + " !== undefined) {\n    if ("@ + value_expr
                    + " === null) {\n      violations.push({ path: "@ + path_expr
                    + ", reason: 'explicit null not allowed' });\n    } else {\n"@ + assigned
                    + "    }\n  }\n"@
            )
        }
    }
}

/// The serialization of a declared member.
pub fn property_serializer(
    ctx: &TsContext,
    model_name: &str,
    json_name: &str,
    property: &Schema,
    models: &Vec<JsonModel>,
    required: bool,
) -> (result: String)
    ensures
        result@ == property_serializer_text(
            *ctx,
            model_name@,
            json_name@,
            *property,
            models@,
            required,
        ),
{
    let field_name = ts_member_name(property, json_name);
    let value_expr = "value.".to_owned().concat(field_name.as_str());
    let path_expr = typescript_violation_path_literal(json_name);
    let assignment = property_assignment(
        ctx,
        model_name,
        json_name,
        property,
        models,
        value_expr.as_str(),
        path_expr.as_str(),
    );
    if required {
        if allows_null(property) {
            let checks = render_ts_serialize_property_check(ctx, json_name, property, "  ");
            gated_assignment(
                json_name,
                field_name.as_str(),
                value_expr.as_str(),
                assignment.as_str(),
                checks.as_str(),
                "  ",
            )
        } else {
            let checks = render_ts_serialize_property_check(ctx, json_name, property, "    ");
            let assigned = gated_assignment(
                json_name,
                field_name.as_str(),
                value_expr.as_str(),
                assignment.as_str(),
                checks.as_str(),
                "    ",
            );
            "  if (".to_owned().concat(value_expr.as_str()).concat(" === undefined || ")
                .concat(value_expr.as_str()).concat(" === null) {\n    violations.push({ path: ")
                .concat(path_expr.as_str()).concat(", reason: 'required' });\n  } else {\n")
                .concat(assigned.as_str()).concat("  }\n")
        }
    } else {
        if allows_null(property) {
            let checks = render_ts_serialize_property_check(ctx, json_name, property, "    ");
            let assigned = gated_assignment(
                json_name,
                field_name.as_str(),
                value_expr.as_str(),
                assignment.as_str(),
                checks.as_str(),
                "    ",
            );
            "  if (value.".to_owned().concat(field_name.as_str()).concat(" !== undefined) {\n")
                .concat(assigned.as_str()).concat("  }\n")
        } else {
            let checks = render_ts_serialize_property_check(ctx, json_name, property, "      ");
            let assigned = gated_assignment(
                json_name,
                field_name.as_str(),
                value_expr.as_str(),
                assignment.as_str(),
                checks.as_str(),
                "      ",
            );
            "  if (value.".to_owned().concat(field_name.as_str())
                .concat(" !== undefined) {\n    if (").concat(value_expr.as_str())
                .concat(" === null) {\n      violations.push({ path: ").concat(path_expr.as_str())
                .concat(", reason: 'explicit null not allowed' });\n    } else {\n")
                .concat(assigned.as_str()).concat("    }\n  }\n")
        }
    }
}

/// The serializations of the declared members.
pub open spec fn property_serializer_texts(
    properties: Seq<Property>,
    ctx: TsContext,
    model_name: Seq<char>,
    models: Seq<JsonModel>,
    schema: Schema,
) -> Seq<char>
    decreases properties.len(),
{
    if properties.len() == 0 {
        Seq::empty()
    } else {
        let property = properties.last();
        property_serializer_texts(properties.drop_last(), ctx, model_name, models, schema) + (
            property_serializer_text(
                ctx,
                model_name,
                property.name@,
                property.schema,
                models,
                crate::json_schema::union::member_required(schema, property.name@),
            )
        )
    }
}

/// The serializations of the declared members.
pub fn property_serializers(
    properties: &Vec<Property>,
    ctx: &TsContext,
    model_name: &str,
    models: &Vec<JsonModel>,
    schema: &Schema,
) -> (result: String)
    ensures
        result@ == property_serializer_texts(properties@, *ctx, model_name@, models@, *schema),
{
    let mut result: String = String::new();
    let mut i: usize = 0;
    while i < properties.len()
        invariant
            i <= properties.len(),
            result@ == property_serializer_texts(
                properties@.take(i as int),
                *ctx,
                model_name@,
                models@,
                *schema,
            ),
        decreases properties.len() - i,
    {
        proof {
            assert(properties@.take(i + 1).drop_last() =~= properties@.take(i as int));
            assert(properties@.take(i + 1).last() == properties@[i as int]);
        }
        let property = &properties[i];
        let part = property_serializer(
            ctx,
            model_name,
            property.name.as_str(),
            &property.schema,
            models,
            requires_member(schema, property.name.as_str()),
        );
        result.append(part.as_str());
        i += 1;
    }
    proof {
        crate::text::lemma_take_all(properties@);
    }
    result
}

/// The serialization of one member of a map.
pub open spec fn map_entry_text(ctx: TsContext, members: Schema) -> Seq<char> {
    let checks = crate::json_schema::fields::member_checks(
        ctx,
        members,
        "entry"@,
        "path"@,
        "    "@,
    );
    let entry = crate::json_schema::annotation::collecting_wire_expr(
        ctx,
        members,
        "entry"@,
        "path"@,
    );
    let wire = crate::json_schema::annotation::wire_expr(ctx, members, "entry"@);
    if (wire == "entry"@) {
        "    const path = __nexgenDefinitions.memberPath(key);\n"@ + checks + "    out[key] = "@
            + entry + ";\n"@
    } else {
        (
            "    const memberViolationCount = violations.length;\n    const path = __nexgenDefinitions.memberPath(key);\n"@
                + checks
                + "    if (violations.length === memberViolationCount) {\n      out[key] = "@
                + entry + ";\n    }\n"@
        )
    }
}

/// The serialization of one member of a map.
pub fn map_entry_serializer(ctx: &TsContext, members: &Schema) -> (result: String)
    ensures
        result@ == map_entry_text(*ctx, *members),
{
    let checks = render_ts_member_check(ctx, members, "entry", "path", "    ");
    let entry = serialize_expr_collecting(ctx, members, "entry", "path");
    let wire = serialize_expr(ctx, members, "entry");
    if text_eq(wire.as_str(), "entry") {
        "    const path = __nexgenDefinitions.memberPath(key);\n".to_owned().concat(checks.as_str())
            .concat("    out[key] = ").concat(entry.as_str()).concat(";\n")
    } else {
        "    const memberViolationCount = violations.length;\n    const path = __nexgenDefinitions.memberPath(key);\n".to_owned()
            .concat(checks.as_str())
            .concat("    if (violations.length === memberViolationCount) {\n      out[key] = ")
            .concat(entry.as_str()).concat(";\n    }\n")
    }
}

/// The checks that a map's serializer makes of its members as a whole.
pub open spec fn map_final(ctx: TsContext, schema: Schema, needs_validation: bool) -> Seq<char> {
    if needs_validation {
        let counts = crate::json_schema::checks::property_count_checks(
            "keys.length"@,
            schema,
            "  "@,
        );
        let names = map_names(ctx, schema);
        let checks = counts + names;
        let keys = if checks.len() == 0 {
            Seq::<char>::empty()
        } else {
            "  const keys = Object.keys(out);\n"@ + checks
        };
        (
            keys
                + "  if (violations.length) {\n    throw createPayloadValidationError(violations);\n  }\n"@
        )
    } else {
        Seq::<char>::empty()
    }
}

/// The checks that a map's serializer makes of its members as a whole.
pub fn map_final_checks(
    ctx: &TsContext,
    schema: &Schema,
    needs_validation: bool,
) -> (result: String)
    ensures
        result@ == map_final(*ctx, *schema, needs_validation),
{
    if needs_validation {
        let counts = render_ts_property_count_checks("keys.length", schema, "  ");
        let names = map_name_checks(ctx, schema);
        let checks = counts.clone().concat(names.as_str());
        let keys = if checks.as_str().is_empty() {
            String::new()
        } else {
            "  const keys = Object.keys(out);\n".to_owned().concat(checks.as_str())
        };
        keys.clone().concat(
            "  if (violations.length) {\n    throw createPayloadValidationError(violations);\n  }\n",
        )
    } else {
        String::new()
    }
}

/// The body of the method that serializes a map.
pub open spec fn map_serializer(
    ctx: TsContext,
    schema: Schema,
    shape: crate::json_schema::annotation::MapShape,
    needs_validation: bool,
) -> Seq<char> {
    let entry = match shape.value_schema {
        Some(members) => map_entry_text(ctx, members),
        None => "    out[key] = entry;\n"@,
    };
    let checks = map_final(ctx, schema, needs_validation);
    (
        "  if (!__nexgenDefinitions.isPlainObject(value.additionalProperties)) {\n    throw createPayloadValidationError([{ path: '', reason: 'expected object' }]);\n  }\n  for (const [key, entry] of Object.entries(value.additionalProperties)) {\n"@
            + entry + "  }\n"@ + checks + "  return out;\n"@
    )
}

/// The body of the method that serializes a map.
pub fn map_serializer_body(
    ctx: &TsContext,
    schema: &Schema,
    shape: &TsMapShape,
    needs_validation: bool,
) -> (result: String)
    ensures
        result@ == map_serializer(*ctx, *schema, shape@, needs_validation),
{
    let entry = match shape.value_schema {
        Some(members) => map_entry_serializer(ctx, members),
        None => "    out[key] = entry;\n".to_owned(),
    };
    let checks = map_final_checks(ctx, schema, needs_validation);
    "  if (!__nexgenDefinitions.isPlainObject(value.additionalProperties)) {\n    throw createPayloadValidationError([{ path: '', reason: 'expected object' }]);\n  }\n  for (const [key, entry] of Object.entries(value.additionalProperties)) {\n".to_owned()
        .concat(entry.as_str()).concat("  }\n").concat(checks.as_str()).concat("  return out;\n")
}

/// The serialization of one member that a model does not declare.
pub open spec fn open_entry_text(ctx: TsContext, members: Schema) -> Seq<char> {
    let checks = crate::json_schema::fields::member_checks(
        ctx,
        members,
        "entry"@,
        "path"@,
        "    "@,
    );
    let entry = crate::json_schema::annotation::collecting_wire_expr(
        ctx,
        members,
        "entry"@,
        "path"@,
    );
    let wire = crate::json_schema::annotation::wire_expr(ctx, members, "entry"@);
    if (wire == "entry"@) {
        checks + "    out[key] = "@ + entry + ";\n"@
    } else {
        (
            "    const memberViolationCount = violations.length;\n"@ + checks
                + "    if (violations.length === memberViolationCount) {\n      out[key] = "@
                + entry + ";\n    }\n"@
        )
    }
}

/// The serialization of one member that a model does not declare.
pub fn open_entry_serializer(ctx: &TsContext, members: &Schema) -> (result: String)
    ensures
        result@ == open_entry_text(*ctx, *members),
{
    let checks = render_ts_member_check(ctx, members, "entry", "path", "    ");
    let entry = serialize_expr_collecting(ctx, members, "entry", "path");
    let wire = serialize_expr(ctx, members, "entry");
    if text_eq(wire.as_str(), "entry") {
        checks.clone().concat("    out[key] = ").concat(entry.as_str()).concat(";\n")
    } else {
        "    const memberViolationCount = violations.length;\n".to_owned().concat(checks.as_str())
            .concat("    if (violations.length === memberViolationCount) {\n      out[key] = ")
            .concat(entry.as_str()).concat(";\n    }\n")
    }
}

/// The serialization of the members that a model does not declare.
pub open spec fn open_members(
    ctx: TsContext,
    model_name: Seq<char>,
    schema: Schema,
) -> Result<Seq<char>, ErrorView> {
    if crate::json_schema::annotation::open_object(schema) {
        let opened = "  for (const [key, entry] of Object.entries(value.additionalProperties ?? {})) {\n    const path = __nexgenDefinitions.memberPath(key);\n    if ("@
            + crate::json_schema::ts_text::declared_const(model_name)
            + ".has(key)) {\n      violations.push({ path, reason: 'catch-all key collides with declared property' });\n      continue;\n    }\n"@;
        match crate::json_schema::annotation::member_schema(schema) {
            Ok(Some(members)) => {
                let entry = open_entry_text(ctx, members);
                Ok(opened + entry + "  }\n"@)
            },
            Ok(None) => Ok(opened + "    out[key] = entry;\n  }\n"@),
            Err(error) => Err(error),
        }
    } else {
        Ok(Seq::<char>::empty())
    }
}

/// The serialization of the members that a model does not declare.
pub fn open_members_serializer(
    ctx: &TsContext,
    model_name: &str,
    schema: &Schema,
) -> (result: Result<String, Error>)
    ensures
        crate::output::text_outcome(result) == open_members(*ctx, model_name@, *schema),
{
    if is_open_object(schema) {
        let opened = "  for (const [key, entry] of Object.entries(value.additionalProperties ?? {})) {\n    const path = __nexgenDefinitions.memberPath(key);\n    if (".to_owned()
            .concat(declared_fields_const_name(model_name).as_str())
            .concat(
                ".has(key)) {\n      violations.push({ path, reason: 'catch-all key collides with declared property' });\n      continue;\n    }\n",
            );
        match additional_properties_value_schema(schema) {
            Ok(Some(members)) => {
                let entry = open_entry_serializer(ctx, members);
                Ok(opened.clone().concat(entry.as_str()).concat("  }\n"))
            },
            Ok(None) => Ok(opened.clone().concat("    out[key] = entry;\n  }\n")),
            Err(error) => Err(error),
        }
    } else {
        Ok(String::new())
    }
}

/// The end of the method that serializes a model.
pub open spec fn serializer_result_text(schema: Schema, needs_validation: bool) -> Seq<char> {
    if needs_validation {
        let counts = crate::json_schema::checks::property_count_checks(
            "Object.keys(out).length"@,
            schema,
            "  "@,
        );
        let dependencies = crate::json_schema::checks::dependent_required_text(
            "out"@,
            schema,
            "  "@,
        );
        (
            counts + dependencies
                + "  if (violations.length) {\n    throw createPayloadValidationError(violations);\n  }\n"@
                + "  return out;\n"@
        )
    } else {
        "  return out;\n"@
    }
}

/// The end of the method that serializes a model.
pub fn serializer_result(schema: &Schema, needs_validation: bool) -> (result: String)
    ensures
        result@ == serializer_result_text(*schema, needs_validation),
{
    if needs_validation {
        let counts = render_ts_property_count_checks("Object.keys(out).length", schema, "  ");
        let dependencies = render_ts_dependent_required("out", schema, "  ");
        counts.clone().concat(dependencies.as_str())
            .concat(
                "  if (violations.length) {\n    throw createPayloadValidationError(violations);\n  }\n",
            ).concat("  return out;\n")
    } else {
        "  return out;\n".to_owned()
    }
}

/// The body of the method that serializes a model: the checks that a parser makes are made of the
/// values in memory before they are written.
pub open spec fn model_serializer(
    ctx: TsContext,
    model_name: Seq<char>,
    schema: Schema,
    models: Seq<JsonModel>,
) -> Result<Seq<char>, ErrorView> {
    match crate::json_schema::fields::validates_on_wire(schema) {
        Err(error) => Err(error),
        Ok(needs_validation) => {
            let violations = if needs_validation {
                "  const violations: __nexgenDefinitions.Violation[] = [];\n"@
            } else {
                Seq::<char>::empty()
            };
            let opened = "  const candidate: unknown = value;\n  if (!__nexgenDefinitions.isPlainObject(candidate)) {\n    throw createPayloadValidationError([{ path: '', reason: 'expected object' }]);\n  }\n"@
                + violations
                + "  const out: Record<string, unknown> = Object.create(null) as Record<string, unknown>;\n"@;
            match crate::json_schema::annotation::map_shape(ctx, schema) {
                Err(error) => Err(error),
                Ok(Some(shape)) => {
                    let body = map_serializer(ctx, schema, shape, needs_validation);
                    Ok(opened + body)
                },
                Ok(None) => {
                    let members = match schema.properties {
                        Some(properties) => property_serializer_texts(
                            properties@,
                            ctx,
                            model_name,
                            models,
                            schema,
                        ),
                        None => Seq::<char>::empty(),
                    };
                    match open_members(ctx, model_name, schema) {
                        Err(error) => Err(error),
                        Ok(others) => {
                            let result = serializer_result_text(schema, needs_validation);
                            Ok(opened + members + others + result)
                        },
                    }
                },
            }
        },
    }
}

/// The body of the method that serializes a model: the checks that a parser makes are made of the
/// values in memory before they are written.
pub fn render_model_serializer_body(
    ctx: &TsContext,
    model_name: &str,
    schema: &Schema,
    models: &Vec<JsonModel>,
) -> (result: Result<String, Error>)
    ensures
        crate::output::text_outcome(result) == model_serializer(
            *ctx,
            model_name@,
            *schema,
            models@,
        ),
{
    match model_needs_serialize_validation(schema) {
        Err(error) => Err(error),
        Ok(needs_validation) => {
            let violations = if needs_validation {
                "  const violations: __nexgenDefinitions.Violation[] = [];\n".to_owned()
            } else {
                String::new()
            };
            let opened = "  const candidate: unknown = value;\n  if (!__nexgenDefinitions.isPlainObject(candidate)) {\n    throw createPayloadValidationError([{ path: '', reason: 'expected object' }]);\n  }\n".to_owned()
                .concat(violations.as_str())
                .concat(
                    "  const out: Record<string, unknown> = Object.create(null) as Record<string, unknown>;\n",
                );
            match ts_map_shape(ctx, schema) {
                Err(error) => Err(error),
                Ok(Some(shape)) => {
                    let body = map_serializer_body(ctx, schema, &shape, needs_validation);
                    Ok(opened.clone().concat(body.as_str()))
                },
                Ok(None) => {
                    let members = match &schema.properties {
                        Some(properties) => property_serializers(
                            properties,
                            ctx,
                            model_name,
                            models,
                            schema,
                        ),
                        None => String::new(),
                    };
                    match open_members_serializer(ctx, model_name, schema) {
                        Err(error) => Err(error),
                        Ok(others) => {
                            let result = serializer_result(schema, needs_validation);
                            Ok(
                                opened.clone().concat(members.as_str()).concat(others.as_str())
                                    .concat(result.as_str()),
                            )
                        },
                    }
                },
            }
        },
    }
}

/// The lines of a text, each indented.
pub open spec fn indented(body: Seq<char>, indent: Seq<char>) -> Seq<char> {
    let lines = crate::text::lines_of(body);
    crate::json_schema::checks::indented_texts(lines, indent)
}

/// The lines of a text, each indented.
pub fn push_indented(body: &str, indent: &str) -> (result: String)
    ensures
        result@ == indented(body@, indent@),
{
    let lines = split_lines(body);
    indented_lines(&lines, indent)
}

/// The checks of a named union's value, and the failure where there are any.
pub open spec fn union_value_checks_text(
    ctx: TsContext,
    schema: Schema,
    models: Seq<JsonModel>,
) -> Seq<char> {
    let checks = match crate::json_schema::union::union_of(ctx, models, schema) {
        Some(union) => crate::json_schema::fields::union_checks(
            ctx,
            models,
            schema,
            "value"@,
            "''"@,
            "    "@,
            0,
            crate::json_schema::fields::follow_limit(ctx),
            union.variants.len(),
        ),
        None => Seq::empty(),
    };
    if checks.len() == 0 {
        Seq::<char>::empty()
    } else {
        (
            checks
                + "    if (violations.length) {\n      throw createPayloadValidationError(violations);\n    }\n"@
        )
    }
}

/// The checks of a named union's value, and the failure where there are any.
pub fn union_value_checks_body(
    ctx: &TsContext,
    schema: &Schema,
    models: &Vec<JsonModel>,
) -> (result: String)
    ensures
        result@ == union_value_checks_text(*ctx, *schema, models@),
{
    let checks = render_ts_union_value_checks(
        ctx,
        schema,
        models,
        "value",
        "''",
        "    ",
        0,
        reference_limit(ctx),
    );

    if checks.as_str().is_empty() {
        String::new()
    } else {
        checks.clone().concat(
            "    if (violations.length) {\n      throw createPayloadValidationError(violations);\n    }\n",
        )
    }
}

/// The converter of a named union.
pub open spec fn union_converter_text(
    ctx: TsContext,
    model_name: Seq<char>,
    schema: Schema,
    union: crate::json_schema::union::UnionView,
    models: Seq<JsonModel>,
) -> Seq<char> {
    let opened = converter_opening(model_name);
    let parser = crate::json_schema::parse::union_parser(
        ctx,
        models,
        schema,
        "raw"@,
        "out"@,
        "''"@,
        "    "@,
        0,
        crate::json_schema::fields::follow_limit(ctx),
    );
    let split = converter_split(model_name);
    let checks = union_value_checks_text(ctx, schema, models);
    let serializer = union_serializer(ctx, union, "value"@);
    let closed = converter_closing();
    (
        opened + "    const violations: __nexgenDefinitions.Violation[] = [];\n    let out: "@
            + model_name + " = undefined as unknown as "@ + model_name + ";\n"@ + parser
            + "    if (violations.length) {\n      throw createPayloadValidationError(violations);\n    }\n"@
            + "    return out;\n"@ + split + "    const violations: __nexgenDefinitions.Violation[] = [];\n"@ + checks
            + serializer + closed
    )
}

/// The converter of a named union.
pub fn union_converter(
    ctx: &TsContext,
    model_name: &str,
    schema: &Schema,
    union: &TsUnion,
    models: &Vec<JsonModel>,
) -> (result: String)
    ensures
        result@ == union_converter_text(*ctx, model_name@, *schema, union@, models@),
{
    let opened = open_transfer_type_converter(model_name);
    let parser = render_ts_union_parse(ctx, schema, models, "raw", "out", "''", "    ");
    let split = split_transfer_type_converter(model_name);
    let checks = union_value_checks_body(ctx, schema, models);
    let serializer = render_ts_union_serialize(ctx, union, "value");
    let closed = close_transfer_type_converter();
    opened.clone()
        .concat("    const violations: __nexgenDefinitions.Violation[] = [];\n    let out: ")
        .concat(model_name).concat(" = undefined as unknown as ").concat(model_name).concat(";\n")
        .concat(parser.as_str())
        .concat(
            "    if (violations.length) {\n      throw createPayloadValidationError(violations);\n    }\n",
        )
        .concat("    return out;\n").concat(split.as_str())
        .concat("    const violations: __nexgenDefinitions.Violation[] = [];\n")
        .concat(checks.as_str()).concat(serializer.as_str()).concat(closed.as_str())
}

/// The converter of an object.
pub open spec fn object_converter_text(
    ctx: TsContext,
    model_name: Seq<char>,
    schema: Schema,
    models: Seq<JsonModel>,
) -> Result<Seq<char>, ErrorView> {
    match model_parser(ctx, model_name, schema, models) {
        Err(error) => Err(error),
        Ok(parser_body) => match model_serializer(ctx, model_name, schema, models) {
            Err(error) => Err(error),
            Ok(serializer_body) => {
                let declared = if crate::json_schema::annotation::open_object(schema) {
                    let set = declared_field_set(model_name, schema);
                    (set + "\n"@)
                } else {
                    Seq::<char>::empty()
                };
                let opened = converter_opening(model_name);
                let parser = indented(parser_body, "  "@);
                let split = converter_split(model_name);
                let serializer = indented(serializer_body, "  "@);
                let closed = converter_closing();
                Ok(declared + opened + parser + split + serializer + closed)
            },
        },
    }
}

/// The converter of an object.
pub fn object_converter(
    ctx: &TsContext,
    model_name: &str,
    schema: &Schema,
    models: &Vec<JsonModel>,
) -> (result: Result<String, Error>)
    ensures
        crate::output::text_outcome(result) == object_converter_text(
            *ctx,
            model_name@,
            *schema,
            models@,
        ),
{
    match render_model_parser_body(ctx, model_name, schema, models) {
        Err(error) => Err(error),
        Ok(parser_body) => match render_model_serializer_body(ctx, model_name, schema, models) {
            Err(error) => Err(error),
            Ok(serializer_body) => {
                let declared = if is_open_object(schema) {
                    let set = render_declared_field_set(model_name, schema);
                    set.clone().concat("\n")
                } else {
                    String::new()
                };
                let opened = open_transfer_type_converter(model_name);
                let parser = push_indented(parser_body.as_str(), "  ");
                let split = split_transfer_type_converter(model_name);
                let serializer = push_indented(serializer_body.as_str(), "  ");
                let closed = close_transfer_type_converter();
                Ok(
                    declared.clone().concat(opened.as_str()).concat(parser.as_str())
                        .concat(split.as_str()).concat(serializer.as_str()).concat(closed.as_str()),
                )
            },
        },
    }
}

/// The converter of a model: between its type and its wire form, in both directions.
pub open spec fn model_converter(
    ctx: TsContext,
    model: JsonModel,
    models: Seq<JsonModel>,
) -> Result<Seq<char>, ErrorView> {
    match model.bare_reference {
        Some(reference) => {
            let target = crate::json_schema::ts_text::referenced_model(ctx, reference@);
            Ok(
                "export const "@
                    + crate::json_schema::ts_text::converter_name(model.model_name@)
                    + ": TransferTypeConverter<"@ + model.model_name@ + "> = "@
                    + crate::json_schema::ts_text::converter_name(target) + ";\n"@,
            )
        },
        None => match decoded(model) {
            Err(error) => Err(error),
            Ok(schema) => match crate::json_schema::union::union_of(ctx, models, schema) {
                Some(union) => Ok(
                    union_converter_text(ctx, model.model_name@, schema, union, models),
                ),
                None => object_converter_text(ctx, model.model_name@, schema, models),
            },
        },
    }
}

/// The converter of a model: between its type and its wire form, in both directions.
pub fn render_model_transfer_type_converter(
    ctx: &TsContext,
    model: &JsonModel,
    models: &Vec<JsonModel>,
) -> (result: Result<String, Error>)
    ensures
        crate::output::text_outcome(result) == model_converter(*ctx, *model, models@),
{
    match &model.bare_reference {
        Some(reference) => {
            let target = reference_model_name(ctx, reference.as_str());
            Ok(
                "export const ".to_owned()
                    .concat(ts_transfer_type_converter_name(model.model_name.as_str()).as_str())
                    .concat(": TransferTypeConverter<").concat(model.model_name.as_str())
                    .concat("> = ")
                    .concat(ts_transfer_type_converter_name(target.as_str()).as_str())
                        .concat(";\n"),
            )
        },
        None => match decode_schema(model) {
            Err(error) => Err(error),
            Ok(schema) => match classify_ts_union(ctx, schema, models) {
                Some(union) => Ok(
                    union_converter(ctx, model.model_name.as_str(), schema, &union, models),
                ),
                None => object_converter(ctx, model.model_name.as_str(), schema, models),
            },
        },
    }
}

} // verus!
