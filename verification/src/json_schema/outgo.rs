//! What generated code declares, checks and gives out: the type of a value, the test that it is of
//! that type, and the form in which it is written.

use vstd::prelude::*;

use crate::error::ErrorView;
use crate::json_schema::schema::{AdditionalProperties, Encoding, Schema, TemporalKind};
use crate::json_schema::ts_text::{JsonModel, TsContext};
use crate::json_schema::value::JsonValue;
use crate::output::TsDateTimeTypes;

verus! {

/// A value is declared by the type that its schema asks for: a string, a number for numbers and
/// integers, a boolean, null, an array of its items, and a record of its members.
pub proof fn law_values_are_declared_by_their_type(ctx: TsContext, schema: Schema)
    requires
        crate::json_schema::intake::asks_for_a_type(schema),
    ensures
        crate::json_schema::schema::has_type(schema, "string"@) ==> crate::json_schema::annotation::annotation_of(ctx, schema) == Ok::<
            Seq<char>,
            ErrorView,
        >("string"@),
        crate::json_schema::schema::has_type(schema, "number"@) || crate::json_schema::schema::has_type(schema, "integer"@)
            ==> crate::json_schema::annotation::annotation_of(ctx, schema) == Ok::<Seq<char>, ErrorView>("number"@),
        crate::json_schema::schema::has_type(schema, "boolean"@) ==> crate::json_schema::annotation::annotation_of(ctx, schema)
            == Ok::<Seq<char>, ErrorView>("boolean"@),
        crate::json_schema::schema::has_type(schema, "null"@) ==> crate::json_schema::annotation::annotation_of(ctx, schema) == Ok::<
            Seq<char>,
            ErrorView,
        >("null"@),
        crate::json_schema::schema::has_type(schema, "array"@) ==> (schema.items matches Some(items) ==> (
        crate::json_schema::annotation::annotation_of(ctx, *items) matches Ok(item) ==> crate::json_schema::annotation::annotation_of(
            ctx,
            schema,
        ) == Ok::<Seq<char>, ErrorView>(crate::json_schema::annotation::element_type(item) + "[]"@))),
        crate::json_schema::schema::has_type(schema, "object"@) ==> (schema.additional_properties matches Some(
            AdditionalProperties::Matching(members),
        ) ==> (crate::json_schema::annotation::annotation_of(ctx, *members) matches Ok(member)
            ==> !crate::json_schema::annotation::has_declared_members(schema) ==> crate::json_schema::annotation::annotation_of(
            ctx,
            schema,
        ) == Ok::<Seq<char>, ErrorView>("Record<string, "@ + member + ">"@))),
        crate::json_schema::schema::has_type(schema, "object"@) && crate::json_schema::annotation::has_declared_members(schema)
            ==> crate::json_schema::annotation::annotation_of(ctx, schema) == Ok::<Seq<char>, ErrorView>(
            "Record<string, unknown>"@,
        ),
{
    crate::json_schema::intake::lemma_type_names_differ();
    reveal_with_fuel(crate::json_schema::annotation::annotation_of, 2);
    if crate::json_schema::schema::has_type(schema, "object"@) {
        assert(crate::json_schema::annotation::annotation_of(ctx, schema) == crate::json_schema::annotation::record_annotation(
            ctx,
            schema,
        ));
        match schema.additional_properties {
            Some(AdditionalProperties::Matching(members)) => {
                assert(crate::json_schema::annotation::members_annotation(ctx, schema)
                    == crate::json_schema::annotation::annotation_of(ctx, *members));
            },
            _ => {},
        }
    }
}

/// What is not told by its type is declared by the model that it refers to, by the bytes that it
/// encodes, by its fixed value, or by the types of its branches with a bar between.
pub proof fn law_other_values_are_declared_by_what_they_are(ctx: TsContext, schema: Schema)
    ensures
        schema.reference matches Some(reference) ==> crate::json_schema::annotation::annotation_of(ctx, schema)
            == Ok::<Seq<char>, ErrorView>(crate::json_schema::ts_text::referenced_model(ctx, reference@)),
        schema.reference is None && crate::json_schema::schema::temporal_kind_of(schema) is None
            && crate::json_schema::schema::content_encoding_of(schema) is Some ==> crate::json_schema::annotation::annotation_of(
            ctx,
            schema,
        ) == Ok::<Seq<char>, ErrorView>("Uint8Array"@),
        crate::json_schema::sides::is_plain(schema) ==> (schema.const_value matches Some(JsonValue::Bool(value))
            ==> crate::json_schema::annotation::annotation_of(ctx, schema) == Ok::<Seq<char>, ErrorView>(
            if value {
                "true"@
            } else {
                "false"@
            },
        )),
        crate::json_schema::sides::is_plain(schema) ==> (schema.const_value matches Some(JsonValue::Number(value))
            ==> crate::json_schema::annotation::annotation_of(ctx, schema) == Ok::<Seq<char>, ErrorView>(value.text@)),
        crate::json_schema::sides::is_plain(schema) ==> (schema.const_value matches Some(JsonValue::Text(value))
            ==> crate::json_schema::annotation::annotation_of(ctx, schema) == Ok::<Seq<char>, ErrorView>(
            crate::json_schema::ts_text::string_literal(value@),
        )),
        crate::json_schema::sides::is_plain(schema) && schema.const_value == Some(JsonValue::Null)
            ==> crate::json_schema::annotation::annotation_of(ctx, schema) == Ok::<Seq<char>, ErrorView>("null"@),
        schema.reference is None && !crate::json_schema::schema::has_type(schema, "string"@)
            && schema.const_value is None && schema.enum_values is None ==> (
        schema.one_of matches Some(branches) ==> (crate::json_schema::annotation::branch_annotations(
            ctx,
            branches@,
        ) matches Ok(types) ==> crate::json_schema::annotation::annotation_of(ctx, schema) == Ok::<Seq<char>, ErrorView>(
            crate::text::join(crate::json_schema::annotation::distinct(types), " | "@),
        ))),
{
}

/// A temporal string is declared as the type that stands for its kind, and as a string where none
/// does; it is written by the serializer of its kind, and as it stands where it is a string.
pub proof fn law_temporal_types_stand_for_their_kind(value_expr: Seq<char>)
    ensures
        crate::json_schema::ts_text::temporal_type_text(TemporalKind::DateTime, TsDateTimeTypes::Date) == "Date"@,
        crate::json_schema::ts_text::temporal_type_text(TemporalKind::DateTime, TsDateTimeTypes::Temporal)
            == "Temporal.ZonedDateTime"@,
        crate::json_schema::ts_text::temporal_type_text(TemporalKind::Date, TsDateTimeTypes::Temporal)
            == "Temporal.PlainDate"@,
        crate::json_schema::ts_text::temporal_type_text(TemporalKind::Duration, TsDateTimeTypes::Temporal)
            == "Temporal.Duration"@,
        forall|kind: TemporalKind, repr: TsDateTimeTypes| #[trigger]
            crate::json_schema::schema::native_temporal(kind, repr) || crate::json_schema::ts_text::temporal_type_text(kind, repr)
                == "string"@,
        crate::json_schema::ts_text::temporal_wire_text(TemporalKind::DateTime, TsDateTimeTypes::Date, value_expr)
            == "Number.isFinite("@ + value_expr
            + ".getTime()) ? __nexgenDefinitions.serializeTemporalDateTime("@ + value_expr
            + ") : undefined"@,
        crate::json_schema::ts_text::temporal_wire_text(TemporalKind::DateTime, TsDateTimeTypes::Temporal, value_expr)
            == "__nexgenDefinitions.serializeTemporalDateTime("@ + value_expr + ")"@,
        crate::json_schema::ts_text::temporal_wire_text(TemporalKind::Date, TsDateTimeTypes::Temporal, value_expr)
            == "__nexgenDefinitions.serializeTemporalDate("@ + value_expr + ")"@,
        crate::json_schema::ts_text::temporal_wire_text(TemporalKind::Duration, TsDateTimeTypes::Temporal, value_expr)
            == "__nexgenDefinitions.serializeTemporalDuration("@ + value_expr + ")"@,
        forall|kind: TemporalKind, repr: TsDateTimeTypes| #[trigger]
            crate::json_schema::schema::native_temporal(kind, repr) || crate::json_schema::ts_text::temporal_wire_text(
                kind,
                repr,
                value_expr,
            ) == value_expr,
{
}

/// A format and an encoding are read by their names.
pub proof fn law_formats_are_told_by_their_names(name: Seq<char>)
    ensures
        crate::json_schema::schema::temporal_kind_named(name) == Some(TemporalKind::DateTime) <==> name
            == "date-time"@,
        crate::json_schema::schema::temporal_kind_named(name) == Some(TemporalKind::Date) <==> name == "date"@,
        crate::json_schema::schema::temporal_kind_named(name) == Some(TemporalKind::Time) <==> name == "time"@,
        crate::json_schema::schema::temporal_kind_named(name) == Some(TemporalKind::Duration) <==> name
            == "duration"@,
        crate::json_schema::schema::encoding_named(name) == Some(Encoding::Base64) <==> name == "base64"@,
        crate::json_schema::schema::encoding_named(name) == Some(Encoding::Base64Url) <==> name == "base64url"@,
{
    reveal_strlit("date-time");
    reveal_strlit("date");
    reveal_strlit("time");
    reveal_strlit("duration");
    reveal_strlit("base64");
    reveal_strlit("base64url");
    assert("date-time"@.len() == 9 && "date"@.len() == 4 && "time"@.len() == 4
        && "duration"@.len() == 8);
    assert("date"@[0] == 'd' && "time"@[0] == 't');
    assert("base64"@.len() == 6 && "base64url"@.len() == 9);
}

/// A value is tested to be of the type that its schema asks for, and what is not is reported as
/// such.
pub proof fn law_values_are_tested_by_their_type(ctx: TsContext, schema: Schema, value_expr: Seq<char>)
    requires
        crate::json_schema::schema::temporal_kind_of(schema) is None,
    ensures
        ({
            let test = crate::json_schema::fields::type_test(ctx, schema, value_expr);
            let reason = crate::json_schema::fields::type_reason_text(schema);
            if crate::json_schema::schema::content_encoding_of(schema) is Some {
                test == Some(value_expr + " instanceof Uint8Array"@) && reason == "expected bytes"@
            } else {
                &&& crate::json_schema::schema::has_type(schema, "string"@) ==> test == Some(
                    "typeof "@ + value_expr + " === 'string'"@,
                ) && reason == "expected string"@
                &&& crate::json_schema::schema::has_type(schema, "boolean"@) ==> test == Some(
                    "typeof "@ + value_expr + " === 'boolean'"@,
                ) && reason == "expected boolean"@
                &&& crate::json_schema::schema::has_type(schema, "number"@) ==> test == Some(
                    "typeof "@ + value_expr + " === 'number'"@,
                ) && reason == "expected number"@
                &&& crate::json_schema::schema::has_type(schema, "integer"@) ==> test == Some(
                    "typeof "@ + value_expr + " === 'number' && Number.isInteger("@ + value_expr
                        + ")"@,
                ) && reason == "expected integer"@
                &&& crate::json_schema::schema::has_type(schema, "array"@) ==> test == Some(
                    "Array.isArray("@ + value_expr + ")"@,
                ) && reason == "expected array"@
                &&& crate::json_schema::schema::has_type(schema, "object"@) ==> test == Some(
                    "__nexgenDefinitions.isPlainObject("@ + value_expr + ")"@,
                ) && reason == "expected object"@
                &&& crate::json_schema::schema::has_type(schema, "null"@) ==> test == Some(value_expr + " === null"@)
                    && reason == "expected null"@
            }
        }),
{
    crate::json_schema::intake::lemma_type_names_differ();
}

/// A temporal value is tested to be of the type that stands for its kind, and handed to the
/// validator of its kind.
pub proof fn law_temporal_values_are_validated_by_their_kind(
    ctx: TsContext,
    schema: Schema,
    kind: TemporalKind,
    value_expr: Seq<char>,
    path_expr: Seq<char>,
    indent: Seq<char>,
)
    requires
        crate::json_schema::schema::temporal_kind_of(schema) == Some(kind),
    ensures
        ({
            let test = crate::json_schema::fields::type_test(ctx, schema, value_expr);
            let native = crate::json_schema::ts_text::temporal_type_text(kind, ctx.repr);
            &&& native == "string"@ ==> test == Some("typeof "@ + value_expr + " === 'string'"@)
            &&& native != "string"@ ==> test == Some(value_expr + " instanceof "@ + native)
        }),
        crate::json_schema::fields::type_reason_text(schema) == (match kind {
            TemporalKind::DateTime => "expected date-time"@,
            TemporalKind::Date => "expected date"@,
            TemporalKind::Time => "expected time"@,
            TemporalKind::Duration => "expected duration"@,
        }),
        crate::json_schema::annotation::has_part(
            crate::json_schema::fields::temporal_checks(ctx, schema, kind, value_expr, path_expr, indent),
            indent + (match kind {
                TemporalKind::DateTime => "__nexgenDefinitions.validateTemporalDateTime"@,
                TemporalKind::Date => "__nexgenDefinitions.validateTemporalDate"@,
                TemporalKind::Time => "__nexgenDefinitions.validateTemporalTime"@,
                TemporalKind::Duration => "__nexgenDefinitions.validateTemporalDuration"@,
            }) + "("@ + value_expr + ", "@ + path_expr + ", violations);\n"@,
        ),
{
    let validate = indent + crate::json_schema::ts_text::temporal_validate_text(kind) + "("@ + value_expr + ", "@
        + path_expr + ", violations);\n"@;
    crate::json_schema::sides::lemma_part_stays(validate);
}

/// A value that fails its test is reported, and only one that passes it is checked further.
pub proof fn law_tests_come_before_further_checks(
    predicate: Seq<char>,
    reason: Seq<char>,
    path_expr: Seq<char>,
    indent: Seq<char>,
    body: Seq<char>,
)
    ensures
        ({
            let text = crate::json_schema::fields::type_guarded_text(predicate, reason, path_expr, indent, body);
            let refused = indent + "if (!("@ + predicate + ")) {\n"@ + indent
                + "  violations.push({ path: "@ + path_expr + ", reason: '"@ + reason + "' });\n"@;
            &&& crate::text::has_prefix(text, refused)
            &&& body.len() > 0 ==> text.skip(refused.len() as int) == indent + "} else {\n"@ + body
                + indent + "}\n"@
            &&& body.len() == 0 ==> text.skip(refused.len() as int) == indent + "}\n"@
        }),
{
    let text = crate::json_schema::fields::type_guarded_text(predicate, reason, path_expr, indent, body);
    let refused = indent + "if (!("@ + predicate + ")) {\n"@ + indent
        + "  violations.push({ path: "@ + path_expr + ", reason: '"@ + reason + "' });\n"@;
    let rest = if body.len() == 0 {
        indent + "}\n"@
    } else {
        indent + "} else {\n"@ + body + indent + "}\n"@
    };
    assert(text =~= refused + rest) by {
        if body.len() == 0 {
            assert(refused + indent + "}\n"@ =~= refused + rest);
        } else {
            assert(refused + indent + "} else {\n"@ + body + indent + "}\n"@ =~= refused + rest);
        }
    }
    assert((refused + rest).take(refused.len() as int) =~= refused);
    assert((refused + rest).skip(refused.len() as int) =~= rest);
}

/// A value that may be null is checked only where it is not, and an element or entry of what it
/// holds at its own place.
pub proof fn law_null_is_not_checked(
    value_expr: Seq<char>,
    indent: Seq<char>,
    checks: Seq<char>,
    key: Seq<char>,
    entry: Seq<char>,
)
    ensures
        crate::json_schema::fields::null_guarded(true, value_expr, indent, checks) == indent + "if ("@ + value_expr
            + " !== null) {\n"@ + checks + indent + "}\n"@,
        crate::json_schema::fields::null_guarded(false, value_expr, indent, checks) == checks,
        crate::json_schema::annotation::has_part(
            crate::json_schema::fields::entry_loop(key, entry, value_expr, indent, checks),
            "for (const ["@ + key + ", "@ + entry + "] of Object.entries("@ + value_expr
                + ")) {\n"@ + checks,
        ),
{
    let part = "for (const ["@ + key + ", "@ + entry + "] of Object.entries("@ + value_expr
        + ")) {\n"@ + checks;
    assert(crate::json_schema::fields::entry_loop(key, entry, value_expr, indent, checks) =~= indent + part + (indent
        + "}\n"@));
    crate::json_schema::sides::lemma_part_of(indent, part, indent + "}\n"@);
}

/// A reference is written by the converter that reads it.
pub proof fn law_references_are_written_by_their_converter(
    ctx: TsContext,
    schema: Schema,
    reference: Seq<char>,
    value_expr: Seq<char>,
    path_expr: Seq<char>,
    depth: u64,
    follow: u128,
)
    requires
        schema.reference matches Some(text) && text@ == reference,
    ensures
        ({
            let call = crate::naming::lower_camel(crate::json_schema::ts_text::referenced_model(ctx, reference))
                + "TransferTypeConverter"@ + ".toTransferType("@ + value_expr + ")"@;
            &&& crate::json_schema::annotation::wire_form(ctx, schema, value_expr, None, depth, follow) == call
            &&& crate::json_schema::annotation::wire_form(ctx, schema, value_expr, Some(path_expr), depth, follow)
                == "(() => { try { return "@ + call
                + "; } catch (error) { __nexgenDefinitions.collect(violations, "@ + path_expr
                + ", error); return undefined; } })()"@
        }),
{
}

/// Bytes are written in the encoding that the schema names.
pub proof fn law_bytes_are_written_in_their_encoding(
    ctx: TsContext,
    schema: Schema,
    value_expr: Seq<char>,
    path: Option<Seq<char>>,
    depth: u64,
    follow: u128,
)
    requires
        schema.reference is None,
        crate::json_schema::schema::temporal_kind_of(schema) is None,
    ensures
        crate::json_schema::schema::content_encoding_of(schema) == Some(Encoding::Base64)
            ==> crate::json_schema::annotation::wire_form(ctx, schema, value_expr, path, depth, follow)
            == "__nexgenDefinitions.bytesToBase64"@ + "("@ + value_expr + ")"@,
        crate::json_schema::schema::content_encoding_of(schema) == Some(Encoding::Base64Url)
            ==> crate::json_schema::annotation::wire_form(ctx, schema, value_expr, path, depth, follow)
            == "__nexgenDefinitions.bytesToBase64Url"@ + "("@ + value_expr + ")"@,
{
}

/// What is written as it stands is written as its own expression: scalars, and what is fixed.
pub proof fn law_scalars_are_written_as_they_stand(
    ctx: TsContext,
    schema: Schema,
    value_expr: Seq<char>,
    path: Option<Seq<char>>,
    depth: u64,
    follow: u128,
)
    requires
        crate::json_schema::sides::is_plain(schema),
        !crate::json_schema::schema::has_type(schema, "array"@),
        !crate::json_schema::schema::has_type(schema, "object"@),
    ensures
        crate::json_schema::annotation::wire_form(ctx, schema, value_expr, path, depth, follow) == value_expr,
{
}

/// An array is written element by element, each as the items are written.
pub proof fn law_arrays_are_written_element_by_element(
    ctx: TsContext,
    schema: Schema,
    items: Schema,
    value_expr: Seq<char>,
    depth: u64,
    follow: u128,
)
    requires
        crate::json_schema::sides::is_plain(schema),
        crate::json_schema::schema::has_type(schema, "array"@),
        schema.items matches Some(boxed) && *boxed == items,
    ensures
        ({
            let element = "element"@ + crate::json_schema::ts_text::depth_suffix(depth);
            let written = crate::json_schema::annotation::wire_form(
                ctx,
                items,
                element,
                None,
                crate::json_schema::ts_text::deeper(depth),
                follow,
            );
            let form = crate::json_schema::annotation::wire_form(ctx, schema, value_expr, None, depth, follow);
            &&& written != element ==> form == value_expr + ".map(("@ + element + ") => "@ + written
                + ")"@
            &&& written == element ==> form == value_expr
        }),
{
    crate::json_schema::intake::lemma_type_names_differ();
    reveal_with_fuel(crate::json_schema::annotation::wire_form, 2);
}

/// A map is written entry by entry, each under its own key, as the members are written.
pub proof fn law_maps_are_written_entry_by_entry(
    ctx: TsContext,
    schema: Schema,
    members: Schema,
    value_expr: Seq<char>,
    depth: u64,
    follow: u128,
)
    requires
        crate::json_schema::sides::is_plain(schema),
        crate::json_schema::schema::has_type(schema, "object"@),
        crate::json_schema::annotation::map_values(schema) == Some(members),
    ensures
        ({
            let suffix = crate::json_schema::ts_text::depth_suffix(depth);
            let entry = "__entry"@ + suffix;
            let written = crate::json_schema::annotation::wire_form(
                ctx,
                members,
                entry,
                None,
                crate::json_schema::ts_text::deeper(depth),
                follow,
            );
            let form = crate::json_schema::annotation::wire_form(ctx, schema, value_expr, None, depth, follow);
            &&& written != entry ==> form == "Object.fromEntries(Object.entries("@ + value_expr
                + ").map(([__key"@ + suffix + ", __entry"@ + suffix + "]) => [__key"@ + suffix
                + ", "@ + written + "]))"@
            &&& written == entry ==> form == value_expr
        }),
{
    crate::json_schema::intake::lemma_type_names_differ();
    reveal_with_fuel(crate::json_schema::annotation::wire_form, 2);
}

/// A value that may be null is written as null where it is null.
pub proof fn law_null_is_written_as_null(value_expr: Seq<char>, expr: Seq<char>)
    ensures
        expr != value_expr ==> crate::json_schema::annotation::null_kept(true, value_expr, expr) == value_expr
            + " === null ? null : "@ + expr,
        crate::json_schema::annotation::null_kept(false, value_expr, expr) == expr,
        crate::json_schema::annotation::null_kept(true, value_expr, value_expr) == value_expr,
{
}

/// A member of a union is written by its own form where its condition holds, and the others behind
/// it.
pub proof fn law_members_of_unions_are_told_apart(
    condition: Seq<char>,
    expr: Seq<char>,
    member: Seq<char>,
    rest: Seq<char>,
)
    ensures
        expr != member ==> crate::json_schema::annotation::chosen_form(Some(condition), expr, member, rest)
            == condition + " ? "@ + expr + " : "@ + rest,
        crate::json_schema::annotation::chosen_form(None, expr, member, rest) == rest,
        crate::json_schema::annotation::chosen_form(Some(condition), member, member, rest) == rest,
{
}

/// An object of a union is told by its tag where the union has one, and else by being an object.
pub proof fn law_objects_of_unions_are_told_by_their_tag(
    union: crate::json_schema::union::UnionView,
    index: int,
    value_expr: Seq<char>,
)
    ensures
        union.discriminant matches Some(name) ==> (union.variants[index].discriminant_value
            matches Some(value) ==> crate::json_schema::annotation::object_condition(union, index, value_expr)
            == Some(
            "__nexgenDefinitions.isPlainObject("@ + value_expr + ") && ("@ + value_expr
                + " as unknown as Record<string, unknown>)["@ + crate::json_schema::ts_text::string_literal(name)
                + "] === "@ + crate::json_schema::ts_text::value_literal(value),
        )),
        union.discriminant is None && crate::json_schema::parse::first_object(union.variants) == Some(index)
            ==> crate::json_schema::annotation::object_condition(union, index, value_expr) == Some(
            "__nexgenDefinitions.isPlainObject("@ + value_expr + ")"@,
        ),
        union.discriminant is None && crate::json_schema::parse::first_object(union.variants) != Some(index)
            ==> crate::json_schema::annotation::object_condition(union, index, value_expr) is None,
{
}

/// A member of a union is told by the type that its schema asks for.
pub proof fn law_members_are_told_by_their_type(
    ctx: TsContext,
    models: Seq<JsonModel>,
    branch: Schema,
    discriminant: Option<Seq<char>>,
    value_expr: Seq<char>,
)
    requires
        branch.reference is None,
    ensures
        ({
            let found = crate::json_schema::union::variant_of(ctx, models, branch, discriminant);
            let guard = crate::json_schema::union::variant_guard(found->Some_0, value_expr);
            &&& crate::json_schema::schema::has_type(branch, "string"@) ==> found is Some && guard == Some(
                "typeof "@ + value_expr + " === '"@ + "string"@ + "'"@,
            ) && found->Some_0.label == "string"@
            &&& crate::json_schema::schema::has_type(branch, "number"@) ==> found is Some && guard == Some(
                "typeof "@ + value_expr + " === '"@ + "number"@ + "'"@,
            ) && found->Some_0.label == "number"@
            &&& crate::json_schema::schema::has_type(branch, "boolean"@) ==> found is Some && guard == Some(
                "typeof "@ + value_expr + " === '"@ + "boolean"@ + "'"@,
            ) && found->Some_0.label == "boolean"@
            &&& crate::json_schema::schema::has_type(branch, "integer"@) ==> found is Some && guard == Some(
                "typeof "@ + value_expr + " === 'number' && Number.isSafeInteger("@ + value_expr
                    + ")"@,
            ) && found->Some_0.label == "integer"@
            &&& crate::json_schema::schema::has_type(branch, "array"@) ==> found is Some && guard == Some(
                "Array.isArray("@ + value_expr + ")"@,
            ) && found->Some_0.is_array
            &&& crate::json_schema::schema::has_type(branch, "object"@) ==> found is Some
                && found->Some_0.is_object && found->Some_0.converter is None
                && found->Some_0.label == "object"@
            &&& crate::json_schema::schema::has_type(branch, "null"@) ==> found is None
        }),
{
    crate::json_schema::intake::lemma_type_names_differ();
}

/// An object that is referred to is a member under the name of its model, with the converter of
/// that model, and the tag that its own schema has.
pub proof fn law_referred_objects_keep_their_converter(
    ctx: TsContext,
    branch: Schema,
    schema: Schema,
    reference: Seq<char>,
    discriminant: Option<Seq<char>>,
)
    requires
        branch.reference matches Some(text) && text@ == reference,
    ensures
        ({
            let made = crate::json_schema::union::object_variant(ctx, branch, schema, true, discriminant);
            let name = crate::json_schema::ts_text::referenced_model(ctx, reference);
            &&& made.ts_type == name
            &&& made.label == name
            &&& made.converter == Some(crate::naming::lower_camel(name) + "TransferTypeConverter"@)
            &&& discriminant matches Some(tag) ==> made.discriminant_value == crate::json_schema::union::tag_of(
                schema,
                tag,
            )
            &&& discriminant is None ==> made.discriminant_value is None
        }),
{
}

/// A tag is the fixed value of a member that is required; a member with one value is fixed.
pub proof fn law_tags_are_fixed_and_required(object: Schema, name: Seq<char>, value: JsonValue)
    ensures
        crate::json_schema::union::tag_of(object, name) == Some(value) ==> (object.required matches Some(required)
            && crate::text::texts(required@).contains(name)),
        forall|property: Schema| #[trigger]
            crate::json_schema::union::discriminator_const(property) == Some(value) ==> property.const_value
                == Some(value) || (property.enum_values matches Some(values) && values@ =~= seq![
                value,
            ]),
        forall|property: Schema|
            property.const_value == Some(value) ==> #[trigger] crate::json_schema::union::discriminator_const(
                property,
            ) == Some(value),
{
}

/// A union says which of its members it expects, each by its label in the order of the members.
pub proof fn law_expected_members_are_listed(union: crate::json_schema::union::UnionView, i: int)
    requires
        0 <= i < union.variants.len(),
    ensures
        crate::json_schema::union::labels_of(union.variants).len() == union.variants.len(),
        crate::json_schema::union::labels_of(union.variants)[i] == union.variants[i].label,
        crate::json_schema::union::admissible_text(union) == crate::text::join(crate::json_schema::union::labels_of(union.variants), ", "@),
    decreases union.variants.len(),
{
    let before = crate::json_schema::union::UnionView { variants: union.variants.drop_last(), ..union };
    if union.variants.len() > 1 {
        if i < union.variants.len() - 1 {
            law_expected_members_are_listed(before, i);
        } else {
            law_expected_members_are_listed(before, 0);
        }
    } else {
        assert(crate::json_schema::union::labels_of(union.variants.drop_last()) =~= Seq::empty());
    }
}

/// A tagged object is read by the converter of the member whose tag it has.
pub proof fn law_tagged_objects_are_read_by_their_converter(
    variants: Seq<crate::json_schema::union::VariantView>,
    i: int,
    raw_expr: Seq<char>,
    target: Seq<char>,
    path_expr: Seq<char>,
    indent: Seq<char>,
)
    requires
        0 <= i < variants.len(),
        variants[i].is_object,
        variants[i].discriminant_value is Some,
        variants[i].converter is Some,
    ensures
        crate::json_schema::annotation::has_part(
            crate::json_schema::parse::case_texts(variants, raw_expr, target, path_expr, indent),
            indent + "    case "@ + crate::json_schema::ts_text::value_literal(
                variants[i].discriminant_value->Some_0,
            ) + ":\n"@ + indent + "      try {\n"@ + indent + "        "@ + target + " = "@
                + variants[i].converter->Some_0 + ".fromTransferType("@ + raw_expr + ");\n"@
                + indent + "      } catch (error) {\n"@ + indent
                + "        __nexgenDefinitions.collect(violations, "@ + path_expr + ", error);\n"@,
        ),
        crate::json_schema::parse::tag_literals(variants).contains(
            crate::json_schema::ts_text::value_literal(variants[i].discriminant_value->Some_0),
        ),
    decreases variants.len(),
{
    let literal = crate::json_schema::ts_text::value_literal(variants[i].discriminant_value->Some_0);
    let part = indent + "    case "@ + literal + ":\n"@ + indent + "      try {\n"@ + indent
        + "        "@ + target + " = "@ + variants[i].converter->Some_0 + ".fromTransferType("@
        + raw_expr + ");\n"@ + indent + "      } catch (error) {\n"@ + indent
        + "        __nexgenDefinitions.collect(violations, "@ + path_expr + ", error);\n"@;
    let before = crate::json_schema::parse::case_texts(variants.drop_last(), raw_expr, target, path_expr, indent);
    let all = crate::json_schema::parse::tag_literals(variants);
    let tags = crate::json_schema::parse::tag_literals(variants.drop_last());
    crate::json_schema::sides::lemma_part_stays(part);
    if i < variants.len() - 1 {
        law_tagged_objects_are_read_by_their_converter(
            variants.drop_last(),
            i,
            raw_expr,
            target,
            path_expr,
            indent,
        );
        let k = choose|k: int| 0 <= k < tags.len() && tags[k] == literal;
        assert(all[k] == literal);
    } else {
        assert(crate::json_schema::annotation::has_part(part + indent, part));
        assert(all =~= tags.push(literal));
        assert(all[all.len() - 1] == literal);
    }
}

/// The first member of a union is asked for by `if`, and the others behind it; a simple member is
/// assigned under its guard.
pub proof fn law_members_are_asked_for_in_turn(
    ctx: TsContext,
    variant: crate::json_schema::union::VariantView,
    condition: Seq<char>,
    raw_expr: Seq<char>,
    target: Seq<char>,
    path_expr: Seq<char>,
    indent: Seq<char>,
)
    ensures
        crate::json_schema::parse::clause_text(true, condition, indent) == indent + "if ("@ + condition + ") {\n"@,
        crate::json_schema::parse::clause_text(false, condition, indent) == indent + "} else if ("@ + condition
            + ") {\n"@,
        !variant.is_array ==> (crate::json_schema::union::variant_guard(variant, raw_expr) matches Some(guard)
            ==> crate::json_schema::annotation::has_part(
            crate::json_schema::parse::simple_branch(
                ctx,
                variant,
                true,
                raw_expr,
                target,
                path_expr,
                indent,
                Seq::empty(),
            ),
            indent + "if ("@ + guard + ") {\n"@ + indent + "  "@ + target + " = "@ + raw_expr
                + " as "@ + variant.ts_type + ";\n"@,
        )),
{
    match crate::json_schema::union::variant_guard(variant, raw_expr) {
        Some(guard) => {
            let part = indent + "if ("@ + guard + ") {\n"@ + indent + "  "@ + target + " = "@
                + raw_expr + " as "@ + variant.ts_type + ";\n"@;
            crate::json_schema::sides::lemma_part_stays(part);
        },
        None => {},
    }
}

/// A value that no member of the union takes is reported with the members that are expected, and
/// null is taken where the union may be null.
#[verifier::rlimit(40)]
pub proof fn law_unions_refuse_what_no_member_takes(
    union: crate::json_schema::union::UnionView,
    raw_expr: Seq<char>,
    target: Seq<char>,
    path_expr: Seq<char>,
    indent: Seq<char>,
)
    ensures
        ({
            let end = crate::json_schema::parse::union_end(union, raw_expr, target, path_expr, indent);
            &&& crate::json_schema::annotation::has_part(
                end,
                "} else {\n"@ + indent + "  violations.push({ path: "@ + path_expr
                    + ", reason: 'expected one of: "@ + crate::text::join(
                    crate::json_schema::union::labels_of(union.variants),
                    ", "@,
                ) + "' });\n"@,
            )
            &&& union.nullable ==> crate::json_schema::annotation::has_part(end, "if ("@ + (raw_expr + " === null"@) + ") {\n"@)
                && crate::json_schema::annotation::has_part(end, target + " = null as unknown as "@)
        }),
{
    let end = crate::json_schema::parse::union_end(union, raw_expr, target, path_expr, indent);
    let any = crate::json_schema::parse::first_object(union.variants) is Some || crate::json_schema::parse::has_clause(
        union.variants,
    );
    let condition = raw_expr + " === null"@;
    let clause = crate::json_schema::parse::clause_text(!any, condition, indent);
    let member = crate::json_schema::parse::first_type(union);
    let null_branch = if union.nullable {
        clause + indent + "  "@ + target + " = null as unknown as "@ + member + ";\n"@
    } else {
        Seq::empty()
    };
    let refused = "} else {\n"@ + indent + "  violations.push({ path: "@ + path_expr
        + ", reason: 'expected one of: "@ + crate::text::join(crate::json_schema::union::labels_of(union.variants), ", "@)
        + "' });\n"@;
    let rest = indent + "}\n"@;
    assert(end =~= (null_branch + indent) + refused + rest);
    crate::json_schema::sides::lemma_part_of(null_branch + indent, refused, rest);
    if union.nullable {
        let asked = "if ("@ + condition + ") {\n"@;
        let given = target + " = null as unknown as "@;
        if !any {
            assert(clause =~= indent + asked + Seq::<char>::empty());
            crate::json_schema::sides::lemma_part_of(indent, asked, Seq::empty());
        } else {
            reveal_strlit("} else if (");
            reveal_strlit("} else ");
            reveal_strlit("if (");
            assert("} else if ("@ =~= "} else "@ + "if ("@);
            assert(clause =~= (indent + "} else "@) + asked + Seq::<char>::empty());
            crate::json_schema::sides::lemma_part_of(indent + "} else "@, asked, Seq::empty());
        }
        assert(crate::json_schema::annotation::has_part(end, asked)) by {
            crate::json_schema::sides::lemma_part_stays(asked);
        }
        let opened = clause + indent + "  "@;
        assert(null_branch =~= opened + given + (member + ";\n"@));
        crate::json_schema::sides::lemma_part_of(opened, given, member + ";\n"@);
        assert(crate::json_schema::annotation::has_part(end, given)) by {
            crate::json_schema::sides::lemma_part_stays(given);
        }
    }
}

} // verus!
