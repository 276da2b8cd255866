//! What passes through a model beside its members: the entries of maps, what is not declared, the
//! members of unions, and what stands inside of other values.

use vstd::prelude::*;

use crate::error::ErrorView;
use crate::json_schema::schema::{Encoding, Property, Schema, TemporalKind};
use crate::json_schema::ts_text::{JsonModel, TsContext};
use crate::json_schema::value::JsonValue;
use crate::output::TsDateTimeTypes;

verus! {

/// What stands behind a text is a part of it.
proof fn lemma_four_behind(before: Seq<char>, a: Seq<char>, b: Seq<char>, c: Seq<char>, d: Seq<char>)
    ensures
        crate::json_schema::annotation::has_part(before + a + b + c + d, a + b + c + d),
        before + a + b + c + d == before + (a + b + c + d),
{
    let part = a + b + c + d;
    assert(before + a + b + c + d =~= before + part + Seq::<char>::empty());
    crate::json_schema::sides::lemma_part_of(before, part, Seq::empty());
    assert(before + part + Seq::<char>::empty() =~= before + part);
}

/// What stands behind a text and before another is a part of both together.
proof fn lemma_five_between(before: Seq<char>, a: Seq<char>, b: Seq<char>, c: Seq<char>, d: Seq<char>, e: Seq<char>, after: Seq<char>)
    ensures
        crate::json_schema::annotation::has_part(before + a + b + c + d + e + after, a + b + c + d + e),
        before + a + b + c + d + e == before + (a + b + c + d + e),
{
    let part = a + b + c + d + e;
    assert(before + a + b + c + d + e =~= before + part);
    crate::json_schema::sides::lemma_part_of(before, part, after);
}

/// What stands behind a text and before another is a part of both together.
proof fn lemma_six_between(
    before: Seq<char>,
    a: Seq<char>,
    b: Seq<char>,
    c: Seq<char>,
    d: Seq<char>,
    e: Seq<char>,
    f: Seq<char>,
    after: Seq<char>,
)
    ensures
        crate::json_schema::annotation::has_part(before + a + b + c + d + e + f + after, a + b + c + d + e + f),
{
    let part = a + b + c + d + e + f;
    assert(before + a + b + c + d + e + f =~= before + part);
    crate::json_schema::sides::lemma_part_of(before, part, after);
}

/// A part stays one when more is written behind.
proof fn lemma_five_on(text: Seq<char>, a: Seq<char>, b: Seq<char>, c: Seq<char>, d: Seq<char>, e: Seq<char>, part: Seq<char>)
    requires
        crate::json_schema::annotation::has_part(text, part),
    ensures
        crate::json_schema::annotation::has_part(text + a + b + c + d + e, part),
{
    crate::json_schema::sides::lemma_part_stays(part);
}

/// An entry of a map, and an entry that is not declared, is written under its own key; where its
/// form has to be made, only once its checks have found nothing.
pub proof fn law_entries_are_written_under_their_key(ctx: TsContext, members: Schema)
    ensures
        ({
            let checks = crate::json_schema::fields::member_checks(ctx, members, "entry"@, "path"@, "    "@);
            let entry = crate::json_schema::annotation::collecting_wire_expr(ctx, members, "entry"@, "path"@);
            let plain = crate::json_schema::annotation::wire_expr(ctx, members, "entry"@) == "entry"@;
            &&& plain ==> crate::json_schema::annotation::has_part(
                crate::json_schema::model::map_entry_text(ctx, members),
                checks + "    out[key] = "@ + entry + ";\n"@,
            )
            &&& plain ==> crate::json_schema::model::open_entry_text(ctx, members) == checks + "    out[key] = "@
                + entry + ";\n"@
            &&& !plain ==> crate::json_schema::annotation::has_part(
                crate::json_schema::model::map_entry_text(ctx, members),
                checks
                    + "    if (violations.length === memberViolationCount) {\n      out[key] = "@
                    + entry + ";\n    }\n"@,
            )
            &&& !plain ==> crate::json_schema::annotation::has_part(
                crate::json_schema::model::open_entry_text(ctx, members),
                checks
                    + "    if (violations.length === memberViolationCount) {\n      out[key] = "@
                    + entry + ";\n    }\n"@,
            )
        }),
{
    let checks = crate::json_schema::fields::member_checks(ctx, members, "entry"@, "path"@, "    "@);
    let entry = crate::json_schema::annotation::collecting_wire_expr(ctx, members, "entry"@, "path"@);
    if crate::json_schema::annotation::wire_expr(ctx, members, "entry"@) == "entry"@ {
        lemma_four_behind(
            "    const path = __nexgenDefinitions.memberPath(key);\n"@,
            checks,
            "    out[key] = "@,
            entry,
            ";\n"@,
        );
    } else {
        lemma_four_behind(
            "    const memberViolationCount = violations.length;\n    const path = __nexgenDefinitions.memberPath(key);\n"@,
            checks,
            "    if (violations.length === memberViolationCount) {\n      out[key] = "@,
            entry,
            ";\n    }\n"@,
        );
        lemma_four_behind(
            "    const memberViolationCount = violations.length;\n"@,
            checks,
            "    if (violations.length === memberViolationCount) {\n      out[key] = "@,
            entry,
            ";\n    }\n"@,
        );
    }
}

/// What a model does not declare is written beside its members, unless its key is one of them.
pub proof fn law_undeclared_members_do_not_collide(ctx: TsContext, model_name: Seq<char>, schema: Schema)
    ensures
        !crate::json_schema::annotation::open_object(schema) ==> crate::json_schema::model::open_members(ctx, model_name, schema)
            == Ok::<Seq<char>, ErrorView>(Seq::empty()),
        crate::json_schema::annotation::open_object(schema) ==> (crate::json_schema::model::open_members(ctx, model_name, schema)
            matches Ok(text) ==> crate::text::has_prefix(
            text,
            "  for (const [key, entry] of Object.entries(value.additionalProperties ?? {})) {\n    const path = __nexgenDefinitions.memberPath(key);\n    if ("@
                + (crate::naming::shouty_snake(model_name) + "_DECLARED"@)
                + ".has(key)) {\n      violations.push({ path, reason: 'catch-all key collides with declared property' });\n      continue;\n    }\n"@,
        )),
        crate::json_schema::annotation::open_object(schema) ==> (crate::json_schema::annotation::member_schema(schema) matches Ok(
            Some(members),
        ) ==> (crate::json_schema::model::open_members(ctx, model_name, schema) matches Ok(text)
            && crate::json_schema::annotation::has_part(text, crate::json_schema::model::open_entry_text(ctx, members)))),
        crate::json_schema::annotation::open_object(schema) && crate::json_schema::annotation::member_schema(schema) == Ok::<
            Option<Schema>,
            ErrorView,
        >(None) ==> (crate::json_schema::model::open_members(ctx, model_name, schema) matches Ok(text)
            && crate::text::has_suffix(text, "    out[key] = entry;\n  }\n"@)),
{
    let opened = "  for (const [key, entry] of Object.entries(value.additionalProperties ?? {})) {\n    const path = __nexgenDefinitions.memberPath(key);\n    if ("@
        + (crate::naming::shouty_snake(model_name) + "_DECLARED"@)
        + ".has(key)) {\n      violations.push({ path, reason: 'catch-all key collides with declared property' });\n      continue;\n    }\n"@;
    if crate::json_schema::annotation::open_object(schema) {
        match crate::json_schema::annotation::member_schema(schema) {
            Ok(Some(members)) => {
                let entry = crate::json_schema::model::open_entry_text(ctx, members);
                let text = opened + entry + "  }\n"@;
                assert(text.take(opened.len() as int) =~= opened);
                crate::json_schema::sides::lemma_part_of(opened, entry, "  }\n"@);
            },
            Ok(None) => {
                let last = "    out[key] = entry;\n  }\n"@;
                let text = opened + last;
                assert(text.take(opened.len() as int) =~= opened);
                assert(text.skip(text.len() - last.len()) =~= last);
            },
            Err(_) => {},
        }
    }
}

/// The entries of a map are written in a loop over what the model holds.
pub proof fn law_maps_are_written_in_a_loop(
    ctx: TsContext,
    schema: Schema,
    shape: crate::json_schema::annotation::MapShape,
    needed: bool,
)
    ensures
        ({
            let text = crate::json_schema::model::map_serializer(ctx, schema, shape, needed);
            let head = "  if (!__nexgenDefinitions.isPlainObject(value.additionalProperties)) {\n    throw createPayloadValidationError([{ path: '', reason: 'expected object' }]);\n  }\n  for (const [key, entry] of Object.entries(value.additionalProperties)) {\n"@;
            &&& shape.value_schema matches Some(members) ==> crate::text::has_prefix(
                text,
                head + crate::json_schema::model::map_entry_text(ctx, members) + "  }\n"@,
            )
            &&& shape.value_schema is None ==> crate::text::has_prefix(
                text,
                head + "    out[key] = entry;\n"@ + "  }\n"@,
            )
        }),
{
    let text = crate::json_schema::model::map_serializer(ctx, schema, shape, needed);
    let head = "  if (!__nexgenDefinitions.isPlainObject(value.additionalProperties)) {\n    throw createPayloadValidationError([{ path: '', reason: 'expected object' }]);\n  }\n  for (const [key, entry] of Object.entries(value.additionalProperties)) {\n"@;
    let entry = match shape.value_schema {
        Some(members) => crate::json_schema::model::map_entry_text(ctx, members),
        None => "    out[key] = entry;\n"@,
    };
    let start = head + entry + "  }\n"@;
    let checks = crate::json_schema::model::map_final(ctx, schema, needed);
    assert(text =~= start + (checks + "  return out;\n"@));
    assert((start + (checks + "  return out;\n"@)).take(start.len() as int) =~= start);
}

/// What was read of a model is handed out as one object: the members that are required, and what is
/// not declared where the model keeps it.
pub proof fn law_what_was_read_is_handed_out(model_name: Seq<char>, schema: Schema)
    requires
        schema.properties is Some,
        !crate::json_schema::model::some_readonly_optional(schema.properties->Some_0@, schema),
    ensures
        ({
            let members = crate::json_schema::model::required_member_texts(schema.properties->Some_0@, schema);
            let optional = crate::json_schema::model::optional_assignment_texts(schema.properties->Some_0@, schema);
            let text = crate::json_schema::model::parser_result_text(model_name, schema);
            &&& !crate::json_schema::annotation::open_object(schema) ==> text == "  const out: "@ + model_name
                + " = { "@ + crate::text::join(members, ", "@) + " };\n"@ + optional + "  return out;\n"@
            &&& crate::json_schema::annotation::open_object(schema) ==> text == "  const out: "@ + model_name
                + " = { "@ + crate::text::join(members.push("additionalProperties"@), ", "@) + " };\n"@
                + optional + "  return out;\n"@
        }),
{
    let members = crate::json_schema::model::required_member_texts(schema.properties->Some_0@, schema);
    assert(members + Seq::<Seq<char>>::empty() =~= members);
    assert(members + seq!["additionalProperties"@] =~= members.push("additionalProperties"@));
}

/// What the check of a whole object is made of.
#[verifier::rlimit(40)]
proof fn lemma_whole_text(
    object_expr: Seq<char>,
    path_expr: Seq<char>,
    suffix: Seq<char>,
    indent: Seq<char>,
    inner: Seq<char>,
    checks: Seq<char>,
    text: Seq<char>,
)
    requires
        text == indent + "try {\n"@ + inner
            + "const violations: __nexgenDefinitions.Violation[] = [];\n"@ + inner
            + "const __keys"@ + suffix + " = Object.keys("@ + object_expr + ");\n"@ + checks + inner
            + "if (violations.length) {\n"@ + inner
            + "  throw createPayloadValidationError(violations);\n"@ + inner + "}\n"@ + indent
            + "} catch (error) {\n"@ + indent + "  __nexgenDefinitions.collect(violations, "@
            + path_expr + ", error);\n"@ + indent + "}\n"@,
    ensures
        crate::json_schema::annotation::has_part(
            text,
            "const __keys"@ + suffix + " = Object.keys("@ + object_expr + ");\n"@ + checks,
        ),
        crate::json_schema::annotation::has_part(
            text,
            "} catch (error) {\n"@ + indent + "  __nexgenDefinitions.collect(violations, "@
                + path_expr + ", error);\n"@,
        ),
        crate::json_schema::annotation::has_part(
            text,
            "if (violations.length) {\n"@ + inner
                + "  throw createPayloadValidationError(violations);\n"@,
        ),
{
    let a = indent + "try {\n"@ + inner
        + "const violations: __nexgenDefinitions.Violation[] = [];\n"@ + inner;
    let first = "const __keys"@ + suffix + " = Object.keys("@ + object_expr + ");\n"@ + checks;
    let b = a + first;
    assert(b =~= a + "const __keys"@ + suffix + " = Object.keys("@ + object_expr + ");\n"@
        + checks);
    let second = "if (violations.length) {\n"@ + inner
        + "  throw createPayloadValidationError(violations);\n"@;
    let c = b + inner + second;
    assert(c =~= b + inner + "if (violations.length) {\n"@ + inner
        + "  throw createPayloadValidationError(violations);\n"@);
    let d = c + inner + "}\n"@ + indent;
    let third = "} catch (error) {\n"@ + indent + "  __nexgenDefinitions.collect(violations, "@
        + path_expr + ", error);\n"@;
    let e = d + third;
    assert(e =~= d + "} catch (error) {\n"@ + indent
        + "  __nexgenDefinitions.collect(violations, "@ + path_expr + ", error);\n"@);
    assert(text == e + indent + "}\n"@);
    assert(crate::json_schema::annotation::has_part(text, first)) by {
        crate::json_schema::sides::lemma_part_stays(first);
    }
    assert(crate::json_schema::annotation::has_part(text, second)) by {
        crate::json_schema::sides::lemma_part_stays(second);
    }
    assert(crate::json_schema::annotation::has_part(text, third)) by {
        crate::json_schema::sides::lemma_part_stays(third);
    }
}

/// The whole of an object is checked on its own, and what that finds is reported where the object
/// stands.
pub proof fn law_whole_objects_report_where_they_stand(
    ctx: TsContext,
    schema: Schema,
    object_expr: Seq<char>,
    path_expr: Seq<char>,
    suffix: Seq<char>,
    indent: Seq<char>,
)
    ensures
        ({
            let inner = indent + "  "@;
            let checks = crate::json_schema::object::whole_checks(
                ctx,
                schema,
                object_expr,
                "__keys"@ + suffix,
                inner,
            );
            let text = crate::json_schema::object::object_constraints(
                ctx,
                schema,
                object_expr,
                path_expr,
                suffix,
                indent,
            );
            &&& checks.len() == 0 ==> text.len() == 0
            &&& checks.len() > 0 ==> {
                &&& crate::json_schema::annotation::has_part(
                    text,
                    "const __keys"@ + suffix + " = Object.keys("@ + object_expr + ");\n"@ + checks,
                )
                &&& crate::json_schema::annotation::has_part(
                    text,
                    "} catch (error) {\n"@ + indent + "  __nexgenDefinitions.collect(violations, "@
                        + path_expr + ", error);\n"@,
                )
                &&& crate::json_schema::annotation::has_part(
                    text,
                    "if (violations.length) {\n"@ + inner
                        + "  throw createPayloadValidationError(violations);\n"@,
                )
            }
        }),
{
    let inner = indent + "  "@;
    let checks = crate::json_schema::object::whole_checks(ctx, schema, object_expr, "__keys"@ + suffix, inner);
    let text = crate::json_schema::object::object_constraints(
        ctx,
        schema,
        object_expr,
        path_expr,
        suffix,
        indent,
    );
    reveal(crate::json_schema::object::object_constraints);
    if checks.len() > 0 {
        lemma_whole_text(object_expr, path_expr, suffix, indent, inner, checks, text);
    }
}

/// A closed object inside of a value refuses each key but those that it declares; an open one
/// refuses none.
pub proof fn law_closed_objects_refuse_other_keys(schema: Schema, keys_expr: Seq<char>, indent: Seq<char>)
    ensures
        !crate::json_schema::annotation::closed_schema(schema) ==> crate::json_schema::object::closed_keys_text(
            schema,
            keys_expr,
            indent,
        ).len() == 0,
        crate::json_schema::annotation::closed_schema(schema) ==> (schema.properties matches Some(properties)
            ==> properties@.len() > 0 ==> crate::json_schema::annotation::has_part(
            crate::json_schema::object::closed_keys_text(schema, keys_expr, indent),
            "for (const key of "@ + keys_expr + ") {\n"@ + indent + "  if ("@ + crate::text::join(
                crate::json_schema::model::unknown_key_texts(properties@),
                " && "@,
            ) + ") {\n"@ + indent
                + "    violations.push({ path: __nexgenDefinitions.memberPath(key), reason: 'unknown field' });\n"@,
        )),
{
    if crate::json_schema::annotation::closed_schema(schema) {
        match schema.properties {
            Some(properties) => {
                if properties@.len() > 0 {
                    crate::json_schema::members::law_unknown_keys_are_refused(properties@, schema, 0);
                    let condition = crate::text::join(crate::json_schema::model::unknown_key_texts(properties@), " && "@);
                    let part = "for (const key of "@ + keys_expr + ") {\n"@ + indent + "  if ("@
                        + condition + ") {\n"@ + indent
                        + "    violations.push({ path: __nexgenDefinitions.memberPath(key), reason: 'unknown field' });\n"@;
                    let end = indent + "  }\n"@ + indent + "}\n"@;
                    let text = crate::json_schema::object::closed_keys_text(schema, keys_expr, indent);
                    assert(text =~= indent + part + end);
                    crate::json_schema::sides::lemma_part_of(indent, part, end);
                }
            },
            None => {},
        }
    }
}

/// An object of a union is read by its tag: one case for each tag, and what has another tag is
/// refused with the tags that are expected.
pub proof fn law_objects_of_unions_are_read_by_their_tag(
    union: crate::json_schema::union::UnionView,
    name: Seq<char>,
    raw_expr: Seq<char>,
    target: Seq<char>,
    path_expr: Seq<char>,
    indent: Seq<char>,
    lone: Seq<char>,
)
    requires
        crate::json_schema::parse::first_object(union.variants) is Some,
        union.discriminant == Some(name),
    ensures
        ({
            let tag = "("@ + raw_expr + " as Record<string, unknown>)["@
                + crate::json_schema::ts_text::string_literal(name) + "]"@;
            let text = crate::json_schema::parse::object_branches(
                union,
                raw_expr,
                target,
                path_expr,
                indent,
                lone,
            );
            &&& crate::text::has_prefix(
                text,
                indent + "if ("@ + ("__nexgenDefinitions.isPlainObject("@ + raw_expr + ")"@)
                    + ") {\n"@,
            )
            &&& crate::json_schema::annotation::has_part(
                text,
                "  switch ("@ + tag + ") {\n"@ + crate::json_schema::parse::case_texts(
                    union.variants,
                    raw_expr,
                    target,
                    path_expr,
                    indent,
                ) + indent + "    default:\n"@ + indent + "      violations.push({ path: "@
                    + path_expr + ", reason: `unknown discriminator "@ + name + " ${String("@ + tag
                    + ")}: expected one of ["@ + crate::text::join(
                    crate::json_schema::parse::tag_literals(union.variants),
                    ", "@,
                ) + "]` });\n"@,
            )
        }),
{
    let tag = "("@ + raw_expr + " as Record<string, unknown>)["@ + crate::json_schema::ts_text::string_literal(name)
        + "]"@;
    let text = crate::json_schema::parse::object_branches(union, raw_expr, target, path_expr, indent, lone);
    let condition = "__nexgenDefinitions.isPlainObject("@ + raw_expr + ")"@;
    let clause = indent + "if ("@ + condition + ") {\n"@;
    let cases = crate::json_schema::parse::case_texts(union.variants, raw_expr, target, path_expr, indent);
    let all = crate::text::join(crate::json_schema::parse::tag_literals(union.variants), ", "@);
    let part = "  switch ("@ + tag + ") {\n"@ + cases + indent + "    default:\n"@ + indent
        + "      violations.push({ path: "@ + path_expr + ", reason: `unknown discriminator "@ + name
        + " ${String("@ + tag + ")}: expected one of ["@ + all + "]` });\n"@;
    lemma_switch_text(clause, indent, tag, cases, path_expr, name, all, part, text);
}

/// What the choice by a tag is made of.
proof fn lemma_switch_text(
    clause: Seq<char>,
    indent: Seq<char>,
    tag: Seq<char>,
    cases: Seq<char>,
    path_expr: Seq<char>,
    name: Seq<char>,
    all: Seq<char>,
    part: Seq<char>,
    text: Seq<char>,
)
    requires
        part == "  switch ("@ + tag + ") {\n"@ + cases + indent + "    default:\n"@ + indent
            + "      violations.push({ path: "@ + path_expr + ", reason: `unknown discriminator "@
            + name + " ${String("@ + tag + ")}: expected one of ["@ + all + "]` });\n"@,
        text == clause + indent + "  switch ("@ + tag + ") {\n"@ + cases + indent
            + "    default:\n"@ + indent + "      violations.push({ path: "@ + path_expr
            + ", reason: `unknown discriminator "@ + name + " ${String("@ + tag
            + ")}: expected one of ["@ + all + "]` });\n"@ + indent + "  }\n"@,
    ensures
        crate::text::has_prefix(text, clause),
        crate::json_schema::annotation::has_part(text, part),
{
    let before = clause + indent;
    let end = indent + "  }\n"@;
    let middle = before + part;
    assert(middle =~= before + "  switch ("@ + tag + ") {\n"@ + cases + indent + "    default:\n"@
        + indent + "      violations.push({ path: "@ + path_expr
        + ", reason: `unknown discriminator "@ + name + " ${String("@ + tag
        + ")}: expected one of ["@ + all + "]` });\n"@);
    assert(text == middle + indent + "  }\n"@);
    assert(text =~= before + part + end);
    crate::json_schema::sides::lemma_part_of(before, part, end);
    assert(text =~= clause + (indent + part + end));
    assert((clause + (indent + part + end)).take(clause.len() as int) =~= clause);
}

/// The object of a union that is alone is read by its converter, and what that refuses is reported
/// where the value stands.
pub proof fn law_lone_objects_are_read_by_their_converter(
    converter: Seq<char>,
    raw_expr: Seq<char>,
    target: Seq<char>,
    path_expr: Seq<char>,
    indent: Seq<char>,
)
    ensures
        crate::json_schema::parse::converted_object(converter, raw_expr, target, path_expr, indent) == indent
            + "  try {\n"@ + indent + "    "@ + target + " = "@ + converter + ".fromTransferType("@
            + raw_expr + ");\n"@ + indent + "  } catch (error) {\n"@ + indent
            + "    __nexgenDefinitions.collect(violations, "@ + path_expr + ", error);\n"@ + indent
            + "  }\n"@,
{
}

/// An array of a union is read into a place of its own, and assigned where it was read.
pub proof fn law_arrays_of_unions_are_assigned(
    ctx: TsContext,
    variant: crate::json_schema::union::VariantView,
    raw_expr: Seq<char>,
    target: Seq<char>,
    path_expr: Seq<char>,
    indent: Seq<char>,
    array: Seq<char>,
)
    requires
        variant.is_array,
    ensures
        crate::json_schema::annotation::has_part(
            crate::json_schema::parse::simple_branch(
                ctx,
                variant,
                true,
                raw_expr,
                target,
                path_expr,
                indent,
                array,
            ),
            array + indent + "  if ("@ + (target + "ArrayBranch"@) + " !== undefined) {\n    "@
                + target + " = "@ + (target + "ArrayBranch"@) + ";\n  }\n"@,
        ),
{
    let text = crate::json_schema::parse::simple_branch(
        ctx,
        variant,
        true,
        raw_expr,
        target,
        path_expr,
        indent,
        array,
    );
    let place = target + "ArrayBranch"@;
    let clause = crate::json_schema::parse::clause_text(true, "Array.isArray("@ + raw_expr + ")"@, indent);
    let before = clause + indent + "  let "@ + place + ": "@ + variant.ts_type
        + " = undefined as unknown as "@ + variant.ts_type + ";\n"@;
    let part = array + indent + "  if ("@ + place + " !== undefined) {\n    "@ + target + " = "@
        + place + ";\n  }\n"@;
    assert(before + part =~= before + array + indent + "  if ("@ + place
        + " !== undefined) {\n    "@ + target + " = "@ + place + ";\n  }\n"@);
    assert(text == before + part);
    crate::json_schema::sides::lemma_whole_part(part);
    crate::json_schema::sides::lemma_part_behind(before, part, part);
}

/// A temporal text is returned as it stands where every temporal value is a string, and else as the
/// value that stands for its kind.
pub proof fn law_temporal_texts_are_returned_by_their_kind(kind: TemporalKind)
    ensures
        crate::json_schema::runtime::temporal_result_text(kind, TsDateTimeTypes::String) == "  return value;\n"@,
        crate::json_schema::runtime::temporal_result_text(TemporalKind::DateTime, TsDateTimeTypes::Date)
            == "  return new Date(value.toUpperCase());\n"@,
        crate::json_schema::runtime::temporal_result_text(TemporalKind::Date, TsDateTimeTypes::Date)
            == "  return value;\n"@,
        crate::json_schema::runtime::temporal_result_text(TemporalKind::Time, TsDateTimeTypes::Date)
            == "  return canonicalizeTemporalTime(value);\n"@,
        crate::json_schema::runtime::temporal_result_text(TemporalKind::Time, TsDateTimeTypes::Temporal)
            == "  return canonicalizeTemporalTime(value);\n"@,
        crate::json_schema::runtime::temporal_result_text(TemporalKind::Duration, TsDateTimeTypes::Date)
            == "  return formatTemporalDuration(seconds);\n"@,
        crate::json_schema::runtime::temporal_result_text(TemporalKind::Duration, TsDateTimeTypes::Temporal)
            == "  return Temporal.Duration.from({ seconds });\n"@,
{
}

/// The reader of a temporal text bears the name by which it is called, gives back the type that
/// stands for its kind, and refuses before it returns.
pub proof fn law_readers_bear_the_name_by_which_they_are_called(
    kind: TemporalKind,
    repr: TsDateTimeTypes,
)
    ensures
        ({
            let text = crate::json_schema::runtime::temporal_parser_text(kind, repr);
            let name = crate::json_schema::ts_text::temporal_parser_name(kind);
            &&& crate::json_schema::ts_text::temporal_parse_text(kind) == "__nexgenDefinitions."@ + name
            &&& crate::text::has_prefix(
                text,
                "export function "@ + name
                    + "(value: string, path: string, violations: Violation[]): "@
                    + crate::json_schema::ts_text::temporal_type_text(kind, repr) + " | undefined {\n"@
                    + crate::json_schema::runtime::temporal_refusal_texts(kind)
                    + crate::json_schema::runtime::temporal_result_text(kind, repr),
            )
        }),
{
    let text = crate::json_schema::runtime::temporal_parser_text(kind, repr);
    let name = crate::json_schema::ts_text::temporal_parser_name(kind);
    let start = "export function "@ + name
        + "(value: string, path: string, violations: Violation[]): "@
        + crate::json_schema::ts_text::temporal_type_text(kind, repr) + " | undefined {\n"@
        + crate::json_schema::runtime::temporal_refusal_texts(kind) + crate::json_schema::runtime::temporal_result_text(kind, repr);
    assert(text == start + "}\n"@);
    assert((start + "}\n"@).take(start.len() as int) =~= start);
}

/// A value in memory is validated in the form in which it is written.
pub proof fn law_values_are_validated_as_they_are_written(repr: TsDateTimeTypes)
    ensures
        crate::json_schema::annotation::has_part(
            crate::json_schema::runtime::date_time_validator_text(repr),
            "  const wire = "@ + (if repr == TsDateTimeTypes::String {
                "value"@
            } else {
                "serializeTemporalDateTime(value)"@
            })
                + ";\n  if (!TEMPORAL_DATE_TIME_RE.test(wire) || !validTemporalCalendar(wire)) {\n    violations.push({ path, reason: `must be a valid date-time, got ${JSON.stringify(wire)}` });\n  }\n}\n"@,
        ),
        crate::text::has_suffix(
            crate::json_schema::runtime::date_validator_text(repr),
            (if repr == TsDateTimeTypes::Temporal {
                "serializeTemporalDate(value)"@
            } else {
                "value"@
            })
                + ";\n  if (!TEMPORAL_DATE_RE.test(wire) || !validTemporalCalendar(wire)) {\n    violations.push({ path, reason: `must be a valid date, got ${JSON.stringify(wire)}` });\n  }\n}\n"@,
        ),
        crate::text::has_suffix(
            crate::json_schema::runtime::duration_validator_text(repr),
            (if repr == TsDateTimeTypes::Temporal {
                "serializeTemporalDuration(value)"@
            } else {
                "value"@
            })
                + ";\n  if (!TEMPORAL_DURATION_RE.test(wire) || temporalDurationSeconds(wire) === undefined) {\n    violations.push({ path, reason: `must be a valid duration, got ${JSON.stringify(wire)}` });\n  }\n}\n"@,
        ),
{
    let first = "  const wire = "@ + (if repr == TsDateTimeTypes::String {
        "value"@
    } else {
        "serializeTemporalDateTime(value)"@
    })
        + ";\n  if (!TEMPORAL_DATE_TIME_RE.test(wire) || !validTemporalCalendar(wire)) {\n    violations.push({ path, reason: `must be a valid date-time, got ${JSON.stringify(wire)}` });\n  }\n}\n"@;
    let one = crate::json_schema::runtime::date_time_validator_text(repr);
    let before = one.take(one.len() - first.len());
    assert(one =~= before + first + Seq::<char>::empty());
    crate::json_schema::sides::lemma_part_of(before, first, Seq::empty());
    let second = (if repr == TsDateTimeTypes::Temporal {
        "serializeTemporalDate(value)"@
    } else {
        "value"@
    })
        + ";\n  if (!TEMPORAL_DATE_RE.test(wire) || !validTemporalCalendar(wire)) {\n    violations.push({ path, reason: `must be a valid date, got ${JSON.stringify(wire)}` });\n  }\n}\n"@;
    let two = crate::json_schema::runtime::date_validator_text(repr);
    assert(two.skip(two.len() - second.len()) =~= second);
    let third = (if repr == TsDateTimeTypes::Temporal {
        "serializeTemporalDuration(value)"@
    } else {
        "value"@
    })
        + ";\n  if (!TEMPORAL_DURATION_RE.test(wire) || temporalDurationSeconds(wire) === undefined) {\n    violations.push({ path, reason: `must be a valid duration, got ${JSON.stringify(wire)}` });\n  }\n}\n"@;
    let three = crate::json_schema::runtime::duration_validator_text(repr);
    assert(three.skip(three.len() - third.len()) =~= third);
}

/// A raw schema changes on the wire where it refers to a model, is temporal or encoded; an array and
/// a map do as what they hold does.
pub proof fn law_raw_schemas_change_by_what_they_hold(
    schema: JsonValue,
    repr: Option<TsDateTimeTypes>,
)
    ensures
        (crate::json_schema::value::member_of(schema, "$ref"@) matches Some(JsonValue::Text(_)))
            ==> crate::json_schema::schema::changes_on_wire(schema, repr),
        !crate::json_schema::schema::raw_reference(schema) ==> (crate::json_schema::schema::raw_temporal_kind(schema) matches Some(
            kind,
        ) ==> (crate::json_schema::schema::changes_on_wire(schema, repr) <==> crate::json_schema::schema::temporal_changes(
            kind,
            repr,
        ))),
        crate::json_schema::value::member_of(schema, "type"@) matches Some(JsonValue::Text(ty)) ==> (ty@
            == "string"@ ==> (crate::json_schema::value::member_of(schema, "contentEncoding"@) matches Some(
            JsonValue::Text(name),
        ) ==> (name@ == "base64"@ || name@ == "base64url"@ ==> (crate::json_schema::schema::raw_temporal_kind(schema)
            is None ==> crate::json_schema::schema::changes_on_wire(schema, repr))))),
{
}

/// A schema of one branch beside null is that branch, and is no union; one of two branches is a
/// union.
pub proof fn law_null_beside_one_branch_is_no_union(schema: Schema, null: Schema, branch: Schema)
    requires
        schema.one_of matches Some(branches) && (branches@ == seq![null, branch] || branches@
            == seq![branch, null]),
        crate::json_schema::annotation::type_includes(null, "null"@),
        !crate::json_schema::annotation::type_includes(branch, "null"@),
    ensures
        crate::json_schema::annotation::nullable_branch_of(schema) == Some(branch),
        crate::json_schema::annotation::branch_beside_null(schema) == Some(branch),
        crate::json_schema::annotation::has_null_branch(schema),
        !crate::json_schema::annotation::is_union(schema),
        crate::json_schema::annotation::null_allowed(schema),
{
    reveal_with_fuel(crate::json_schema::annotation::non_null_indices, 3);
    reveal_with_fuel(crate::json_schema::annotation::some_null_allowed, 3);
    let first = seq![null, branch];
    let second = seq![branch, null];
    assert(first.drop_last() =~= seq![null]);
    assert(second.drop_last() =~= seq![branch]);
    assert(seq![null].drop_last() =~= Seq::empty());
    assert(seq![branch].drop_last() =~= Seq::empty());
    assert(first.last() == branch && second.last() == null);
    assert(seq![null].last() == null && seq![branch].last() == branch);
    assert(crate::json_schema::annotation::null_allowed(null));
    assert(crate::json_schema::annotation::some_null_allowed(seq![null]));
    assert(crate::json_schema::annotation::some_null_allowed(first));
    assert(crate::json_schema::annotation::some_null_allowed(second));
}

/// A schema of two branches that are not null is a union.
pub proof fn law_two_branches_are_a_union(schema: Schema, first: Schema, second: Schema)
    requires
        schema.one_of matches Some(branches) && branches@ == seq![first, second],
        !crate::json_schema::annotation::type_includes(first, "null"@),
        !crate::json_schema::annotation::type_includes(second, "null"@),
    ensures
        crate::json_schema::annotation::is_union(schema),
        crate::json_schema::annotation::nullable_branch_of(schema) is None,
        !crate::json_schema::annotation::has_null_branch(schema),
{
    reveal_with_fuel(crate::json_schema::annotation::non_null_indices, 3);
    let both = seq![first, second];
    assert(both.drop_last() =~= seq![first]);
    assert(seq![first].drop_last() =~= Seq::empty());
    assert(both.last() == second);
    assert(seq![first].last() == first);
}

/// A value is checked when it is written where its schema asks for anything: a type, a reference, a
/// fixed value.
pub proof fn law_asked_for_values_are_checked(schema: Schema)
    requires
        schema.one_of is None,
    ensures
        crate::json_schema::fields::checked_on_wire(schema) <==> schema.reference is Some || schema.const_value
            is Some || schema.enum_values is Some || crate::json_schema::schema::has_type(schema, "string"@)
            || crate::json_schema::schema::has_type(schema, "boolean"@) || crate::json_schema::schema::has_type(schema, "number"@)
            || crate::json_schema::schema::has_type(schema, "integer"@) || crate::json_schema::schema::has_type(schema, "array"@)
            || crate::json_schema::schema::has_type(schema, "object"@) || crate::json_schema::schema::has_type(schema, "null"@),
{
}

/// A model is checked when it is written where it counts, names or keeps its members, declares any,
/// or maps to what is checked.
pub proof fn law_counted_models_are_checked(schema: Schema)
    ensures
        schema.min_properties is Some || schema.max_properties is Some
            || schema.dependent_required is Some || schema.property_names is Some
            ==> crate::json_schema::fields::validates_on_wire(schema) == Ok::<bool, ErrorView>(true),
        crate::json_schema::annotation::has_declared_members(schema) ==> (crate::json_schema::annotation::member_schema(schema) is Ok
            ==> crate::json_schema::fields::validates_on_wire(schema) == Ok::<bool, ErrorView>(true)),
{
}

/// A fixed value is kept as a constant under its own name, unless it is temporal or encoded.
pub proof fn law_fixed_values_are_constants(
    properties: Seq<Property>,
    model_name: Seq<char>,
    models: Seq<JsonModel>,
    i: int,
)
    requires
        0 <= i < properties.len(),
        properties[i].schema.const_value is Some,
        !crate::json_schema::model::materialized_property(properties[i].schema),
    ensures
        crate::json_schema::annotation::has_part(
            crate::json_schema::model::fixed_constant_texts(properties, model_name, models),
            "const "@ + crate::json_schema::model::claimed_name_text(
                model_name,
                crate::json_schema::schema::member_name_text(properties[i].schema, properties[i].name@),
                models,
                crate::json_schema::model::ConstNameCollisionKind::Const,
                ""@,
                "_CONST"@,
            ) + " = "@ + crate::json_schema::ts_text::value_literal(properties[i].schema.const_value->Some_0)
                + ";\n"@,
        ),
    decreases properties.len(),
{
    let part = "const "@ + crate::json_schema::model::claimed_name_text(
        model_name,
        crate::json_schema::schema::member_name_text(properties[i].schema, properties[i].name@),
        models,
        crate::json_schema::model::ConstNameCollisionKind::Const,
        ""@,
        "_CONST"@,
    ) + " = "@ + crate::json_schema::ts_text::value_literal(properties[i].schema.const_value->Some_0) + ";\n"@;
    crate::json_schema::sides::lemma_part_stays(part);
    if i < properties.len() - 1 {
        law_fixed_values_are_constants(properties.drop_last(), model_name, models, i);
    }
}

/// A temporal value is checked in the form in which it is written, where it has one, and encoded
/// bytes in theirs.
pub proof fn law_written_forms_are_checked(
    ctx: TsContext,
    schema: Schema,
    kind: TemporalKind,
    encoding: Encoding,
    value_expr: Seq<char>,
    path_expr: Seq<char>,
    indent: Seq<char>,
)
    ensures
        crate::json_schema::checks::wire_constraints(schema, false) ==> crate::json_schema::annotation::has_part(
            crate::json_schema::fields::temporal_checks(ctx, schema, kind, value_expr, path_expr, indent),
            "  const wire = "@ + crate::json_schema::ts_text::temporal_wire_text(kind, ctx.repr, value_expr)
                + ";\n"@ + indent + "  if (wire !== undefined) {\n"@,
        ),
        crate::json_schema::checks::wire_constraints(schema, true) ==> crate::json_schema::annotation::has_part(
            crate::json_schema::fields::encoded_checks(ctx, schema, encoding, value_expr, path_expr, indent),
            "  const wire = "@ + crate::json_schema::ts_text::encode_fn_text(encoding) + "("@ + value_expr
                + ");\n"@ + crate::json_schema::checks::string_assertions(
                ctx,
                "wire"@,
                path_expr,
                schema,
                indent + "  "@,
                true,
            ),
        ),
{
    if crate::json_schema::checks::wire_constraints(schema, false) {
        let validate = indent + crate::json_schema::ts_text::temporal_validate_text(kind) + "("@ + value_expr + ", "@
            + path_expr + ", violations);\n"@;
        let inner = indent + "    "@;
        let assertions = crate::json_schema::checks::string_assertions(
            ctx,
            "wire"@,
            path_expr,
            schema,
            inner,
            false,
        );
        let closed = crate::json_schema::checks::schema_closed_check(schema, "wire"@, path_expr, inner);
        let wire = crate::json_schema::ts_text::temporal_wire_text(kind, ctx.repr, value_expr);
        let before = validate + indent + "{\n"@ + indent;
        let part = "  const wire = "@ + wire + ";\n"@ + indent + "  if (wire !== undefined) {\n"@;
        lemma_five_between(
            before,
            "  const wire = "@,
            wire,
            ";\n"@,
            indent,
            "  if (wire !== undefined) {\n"@,
            assertions,
        );
        let start = before + "  const wire = "@ + wire + ";\n"@ + indent
            + "  if (wire !== undefined) {\n"@ + assertions;
        lemma_five_on(start, closed, indent, "  }\n"@, indent, "}\n"@, part);
    }
    if crate::json_schema::checks::wire_constraints(schema, true) {
        let inner = indent + "  "@;
        let assertions = crate::json_schema::checks::string_assertions(
            ctx,
            "wire"@,
            path_expr,
            schema,
            inner,
            true,
        );
        let closed = crate::json_schema::checks::schema_closed_check(schema, "wire"@, path_expr, inner);
        let encode = crate::json_schema::ts_text::encode_fn_text(encoding);
        let before = indent + "{\n"@ + indent;
        let part = "  const wire = "@ + encode + "("@ + value_expr + ");\n"@ + assertions;
        lemma_six_between(
            before,
            "  const wire = "@,
            encode,
            "("@,
            value_expr,
            ");\n"@,
            assertions,
            closed,
        );
        let start = before + "  const wire = "@ + encode + "("@ + value_expr + ");\n"@ + assertions
            + closed;
        crate::json_schema::sides::lemma_part_stays(part);
        assert(crate::json_schema::annotation::has_part(start + indent + "}\n"@, part));
    }
}

/// Each element of an array is checked at its own index, where elements are checked.
pub proof fn law_elements_are_checked_at_their_index(
    ctx: TsContext,
    schema: Schema,
    items: Schema,
    value_expr: Seq<char>,
    path_expr: Seq<char>,
    indent: Seq<char>,
    depth: u64,
    follow: u128,
)
    requires
        schema.items matches Some(boxed) && *boxed == items,
    ensures
        ({
            let suffix = crate::json_schema::ts_text::depth_suffix(depth);
            let element = "element"@ + suffix;
            let index = "index"@ + suffix;
            let text = crate::json_schema::fields::element_checks(
                ctx,
                schema,
                value_expr,
                path_expr,
                indent,
                depth,
                follow,
            );
            &&& !crate::json_schema::fields::checked_on_wire(items) ==> text.len() == 0
            &&& crate::json_schema::fields::checked_on_wire(items) && !crate::json_schema::annotation::null_allowed(items) ==> text
                == indent + value_expr + ".forEach(("@ + element + ", "@ + index + ") => {\n"@
                + crate::json_schema::fields::field_checks(
                ctx,
                items,
                element,
                crate::json_schema::ts_text::indexed_path(path_expr, index),
                indent + "  "@,
                crate::json_schema::ts_text::deeper(depth),
                follow,
            ) + indent + "});\n"@
        }),
{
    reveal_with_fuel(crate::json_schema::fields::element_checks, 2);
}

/// A model of the module stands for a name before one of the tree does; a member is the first one of
/// its name.
pub proof fn law_models_of_the_module_come_first(
    ctx: TsContext,
    models: Seq<JsonModel>,
    reference: Seq<char>,
    branch: Schema,
    schema: Schema,
)
    ensures
        crate::json_schema::union::schema_named(models, crate::json_schema::ts_text::referenced_model(ctx, reference)) == Some(
            crate::json_schema::ts_text::ReadSchema::Read(schema),
        ) ==> crate::json_schema::union::found_schema(ctx, models, reference) == Some(schema),
        branch.reference is None ==> crate::json_schema::union::resolved(ctx, models, branch) == (branch, false),
        branch.reference matches Some(text) ==> (crate::json_schema::union::found_schema(ctx, models, text@)
            matches Some(found) ==> crate::json_schema::union::resolved(ctx, models, branch) == (found, true)),
{
}

/// A literal has no separator of lines or paragraphs: those are escaped, and nothing else is beside
/// what quoting escapes.
pub proof fn law_literals_have_no_separators(value: Seq<char>)
    ensures
        !crate::json_schema::ts_text::string_literal(value).contains('\u{2028}'),
        !crate::json_schema::ts_text::string_literal(value).contains('\u{2029}'),
        !crate::json_text::json_quoted(value).contains('\u{2028}')
            && !crate::json_text::json_quoted(value).contains('\u{2029}')
            ==> crate::json_schema::ts_text::string_literal(value) == crate::json_text::json_quoted(value),
{
    let quoted = crate::json_text::json_quoted(value);
    let one = "\\u2028"@;
    let two = "\\u2029"@;
    reveal_strlit("\\u2028");
    reveal_strlit("\\u2029");
    assert(one =~= seq!['\\', 'u', '2', '0', '2', '8']);
    assert(two =~= seq!['\\', 'u', '2', '0', '2', '9']);
    let first = crate::text::replaced_char(quoted, '\u{2028}', one);
    lemma_replaced_is_gone(quoted, '\u{2028}', one);
    lemma_replaced_is_gone(first, '\u{2029}', two);
    lemma_other_stays_away(first, '\u{2029}', two, '\u{2028}');
    lemma_unchanged(quoted, '\u{2028}', one);
    lemma_unchanged(first, '\u{2029}', two);
}

/// What is replaced is gone.
proof fn lemma_replaced_is_gone(text: Seq<char>, wanted: char, by: Seq<char>)
    requires
        forall|i: int| 0 <= i < by.len() ==> #[trigger] by[i] != wanted,
    ensures
        !crate::text::replaced_char(text, wanted, by).contains(wanted),
    decreases text.len(),
{
    let all = crate::text::replaced_char(text, wanted, by);
    if text.len() > 0 {
        lemma_replaced_is_gone(text.drop_last(), wanted, by);
        let before = crate::text::replaced_char(text.drop_last(), wanted, by);
        crate::characters::law_characters_are_replaced_where_they_stand(
            text.drop_last(),
            text.last(),
            wanted,
            by,
        );
        assert(text.drop_last().push(text.last()) =~= text);
        if all.contains(wanted) {
            let k = choose|k: int| 0 <= k < all.len() && all[k] == wanted;
            if k < before.len() {
                assert(before[k] == wanted);
            } else if text.last() == wanted {
                assert(all[k] == by[k - before.len()]);
            }
        }
    }
}

/// A character that does not stand in a text or in what is put in does not come in.
proof fn lemma_other_stays_away(text: Seq<char>, wanted: char, by: Seq<char>, other: char)
    requires
        !text.contains(other),
        forall|i: int| 0 <= i < by.len() ==> #[trigger] by[i] != other,
    ensures
        !crate::text::replaced_char(text, wanted, by).contains(other),
    decreases text.len(),
{
    let all = crate::text::replaced_char(text, wanted, by);
    if text.len() > 0 {
        if text.drop_last().contains(other) {
            let k = choose|k: int| 0 <= k < text.len() - 1 && text.drop_last()[k] == other;
            assert(text[k] == other);
        }
        assert(text.last() != other) by {
            assert(text[text.len() - 1] == text.last());
        }
        lemma_other_stays_away(text.drop_last(), wanted, by, other);
        let before = crate::text::replaced_char(text.drop_last(), wanted, by);
        crate::characters::law_characters_are_replaced_where_they_stand(
            text.drop_last(),
            text.last(),
            wanted,
            by,
        );
        assert(text.drop_last().push(text.last()) =~= text);
        if all.contains(other) {
            let k = choose|k: int| 0 <= k < all.len() && all[k] == other;
            if k < before.len() {
                assert(before[k] == other);
            } else if text.last() == wanted {
                assert(all[k] == by[k - before.len()]);
            }
        }
    }
}

/// A text without the character stays as it is.
proof fn lemma_unchanged(text: Seq<char>, wanted: char, by: Seq<char>)
    ensures
        !text.contains(wanted) ==> crate::text::replaced_char(text, wanted, by) == text,
    decreases text.len(),
{
    if !text.contains(wanted) && text.len() > 0 {
        if text.drop_last().contains(wanted) {
            let k = choose|k: int| 0 <= k < text.len() - 1 && text.drop_last()[k] == wanted;
            assert(text[k] == wanted);
        }
        assert(text.last() != wanted) by {
            assert(text[text.len() - 1] == text.last());
        }
        lemma_unchanged(text.drop_last(), wanted, by);
        crate::characters::law_characters_are_replaced_where_they_stand(
            text.drop_last(),
            text.last(),
            wanted,
            by,
        );
        assert(text.drop_last().push(text.last()) =~= text);
    }
}

/// A pattern is a literal between slashes where it can be one: where it is not empty, on one line,
/// and does not end in an escape.
pub proof fn law_patterns_are_literals_between_slashes(pattern: Seq<char>)
    ensures
        crate::json_schema::ts_text::regex_literal(pattern) matches Some(literal) ==> literal == "/"@
            + crate::json_schema::ts_text::regex_body(pattern).0 + "/u"@ && pattern.len() > 0 && !pattern.contains(
            '\n',
        ) && !pattern.contains('\r'),
        pattern.len() == 0 ==> crate::json_schema::ts_text::regex_literal(pattern) is None,
{
    if pattern.contains('\n') {
        let k = choose|k: int| 0 <= k < pattern.len() && pattern[k] == '\n';
        assert(crate::json_schema::ts_text::ends_line(pattern[k]));
    }
    if pattern.contains('\r') {
        let k = choose|k: int| 0 <= k < pattern.len() && pattern[k] == '\r';
        assert(crate::json_schema::ts_text::ends_line(pattern[k]));
    }
}

/// A slash of a pattern is escaped, unless it is; everything else stands as it is.
pub proof fn law_slashes_of_patterns_are_escaped(pattern: Seq<char>, c: char)
    ensures
        ({
            let (body, escaped) = crate::json_schema::ts_text::regex_body(pattern);
            let (more, open) = crate::json_schema::ts_text::regex_body(pattern.push(c));
            &&& c == '/' && !escaped ==> more == body.push('\\').push('/')
            &&& c != '/' || escaped ==> more == body.push(c)
            &&& open <==> c == '\\' && !escaped
        }),
{
    assert(pattern.push(c).drop_last() =~= pattern);
}

} // verus!
