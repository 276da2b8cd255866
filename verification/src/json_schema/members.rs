//! What the code of a model does with its members: how they are declared, asked for, read into the
//! model and written out of it.

use vstd::prelude::*;

use crate::error::ErrorView;
use crate::json_schema::schema::{Property, Schema};
use crate::json_schema::ts_text::{JsonModel, TsContext};
use crate::json_schema::value::JsonValue;

verus! {

/// A member that is required is reported where it is missing, and where it is null and must not be;
/// one that is not required is reported only where it is null and must not be.
pub proof fn law_missing_members_are_reported(json_name: Seq<char>, property: Schema)
    ensures
        ({
            let own = "Object.prototype.hasOwnProperty.call("@ + "raw"@ + ", "@
                + crate::json_schema::ts_text::string_literal(json_name) + ")"@;
            let access = "raw"@ + "["@ + crate::json_schema::ts_text::string_literal(json_name) + "]"@;
            let path = crate::json_schema::ts_text::violation_path(json_name);
            if crate::json_schema::annotation::null_allowed(property) {
                &&& crate::json_schema::model::presence_text(json_name, property, true) == "  if (!"@ + own
                    + ") {\n    violations.push({ path: "@ + path
                    + ", reason: 'required' });\n  } else {\n"@
                &&& crate::json_schema::model::presence_text(json_name, property, false) == "  if ("@ + own
                    + ") {\n"@
            } else {
                &&& crate::json_schema::model::presence_text(json_name, property, true) == "  if (!"@ + own + " || "@
                    + access + " === null) {\n    violations.push({ path: "@ + path
                    + ", reason: 'required' });\n  } else {\n"@
                &&& crate::json_schema::model::presence_text(json_name, property, false) == "  if ("@ + own
                    + " && "@ + access + " === null) {\n    violations.push({ path: "@ + path
                    + ", reason: 'explicit null not allowed' });\n  } else if ("@ + own + ") {\n"@
            }
        }),
{
}

/// A member is read from its own key, under its presence, into a variable of its own name; where it
/// is not required the variable may be undefined.
pub proof fn law_members_are_read_from_their_key(
    ctx: TsContext,
    model_name: Seq<char>,
    models: Seq<JsonModel>,
    json_name: Seq<char>,
    property: Schema,
    required: bool,
)
    ensures
        crate::json_schema::model::property_parser(ctx, model_name, models, json_name, property, required)
            matches Ok(text) ==> {
            let field = crate::json_schema::schema::member_name_text(property, json_name);
            let declared = crate::json_schema::annotation::annotation_of(ctx, property)->Ok_0;
            let parser = crate::json_schema::model::property_value_parser(
                ctx,
                model_name,
                models,
                json_name,
                property,
                field,
            )->Ok_0;
            &&& required ==> crate::text::has_prefix(text, "  let "@ + field + ": "@ + declared)
            &&& !required ==> crate::text::has_prefix(
                text,
                "  let "@ + field + ": "@ + crate::json_schema::annotation::optional_type(declared),
            )
            &&& crate::json_schema::annotation::has_part(
                text,
                crate::json_schema::model::presence_text(json_name, property, required) + parser + "  }\n"@,
            )
        },
{
    match crate::json_schema::model::property_parser(ctx, model_name, models, json_name, property, required) {
        Ok(text) => {
            let field = crate::json_schema::schema::member_name_text(property, json_name);
            let declared = crate::json_schema::annotation::annotation_of(ctx, property)->Ok_0;
            let annotation = if required {
                declared
            } else {
                crate::json_schema::annotation::optional_type(declared)
            };
            let presence = crate::json_schema::model::presence_text(json_name, property, required);
            let parser = crate::json_schema::model::property_value_parser(
                ctx,
                model_name,
                models,
                json_name,
                property,
                field,
            )->Ok_0;
            let head = "  let "@ + field + ": "@ + annotation;
            let opened = head + " = undefined as unknown as "@ + annotation + ";\n"@;
            let part = presence + parser + "  }\n"@;
            assert(text =~= opened + part + Seq::<char>::empty());
            crate::json_schema::sides::lemma_part_of(opened, part, Seq::empty());
            assert(text.take(head.len() as int) =~= head);
        },
        Err(_) => {},
    }
}

/// What is read of a member is what stands under its key, and what it refuses is reported at its
/// path.
pub proof fn law_members_are_read_by_their_schema(
    ctx: TsContext,
    model_name: Seq<char>,
    models: Seq<JsonModel>,
    json_name: Seq<char>,
    property: Schema,
    field: Seq<char>,
)
    requires
        property.const_value is None,
        property.enum_values is None,
    ensures
        ({
            let raw = "raw"@ + "["@ + crate::json_schema::ts_text::string_literal(json_name) + "]"@;
            let path = crate::json_schema::ts_text::violation_path(json_name);
            let read = crate::json_schema::model::property_value_parser(
                ctx,
                model_name,
                models,
                json_name,
                property,
                field,
            );
            &&& !crate::json_schema::annotation::is_union(property) ==> read == Ok::<Seq<char>, ErrorView>(
                crate::json_schema::parse::plain_parser(ctx, property, raw, field, path, "    "@),
            )
            &&& crate::json_schema::annotation::is_union(property) ==> read == Ok::<Seq<char>, ErrorView>(
                crate::json_schema::parse::union_parser(
                    ctx,
                    models,
                    property,
                    raw,
                    field,
                    path,
                    "    "@,
                    0,
                    crate::json_schema::fields::follow_limit(ctx),
                ),
            )
        }),
{
}

/// A member that is required is listed in what was read, and a member that is not is not; that one
/// is set only where it was read.
pub proof fn law_read_members_are_kept(properties: Seq<Property>, schema: Schema, i: int)
    requires
        0 <= i < properties.len(),
    ensures
        ({
            let member = crate::json_schema::schema::member_name_text(properties[i].schema, properties[i].name@);
            &&& crate::json_schema::union::member_required(schema, properties[i].name@)
                ==> crate::json_schema::model::required_member_texts(properties, schema).contains(member)
            &&& !crate::json_schema::union::member_required(schema, properties[i].name@) ==> crate::json_schema::annotation::has_part(
                crate::json_schema::model::optional_assignment_texts(properties, schema),
                "  if ("@ + member + " !== undefined) {\n    out."@ + member + " = "@ + member
                    + ";\n  }\n"@,
            )
        }),
    decreases properties.len(),
{
    let member = crate::json_schema::schema::member_name_text(properties[i].schema, properties[i].name@);
    let before = properties.drop_last();
    let listed = crate::json_schema::model::required_member_texts(before, schema);
    let all = crate::json_schema::model::required_member_texts(properties, schema);
    let part = "  if ("@ + member + " !== undefined) {\n    out."@ + member + " = "@ + member
        + ";\n  }\n"@;
    crate::json_schema::sides::lemma_part_stays(part);
    if i < properties.len() - 1 {
        assert(before[i] == properties[i]);
        law_read_members_are_kept(before, schema, i);
        if crate::json_schema::union::member_required(schema, properties[i].name@) {
            let k = choose|k: int| 0 <= k < listed.len() && listed[k] == member;
            assert(all[k] == member);
        }
    } else if crate::json_schema::union::member_required(schema, properties[i].name@) {
        assert(all[all.len() - 1] == member);
    }
}

/// Only members that are required are listed in what was read.
pub proof fn law_only_required_members_are_listed(properties: Seq<Property>, schema: Schema, k: int)
    requires
        0 <= k < crate::json_schema::model::required_member_texts(properties, schema).len(),
    ensures
        exists|i: int|
            0 <= i < properties.len() && crate::json_schema::union::member_required(
                schema,
                (#[trigger] properties[i]).name@,
            ) && crate::json_schema::schema::member_name_text(properties[i].schema, properties[i].name@)
                == crate::json_schema::model::required_member_texts(properties, schema)[k],
    decreases properties.len(),
{
    if properties.len() > 0 {
        let before = properties.drop_last();
        let listed = crate::json_schema::model::required_member_texts(before, schema);
        if k < listed.len() {
            law_only_required_members_are_listed(before, schema, k);
            let i = choose|i: int|
                0 <= i < before.len() && crate::json_schema::union::member_required(
                    schema,
                    (#[trigger] before[i]).name@,
                ) && crate::json_schema::schema::member_name_text(before[i].schema, before[i].name@) == listed[k];
            assert(properties[i] == before[i]);
        } else {
            assert(properties[properties.len() - 1] == properties.last());
        }
    }
}

/// A member is declared under its own name with its own type; it may be missing where it is not
/// required, and cannot be written to where it is fixed.
#[verifier::rlimit(40)]
pub proof fn law_members_are_declared_with_their_type(
    properties: Seq<Property>,
    ctx: TsContext,
    schema: Schema,
    i: int,
)
    requires
        0 <= i < properties.len(),
    ensures
        crate::json_schema::model::member_declaration_texts(properties, ctx, schema) matches Ok(text) ==> (
        crate::json_schema::annotation::annotation_of(ctx, properties[i].schema) matches Ok(annotation) && ({
            let key = crate::json_schema::ts_text::object_key(
                crate::json_schema::schema::member_name_text(properties[i].schema, properties[i].name@),
            );
            let required = crate::json_schema::union::member_required(schema, properties[i].name@);
            let fixed = properties[i].schema.const_value is Some;
            &&& required && !fixed ==> crate::json_schema::annotation::has_part(
                text,
                "  "@ + key + ": "@ + annotation + ";\n"@,
            )
            &&& !required && !fixed ==> crate::json_schema::annotation::has_part(
                text,
                "  "@ + key + "?"@ + ": "@ + annotation + ";\n"@,
            )
            &&& required && fixed ==> crate::json_schema::annotation::has_part(
                text,
                "  "@ + "readonly "@ + key + ": "@ + annotation + ";\n"@,
            )
            &&& !required && fixed ==> crate::json_schema::annotation::has_part(
                text,
                "  "@ + "readonly "@ + key + "?"@ + ": "@ + annotation + ";\n"@,
            )
        })),
    decreases properties.len(),
{
    let before = properties.drop_last();
    match crate::json_schema::model::member_declaration_texts(properties, ctx, schema) {
        Ok(text) => {
            let first = crate::json_schema::model::member_declaration_texts(before, ctx, schema)->Ok_0;
            let property = properties[i];
            let key = crate::json_schema::ts_text::object_key(
                crate::json_schema::schema::member_name_text(property.schema, property.name@),
            );
            let annotation = crate::json_schema::annotation::annotation_of(ctx, property.schema)->Ok_0;
            let required = crate::json_schema::union::member_required(schema, property.name@);
            let fixed = property.schema.const_value is Some;
            let readonly = if fixed {
                "readonly "@
            } else {
                Seq::empty()
            };
            let mark = if required {
                Seq::empty()
            } else {
                "?"@
            };
            let part = if fixed {
                if required {
                    "  "@ + "readonly "@ + key + ": "@ + annotation + ";\n"@
                } else {
                    "  "@ + "readonly "@ + key + "?"@ + ": "@ + annotation + ";\n"@
                }
            } else {
                if required {
                    "  "@ + key + ": "@ + annotation + ";\n"@
                } else {
                    "  "@ + key + "?"@ + ": "@ + annotation + ";\n"@
                }
            };
            if i < properties.len() - 1 {
                assert(before[i] == properties[i]);
                law_members_are_declared_with_their_type(before, ctx, schema, i);
                assert(crate::json_schema::annotation::has_part(text, part)) by {
                    crate::json_schema::sides::lemma_part_stays(part);
                }
            } else {
                let doc = crate::json_schema::model::schema_doc("  "@, property.schema);
                let last = doc + "  "@ + readonly + key + mark + ": "@ + annotation + ";\n"@;
                assert(last =~= doc + part + Seq::<char>::empty()) by {
                    assert("  "@ + Seq::<char>::empty() =~= "  "@);
                    assert(key + Seq::<char>::empty() =~= key);
                }
                crate::json_schema::sides::lemma_part_of(doc, part, Seq::empty());
                assert(crate::json_schema::annotation::has_part(text, part)) by {
                    crate::json_schema::sides::lemma_part_stays(part);
                }
            }
        },
        Err(_) => {},
    }
}

/// A member is written under its own key; where its form has to be made, only once its checks have
/// found nothing.
pub proof fn law_members_are_written_under_their_key(
    json_name: Seq<char>,
    field: Seq<char>,
    value_expr: Seq<char>,
    assignment: Seq<char>,
    checks: Seq<char>,
    indent: Seq<char>,
)
    ensures
        ({
            let text = crate::json_schema::model::gated_text(
                json_name,
                field,
                value_expr,
                assignment,
                checks,
                indent,
            );
            let target = "out"@ + "["@ + crate::json_schema::ts_text::string_literal(json_name) + "]"@;
            &&& assignment == value_expr ==> text == checks + indent + target + " = "@ + assignment
                + ";\n"@
            &&& assignment != value_expr ==> crate::json_schema::annotation::has_part(
                text,
                "const "@ + field + "ViolationCount = violations.length;\n"@ + checks + indent
                    + "if (violations.length === "@ + field + "ViolationCount) {\n"@ + indent
                    + "  "@ + target + " = "@ + assignment + ";\n"@,
            )
        }),
{
    let text = crate::json_schema::model::gated_text(json_name, field, value_expr, assignment, checks, indent);
    let target = "out"@ + "["@ + crate::json_schema::ts_text::string_literal(json_name) + "]"@;
    if assignment != value_expr {
        let part = "const "@ + field + "ViolationCount = violations.length;\n"@ + checks + indent
            + "if (violations.length === "@ + field + "ViolationCount) {\n"@ + indent + "  "@
            + target + " = "@ + assignment + ";\n"@;
        assert(text =~= indent + part + (indent + "}\n"@));
        crate::json_schema::sides::lemma_part_of(indent, part, indent + "}\n"@);
    }
}

/// A member that is required is reported where it is missing, when it is written too; one that is
/// not is left out; null is written only where it is allowed.
#[verifier::rlimit(40)]
pub proof fn law_missing_members_are_not_written(
    ctx: TsContext,
    model_name: Seq<char>,
    json_name: Seq<char>,
    property: Schema,
    models: Seq<JsonModel>,
)
    ensures
        ({
            let value = "value."@ + crate::json_schema::schema::member_name_text(property, json_name);
            let field = crate::json_schema::schema::member_name_text(property, json_name);
            let path = crate::json_schema::ts_text::violation_path(json_name);
            let always = crate::json_schema::model::property_serializer_text(
                ctx,
                model_name,
                json_name,
                property,
                models,
                true,
            );
            let sometimes = crate::json_schema::model::property_serializer_text(
                ctx,
                model_name,
                json_name,
                property,
                models,
                false,
            );
            &&& !crate::json_schema::annotation::null_allowed(property) ==> crate::json_schema::annotation::has_part(
                always,
                "  if ("@ + value + " === undefined || "@ + value
                    + " === null) {\n    violations.push({ path: "@ + path
                    + ", reason: 'required' });\n  } else {\n"@,
            )
            &&& crate::json_schema::annotation::has_part(
                sometimes,
                "  if (value."@ + field + " !== undefined) {\n"@,
            ) || crate::json_schema::annotation::has_part(
                sometimes,
                "  if (value."@ + field + " !== undefined) {\n    if ("@ + value
                    + " === null) {\n      violations.push({ path: "@ + path
                    + ", reason: 'explicit null not allowed' });\n    } else {\n"@,
            )
            &&& !crate::json_schema::annotation::null_allowed(property) ==> crate::json_schema::annotation::has_part(
                sometimes,
                "  if (value."@ + field + " !== undefined) {\n    if ("@ + value
                    + " === null) {\n      violations.push({ path: "@ + path
                    + ", reason: 'explicit null not allowed' });\n    } else {\n"@,
            )
        }),
{
    let value = "value."@ + crate::json_schema::schema::member_name_text(property, json_name);
    let field = crate::json_schema::schema::member_name_text(property, json_name);
    let path = crate::json_schema::ts_text::violation_path(json_name);
    let first = "  if ("@ + value + " === undefined || "@ + value
        + " === null) {\n    violations.push({ path: "@ + path
        + ", reason: 'required' });\n  } else {\n"@;
    let second = "  if (value."@ + field + " !== undefined) {\n"@;
    let third = "  if (value."@ + field + " !== undefined) {\n    if ("@ + value
        + " === null) {\n      violations.push({ path: "@ + path
        + ", reason: 'explicit null not allowed' });\n    } else {\n"@;
    crate::json_schema::sides::lemma_part_stays(first);
    crate::json_schema::sides::lemma_part_stays(second);
    crate::json_schema::sides::lemma_part_stays(third);
}

/// A model without other members refuses each key but those that it declares.
pub proof fn law_unknown_keys_are_refused(properties: Seq<Property>, schema: Schema, i: int)
    requires
        0 <= i < properties.len(),
        schema.properties matches Some(held) && held@ == properties,
    ensures
        crate::json_schema::model::unknown_key_texts(properties).len() == properties.len(),
        crate::json_schema::model::unknown_key_texts(properties)[i] == "key !== "@ + crate::json_schema::ts_text::string_literal(
            properties[i].name@,
        ),
        crate::json_schema::annotation::has_part(
            crate::json_schema::model::unknown_key_check(schema),
            "    if ("@ + crate::text::join(crate::json_schema::model::unknown_key_texts(properties), " && "@)
                + ") {\n      violations.push({ path: __nexgenDefinitions.memberPath(key), reason: 'unknown field' });\n"@,
        ),
{
    lemma_unknown_keys(properties, i);
    let condition = crate::text::join(crate::json_schema::model::unknown_key_texts(properties), " && "@);
    let head = "  for (const key of Object.keys(raw)) {\n"@;
    let asked = "    if ("@;
    reveal_strlit("  for (const key of Object.keys(raw)) {\n    if (");
    reveal_strlit("  for (const key of Object.keys(raw)) {\n");
    reveal_strlit("    if (");
    assert("  for (const key of Object.keys(raw)) {\n    if ("@ =~= head + asked);
    let whole = ") {\n      violations.push({ path: __nexgenDefinitions.memberPath(key), reason: 'unknown field' });\n    }\n  }\n\n"@;
    let reported = ") {\n      violations.push({ path: __nexgenDefinitions.memberPath(key), reason: 'unknown field' });\n"@;
    let end = "    }\n  }\n\n"@;
    reveal_strlit(") {\n      violations.push({ path: __nexgenDefinitions.memberPath(key), reason: 'unknown field' });\n    }\n  }\n\n");
    reveal_strlit(") {\n      violations.push({ path: __nexgenDefinitions.memberPath(key), reason: 'unknown field' });\n");
    reveal_strlit("    }\n  }\n\n");
    assert(whole =~= reported + end);
    let part = asked + condition + reported;
    assert(crate::json_schema::model::unknown_key_check(schema) =~= head + part + end);
    crate::json_schema::sides::lemma_part_of(head, part, end);
}

/// Each key that a model declares is compared.
proof fn lemma_unknown_keys(properties: Seq<Property>, i: int)
    requires
        0 <= i < properties.len(),
    ensures
        crate::json_schema::model::unknown_key_texts(properties).len() == properties.len(),
        crate::json_schema::model::unknown_key_texts(properties)[i] == "key !== "@ + crate::json_schema::ts_text::string_literal(
            properties[i].name@,
        ),
    decreases properties.len(),
{
    let before = properties.drop_last();
    if properties.len() > 1 {
        if i < properties.len() - 1 {
            lemma_unknown_keys(before, i);
        } else {
            lemma_unknown_keys(before, 0);
        }
    } else {
        assert(crate::json_schema::model::unknown_key_texts(before) =~= Seq::empty());
    }
}

/// A model refuses what is unknown where its schema is closed, and collects it where it is not.
pub proof fn law_other_members_are_refused_or_collected(
    ctx: TsContext,
    model_name: Seq<char>,
    schema: Schema,
)
    ensures
        crate::json_schema::annotation::closed_schema(schema) ==> crate::json_schema::model::other_members(ctx, model_name, schema)
            == Ok::<Seq<char>, ErrorView>(crate::json_schema::model::unknown_key_check(schema)),
        !crate::json_schema::annotation::closed_schema(schema) && crate::json_schema::annotation::has_declared_members(schema)
            ==> crate::json_schema::model::other_members(ctx, model_name, schema) == crate::json_schema::model::open_collection(
            ctx,
            model_name,
            schema,
        ),
        crate::json_schema::annotation::member_schema(schema) == Ok::<Option<Schema>, ErrorView>(None)
            ==> crate::json_schema::model::open_collection(ctx, model_name, schema) == Ok::<Seq<char>, ErrorView>(
            "  const additionalProperties: Record<string, unknown> = Object.create(null) as Record<string, unknown>;\n  for (const key of Object.keys(raw)) {\n    if (!"@
                + (crate::naming::shouty_snake(model_name) + "_DECLARED"@)
                + ".has(key)) {\n      additionalProperties[key] = raw[key];\n    }\n  }\n\n"@,
        ),
        crate::json_schema::annotation::member_schema(schema) matches Ok(Some(members)) ==> (
        crate::json_schema::model::open_collection(ctx, model_name, schema) matches Ok(text)
            ==> crate::json_schema::annotation::has_part(
            text,
            ".has(key)) {\n      const path = __nexgenDefinitions.memberPath(key);\n      let entry: "@,
        ) && crate::json_schema::annotation::has_part(
            text,
            crate::json_schema::parse::plain_parser(ctx, members, "raw[key]"@, "entry"@, "path"@, "      "@)
                + "      if (entry !== undefined) {\n        additionalProperties[key] = entry;\n      }\n    }\n  }\n\n"@,
        )),
{
    match crate::json_schema::annotation::member_schema(schema) {
        Ok(Some(members)) => match crate::json_schema::annotation::annotation_of(ctx, members) {
            Ok(annotation) => {
                let parser = crate::json_schema::parse::plain_parser(
                    ctx,
                    members,
                    "raw[key]"@,
                    "entry"@,
                    "path"@,
                    "      "@,
                );
                let asked = ".has(key)) {\n      const path = __nexgenDefinitions.memberPath(key);\n      let entry: "@;
                let opened = "  const additionalProperties: Record<string, "@ + annotation
                    + "> = Object.create(null) as Record<string, "@ + annotation
                    + ">;\n  for (const key of Object.keys(raw)) {\n    if (!"@
                    + crate::json_schema::ts_text::declared_const(model_name) + asked + annotation
                    + " | undefined = undefined;\n"@;
                let kept = "      if (entry !== undefined) {\n        additionalProperties[key] = entry;\n      }\n    }\n  }\n\n"@;
                let text = crate::json_schema::model::open_collection(ctx, model_name, schema)->Ok_0;
                assert(text == opened + parser + kept);
                assert(crate::json_schema::annotation::has_part(text, asked)) by {
                    crate::json_schema::sides::lemma_part_stays(asked);
                }
                assert(text =~= opened + (parser + kept) + Seq::<char>::empty());
                crate::json_schema::sides::lemma_part_of(opened, parser + kept, Seq::empty());
            },
            Err(_) => {},
        },
        _ => {},
    }
}

/// A union is written by the member that the value is: null as null, an object by its converter, a
/// scalar as it stands; what is none of them is refused.
pub proof fn law_unions_are_written_by_their_member(
    ctx: TsContext,
    union: crate::json_schema::union::UnionView,
    value_expr: Seq<char>,
)
    ensures
        ({
            let text = crate::json_schema::model::union_serializer(ctx, union, value_expr);
            &&& union.nullable ==> crate::text::has_prefix(
                text,
                "  if ("@ + value_expr + " === null) {\n    return null;\n  }\n"@,
            )
            &&& crate::json_schema::annotation::has_part(
                text,
                "  throw createPayloadValidationError([{ path: '', reason: 'expected one of: "@
                    + crate::text::join(crate::json_schema::union::labels_of(union.variants), ", "@) + "' }]);\n"@,
            )
        }),
        forall|i: int|
            0 <= i < union.variants.len() ==> #[trigger] crate::json_schema::annotation::has_part(
                crate::json_schema::model::union_serializer(ctx, union, value_expr),
                crate::json_schema::model::member_serializer(
                    ctx,
                    union.variants[i],
                    union.discriminant,
                    value_expr,
                ),
            ),
{
    let text = crate::json_schema::model::union_serializer(ctx, union, value_expr);
    let members = crate::json_schema::model::member_serializers(
        union.variants,
        ctx,
        union.discriminant,
        value_expr,
    );
    let null_member = if union.nullable {
        "  if ("@ + value_expr + " === null) {\n    return null;\n  }\n"@
    } else {
        Seq::empty()
    };
    let end = "  throw createPayloadValidationError([{ path: '', reason: 'expected one of: "@
        + crate::text::join(crate::json_schema::union::labels_of(union.variants), ", "@) + "' }]);\n"@;
    assert(text =~= null_member + members + end);
    assert(text.take(null_member.len() as int) =~= null_member);
    assert(text =~= (null_member + members) + end + Seq::<char>::empty());
    crate::json_schema::sides::lemma_part_of(null_member + members, end, Seq::empty());
    assert forall|i: int| 0 <= i < union.variants.len() implies #[trigger] crate::json_schema::annotation::has_part(
        text,
        crate::json_schema::model::member_serializer(ctx, union.variants[i], union.discriminant, value_expr),
    ) by {
        let part = crate::json_schema::model::member_serializer(
            ctx,
            union.variants[i],
            union.discriminant,
            value_expr,
        );
        lemma_member_stands(union.variants, ctx, union.discriminant, value_expr, i);
        crate::json_schema::sides::lemma_part_of_part(null_member, members, end, part);
    }
}

/// Each member of a union is asked for.
proof fn lemma_member_stands(
    variants: Seq<crate::json_schema::union::VariantView>,
    ctx: TsContext,
    discriminant: Option<Seq<char>>,
    value_expr: Seq<char>,
    i: int,
)
    requires
        0 <= i < variants.len(),
    ensures
        crate::json_schema::annotation::has_part(
            crate::json_schema::model::member_serializers(variants, ctx, discriminant, value_expr),
            crate::json_schema::model::member_serializer(ctx, variants[i], discriminant, value_expr),
        ),
    decreases variants.len(),
{
    let part = crate::json_schema::model::member_serializer(ctx, variants[i], discriminant, value_expr);
    crate::json_schema::sides::lemma_part_stays(part);
    if i < variants.len() - 1 {
        lemma_member_stands(variants.drop_last(), ctx, discriminant, value_expr, i);
    }
}

/// A member of a union is written where the value is of its type: an object with its tag by its own
/// converter, a scalar as it stands.
pub proof fn law_members_of_unions_are_written_by_their_type(
    ctx: TsContext,
    variant: crate::json_schema::union::VariantView,
    discriminant: Option<Seq<char>>,
    value_expr: Seq<char>,
)
    ensures
        ({
            let text = crate::json_schema::model::member_serializer(ctx, variant, discriminant, value_expr);
            &&& variant.is_object ==> (variant.converter matches Some(converter) ==> (
            discriminant matches Some(name) ==> (variant.discriminant_value matches Some(value)
                ==> text == "  if (("@ + value_expr + " as unknown as Record<string, unknown>)["@
                + crate::json_schema::ts_text::string_literal(name) + "] === "@ + crate::json_schema::ts_text::value_literal(value)
                + ") {\n    return "@ + converter + ".toTransferType("@ + value_expr + " as "@
                + variant.ts_type + ");\n  }\n"@)))
            &&& variant.is_object ==> (variant.converter matches Some(converter) ==> (
            discriminant is None ==> text == "  if (__nexgenDefinitions.isPlainObject("@
                + value_expr + ")) {\n    return "@ + converter + ".toTransferType("@ + value_expr
                + " as unknown as "@ + variant.ts_type + ");\n  }\n"@))
            &&& !variant.is_object && !variant.is_array && variant.is_integer ==> text
                == "  if (typeof "@ + value_expr + " === 'number' && Number.isSafeInteger("@
                + value_expr + ")) {\n    return "@ + value_expr + ";\n  }\n"@
            &&& !variant.is_object && !variant.is_array && !variant.is_integer ==> (
            variant.typeof_guard matches Some(guard) ==> text == "  if (typeof "@ + value_expr
                + " === '"@ + guard + "') {\n    return "@ + value_expr + ";\n  }\n"@)
            &&& !variant.is_object && variant.is_array ==> crate::text::has_prefix(
                text,
                "  if ("@ + ("Array.isArray("@ + value_expr + ")"@) + ") {\n    const out = "@,
            )
        }),
{
    if !variant.is_object && variant.is_array {
        let text = crate::json_schema::model::member_serializer(ctx, variant, discriminant, value_expr);
        let head = "  if ("@ + ("Array.isArray("@ + value_expr + ")"@) + ") {\n    const out = "@;
        assert(text.take(head.len() as int) =~= head);
    }
}

/// A default is exported under the name of its member, and a fixed value is kept under its own.
pub proof fn law_defaults_are_exported(properties: Seq<Property>, i: int)
    requires
        0 <= i < properties.len(),
        properties[i].schema.default is Some,
    ensures
        crate::json_schema::annotation::has_part(
            crate::json_schema::model::default_constant_texts(properties),
            "export const "@ + ("DEFAULT_"@ + crate::naming::shouty_snake(
                crate::json_schema::schema::member_name_text(properties[i].schema, properties[i].name@),
            )) + " = "@ + crate::json_schema::model::default_literal(
                properties[i].schema,
                properties[i].schema.default->Some_0,
            ) + ";\n"@,
        ),
    decreases properties.len(),
{
    let part = "export const "@ + ("DEFAULT_"@ + crate::naming::shouty_snake(
        crate::json_schema::schema::member_name_text(properties[i].schema, properties[i].name@),
    )) + " = "@ + crate::json_schema::model::default_literal(
        properties[i].schema,
        properties[i].schema.default->Some_0,
    ) + ";\n"@;
    crate::json_schema::sides::lemma_part_stays(part);
    if i < properties.len() - 1 {
        law_defaults_are_exported(properties.drop_last(), i);
    }
}

/// A default is the literal of its value; a temporal or encoded one is read by the reader of its
/// kind.
pub proof fn law_defaults_are_read_by_their_kind(schema: Schema, value: JsonValue)
    requires
        schema.one_of is None,
    ensures
        crate::json_schema::schema::temporal_kind_of(schema) is None && crate::json_schema::schema::content_encoding_of(schema)
            is None ==> crate::json_schema::model::default_literal(schema, value) == crate::json_schema::ts_text::value_literal(
            value,
        ),
        crate::json_schema::schema::temporal_kind_of(schema) matches Some(kind) ==> crate::json_schema::model::default_literal(
            schema,
            value,
        ) == crate::json_schema::ts_text::temporal_parse_text(kind) + "("@ + crate::json_schema::ts_text::value_literal(value)
            + ", '', [])!"@,
        crate::json_schema::schema::temporal_kind_of(schema) is None ==> (crate::json_schema::schema::content_encoding_of(schema)
            matches Some(encoding) ==> crate::json_schema::model::default_literal(schema, value)
            == crate::json_schema::ts_text::decode_fn_text(encoding) + "("@ + crate::json_schema::ts_text::value_literal(value)
            + ", '', [])!"@),
{
}

/// A constant bears the name of its member alone where only one model claims that name, and the name
/// of its model before it where others do.
pub proof fn law_claimed_names_are_told_apart(
    model_name: Seq<char>,
    member: Seq<char>,
    models: Seq<JsonModel>,
    kind: crate::json_schema::model::ConstNameCollisionKind,
    prefix: Seq<char>,
    suffix: Seq<char>,
)
    ensures
        crate::json_schema::model::claim_count(models, member, kind) == 1 ==> crate::json_schema::model::claimed_name_text(
            model_name,
            member,
            models,
            kind,
            prefix,
            suffix,
        ) == prefix + crate::naming::shouty_snake(member) + suffix,
        crate::json_schema::model::claim_count(models, member, kind) > 1 ==> crate::json_schema::model::claimed_name_text(
            model_name,
            member,
            models,
            kind,
            prefix,
            suffix,
        ) == prefix + crate::naming::shouty_snake(model_name) + "_"@ + crate::naming::shouty_snake(member) + suffix,
{
}

/// The converter of a model reads raw values into the model and writes the model out of it; that of
/// an alias is the converter of what it stands for.
#[verifier::rlimit(40)]
pub proof fn law_converters_read_and_write(ctx: TsContext, model: JsonModel, models: Seq<JsonModel>)
    ensures
        ({
            let name = model.model_name@;
            let made = crate::json_schema::model::model_converter(ctx, model, models);
            &&& model.bare_reference matches Some(reference) ==> made == Ok::<Seq<char>, ErrorView>(
                "export const "@ + (crate::naming::lower_camel(name) + "TransferTypeConverter"@)
                    + ": TransferTypeConverter<"@ + name + "> = "@ + (crate::naming::lower_camel(
                    crate::json_schema::ts_text::referenced_model(ctx, reference@),
                ) + "TransferTypeConverter"@) + ";\n"@,
            )
            &&& model.bare_reference is None ==> (made matches Ok(text) ==> crate::json_schema::annotation::has_part(
                text,
                "export const "@ + (crate::naming::lower_camel(name) + "TransferTypeConverter"@)
                    + " = new class implements TransferTypeConverter<"@ + name
                    + "> {\n  public fromTransferType(raw: unknown): "@ + name + " {\n"@,
            ) && crate::json_schema::annotation::has_part(
                text,
                "  }\n\n  public toTransferType(value: "@ + name + "): unknown {\n"@,
            ))
        }),
{
    let name = model.model_name@;
    let first = crate::json_schema::model::converter_opening(name);
    let second = crate::json_schema::model::converter_split(name);
    crate::json_schema::sides::lemma_part_stays(first);
    crate::json_schema::sides::lemma_part_stays(second);
}

/// A model is declared under its own name: as a type where it is an alias or a union, and as its
/// members where it has them.
pub proof fn law_models_are_declared_under_their_name(ctx: TsContext, model: JsonModel)
    ensures
        ({
            let name = model.model_name@;
            let made = crate::json_schema::model::model_interface(ctx, model);
            &&& model.bare_reference matches Some(reference) ==> made == Ok::<Seq<char>, ErrorView>(
                "export type "@ + name + " = "@ + crate::json_schema::ts_text::referenced_model(ctx, reference@)
                    + ";\n"@,
            )
            &&& model.bare_reference is None ==> (made matches Ok(text) ==> {
                let schema = crate::json_schema::model::decoded(model)->Ok_0;
                &&& crate::json_schema::annotation::is_union(schema) ==> crate::json_schema::annotation::has_part(
                    text,
                    "export type "@ + name + " = "@ + crate::json_schema::annotation::annotation_of(
                        ctx,
                        schema,
                    )->Ok_0 + ";\n"@,
                )
                &&& !crate::json_schema::annotation::is_union(schema) && !crate::json_schema::model::is_alias(schema)
                    ==> crate::json_schema::annotation::has_part(text, "export interface "@ + name + " {\n"@)
                &&& !crate::json_schema::annotation::is_union(schema) && crate::json_schema::model::is_alias(schema)
                    ==> crate::json_schema::annotation::has_part(text, "export type "@ + name + " = {\n"@)
            })
        }),
{
    let name = model.model_name@;
    match crate::json_schema::model::model_interface(ctx, model) {
        Ok(text) => {
            if model.bare_reference is None {
                let schema = crate::json_schema::model::decoded(model)->Ok_0;
                let doc = crate::json_schema::model::schema_doc(""@, schema);
                if crate::json_schema::annotation::is_union(schema) {
                    let annotation = crate::json_schema::annotation::annotation_of(ctx, schema)->Ok_0;
                    let part = "export type "@ + name + " = "@ + annotation + ";\n"@;
                    assert(text =~= doc + part + Seq::<char>::empty());
                    crate::json_schema::sides::lemma_part_of(doc, part, Seq::empty());
                } else {
                    let part = if crate::json_schema::model::is_alias(schema) {
                        "export type "@ + name + " = {\n"@
                    } else {
                        "export interface "@ + name + " {\n"@
                    };
                    let opened = if crate::json_schema::model::is_alias(schema) {
                        doc + "export type "@ + name + " = {\n"@
                    } else {
                        doc + "export interface "@ + name + " {\n"@
                    };
                    assert(opened =~= doc + part + Seq::<char>::empty());
                    crate::json_schema::sides::lemma_part_of(doc, part, Seq::empty());
                    assert(crate::json_schema::annotation::has_part(text, part)) by {
                        crate::json_schema::sides::lemma_part_stays(part);
                    }
                }
            }
        },
        Err(_) => {},
    }
}

/// The end of a text is a part of it.
proof fn lemma_ends(before: Seq<char>, middle: Seq<char>, last: Seq<char>)
    ensures
        crate::json_schema::annotation::has_part(before + middle + last, middle + last),
{
    let part = middle + last;
    assert(before + middle + last =~= before + part + Seq::<char>::empty());
    crate::json_schema::sides::lemma_part_of(before, part, Seq::empty());
}

/// A text starts with what it starts with.
proof fn lemma_starts(first: Seq<char>, rest: Seq<char>)
    ensures
        crate::text::has_prefix(first + rest, first),
{
    assert((first + rest).take(first.len() as int) =~= first);
}

/// A text that starts with something does so when more is written behind.
proof fn lemma_starts_on(first: Seq<char>, text: Seq<char>, rest: Seq<char>)
    requires
        crate::text::has_prefix(text, first),
    ensures
        crate::text::has_prefix(text + rest, first),
{
    assert((text + rest).take(first.len() as int) =~= text.take(first.len() as int));
}

/// What is read of a model is first told to be an object, then its members are read, then the others
/// and the counts are checked, and only what has no violation is handed out.
pub proof fn law_models_are_read_in_order(
    ctx: TsContext,
    model_name: Seq<char>,
    schema: Schema,
    models: Seq<JsonModel>,
)
    ensures
        crate::json_schema::model::model_parser(ctx, model_name, schema, models) matches Ok(text) ==> crate::text::has_prefix(
            text,
            "  const violations: __nexgenDefinitions.Violation[] = [];\n  if (!__nexgenDefinitions.isPlainObject(raw)) {\n    throw createPayloadValidationError([{ path: '', reason: 'expected object' }]);\n  }\n\n"@,
        ) && crate::json_schema::annotation::has_part(
            text,
            "  if (violations.length) {\n    throw createPayloadValidationError(violations);\n  }\n"@
                + (if crate::json_schema::annotation::map_shape(ctx, schema) is Ok && crate::json_schema::annotation::map_shape(
                ctx,
                schema,
            )->Ok_0 is Some {
                "  return { additionalProperties };\n"@
            } else {
                crate::json_schema::model::parser_result_text(model_name, schema)
            }),
        ),
{
    match crate::json_schema::model::model_parser(ctx, model_name, schema, models) {
        Ok(text) => {
            let opened = "  const violations: __nexgenDefinitions.Violation[] = [];\n  if (!__nexgenDefinitions.isPlainObject(raw)) {\n    throw createPayloadValidationError([{ path: '', reason: 'expected object' }]);\n  }\n\n"@;
            let thrown = "  if (violations.length) {\n    throw createPayloadValidationError(violations);\n  }\n"@;
            let shape = crate::json_schema::annotation::map_shape(ctx, schema)->Ok_0;
            if shape is Some {
                let last = "  return { additionalProperties };\n"@;
                let body = crate::json_schema::model::map_parser(ctx, schema, shape->Some_0);
                assert(crate::json_schema::annotation::has_part(body, thrown + last)) by {
                    let entry = match shape->Some_0.value_schema {
                        None => "    additionalProperties[key] = raw[key];\n"@,
                        Some(members) => "    const path = __nexgenDefinitions.memberPath(key);\n    let entry: "@
                            + shape->Some_0.value_annotation + " | undefined = undefined;\n"@
                            + crate::json_schema::parse::plain_parser(
                            ctx,
                            members,
                            "raw[key]"@,
                            "entry"@,
                            "path"@,
                            "    "@,
                        )
                            + "    if (entry !== undefined) {\n      additionalProperties[key] = entry;\n    }\n"@,
                    };
                    let before = "  const keys = Object.keys(raw);\n"@
                        + crate::json_schema::checks::property_count_checks("keys.length"@, schema, "  "@)
                        + crate::json_schema::model::map_names(ctx, schema)
                        + "  const additionalProperties: Record<string, "@
                        + shape->Some_0.value_annotation
                        + "> = Object.create(null) as Record<string, "@
                        + shape->Some_0.value_annotation + ">;\n  for (const key of keys) {\n"@
                        + entry + "  }\n"@;
                    assert(body == before + thrown + last);
                    lemma_ends(before, thrown, last);
                }
                crate::json_schema::sides::lemma_part_behind(opened, body, thrown + last);
                lemma_starts(opened, body);
            } else {
                let result = crate::json_schema::model::parser_result_text(model_name, schema);
                let parsed = match schema.properties {
                    Some(properties) => crate::json_schema::model::property_parser_texts(
                        properties@,
                        ctx,
                        model_name,
                        models,
                        schema,
                    ),
                    None => Ok(Seq::empty()),
                };
                let members = parsed->Ok_0;
                let others = crate::json_schema::model::other_members(ctx, model_name, schema)->Ok_0;
                let counts = crate::json_schema::checks::property_count_checks(
                    "Object.keys(raw).length"@,
                    schema,
                    "  "@,
                );
                let dependencies = crate::json_schema::checks::dependent_required_text("raw"@, schema, "  "@);
                let before = opened + members + others + counts + dependencies;
                assert(text == before + thrown + result);
                lemma_ends(before, thrown, result);
                lemma_starts(opened, members);
                lemma_starts_on(opened, opened + members, others);
                lemma_starts_on(opened, opened + members + others, counts);
                lemma_starts_on(opened, opened + members + others + counts, dependencies);
                lemma_starts_on(opened, before, thrown);
                lemma_starts_on(opened, before + thrown, result);
            }
        },
        Err(_) => {},
    }
}

/// What is written of a model is first told to be an object; where anything is checked, only what
/// has no violation is handed out.
pub proof fn law_models_are_written_in_order(
    ctx: TsContext,
    model_name: Seq<char>,
    schema: Schema,
    models: Seq<JsonModel>,
)
    ensures
        crate::json_schema::model::model_serializer(ctx, model_name, schema, models) matches Ok(text) ==> {
            &&& crate::text::has_prefix(
                text,
                "  const candidate: unknown = value;\n  if (!__nexgenDefinitions.isPlainObject(candidate)) {\n    throw createPayloadValidationError([{ path: '', reason: 'expected object' }]);\n  }\n"@,
            )
            &&& crate::text::has_suffix(text, "  return out;\n"@)
        },
{
    match crate::json_schema::model::model_serializer(ctx, model_name, schema, models) {
        Ok(text) => {
            let head = "  const candidate: unknown = value;\n  if (!__nexgenDefinitions.isPlainObject(candidate)) {\n    throw createPayloadValidationError([{ path: '', reason: 'expected object' }]);\n  }\n"@;
            let last = "  return out;\n"@;
            let needed = crate::json_schema::fields::validates_on_wire(schema)->Ok_0;
            let violations = if needed {
                "  const violations: __nexgenDefinitions.Violation[] = [];\n"@
            } else {
                Seq::empty()
            };
            let opened = head + violations
                + "  const out: Record<string, unknown> = Object.create(null) as Record<string, unknown>;\n"@;
            let shape = crate::json_schema::annotation::map_shape(ctx, schema)->Ok_0;
            if shape is Some {
                let body = crate::json_schema::model::map_serializer(ctx, schema, shape->Some_0, needed);
                assert(text == opened + body);
            } else {
                let members = match schema.properties {
                    Some(properties) => crate::json_schema::model::property_serializer_texts(
                        properties@,
                        ctx,
                        model_name,
                        models,
                        schema,
                    ),
                    None => Seq::empty(),
                };
                let others = crate::json_schema::model::open_members(ctx, model_name, schema)->Ok_0;
                let result = crate::json_schema::model::serializer_result_text(schema, needed);
                assert(text == opened + members + others + result);
            }
            assert(text.take(head.len() as int) =~= head);
            assert(text.skip(text.len() - last.len()) =~= last);
        },
        Err(_) => {},
    }
}

/// The comment of a schema has its title, its description behind a gap, and says where it is
/// deprecated.
pub proof fn law_comments_say_what_the_schema_says(indent: Seq<char>, schema: Schema)
    ensures
        ({
            let title = crate::json_schema::model::paragraph_lines(crate::text::opt_text(schema.title));
            let description = crate::json_schema::model::paragraph_lines(crate::text::opt_text(schema.description));
            let deprecated = schema.deprecated == Some(true);
            &&& title.len() > 0 && description.len() > 0 && deprecated ==> crate::json_schema::model::schema_doc(
                indent,
                schema,
            ) == crate::json_schema::model::doc_comment(
                indent,
                title + seq![""@] + description + seq!["@deprecated"@],
            )
            &&& title.len() > 0 && description.len() > 0 && !deprecated ==> crate::json_schema::model::schema_doc(
                indent,
                schema,
            ) == crate::json_schema::model::doc_comment(indent, title + seq![""@] + description)
            &&& title.len() == 0 && !deprecated ==> crate::json_schema::model::schema_doc(indent, schema)
                == crate::json_schema::model::doc_comment(indent, description)
            &&& description.len() == 0 && !deprecated ==> crate::json_schema::model::schema_doc(indent, schema)
                == crate::json_schema::model::doc_comment(indent, title)
        }),
{
    let title = crate::json_schema::model::paragraph_lines(crate::text::opt_text(schema.title));
    let description = crate::json_schema::model::paragraph_lines(crate::text::opt_text(schema.description));
    let none = Seq::<Seq<char>>::empty();
    assert(title + seq![""@] + description + none =~= title + seq![""@] + description);
    if title.len() == 0 {
        assert(title + none + description + none =~= description);
    }
    if description.len() == 0 {
        assert(title + none + description + none =~= title);
    }
}

/// A comment is closed behind its lines, and none of its lines closes it.
#[verifier::rlimit(40)]
pub proof fn law_comments_are_closed_once(indent: Seq<char>, lines: Seq<Seq<char>>, i: int)
    requires
        0 <= i < lines.len(),
    ensures
        crate::json_schema::model::doc_comment(indent, lines) == indent + "/**\n"@ + crate::json_schema::model::doc_line_texts(
            lines,
            indent,
        ) + indent + " */\n"@,
        lines[i].len() > 0 ==> crate::json_schema::annotation::has_part(
            crate::json_schema::model::doc_line_texts(lines, indent),
            indent + " * "@ + crate::text::replaced_text(lines[i], "*/"@, "*\\/"@) + "\n"@,
        ),
        lines[i].len() == 0 ==> crate::json_schema::annotation::has_part(
            crate::json_schema::model::doc_line_texts(lines, indent),
            indent + " *\n"@,
        ),
    decreases lines.len(),
{
    let full = indent + " * "@ + crate::text::replaced_text(lines[i], "*/"@, "*\\/"@) + "\n"@;
    let empty = indent + " *\n"@;
    crate::json_schema::sides::lemma_part_stays(full);
    crate::json_schema::sides::lemma_part_stays(empty);
    if i < lines.len() - 1 {
        law_comments_are_closed_once(indent, lines.drop_last(), i);
    }
}

/// A value inside of another is checked where it is required, refused where it is unknown, and
/// reported where it stands.
pub proof fn law_required_members_of_values_are_asked_for(
    names: Seq<Seq<char>>,
    object_expr: Seq<char>,
    indent: Seq<char>,
    i: int,
)
    requires
        0 <= i < names.len(),
    ensures
        crate::json_schema::annotation::has_part(
            crate::json_schema::object::required_texts(names, object_expr, indent),
            indent + "if (!"@ + ("Object.prototype.hasOwnProperty.call("@ + object_expr + ", "@
                + crate::json_schema::ts_text::string_literal(names[i]) + ")"@) + ") {\n"@ + indent
                + "  violations.push({ path: "@ + crate::json_schema::ts_text::violation_path(names[i])
                + ", reason: 'required' });\n"@ + indent + "}\n"@,
        ),
    decreases names.len(),
{
    let part = indent + "if (!"@ + ("Object.prototype.hasOwnProperty.call("@ + object_expr + ", "@
        + crate::json_schema::ts_text::string_literal(names[i]) + ")"@) + ") {\n"@ + indent
        + "  violations.push({ path: "@ + crate::json_schema::ts_text::violation_path(names[i])
        + ", reason: 'required' });\n"@ + indent + "}\n"@;
    crate::json_schema::sides::lemma_part_stays(part);
    if i < names.len() - 1 {
        law_required_members_of_values_are_asked_for(names.drop_last(), object_expr, indent, i);
    }
}

} // verus!
