//! The checks that a generated serializer makes on the values of a model.

use vstd::prelude::*;

use crate::error::{Error, ErrorView};
use crate::json_schema::annotation::{
    additional_properties_value_schema, allows_null, declares_members, is_open_object, is_ts_union,
    map_value_schema, nullable_non_null_schema,
};
use crate::json_schema::checks::{
    has_materialized_wire_constraints, render_ts_array_checks, render_ts_numeric_checks,
    render_ts_schema_closed_check, render_ts_string_assertions, render_ts_string_checks,
};
use crate::json_schema::object::render_object_constraints;
use crate::json_schema::parse::find_first_object;
use crate::json_schema::schema::{
    content_encoding_direct, has_array_constraints, has_numeric_constraints, has_string_constraints,
    temporal_kind_direct, ts_member_name, type_is, Encoding, Schema, TemporalKind,
};
use crate::json_schema::ts_text::{
    next_depth, ts_content_encoding_serialize_fn, ts_depth_suffix, ts_indexed_path, ts_keyed_path,
    ts_temporal_serialize_call,
    ts_temporal_type, ts_temporal_validate_fn, typescript_violation_path_literal, JsonModel,
    TsContext,
};
use crate::json_schema::union::{classify_ts_union, ts_variant_guard};
use crate::text::text_eq;

verus! {

/// Whether one of the branches is checked on its way to the wire.
pub open spec fn some_branch_checked(branches: Seq<Schema>) -> bool
    decreases branches, 0nat,
{
    if branches.len() == 0 {
        false
    } else {
        some_branch_checked(branches.drop_last()) || checked_on_wire(branches.last())
    }
}

/// Whether a value is checked on its way to the wire.
pub open spec fn checked_on_wire(schema: Schema) -> bool
    decreases schema, 1nat,
{
    proof {
        crate::json_schema::annotation::lemma_non_null_smaller(schema);
    }
    match crate::json_schema::annotation::nullable_branch_of(schema) {
        Some(branch) => checked_on_wire(branch),
        None => if schema.reference is Some || crate::json_schema::schema::temporal_kind_of(
            schema,
        ) is Some || schema.const_value is Some || schema.enum_values is Some {
            true
        } else if crate::json_schema::annotation::is_union(schema) {
            match schema.one_of {
                Some(branches) => some_branch_checked(branches@),
                None => false,
            }
        } else {
            crate::json_schema::schema::has_type(schema, "string"@)
                || crate::json_schema::schema::has_type(schema, "boolean"@)
                || crate::json_schema::schema::has_type(schema, "number"@)
                || crate::json_schema::schema::has_type(schema, "integer"@)
                || crate::json_schema::schema::has_type(schema, "array"@)
                || crate::json_schema::schema::has_type(schema, "object"@)
                || crate::json_schema::schema::has_type(schema, "null"@)
        },
    }
}

/// Whether a value is checked on its way to the wire.
pub fn field_needs_serialize_check(schema: &Schema) -> (checked: bool)
    ensures
        checked == checked_on_wire(*schema),
    decreases schema,
{
    proof {
        crate::json_schema::annotation::lemma_non_null_smaller(*schema);
    }
    match nullable_non_null_schema(schema) {
        Some(branch) => {
            return field_needs_serialize_check(branch);
        },
        None => {},
    }
    if schema.reference.is_some() || temporal_kind_direct(schema).is_some()
        || schema.const_value.is_some() || schema.enum_values.is_some() {
        return true;
    }
    if is_ts_union(schema) {
        return match &schema.one_of {
            Some(branches) => {
                let mut found = false;
                let mut i: usize = 0;
                while i < branches.len()
                    invariant
                        i <= branches.len(),
                        schema.one_of == Some(*branches),
                        found == some_branch_checked(branches@.take(i as int)),
                    decreases branches.len() - i,
                {
                    assert(branches@.take(i + 1).drop_last() =~= branches@.take(i as int));
                    proof {
                        crate::json_schema::annotation::lemma_branch_smaller(*schema, i as int);
                    }
                    if field_needs_serialize_check(&branches[i]) {
                        found = true;
                    }
                    i += 1;
                }
                assert(branches@.take(i as int) =~= branches@);
                found
            },
            None => false,
        };
    }
    type_is(schema, "string") || type_is(schema, "boolean") || type_is(schema, "number") || type_is(
        schema,
        "integer",
    ) || type_is(schema, "array") || type_is(schema, "object") || type_is(schema, "null")
}

/// Whether the serializer of a model checks anything. Whether a declared member is there is always
/// checked.
pub open spec fn validates_on_wire(schema: Schema) -> Result<bool, ErrorView> {
    if schema.min_properties is Some || schema.max_properties is Some
        || schema.dependent_required is Some || schema.property_names is Some
        || crate::json_schema::annotation::open_object(schema) {
        Ok(true)
    } else {
        match crate::json_schema::annotation::member_schema(schema) {
            Err(error) => Err(error),
            Ok(members) => Ok(
                crate::json_schema::annotation::has_declared_members(schema) || (
                    members matches Some(members) && checked_on_wire(members)),
            ),
        }
    }
}

/// Whether the serializer of a model checks anything. Whether a declared member is there is always
/// checked.
pub fn model_needs_serialize_validation(schema: &Schema) -> (result: Result<bool, Error>)
    ensures
        match (result, validates_on_wire(*schema)) {
            (Ok(found), Ok(wanted)) => found == wanted,
            (Err(error), Err(wanted)) => error@ == wanted,
            _ => false,
        },
{
    if schema.min_properties.is_some() || schema.max_properties.is_some()
        || schema.dependent_required.is_some() || schema.property_names.is_some() || is_open_object(
        schema,
    ) {
        return Ok(true);
    }
    match additional_properties_value_schema(schema) {
        Err(error) => Err(error),
        Ok(members) => {
            let member_checked = match members {
                Some(members) => field_needs_serialize_check(members),
                None => false,
            };
            Ok(declares_members(schema) || member_checked)
        },
    }
}

/// The test that a value in memory is of the type of a schema, where it is tested.
pub open spec fn type_test(
    ctx: TsContext,
    schema: Schema,
    value_expr: Seq<char>,
) -> Option<Seq<char>> {
    match crate::json_schema::schema::temporal_kind_of(schema) {
        Some(kind) => {
            let native = crate::json_schema::ts_text::temporal_type_text(kind, ctx.repr);
            if (native == "string"@) {
                Some("typeof "@ + value_expr + " === 'string'"@)
            } else {
                Some(value_expr + " instanceof "@ + native)
            }
        },
        None => if crate::json_schema::schema::content_encoding_of(schema) is Some {
            Some(value_expr + " instanceof Uint8Array"@)
        } else if crate::json_schema::schema::has_type(schema, "string"@) {
            Some("typeof "@ + value_expr + " === 'string'"@)
        } else if crate::json_schema::schema::has_type(schema, "boolean"@) {
            Some("typeof "@ + value_expr + " === 'boolean'"@)
        } else if crate::json_schema::schema::has_type(schema, "number"@) {
            Some("typeof "@ + value_expr + " === 'number'"@)
        } else if crate::json_schema::schema::has_type(schema, "integer"@) {
            Some(
                "typeof "@ + value_expr + " === 'number' && Number.isInteger("@ + value_expr
                    + ")"@,
            )
        } else if crate::json_schema::schema::has_type(schema, "array"@) {
            Some("Array.isArray("@ + value_expr + ")"@)
        } else if crate::json_schema::schema::has_type(schema, "object"@) {
            Some("__nexgenDefinitions.isPlainObject("@ + value_expr + ")"@)
        } else if crate::json_schema::schema::has_type(schema, "null"@) {
            Some(value_expr + " === null"@)
        } else {
            None
        },
    }
}

/// The test that a value in memory is of the type of a schema, where it is tested.
pub fn type_predicate(
    ctx: &TsContext,
    schema: &Schema,
    value_expr: &str,
) -> (result: Option<String>)
    ensures
        crate::text::opt_text(result) == type_test(*ctx, *schema, value_expr@),
{
    match temporal_kind_direct(schema) {
        Some(kind) => {
            let native = ts_temporal_type(kind, ctx.repr);
            if text_eq(native.as_str(), "string") {
                Some("typeof ".to_owned().concat(value_expr).concat(" === 'string'"))
            } else {
                Some(value_expr.to_owned().concat(" instanceof ").concat(native.as_str()))
            }
        },
        None => if content_encoding_direct(schema).is_some() {
            Some(value_expr.to_owned().concat(" instanceof Uint8Array"))
        } else if type_is(schema, "string") {
            Some("typeof ".to_owned().concat(value_expr).concat(" === 'string'"))
        } else if type_is(schema, "boolean") {
            Some("typeof ".to_owned().concat(value_expr).concat(" === 'boolean'"))
        } else if type_is(schema, "number") {
            Some("typeof ".to_owned().concat(value_expr).concat(" === 'number'"))
        } else if type_is(schema, "integer") {
            Some(
                "typeof ".to_owned().concat(value_expr).concat(" === 'number' && Number.isInteger(")
                    .concat(value_expr).concat(")"),
            )
        } else if type_is(schema, "array") {
            Some("Array.isArray(".to_owned().concat(value_expr).concat(")"))
        } else if type_is(schema, "object") {
            Some("__nexgenDefinitions.isPlainObject(".to_owned().concat(value_expr).concat(")"))
        } else if type_is(schema, "null") {
            Some(value_expr.to_owned().concat(" === null"))
        } else {
            None
        },
    }
}

/// What is reported of a value in memory that is of another type.
pub open spec fn type_reason_text(schema: Schema) -> Seq<char> {
    match crate::json_schema::schema::temporal_kind_of(schema) {
        Some(TemporalKind::DateTime) => "expected date-time"@,
        Some(TemporalKind::Date) => "expected date"@,
        Some(TemporalKind::Time) => "expected time"@,
        Some(TemporalKind::Duration) => "expected duration"@,
        None => if crate::json_schema::schema::content_encoding_of(schema) is Some {
            "expected bytes"@
        } else if crate::json_schema::schema::has_type(schema, "string"@) {
            "expected string"@
        } else if crate::json_schema::schema::has_type(schema, "boolean"@) {
            "expected boolean"@
        } else if crate::json_schema::schema::has_type(schema, "number"@) {
            "expected number"@
        } else if crate::json_schema::schema::has_type(schema, "integer"@) {
            "expected integer"@
        } else if crate::json_schema::schema::has_type(schema, "array"@) {
            "expected array"@
        } else if crate::json_schema::schema::has_type(schema, "object"@) {
            "expected object"@
        } else {
            "expected null"@
        },
    }
}

/// What is reported of a value in memory that is of another type.
pub fn type_reason(schema: &Schema) -> (result: String)
    ensures
        result@ == type_reason_text(*schema),
{
    match temporal_kind_direct(schema) {
        Some(TemporalKind::DateTime) => "expected date-time".to_owned(),
        Some(TemporalKind::Date) => "expected date".to_owned(),
        Some(TemporalKind::Time) => "expected time".to_owned(),
        Some(TemporalKind::Duration) => "expected duration".to_owned(),
        None => if content_encoding_direct(schema).is_some() {
            "expected bytes".to_owned()
        } else if type_is(schema, "string") {
            "expected string".to_owned()
        } else if type_is(schema, "boolean") {
            "expected boolean".to_owned()
        } else if type_is(schema, "number") {
            "expected number".to_owned()
        } else if type_is(schema, "integer") {
            "expected integer".to_owned()
        } else if type_is(schema, "array") {
            "expected array".to_owned()
        } else if type_is(schema, "object") {
            "expected object".to_owned()
        } else {
            "expected null".to_owned()
        },
    }
}

/// Checks behind the test of a type.
pub open spec fn type_guarded_text(
    predicate: Seq<char>,
    reason: Seq<char>,
    path_expr: Seq<char>,
    indent: Seq<char>,
    body: Seq<char>,
) -> Seq<char> {
    let guard = indent + "if (!("@ + predicate + ")) {\n"@ + indent + "  violations.push({ path: "@
        + path_expr + ", reason: '"@ + reason + "' });\n"@;
    if body.len() == 0 {
        guard + indent + "}\n"@
    } else {
        guard + indent + "} else {\n"@ + body + indent + "}\n"@
    }
}

/// Checks behind the test of a type.
pub fn type_guarded(
    predicate: &str,
    reason: &str,
    path_expr: &str,
    indent: &str,
    body: &str,
) -> (result: String)
    ensures
        result@ == type_guarded_text(predicate@, reason@, path_expr@, indent@, body@),
{
    let guard = indent.to_owned().concat("if (!(").concat(predicate).concat(")) {\n").concat(indent)
        .concat("  violations.push({ path: ").concat(path_expr).concat(", reason: '").concat(reason)
        .concat("' });\n");
    if body.is_empty() {
        guard.clone().concat(indent).concat("}\n")
    } else {
        guard.clone().concat(indent).concat("} else {\n").concat(body).concat(indent).concat("}\n")
    }
}

/// The checks of a temporal value in memory, and of its wire form where that is constrained.
pub open spec fn temporal_checks(
    ctx: TsContext,
    schema: Schema,
    kind: TemporalKind,
    value_expr: Seq<char>,
    path_expr: Seq<char>,
    indent: Seq<char>,
) -> Seq<char> {
    let validate = indent + crate::json_schema::ts_text::temporal_validate_text(kind) + "("@ + value_expr
        + ", "@ + path_expr + ", violations);\n"@;
    if crate::json_schema::checks::wire_constraints(schema, false) {
        let wire = crate::json_schema::ts_text::temporal_wire_text(kind, ctx.repr, value_expr);
        let inner = indent + "    "@;
        let assertions = crate::json_schema::checks::string_assertions(
            ctx,
            "wire"@,
            path_expr,
            schema,
            inner,
            false,
        );
        let closed = crate::json_schema::checks::schema_closed_check(
            schema,
            "wire"@,
            path_expr,
            inner,
        );
        (
            validate + indent + "{\n"@ + indent + "  const wire = "@ + wire + ";\n"@ + indent
                + "  if (wire !== undefined) {\n"@ + assertions + closed + indent + "  }\n"@
                + indent + "}\n"@
        )
    } else {
        validate
    }
}

/// The checks of a temporal value in memory, and of its wire form where that is constrained.
pub fn temporal_field_checks(
    ctx: &TsContext,
    schema: &Schema,
    kind: TemporalKind,
    value_expr: &str,
    path_expr: &str,
    indent: &str,
) -> (result: String)
    ensures
        result@ == temporal_checks(*ctx, *schema, kind, value_expr@, path_expr@, indent@),
{
    let validate = indent.to_owned().concat(ts_temporal_validate_fn(kind).as_str()).concat("(")
        .concat(value_expr).concat(", ").concat(path_expr).concat(", violations);\n");
    if has_materialized_wire_constraints(schema, false) {
        let wire = ts_temporal_serialize_call(kind, ctx.repr, value_expr);
        let inner = indent.to_owned().concat("    ");
        let assertions = render_ts_string_assertions(
            ctx,
            "wire",
            path_expr,
            schema,
            inner.as_str(),
            false,
        );
        let closed = render_ts_schema_closed_check(schema, "wire", path_expr, inner.as_str());
        validate.clone().concat(indent).concat("{\n").concat(indent).concat("  const wire = ")
            .concat(wire.as_str()).concat(";\n").concat(indent)
            .concat("  if (wire !== undefined) {\n").concat(assertions.as_str())
            .concat(closed.as_str()).concat(indent).concat("  }\n").concat(indent).concat("}\n")
    } else {
        validate
    }
}

/// The checks of the wire form of bytes, where it is constrained.
pub open spec fn encoded_checks(
    ctx: TsContext,
    schema: Schema,
    encoding: Encoding,
    value_expr: Seq<char>,
    path_expr: Seq<char>,
    indent: Seq<char>,
) -> Seq<char> {
    if crate::json_schema::checks::wire_constraints(schema, true) {
        let inner = indent + "  "@;
        let assertions = crate::json_schema::checks::string_assertions(
            ctx,
            "wire"@,
            path_expr,
            schema,
            inner,
            true,
        );
        let closed = crate::json_schema::checks::schema_closed_check(
            schema,
            "wire"@,
            path_expr,
            inner,
        );
        (
            indent + "{\n"@ + indent + "  const wire = "@
                + crate::json_schema::ts_text::encode_fn_text(encoding) + "("@ + value_expr
                + ");\n"@ + assertions + closed + indent + "}\n"@
        )
    } else {
        Seq::<char>::empty()
    }
}

/// The checks of the wire form of bytes, where it is constrained.
pub fn encoded_field_checks(
    ctx: &TsContext,
    schema: &Schema,
    encoding: Encoding,
    value_expr: &str,
    path_expr: &str,
    indent: &str,
) -> (result: String)
    ensures
        result@ == encoded_checks(*ctx, *schema, encoding, value_expr@, path_expr@, indent@),
{
    if has_materialized_wire_constraints(schema, true) {
        let inner = indent.to_owned().concat("  ");
        let assertions = render_ts_string_assertions(
            ctx,
            "wire",
            path_expr,
            schema,
            inner.as_str(),
            true,
        );
        let closed = render_ts_schema_closed_check(schema, "wire", path_expr, inner.as_str());
        indent.to_owned().concat("{\n").concat(indent).concat("  const wire = ")
            .concat(ts_content_encoding_serialize_fn(encoding).as_str()).concat("(")
            .concat(value_expr).concat(");\n").concat(assertions.as_str()).concat(closed.as_str())
            .concat(indent).concat("}\n")
    } else {
        String::new()
    }
}

/// How many references are followed from one union into another. No chain of references through
/// different models is longer, so one that is comes back to where it was: there it ends.
pub open spec fn follow_limit(ctx: TsContext) -> u128 {
    (ctx.tree_models@.len() + 1) as u128
}

/// How many references are followed from one union into another.
pub fn reference_limit(ctx: &TsContext) -> (limit: u128)
    ensures
        limit == follow_limit(*ctx),
{
    (ctx.tree_models.len() as u128) + 1
}

/// The checks of an inline value behind a test of its type.
pub open spec fn field_checks(
    ctx: TsContext,
    schema: Schema,
    value_expr: Seq<char>,
    path_expr: Seq<char>,
    indent: Seq<char>,
    depth: u64,
    follow: u128,
) -> Seq<char>
    decreases follow, schema, 2nat, 0nat,
{
    proof {
        crate::json_schema::annotation::lemma_non_null_smaller(schema);
    }
    match crate::json_schema::annotation::nullable_branch_of(schema) {
        Some(branch) => field_checks(ctx, branch, value_expr, path_expr, indent, depth, follow),
        None => match type_test(ctx, schema, value_expr) {
            Some(predicate) => type_guarded_text(
                predicate,
                type_reason_text(schema),
                path_expr,
                indent,
                field_body(
                    ctx,
                    schema,
                    value_expr,
                    path_expr,
                    indent + "  "@,
                    depth,
                    follow,
                ),
            ),
            None => field_body(ctx, schema, value_expr, path_expr, indent, depth, follow),
        },
    }
}

/// The checks of the elements of an array, where they are checked.
pub open spec fn element_checks(
    ctx: TsContext,
    schema: Schema,
    value_expr: Seq<char>,
    path_expr: Seq<char>,
    indent: Seq<char>,
    depth: u64,
    follow: u128,
) -> Seq<char>
    decreases follow, schema, 0nat, 0nat,
{
    proof {
        crate::json_schema::annotation::lemma_items_smaller(schema);
    }
    match schema.items {
        Some(items) => if checked_on_wire(*items) {
            let suffix = crate::json_schema::ts_text::depth_suffix(depth);
            let element = "element"@ + suffix;
            let index = "index"@ + suffix;
            let item_path = crate::json_schema::ts_text::indexed_path(path_expr, index);
            let nullable = crate::json_schema::annotation::null_allowed(*items);
            let item_indent = indent + "  "@;
            let check_indent = guarded_indent(nullable, item_indent);
            let checks = field_checks(
                ctx,
                *items,
                element,
                item_path,
                check_indent,
                crate::json_schema::ts_text::deeper(depth),
                follow,
            );
            let guarded = null_guarded(nullable, element, item_indent, checks);
            indent + value_expr + ".forEach(("@ + element + ", "@ + index + ") => {\n"@ + guarded
                + indent + "});\n"@
        } else {
            Seq::empty()
        },
        None => Seq::empty(),
    }
}

/// Checks of a value that may be `null`, in which case they are left out.
pub open spec fn null_guarded(
    nullable: bool,
    value_expr: Seq<char>,
    indent: Seq<char>,
    checks: Seq<char>,
) -> Seq<char> {
    if nullable {
        indent + "if ("@ + value_expr + " !== null) {\n"@ + checks + indent + "}\n"@
    } else {
        checks
    }
}

/// Checks of a value that may be `null`, in which case they are left out.
pub fn guard_null(nullable: bool, value_expr: &str, indent: &str, checks: &str) -> (result: String)
    ensures
        result@ == null_guarded(nullable, value_expr@, indent@, checks@),
{
    if nullable {
        indent.to_owned().concat("if (").concat(value_expr).concat(" !== null) {\n").concat(checks)
            .concat(indent).concat("}\n")
    } else {
        checks.to_owned()
    }
}

/// The indentation of checks that may stand behind a test for `null`.
pub open spec fn guarded_indent(nullable: bool, indent: Seq<char>) -> Seq<char> {
    if nullable {
        indent + "  "@
    } else {
        indent
    }
}

/// The indentation of checks that may stand behind a test for `null`.
pub fn indent_guarded(nullable: bool, indent: &str) -> (result: String)
    ensures
        result@ == guarded_indent(nullable, indent@),
{
    if nullable {
        indent.to_owned().concat("  ")
    } else {
        indent.to_owned()
    }
}

/// The checks of the members of a map that is written in place, where they are checked.
pub open spec fn entry_checks(
    ctx: TsContext,
    schema: Schema,
    value_expr: Seq<char>,
    path_expr: Seq<char>,
    indent: Seq<char>,
    depth: u64,
    follow: u128,
) -> Seq<char>
    decreases follow, schema, 0nat, 0nat,
{
    proof {
        crate::json_schema::annotation::lemma_members_smaller(schema);
    }
    match crate::json_schema::annotation::map_values(schema) {
        Some(members) => if checked_on_wire(members) {
            let suffix = crate::json_schema::ts_text::depth_suffix(depth);
            let key = "__key"@ + suffix;
            let entry = "__entry"@ + suffix;
            let nullable = crate::json_schema::annotation::null_allowed(members);
            let inner = indent + "  "@;
            let checks = field_checks(
                ctx,
                members,
                entry,
                crate::json_schema::ts_text::keyed_path(path_expr, key),
                guarded_indent(nullable, inner),
                crate::json_schema::ts_text::deeper(depth),
                follow,
            );
            entry_loop(
                key,
                entry,
                value_expr,
                indent,
                null_guarded(nullable, entry, inner, checks),
            )
        } else {
            Seq::empty()
        },
        None => Seq::empty(),
    }
}

/// The loop over the members of a map.
pub open spec fn entry_loop(
    key: Seq<char>,
    entry: Seq<char>,
    value_expr: Seq<char>,
    indent: Seq<char>,
    body: Seq<char>,
) -> Seq<char> {
    indent + "for (const ["@ + key + ", "@ + entry + "] of Object.entries("@ + value_expr
        + ")) {\n"@ + body + indent + "}\n"@
}

/// The loop over the members of a map.
pub fn render_entry_loop(
    key: &str,
    entry: &str,
    value_expr: &str,
    indent: &str,
    body: &str,
) -> (result: String)
    ensures
        result@ == entry_loop(key@, entry@, value_expr@, indent@, body@),
{
    indent.to_owned().concat("for (const [").concat(key).concat(", ").concat(entry)
        .concat("] of Object.entries(").concat(value_expr).concat(")) {\n").concat(body)
        .concat(indent).concat("}\n")
}

/// The checks of an inline value of the right type.
pub open spec fn field_body(
    ctx: TsContext,
    schema: Schema,
    value_expr: Seq<char>,
    path_expr: Seq<char>,
    indent: Seq<char>,
    depth: u64,
    follow: u128,
) -> Seq<char>
    decreases follow, schema, 1nat, 0nat,
{
    match crate::json_schema::schema::temporal_kind_of(schema) {
        Some(kind) => temporal_checks(ctx, schema, kind, value_expr, path_expr, indent),
        None => match crate::json_schema::schema::content_encoding_of(schema) {
            Some(encoding) => encoded_checks(
                ctx,
                schema,
                encoding,
                value_expr,
                path_expr,
                indent,
            ),
            None => match crate::json_schema::union::union_of(ctx, Seq::empty(), schema) {
                Some(union) => union_checks(
                    ctx,
                    Seq::empty(),
                    schema,
                    value_expr,
                    path_expr,
                    indent,
                    depth,
                    follow,
                    union.variants.len(),
                ),
                None => if schema.const_value is Some || schema.enum_values is Some {
                    crate::json_schema::checks::schema_closed_check(
                        schema,
                        value_expr,
                        path_expr,
                        indent,
                    )
                } else if crate::json_schema::schema::has_type(schema, "string"@)
                    && crate::json_schema::schema::string_constraints(schema) {
                    crate::json_schema::checks::string_checks(
                        ctx,
                        value_expr,
                        path_expr,
                        schema,
                        indent,
                    )
                } else if crate::json_schema::schema::has_type(schema, "number"@) {
                    crate::json_schema::checks::numeric_checks(
                        value_expr,
                        path_expr,
                        schema,
                        indent,
                        false,
                    )
                } else if crate::json_schema::schema::has_type(schema, "integer"@) {
                    crate::json_schema::checks::numeric_checks(
                        value_expr,
                        path_expr,
                        schema,
                        indent,
                        true,
                    )
                } else if crate::json_schema::schema::has_type(schema, "array"@) {
                    element_checks(ctx, schema, value_expr, path_expr, indent, depth, follow) + (
                        if crate::json_schema::schema::array_constraints(schema) {
                            crate::json_schema::checks::array_checks(
                                ctx,
                                value_expr,
                                path_expr,
                                schema,
                                indent,
                                depth,
                                true,
                            )
                        } else {
                            Seq::empty()
                    })
                } else if crate::json_schema::schema::has_type(schema, "object"@) {
                    entry_checks(ctx, schema, value_expr, path_expr, indent, depth, follow)
                        + crate::json_schema::object::object_constraints(
                        ctx,
                        schema,
                        value_expr,
                        path_expr,
                        crate::json_schema::ts_text::depth_suffix(depth),
                        indent,
                    )
                } else {
                    Seq::empty()
                },
            },
        },
    }
}

/// The checks of the value of a union, for the first of its members: each that has constraints,
/// behind its guard. An object that is a model is checked by its own converter; of those that are
/// written in place, the first object of the union is checked.
pub open spec fn union_checks(
    ctx: TsContext,
    models: Seq<JsonModel>,
    schema: Schema,
    value_expr: Seq<char>,
    path_expr: Seq<char>,
    indent: Seq<char>,
    depth: u64,
    follow: u128,
    count: nat,
) -> Seq<char>
    decreases follow, schema, 0nat, count,
        when crate::json_schema::union::union_of(ctx, models, schema) matches Some(union) && count
            <= union.variants.len()
{
    if count == 0 {
        Seq::empty()
    } else {
        let variant = crate::json_schema::union::union_of(
            ctx,
            models,
            schema,
        )->Some_0.variants[count - 1];
        proof {
            if !variant.followed {
                crate::json_schema::union::lemma_variant_smaller(ctx, models, schema, count - 1);
            }
        }
        let before = union_checks(
            ctx,
            models,
            schema,
            value_expr,
            path_expr,
            indent,
            depth,
            follow,
            (count - 1) as nat,
        );
        let member = "("@ + value_expr + " as "@ + variant.ts_type + ")"@;
        let variants = crate::json_schema::union::union_of(ctx, models, schema)->Some_0.variants;
        let body = if variant.is_object && (variant.converter is Some
            || crate::json_schema::parse::first_object(variants) != Some(count - 1)) {
            Seq::empty()
        } else if is_bare_integer(variant) {
            Seq::empty()
        } else if !variant.followed {
            field_body(ctx, variant.schema, member, path_expr, indent + "  "@, depth, follow)
        } else if follow > 0 {
            field_body(
                ctx,
                variant.schema,
                member,
                path_expr,
                indent + "  "@,
                depth,
                (follow - 1) as u128,
            )
        } else {
            Seq::empty()
        };
        before + branch_checks(variant, value_expr, indent, body)
    }
}

/// Whether a member of a union is an integer without constraints. Its guard says all that there is
/// to check.
pub open spec fn is_bare_integer(variant: crate::json_schema::union::VariantView) -> bool {
    variant.is_integer && !crate::json_schema::schema::numeric_constraints(variant.schema)
        && variant.schema.const_value is None && variant.schema.enum_values is None
}

/// Whether a member of a union is an integer without constraints. Its guard says all that there is
/// to check.
pub fn bare_integer(variant: &crate::json_schema::union::TsUnionVariant) -> (result: bool)
    ensures
        result == is_bare_integer(variant@),
{
    variant.is_integer && !has_numeric_constraints(variant.schema)
        && variant.schema.const_value.is_none() && variant.schema.enum_values.is_none()
}

/// The guard that selects a member out of the values of a union.
pub open spec fn selecting_guard(
    variant: crate::json_schema::union::VariantView,
    value_expr: Seq<char>,
) -> Option<Seq<char>> {
    if variant.is_object {
        Some("__nexgenDefinitions.isPlainObject("@ + value_expr + ")"@)
    } else {
        crate::json_schema::union::variant_guard(variant, value_expr)
    }
}

/// The guard that selects a member out of the values of a union.
pub fn variant_selector(
    variant: &crate::json_schema::union::TsUnionVariant,
    value_expr: &str,
) -> (result: Option<String>)
    ensures
        crate::text::opt_text(result) == selecting_guard(variant@, value_expr@),
{
    if variant.is_object {
        Some("__nexgenDefinitions.isPlainObject(".to_owned().concat(value_expr).concat(")"))
    } else {
        ts_variant_guard(variant, value_expr)
    }
}

/// The checks of one member of a union behind its guard.
pub open spec fn branch_checks(
    variant: crate::json_schema::union::VariantView,
    value_expr: Seq<char>,
    indent: Seq<char>,
    body: Seq<char>,
) -> Seq<char> {
    if body.len() == 0 {
        Seq::<char>::empty()
    } else {
        match selecting_guard(variant, value_expr) {
            Some(guard) => (indent + "if ("@ + guard + ") {\n"@ + body + indent + "}\n"@),
            None => Seq::<char>::empty(),
        }
    }
}

/// The checks of one member of a union behind its guard.
pub fn guarded_branch_checks(
    variant: &crate::json_schema::union::TsUnionVariant,
    value_expr: &str,
    indent: &str,
    body: &str,
) -> (result: String)
    ensures
        result@ == branch_checks(variant@, value_expr@, indent@, body@),
{
    if body.is_empty() {
        String::new()
    } else {
        match variant_selector(variant, value_expr) {
            Some(guard) => indent.to_owned().concat("if (").concat(guard.as_str()).concat(") {\n")
                .concat(body).concat(indent).concat("}\n"),
            None => String::new(),
        }
    }
}

/// The checks of an inline value behind a test of its type. The variables of the loops carry how
/// deep the value stands in arrays.
pub fn render_ts_field_checks_at_depth(
    ctx: &TsContext,
    schema: &Schema,
    value_expr: &str,
    path_expr: &str,
    indent: &str,
    depth: u64,
    follow: u128,
) -> (result: String)
    ensures
        result@ == field_checks(*ctx, *schema, value_expr@, path_expr@, indent@, depth, follow),
    decreases follow, schema, 2nat,
{
    proof {
        crate::json_schema::annotation::lemma_non_null_smaller(*schema);
    }
    match nullable_non_null_schema(schema) {
        Some(branch) => {
            return render_ts_field_checks_at_depth(
                ctx,
                branch,
                value_expr,
                path_expr,
                indent,
                depth,
                follow,
            );
        },
        None => {},
    }
    match type_predicate(ctx, schema, value_expr) {
        Some(predicate) => {
            let inner = indent.to_owned().concat("  ");
            let body = field_check_body(
                ctx,
                schema,
                value_expr,
                path_expr,
                inner.as_str(),
                depth,
                follow,
            );
            let reason = type_reason(schema);
            type_guarded(predicate.as_str(), reason.as_str(), path_expr, indent, body.as_str())
        },
        None => field_check_body(ctx, schema, value_expr, path_expr, indent, depth, follow),
    }
}

fn render_element_checks(
    ctx: &TsContext,
    schema: &Schema,
    value_expr: &str,
    path_expr: &str,
    indent: &str,
    depth: u64,
    follow: u128,
) -> (result: String)
    ensures
        result@ == element_checks(*ctx, *schema, value_expr@, path_expr@, indent@, depth, follow),
    decreases follow, schema, 0nat,
{
    proof {
        crate::json_schema::annotation::lemma_items_smaller(*schema);
    }
    match &schema.items {
        Some(items) => {
            if !field_needs_serialize_check(items) {
                return String::new();
            }
            let suffix = ts_depth_suffix(depth);
            let element = "element".to_owned().concat(suffix.as_str());
            let index = "index".to_owned().concat(suffix.as_str());
            let item_path = ts_indexed_path(path_expr, index.as_str());
            let nullable = allows_null(items);
            let item_indent = indent.to_owned().concat("  ");
            let check_indent = indent_guarded(nullable, item_indent.as_str());
            let checks = render_ts_field_checks_at_depth(
                ctx,
                items,
                element.as_str(),
                item_path.as_str(),
                check_indent.as_str(),
                next_depth(depth),
                follow,
            );
            let guarded = guard_null(
                nullable,
                element.as_str(),
                item_indent.as_str(),
                checks.as_str(),
            );
            indent.to_owned().concat(value_expr).concat(".forEach((").concat(
                element.as_str(),
            ).concat(", ").concat(index.as_str()).concat(") => {\n").concat(
                guarded.as_str(),
            ).concat(indent).concat("});\n")
        },
        None => String::new(),
    }
}

fn render_entry_checks(
    ctx: &TsContext,
    schema: &Schema,
    value_expr: &str,
    path_expr: &str,
    indent: &str,
    depth: u64,
    follow: u128,
) -> (result: String)
    ensures
        result@ == entry_checks(*ctx, *schema, value_expr@, path_expr@, indent@, depth, follow),
    decreases follow, schema, 0nat,
{
    proof {
        crate::json_schema::annotation::lemma_members_smaller(*schema);
    }
    match map_value_schema(schema) {
        Some(members) => {
            if !field_needs_serialize_check(members) {
                return String::new();
            }
            let suffix = ts_depth_suffix(depth);
            let key = "__key".to_owned().concat(suffix.as_str());
            let entry = "__entry".to_owned().concat(suffix.as_str());
            let nullable = allows_null(members);
            let inner = indent.to_owned().concat("  ");
            let entry_path = ts_keyed_path(path_expr, key.as_str());
            let check_indent = indent_guarded(nullable, inner.as_str());
            let checks = render_ts_field_checks_at_depth(
                ctx,
                members,
                entry.as_str(),
                entry_path.as_str(),
                check_indent.as_str(),
                next_depth(depth),
                follow,
            );
            let body = guard_null(nullable, entry.as_str(), inner.as_str(), checks.as_str());
            render_entry_loop(key.as_str(), entry.as_str(), value_expr, indent, body.as_str())
        },
        None => String::new(),
    }
}

fn field_check_body(
    ctx: &TsContext,
    schema: &Schema,
    value_expr: &str,
    path_expr: &str,
    indent: &str,
    depth: u64,
    follow: u128,
) -> (result: String)
    ensures
        result@ == field_body(*ctx, *schema, value_expr@, path_expr@, indent@, depth, follow),
    decreases follow, schema, 1nat,
{
    match temporal_kind_direct(schema) {
        Some(kind) => {
            return temporal_field_checks(ctx, schema, kind, value_expr, path_expr, indent);
        },
        None => {},
    }
    match content_encoding_direct(schema) {
        Some(encoding) => {
            return encoded_field_checks(ctx, schema, encoding, value_expr, path_expr, indent);
        },
        None => {},
    }
    if is_ts_union(schema) {
        let models: Vec<JsonModel> = Vec::new();
        assert(models@ =~= Seq::empty());
        return render_ts_union_value_checks(
            ctx,
            schema,
            &models,
            value_expr,
            path_expr,
            indent,
            depth,
            follow,
        );
    }
    if schema.const_value.is_some() || schema.enum_values.is_some() {
        return render_ts_schema_closed_check(schema, value_expr, path_expr, indent);
    }
    if type_is(schema, "string") && has_string_constraints(schema) {
        render_ts_string_checks(ctx, value_expr, path_expr, schema, indent)
    } else if type_is(schema, "number") {
        render_ts_numeric_checks(value_expr, path_expr, schema, indent, false)
    } else if type_is(schema, "integer") {
        render_ts_numeric_checks(value_expr, path_expr, schema, indent, true)
    } else if type_is(schema, "array") {
        let elements = render_element_checks(
            ctx,
            schema,
            value_expr,
            path_expr,
            indent,
            depth,
            follow,
        );
        let own = if has_array_constraints(schema) {
            render_ts_array_checks(ctx, value_expr, path_expr, schema, indent, depth, true)
        } else {
            String::new()
        };
        elements.concat(own.as_str())
    } else if type_is(schema, "object") {
        let entries = render_entry_checks(
            ctx,
            schema,
            value_expr,
            path_expr,
            indent,
            depth,
            follow,
        );
        let suffix = ts_depth_suffix(depth);
        let own = render_object_constraints(
            ctx,
            schema,
            value_expr,
            path_expr,
            suffix.as_str(),
            indent,
        );
        entries.concat(own.as_str())
    } else {
        String::new()
    }
}

/// The checks of the value of a union: those of each member that has constraints, behind its
/// guard. An object that is a model is checked by its own converter; of those that are written in
/// place, the first object of the union is checked. The variables of loops carry how deep the
/// value stands.
pub fn render_ts_union_value_checks(
    ctx: &TsContext,
    schema: &Schema,
    models: &Vec<JsonModel>,
    value_expr: &str,
    path_expr: &str,
    indent: &str,
    depth: u64,
    follow: u128,
) -> (result: String)
    ensures
        result@ == (match crate::json_schema::union::union_of(*ctx, models@, *schema) {
            Some(union) => union_checks(
                *ctx,
                models@,
                *schema,
                value_expr@,
                path_expr@,
                indent@,
                depth,
                follow,
                union.variants.len(),
            ),
            None => Seq::empty(),
        }),
    decreases follow, schema, 0nat,
{
    match classify_ts_union(ctx, schema, models) {
        Some(union) => {
            let ghost wanted = crate::json_schema::union::union_of(
                *ctx,
                models@,
                *schema,
            )->Some_0;
            let first = find_first_object(&union.variants);
            let mut result = String::new();
            let mut i: usize = 0;
            while i < union.variants.len()
                invariant
                    match first {
                        Some(k) => crate::json_schema::parse::first_object(wanted.variants) == Some(
                            k as int,
                        ),
                        None => crate::json_schema::parse::first_object(wanted.variants) is None,
                    },
                    i <= union.variants.len(),
                    crate::json_schema::union::union_of(*ctx, models@, *schema) == Some(wanted),
                    union@ == wanted,
                    result@ == union_checks(
                        *ctx,
                        models@,
                        *schema,
                        value_expr@,
                        path_expr@,
                        indent@,
                        depth,
                        follow,
                        i as nat,
                    ),
                decreases union.variants.len() - i,
            {
                let variant = &union.variants[i];
                assert(wanted.variants[i as int] == variant@);
                let is_first = match first {
                    Some(k) => k == i,
                    None => false,
                };
                if bare_integer(variant) {
                    assert(branch_checks(variant@, value_expr@, indent@, Seq::empty())
                        =~= Seq::empty());
                } else if !variant.is_object || (variant.converter.is_none() && is_first) {
                    proof {
                        if !variant.followed {
                            crate::json_schema::union::lemma_variant_smaller(
                                *ctx,
                                models@,
                                *schema,
                                i as int,
                            );
                        }
                    }
                    let member = "(".to_owned().concat(value_expr).concat(" as ").concat(
                        variant.ts_type.as_str(),
                    ).concat(")");
                    let inner = indent.to_owned().concat("  ");
                    let body = if !variant.followed {
                        field_check_body(
                            ctx,
                            variant.schema,
                            member.as_str(),
                            path_expr,
                            inner.as_str(),
                            depth,
                            follow,
                        )
                    } else if follow > 0 {
                        field_check_body(
                            ctx,
                            variant.schema,
                            member.as_str(),
                            path_expr,
                            inner.as_str(),
                            depth,
                            follow - 1,
                        )
                    } else {
                        String::new()
                    };
                    let checks = guarded_branch_checks(
                        variant,
                        value_expr,
                        indent,
                        body.as_str(),
                    );
                    result.append(checks.as_str());
                }
                i += 1;
            }
            result
        },
        None => String::new(),
    }
}

/// The checks of a value in memory.
pub open spec fn value_checks(
    ctx: TsContext,
    schema: Schema,
    value_expr: Seq<char>,
    path_expr: Seq<char>,
    indent: Seq<char>,
) -> Seq<char> {
    field_checks(ctx, schema, value_expr, path_expr, indent, 0, follow_limit(ctx))
}

/// The checks of a value in memory.
pub fn render_ts_field_checks(
    ctx: &TsContext,
    schema: &Schema,
    value_expr: &str,
    path_expr: &str,
    indent: &str,
) -> (result: String)
    ensures
        result@ == value_checks(*ctx, *schema, value_expr@, path_expr@, indent@),
{
    render_ts_field_checks_at_depth(
        ctx,
        schema,
        value_expr,
        path_expr,
        indent,
        0,
        reference_limit(ctx),
    )
}

/// The checks of a value in memory that may be `null`, in which case they are left out.
pub open spec fn member_checks(
    ctx: TsContext,
    value_schema: Schema,
    value_expr: Seq<char>,
    path_expr: Seq<char>,
    indent: Seq<char>,
) -> Seq<char> {
    if crate::json_schema::annotation::null_allowed(value_schema) {
        let inner = indent + "  "@;
        let body = value_checks(ctx, value_schema, value_expr, path_expr, inner);
        if body.len() == 0 {
            Seq::<char>::empty()
        } else {
            (indent + "if ("@ + value_expr + " !== null) {\n"@ + body + indent + "}\n"@)
        }
    } else {
        value_checks(ctx, value_schema, value_expr, path_expr, indent)
    }
}

/// The checks of a value in memory that may be `null`, in which case they are left out.
pub fn render_ts_member_check(
    ctx: &TsContext,
    value_schema: &Schema,
    value_expr: &str,
    path_expr: &str,
    indent: &str,
) -> (result: String)
    ensures
        result@ == member_checks(*ctx, *value_schema, value_expr@, path_expr@, indent@),
{
    if allows_null(value_schema) {
        let inner = indent.to_owned().concat("  ");
        let body = render_ts_field_checks(ctx, value_schema, value_expr, path_expr, inner.as_str());
        if body.as_str().is_empty() {
            String::new()
        } else {
            indent.to_owned().concat("if (").concat(value_expr).concat(" !== null) {\n")
                .concat(body.as_str()).concat(indent).concat("}\n")
        }
    } else {
        render_ts_field_checks(ctx, value_schema, value_expr, path_expr, indent)
    }
}

/// The checks of a declared member of a model in memory.
pub open spec fn property_checks(
    ctx: TsContext,
    json_name: Seq<char>,
    property: Schema,
    indent: Seq<char>,
) -> Seq<char> {
    let field_name = crate::json_schema::schema::member_name_text(property, json_name);
    let value_expr = "value."@ + field_name;
    let path_expr = crate::json_schema::ts_text::violation_path(json_name);
    member_checks(ctx, property, value_expr, path_expr, indent)
}

/// The checks of a declared member of a model in memory.
pub fn render_ts_serialize_property_check(
    ctx: &TsContext,
    json_name: &str,
    property: &Schema,
    indent: &str,
) -> (result: String)
    ensures
        result@ == property_checks(*ctx, json_name@, *property, indent@),
{
    let field_name = ts_member_name(property, json_name);
    let value_expr = "value.".to_owned().concat(field_name.as_str());
    let path_expr = typescript_violation_path_literal(json_name);
    render_ts_member_check(ctx, property, value_expr.as_str(), path_expr.as_str(), indent)
}

} // verus!
