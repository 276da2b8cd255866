//! The code that generated parsers run on one value.

use vstd::prelude::*;

use crate::json_schema::annotation::{
    annotation_or, const_annotations_of, is_ts_union, join_union, map_value_schema, non_null_branch,
    nullable_non_null_schema, schema_has_null_branch,
};
use crate::json_schema::checks::{
    render_ts_array_checks, render_ts_numeric_checks, render_ts_schema_closed_check,
    render_ts_string_assertions, render_ts_string_checks, unequal_conditions, unequal_reason,
};
use crate::json_schema::fields::{reference_limit, render_ts_field_checks};
use crate::json_schema::object::render_object_constraints;
use crate::json_schema::schema::{
    content_encoding_direct, has_array_constraints, has_numeric_constraints, has_string_constraints,
    temporal_kind_direct, type_is, Schema,
};
use crate::json_schema::ts_text::{
    literals_of, next_depth, reference_model_name, ts_content_encoding_parse_fn, ts_depth_suffix,
    ts_indexed_path, ts_keyed_path, ts_temporal_parse_fn, ts_transfer_type_converter_name,
    typescript_string_literal, typescript_value_literal, JsonModel, TsContext,
};
use crate::json_schema::union::{
    admissible, classify_ts_union, ts_variant_guard, TsUnion, TsUnionVariant,
};
use crate::json_schema::value::JsonValue;
use crate::text::{join_texts, with_lines};

verus! {

/// The parser of a primitive: a test of its kind, and the assignment.
pub open spec fn typeof_parser(
    raw_expr: Seq<char>,
    target: Seq<char>,
    path_expr: Seq<char>,
    indent: Seq<char>,
    ty: Seq<char>,
) -> Seq<char> {
    (
        indent + "if (typeof "@ + raw_expr + " !== '"@ + ty + "') {\n"@ + indent
            + "  violations.push({ path: "@ + path_expr + ", reason: 'expected "@ + ty + "' });\n"@
            + indent + "} else {\n"@ + indent + "  "@ + target + " = "@ + raw_expr + ";\n"@ + indent
            + "}\n"@
    )
}

/// The parser of a primitive: a test of its kind, and the assignment.
pub fn render_typeof_parser(
    raw_expr: &str,
    target: &str,
    path_expr: &str,
    indent: &str,
    ty: &str,
) -> (result: String)
    ensures
        result@ == typeof_parser(raw_expr@, target@, path_expr@, indent@, ty@),
{
    indent.to_owned().concat("if (typeof ").concat(raw_expr).concat(" !== '").concat(ty)
        .concat("') {\n").concat(indent).concat("  violations.push({ path: ").concat(path_expr)
        .concat(", reason: 'expected ").concat(ty).concat("' });\n").concat(indent)
        .concat("} else {\n").concat(indent).concat("  ").concat(target).concat(" = ")
        .concat(raw_expr).concat(";\n").concat(indent).concat("}\n")
}

/// The kind of a scalar in JavaScript.
pub open spec fn typeof_guard_of(value: JsonValue) -> Option<Seq<char>> {
    match value {
        JsonValue::Text(_) => Some("string"@),
        JsonValue::Number(_) => Some("number"@),
        JsonValue::Bool(_) => Some("boolean"@),
        _ => None,
    }
}

/// The kind of a scalar in JavaScript.
pub fn ts_typeof_guard(value: &JsonValue) -> (result: Option<String>)
    ensures
        crate::text::opt_text(result) == typeof_guard_of(*value),
{
    match value {
        JsonValue::Text(_) => Some("string".to_owned()),
        JsonValue::Number(_) => Some("number".to_owned()),
        JsonValue::Bool(_) => Some("boolean".to_owned()),
        _ => None,
    }
}

/// The test that a raw value is of the kind of the first of a closed set's values.
pub open spec fn closed_guard(
    guard: Option<Seq<char>>,
    raw_expr: Seq<char>,
    path_expr: Seq<char>,
    indent: Seq<char>,
) -> Seq<char> {
    match guard {
        Some(guard) => (
            indent + "if (typeof "@ + raw_expr + " !== '"@ + guard + "') {\n"@ + indent
                + "  violations.push({ path: "@ + path_expr + ", reason: 'expected "@ + guard
                + "' });\n"@ + indent + "} else if ("@
        ),
        None => (indent + "if ("@),
    }
}

/// The test that a raw value is of the kind of the first of a closed set's values.
pub fn closed_value_guard(
    guard: &Option<String>,
    raw_expr: &str,
    path_expr: &str,
    indent: &str,
) -> (result: String)
    ensures
        result@ == closed_guard(crate::text::opt_text(*guard), raw_expr@, path_expr@, indent@),
{
    match guard {
        Some(guard) => indent.to_owned().concat("if (typeof ").concat(raw_expr).concat(" !== '")
            .concat(guard.as_str()).concat("') {\n").concat(indent)
            .concat("  violations.push({ path: ").concat(path_expr).concat(", reason: 'expected ")
            .concat(guard.as_str()).concat("' });\n").concat(indent).concat("} else if ("),
        None => indent.to_owned().concat("if ("),
    }
}

/// The parser of a value out of a closed set: a test of its kind, a test against each member of
/// the set, and the assignment.
pub open spec fn closed_parser(
    guard: Option<Seq<char>>,
    cast_type: Seq<char>,
    compare_exprs: Seq<Seq<char>>,
    raw_expr: Seq<char>,
    target: Seq<char>,
    path_expr: Seq<char>,
    indent: Seq<char>,
    reason: Seq<char>,
) -> Seq<char> {
    let opened = closed_guard(guard, raw_expr, path_expr, indent);
    let conditions = crate::json_schema::checks::unequal_texts(compare_exprs, raw_expr);
    let membership = crate::text::join(conditions, " && "@);
    let cast = if cast_type.len() == 0 {
        Seq::<char>::empty()
    } else {
        " as "@ + cast_type
    };
    (
        opened + membership + ") {\n"@ + indent + "  violations.push({ path: "@ + path_expr
            + ", reason: `"@ + reason + "` });\n"@ + indent + "} else {\n"@ + indent + "  "@
            + target + " = "@ + raw_expr + cast + ";\n"@ + indent + "}\n"@
    )
}

/// The parser of a value out of a closed set: a test of its kind, a test against each member of
/// the set, and the assignment.
pub fn render_closed_value_parser(
    guard: &Option<String>,
    cast_type: &str,
    compare_exprs: &Vec<String>,
    raw_expr: &str,
    target: &str,
    path_expr: &str,
    indent: &str,
    reason: &str,
) -> (result: String)
    ensures
        result@ == closed_parser(
            crate::text::opt_text(*guard),
            cast_type@,
            crate::text::texts(compare_exprs@),
            raw_expr@,
            target@,
            path_expr@,
            indent@,
            reason@,
        ),
{
    let opened = closed_value_guard(guard, raw_expr, path_expr, indent);
    let conditions = unequal_conditions(compare_exprs, raw_expr);
    let membership = join_texts(&conditions, " && ");
    let cast = if cast_type.is_empty() {
        String::new()
    } else {
        " as ".to_owned().concat(cast_type)
    };
    opened.clone().concat(membership.as_str()).concat(") {\n").concat(indent)
        .concat("  violations.push({ path: ").concat(path_expr).concat(", reason: `").concat(reason)
        .concat("` });\n").concat(indent).concat("} else {\n").concat(indent).concat("  ")
        .concat(target).concat(" = ").concat(raw_expr).concat(cast.as_str()).concat(";\n")
        .concat(indent).concat("}\n")
}

/// The type of a scalar alone; empty where the value is none.
pub open spec fn cast_text(value: JsonValue) -> Seq<char> {
    match crate::json_schema::ts_text::const_annotation(value) {
        Some(annotation) => annotation,
        None => Seq::<char>::empty(),
    }
}

/// The type of a scalar alone; empty where the value is none.
pub fn cast_of(value: &JsonValue) -> (result: String)
    ensures
        result@ == cast_text(*value),
{
    match crate::json_schema::ts_text::typescript_const_annotation(value) {
        Some(annotation) => annotation,
        None => String::new(),
    }
}

/// The parser of a value that is fixed. `const_expr` is the expression for what it is fixed to.
pub open spec fn const_parser(
    const_value: JsonValue,
    raw_expr: Seq<char>,
    target: Seq<char>,
    path_expr: Seq<char>,
    indent: Seq<char>,
    const_expr: Seq<char>,
) -> Seq<char> {
    let literal = crate::json_schema::ts_text::value_literal(const_value);
    let reason = crate::json_schema::checks::const_reason(literal, raw_expr);
    let guard = typeof_guard_of(const_value);
    let cast = cast_text(const_value);
    let exprs = seq![const_expr];

    closed_parser(guard, cast, exprs, raw_expr, target, path_expr, indent, reason)
}

/// The parser of a value that is fixed. `const_expr` is the expression for what it is fixed to.
pub fn render_const_parser(
    const_value: &JsonValue,
    raw_expr: &str,
    target: &str,
    path_expr: &str,
    indent: &str,
    const_expr: &str,
) -> (result: String)
    ensures
        result@ == const_parser(*const_value, raw_expr@, target@, path_expr@, indent@, const_expr@),
{
    let literal = typescript_value_literal(const_value);
    let reason = unequal_reason(literal.as_str(), raw_expr);
    let guard = ts_typeof_guard(const_value);
    let cast = cast_of(const_value);
    let exprs = vec![const_expr.to_owned()];
    assert(crate::text::texts(exprs@) =~= seq![const_expr@]);
    render_closed_value_parser(
        &guard,
        cast.as_str(),
        &exprs,
        raw_expr,
        target,
        path_expr,
        indent,
        reason.as_str(),
    )
}

/// The parser of a value out of a list.
pub open spec fn enum_parser(
    values: Seq<JsonValue>,
    raw_expr: Seq<char>,
    target: Seq<char>,
    path_expr: Seq<char>,
    indent: Seq<char>,
) -> Seq<char> {
    let literals = crate::json_schema::ts_text::value_literals(values);
    let all = crate::text::join(literals, ", "@);
    let reason = "must be one of ["@ + all + "], got ${JSON.stringify("@ + raw_expr + ")}"@;
    let guard = if values.len() > 0 {
        typeof_guard_of(values[0])
    } else {
        None
    };
    let annotations = crate::json_schema::annotation::const_annotations(values);
    let cast = crate::json_schema::annotation::union_text(annotations);
    closed_parser(guard, cast, literals, raw_expr, target, path_expr, indent, reason)
}

/// The parser of a value out of a list.
pub fn render_enum_parser(
    values: &Vec<JsonValue>,
    raw_expr: &str,
    target: &str,
    path_expr: &str,
    indent: &str,
) -> (result: String)
    ensures
        result@ == enum_parser(values@, raw_expr@, target@, path_expr@, indent@),
{
    let literals = literals_of(values);
    let all = join_texts(&literals, ", ");
    let reason = "must be one of [".to_owned().concat(all.as_str())
        .concat("], got ${JSON.stringify(").concat(raw_expr).concat(")}");
    let guard = if values.len() > 0 {
        ts_typeof_guard(&values[0])
    } else {
        None
    };
    let annotations = const_annotations_of(values);
    let cast = join_union(&annotations);
    render_closed_value_parser(
        &guard,
        cast.as_str(),
        &literals,
        raw_expr,
        target,
        path_expr,
        indent,
        reason.as_str(),
    )
}

/// The parser of a string on the wire that is held in another form in memory.
pub open spec fn materialized_parser_text(
    ctx: TsContext,
    schema: Schema,
    parse_fn: Seq<char>,
    include_format: bool,
    raw_expr: Seq<char>,
    target: Seq<char>,
    path_expr: Seq<char>,
    indent: Seq<char>,
) -> Seq<char> {
    let inner = indent + "  "@;
    let assertions = crate::json_schema::checks::string_assertions(
        ctx,
        raw_expr,
        path_expr,
        schema,
        inner,
        include_format,
    );
    let closed = crate::json_schema::checks::schema_closed_check(
        schema,
        raw_expr,
        path_expr,
        inner,
    );
    (
        indent + "if (typeof "@ + raw_expr + " !== 'string') {\n"@ + indent
            + "  violations.push({ path: "@ + path_expr + ", reason: 'expected string' });\n"@
            + indent + "} else {\n"@ + assertions + closed + indent + "  const parsed = "@
            + parse_fn + "("@ + raw_expr + ", "@ + path_expr + ", violations);\n"@ + indent
            + "  if (parsed !== undefined) {\n"@ + indent + "    "@ + target + " = parsed;\n"@
            + indent + "  }\n"@ + indent + "}\n"@
    )
}

/// The parser of a string on the wire that is held in another form in memory.
pub fn materialized_parser(
    ctx: &TsContext,
    schema: &Schema,
    parse_fn: &str,
    include_format: bool,
    raw_expr: &str,
    target: &str,
    path_expr: &str,
    indent: &str,
) -> (result: String)
    ensures
        result@ == materialized_parser_text(
            *ctx,
            *schema,
            parse_fn@,
            include_format,
            raw_expr@,
            target@,
            path_expr@,
            indent@,
        ),
{
    let inner = indent.to_owned().concat("  ");
    let assertions = render_ts_string_assertions(
        ctx,
        raw_expr,
        path_expr,
        schema,
        inner.as_str(),
        include_format,
    );
    let closed = render_ts_schema_closed_check(schema, raw_expr, path_expr, inner.as_str());
    indent.to_owned().concat("if (typeof ").concat(raw_expr).concat(" !== 'string') {\n")
        .concat(indent).concat("  violations.push({ path: ").concat(path_expr)
        .concat(", reason: 'expected string' });\n").concat(indent).concat("} else {\n")
        .concat(assertions.as_str()).concat(closed.as_str()).concat(indent)
        .concat("  const parsed = ").concat(parse_fn).concat("(").concat(raw_expr).concat(", ")
        .concat(path_expr).concat(", violations);\n").concat(indent)
        .concat("  if (parsed !== undefined) {\n").concat(indent).concat("    ").concat(target)
        .concat(" = parsed;\n").concat(indent).concat("  }\n").concat(indent).concat("}\n")
}

/// The parser of a model that is referred to.
pub open spec fn reference_parser_text(
    ctx: TsContext,
    reference: Seq<char>,
    raw_expr: Seq<char>,
    target: Seq<char>,
    path_expr: Seq<char>,
    indent: Seq<char>,
) -> Seq<char> {
    let model_name = crate::json_schema::ts_text::referenced_model(ctx, reference);
    let converter = crate::json_schema::ts_text::converter_name(model_name);
    (
        indent + "try {\n"@ + indent + "  "@ + target + " = "@ + converter + ".fromTransferType("@
            + raw_expr + ");\n"@ + indent + "} catch (error) {\n"@ + indent
            + "  __nexgenDefinitions.collect(violations, "@ + path_expr + ", error);\n"@ + indent
            + "}\n"@
    )
}

/// The parser of a model that is referred to.
pub fn reference_parser(
    ctx: &TsContext,
    reference: &str,
    raw_expr: &str,
    target: &str,
    path_expr: &str,
    indent: &str,
) -> (result: String)
    ensures
        result@ == reference_parser_text(*ctx, reference@, raw_expr@, target@, path_expr@, indent@),
{
    let model_name = reference_model_name(ctx, reference);
    let converter = ts_transfer_type_converter_name(model_name.as_str());
    indent.to_owned().concat("try {\n").concat(indent).concat("  ").concat(target).concat(" = ")
        .concat(converter.as_str()).concat(".fromTransferType(").concat(raw_expr).concat(");\n")
        .concat(indent).concat("} catch (error) {\n").concat(indent)
        .concat("  __nexgenDefinitions.collect(violations, ").concat(path_expr)
        .concat(", error);\n").concat(indent).concat("}\n")
}

/// The parser of a string with constraints.
pub open spec fn string_parser(
    ctx: TsContext,
    schema: Schema,
    raw_expr: Seq<char>,
    target: Seq<char>,
    path_expr: Seq<char>,
    indent: Seq<char>,
) -> Seq<char> {
    let inner = indent + "  "@;
    let checks = crate::json_schema::checks::string_checks(ctx, raw_expr, path_expr, schema, inner);
    (
        indent + "if (typeof "@ + raw_expr + " !== 'string') {\n"@ + indent
            + "  violations.push({ path: "@ + path_expr + ", reason: 'expected string' });\n"@
            + indent + "} else {\n"@ + indent + "  "@ + target + " = "@ + raw_expr + ";\n"@ + checks
            + indent + "}\n"@
    )
}

/// The parser of a string with constraints.
pub fn constrained_string_parser(
    ctx: &TsContext,
    schema: &Schema,
    raw_expr: &str,
    target: &str,
    path_expr: &str,
    indent: &str,
) -> (result: String)
    ensures
        result@ == string_parser(*ctx, *schema, raw_expr@, target@, path_expr@, indent@),
{
    let inner = indent.to_owned().concat("  ");
    let checks = render_ts_string_checks(ctx, raw_expr, path_expr, schema, inner.as_str());
    indent.to_owned().concat("if (typeof ").concat(raw_expr).concat(" !== 'string') {\n")
        .concat(indent).concat("  violations.push({ path: ").concat(path_expr)
        .concat(", reason: 'expected string' });\n").concat(indent).concat("} else {\n")
        .concat(indent).concat("  ").concat(target).concat(" = ").concat(raw_expr).concat(";\n")
        .concat(checks.as_str()).concat(indent).concat("}\n")
}

/// The parser of a number.
pub open spec fn number_parser(
    schema: Schema,
    raw_expr: Seq<char>,
    target: Seq<char>,
    path_expr: Seq<char>,
    indent: Seq<char>,
) -> Seq<char> {
    let inner = indent + "  "@;
    let checks = crate::json_schema::checks::numeric_checks(
        raw_expr,
        path_expr,
        schema,
        inner,
        false,
    );
    (
        indent + "if (typeof "@ + raw_expr + " !== 'number') {\n"@ + indent
            + "  violations.push({ path: "@ + path_expr + ", reason: 'expected number' });\n"@
            + indent + "} else {\n"@ + indent + "  "@ + target + " = "@ + raw_expr + ";\n"@ + checks
            + indent + "}\n"@
    )
}

/// The parser of a number.
pub fn number_value_parser(
    schema: &Schema,
    raw_expr: &str,
    target: &str,
    path_expr: &str,
    indent: &str,
) -> (result: String)
    ensures
        result@ == number_parser(*schema, raw_expr@, target@, path_expr@, indent@),
{
    let inner = indent.to_owned().concat("  ");
    let checks = render_ts_numeric_checks(raw_expr, path_expr, schema, inner.as_str(), false);
    indent.to_owned().concat("if (typeof ").concat(raw_expr).concat(" !== 'number') {\n")
        .concat(indent).concat("  violations.push({ path: ").concat(path_expr)
        .concat(", reason: 'expected number' });\n").concat(indent).concat("} else {\n")
        .concat(indent).concat("  ").concat(target).concat(" = ").concat(raw_expr).concat(";\n")
        .concat(checks.as_str()).concat(indent).concat("}\n")
}

/// The parser of an integer.
pub open spec fn integer_parser(
    schema: Schema,
    raw_expr: Seq<char>,
    target: Seq<char>,
    path_expr: Seq<char>,
    indent: Seq<char>,
) -> Seq<char> {
    let inner = indent + "  "@;
    let checks = if crate::json_schema::schema::numeric_constraints(schema) {
        crate::json_schema::checks::numeric_checks(raw_expr, path_expr, schema, inner, false)
    } else {
        Seq::<char>::empty()
    };
    (
        indent + "if (typeof "@ + raw_expr + " !== 'number' || !Number.isSafeInteger("@ + raw_expr
            + ")) {\n"@ + indent + "  violations.push({ path: "@ + path_expr
            + ", reason: 'expected integer' });\n"@ + indent + "} else {\n"@ + indent + "  "@
            + target + " = "@ + raw_expr + ";\n"@ + checks + indent + "}\n"@
    )
}

/// The parser of an integer.
pub fn integer_value_parser(
    schema: &Schema,
    raw_expr: &str,
    target: &str,
    path_expr: &str,
    indent: &str,
) -> (result: String)
    ensures
        result@ == integer_parser(*schema, raw_expr@, target@, path_expr@, indent@),
{
    let inner = indent.to_owned().concat("  ");
    let checks = if has_numeric_constraints(schema) {
        render_ts_numeric_checks(raw_expr, path_expr, schema, inner.as_str(), false)
    } else {
        String::new()
    };
    indent.to_owned().concat("if (typeof ").concat(raw_expr)
        .concat(" !== 'number' || !Number.isSafeInteger(").concat(raw_expr).concat(")) {\n")
        .concat(indent).concat("  violations.push({ path: ").concat(path_expr)
        .concat(", reason: 'expected integer' });\n").concat(indent).concat("} else {\n")
        .concat(indent).concat("  ").concat(target).concat(" = ").concat(raw_expr).concat(";\n")
        .concat(checks.as_str()).concat(indent).concat("}\n")
}

/// What an object that is written in place is assigned from: a map of its parsed members where
/// those have a schema, else the value as it is. The checks of the object as a whole stand behind.
/// The variables carry how deep the object stands.
pub open spec fn object_body(
    ctx: TsContext,
    schema: Schema,
    raw_expr: Seq<char>,
    target: Seq<char>,
    path_expr: Seq<char>,
    indent: Seq<char>,
    depth: u64,
    follow: u128,
) -> Seq<char>
    decreases follow, schema, 0nat, 0nat,
{
    proof { crate::json_schema::annotation::lemma_members_smaller(schema); }

    let suffix = crate::json_schema::ts_text::depth_suffix(depth);
    let assigned = match crate::json_schema::annotation::map_values(schema) {
        Some(members) => {
            let key = "__key"@ + suffix;
            let raw_entry = "__raw"@ + suffix;
            let entry = "__entry"@ + suffix;
            let parser = value_parser(
                ctx,
                members,
                raw_entry,
                entry,
                crate::json_schema::ts_text::keyed_path(path_expr, key),
                indent + "  "@,
                crate::json_schema::ts_text::deeper(depth),
                follow,
            );
            let annotation = crate::json_schema::annotation::annotation_or_else(
                ctx,
                members,
                "unknown"@,
            );
            map_loop(suffix, annotation, raw_expr, target, indent, parser)
        },
        None => indent + target + " = "@ + raw_expr + " as "@
            + crate::json_schema::annotation::annotation_or_else(ctx, schema, "unknown"@) + ";\n"@,
    };
    assigned + crate::json_schema::object::object_constraints(
        ctx,
        schema,
        raw_record(raw_expr),
        path_expr,
        suffix,
        indent,
    )
}

/// A raw value that is known to be an object.
pub open spec fn raw_record(raw_expr: Seq<char>) -> Seq<char> {
    "("@ + raw_expr + " as Record<string, unknown>)"@
}

/// The loop that parses the members of a map into a new one.
pub open spec fn map_loop(
    suffix: Seq<char>,
    annotation: Seq<char>,
    raw_expr: Seq<char>,
    target: Seq<char>,
    indent: Seq<char>,
    parser: Seq<char>,
) -> Seq<char> {
    indent + "const __members"@ + suffix + ": Record<string, "@ + annotation
        + "> = Object.create(null) as Record<string, "@ + annotation + ">;\n"@ + indent
        + "for (const [__key"@ + suffix + ", __raw"@ + suffix + "] of Object.entries("@ + raw_expr
        + " as Record<string, unknown>)) {\n"@ + indent + "  let __entry"@ + suffix + ": "@
        + annotation + " = undefined as unknown as "@ + annotation + ";\n"@ + parser + indent
        + "  if (__entry"@ + suffix + " !== undefined) {\n"@ + indent + "    __members"@ + suffix
        + "[__key"@ + suffix + "] = __entry"@ + suffix + ";\n"@ + indent + "  }\n"@ + indent
        + "}\n"@ + indent + target + " = __members"@ + suffix + ";\n"@
}

/// The loop that parses the members of a map into a new one.
pub fn render_map_loop(
    suffix: &str,
    annotation: &str,
    raw_expr: &str,
    target: &str,
    indent: &str,
    parser: &str,
) -> (result: String)
    ensures
        result@ == map_loop(suffix@, annotation@, raw_expr@, target@, indent@, parser@),
{
    indent.to_owned().concat("const __members").concat(suffix).concat(": Record<string, ")
        .concat(annotation).concat("> = Object.create(null) as Record<string, ").concat(annotation)
        .concat(">;\n").concat(indent).concat("for (const [__key").concat(suffix)
        .concat(", __raw").concat(suffix).concat("] of Object.entries(").concat(raw_expr)
        .concat(" as Record<string, unknown>)) {\n").concat(indent).concat("  let __entry")
        .concat(suffix).concat(": ").concat(annotation).concat(" = undefined as unknown as ")
        .concat(annotation).concat(";\n").concat(parser).concat(indent).concat("  if (__entry")
        .concat(suffix).concat(" !== undefined) {\n").concat(indent).concat("    __members")
        .concat(suffix).concat("[__key").concat(suffix).concat("] = __entry").concat(suffix)
        .concat(";\n").concat(indent).concat("  }\n").concat(indent).concat("}\n").concat(indent)
        .concat(target).concat(" = __members").concat(suffix).concat(";\n")
}

/// What an object that is written in place is assigned from.
fn object_assignment(
    ctx: &TsContext,
    schema: &Schema,
    raw_expr: &str,
    target: &str,
    path_expr: &str,
    indent: &str,
    depth: u64,
    follow: u128,
) -> (result: String)
    ensures
        result@ == object_body(
            *ctx,
            *schema,
            raw_expr@,
            target@,
            path_expr@,
            indent@,
            depth,
            follow,
        ),
    decreases follow, schema, 0nat,
{
    proof { crate::json_schema::annotation::lemma_members_smaller(*schema); }
    let suffix = ts_depth_suffix(depth);
    let assigned = match map_value_schema(schema) {
        Some(members) => {
            let key = "__key".to_owned().concat(suffix.as_str());
            let raw_entry = "__raw".to_owned().concat(suffix.as_str());
            let entry = "__entry".to_owned().concat(suffix.as_str());
            let entry_path = ts_keyed_path(path_expr, key.as_str());
            let inner = indent.to_owned().concat("  ");
            let parser = parse_value(
                ctx,
                members,
                raw_entry.as_str(),
                entry.as_str(),
                entry_path.as_str(),
                inner.as_str(),
                next_depth(depth),
                follow,
            );
            let annotation = annotation_or(ctx, members, "unknown");
            render_map_loop(
                suffix.as_str(),
                annotation.as_str(),
                raw_expr,
                target,
                indent,
                parser.as_str(),
            )
        },
        None => indent.to_owned().concat(target).concat(" = ").concat(raw_expr).concat(" as ")
            .concat(annotation_or(ctx, schema, "unknown").as_str()).concat(";\n"),
    };
    let record = "(".to_owned().concat(raw_expr).concat(" as Record<string, unknown>)");
    let constraints = render_object_constraints(
        ctx,
        schema,
        record.as_str(),
        path_expr,
        suffix.as_str(),
        indent,
    );
    assigned.concat(constraints.as_str())
}

/// The parser of an object: the test that the value is one, and what it is assigned from.
pub open spec fn object_parser(
    raw_expr: Seq<char>,
    path_expr: Seq<char>,
    indent: Seq<char>,
    body: Seq<char>,
) -> Seq<char> {
    indent + "if (!__nexgenDefinitions.isPlainObject("@ + raw_expr + ")) {\n"@ + indent
        + "  violations.push({ path: "@ + path_expr + ", reason: 'expected object' });\n"@ + indent
        + "} else {\n"@ + body + indent + "}\n"@
}

/// The parser of an object: the test that the value is one, and what it is assigned from.
pub fn render_object_parser(
    raw_expr: &str,
    path_expr: &str,
    indent: &str,
    body: &str,
) -> (result: String)
    ensures
        result@ == object_parser(raw_expr@, path_expr@, indent@, body@),
{
    indent.to_owned().concat("if (!__nexgenDefinitions.isPlainObject(").concat(raw_expr)
        .concat(")) {\n").concat(indent).concat("  violations.push({ path: ").concat(path_expr)
        .concat(", reason: 'expected object' });\n").concat(indent).concat("} else {\n")
        .concat(body).concat(indent).concat("}\n")
}

/// The parser of a value that can only be `null`.
pub open spec fn null_parser(
    raw_expr: Seq<char>,
    target: Seq<char>,
    path_expr: Seq<char>,
    indent: Seq<char>,
) -> Seq<char> {
    indent + "if ("@ + raw_expr + " !== null) {\n"@ + indent + "  violations.push({ path: "@
        + path_expr + ", reason: 'expected null' });\n"@ + indent + "} else {\n"@ + indent + "  "@
        + target + " = null;\n"@ + indent + "}\n"@
}

/// The parser of a value that can only be `null`.
pub fn render_null_parser(
    raw_expr: &str,
    target: &str,
    path_expr: &str,
    indent: &str,
) -> (result: String)
    ensures
        result@ == null_parser(raw_expr@, target@, path_expr@, indent@),
{
    indent.to_owned().concat("if (").concat(raw_expr).concat(" !== null) {\n").concat(indent)
        .concat("  violations.push({ path: ").concat(path_expr)
        .concat(", reason: 'expected null' });\n").concat(indent).concat("} else {\n")
        .concat(indent).concat("  ").concat(target).concat(" = null;\n").concat(indent)
        .concat("}\n")
}

/// The parser of a value. The variables of an array or a map carry its depth. `follow` bounds how
/// many references are followed from one union into another.
pub open spec fn value_parser(
    ctx: TsContext,
    schema: Schema,
    raw_expr: Seq<char>,
    target: Seq<char>,
    path_expr: Seq<char>,
    indent: Seq<char>,
    depth: u64,
    follow: u128,
) -> Seq<char>
    decreases follow, schema, 4nat, 0nat,
{
    proof { crate::json_schema::annotation::lemma_non_null_smaller(schema); }

    match schema.reference {
        Some(reference) => reference_parser_text(
            ctx,
            reference@,
            raw_expr,
            target,
            path_expr,
            indent,
        ),
        None => if crate::json_schema::annotation::is_union(schema) {
            union_parser(
                ctx,
                Seq::empty(),
                schema,
                raw_expr,
                target,
                path_expr,
                indent,
                depth,
                follow,
            )
        } else if crate::json_schema::annotation::has_null_branch(schema) {
            let inner = indent + "  "@;
            let parser = match crate::json_schema::annotation::branch_beside_null(schema) {
                Some(branch) => value_parser(
                    ctx,
                    branch,
                    raw_expr,
                    target,
                    path_expr,
                    inner,
                    depth,
                    follow,
                ),
                None => Seq::<char>::empty(),
            };
            (
                indent + "if ("@ + raw_expr + " === null) {\n"@ + indent + "  "@ + target
                    + " = null;\n"@ + indent + "} else {\n"@ + parser + indent + "}\n"@
            )
        } else if crate::json_schema::annotation::nullable_branch_of(schema) is Some {
            value_parser(
                ctx,
                crate::json_schema::annotation::nullable_branch_of(schema)->Some_0,
                raw_expr,
                target,
                path_expr,
                indent,
                depth,
                follow,
            )
        } else {
            match crate::json_schema::schema::temporal_kind_of(schema) {
                Some(kind) => {
                    let parse_fn = crate::json_schema::ts_text::temporal_parse_text(kind);
                    materialized_parser_text(
                        ctx,
                        schema,
                        parse_fn,
                        false,
                        raw_expr,
                        target,
                        path_expr,
                        indent,
                    )
                },
                None => match crate::json_schema::schema::content_encoding_of(schema) {
                    Some(encoding) => {
                        let parse_fn = crate::json_schema::ts_text::decode_fn_text(encoding);
                        materialized_parser_text(
                            ctx,
                            schema,
                            parse_fn,
                            true,
                            raw_expr,
                            target,
                            path_expr,
                            indent,
                        )
                    },
                    None => match schema.const_value {
                        Some(value) => {
                            let literal = crate::json_schema::ts_text::value_literal(value);
                            const_parser(value, raw_expr, target, path_expr, indent, literal)
                        },
                        None => match schema.enum_values {
                            Some(values) => enum_parser(
                                values@,
                                raw_expr,
                                target,
                                path_expr,
                                indent,
                            ),
                            None => if crate::json_schema::schema::has_type(schema, "string"@) {
                                if crate::json_schema::schema::string_constraints(schema) {
                                    string_parser(ctx, schema, raw_expr, target, path_expr, indent)
                                } else {
                                    typeof_parser(raw_expr, target, path_expr, indent, "string"@)
                                }
                            } else if crate::json_schema::schema::has_type(schema, "number"@) {
                                number_parser(schema, raw_expr, target, path_expr, indent)
                            } else if crate::json_schema::schema::has_type(schema, "boolean"@) {
                                typeof_parser(raw_expr, target, path_expr, indent, "boolean"@)
                            } else if crate::json_schema::schema::has_type(schema, "integer"@) {
                                integer_parser(schema, raw_expr, target, path_expr, indent)
                            } else if crate::json_schema::schema::has_type(schema, "array"@) {
                                array_parser(
                                    ctx,
                                    schema,
                                    raw_expr,
                                    target,
                                    path_expr,
                                    indent,
                                    depth,
                                    follow,
                                )
                            } else if crate::json_schema::schema::has_type(schema, "object"@) {
                                let body = object_body(
                                    ctx,
                                    schema,
                                    raw_expr,
                                    target,
                                    path_expr,
                                    indent + "  "@,
                                    depth,
                                    follow,
                                );
                                object_parser(raw_expr, path_expr, indent, body)
                            } else if crate::json_schema::schema::has_type(schema, "null"@) {
                                null_parser(raw_expr, target, path_expr, indent)
                            } else {
                                indent + target + " = "@ + raw_expr + " as never;\n"@
                            },
                        },
                    },
                },
            }
        },
    }
}

/// The parser of a value, with a bound on the references that are followed.
fn parse_value(
    ctx: &TsContext,
    schema: &Schema,
    raw_expr: &str,
    target: &str,
    path_expr: &str,
    indent: &str,
    depth: u64,
    follow: u128,
) -> (result: String)
    ensures
        result@ == value_parser(
            *ctx,
            *schema,
            raw_expr@,
            target@,
            path_expr@,
            indent@,
            depth,
            follow,
        ),
    decreases follow, schema, 4nat,
{
    proof { crate::json_schema::annotation::lemma_non_null_smaller(*schema); }
    match &schema.reference {
        Some(reference) => reference_parser(
            ctx,
            reference.as_str(),
            raw_expr,
            target,
            path_expr,
            indent,
        ),
        None => if is_ts_union(schema) {
            let models: Vec<JsonModel> = Vec::new();
            assert(models@ =~= Seq::empty());
            parse_union(
                ctx,
                schema,
                &models,
                raw_expr,
                target,
                path_expr,
                indent,
                depth,
                follow,
            )
        } else if schema_has_null_branch(schema) {
            let inner = indent.to_owned().concat("  ");
            let parser = match non_null_branch(schema) {
                Some(branch) => parse_value(
                    ctx,
                    branch,
                    raw_expr,
                    target,
                    path_expr,
                    inner.as_str(),
                    depth,
                    follow,
                ),
                None => String::new(),
            };
            indent.to_owned().concat("if (").concat(raw_expr).concat(" === null) {\n")
                .concat(indent).concat("  ").concat(target).concat(" = null;\n").concat(indent)
                .concat("} else {\n").concat(parser.as_str()).concat(indent).concat("}\n")
        } else if let Some(branch) = nullable_non_null_schema(schema) {
            parse_value(ctx, branch, raw_expr, target, path_expr, indent, depth, follow)
        } else {
            match temporal_kind_direct(schema) {
                Some(kind) => {
                    let parse_fn = ts_temporal_parse_fn(kind);
                    materialized_parser(
                        ctx,
                        schema,
                        parse_fn.as_str(),
                        false,
                        raw_expr,
                        target,
                        path_expr,
                        indent,
                    )
                },
                None => match content_encoding_direct(schema) {
                    Some(encoding) => {
                        let parse_fn = ts_content_encoding_parse_fn(encoding);
                        materialized_parser(
                            ctx,
                            schema,
                            parse_fn.as_str(),
                            true,
                            raw_expr,
                            target,
                            path_expr,
                            indent,
                        )
                    },
                    None => match &schema.const_value {
                        Some(value) => {
                            let literal = typescript_value_literal(value);
                            render_const_parser(
                                value,
                                raw_expr,
                                target,
                                path_expr,
                                indent,
                                literal.as_str(),
                            )
                        },
                        None => match &schema.enum_values {
                            Some(values) => render_enum_parser(
                                values,
                                raw_expr,
                                target,
                                path_expr,
                                indent,
                            ),
                            None => if type_is(schema, "string") {
                                if has_string_constraints(schema) {
                                    constrained_string_parser(
                                        ctx,
                                        schema,
                                        raw_expr,
                                        target,
                                        path_expr,
                                        indent,
                                    )
                                } else {
                                    render_typeof_parser(
                                        raw_expr,
                                        target,
                                        path_expr,
                                        indent,
                                        "string",
                                    )
                                }
                            } else if type_is(schema, "number") {
                                number_value_parser(schema, raw_expr, target, path_expr, indent)
                            } else if type_is(schema, "boolean") {
                                render_typeof_parser(raw_expr, target, path_expr, indent, "boolean")
                            } else if type_is(schema, "integer") {
                                integer_value_parser(schema, raw_expr, target, path_expr, indent)
                            } else if type_is(schema, "array") {
                                parse_array(
                                    ctx,
                                    schema,
                                    raw_expr,
                                    target,
                                    path_expr,
                                    indent,
                                    depth,
                                    follow,
                                )
                            } else if type_is(schema, "object") {
                                let inner = indent.to_owned().concat("  ");
                                let body = object_assignment(
                                    ctx,
                                    schema,
                                    raw_expr,
                                    target,
                                    path_expr,
                                    inner.as_str(),
                                    depth,
                                    follow,
                                );
                                render_object_parser(raw_expr, path_expr, indent, body.as_str())
                            } else if type_is(schema, "null") {
                                render_null_parser(raw_expr, target, path_expr, indent)
                            } else {
                                indent.to_owned().concat(target).concat(" = ").concat(raw_expr)
                                    .concat(" as never;\n")
                            },
                        },
                    },
                },
            }
        },
    }
}

/// The parser of a value. The variables of an array or a map carry its depth.
pub fn render_value_parser_at_depth(
    ctx: &TsContext,
    schema: &Schema,
    raw_expr: &str,
    target: &str,
    path_expr: &str,
    indent: &str,
    depth: u64,
) -> (result: String)
    ensures
        result@ == value_parser(
            *ctx,
            *schema,
            raw_expr@,
            target@,
            path_expr@,
            indent@,
            depth,
            crate::json_schema::fields::follow_limit(*ctx),
        ),
{
    parse_value(ctx, schema, raw_expr, target, path_expr, indent, depth, reference_limit(ctx))
}

/// The parser of an array: each element by the parser of its schema, and the checks of the array
/// over its wire elements.
pub open spec fn array_parser(
    ctx: TsContext,
    schema: Schema,
    raw_expr: Seq<char>,
    target: Seq<char>,
    path_expr: Seq<char>,
    indent: Seq<char>,
    depth: u64,
    follow: u128,
) -> Seq<char>
    decreases follow, schema, 0nat, 0nat,
{
    proof { crate::json_schema::annotation::lemma_items_smaller(schema); }

    let suffix = crate::json_schema::ts_text::depth_suffix(depth);
    let element = "element"@ + suffix;
    let index = "index"@ + suffix;
    let item = "item"@ + suffix;
    let item_annotation = match schema.items {
        Some(items) => crate::json_schema::annotation::annotation_or_else(ctx, *items, "unknown"@),
        None => "unknown"@,
    };
    let parser = match schema.items {
        Some(items) => {
            let item_path = crate::json_schema::ts_text::indexed_path(path_expr, index);
            let inner = indent + "    "@;
            value_parser(
                ctx,
                *items,
                element,
                item,
                item_path,
                inner,
                crate::json_schema::ts_text::deeper(depth),
                follow,
            )
        },
        None => indent + "    "@ + item + " = "@ + element + " as unknown;\n"@,
    };
    let checks = if crate::json_schema::schema::array_constraints(schema) {
        let inner = indent + "  "@;
        crate::json_schema::checks::array_checks(
            ctx,
            raw_expr,
            path_expr,
            schema,
            inner,
            depth,
            false,
        )
    } else {
        Seq::<char>::empty()
    };
    (
        indent + "if (!Array.isArray("@ + raw_expr + ")) {\n"@ + indent
            + "  violations.push({ path: "@ + path_expr + ", reason: 'expected array' });\n"@
            + indent + "} else {\n"@ + indent + "  "@ + target + " = [];\n"@ + indent + "  "@
            + raw_expr + ".forEach(("@ + element + ": unknown, "@ + index + ": number) => {\n"@
            + indent + "    let "@ + item + ": "@ + item_annotation + " = undefined as unknown as "@
            + item_annotation + ";\n"@ + parser + indent + "    if ("@ + item
            + " !== undefined) {\n"@ + indent + "      "@ + target + "!.push("@ + item + ");\n"@
            + indent + "    }\n"@ + indent + "  });\n"@ + checks + indent + "}\n"@
    )
}

/// The parser of an array: each element by the parser of its schema, and the checks of the array
/// over its wire elements.
fn parse_array(
    ctx: &TsContext,
    schema: &Schema,
    raw_expr: &str,
    target: &str,
    path_expr: &str,
    indent: &str,
    depth: u64,
    follow: u128,
) -> (result: String)
    ensures
        result@ == array_parser(
            *ctx,
            *schema,
            raw_expr@,
            target@,
            path_expr@,
            indent@,
            depth,
            follow,
        ),
    decreases follow, schema, 0nat,
{
    proof { crate::json_schema::annotation::lemma_items_smaller(*schema); }
    let suffix = ts_depth_suffix(depth);
    let element = "element".to_owned().concat(suffix.as_str());
    let index = "index".to_owned().concat(suffix.as_str());
    let item = "item".to_owned().concat(suffix.as_str());
    let item_annotation = match &schema.items {
        Some(items) => annotation_or(ctx, items, "unknown"),
        None => "unknown".to_owned(),
    };
    let parser = match &schema.items {
        Some(items) => {
            let item_path = ts_indexed_path(path_expr, index.as_str());
            let inner = indent.to_owned().concat("    ");
            parse_value(
                ctx,
                items,
                element.as_str(),
                item.as_str(),
                item_path.as_str(),
                inner.as_str(),
                next_depth(depth),
                follow,
            )
        },
        None => indent.to_owned().concat("    ").concat(item.as_str()).concat(" = ")
            .concat(element.as_str()).concat(" as unknown;\n"),
    };
    let checks = if has_array_constraints(schema) {
        let inner = indent.to_owned().concat("  ");
        render_ts_array_checks(ctx, raw_expr, path_expr, schema, inner.as_str(), depth, false)
    } else {
        String::new()
    };
    indent.to_owned().concat("if (!Array.isArray(").concat(raw_expr).concat(")) {\n").concat(indent)
        .concat("  violations.push({ path: ").concat(path_expr)
        .concat(", reason: 'expected array' });\n").concat(indent).concat("} else {\n")
        .concat(indent).concat("  ").concat(target).concat(" = [];\n").concat(indent).concat("  ")
        .concat(raw_expr).concat(".forEach((").concat(element.as_str()).concat(": unknown, ")
        .concat(index.as_str()).concat(": number) => {\n").concat(indent).concat("    let ")
        .concat(item.as_str()).concat(": ").concat(item_annotation.as_str())
        .concat(" = undefined as unknown as ").concat(item_annotation.as_str()).concat(";\n")
        .concat(parser.as_str()).concat(indent).concat("    if (").concat(item.as_str())
        .concat(" !== undefined) {\n").concat(indent).concat("      ").concat(target)
        .concat("!.push(").concat(item.as_str()).concat(");\n").concat(indent).concat("    }\n")
        .concat(indent).concat("  });\n").concat(checks.as_str()).concat(indent).concat("}\n")
}

/// The parser of a value outside of arrays.
pub open spec fn plain_parser(
    ctx: TsContext,
    schema: Schema,
    raw_expr: Seq<char>,
    target: Seq<char>,
    path_expr: Seq<char>,
    indent: Seq<char>,
) -> Seq<char> {
    value_parser(
        ctx,
        schema,
        raw_expr,
        target,
        path_expr,
        indent,
        0,
        crate::json_schema::fields::follow_limit(ctx),
    )
}

/// The parser of a value outside of arrays.
pub fn render_value_parser(
    ctx: &TsContext,
    schema: &Schema,
    raw_expr: &str,
    target: &str,
    path_expr: &str,
    indent: &str,
) -> (result: String)
    ensures
        result@ == plain_parser(*ctx, *schema, raw_expr@, target@, path_expr@, indent@),
{
    render_value_parser_at_depth(ctx, schema, raw_expr, target, path_expr, indent, 0)
}

/// The clause that selects one member of a union, the first in its place.
pub open spec fn clause_text(first: bool, condition: Seq<char>, indent: Seq<char>) -> Seq<char> {
    if first {
        (indent + "if ("@ + condition + ") {\n"@)
    } else {
        (indent + "} else if ("@ + condition + ") {\n"@)
    }
}

/// The clause that selects one member of a union, the first in its place.
pub fn union_clause(first: bool, condition: &str, indent: &str) -> (result: String)
    ensures
        result@ == clause_text(first, condition@, indent@),
{
    if first {
        indent.to_owned().concat("if (").concat(condition).concat(") {\n")
    } else {
        indent.to_owned().concat("} else if (").concat(condition).concat(") {\n")
    }
}

/// The converter of a member of a union; empty where it has none.
pub open spec fn converter_text(variant: crate::json_schema::union::VariantView) -> Seq<char> {
    match variant.converter {
        Some(converter) => converter,
        None => Seq::<char>::empty(),
    }
}

/// The converter of a member of a union; empty where it has none.
pub fn converter_or_empty(variant: &TsUnionVariant) -> (result: String)
    ensures
        result@ == converter_text(variant@),
{
    match &variant.converter {
        Some(converter) => converter.clone(),
        None => String::new(),
    }
}

/// The cases of the objects of a union, by their tags.
pub open spec fn case_texts(
    variants: Seq<crate::json_schema::union::VariantView>,
    raw_expr: Seq<char>,
    target: Seq<char>,
    path_expr: Seq<char>,
    indent: Seq<char>,
) -> Seq<char>
    decreases variants.len(),
{
    if variants.len() == 0 {
        Seq::empty()
    } else {
        let variant = variants.last();
        case_texts(variants.drop_last(), raw_expr, target, path_expr, indent) + (
            {
                match variant.discriminant_value {
                    Some(value) => if variant.is_object {
                        let literal = crate::json_schema::ts_text::value_literal(value);
                        let converter = converter_text(variant);
                        (
                            indent + "    case "@ + literal + ":\n"@ + indent + "      try {\n"@
                                + indent + "        "@ + target + " = "@ + converter
                                + ".fromTransferType("@ + raw_expr + ");\n"@ + indent
                                + "      } catch (error) {\n"@ + indent
                                + "        __nexgenDefinitions.collect(violations, "@ + path_expr
                                + ", error);\n"@ + indent + "      }\n"@ + indent
                                + "      break;\n"@
                        )
                    } else {
                        Seq::<char>::empty()
                    },
                    None => Seq::<char>::empty(),
                }
            }
        )
    }
}

/// The cases of the objects of a union, by their tags.
pub fn discriminant_cases(
    variants: &Vec<TsUnionVariant>,
    raw_expr: &str,
    target: &str,
    path_expr: &str,
    indent: &str,
) -> (result: String)
    ensures
        result@ == case_texts(
            crate::json_schema::union::variant_views(variants@),
            raw_expr@,
            target@,
            path_expr@,
            indent@,
        ),
{
    let mut result: String = String::new();
    let mut i: usize = 0;
    while i < variants.len()
        invariant
            i <= variants.len(),
            result@ == case_texts(
                crate::json_schema::union::variant_views(variants@).take(i as int),
                raw_expr@,
                target@,
                path_expr@,
                indent@,
            ),
        decreases variants.len() - i,
    {
        proof {
            assert(
                crate::json_schema::union::variant_views(variants@).take(i + 1).drop_last()
                    =~= crate::json_schema::union::variant_views(variants@).take(i as int)
            );
            assert(
                crate::json_schema::union::variant_views(variants@).take(i + 1).last()
                    == crate::json_schema::union::variant_views(variants@)[i as int]
            );
        }
        let variant = &variants[i];
        let part = {
        match &variant.discriminant_value {
            Some(value) => if variant.is_object {
                let literal = typescript_value_literal(value);
                let converter = converter_or_empty(variant);
                indent.to_owned().concat("    case ").concat(literal.as_str()).concat(":\n")
                    .concat(indent).concat("      try {\n").concat(indent).concat("        ")
                    .concat(target).concat(" = ").concat(converter.as_str())
                    .concat(".fromTransferType(").concat(raw_expr).concat(");\n").concat(indent)
                    .concat("      } catch (error) {\n").concat(indent)
                    .concat("        __nexgenDefinitions.collect(violations, ").concat(path_expr)
                    .concat(", error);\n").concat(indent).concat("      }\n").concat(indent)
                    .concat("      break;\n")
            } else {
                String::new()
            },
            None => String::new(),
        }
        };
        result.append(part.as_str());
        i += 1;
    }
    proof {
        crate::text::lemma_take_all(crate::json_schema::union::variant_views(variants@));
    }
    result
}

/// The tags of the objects of a union.
pub open spec fn tag_literals(
    variants: Seq<crate::json_schema::union::VariantView>,
) -> Seq<Seq<char>>
    decreases variants.len(),
{
    if variants.len() == 0 {
        Seq::empty()
    } else {
        let variant = variants.last();
        tag_literals(variants.drop_last()) + (
            match variant.discriminant_value {
                Some(value) => if variant.is_object {
                    seq![crate::json_schema::ts_text::value_literal(value)]
                } else {
                    Seq::<Seq<char>>::empty()
                },
                None => Seq::<Seq<char>>::empty(),
            }
        )
    }
}

/// The tags of the objects of a union.
pub fn discriminant_literals(variants: &Vec<TsUnionVariant>) -> (result: Vec<String>)
    ensures
        crate::text::texts(result@) == tag_literals(
            crate::json_schema::union::variant_views(variants@),
        ),
{
    broadcast use crate::text::group_texts;

    let mut result: Vec<String> = Vec::new();
    let mut i: usize = 0;
    while i < variants.len()
        invariant
            i <= variants.len(),
            crate::text::texts(result@) == tag_literals(
                crate::json_schema::union::variant_views(variants@).take(i as int),
            ),
        decreases variants.len() - i,
    {
        proof {
            assert(
                crate::json_schema::union::variant_views(variants@).take(i + 1).drop_last()
                    =~= crate::json_schema::union::variant_views(variants@).take(i as int)
            );
            assert(
                crate::json_schema::union::variant_views(variants@).take(i + 1).last()
                    == crate::json_schema::union::variant_views(variants@)[i as int]
            );
        }
        let variant = &variants[i];
        let part = {
        match &variant.discriminant_value {
            Some(value) => if variant.is_object {
                vec![typescript_value_literal(value)]
            } else {
                Vec::new()
            },
            None => Vec::new(),
        }
        };
        result = with_lines(result, part);
        i += 1;
    }
    proof {
        crate::text::lemma_take_all(crate::json_schema::union::variant_views(variants@));
    }
    result
}

/// The parser of one object of a union by its converter.
pub open spec fn converted_object(
    converter: Seq<char>,
    raw_expr: Seq<char>,
    target: Seq<char>,
    path_expr: Seq<char>,
    indent: Seq<char>,
) -> Seq<char> {
    indent + "  try {\n"@ + indent + "    "@ + target + " = "@ + converter + ".fromTransferType("@
        + raw_expr + ");\n"@ + indent + "  } catch (error) {\n"@ + indent
        + "    __nexgenDefinitions.collect(violations, "@ + path_expr + ", error);\n"@ + indent
        + "  }\n"@
}

/// The parser of one object of a union by its converter.
pub fn converted_object_parser(
    converter: &str,
    raw_expr: &str,
    target: &str,
    path_expr: &str,
    indent: &str,
) -> (result: String)
    ensures
        result@ == converted_object(converter@, raw_expr@, target@, path_expr@, indent@),
{
    indent.to_owned().concat("  try {\n").concat(indent).concat("    ").concat(target)
        .concat(" = ").concat(converter).concat(".fromTransferType(").concat(raw_expr)
        .concat(");\n").concat(indent).concat("  } catch (error) {\n").concat(indent)
        .concat("    __nexgenDefinitions.collect(violations, ").concat(path_expr)
        .concat(", error);\n").concat(indent).concat("  }\n")
}

/// The value as it is, under a type.
pub open spec fn cast_line(
    raw_expr: Seq<char>,
    target: Seq<char>,
    ts_type: Seq<char>,
    indent: Seq<char>,
) -> Seq<char> {
    indent + target + " = "@ + raw_expr + " as "@ + ts_type + ";\n"@
}

/// The value as it is, under a type.
pub fn render_cast_line(raw_expr: &str, target: &str, ts_type: &str, indent: &str) -> (result:
    String)
    ensures
        result@ == cast_line(raw_expr@, target@, ts_type@, indent@),
{
    indent.to_owned().concat(target).concat(" = ").concat(raw_expr).concat(" as ").concat(ts_type)
        .concat(";\n")
}

/// The parser of one object of a union without tags: by its converter, or in place.
pub open spec fn lone_object_text(
    ctx: TsContext,
    models: Seq<JsonModel>,
    schema: Schema,
    index: int,
    raw_expr: Seq<char>,
    target: Seq<char>,
    path_expr: Seq<char>,
    indent: Seq<char>,
    depth: u64,
    follow: u128,
) -> Seq<char>
    decreases follow, schema, 1nat, 0nat,
        when crate::json_schema::union::union_of(ctx, models, schema) matches Some(union) && 0
            <= index < union.variants.len()
{
    let variant = crate::json_schema::union::union_of(ctx, models, schema)->Some_0.variants[index];
    proof {
        if !variant.followed {
            crate::json_schema::union::lemma_variant_smaller(ctx, models, schema, index);
        }
    }
    let inner = indent + "  "@;
    match variant.converter {
        Some(converter) => converted_object(converter, raw_expr, target, path_expr, indent),
        None => if !variant.followed {
            object_body(ctx, variant.schema, raw_expr, target, path_expr, inner, depth, follow)
        } else if follow > 0 {
            object_body(
                ctx,
                variant.schema,
                raw_expr,
                target,
                path_expr,
                inner,
                depth,
                (follow - 1) as u128,
            )
        } else {
            cast_line(raw_expr, target, variant.ts_type, inner)
        },
    }
}

/// The index of the first object among the members of a union.
pub open spec fn first_object(variants: Seq<crate::json_schema::union::VariantView>) -> Option<int>
    decreases variants.len(),
{
    if variants.len() == 0 {
        None
    } else {
        match first_object(variants.drop_last()) {
            Some(i) => Some(i),
            None => if variants.last().is_object {
                Some(variants.len() - 1)
            } else {
                None
            },
        }
    }
}

/// The index of the first object among the members of a union.
pub fn find_first_object(variants: &Vec<TsUnionVariant>) -> (index: Option<usize>)
    ensures
        match index {
            Some(k) => k < variants@.len() && first_object(
                crate::json_schema::union::variant_views(variants@),
            ) == Some(k as int),
            None => first_object(crate::json_schema::union::variant_views(variants@)) is None,
        },
{
    let ghost views = crate::json_schema::union::variant_views(variants@);
    let mut found: Option<usize> = None;
    let mut i: usize = 0;
    while i < variants.len()
        invariant
            i <= variants.len(),
            views == crate::json_schema::union::variant_views(variants@),
            match found {
                Some(k) => k < i && first_object(views.take(i as int)) == Some(k as int),
                None => first_object(views.take(i as int)) is None,
            },
        decreases variants.len() - i,
    {
        assert(views.take(i + 1).drop_last() =~= views.take(i as int));
        if found.is_none() && variants[i].is_object {
            found = Some(i);
        }
        i += 1;
    }
    assert(views.take(i as int) =~= views);
    found
}

/// The parser of the objects of a union: by their tags where they have any, else of the first.
pub open spec fn object_branches(
    union: crate::json_schema::union::UnionView,
    raw_expr: Seq<char>,
    target: Seq<char>,
    path_expr: Seq<char>,
    indent: Seq<char>,
    lone: Seq<char>,
) -> Seq<char> {
    match first_object(union.variants) {
        Some(_) => {
            let condition = "__nexgenDefinitions.isPlainObject("@ + raw_expr + ")"@;
            let clause = clause_text(true, condition, indent);
            match union.discriminant {
                Some(discriminant) => {
                    let disc_key = "("@ + raw_expr + " as Record<string, unknown>)["@
                        + crate::json_schema::ts_text::string_literal(discriminant) + "]"@;
                    let cases = case_texts(union.variants, raw_expr, target, path_expr, indent);
                    let literals = tag_literals(union.variants);
                    let all = crate::text::join(literals, ", "@);
                    (
                        clause + indent + "  switch ("@ + disc_key + ") {\n"@ + cases + indent
                            + "    default:\n"@ + indent + "      violations.push({ path: "@
                            + path_expr + ", reason: `unknown discriminator "@ + discriminant
                            + " ${String("@ + disc_key + ")}: expected one of ["@ + all
                            + "]` });\n"@ + indent + "  }\n"@
                    )
                },
                None => (clause + lone),
            }
        },
        None => Seq::<char>::empty(),
    }
}

/// The parser of the objects of a union: by their tags where they have any, else of the first.
pub fn object_branch_parser(
    union: &TsUnion,
    raw_expr: &str,
    target: &str,
    path_expr: &str,
    indent: &str,
    lone: &str,
) -> (result: String)
    ensures
        result@ == object_branches(union@, raw_expr@, target@, path_expr@, indent@, lone@),
{
    match find_first_object(&union.variants) {
        Some(_) => {
            let condition = "__nexgenDefinitions.isPlainObject(".to_owned().concat(raw_expr)
                .concat(")");
            let clause = union_clause(true, condition.as_str(), indent);
            match &union.discriminant {
                Some(discriminant) => {
                    let disc_key = "(".to_owned().concat(raw_expr)
                        .concat(" as Record<string, unknown>)[")
                        .concat(typescript_string_literal(discriminant.as_str()).as_str())
                        .concat("]");
                    let cases = discriminant_cases(
                        &union.variants,
                        raw_expr,
                        target,
                        path_expr,
                        indent,
                    );
                    let literals = discriminant_literals(&union.variants);
                    let all = join_texts(&literals, ", ");
                    clause.clone().concat(indent).concat("  switch (").concat(disc_key.as_str())
                        .concat(") {\n").concat(cases.as_str()).concat(indent)
                        .concat("    default:\n").concat(indent)
                        .concat("      violations.push({ path: ").concat(path_expr)
                        .concat(", reason: `unknown discriminator ").concat(discriminant.as_str())
                        .concat(" ${String(").concat(disc_key.as_str())
                        .concat(")}: expected one of [").concat(all.as_str()).concat("]` });\n")
                        .concat(indent).concat("  }\n")
                },
                None => clause.clone().concat(lone),
            }
        },
        None => String::new(),
    }
}

/// The parser of one scalar or array of a union. `first` says that no clause stands before it;
/// `array` is the parser of the value where it is an array.
pub open spec fn simple_branch(
    ctx: TsContext,
    variant: crate::json_schema::union::VariantView,
    first: bool,
    raw_expr: Seq<char>,
    target: Seq<char>,
    path_expr: Seq<char>,
    indent: Seq<char>,
    array: Seq<char>,
) -> Seq<char> {
    let clause = match crate::json_schema::union::variant_guard(variant, raw_expr) {
        Some(guard) => clause_text(first, guard, indent),
        None => Seq::<char>::empty(),
    };
    let inner = indent + "  "@;
    if variant.is_array {
        let array_target = target + "ArrayBranch"@;
        (
            clause + indent + "  let "@ + array_target + ": "@ + variant.ts_type
                + " = undefined as unknown as "@ + variant.ts_type + ";\n"@ + array + indent
                + "  if ("@ + array_target + " !== undefined) {\n    "@ + target + " = "@
                + array_target + ";\n  }\n"@
        )
    } else {
        let member = "("@ + target + " as "@ + variant.ts_type + ")"@;
        let checks = crate::json_schema::fields::value_checks(
            ctx,
            variant.schema,
            member,
            path_expr,
            inner,
        );
        (
            clause + indent + "  "@ + target + " = "@ + raw_expr + " as "@ + variant.ts_type
                + ";\n"@ + checks
        )
    }
}

/// The parser of one scalar or array of a union. `first` says that no clause stands before it;
/// `array` is the parser of the value where it is an array.
pub fn simple_branch_parser(
    ctx: &TsContext,
    variant: &TsUnionVariant,
    first: bool,
    raw_expr: &str,
    target: &str,
    path_expr: &str,
    indent: &str,
    array: &str,
) -> (result: String)
    ensures
        result@ == simple_branch(
            *ctx,
            variant@,
            first,
            raw_expr@,
            target@,
            path_expr@,
            indent@,
            array@,
        ),
{
    let clause = match ts_variant_guard(variant, raw_expr) {
        Some(guard) => union_clause(first, guard.as_str(), indent),
        None => String::new(),
    };
    let inner = indent.to_owned().concat("  ");
    if variant.is_array {
        let array_target = target.to_owned().concat("ArrayBranch");
        clause.clone().concat(indent).concat("  let ").concat(array_target.as_str()).concat(": ")
            .concat(variant.ts_type.as_str()).concat(" = undefined as unknown as ")
            .concat(variant.ts_type.as_str()).concat(";\n").concat(array).concat(indent)
            .concat("  if (").concat(array_target.as_str()).concat(" !== undefined) {\n    ")
            .concat(target).concat(" = ").concat(array_target.as_str()).concat(";\n  }\n")
    } else {
        let member = "(".to_owned().concat(target).concat(" as ").concat(variant.ts_type.as_str())
            .concat(")");
        let checks = render_ts_field_checks(
            ctx,
            variant.schema,
            member.as_str(),
            path_expr,
            inner.as_str(),
        );
        clause.clone().concat(indent).concat("  ").concat(target).concat(" = ").concat(raw_expr)
            .concat(" as ").concat(variant.ts_type.as_str()).concat(";\n").concat(checks.as_str())
    }
}

/// The parser of the value of one member of a union, where that is an array.
pub open spec fn array_branch(
    ctx: TsContext,
    models: Seq<JsonModel>,
    schema: Schema,
    index: int,
    raw_expr: Seq<char>,
    target: Seq<char>,
    path_expr: Seq<char>,
    indent: Seq<char>,
    depth: u64,
    follow: u128,
) -> Seq<char>
    decreases follow, schema, 1nat, 0nat,
        when crate::json_schema::union::union_of(ctx, models, schema) matches Some(union) && 0
            <= index < union.variants.len()
{
    let variant = crate::json_schema::union::union_of(ctx, models, schema)->Some_0.variants[index];
    proof {
        if !variant.followed {
            crate::json_schema::union::lemma_variant_smaller(ctx, models, schema, index);
        }
    }
    let inner = indent + "  "@;
    let array_target = target + "ArrayBranch"@;
    if !variant.is_array {
        Seq::empty()
    } else if !variant.followed {
        array_parser(ctx, variant.schema, raw_expr, array_target, path_expr, inner, depth, follow)
    } else if follow > 0 {
        array_parser(
            ctx,
            variant.schema,
            raw_expr,
            array_target,
            path_expr,
            inner,
            depth,
            (follow - 1) as u128,
        )
    } else {
        cast_line(raw_expr, array_target, variant.ts_type, inner)
    }
}

/// The parsers of the scalars and arrays among the first members of a union. A clause stands
/// before them where the union has an object.
pub open spec fn simple_branches(
    ctx: TsContext,
    models: Seq<JsonModel>,
    schema: Schema,
    raw_expr: Seq<char>,
    target: Seq<char>,
    path_expr: Seq<char>,
    indent: Seq<char>,
    depth: u64,
    follow: u128,
    count: nat,
) -> Seq<char>
    decreases follow, schema, 2nat, count,
        when crate::json_schema::union::union_of(ctx, models, schema) matches Some(union) && count
            <= union.variants.len()
{
    if count == 0 {
        Seq::empty()
    } else {
        let variants = crate::json_schema::union::union_of(ctx, models, schema)->Some_0.variants;
        let variant = variants[count - 1];
        let before = simple_branches(
            ctx,
            models,
            schema,
            raw_expr,
            target,
            path_expr,
            indent,
            depth,
            follow,
            (count - 1) as nat,
        );
        if variant.is_object {
            before
        } else {
            let array = array_branch(
                ctx,
                models,
                schema,
                count - 1,
                raw_expr,
                target,
                path_expr,
                indent,
                depth,
                follow,
            );
            let first = first_object(variants) is None && !has_clause(variants.take(count - 1));
            before + simple_branch(
                ctx,
                variant,
                first,
                raw_expr,
                target,
                path_expr,
                indent,
                array,
            )
        }
    }
}

/// Whether one of the members is a scalar or an array with a clause.
pub open spec fn has_clause(variants: Seq<crate::json_schema::union::VariantView>) -> bool
    decreases variants.len(),
{
    if variants.len() == 0 {
        false
    } else {
        has_clause(variants.drop_last()) || opens_clause(variants.last())
    }
}

/// Whether a member is a scalar or an array with a clause.
pub open spec fn opens_clause(variant: crate::json_schema::union::VariantView) -> bool {
    !variant.is_object && (variant.is_array || variant.is_integer || variant.typeof_guard.is_some())
}

/// Whether a member is a scalar or an array with a clause.
pub fn starts_clause(variant: &TsUnionVariant) -> (result: bool)
    ensures
        result == opens_clause(variant@),
{
    !variant.is_object && (variant.is_array || variant.is_integer || variant.typeof_guard.is_some())
}

/// The type of the first member of a union; empty where it has none.
pub open spec fn first_type(union: crate::json_schema::union::UnionView) -> Seq<char> {
    if union.variants.len() > 0 {
        let member = union.variants[0];
        member.ts_type
    } else {
        Seq::<char>::empty()
    }
}

/// The type of the first member of a union; empty where it has none.
pub fn first_member_type(union: &TsUnion) -> (result: String)
    ensures
        result@ == first_type(union@),
{
    if union.variants.len() > 0 {
        let member = &union.variants[0];
        member.ts_type.as_str().to_owned()
    } else {
        String::new()
    }
}

/// The clause of `null` in a union, where it is one of its members, and the report of a value that
/// no member selects.
pub open spec fn union_end(
    union: crate::json_schema::union::UnionView,
    raw_expr: Seq<char>,
    target: Seq<char>,
    path_expr: Seq<char>,
    indent: Seq<char>,
) -> Seq<char> {
    let any = first_object(union.variants) is Some || has_clause(union.variants);
    let null_branch = if union.nullable {
        let condition = raw_expr + " === null"@;
        let clause = clause_text(!any, condition, indent);
        let member = first_type(union);
        (clause + indent + "  "@ + target + " = null as unknown as "@ + member + ";\n"@)
    } else {
        Seq::<char>::empty()
    };
    (
        null_branch + indent + "} else {\n"@ + indent + "  violations.push({ path: "@ + path_expr
            + ", reason: 'expected one of: "@ + crate::json_schema::union::admissible_text(union)
            + "' });\n"@ + indent + "}\n"@
    )
}

/// The clause of `null` in a union, where it is one of its members, and the report of a value that
/// no member selects. `any` says that a clause stands before it.
fn union_end_parser(
    union: &TsUnion,
    any: bool,
    raw_expr: &str,
    target: &str,
    path_expr: &str,
    indent: &str,
) -> (result: String)
    requires
        any == (first_object(union@.variants) is Some || has_clause(union@.variants)),
    ensures
        result@ == union_end(union@, raw_expr@, target@, path_expr@, indent@),
{
    let null_branch = if union.nullable {
        let condition = raw_expr.to_owned().concat(" === null");
        let clause = union_clause(!any, condition.as_str(), indent);
        let member = first_member_type(union);
        clause.clone().concat(indent).concat("  ").concat(target).concat(" = null as unknown as ")
            .concat(member.as_str()).concat(";\n")
    } else {
        String::new()
    };
    null_branch.clone().concat(indent).concat("} else {\n").concat(indent)
        .concat("  violations.push({ path: ").concat(path_expr)
        .concat(", reason: 'expected one of: ").concat(admissible(union).as_str()).concat("' });\n")
        .concat(indent).concat("}\n")
}

/// The parser of the value of a union: the member is selected by the kind of the raw value, and
/// an object by its tag; a value that no member selects is reported.
pub open spec fn union_parser(
    ctx: TsContext,
    models: Seq<JsonModel>,
    schema: Schema,
    raw_expr: Seq<char>,
    target: Seq<char>,
    path_expr: Seq<char>,
    indent: Seq<char>,
    depth: u64,
    follow: u128,
) -> Seq<char>
    decreases follow, schema, 3nat, 0nat,
{
    match crate::json_schema::union::union_of(ctx, models, schema) {
        Some(union) => {
            let lone = match first_object(union.variants) {
                Some(index) => {
                    lone_object_text(
                        ctx,
                        models,
                        schema,
                        index,
                        raw_expr,
                        target,
                        path_expr,
                        indent,
                        depth,
                        follow,
                    )
                },
                None => Seq::empty(),
            };
            let objects = object_branches(union, raw_expr, target, path_expr, indent, lone);
            let simple = simple_branches(
                ctx,
                models,
                schema,
                raw_expr,
                target,
                path_expr,
                indent,
                depth,
                follow,
                union.variants.len(),
            );
            objects + simple + union_end(union, raw_expr, target, path_expr, indent)
        },
        None => Seq::empty(),
    }
}

/// The parser of the value of a union, with a bound on the references that are followed.
fn parse_union(
    ctx: &TsContext,
    schema: &Schema,
    models: &Vec<JsonModel>,
    raw_expr: &str,
    target: &str,
    path_expr: &str,
    indent: &str,
    depth: u64,
    follow: u128,
) -> (result: String)
    ensures
        result@ == union_parser(
            *ctx,
            models@,
            *schema,
            raw_expr@,
            target@,
            path_expr@,
            indent@,
            depth,
            follow,
        ),
    decreases follow, schema, 3nat,
{
    match classify_ts_union(ctx, schema, models) {
        Some(union) => {
            let ghost wanted = crate::json_schema::union::union_of(*ctx, models@, *schema)->Some_0;
            let inner = indent.to_owned().concat("  ");
            let array_target = target.to_owned().concat("ArrayBranch");
            let first = find_first_object(&union.variants);
            let lone = match first {
                Some(index) => {
                    let variant = &union.variants[index];
                    assert(wanted.variants[index as int] == variant@);
                    proof {
                        if !variant.followed {
                            crate::json_schema::union::lemma_variant_smaller(
                                *ctx,
                                models@,
                                *schema,
                                index as int,
                            );
                        }
                    }
                    match &variant.converter {
                        Some(converter) => converted_object_parser(
                            converter.as_str(),
                            raw_expr,
                            target,
                            path_expr,
                            indent,
                        ),
                        None => if !variant.followed {
                            object_assignment(
                                ctx,
                                variant.schema,
                                raw_expr,
                                target,
                                path_expr,
                                inner.as_str(),
                                depth,
                                follow,
                            )
                        } else if follow > 0 {
                            object_assignment(
                                ctx,
                                variant.schema,
                                raw_expr,
                                target,
                                path_expr,
                                inner.as_str(),
                                depth,
                                follow - 1,
                            )
                        } else {
                            render_cast_line(
                                raw_expr,
                                target,
                                variant.ts_type.as_str(),
                                inner.as_str(),
                            )
                        },
                    }
                },
                None => String::new(),
            };
            let objects = object_branch_parser(
                &union,
                raw_expr,
                target,
                path_expr,
                indent,
                lone.as_str(),
            );
            let mut simple = String::new();
            let mut any = first.is_some();
            let mut i: usize = 0;
            while i < union.variants.len()
                invariant
                    i <= union.variants.len(),
                    crate::json_schema::union::union_of(*ctx, models@, *schema) == Some(wanted),
                    union@ == wanted,
                    inner@ == indent@ + "  "@,
                    array_target@ == target@ + "ArrayBranch"@,
                    any == (first_object(wanted.variants) is Some || has_clause(
                        wanted.variants.take(i as int),
                    )),
                    simple@ == simple_branches(
                        *ctx,
                        models@,
                        *schema,
                        raw_expr@,
                        target@,
                        path_expr@,
                        indent@,
                        depth,
                        follow,
                        i as nat,
                    ),
                decreases union.variants.len() - i,
            {
                let variant = &union.variants[i];
                assert(wanted.variants[i as int] == variant@);
                assert(wanted.variants.take(i + 1).drop_last() =~= wanted.variants.take(i as int));
                assert(wanted.variants.take(i + 1).last() == variant@);
                if !variant.is_object {
                    proof {
                        if !variant.followed {
                            crate::json_schema::union::lemma_variant_smaller(
                                *ctx,
                                models@,
                                *schema,
                                i as int,
                            );
                        }
                    }
                    let array = if !variant.is_array {
                        String::new()
                    } else if !variant.followed {
                        parse_array(
                            ctx,
                            variant.schema,
                            raw_expr,
                            array_target.as_str(),
                            path_expr,
                            inner.as_str(),
                            depth,
                            follow,
                        )
                    } else if follow > 0 {
                        parse_array(
                            ctx,
                            variant.schema,
                            raw_expr,
                            array_target.as_str(),
                            path_expr,
                            inner.as_str(),
                            depth,
                            follow - 1,
                        )
                    } else {
                        render_cast_line(
                            raw_expr,
                            array_target.as_str(),
                            variant.ts_type.as_str(),
                            inner.as_str(),
                        )
                    };
                    assert(array@ == array_branch(
                        *ctx,
                        models@,
                        *schema,
                        i as int,
                        raw_expr@,
                        target@,
                        path_expr@,
                        indent@,
                        depth,
                        follow,
                    ));
                    let branch = simple_branch_parser(
                        ctx,
                        variant,
                        !any,
                        raw_expr,
                        target,
                        path_expr,
                        indent,
                        array.as_str(),
                    );
                    simple.append(branch.as_str());
                }
                if starts_clause(variant) {
                    any = true;
                }
                i += 1;
            }
            assert(wanted.variants.take(i as int) =~= wanted.variants);
            let end = union_end_parser(&union, any, raw_expr, target, path_expr, indent);
            objects.concat(simple.as_str()).concat(end.as_str())
        },
        None => String::new(),
    }
}

/// The parser of the value of a union: the member is selected by the kind of the raw value, and
/// an object by its tag; a value that no member selects is reported.
pub fn render_ts_union_parse(
    ctx: &TsContext,
    schema: &Schema,
    models: &Vec<JsonModel>,
    raw_expr: &str,
    target: &str,
    path_expr: &str,
    indent: &str,
) -> (result: String)
    ensures
        result@ == union_parser(
            *ctx,
            models@,
            *schema,
            raw_expr@,
            target@,
            path_expr@,
            indent@,
            0,
            crate::json_schema::fields::follow_limit(*ctx),
        ),
{
    parse_union(
        ctx,
        schema,
        models,
        raw_expr,
        target,
        path_expr,
        indent,
        0,
        reference_limit(ctx),
    )
}

} // verus!
