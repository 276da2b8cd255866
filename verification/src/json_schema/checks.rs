//! The checks that generated TypeScript code makes on values.

use vstd::prelude::*;

use crate::json_schema::annotation::{nullable_non_null_schema, serialize_expr_at_depth};
use crate::json_schema::scalar::{scalar_matcher, ScalarKind, ScalarMatcher};
use crate::json_schema::schema::{effective_min_length, type_is, DependentRequired, Schema};
use crate::json_schema::ts_text::{
    check_for, code_point_length_fn, count_text, literals_of, next_depth, ts_bound_literal,
    ts_depth_suffix, ts_has_own, ts_pattern_const_name, ts_scalar_literal, ts_template_escape,
    typescript_string_literal, typescript_value_literal, TsContext,
};
use crate::json_schema::value::{JsonNumber, JsonValue};
use crate::text::{join_texts, text_eq, with_lines};

verus! {

/// A check that reports a violation where a condition holds. The reason is written inside a
/// template literal.
pub open spec fn check_text(
    indent: Seq<char>,
    condition: Seq<char>,
    path_expr: Seq<char>,
    reason: Seq<char>,
) -> Seq<char> {
    (
        indent + "if ("@ + condition + ") {\n"@ + indent + "  violations.push({ path: "@ + path_expr
            + ", reason: `"@ + reason + "` });\n"@ + indent + "}\n"@
    )
}

/// A check that reports a violation where a condition holds. The reason is written inside a
/// template literal.
pub fn violation_check(
    indent: &str,
    condition: &str,
    path_expr: &str,
    reason: &str,
) -> (result: String)
    ensures
        result@ == check_text(indent@, condition@, path_expr@, reason@),
{
    indent.to_owned().concat("if (").concat(condition).concat(") {\n").concat(indent)
        .concat("  violations.push({ path: ").concat(path_expr).concat(", reason: `").concat(reason)
        .concat("` });\n").concat(indent).concat("}\n")
}

/// The check of one bound, where the schema has it.
pub open spec fn bound_check_text(
    bound: Option<JsonNumber>,
    is_integer: bool,
    value_expr: Seq<char>,
    path_expr: Seq<char>,
    indent: Seq<char>,
    failure: Seq<char>,
    demand: Seq<char>,
) -> Seq<char> {
    match bound {
        Some(number) => {
            let literal = crate::json_schema::ts_text::bound_literal(number, is_integer);
            let condition = value_expr + " "@ + failure + " "@ + literal;
            let reason = "must be "@ + demand + " "@ + literal + ", got ${"@ + value_expr + "}"@;
            check_text(indent, condition, path_expr, reason)
        },
        None => Seq::<char>::empty(),
    }
}

/// The check of one bound, where the schema has it.
pub fn bound_check(
    bound: &Option<JsonNumber>,
    is_integer: bool,
    value_expr: &str,
    path_expr: &str,
    indent: &str,
    failure: &str,
    demand: &str,
) -> (result: String)
    ensures
        result@ == bound_check_text(
            *bound,
            is_integer,
            value_expr@,
            path_expr@,
            indent@,
            failure@,
            demand@,
        ),
{
    match bound {
        Some(number) => {
            let literal = ts_bound_literal(number, is_integer);
            let condition = value_expr.to_owned().concat(" ").concat(failure).concat(" ")
                .concat(literal.as_str());
            let reason = "must be ".to_owned().concat(demand).concat(" ").concat(literal.as_str())
                .concat(", got ${").concat(value_expr).concat("}");
            violation_check(indent, condition.as_str(), path_expr, reason.as_str())
        },
        None => String::new(),
    }
}

/// The check of a divisor, where the schema has one.
pub open spec fn divisor_check_text(
    divisor: Option<JsonNumber>,
    is_integer: bool,
    value_expr: Seq<char>,
    path_expr: Seq<char>,
    indent: Seq<char>,
) -> Seq<char> {
    match divisor {
        Some(number) => {
            let literal = crate::json_schema::ts_text::bound_literal(number, is_integer);
            let condition = value_expr + " % "@ + literal + " !== 0"@;
            let reason = "must be a multiple of "@ + literal + ", got ${"@ + value_expr + "}"@;
            check_text(indent, condition, path_expr, reason)
        },
        None => Seq::<char>::empty(),
    }
}

/// The check of a divisor, where the schema has one.
pub fn divisor_check(
    divisor: &Option<JsonNumber>,
    is_integer: bool,
    value_expr: &str,
    path_expr: &str,
    indent: &str,
) -> (result: String)
    ensures
        result@ == divisor_check_text(*divisor, is_integer, value_expr@, path_expr@, indent@),
{
    match divisor {
        Some(number) => {
            let literal = ts_bound_literal(number, is_integer);
            let condition = value_expr.to_owned().concat(" % ").concat(literal.as_str())
                .concat(" !== 0");
            let reason = "must be a multiple of ".to_owned().concat(literal.as_str())
                .concat(", got ${").concat(value_expr).concat("}");
            violation_check(indent, condition.as_str(), path_expr, reason.as_str())
        },
        None => String::new(),
    }
}

/// The checks of a number against its bounds.
pub open spec fn numeric_bounds(
    value_expr: Seq<char>,
    path_expr: Seq<char>,
    schema: Schema,
    indent: Seq<char>,
) -> Seq<char> {
    let is_integer = crate::json_schema::schema::has_type(schema, "integer"@);
    let minimum = bound_check_text(
        schema.minimum,
        is_integer,
        value_expr,
        path_expr,
        indent,
        "<"@,
        ">="@,
    );
    let maximum = bound_check_text(
        schema.maximum,
        is_integer,
        value_expr,
        path_expr,
        indent,
        ">"@,
        "<="@,
    );
    let above = bound_check_text(
        schema.exclusive_minimum,
        is_integer,
        value_expr,
        path_expr,
        indent,
        "<="@,
        ">"@,
    );
    let below = bound_check_text(
        schema.exclusive_maximum,
        is_integer,
        value_expr,
        path_expr,
        indent,
        ">="@,
        "<"@,
    );
    let divisor = divisor_check_text(schema.multiple_of, is_integer, value_expr, path_expr, indent);
    (minimum + maximum + above + below + divisor)
}

/// The checks of a number against its bounds.
pub fn numeric_bound_checks(
    value_expr: &str,
    path_expr: &str,
    schema: &Schema,
    indent: &str,
) -> (result: String)
    ensures
        result@ == numeric_bounds(value_expr@, path_expr@, *schema, indent@),
{
    let is_integer = type_is(schema, "integer");
    let minimum = bound_check(
        &schema.minimum,
        is_integer,
        value_expr,
        path_expr,
        indent,
        "<",
        ">=",
    );
    let maximum = bound_check(
        &schema.maximum,
        is_integer,
        value_expr,
        path_expr,
        indent,
        ">",
        "<=",
    );
    let above = bound_check(
        &schema.exclusive_minimum,
        is_integer,
        value_expr,
        path_expr,
        indent,
        "<=",
        ">",
    );
    let below = bound_check(
        &schema.exclusive_maximum,
        is_integer,
        value_expr,
        path_expr,
        indent,
        ">=",
        "<",
    );
    let divisor = divisor_check(&schema.multiple_of, is_integer, value_expr, path_expr, indent);
    minimum.clone().concat(maximum.as_str()).concat(above.as_str()).concat(below.as_str())
        .concat(divisor.as_str())
}

/// The checks of a number. With `emit_integer_cap` an integer is held to the integers that are
/// safe in JavaScript; a number that is no integer is held to finite ones.
pub open spec fn numeric_checks(
    value_expr: Seq<char>,
    path_expr: Seq<char>,
    schema: Schema,
    indent: Seq<char>,
    emit_integer_cap: bool,
) -> Seq<char> {
    let body = numeric_bounds(value_expr, path_expr, schema, indent);
    if crate::json_schema::schema::has_type(schema, "integer"@) && !emit_integer_cap {
        body
    } else {
        let guard = if crate::json_schema::schema::has_type(schema, "integer"@) {
            (
                indent + "if (!Number.isSafeInteger("@ + value_expr + ")) {\n"@ + indent
                    + "  violations.push({ path: "@ + path_expr
                    + ", reason: `exceeds ±(2^53-1) integer cap, got ${"@ + value_expr
                    + "}` });\n"@ + indent + "}"@
            )
        } else {
            (
                indent + "if (!Number.isFinite("@ + value_expr + ")) {\n"@ + indent
                    + "  violations.push({ path: "@ + path_expr
                    + ", reason: `must be a finite number, got ${"@ + value_expr + "}` });\n"@
                    + indent + "}"@
            )
        };
        if body.len() == 0 {
            guard + "\n"@
        } else {
            guard + " else {\n"@ + body + indent + "}\n"@
        }
    }
}

/// The checks of a number. With `emit_integer_cap` an integer is held to the integers that are
/// safe in JavaScript; a number that is no integer is held to finite ones.
pub fn render_ts_numeric_checks(
    value_expr: &str,
    path_expr: &str,
    schema: &Schema,
    indent: &str,
    emit_integer_cap: bool,
) -> (result: String)
    ensures
        result@ == numeric_checks(value_expr@, path_expr@, *schema, indent@, emit_integer_cap),
{
    let body = numeric_bound_checks(value_expr, path_expr, schema, indent);
    if type_is(schema, "integer") && !emit_integer_cap {
        body
    } else {
        let guard = if type_is(schema, "integer") {
            indent.to_owned().concat("if (!Number.isSafeInteger(").concat(value_expr)
                .concat(")) {\n").concat(indent).concat("  violations.push({ path: ")
                .concat(path_expr).concat(", reason: `exceeds ±(2^53-1) integer cap, got ${")
                .concat(value_expr).concat("}` });\n").concat(indent).concat("}")
        } else {
            indent.to_owned().concat("if (!Number.isFinite(").concat(value_expr).concat(")) {\n")
                .concat(indent).concat("  violations.push({ path: ").concat(path_expr)
                .concat(", reason: `must be a finite number, got ${").concat(value_expr)
                .concat("}` });\n").concat(indent).concat("}")
        };
        if body.as_str().is_empty() {
            guard.clone().concat("\n")
        } else {
            guard.clone().concat(" else {\n").concat(body.as_str()).concat(indent).concat("}\n")
        }
    }
}

/// The check of a string against a pattern.
pub open spec fn pattern_check(
    value_expr: Seq<char>,
    path_expr: Seq<char>,
    pattern: Seq<char>,
    indent: Seq<char>,
) -> Seq<char> {
    let const_name = crate::json_schema::ts_text::pattern_const(pattern);
    let escaped = crate::json_schema::ts_text::template_escaped(pattern);
    (
        indent + "if (!"@ + const_name + ".test("@ + value_expr + ")) {\n"@ + indent
            + "  violations.push({ path: "@ + path_expr + ", reason: `must match pattern "@
            + escaped + ", got ${JSON.stringify("@ + value_expr + ")}` });\n"@ + indent + "}\n"@
    )
}

/// The check of a string against a pattern.
pub fn render_ts_pattern_check(
    value_expr: &str,
    path_expr: &str,
    pattern: &str,
    indent: &str,
) -> (result: String)
    ensures
        result@ == pattern_check(value_expr@, path_expr@, pattern@, indent@),
{
    let const_name = ts_pattern_const_name(pattern);
    let escaped = ts_template_escape(pattern);
    indent.to_owned().concat("if (!").concat(const_name.as_str()).concat(".test(")
        .concat(value_expr).concat(")) {\n").concat(indent).concat("  violations.push({ path: ")
        .concat(path_expr).concat(", reason: `must match pattern ").concat(escaped.as_str())
        .concat(", got ${JSON.stringify(").concat(value_expr).concat(")}` });\n").concat(indent)
        .concat("}\n")
}

/// The check of a string against a format, where the format has one.
pub open spec fn format_check_text(
    ctx: TsContext,
    value_expr: Seq<char>,
    path_expr: Seq<char>,
    format: Seq<char>,
    indent: Seq<char>,
) -> Seq<char> {
    match crate::json_schema::ts_text::format_check(ctx.formats@, format) {
        Some(check) => {
            let const_name = crate::json_schema::ts_text::pattern_const(check.pattern@);
            let length = match check.max_code_points {
                Some(max) => {
                    let count = crate::json_schema::ts_text::count_of(max);
                    (
                        crate::json_schema::ts_text::code_point_length_text() + "("@ + value_expr
                            + ", "@ + count + ") > "@ + count + " || "@
                    )
                },
                None => Seq::<char>::empty(),
            };
            (
                indent + "if ("@ + length + "!"@ + const_name + ".test("@ + value_expr + ")) {\n"@
                    + indent + "  violations.push({ path: "@ + path_expr
                    + ", reason: `must be a valid "@ + check.name@ + ", got ${JSON.stringify("@
                    + value_expr + ")}` });\n"@ + indent + "}\n"@
            )
        },
        None => Seq::<char>::empty(),
    }
}

/// The check of a string against a format, where the format has one.
pub fn render_ts_format_check(
    ctx: &TsContext,
    value_expr: &str,
    path_expr: &str,
    format: &str,
    indent: &str,
) -> (result: String)
    ensures
        result@ == format_check_text(*ctx, value_expr@, path_expr@, format@, indent@),
{
    match check_for(&ctx.formats, format) {
        Some(check) => {
            let const_name = ts_pattern_const_name(check.pattern.as_str());
            let length = match check.max_code_points {
                Some(max) => {
                    let count = count_text(max);
                    code_point_length_fn().concat("(").concat(value_expr).concat(", ")
                        .concat(count.as_str()).concat(") > ").concat(count.as_str()).concat(" || ")
                },
                None => String::new(),
            };
            indent.to_owned().concat("if (").concat(length.as_str()).concat("!")
                .concat(const_name.as_str()).concat(".test(").concat(value_expr).concat(")) {\n")
                .concat(indent).concat("  violations.push({ path: ").concat(path_expr)
                .concat(", reason: `must be a valid ").concat(check.name.as_str())
                .concat(", got ${JSON.stringify(").concat(value_expr).concat(")}` });\n")
                .concat(indent).concat("}\n")
        },
        None => String::new(),
    }
}

/// The check of the least length of a string.
pub open spec fn min_length_text(
    min: u64,
    value_expr: Seq<char>,
    path_expr: Seq<char>,
    indent: Seq<char>,
) -> Seq<char> {
    let count = crate::json_schema::ts_text::count_of(min);
    (
        indent + "{\n"@ + indent + "  const codePoints = "@
            + crate::json_schema::ts_text::code_point_length_text() + "("@ + value_expr + ", "@
            + count + ");\n"@ + indent + "  if (codePoints < "@ + count + ") {\n"@ + indent
            + "    violations.push({ path: "@ + path_expr + ", reason: `must have length >= "@
            + count + ", got ${codePoints}` });\n"@ + indent + "  }\n"@ + indent + "}\n"@
    )
}

/// The check of the least length of a string.
pub fn min_length_check(
    min: u64,
    value_expr: &str,
    path_expr: &str,
    indent: &str,
) -> (result: String)
    ensures
        result@ == min_length_text(min, value_expr@, path_expr@, indent@),
{
    let count = count_text(min);
    indent.to_owned().concat("{\n").concat(indent).concat("  const codePoints = ")
        .concat(code_point_length_fn().as_str()).concat("(").concat(value_expr).concat(", ")
        .concat(count.as_str()).concat(");\n").concat(indent).concat("  if (codePoints < ")
        .concat(count.as_str()).concat(") {\n").concat(indent)
        .concat("    violations.push({ path: ").concat(path_expr)
        .concat(", reason: `must have length >= ").concat(count.as_str())
        .concat(", got ${codePoints}` });\n").concat(indent).concat("  }\n").concat(indent)
        .concat("}\n")
}

/// The check of the greatest length of a string.
pub open spec fn max_length_text(
    max: u64,
    value_expr: Seq<char>,
    path_expr: Seq<char>,
    indent: Seq<char>,
) -> Seq<char> {
    let count = crate::json_schema::ts_text::count_of(max);
    (
        indent + "if ("@ + crate::json_schema::ts_text::code_point_length_text() + "("@ + value_expr
            + ", "@ + count + ") > "@ + count + ") {\n"@ + indent + "  violations.push({ path: "@
            + path_expr + ", reason: `must have length <= "@ + count + ", got ${"@
            + crate::json_schema::ts_text::code_point_length_text() + "("@ + value_expr
            + ")}` });\n"@ + indent + "}\n"@
    )
}

/// The check of the greatest length of a string.
pub fn max_length_check(
    max: u64,
    value_expr: &str,
    path_expr: &str,
    indent: &str,
) -> (result: String)
    ensures
        result@ == max_length_text(max, value_expr@, path_expr@, indent@),
{
    let count = count_text(max);
    indent.to_owned().concat("if (").concat(code_point_length_fn().as_str()).concat("(")
        .concat(value_expr).concat(", ").concat(count.as_str()).concat(") > ")
        .concat(count.as_str()).concat(") {\n").concat(indent).concat("  violations.push({ path: ")
        .concat(path_expr).concat(", reason: `must have length <= ").concat(count.as_str())
        .concat(", got ${").concat(code_point_length_fn().as_str()).concat("(").concat(value_expr)
        .concat(")}` });\n").concat(indent).concat("}\n")
}

/// The checks of a string on the wire.
pub open spec fn string_assertions(
    ctx: TsContext,
    value_expr: Seq<char>,
    path_expr: Seq<char>,
    schema: Schema,
    indent: Seq<char>,
    include_format: bool,
) -> Seq<char> {
    let least = match crate::json_schema::schema::min_length_of(schema) {
        Some(min) => min_length_text(min, value_expr, path_expr, indent),
        None => Seq::<char>::empty(),
    };
    let greatest = match schema.max_length {
        Some(max) => max_length_text(max, value_expr, path_expr, indent),
        None => Seq::<char>::empty(),
    };
    let pattern = match schema.pattern {
        Some(pattern) => pattern_check(value_expr, path_expr, pattern@, indent),
        None => Seq::<char>::empty(),
    };
    let format = match schema.format {
        Some(format) => if include_format {
            format_check_text(ctx, value_expr, path_expr, format@, indent)
        } else {
            Seq::<char>::empty()
        },
        None => Seq::<char>::empty(),
    };
    (least + greatest + pattern + format)
}

/// The checks of a string on the wire.
pub fn render_ts_string_assertions(
    ctx: &TsContext,
    value_expr: &str,
    path_expr: &str,
    schema: &Schema,
    indent: &str,
    include_format: bool,
) -> (result: String)
    ensures
        result@ == string_assertions(
            *ctx,
            value_expr@,
            path_expr@,
            *schema,
            indent@,
            include_format,
        ),
{
    let least = match effective_min_length(schema) {
        Some(min) => min_length_check(min, value_expr, path_expr, indent),
        None => String::new(),
    };
    let greatest = match schema.max_length {
        Some(max) => max_length_check(max, value_expr, path_expr, indent),
        None => String::new(),
    };
    let pattern = match &schema.pattern {
        Some(pattern) => render_ts_pattern_check(value_expr, path_expr, pattern.as_str(), indent),
        None => String::new(),
    };
    let format = match &schema.format {
        Some(format) => if include_format {
            render_ts_format_check(ctx, value_expr, path_expr, format.as_str(), indent)
        } else {
            String::new()
        },
        None => String::new(),
    };
    least.clone().concat(greatest.as_str()).concat(pattern.as_str()).concat(format.as_str())
}

/// The checks of a string, its format among them.
pub open spec fn string_checks(
    ctx: TsContext,
    value_expr: Seq<char>,
    path_expr: Seq<char>,
    schema: Schema,
    indent: Seq<char>,
) -> Seq<char> {
    string_assertions(ctx, value_expr, path_expr, schema, indent, true)
}

/// The checks of a string, its format among them.
pub fn render_ts_string_checks(
    ctx: &TsContext,
    value_expr: &str,
    path_expr: &str,
    schema: &Schema,
    indent: &str,
) -> (result: String)
    ensures
        result@ == string_checks(*ctx, value_expr@, path_expr@, *schema, indent@),
{
    render_ts_string_assertions(ctx, value_expr, path_expr, schema, indent, true)
}

/// The checks of how many members an object has.
pub open spec fn property_count_checks(
    count_expr: Seq<char>,
    schema: Schema,
    indent: Seq<char>,
) -> Seq<char> {
    let least = match schema.min_properties {
        Some(min) => {
            let count = crate::json_schema::ts_text::count_of(min);
            (
                indent + "if ("@ + count_expr + " < "@ + count + ") {\n"@ + indent
                    + "  violations.push({ path: '', reason: `must have at least "@ + count
                    + " properties, got ${"@ + count_expr + "}` });\n"@ + indent + "}\n"@
            )
        },
        None => Seq::<char>::empty(),
    };
    let greatest = match schema.max_properties {
        Some(max) => {
            let count = crate::json_schema::ts_text::count_of(max);
            (
                indent + "if ("@ + count_expr + " > "@ + count + ") {\n"@ + indent
                    + "  violations.push({ path: '', reason: `must have at most "@ + count
                    + " properties, got ${"@ + count_expr + "}` });\n"@ + indent + "}\n"@
            )
        },
        None => Seq::<char>::empty(),
    };
    (least + greatest)
}

/// The checks of how many members an object has.
pub fn render_ts_property_count_checks(
    count_expr: &str,
    schema: &Schema,
    indent: &str,
) -> (result: String)
    ensures
        result@ == property_count_checks(count_expr@, *schema, indent@),
{
    let least = match schema.min_properties {
        Some(min) => {
            let count = count_text(min);
            indent.to_owned().concat("if (").concat(count_expr).concat(" < ").concat(count.as_str())
                .concat(") {\n").concat(indent)
                .concat("  violations.push({ path: '', reason: `must have at least ")
                .concat(count.as_str()).concat(" properties, got ${").concat(count_expr)
                .concat("}` });\n").concat(indent).concat("}\n")
        },
        None => String::new(),
    };
    let greatest = match schema.max_properties {
        Some(max) => {
            let count = count_text(max);
            indent.to_owned().concat("if (").concat(count_expr).concat(" > ").concat(count.as_str())
                .concat(") {\n").concat(indent)
                .concat("  violations.push({ path: '', reason: `must have at most ")
                .concat(count.as_str()).concat(" properties, got ${").concat(count_expr)
                .concat("}` });\n").concat(indent).concat("}\n")
        },
        None => String::new(),
    };
    least.clone().concat(greatest.as_str())
}

/// A check that reports the name of a member where a condition holds.
pub open spec fn name_check_text(
    indent: Seq<char>,
    condition: Seq<char>,
    reason: Seq<char>,
) -> Seq<char> {
    (
        indent + "if ("@ + condition + ") {\n"@ + indent
            + "  violations.push({ path: __nexgenDefinitions.memberPath(key), reason: `invalid property name \"${key}\": "@
            + reason + "` });\n"@ + indent + "}\n"@
    )
}

/// A check that reports the name of a member where a condition holds.
pub fn name_check(indent: &str, condition: &str, reason: &str) -> (result: String)
    ensures
        result@ == name_check_text(indent@, condition@, reason@),
{
    indent.to_owned().concat("if (").concat(condition).concat(") {\n").concat(indent)
        .concat(
            "  violations.push({ path: __nexgenDefinitions.memberPath(key), reason: `invalid property name \"${key}\": ",
        )
        .concat(reason).concat("` });\n").concat(indent).concat("}\n")
}

/// The conditions that a value is none of the expressions.
pub open spec fn unequal_texts(exprs: Seq<Seq<char>>, value_expr: Seq<char>) -> Seq<Seq<char>>
    decreases exprs.len(),
{
    if exprs.len() == 0 {
        Seq::empty()
    } else {
        let expr = exprs.last();
        unequal_texts(exprs.drop_last(), value_expr) + (
            seq![(value_expr + " !== "@ + expr)]
        )
    }
}

/// The conditions that a value is none of the expressions.
pub fn unequal_conditions(exprs: &Vec<String>, value_expr: &str) -> (result: Vec<String>)
    ensures
        crate::text::texts(result@) == unequal_texts(crate::text::texts(exprs@), value_expr@),
{
    broadcast use crate::text::group_texts;

    let mut result: Vec<String> = Vec::new();
    let mut i: usize = 0;
    while i < exprs.len()
        invariant
            i <= exprs.len(),
            crate::text::texts(result@) == unequal_texts(
                crate::text::texts(exprs@).take(i as int),
                value_expr@,
            ),
        decreases exprs.len() - i,
    {
        proof {
            assert(
                crate::text::texts(exprs@).take(i + 1).drop_last()
                    =~= crate::text::texts(exprs@).take(i as int)
            );
            assert(
                crate::text::texts(exprs@).take(i + 1).last()
                    == crate::text::texts(exprs@)[i as int]
            );
        }
        let expr = exprs[i].as_str();
        let part = vec![value_expr.to_owned().concat(" !== ").concat(expr)];
        result = with_lines(result, part);
        i += 1;
    }
    proof {
        crate::text::lemma_take_all(crate::text::texts(exprs@));
    }
    result
}

/// The conditions that a value is one of the scalars.
pub open spec fn equal_texts(
    values: Seq<JsonValue>,
    elem: Seq<char>,
    is_integer: bool,
) -> Seq<Seq<char>>
    decreases values.len(),
{
    if values.len() == 0 {
        Seq::empty()
    } else {
        let value = values.last();
        equal_texts(values.drop_last(), elem, is_integer) + (
            {
                let literal = crate::json_schema::ts_text::scalar_literal(value, is_integer);
                seq![(elem + " === "@ + literal)]
            }
        )
    }
}

/// The conditions that a value is one of the scalars.
pub fn equal_conditions(
    values: &Vec<JsonValue>,
    elem: &str,
    is_integer: bool,
) -> (result: Vec<String>)
    ensures
        crate::text::texts(result@) == equal_texts(values@, elem@, is_integer),
{
    broadcast use crate::text::group_texts;

    let mut result: Vec<String> = Vec::new();
    let mut i: usize = 0;
    while i < values.len()
        invariant
            i <= values.len(),
            crate::text::texts(result@) == equal_texts(values@.take(i as int), elem@, is_integer),
        decreases values.len() - i,
    {
        proof {
            assert(values@.take(i + 1).drop_last() =~= values@.take(i as int));
            assert(values@.take(i + 1).last() == values@[i as int]);
        }
        let value = &values[i];
        let part = {
        let literal = ts_scalar_literal(value, is_integer);
        vec![elem.to_owned().concat(" === ").concat(literal.as_str())]
        };
        result = with_lines(result, part);
        i += 1;
    }
    proof {
        crate::text::lemma_take_all(values@);
    }
    result
}

/// Whether the assertions list values.
pub open spec fn has_listed_values(matcher: ScalarMatcher) -> bool {
    match matcher.enum_values {
        Some(values) => values@.len() > 0,
        None => false,
    }
}

/// Whether the assertions list values.
pub fn lists_values(matcher: &ScalarMatcher) -> (result: bool)
    ensures
        result == has_listed_values(*matcher),
{
    match matcher.enum_values {
        Some(values) => values.len() > 0,
        None => false,
    }
}

/// The least length that constrains anything.
pub open spec fn matcher_least_length(matcher: ScalarMatcher) -> Option<u64> {
    match matcher.min_length {
        Some(min) => if min > 0 { Some(min) } else { None },
        None => None,
    }
}

/// The least length that constrains anything.
pub fn matcher_min_length(matcher: &ScalarMatcher) -> (result: Option<u64>)
    ensures
        result == matcher_least_length(*matcher),
{
    match matcher.min_length {
        Some(min) => if min > 0 { Some(min) } else { None },
        None => None,
    }
}

/// The checks of one name.
pub open spec fn property_name_checks(
    ctx: TsContext,
    matcher: ScalarMatcher,
    inner: Seq<char>,
) -> Seq<char> {
    let least = match matcher_least_length(matcher) {
        Some(min) => {
            let number = crate::json_schema::ts_text::count_of(min);
            let count = crate::json_schema::ts_text::code_point_length_text() + "(key, "@ + number + ")"@;
            let condition = count + " < "@ + number;
            let reason = "must have length >= "@ + number + ", got ${"@ + count + "}"@;
            name_check_text(inner, condition, reason)
        },
        None => Seq::<char>::empty(),
    };
    let greatest = match matcher.max_length {
        Some(max) => {
            let number = crate::json_schema::ts_text::count_of(max);
            let condition = crate::json_schema::ts_text::code_point_length_text() + "(key, "@ + number + ") > "@
                + number;
            let reason = "must have length <= "@ + number + ", got ${"@
                + crate::json_schema::ts_text::code_point_length_text() + "(key)}"@;
            name_check_text(inner, condition, reason)
        },
        None => Seq::<char>::empty(),
    };
    let listed = match matcher.enum_values {
        Some(values) => if values@.len() > 0 {
            let literals = crate::json_schema::ts_text::value_literals(values@);
            let conditions = unequal_texts(literals, "key"@);
            let condition = crate::text::join(conditions, " && "@);
            let all = crate::text::join(literals, ", "@);
            let reason = "must be one of ["@ + all + "], got ${JSON.stringify(key)}"@;
            name_check_text(inner, condition, reason)
        } else {
            Seq::<char>::empty()
        },
        None => Seq::<char>::empty(),
    };
    let pattern = match matcher.pattern {
        Some(pattern) => {
            let const_name = crate::json_schema::ts_text::pattern_const(pattern@);
            let escaped = crate::json_schema::ts_text::template_escaped(pattern@);
            let condition = "!"@ + const_name + ".test(key)"@;
            let reason = "must match pattern "@ + escaped + ", got ${JSON.stringify(key)}"@;
            name_check_text(inner, condition, reason)
        },
        None => Seq::<char>::empty(),
    };
    let format = match matcher.format {
        Some(format) => match crate::json_schema::ts_text::format_check(ctx.formats@, format@) {
            Some(check) => {
                let const_name = crate::json_schema::ts_text::pattern_const(check.pattern@);
                let length = match check.max_code_points {
                    Some(max) => {
                        let number = crate::json_schema::ts_text::count_of(max);
                        (
                            crate::json_schema::ts_text::code_point_length_text() + "(key, "@
                                + number + ") > "@ + number + " || "@
                        )
                    },
                    None => Seq::<char>::empty(),
                };
                let condition = length + "!"@ + const_name + ".test(key)"@;
                let reason = "must be a valid "@ + check.name@ + ", got ${JSON.stringify(key)}"@;
                name_check_text(inner, condition, reason)
            },
            None => Seq::<char>::empty(),
        },
        None => Seq::<char>::empty(),
    };
    (least + greatest + listed + pattern + format)
}

/// The checks of one name.
pub fn property_name_body(
    ctx: &TsContext,
    matcher: &ScalarMatcher,
    inner: &str,
) -> (result: String)
    ensures
        result@ == property_name_checks(*ctx, *matcher, inner@),
{
    let least = match matcher_min_length(matcher) {
        Some(min) => {
            let number = count_text(min);
            let count = code_point_length_fn().concat("(key, ").concat(number.as_str()).concat(")");
            let condition = count.clone().concat(" < ").concat(number.as_str());
            let reason = "must have length >= ".to_owned().concat(number.as_str())
                .concat(", got ${").concat(count.as_str()).concat("}");
            name_check(inner, condition.as_str(), reason.as_str())
        },
        None => String::new(),
    };
    let greatest = match matcher.max_length {
        Some(max) => {
            let number = count_text(max);
            let condition = code_point_length_fn().concat("(key, ").concat(number.as_str())
                .concat(") > ").concat(number.as_str());
            let reason = "must have length <= ".to_owned().concat(number.as_str())
                .concat(", got ${").concat(code_point_length_fn().as_str()).concat("(key)}");
            name_check(inner, condition.as_str(), reason.as_str())
        },
        None => String::new(),
    };
    let listed = match matcher.enum_values {
        Some(values) => if values.len() > 0 {
            let literals = literals_of(values);
            let conditions = unequal_conditions(&literals, "key");
            let condition = join_texts(&conditions, " && ");
            let all = join_texts(&literals, ", ");
            let reason = "must be one of [".to_owned().concat(all.as_str())
                .concat("], got ${JSON.stringify(key)}");
            name_check(inner, condition.as_str(), reason.as_str())
        } else {
            String::new()
        },
        None => String::new(),
    };
    let pattern = match matcher.pattern {
        Some(pattern) => {
            let const_name = ts_pattern_const_name(pattern.as_str());
            let escaped = ts_template_escape(pattern.as_str());
            let condition = "!".to_owned().concat(const_name.as_str()).concat(".test(key)");
            let reason = "must match pattern ".to_owned().concat(escaped.as_str())
                .concat(", got ${JSON.stringify(key)}");
            name_check(inner, condition.as_str(), reason.as_str())
        },
        None => String::new(),
    };
    let format = match matcher.format {
        Some(format) => match check_for(&ctx.formats, format.as_str()) {
            Some(check) => {
                let const_name = ts_pattern_const_name(check.pattern.as_str());
                let length = match check.max_code_points {
                    Some(max) => {
                        let number = count_text(max);
                        code_point_length_fn().concat("(key, ").concat(number.as_str())
                            .concat(") > ").concat(number.as_str()).concat(" || ")
                    },
                    None => String::new(),
                };
                let condition = length.clone().concat("!").concat(const_name.as_str())
                    .concat(".test(key)");
                let reason = "must be a valid ".to_owned().concat(check.name.as_str())
                    .concat(", got ${JSON.stringify(key)}");
                name_check(inner, condition.as_str(), reason.as_str())
            },
            None => String::new(),
        },
        None => String::new(),
    };
    least.clone().concat(greatest.as_str()).concat(listed.as_str()).concat(pattern.as_str())
        .concat(format.as_str())
}

/// The checks of the names of an object's members.
pub open spec fn property_names_text(
    ctx: TsContext,
    keys_expr: Seq<char>,
    subschema: Schema,
    indent: Seq<char>,
) -> Seq<char> {
    let matcher = crate::json_schema::scalar::matcher_of(&subschema);
    if matcher_least_length(matcher) is None
        && matcher.max_length.is_none()
        && matcher.pattern.is_none()
        && matcher.format.is_none()
        && !has_listed_values(matcher) {
        Seq::<char>::empty()
    } else {
        let inner = indent + "  "@;
        let body = property_name_checks(ctx, matcher, inner);
        (indent + "for (const key of "@ + keys_expr + ") {\n"@ + body + indent + "}\n"@)
    }
}

/// The checks of the names of an object's members.
pub fn render_ts_property_name_checks(
    ctx: &TsContext,
    keys_expr: &str,
    subschema: &Schema,
    indent: &str,
) -> (result: String)
    ensures
        result@ == property_names_text(*ctx, keys_expr@, *subschema, indent@),
{
    let matcher_value = scalar_matcher(subschema);
    let matcher = &matcher_value;

    if matcher_min_length(matcher).is_none()
        && matcher.max_length.is_none()
        && matcher.pattern.is_none()
        && matcher.format.is_none()
        && !lists_values(matcher) {
        String::new()
    } else {
        let inner = indent.to_owned().concat("  ");
        let body = property_name_body(ctx, matcher, inner.as_str());
        indent.to_owned().concat("for (const key of ").concat(keys_expr).concat(") {\n")
            .concat(body.as_str()).concat(indent).concat("}\n")
    }
}

/// The checks that the members that one requires are there.
pub open spec fn dependency_texts(
    required: Seq<Seq<char>>,
    name: Seq<char>,
    obj_expr: Seq<char>,
    indent: Seq<char>,
) -> Seq<char>
    decreases required.len(),
{
    if required.len() == 0 {
        Seq::empty()
    } else {
        let dep = required.last();
        dependency_texts(required.drop_last(), name, obj_expr, indent) + (
            {
                let own = crate::json_schema::ts_text::has_own_text(obj_expr, dep);
                (
                    indent + "  if (!"@ + own + ") {\n"@ + indent + "    violations.push({ path: "@
                        + crate::json_schema::ts_text::string_literal(dep)
                        + ", reason: `property \""@ + dep + "\" is required when \""@ + name
                        + "\" is present` });\n"@ + indent + "  }\n"@
                )
            }
        )
    }
}

/// The checks that the members that one requires are there.
pub fn dependency_checks(
    required: &Vec<String>,
    name: &str,
    obj_expr: &str,
    indent: &str,
) -> (result: String)
    ensures
        result@ == dependency_texts(crate::text::texts(required@), name@, obj_expr@, indent@),
{
    let mut result: String = String::new();
    let mut i: usize = 0;
    while i < required.len()
        invariant
            i <= required.len(),
            result@ == dependency_texts(
                crate::text::texts(required@).take(i as int),
                name@,
                obj_expr@,
                indent@,
            ),
        decreases required.len() - i,
    {
        proof {
            assert(
                crate::text::texts(required@).take(i + 1).drop_last()
                    =~= crate::text::texts(required@).take(i as int)
            );
            assert(
                crate::text::texts(required@).take(i + 1).last()
                    == crate::text::texts(required@)[i as int]
            );
        }
        let dep = required[i].as_str();
        let part = {
        let own = ts_has_own(obj_expr, dep);
        indent.to_owned().concat("  if (!").concat(own.as_str()).concat(") {\n").concat(indent)
            .concat("    violations.push({ path: ").concat(typescript_string_literal(dep).as_str())
            .concat(", reason: `property \"").concat(dep).concat("\" is required when \"")
            .concat(name).concat("\" is present` });\n").concat(indent).concat("  }\n")
        };
        result.append(part.as_str());
        i += 1;
    }
    proof {
        crate::text::lemma_take_all(crate::text::texts(required@));
    }
    result
}

/// The checks of the members that require others.
pub open spec fn dependent_texts(
    dependents: Seq<DependentRequired>,
    obj_expr: Seq<char>,
    indent: Seq<char>,
) -> Seq<char>
    decreases dependents.len(),
{
    if dependents.len() == 0 {
        Seq::empty()
    } else {
        let dependent = dependents.last();
        dependent_texts(dependents.drop_last(), obj_expr, indent) + (
            {
                if dependent.required@.len() == 0 {
                    Seq::<char>::empty()
                } else {
                    let own = crate::json_schema::ts_text::has_own_text(obj_expr, dependent.name@);
                    let checks = dependency_texts(
                        crate::text::texts(dependent.required@),
                        dependent.name@,
                        obj_expr,
                        indent,
                    );
                    (indent + "if ("@ + own + ") {\n"@ + checks + indent + "}\n"@)
                }
            }
        )
    }
}

/// The checks of the members that require others.
pub fn dependent_checks(
    dependents: &Vec<DependentRequired>,
    obj_expr: &str,
    indent: &str,
) -> (result: String)
    ensures
        result@ == dependent_texts(dependents@, obj_expr@, indent@),
{
    let mut result: String = String::new();
    let mut i: usize = 0;
    while i < dependents.len()
        invariant
            i <= dependents.len(),
            result@ == dependent_texts(dependents@.take(i as int), obj_expr@, indent@),
        decreases dependents.len() - i,
    {
        proof {
            assert(dependents@.take(i + 1).drop_last() =~= dependents@.take(i as int));
            assert(dependents@.take(i + 1).last() == dependents@[i as int]);
        }
        let dependent = &dependents[i];
        let part = {
        if dependent.required.len() == 0 {
            String::new()
        } else {
            let own = ts_has_own(obj_expr, dependent.name.as_str());
            let checks = dependency_checks(
                &dependent.required,
                dependent.name.as_str(),
                obj_expr,
                indent,
            );
            indent.to_owned().concat("if (").concat(own.as_str()).concat(") {\n")
                .concat(checks.as_str()).concat(indent).concat("}\n")
        }
        };
        result.append(part.as_str());
        i += 1;
    }
    proof {
        crate::text::lemma_take_all(dependents@);
    }
    result
}

/// The checks of the members that require others.
pub open spec fn dependent_required_text(
    obj_expr: Seq<char>,
    schema: Schema,
    indent: Seq<char>,
) -> Seq<char> {
    match schema.dependent_required {
        Some(dependents) => dependent_texts(dependents@, obj_expr, indent),
        None => Seq::<char>::empty(),
    }
}

/// The checks of the members that require others.
pub fn render_ts_dependent_required(
    obj_expr: &str,
    schema: &Schema,
    indent: &str,
) -> (result: String)
    ensures
        result@ == dependent_required_text(obj_expr@, *schema, indent@),
{
    match &schema.dependent_required {
        Some(dependents) => dependent_checks(dependents, obj_expr, indent),
        None => String::new(),
    }
}

/// Whether an element that is matched is an integer.
pub open spec fn integer_matched(matcher: ScalarMatcher, element_ty: Option<Seq<char>>) -> bool {
    match matcher.kind {
        Some(ScalarKind::Number) => false,
        Some(ScalarKind::Integer) => match element_ty {
            Some(ty) => !(ty == "number"@),
            None => true,
        },
        _ => match element_ty {
            Some(ty) => ty == "integer"@,
            None => false,
        },
    }
}

/// Whether an element that is matched is an integer.
pub fn matches_integer(matcher: &ScalarMatcher, element_ty: Option<&str>) -> (result: bool)
    ensures
        result == integer_matched(*matcher, crate::text::opt_str(element_ty)),
{
    match matcher.kind {
        Some(ScalarKind::Number) => false,
        Some(ScalarKind::Integer) => match element_ty {
            Some(ty) => !text_eq(ty, "number"),
            None => true,
        },
        _ => match element_ty {
            Some(ty) => text_eq(ty, "integer"),
            None => false,
        },
    }
}

/// The kind that an element is guarded by: that of the matcher, else that of the element.
pub open spec fn matched_kind(
    matcher: ScalarMatcher,
    element_ty: Option<Seq<char>>,
) -> Option<ScalarKind> {
    match matcher.kind {
        Some(kind) => Some(kind),
        None => match element_ty {
            Some(ty) => crate::json_schema::scalar::scalar_kind(ty),
            None => None,
        },
    }
}

/// The kind that an element is guarded by: that of the matcher, else that of the element.
pub fn guarded_kind(
    matcher: &ScalarMatcher,
    element_ty: Option<&str>,
) -> (result: Option<ScalarKind>)
    ensures
        result == matched_kind(*matcher, crate::text::opt_str(element_ty)),
{
    match matcher.kind {
        Some(kind) => Some(kind),
        None => match element_ty {
            Some(ty) => ScalarKind::from_name(ty),
            None => None,
        },
    }
}

/// The guard for a kind of element.
pub open spec fn kind_texts(kind: Option<ScalarKind>, elem: Seq<char>) -> Seq<Seq<char>> {
    match kind {
        Some(ScalarKind::String) => seq![("typeof "@ + elem + " === 'string'"@)],
        Some(ScalarKind::Boolean) => seq![("typeof "@ + elem + " === 'boolean'"@)],
        Some(ScalarKind::Number) => seq![("typeof "@ + elem + " === 'number' && Number.isFinite("@ + elem + ")"@)],
        Some(ScalarKind::Integer) => seq![("typeof "@ + elem + " === 'number' && Number.isSafeInteger("@ + elem + ")"@)],
        None => Seq::<Seq<char>>::empty(),
    }
}

/// The guard for a kind of element.
pub fn kind_conditions(kind: Option<ScalarKind>, elem: &str) -> (result: Vec<String>)
    ensures
        crate::text::texts(result@) == kind_texts(kind, elem@),
{
    match kind {
        Some(ScalarKind::String) => vec!["typeof ".to_owned().concat(elem).concat(" === 'string'")],
        Some(ScalarKind::Boolean) => vec!["typeof ".to_owned().concat(elem).concat(" === 'boolean'")],
        Some(ScalarKind::Number) => vec![
            "typeof ".to_owned().concat(elem).concat(" === 'number' && Number.isFinite(")
                .concat(elem).concat(")"),
        ],
        Some(ScalarKind::Integer) => vec![
            "typeof ".to_owned().concat(elem).concat(" === 'number' && Number.isSafeInteger(")
                .concat(elem).concat(")"),
        ],
        None => Vec::new(),
    }
}

/// The condition of one bound, where there is one.
pub open spec fn bound_texts(
    bound: Option<&JsonNumber>,
    elem: Seq<char>,
    operator: Seq<char>,
    is_integer: bool,
) -> Seq<Seq<char>> {
    match bound {
        Some(number) => {
            let literal = crate::json_schema::ts_text::bound_literal(*number, is_integer);
            seq![(elem + " "@ + operator + " "@ + literal)]
        },
        None => Seq::<Seq<char>>::empty(),
    }
}

/// The condition of one bound, where there is one.
pub fn bound_conditions(
    bound: Option<&JsonNumber>,
    elem: &str,
    operator: &str,
    is_integer: bool,
) -> (result: Vec<String>)
    ensures
        crate::text::texts(result@) == bound_texts(bound, elem@, operator@, is_integer),
{
    match bound {
        Some(number) => {
            let literal = ts_bound_literal(number, is_integer);
            vec![elem.to_owned().concat(" ").concat(operator).concat(" ").concat(literal.as_str())]
        },
        None => Vec::new(),
    }
}

/// The conditions on the value of an element.
pub open spec fn value_texts(
    matcher: ScalarMatcher,
    elem: Seq<char>,
    is_integer: bool,
) -> Seq<Seq<char>> {
    let fixed = match matcher.const_value {
        Some(value) => {
            let literal = crate::json_schema::ts_text::scalar_literal(*value, is_integer);
            seq![(elem + " === "@ + literal)]
        },
        None => Seq::<Seq<char>>::empty(),
    };
    let listed = match matcher.enum_values {
        Some(values) => if values@.len() > 0 {
            let conditions = equal_texts(values@, elem, is_integer);
            let alternatives = crate::text::join(conditions, " || "@);
            seq![("("@ + alternatives + ")"@)]
        } else {
            Seq::<Seq<char>>::empty()
        },
        None => Seq::<Seq<char>>::empty(),
    };
    fixed + listed
}

/// The conditions on the value of an element.
pub fn value_conditions(
    matcher: &ScalarMatcher,
    elem: &str,
    is_integer: bool,
) -> (result: Vec<String>)
    ensures
        crate::text::texts(result@) == value_texts(*matcher, elem@, is_integer),
{
    let fixed = match matcher.const_value {
        Some(value) => {
            let literal = ts_scalar_literal(value, is_integer);
            vec![elem.to_owned().concat(" === ").concat(literal.as_str())]
        },
        None => Vec::new(),
    };
    let listed = match matcher.enum_values {
        Some(values) => if values.len() > 0 {
            let conditions = equal_conditions(values, elem, is_integer);
            let alternatives = join_texts(&conditions, " || ");
            vec!["(".to_owned().concat(alternatives.as_str()).concat(")")]
        } else {
            Vec::new()
        },
        None => Vec::new(),
    };
    with_lines(fixed, listed)
}

/// The conditions on a number.
pub open spec fn number_texts(
    matcher: ScalarMatcher,
    elem: Seq<char>,
    is_integer: bool,
) -> Seq<Seq<char>> {
    let minimum = bound_texts(matcher.minimum, elem, ">="@, is_integer);
    let maximum = bound_texts(matcher.maximum, elem, "<="@, is_integer);
    let above = bound_texts(matcher.exclusive_minimum, elem, ">"@, is_integer);
    let below = bound_texts(matcher.exclusive_maximum, elem, "<"@, is_integer);
    let divisor = match matcher.multiple_of {
        Some(number) => {
            let literal = crate::json_schema::ts_text::bound_literal(*number, is_integer);
            seq![(elem + " % "@ + literal + " === 0"@)]
        },
        None => Seq::<Seq<char>>::empty(),
    };
    minimum + maximum + above + below + divisor
}

/// The conditions on a number.
pub fn number_conditions(
    matcher: &ScalarMatcher,
    elem: &str,
    is_integer: bool,
) -> (result: Vec<String>)
    ensures
        crate::text::texts(result@) == number_texts(*matcher, elem@, is_integer),
{
    let minimum = bound_conditions(matcher.minimum, elem, ">=", is_integer);
    let maximum = bound_conditions(matcher.maximum, elem, "<=", is_integer);
    let above = bound_conditions(matcher.exclusive_minimum, elem, ">", is_integer);
    let below = bound_conditions(matcher.exclusive_maximum, elem, "<", is_integer);
    let divisor = match matcher.multiple_of {
        Some(number) => {
            let literal = ts_bound_literal(number, is_integer);
            vec![elem.to_owned().concat(" % ").concat(literal.as_str()).concat(" === 0")]
        },
        None => Vec::new(),
    };
    with_lines(with_lines(with_lines(with_lines(minimum, maximum), above), below), divisor)
}

/// The conditions on a string.
pub open spec fn string_texts(
    ctx: TsContext,
    matcher: ScalarMatcher,
    elem: Seq<char>,
) -> Seq<Seq<char>> {
    let least = match matcher_least_length(matcher) {
        Some(min) => {
            let number = crate::json_schema::ts_text::count_of(min);
            seq![
                (
                    crate::json_schema::ts_text::code_point_length_text() + "("@ + elem + ", "@
                        + number + ") >= "@ + number
                ),
            ]
        },
        None => Seq::<Seq<char>>::empty(),
    };
    let greatest = match matcher.max_length {
        Some(max) => {
            let number = crate::json_schema::ts_text::count_of(max);
            seq![
                (
                    crate::json_schema::ts_text::code_point_length_text() + "("@ + elem + ", "@
                        + number + ") <= "@ + number
                ),
            ]
        },
        None => Seq::<Seq<char>>::empty(),
    };
    let pattern = match matcher.pattern {
        Some(pattern) => {
            let const_name = crate::json_schema::ts_text::pattern_const(pattern@);
            seq![(const_name + ".test("@ + elem + ")"@)]
        },
        None => Seq::<Seq<char>>::empty(),
    };
    let format = match matcher.format {
        Some(format) => match crate::json_schema::ts_text::format_check(ctx.formats@, format@) {
            Some(check) => {
                let const_name = crate::json_schema::ts_text::pattern_const(check.pattern@);
                let tested = seq![(const_name + ".test("@ + elem + ")"@)];
                match check.max_code_points {
                    Some(max) => {
                        let number = crate::json_schema::ts_text::count_of(max);
                        let length = seq![
                            (
                                crate::json_schema::ts_text::code_point_length_text() + "("@ + elem
                                    + ", "@ + number + ") <= "@ + number
                            ),
                        ];
                        length + tested
                    },
                    None => tested,
                }
            },
            None => Seq::<Seq<char>>::empty(),
        },
        None => Seq::<Seq<char>>::empty(),
    };
    least + greatest + pattern + format
}

/// The conditions on a string.
pub fn string_conditions(
    ctx: &TsContext,
    matcher: &ScalarMatcher,
    elem: &str,
) -> (result: Vec<String>)
    ensures
        crate::text::texts(result@) == string_texts(*ctx, *matcher, elem@),
{
    let least = match matcher_min_length(matcher) {
        Some(min) => {
            let number = count_text(min);
            vec![
                code_point_length_fn().concat("(").concat(elem).concat(", ")
                    .concat(number.as_str()).concat(") >= ").concat(number.as_str()),
            ]
        },
        None => Vec::new(),
    };
    let greatest = match matcher.max_length {
        Some(max) => {
            let number = count_text(max);
            vec![
                code_point_length_fn().concat("(").concat(elem).concat(", ")
                    .concat(number.as_str()).concat(") <= ").concat(number.as_str()),
            ]
        },
        None => Vec::new(),
    };
    let pattern = match matcher.pattern {
        Some(pattern) => {
            let const_name = ts_pattern_const_name(pattern.as_str());
            vec![const_name.clone().concat(".test(").concat(elem).concat(")")]
        },
        None => Vec::new(),
    };
    let format = match matcher.format {
        Some(format) => match check_for(&ctx.formats, format.as_str()) {
            Some(check) => {
                let const_name = ts_pattern_const_name(check.pattern.as_str());
                let tested = vec![const_name.clone().concat(".test(").concat(elem).concat(")")];
                match check.max_code_points {
                    Some(max) => {
                        let number = count_text(max);
                        let length = vec![
                            code_point_length_fn().concat("(").concat(elem).concat(", ")
                                .concat(number.as_str()).concat(") <= ").concat(number.as_str()),
                        ];
                        with_lines(length, tested)
                    },
                    None => tested,
                }
            },
            None => Vec::new(),
        },
        None => Vec::new(),
    };
    with_lines(with_lines(with_lines(least, greatest), pattern), format)
}

/// The condition under which an element matches a scalar schema. One that asks for nothing is
/// matched by every element.
pub open spec fn matcher_condition(
    ctx: TsContext,
    schema: Schema,
    elem: Seq<char>,
    element_ty: Option<Seq<char>>,
) -> Seq<char> {
    let matcher = crate::json_schema::scalar::matcher_of(&schema);
    let is_integer = integer_matched(matcher, element_ty);
    let kind = kind_texts(matched_kind(matcher, element_ty), elem);
    let values = value_texts(matcher, elem, is_integer);
    let numbers = number_texts(matcher, elem, is_integer);
    let strings = string_texts(ctx, matcher, elem);
    let parts = kind + values + numbers + strings;
    if parts.len() == 0 {
        "true"@
    } else {
        crate::text::join(parts, " && "@)
    }
}

/// The condition under which an element matches a scalar schema. One that asks for nothing is
/// matched by every element.
pub fn ts_matcher_condition(
    ctx: &TsContext,
    schema: &Schema,
    elem: &str,
    element_ty: Option<&str>,
) -> (result: String)
    ensures
        result@ == matcher_condition(*ctx, *schema, elem@, crate::text::opt_str(element_ty)),
{
    let matcher_value = scalar_matcher(schema);
    let matcher = &matcher_value;

    let is_integer = matches_integer(matcher, element_ty);
    let kind = kind_conditions(guarded_kind(matcher, element_ty), elem);
    let values = value_conditions(matcher, elem, is_integer);
    let numbers = number_conditions(matcher, elem, is_integer);
    let strings = string_conditions(ctx, matcher, elem);
    let parts = with_lines(with_lines(with_lines(kind, values), numbers), strings);
    if parts.len() == 0 {
        "true".to_owned()
    } else {
        join_texts(&parts, " && ")
    }
}

/// The schema of an array's elements, beside `null`.
pub open spec fn element_schema(schema: Schema) -> Option<Schema> {
    match schema.items {
        Some(items) => match crate::json_schema::annotation::nullable_branch_of(*items) {
            Some(branch) => Some(branch),
            None => Some(*items),
        },
        None => None,
    }
}

/// The type of an array's elements, beside `null`.
pub open spec fn element_type_of(schema: Schema) -> Option<Seq<char>> {
    match element_schema(schema) {
        Some(element) => match element.ty {
            Some(ty) => crate::json_schema::value::value_text(ty),
            None => None,
        },
        None => None,
    }
}

/// The type of an array's elements, beside `null`.
pub fn array_element_type(schema: &Schema) -> (ty: Option<&str>)
    ensures
        crate::text::opt_str(ty) == element_type_of(*schema),
{
    match &schema.items {
        Some(items) => {
            let element: &Schema = match nullable_non_null_schema(items) {
                Some(branch) => branch,
                None => items,
            };
            match &element.ty {
                Some(JsonValue::Text(text)) => Some(text.as_str()),
                _ => None,
            }
        },
        None => None,
    }
}

/// The checks of how many elements an array has.
pub open spec fn array_lengths(
    array_expr: Seq<char>,
    path_expr: Seq<char>,
    schema: Schema,
    indent: Seq<char>,
) -> Seq<char> {
    let least = match schema.min_items {
        Some(min) => {
            let number = crate::json_schema::ts_text::count_of(min);
            (
                indent + "if ("@ + array_expr + ".length < "@ + number + ") {\n"@ + indent
                    + "  violations.push({ path: "@ + path_expr + ", reason: `must have at least "@
                    + number + " items, got ${"@ + array_expr + ".length}` });\n"@ + indent + "}\n"@
            )
        },
        None => Seq::<char>::empty(),
    };
    let greatest = match schema.max_items {
        Some(max) => {
            let number = crate::json_schema::ts_text::count_of(max);
            (
                indent + "if ("@ + array_expr + ".length > "@ + number + ") {\n"@ + indent
                    + "  violations.push({ path: "@ + path_expr + ", reason: `must have at most "@
                    + number + " items, got ${"@ + array_expr + ".length}` });\n"@ + indent + "}\n"@
            )
        },
        None => Seq::<char>::empty(),
    };
    (least + greatest)
}

/// The checks of how many elements an array has.
pub fn array_length_checks(
    array_expr: &str,
    path_expr: &str,
    schema: &Schema,
    indent: &str,
) -> (result: String)
    ensures
        result@ == array_lengths(array_expr@, path_expr@, *schema, indent@),
{
    let least = match schema.min_items {
        Some(min) => {
            let number = count_text(min);
            indent.to_owned().concat("if (").concat(array_expr).concat(".length < ")
                .concat(number.as_str()).concat(") {\n").concat(indent)
                .concat("  violations.push({ path: ").concat(path_expr)
                .concat(", reason: `must have at least ").concat(number.as_str())
                .concat(" items, got ${").concat(array_expr).concat(".length}` });\n")
                .concat(indent).concat("}\n")
        },
        None => String::new(),
    };
    let greatest = match schema.max_items {
        Some(max) => {
            let number = count_text(max);
            indent.to_owned().concat("if (").concat(array_expr).concat(".length > ")
                .concat(number.as_str()).concat(") {\n").concat(indent)
                .concat("  violations.push({ path: ").concat(path_expr)
                .concat(", reason: `must have at most ").concat(number.as_str())
                .concat(" items, got ${").concat(array_expr).concat(".length}` });\n")
                .concat(indent).concat("}\n")
        },
        None => String::new(),
    };
    least.clone().concat(greatest.as_str())
}

/// Whether the elements of an array must differ.
pub open spec fn unique_wanted(schema: Schema) -> bool {
    match schema.unique_items {
        Some(unique) => unique,
        None => false,
    }
}

/// Whether the elements of an array must differ.
pub fn wants_unique(schema: &Schema) -> (result: bool)
    ensures
        result == unique_wanted(*schema),
{
    match schema.unique_items {
        Some(unique) => unique,
        None => false,
    }
}

/// The check that the elements of an array differ.
pub open spec fn unique_text(
    values_expr: Seq<char>,
    path_expr: Seq<char>,
    element: Seq<char>,
    index: Seq<char>,
    indent: Seq<char>,
) -> Seq<char> {
    (
        indent + "{\n"@ + indent + "  const seen = new Map<unknown, number>();\n"@ + indent + "  "@
            + values_expr + ".forEach(("@ + element + ", "@ + index + ") => {\n"@ + indent
            + "    if (seen.has("@ + element + ")) {\n"@ + indent
            + "      violations.push({ path: "@ + path_expr
            + ", reason: `duplicate items: element at index ${"@ + index
            + "} equals index ${seen.get("@ + element + ")}` });\n"@ + indent + "    } else {\n"@
            + indent + "      seen.set("@ + element + ", "@ + index + ");\n"@ + indent + "    }\n"@
            + indent + "  });\n"@ + indent + "}\n"@
    )
}

/// The check that the elements of an array differ.
pub fn unique_check(
    values_expr: &str,
    path_expr: &str,
    element: &str,
    index: &str,
    indent: &str,
) -> (result: String)
    ensures
        result@ == unique_text(values_expr@, path_expr@, element@, index@, indent@),
{
    indent.to_owned().concat("{\n").concat(indent)
        .concat("  const seen = new Map<unknown, number>();\n").concat(indent).concat("  ")
        .concat(values_expr).concat(".forEach((").concat(element).concat(", ").concat(index)
        .concat(") => {\n").concat(indent).concat("    if (seen.has(").concat(element)
        .concat(")) {\n").concat(indent).concat("      violations.push({ path: ").concat(path_expr)
        .concat(", reason: `duplicate items: element at index ${").concat(index)
        .concat("} equals index ${seen.get(").concat(element).concat(")}` });\n").concat(indent)
        .concat("    } else {\n").concat(indent).concat("      seen.set(").concat(element)
        .concat(", ").concat(index).concat(");\n").concat(indent).concat("    }\n").concat(indent)
        .concat("  });\n").concat(indent).concat("}\n")
}

/// The check that enough elements of an array match a schema.
pub open spec fn min_contains_text(
    schema: Schema,
    path_expr: Seq<char>,
    suffix: Seq<char>,
    inner: Seq<char>,
) -> Seq<char> {
    match schema.min_contains {
        Some(min) => if min > 0 {
            let number = crate::json_schema::ts_text::count_of(min);
            (
                inner + "if (matchCount"@ + suffix + " < "@ + number + ") {\n"@ + inner
                    + "  violations.push({ path: "@ + path_expr
                    + ", reason: `too few matching items: at least "@ + number
                    + ", got ${matchCount"@ + suffix + "}` });\n"@ + inner + "}\n"@
            )
        } else {
            Seq::<char>::empty()
        },
        None => (
            inner + "if (matchCount"@ + suffix + " < 1) {\n"@ + inner
                + "  violations.push({ path: "@ + path_expr
                + ", reason: `no element matches the required schema: at least 1, got ${matchCount"@
                + suffix + "}` });\n"@ + inner + "}\n"@
        ),
    }
}

/// The check that enough elements of an array match a schema.
pub fn min_contains_check(
    schema: &Schema,
    path_expr: &str,
    suffix: &str,
    inner: &str,
) -> (result: String)
    ensures
        result@ == min_contains_text(*schema, path_expr@, suffix@, inner@),
{
    match schema.min_contains {
        Some(min) => if min > 0 {
            let number = count_text(min);
            inner.to_owned().concat("if (matchCount").concat(suffix).concat(" < ")
                .concat(number.as_str()).concat(") {\n").concat(inner)
                .concat("  violations.push({ path: ").concat(path_expr)
                .concat(", reason: `too few matching items: at least ").concat(number.as_str())
                .concat(", got ${matchCount").concat(suffix).concat("}` });\n").concat(inner)
                .concat("}\n")
        } else {
            String::new()
        },
        None => inner.to_owned().concat("if (matchCount").concat(suffix).concat(" < 1) {\n")
            .concat(inner).concat("  violations.push({ path: ").concat(path_expr)
            .concat(
                ", reason: `no element matches the required schema: at least 1, got ${matchCount",
            ).concat(suffix).concat("}` });\n").concat(inner).concat("}\n"),
    }
}

/// The checks of how many elements of an array match a schema.
pub open spec fn contains_text_of(
    ctx: TsContext,
    schema: Schema,
    matcher: Schema,
    values_expr: Seq<char>,
    path_expr: Seq<char>,
    suffix: Seq<char>,
    indent: Seq<char>,
) -> Seq<char> {
    let element = "element"@ + suffix;
    let condition = matcher_condition(ctx, matcher, element, element_type_of(schema));
    let inner = indent + "  "@;
    let least = min_contains_text(schema, path_expr, suffix, inner);
    let greatest = match schema.max_contains {
        Some(max) => {
            let number = crate::json_schema::ts_text::count_of(max);
            (
                inner + "if (matchCount"@ + suffix + " > "@ + number + ") {\n"@ + inner
                    + "  violations.push({ path: "@ + path_expr
                    + ", reason: `too many matching items: at most "@ + number
                    + ", got ${matchCount"@ + suffix + "}` });\n"@ + inner + "}\n"@
            )
        },
        None => Seq::<char>::empty(),
    };
    (
        indent + "{\n"@ + inner + "const matchCount"@ + suffix + " = "@ + values_expr + ".filter(("@
            + element + ") => "@ + condition + ").length;\n"@ + least + greatest + indent + "}\n"@
    )
}

/// The checks of how many elements of an array match a schema.
pub fn contains_check(
    ctx: &TsContext,
    schema: &Schema,
    matcher: &Schema,
    values_expr: &str,
    path_expr: &str,
    suffix: &str,
    indent: &str,
) -> (result: String)
    ensures
        result@ == contains_text_of(
            *ctx,
            *schema,
            *matcher,
            values_expr@,
            path_expr@,
            suffix@,
            indent@,
        ),
{
    let element = "element".to_owned().concat(suffix);
    let condition = ts_matcher_condition(
        ctx,
        matcher,
        element.as_str(),
        array_element_type(schema),
    );
    let inner = indent.to_owned().concat("  ");
    let least = min_contains_check(schema, path_expr, suffix, inner.as_str());
    let greatest = match schema.max_contains {
        Some(max) => {
            let number = count_text(max);
            inner.clone().concat("if (matchCount").concat(suffix).concat(" > ")
                .concat(number.as_str()).concat(") {\n").concat(inner.as_str())
                .concat("  violations.push({ path: ").concat(path_expr)
                .concat(", reason: `too many matching items: at most ").concat(number.as_str())
                .concat(", got ${matchCount").concat(suffix).concat("}` });\n")
                .concat(inner.as_str()).concat("}\n")
        },
        None => String::new(),
    };
    indent.to_owned().concat("{\n").concat(inner.as_str()).concat("const matchCount").concat(suffix)
        .concat(" = ").concat(values_expr).concat(".filter((").concat(element.as_str())
        .concat(") => ").concat(condition.as_str()).concat(").length;\n").concat(least.as_str())
        .concat(greatest.as_str()).concat(indent).concat("}\n")
}

/// The checks that compare the elements of an array, over its wire values.
pub open spec fn array_values(
    ctx: TsContext,
    values_expr: Seq<char>,
    path_expr: Seq<char>,
    schema: Schema,
    suffix: Seq<char>,
    indent: Seq<char>,
) -> Seq<char> {
    let unique = if unique_wanted(schema) {
        let element = "element"@ + suffix;
        let index = "index"@ + suffix;
        unique_text(values_expr, path_expr, element, index, indent)
    } else {
        Seq::<char>::empty()
    };
    let contained = match schema.contains {
        Some(matcher) => contains_text_of(
            ctx,
            schema,
            *matcher,
            values_expr,
            path_expr,
            suffix,
            indent,
        ),
        None => Seq::<char>::empty(),
    };
    (unique + contained)
}

/// The checks that compare the elements of an array, over its wire values.
pub fn array_value_checks(
    ctx: &TsContext,
    values_expr: &str,
    path_expr: &str,
    schema: &Schema,
    suffix: &str,
    indent: &str,
) -> (result: String)
    ensures
        result@ == array_values(*ctx, values_expr@, path_expr@, *schema, suffix@, indent@),
{
    let unique = if wants_unique(schema) {
        let element = "element".to_owned().concat(suffix);
        let index = "index".to_owned().concat(suffix);
        unique_check(values_expr, path_expr, element.as_str(), index.as_str(), indent)
    } else {
        String::new()
    };
    let contained = match &schema.contains {
        Some(matcher) => contains_check(
            ctx,
            schema,
            matcher,
            values_expr,
            path_expr,
            suffix,
            indent,
        ),
        None => String::new(),
    };
    unique.clone().concat(contained.as_str())
}

/// The expression for the wire form of an array's elements, where it is another than their form
/// in memory.
pub open spec fn element_wire_expr(
    ctx: TsContext,
    schema: Schema,
    element: Seq<char>,
    depth: u64,
) -> Option<Seq<char>> {
    match schema.items {
        Some(items) => {
            let wire = crate::json_schema::annotation::wire_expr_at(
                ctx,
                *items,
                element,
                crate::json_schema::ts_text::deeper(depth),
            );
            if (wire == element) {
                None
            } else {
                Some(wire)
            }
        },
        None => None,
    }
}

/// The expression for the wire form of an array's elements, where it is another than their form
/// in memory.
pub fn element_wire(ctx: &TsContext, schema: &Schema, element: &str, depth: u64) -> (result: Option<
    String,
>)
    ensures
        crate::text::opt_text(result) == element_wire_expr(*ctx, *schema, element@, depth),
{
    match &schema.items {
        Some(items) => {
            let wire = serialize_expr_at_depth(ctx, items, element, next_depth(depth));
            if text_eq(wire.as_str(), element) {
                None
            } else {
                Some(wire)
            }
        },
        None => None,
    }
}

/// The checks of an array. On the way to the wire, the checks that compare elements run over
/// their wire form. The variables of the loops carry how deep the array stands in others.
pub open spec fn array_checks(
    ctx: TsContext,
    array_expr: Seq<char>,
    path_expr: Seq<char>,
    schema: Schema,
    indent: Seq<char>,
    depth: u64,
    serialize: bool,
) -> Seq<char> {
    let lengths = array_lengths(array_expr, path_expr, schema, indent);
    if !unique_wanted(schema) && schema.contains.is_none() {
        lengths
    } else {
        let suffix = crate::json_schema::ts_text::depth_suffix(depth);
        let element = "element"@ + suffix;
        let wire = if serialize {
            element_wire_expr(ctx, schema, element, depth)
        } else {
            None
        };
        match wire {
            Some(wire) => {
                let values_expr = "wireItems"@ + suffix;
                let inner = indent + "  "@;
                let checks = array_values(ctx, values_expr, path_expr, schema, suffix, inner);
                (
                    lengths + indent + "{\n"@ + indent + "  const wireItems"@ + suffix + " = "@
                        + array_expr + ".map(("@ + element + ") => "@ + wire + ");\n"@ + checks
                        + indent + "}\n"@
                )
            },
            None => {
                let checks = array_values(ctx, array_expr, path_expr, schema, suffix, indent);
                (lengths + checks)
            },
        }
    }
}

/// The checks of an array. On the way to the wire, the checks that compare elements run over
/// their wire form. The variables of the loops carry how deep the array stands in others.
pub fn render_ts_array_checks(
    ctx: &TsContext,
    array_expr: &str,
    path_expr: &str,
    schema: &Schema,
    indent: &str,
    depth: u64,
    serialize: bool,
) -> (result: String)
    ensures
        result@ == array_checks(*ctx, array_expr@, path_expr@, *schema, indent@, depth, serialize),
{
    let lengths = array_length_checks(array_expr, path_expr, schema, indent);
    if !wants_unique(schema) && schema.contains.is_none() {
        lengths
    } else {
        let suffix = ts_depth_suffix(depth);
        let element = "element".to_owned().concat(suffix.as_str());
        let wire = if serialize {
            element_wire(ctx, schema, element.as_str(), depth)
        } else {
            None
        };
        match wire {
            Some(wire) => {
                let values_expr = "wireItems".to_owned().concat(suffix.as_str());
                let inner = indent.to_owned().concat("  ");
                let checks = array_value_checks(
                    ctx,
                    values_expr.as_str(),
                    path_expr,
                    schema,
                    suffix.as_str(),
                    inner.as_str(),
                );
                lengths.clone().concat(indent).concat("{\n").concat(indent)
                    .concat("  const wireItems").concat(suffix.as_str()).concat(" = ")
                    .concat(array_expr).concat(".map((").concat(element.as_str()).concat(") => ")
                    .concat(wire.as_str()).concat(");\n").concat(checks.as_str()).concat(indent)
                    .concat("}\n")
            },
            None => {
                let checks = array_value_checks(
                    ctx,
                    array_expr,
                    path_expr,
                    schema,
                    suffix.as_str(),
                    indent,
                );
                lengths.clone().concat(checks.as_str())
            },
        }
    }
}

/// The check that a value is one of a closed set.
pub open spec fn closed_check(
    compare_exprs: Seq<Seq<char>>,
    value_expr: Seq<char>,
    path_expr: Seq<char>,
    indent: Seq<char>,
    reason: Seq<char>,
) -> Seq<char> {
    let conditions = unequal_texts(compare_exprs, value_expr);
    let membership = crate::text::join(conditions, " && "@);
    check_text(indent, membership, path_expr, reason)
}

/// The check that a value is one of a closed set.
pub fn render_ts_serialize_closed_check(
    compare_exprs: &Vec<String>,
    value_expr: &str,
    path_expr: &str,
    indent: &str,
    reason: &str,
) -> (result: String)
    ensures
        result@ == closed_check(
            crate::text::texts(compare_exprs@),
            value_expr@,
            path_expr@,
            indent@,
            reason@,
        ),
{
    let conditions = unequal_conditions(compare_exprs, value_expr);
    let membership = join_texts(&conditions, " && ");
    violation_check(indent, membership.as_str(), path_expr, reason)
}

/// What is reported of a value that is not the one that it is fixed to.
pub open spec fn const_reason(literal: Seq<char>, value_expr: Seq<char>) -> Seq<char> {
    "must equal "@ + literal + ", got ${JSON.stringify("@ + value_expr + ")}"@
}

/// What is reported of a value that is not the one that it is fixed to.
pub fn unequal_reason(literal: &str, value_expr: &str) -> (result: String)
    ensures
        result@ == const_reason(literal@, value_expr@),
{
    "must equal ".to_owned().concat(literal).concat(", got ${JSON.stringify(").concat(value_expr)
        .concat(")}")
}

/// The check of a value that is fixed, or of one out of a list.
pub open spec fn schema_closed_check(
    schema: Schema,
    value_expr: Seq<char>,
    path_expr: Seq<char>,
    indent: Seq<char>,
) -> Seq<char> {
    match schema.const_value {
        Some(value) => {
            let literal = crate::json_schema::ts_text::value_literal(value);
            let reason = const_reason(literal, value_expr);
            let literals = seq![literal];

            closed_check(literals, value_expr, path_expr, indent, reason)
        },
        None => match schema.enum_values {
            Some(values) => {
                let literals = crate::json_schema::ts_text::value_literals(values@);
                let all = crate::text::join(literals, ", "@);
                let reason = "must be one of ["@ + all + "], got ${JSON.stringify("@ + value_expr + ")}"@;
                closed_check(literals, value_expr, path_expr, indent, reason)
            },
            None => Seq::<char>::empty(),
        },
    }
}

/// The check of a value that is fixed, or of one out of a list.
pub fn render_ts_schema_closed_check(
    schema: &Schema,
    value_expr: &str,
    path_expr: &str,
    indent: &str,
) -> (result: String)
    ensures
        result@ == schema_closed_check(*schema, value_expr@, path_expr@, indent@),
{
    match &schema.const_value {
        Some(value) => {
            let literal = typescript_value_literal(value);
            let reason = unequal_reason(literal.as_str(), value_expr);
            let literals = vec![literal.clone()];
            assert(crate::text::texts(literals@) =~= seq![literal@]);
            render_ts_serialize_closed_check(
                &literals,
                value_expr,
                path_expr,
                indent,
                reason.as_str(),
            )
        },
        None => match &schema.enum_values {
            Some(values) => {
                let literals = literals_of(values);
                let all = join_texts(&literals, ", ");
                let reason = "must be one of [".to_owned().concat(all.as_str())
                    .concat("], got ${JSON.stringify(").concat(value_expr).concat(")}");
                render_ts_serialize_closed_check(
                    &literals,
                    value_expr,
                    path_expr,
                    indent,
                    reason.as_str(),
                )
            },
            None => String::new(),
        },
    }
}

/// Whether the wire form of a value that is held in another form is constrained.
pub open spec fn wire_constraints(schema: Schema, include_format: bool) -> bool {
    crate::json_schema::schema::min_length_of(schema) is Some
        || schema.max_length.is_some()
        || schema.pattern.is_some()
        || (
        include_format && schema.format.is_some()
    ) || schema.const_value.is_some() || schema.enum_values.is_some()
}

/// Whether the wire form of a value that is held in another form is constrained.
pub fn has_materialized_wire_constraints(
    schema: &Schema,
    include_format: bool,
) -> (result: bool)
    ensures
        result == wire_constraints(*schema, include_format),
{
    effective_min_length(schema).is_some()
        || schema.max_length.is_some()
        || schema.pattern.is_some()
        || (
        include_format && schema.format.is_some()
    ) || schema.const_value.is_some() || schema.enum_values.is_some()
}

/// The lines of a text, each indented.
pub open spec fn indented_texts(lines: Seq<Seq<char>>, indent: Seq<char>) -> Seq<char>
    decreases lines.len(),
{
    if lines.len() == 0 {
        Seq::empty()
    } else {
        let line = lines.last();
        indented_texts(lines.drop_last(), indent) + (
            (indent + line + "\n"@)
        )
    }
}

/// The lines of a text, each indented.
pub fn indented_lines(lines: &Vec<String>, indent: &str) -> (result: String)
    ensures
        result@ == indented_texts(crate::text::texts(lines@), indent@),
{
    let mut result: String = String::new();
    let mut i: usize = 0;
    while i < lines.len()
        invariant
            i <= lines.len(),
            result@ == indented_texts(crate::text::texts(lines@).take(i as int), indent@),
        decreases lines.len() - i,
    {
        proof {
            assert(
                crate::text::texts(lines@).take(i + 1).drop_last()
                    =~= crate::text::texts(lines@).take(i as int)
            );
            assert(
                crate::text::texts(lines@).take(i + 1).last()
                    == crate::text::texts(lines@)[i as int]
            );
        }
        let line = lines[i].as_str();
        let part = indent.to_owned().concat(line).concat("\n");
        result.append(part.as_str());
        i += 1;
    }
    proof {
        crate::text::lemma_take_all(crate::text::texts(lines@));
    }
    result
}

} // verus!
