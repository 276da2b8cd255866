//! What the checks of generated code report: each constraint is reported by its own comparison.

use vstd::prelude::*;

use crate::json_schema::schema::Schema;
use crate::json_schema::ts_text::TsContext;

verus! {

/// Whether a text reports a violation at a path where a condition holds, with a reason that starts
/// as given.
pub open spec fn reports(
    text: Seq<char>,
    indent: Seq<char>,
    condition: Seq<char>,
    path_expr: Seq<char>,
    reason: Seq<char>,
) -> bool {
    crate::json_schema::annotation::has_part(
        text,
        indent + "if ("@ + condition + ") {\n"@ + indent + "  violations.push({ path: "@ + path_expr
            + ", reason: `"@ + reason,
    )
}

/// A part of the checks of the bounds is a part of the checks of the number.
proof fn lemma_bounds_stand(
    value_expr: Seq<char>,
    path_expr: Seq<char>,
    schema: Schema,
    indent: Seq<char>,
    emit_integer_cap: bool,
    condition: Seq<char>,
    reason: Seq<char>,
)
    requires
        reports(
            crate::json_schema::checks::numeric_bounds(value_expr, path_expr, schema, indent),
            indent,
            condition,
            path_expr,
            reason,
        ),
    ensures
        reports(
            crate::json_schema::checks::numeric_checks(value_expr, path_expr, schema, indent, emit_integer_cap),
            indent,
            condition,
            path_expr,
            reason,
        ),
{
    let part = indent + "if ("@ + condition + ") {\n"@ + indent + "  violations.push({ path: "@
        + path_expr + ", reason: `"@ + reason;
    reveal_strlit("if (");
    assert("if ("@.len() == 4);
    assert(part.len() > 0);
    let body = crate::json_schema::checks::numeric_bounds(value_expr, path_expr, schema, indent);
    assert(body.len() > 0) by {
        let i = choose|i: int|
            0 <= i <= body.len() && crate::text::has_prefix(#[trigger] body.skip(i), part);
        assert(body.skip(i).len() >= part.len());
    }
    crate::json_schema::sides::lemma_part_stays(part);
}

/// A number is reported by the comparison that breaks its bound: below the minimum, above the
/// maximum, not above the exclusive minimum, not below the exclusive maximum, or with a remainder by
/// the divisor.
pub proof fn law_numbers_are_held_to_their_bounds(
    value_expr: Seq<char>,
    path_expr: Seq<char>,
    schema: Schema,
    indent: Seq<char>,
    emit_integer_cap: bool,
)
    ensures
        ({
            let checks = crate::json_schema::checks::numeric_checks(
                value_expr,
                path_expr,
                schema,
                indent,
                emit_integer_cap,
            );
            let whole = crate::json_schema::schema::has_type(schema, "integer"@);
            &&& schema.minimum matches Some(bound) ==> {
                let literal = crate::json_schema::ts_text::bound_literal(bound, whole);
                reports(
                    checks,
                    indent,
                    value_expr + " "@ + "<"@ + " "@ + literal,
                    path_expr,
                    "must be "@ + ">="@ + " "@ + literal,
                )
            }
            &&& schema.maximum matches Some(bound) ==> {
                let literal = crate::json_schema::ts_text::bound_literal(bound, whole);
                reports(
                    checks,
                    indent,
                    value_expr + " "@ + ">"@ + " "@ + literal,
                    path_expr,
                    "must be "@ + "<="@ + " "@ + literal,
                )
            }
            &&& schema.exclusive_minimum matches Some(bound) ==> {
                let literal = crate::json_schema::ts_text::bound_literal(bound, whole);
                reports(
                    checks,
                    indent,
                    value_expr + " "@ + "<="@ + " "@ + literal,
                    path_expr,
                    "must be "@ + ">"@ + " "@ + literal,
                )
            }
            &&& schema.exclusive_maximum matches Some(bound) ==> {
                let literal = crate::json_schema::ts_text::bound_literal(bound, whole);
                reports(
                    checks,
                    indent,
                    value_expr + " "@ + ">="@ + " "@ + literal,
                    path_expr,
                    "must be "@ + "<"@ + " "@ + literal,
                )
            }
            &&& schema.multiple_of matches Some(divisor) ==> {
                let literal = crate::json_schema::ts_text::bound_literal(divisor, whole);
                reports(
                    checks,
                    indent,
                    value_expr + " % "@ + literal + " !== 0"@,
                    path_expr,
                    "must be a multiple of "@ + literal,
                )
            }
        }),
{
    let whole = crate::json_schema::schema::has_type(schema, "integer"@);
    match schema.minimum {
        Some(bound) => lemma_bound_stands(
            value_expr, path_expr, schema, indent, emit_integer_cap, bound, "<"@, ">="@,
        ),
        None => {},
    }
    match schema.maximum {
        Some(bound) => lemma_bound_stands(
            value_expr, path_expr, schema, indent, emit_integer_cap, bound, ">"@, "<="@,
        ),
        None => {},
    }
    match schema.exclusive_minimum {
        Some(bound) => lemma_bound_stands(
            value_expr, path_expr, schema, indent, emit_integer_cap, bound, "<="@, ">"@,
        ),
        None => {},
    }
    match schema.exclusive_maximum {
        Some(bound) => lemma_bound_stands(
            value_expr, path_expr, schema, indent, emit_integer_cap, bound, ">="@, "<"@,
        ),
        None => {},
    }
    match schema.multiple_of {
        Some(divisor) => lemma_divisor_stands(
            value_expr, path_expr, schema, indent, emit_integer_cap, divisor,
        ),
        None => {},
    }
}

/// The check of one bound stands among the checks of the number.
proof fn lemma_bound_stands(
    value_expr: Seq<char>,
    path_expr: Seq<char>,
    schema: Schema,
    indent: Seq<char>,
    emit_integer_cap: bool,
    bound: crate::json_schema::value::JsonNumber,
    failure: Seq<char>,
    demand: Seq<char>,
)
    requires
        ({
            ||| schema.minimum == Some(bound) && failure == "<"@ && demand == ">="@
            ||| schema.maximum == Some(bound) && failure == ">"@ && demand == "<="@
            ||| schema.exclusive_minimum == Some(bound) && failure == "<="@ && demand == ">"@
            ||| schema.exclusive_maximum == Some(bound) && failure == ">="@ && demand == "<"@
        }),
    ensures
        ({
            let literal = crate::json_schema::ts_text::bound_literal(
                bound,
                crate::json_schema::schema::has_type(schema, "integer"@),
            );
            reports(
                crate::json_schema::checks::numeric_checks(value_expr, path_expr, schema, indent, emit_integer_cap),
                indent,
                value_expr + " "@ + failure + " "@ + literal,
                path_expr,
                "must be "@ + demand + " "@ + literal,
            )
        }),
{
    let whole = crate::json_schema::schema::has_type(schema, "integer"@);
    let literal = crate::json_schema::ts_text::bound_literal(bound, whole);
    let condition = value_expr + " "@ + failure + " "@ + literal;
    let reason = "must be "@ + demand + " "@ + literal;
    let part = indent + "if ("@ + condition + ") {\n"@ + indent + "  violations.push({ path: "@
        + path_expr + ", reason: `"@ + reason;
    let check = crate::json_schema::checks::bound_check_text(
        Some(bound), whole, value_expr, path_expr, indent, failure, demand,
    );
    lemma_check_reports(indent, condition, path_expr, reason, ", got ${"@ + value_expr + "}"@);
    assert(reason + (", got ${"@ + value_expr + "}"@) =~= "must be "@ + demand + " "@ + literal
        + ", got ${"@ + value_expr + "}"@);
    assert(crate::json_schema::annotation::has_part(check, part));
    crate::json_schema::sides::lemma_part_stays(part);
    lemma_bounds_stand(
        value_expr, path_expr, schema, indent, emit_integer_cap, condition, reason,
    );
}

/// A check reports what it says.
proof fn lemma_check_reports(
    indent: Seq<char>,
    condition: Seq<char>,
    path_expr: Seq<char>,
    reason: Seq<char>,
    rest: Seq<char>,
)
    ensures
        reports(
            crate::json_schema::checks::check_text(indent, condition, path_expr, reason + rest),
            indent,
            condition,
            path_expr,
            reason,
        ),
{
    let start = indent + "if ("@ + condition + ") {\n"@ + indent + "  violations.push({ path: "@
        + path_expr + ", reason: `"@;
    let tail = rest + ("` });\n"@ + indent + "}\n"@);
    assert(crate::json_schema::checks::check_text(indent, condition, path_expr, reason + rest)
        =~= Seq::<char>::empty() + (start + reason) + tail);
    crate::json_schema::sides::lemma_part_of(Seq::empty(), start + reason, tail);
}

/// The check of the divisor stands among the checks of the number.
proof fn lemma_divisor_stands(
    value_expr: Seq<char>,
    path_expr: Seq<char>,
    schema: Schema,
    indent: Seq<char>,
    emit_integer_cap: bool,
    divisor: crate::json_schema::value::JsonNumber,
)
    requires
        schema.multiple_of == Some(divisor),
    ensures
        ({
            let literal = crate::json_schema::ts_text::bound_literal(
                divisor,
                crate::json_schema::schema::has_type(schema, "integer"@),
            );
            reports(
                crate::json_schema::checks::numeric_checks(value_expr, path_expr, schema, indent, emit_integer_cap),
                indent,
                value_expr + " % "@ + literal + " !== 0"@,
                path_expr,
                "must be a multiple of "@ + literal,
            )
        }),
{
    let whole = crate::json_schema::schema::has_type(schema, "integer"@);
    let literal = crate::json_schema::ts_text::bound_literal(divisor, whole);
    let condition = value_expr + " % "@ + literal + " !== 0"@;
    let reason = "must be a multiple of "@ + literal;
    let part = indent + "if ("@ + condition + ") {\n"@ + indent + "  violations.push({ path: "@
        + path_expr + ", reason: `"@ + reason;
    lemma_check_reports(indent, condition, path_expr, reason, ", got ${"@ + value_expr + "}"@);
    assert(reason + (", got ${"@ + value_expr + "}"@) =~= "must be a multiple of "@ + literal
        + ", got ${"@ + value_expr + "}"@);
    crate::json_schema::sides::lemma_part_stays(part);
    lemma_bounds_stand(
        value_expr, path_expr, schema, indent, emit_integer_cap, condition, reason,
    );
}

/// A number that is no integer is reported where it is not finite, and an integer that is held to
/// its cap where it is not safe. An integer without bounds and cap has no checks.
#[verifier::rlimit(40)]
pub proof fn law_numbers_are_held_to_their_kind(
    value_expr: Seq<char>,
    path_expr: Seq<char>,
    schema: Schema,
    indent: Seq<char>,
    emit_integer_cap: bool,
)
    ensures
        ({
            let checks = crate::json_schema::checks::numeric_checks(
                value_expr,
                path_expr,
                schema,
                indent,
                emit_integer_cap,
            );
            let whole = crate::json_schema::schema::has_type(schema, "integer"@);
            &&& !whole ==> crate::json_schema::annotation::has_part(
                checks,
                indent + "if (!Number.isFinite("@ + value_expr + ")) {\n"@ + indent
                    + "  violations.push({ path: "@ + path_expr,
            )
            &&& whole && emit_integer_cap ==> crate::json_schema::annotation::has_part(
                checks,
                indent + "if (!Number.isSafeInteger("@ + value_expr + ")) {\n"@ + indent
                    + "  violations.push({ path: "@ + path_expr,
            )
            &&& whole && !emit_integer_cap && schema.minimum is None && schema.maximum is None
                && schema.exclusive_minimum is None && schema.exclusive_maximum is None
                && schema.multiple_of is None ==> checks.len() == 0
        }),
{
    let finite = indent + "if (!Number.isFinite("@ + value_expr + ")) {\n"@ + indent
        + "  violations.push({ path: "@ + path_expr;
    let safe = indent + "if (!Number.isSafeInteger("@ + value_expr + ")) {\n"@ + indent
        + "  violations.push({ path: "@ + path_expr;
    if crate::json_schema::schema::has_type(schema, "integer"@) {
        crate::json_schema::sides::lemma_part_stays(safe);
    } else {
        crate::json_schema::sides::lemma_part_stays(finite);
    }
}

/// A string is reported where it has fewer code points than its least length, where it has more
/// than its greatest, and where it does not match its pattern. A least length of zero asks for
/// nothing.
#[verifier::rlimit(40)]
pub proof fn law_strings_are_held_to_their_constraints(
    ctx: TsContext,
    value_expr: Seq<char>,
    path_expr: Seq<char>,
    schema: Schema,
    indent: Seq<char>,
    include_format: bool,
)
    ensures
        ({
            let checks = crate::json_schema::checks::string_assertions(
                ctx,
                value_expr,
                path_expr,
                schema,
                indent,
                include_format,
            );
            &&& schema.min_length matches Some(least) ==> least > 0 ==> {
                let count = crate::json_schema::ts_text::count_of(least);
                crate::json_schema::annotation::has_part(
                    checks,
                    indent + "  const codePoints = "@ + "__nexgenDefinitions.codePointLength"@
                        + "("@ + value_expr + ", "@ + count + ");\n"@ + indent
                        + "  if (codePoints < "@ + count + ") {\n"@ + indent
                        + "    violations.push({ path: "@ + path_expr
                        + ", reason: `must have length >= "@ + count,
                )
            }
            &&& schema.max_length matches Some(most) ==> {
                let count = crate::json_schema::ts_text::count_of(most);
                crate::json_schema::annotation::has_part(
                    checks,
                    indent + "if ("@ + "__nexgenDefinitions.codePointLength"@ + "("@ + value_expr
                        + ", "@ + count + ") > "@ + count + ") {\n"@ + indent
                        + "  violations.push({ path: "@ + path_expr
                        + ", reason: `must have length <= "@ + count,
                )
            }
            &&& schema.pattern matches Some(pattern) ==> crate::json_schema::annotation::has_part(
                checks,
                indent + "if (!"@ + crate::json_schema::ts_text::pattern_const(pattern@) + ".test("@ + value_expr
                    + ")) {\n"@ + indent + "  violations.push({ path: "@ + path_expr
                    + ", reason: `must match pattern "@,
            )
            &&& (schema.min_length is None || schema.min_length == Some(0u64))
                && schema.max_length is None && schema.pattern is None && schema.format is None
                ==> checks.len() == 0
        }),
{
    match schema.min_length {
        Some(least) => {
            let count = crate::json_schema::ts_text::count_of(least);
            lemma_least_length(least, value_expr, path_expr, indent);
            crate::json_schema::sides::lemma_part_stays(
                indent + "  const codePoints = "@ + "__nexgenDefinitions.codePointLength"@ + "("@
                    + value_expr + ", "@ + count + ");\n"@ + indent + "  if (codePoints < "@ + count
                    + ") {\n"@ + indent + "    violations.push({ path: "@ + path_expr
                    + ", reason: `must have length >= "@ + count,
            );
        },
        None => {},
    }
    match schema.max_length {
        Some(most) => {
            let count = crate::json_schema::ts_text::count_of(most);
            crate::json_schema::sides::lemma_part_stays(
                indent + "if ("@ + "__nexgenDefinitions.codePointLength"@ + "("@ + value_expr + ", "@
                    + count + ") > "@ + count + ") {\n"@ + indent + "  violations.push({ path: "@
                    + path_expr + ", reason: `must have length <= "@ + count,
            );
        },
        None => {},
    }
    match schema.pattern {
        Some(pattern) => {
            crate::json_schema::sides::lemma_part_stays(
                indent + "if (!"@ + crate::json_schema::ts_text::pattern_const(pattern@) + ".test("@ + value_expr
                    + ")) {\n"@ + indent + "  violations.push({ path: "@ + path_expr
                    + ", reason: `must match pattern "@,
            );
        },
        None => {},
    }
}

/// The check of the least length counts the code points and compares the count.
proof fn lemma_least_length(least: u64, value_expr: Seq<char>, path_expr: Seq<char>, indent: Seq<char>)
    ensures
        ({
            let count = crate::json_schema::ts_text::count_of(least);
            crate::json_schema::annotation::has_part(
                crate::json_schema::checks::min_length_text(least, value_expr, path_expr, indent),
                indent + "  const codePoints = "@ + "__nexgenDefinitions.codePointLength"@ + "("@
                    + value_expr + ", "@ + count + ");\n"@ + indent + "  if (codePoints < "@ + count
                    + ") {\n"@ + indent + "    violations.push({ path: "@ + path_expr
                    + ", reason: `must have length >= "@ + count,
            )
        }),
{
    let count = crate::json_schema::ts_text::count_of(least);
    let middle = indent + "  const codePoints = "@ + "__nexgenDefinitions.codePointLength"@ + "("@
        + value_expr + ", "@ + count + ");\n"@ + indent + "  if (codePoints < "@ + count + ") {\n"@
        + indent + "    violations.push({ path: "@ + path_expr
        + ", reason: `must have length >= "@ + count;
    let before = indent + "{\n"@;
    let after = ", got ${codePoints}` });\n"@ + indent + "  }\n"@ + indent + "}\n"@;
    assert(crate::json_schema::checks::min_length_text(least, value_expr, path_expr, indent) =~= before + middle
        + after);
    crate::json_schema::sides::lemma_part_of(before, middle, after);
}

/// The number that a text of decimal digits stands for.
pub open spec fn decimal_value(digits: Seq<char>) -> int
    decreases digits.len(),
{
    if digits.len() == 0 {
        0
    } else {
        10 * decimal_value(digits.drop_last()) + (digits.last() as int - '0' as int)
    }
}

/// A decimal number is read back as the number.
proof fn lemma_decimal_is_read_back(number: nat)
    ensures
        decimal_value(crate::unique::decimal(number)) == number,
    decreases number,
{
    let digits = crate::unique::decimal(number);
    if number < 10 {
        assert(digits.drop_last() =~= Seq::empty());
        assert(decimal_value(digits.drop_last()) == 0);
    } else {
        lemma_decimal_is_read_back(number / 10);
        assert(digits.drop_last() =~= crate::unique::decimal(number / 10));
    }
}

/// A count in a generated check is the decimal number that the schema asks for.
pub proof fn law_counts_are_decimal(count: u64)
    ensures
        decimal_value(crate::json_schema::ts_text::count_of(count)) == count,
{
    lemma_decimal_is_read_back(count as nat);
}

/// A bound is written as it stands in the schema where the values are no integers.
pub proof fn law_bounds_are_written_as_they_stand(number: crate::json_schema::value::JsonNumber)
    ensures
        crate::json_schema::ts_text::bound_literal(number, false) == number.text@,
{
}

/// An object is reported where it has fewer members than its least number, and where it has more
/// than its greatest.
#[verifier::rlimit(40)]
pub proof fn law_objects_are_held_to_their_member_counts(
    count_expr: Seq<char>,
    schema: Schema,
    indent: Seq<char>,
)
    ensures
        ({
            let checks = crate::json_schema::checks::property_count_checks(count_expr, schema, indent);
            &&& schema.min_properties matches Some(least) ==> crate::json_schema::annotation::has_part(
                checks,
                indent + "if ("@ + count_expr + " < "@ + crate::json_schema::ts_text::count_of(least) + ") {\n"@
                    + indent + "  violations.push({ path: '', reason: `must have at least "@
                    + crate::json_schema::ts_text::count_of(least),
            )
            &&& schema.max_properties matches Some(most) ==> crate::json_schema::annotation::has_part(
                checks,
                indent + "if ("@ + count_expr + " > "@ + crate::json_schema::ts_text::count_of(most) + ") {\n"@
                    + indent + "  violations.push({ path: '', reason: `must have at most "@
                    + crate::json_schema::ts_text::count_of(most),
            )
            &&& schema.min_properties is None && schema.max_properties is None ==> checks.len() == 0
        }),
{
    match schema.min_properties {
        Some(least) => {
            let count = crate::json_schema::ts_text::count_of(least);
            crate::json_schema::sides::lemma_part_stays(
                indent + "if ("@ + count_expr + " < "@ + count + ") {\n"@ + indent
                    + "  violations.push({ path: '', reason: `must have at least "@ + count,
            );
        },
        None => {},
    }
    match schema.max_properties {
        Some(most) => {
            let count = crate::json_schema::ts_text::count_of(most);
            crate::json_schema::sides::lemma_part_stays(
                indent + "if ("@ + count_expr + " > "@ + count + ") {\n"@ + indent
                    + "  violations.push({ path: '', reason: `must have at most "@ + count,
            );
        },
        None => {},
    }
}

/// An array is reported where it is shorter than its least length, and where it is longer than its
/// greatest.
#[verifier::rlimit(40)]
pub proof fn law_arrays_are_held_to_their_lengths(
    ctx: TsContext,
    array_expr: Seq<char>,
    path_expr: Seq<char>,
    schema: Schema,
    indent: Seq<char>,
    depth: u64,
    serialize: bool,
)
    ensures
        ({
            let checks = crate::json_schema::checks::array_checks(
                ctx,
                array_expr,
                path_expr,
                schema,
                indent,
                depth,
                serialize,
            );
            &&& schema.min_items matches Some(least) ==> crate::json_schema::annotation::has_part(
                checks,
                indent + "if ("@ + array_expr + ".length < "@ + crate::json_schema::ts_text::count_of(least)
                    + ") {\n"@ + indent + "  violations.push({ path: "@ + path_expr
                    + ", reason: `must have at least "@ + crate::json_schema::ts_text::count_of(least),
            )
            &&& schema.max_items matches Some(most) ==> crate::json_schema::annotation::has_part(
                checks,
                indent + "if ("@ + array_expr + ".length > "@ + crate::json_schema::ts_text::count_of(most)
                    + ") {\n"@ + indent + "  violations.push({ path: "@ + path_expr
                    + ", reason: `must have at most "@ + crate::json_schema::ts_text::count_of(most),
            )
        }),
{
    match schema.min_items {
        Some(least) => {
            let count = crate::json_schema::ts_text::count_of(least);
            crate::json_schema::sides::lemma_part_stays(
                indent + "if ("@ + array_expr + ".length < "@ + count + ") {\n"@ + indent
                    + "  violations.push({ path: "@ + path_expr
                    + ", reason: `must have at least "@ + count,
            );
        },
        None => {},
    }
    match schema.max_items {
        Some(most) => {
            let count = crate::json_schema::ts_text::count_of(most);
            crate::json_schema::sides::lemma_part_stays(
                indent + "if ("@ + array_expr + ".length > "@ + count + ") {\n"@ + indent
                    + "  violations.push({ path: "@ + path_expr
                    + ", reason: `must have at most "@ + count,
            );
        },
        None => {},
    }
}

/// An array of unique elements is reported at an element that was seen before, and every other
/// element is remembered with its place.
#[verifier::rlimit(40)]
pub proof fn law_elements_seen_before_are_reported(
    ctx: TsContext,
    values_expr: Seq<char>,
    path_expr: Seq<char>,
    schema: Schema,
    suffix: Seq<char>,
    indent: Seq<char>,
)
    requires
        schema.unique_items == Some(true),
    ensures
        ({
            let checks = crate::json_schema::checks::array_values(
                ctx,
                values_expr,
                path_expr,
                schema,
                suffix,
                indent,
            );
            let element = "element"@ + suffix;
            &&& crate::json_schema::annotation::has_part(
                checks,
                "    if (seen.has("@ + element + ")) {\n"@ + indent
                    + "      violations.push({ path: "@ + path_expr,
            )
            &&& crate::json_schema::annotation::has_part(
                checks,
                "    } else {\n"@ + indent + "      seen.set("@ + element + ", "@ + "index"@
                    + suffix + ");\n"@,
            )
        }),
{
    let element = "element"@ + suffix;
    let index = "index"@ + suffix;
    let found = "    if (seen.has("@ + element + ")) {\n"@ + indent
        + "      violations.push({ path: "@ + path_expr;
    let kept = "    } else {\n"@ + indent + "      seen.set("@ + element + ", "@ + "index"@ + suffix
        + ");\n"@;
    let text = crate::json_schema::checks::unique_text(values_expr, path_expr, element, index, indent);
    let before = indent + "{\n"@ + indent + "  const seen = new Map<unknown, number>();\n"@ + indent
        + "  "@ + values_expr + ".forEach(("@ + element + ", "@ + index + ") => {\n"@ + indent;
    let between = ", reason: `duplicate items: element at index ${"@ + index
        + "} equals index ${seen.get("@ + element + ")}` });\n"@ + indent;
    let after = indent + "    }\n"@ + indent + "  });\n"@ + indent + "}\n"@;
    assert(text =~= before + found + (between + kept + after));
    assert(text =~= (before + found + between) + kept + after);
    crate::json_schema::sides::lemma_part_of(before, found, between + kept + after);
    crate::json_schema::sides::lemma_part_of(before + found + between, kept, after);
    assert(crate::json_schema::annotation::has_part(text, found));
    assert(crate::json_schema::annotation::has_part(text, kept));
    crate::json_schema::sides::lemma_part_stays(found);
    crate::json_schema::sides::lemma_part_stays(kept);
}

/// An array that must contain something is reported where too few elements match, at least one
/// unless another number is given, and where too many do.
#[verifier::rlimit(40)]
pub proof fn law_matches_are_counted(
    ctx: TsContext,
    schema: Schema,
    matcher: Schema,
    values_expr: Seq<char>,
    path_expr: Seq<char>,
    suffix: Seq<char>,
    indent: Seq<char>,
)
    ensures
        ({
            let checks = crate::json_schema::checks::contains_text_of(
                ctx,
                schema,
                matcher,
                values_expr,
                path_expr,
                suffix,
                indent,
            );
            let inner = indent + "  "@;
            &&& schema.min_contains matches Some(least) ==> least > 0 ==> crate::json_schema::annotation::has_part(
                checks,
                inner + "if (matchCount"@ + suffix + " < "@ + crate::json_schema::ts_text::count_of(least)
                    + ") {\n"@ + inner + "  violations.push({ path: "@ + path_expr,
            )
            &&& schema.min_contains is None ==> crate::json_schema::annotation::has_part(
                checks,
                inner + "if (matchCount"@ + suffix + " < 1) {\n"@ + inner
                    + "  violations.push({ path: "@ + path_expr,
            )
            &&& schema.max_contains matches Some(most) ==> crate::json_schema::annotation::has_part(
                checks,
                inner + "if (matchCount"@ + suffix + " > "@ + crate::json_schema::ts_text::count_of(most)
                    + ") {\n"@ + inner + "  violations.push({ path: "@ + path_expr,
            )
            &&& crate::json_schema::annotation::has_part(
                checks,
                indent + "{\n"@ + inner + "const matchCount"@ + suffix + " = "@ + values_expr
                    + ".filter(("@ + ("element"@ + suffix) + ") => "@
                    + crate::json_schema::checks::matcher_condition(
                    ctx,
                    matcher,
                    "element"@ + suffix,
                    crate::json_schema::checks::element_type_of(schema),
                ) + ").length;\n"@,
            )
        }),
{
    let inner = indent + "  "@;
    crate::json_schema::sides::lemma_part_stays(
        indent + "{\n"@ + inner + "const matchCount"@ + suffix + " = "@ + values_expr + ".filter(("@
            + ("element"@ + suffix) + ") => "@ + crate::json_schema::checks::matcher_condition(
            ctx,
            matcher,
            "element"@ + suffix,
            crate::json_schema::checks::element_type_of(schema),
        ) + ").length;\n"@,
    );
    match schema.min_contains {
        Some(least) => {
            crate::json_schema::sides::lemma_part_stays(
                inner + "if (matchCount"@ + suffix + " < "@ + crate::json_schema::ts_text::count_of(least) + ") {\n"@
                    + inner + "  violations.push({ path: "@ + path_expr,
            );
        },
        None => {
            crate::json_schema::sides::lemma_part_stays(
                inner + "if (matchCount"@ + suffix + " < 1) {\n"@ + inner
                    + "  violations.push({ path: "@ + path_expr,
            );
        },
    }
    match schema.max_contains {
        Some(most) => {
            crate::json_schema::sides::lemma_part_stays(
                inner + "if (matchCount"@ + suffix + " > "@ + crate::json_schema::ts_text::count_of(most) + ") {\n"@
                    + inner + "  violations.push({ path: "@ + path_expr,
            );
        },
        None => {},
    }
}

/// A value is none of some literals where it differs from each of them.
pub proof fn law_closed_values_differ_from_each(literals: Seq<Seq<char>>, value_expr: Seq<char>, i: int)
    requires
        0 <= i < literals.len(),
    ensures
        crate::json_schema::checks::unequal_texts(literals, value_expr).len() == literals.len(),
        crate::json_schema::checks::unequal_texts(literals, value_expr)[i] == value_expr + " !== "@ + literals[i],
    decreases literals.len(),
{
    lemma_unequal_len(literals, value_expr);
    if i < literals.len() - 1 {
        law_closed_values_differ_from_each(literals.drop_last(), value_expr, i);
        lemma_unequal_len(literals.drop_last(), value_expr);
    } else {
        lemma_unequal_len(literals.drop_last(), value_expr);
    }
}

/// There is one condition for each literal.
proof fn lemma_unequal_len(literals: Seq<Seq<char>>, value_expr: Seq<char>)
    ensures
        crate::json_schema::checks::unequal_texts(literals, value_expr).len() == literals.len(),
    decreases literals.len(),
{
    if literals.len() > 0 {
        lemma_unequal_len(literals.drop_last(), value_expr);
    }
}

/// A value outside of its constant or of its listed values is reported: all the conditions that it
/// differs from one of them hold together.
pub proof fn law_closed_values_are_reported(
    schema: Schema,
    value_expr: Seq<char>,
    path_expr: Seq<char>,
    indent: Seq<char>,
)
    ensures
        ({
            let checks = crate::json_schema::checks::schema_closed_check(schema, value_expr, path_expr, indent);
            &&& schema.const_value matches Some(value) ==> reports(
                checks,
                indent,
                value_expr + " !== "@ + crate::json_schema::ts_text::value_literal(value),
                path_expr,
                "must equal "@ + crate::json_schema::ts_text::value_literal(value),
            )
            &&& schema.const_value is None ==> (schema.enum_values matches Some(values) ==> reports(
                checks,
                indent,
                crate::text::join(
                    crate::json_schema::checks::unequal_texts(crate::json_schema::ts_text::value_literals(values@), value_expr),
                    " && "@,
                ),
                path_expr,
                "must be one of ["@ + crate::text::join(crate::json_schema::ts_text::value_literals(values@), ", "@),
            ))
            &&& schema.const_value is None && schema.enum_values is None ==> checks.len() == 0
        }),
{
    match schema.const_value {
        Some(value) => {
            let literal = crate::json_schema::ts_text::value_literal(value);
            let rest = ", got ${JSON.stringify("@ + value_expr + ")}"@;
            lemma_lone_condition(literal, value_expr);
            lemma_check_reports(
                indent,
                value_expr + " !== "@ + literal,
                path_expr,
                "must equal "@ + literal,
                rest,
            );
            assert("must equal "@ + literal + rest =~= crate::json_schema::checks::const_reason(literal, value_expr));
        },
        None => match schema.enum_values {
            Some(values) => {
                let literals = crate::json_schema::ts_text::value_literals(values@);
                let all = crate::text::join(literals, ", "@);
                let rest = "], got ${JSON.stringify("@ + value_expr + ")}"@;
                lemma_check_reports(
                    indent,
                    crate::text::join(crate::json_schema::checks::unequal_texts(literals, value_expr), " && "@),
                    path_expr,
                    "must be one of ["@ + all,
                    rest,
                );
                assert("must be one of ["@ + all + rest =~= "must be one of ["@ + all
                    + "], got ${JSON.stringify("@ + value_expr + ")}"@);
            },
            None => {},
        },
    }
}

/// The condition of a single literal.
proof fn lemma_lone_condition(literal: Seq<char>, value_expr: Seq<char>)
    ensures
        crate::text::join(crate::json_schema::checks::unequal_texts(seq![literal], value_expr), " && "@) == value_expr
            + " !== "@ + literal,
{
    let one = seq![literal];
    assert(one.drop_last() =~= Seq::empty());
    assert(crate::json_schema::checks::unequal_texts(one.drop_last(), value_expr) =~= Seq::empty());
    assert(crate::json_schema::checks::unequal_texts(one, value_expr) =~= seq![value_expr + " !== "@ + literal]);
}

/// An element matches where every condition holds, and each constraint of the matcher is the
/// condition that a check of a value reports the opposite of.
pub proof fn law_elements_match_by_their_constraints(
    ctx: TsContext,
    schema: Schema,
    elem: Seq<char>,
    whole: bool,
)
    ensures
        ({
            let matcher = crate::json_schema::scalar::matcher_of(&schema);
            let numbers = crate::json_schema::checks::number_texts(matcher, elem, whole);
            let strings = crate::json_schema::checks::string_texts(ctx, matcher, elem);
            let values = crate::json_schema::checks::value_texts(matcher, elem, whole);
            &&& schema.minimum matches Some(bound) ==> numbers.contains(
                elem + " "@ + ">="@ + " "@ + crate::json_schema::ts_text::bound_literal(bound, whole),
            )
            &&& schema.maximum matches Some(bound) ==> numbers.contains(
                elem + " "@ + "<="@ + " "@ + crate::json_schema::ts_text::bound_literal(bound, whole),
            )
            &&& schema.exclusive_minimum matches Some(bound) ==> numbers.contains(
                elem + " "@ + ">"@ + " "@ + crate::json_schema::ts_text::bound_literal(bound, whole),
            )
            &&& schema.exclusive_maximum matches Some(bound) ==> numbers.contains(
                elem + " "@ + "<"@ + " "@ + crate::json_schema::ts_text::bound_literal(bound, whole),
            )
            &&& schema.multiple_of matches Some(divisor) ==> numbers.contains(
                elem + " % "@ + crate::json_schema::ts_text::bound_literal(divisor, whole) + " === 0"@,
            )
            &&& schema.min_length matches Some(least) ==> least > 0 ==> strings.contains(
                "__nexgenDefinitions.codePointLength"@ + "("@ + elem + ", "@
                    + crate::json_schema::ts_text::count_of(least) + ") >= "@ + crate::json_schema::ts_text::count_of(least),
            )
            &&& schema.max_length matches Some(most) ==> strings.contains(
                "__nexgenDefinitions.codePointLength"@ + "("@ + elem + ", "@
                    + crate::json_schema::ts_text::count_of(most) + ") <= "@ + crate::json_schema::ts_text::count_of(most),
            )
            &&& schema.pattern matches Some(pattern) ==> strings.contains(
                crate::json_schema::ts_text::pattern_const(pattern@) + ".test("@ + elem + ")"@,
            )
            &&& schema.const_value matches Some(value) ==> values.contains(
                elem + " === "@ + crate::json_schema::ts_text::scalar_literal(value, whole),
            )
        }),
{
    let matcher = crate::json_schema::scalar::matcher_of(&schema);
    let minimum = crate::json_schema::checks::bound_texts(matcher.minimum, elem, ">="@, whole);
    let maximum = crate::json_schema::checks::bound_texts(matcher.maximum, elem, "<="@, whole);
    let above = crate::json_schema::checks::bound_texts(matcher.exclusive_minimum, elem, ">"@, whole);
    let below = crate::json_schema::checks::bound_texts(matcher.exclusive_maximum, elem, "<"@, whole);
    let numbers = crate::json_schema::checks::number_texts(matcher, elem, whole);
    let bounds = minimum + maximum + above + below;
    match schema.minimum {
        Some(bound) => {
            assert(numbers[0] == minimum[0]);
        },
        None => {},
    }
    match schema.maximum {
        Some(bound) => {
            assert(numbers[minimum.len() as int] == maximum[0]);
        },
        None => {},
    }
    match schema.exclusive_minimum {
        Some(bound) => {
            assert(numbers[(minimum + maximum).len() as int] == above[0]);
        },
        None => {},
    }
    match schema.exclusive_maximum {
        Some(bound) => {
            assert(numbers[(minimum + maximum + above).len() as int] == below[0]);
        },
        None => {},
    }
    match schema.multiple_of {
        Some(divisor) => {
            assert(numbers[bounds.len() as int] == elem + " % "@ + crate::json_schema::ts_text::bound_literal(
                divisor,
                whole,
            ) + " === 0"@);
        },
        None => {},
    }
    lemma_string_conditions(ctx, schema, elem);
    match schema.const_value {
        Some(value) => {
            assert(crate::json_schema::checks::value_texts(matcher, elem, whole)[0] == elem + " === "@
                + crate::json_schema::ts_text::scalar_literal(value, whole));
        },
        None => {},
    }
}

/// The conditions on a string that is matched.
proof fn lemma_string_conditions(ctx: TsContext, schema: Schema, elem: Seq<char>)
    ensures
        ({
            let strings = crate::json_schema::checks::string_texts(ctx, crate::json_schema::scalar::matcher_of(&schema), elem);
            &&& schema.min_length matches Some(least) ==> least > 0 ==> strings.contains(
                "__nexgenDefinitions.codePointLength"@ + "("@ + elem + ", "@
                    + crate::json_schema::ts_text::count_of(least) + ") >= "@ + crate::json_schema::ts_text::count_of(least),
            )
            &&& schema.max_length matches Some(most) ==> strings.contains(
                "__nexgenDefinitions.codePointLength"@ + "("@ + elem + ", "@
                    + crate::json_schema::ts_text::count_of(most) + ") <= "@ + crate::json_schema::ts_text::count_of(most),
            )
            &&& schema.pattern matches Some(pattern) ==> strings.contains(
                crate::json_schema::ts_text::pattern_const(pattern@) + ".test("@ + elem + ")"@,
            )
        }),
{
    let matcher = crate::json_schema::scalar::matcher_of(&schema);
    let strings = crate::json_schema::checks::string_texts(ctx, matcher, elem);
    let first: int = if crate::json_schema::checks::matcher_least_length(matcher) is Some {
        1
    } else {
        0
    };
    let second: int = if schema.max_length is Some {
        1
    } else {
        0
    };
    match schema.min_length {
        Some(least) => {
            if least > 0 {
                assert(strings[0] == "__nexgenDefinitions.codePointLength"@ + "("@ + elem + ", "@
                    + crate::json_schema::ts_text::count_of(least) + ") >= "@ + crate::json_schema::ts_text::count_of(least));
            }
        },
        None => {},
    }
    match schema.max_length {
        Some(most) => {
            assert(strings[first] == "__nexgenDefinitions.codePointLength"@ + "("@ + elem + ", "@
                + crate::json_schema::ts_text::count_of(most) + ") <= "@ + crate::json_schema::ts_text::count_of(most));
        },
        None => {},
    }
    match schema.pattern {
        Some(pattern) => {
            assert(strings[first + second] == crate::json_schema::ts_text::pattern_const(pattern@) + ".test("@ + elem
                + ")"@);
        },
        None => {},
    }
}

/// All the conditions of a matcher hold together; a matcher without any matches everything.
pub proof fn law_matchers_ask_for_all_of_their_conditions(
    ctx: TsContext,
    schema: Schema,
    elem: Seq<char>,
    element_ty: Option<Seq<char>>,
)
    ensures
        ({
            let matcher = crate::json_schema::scalar::matcher_of(&schema);
            let whole = crate::json_schema::checks::integer_matched(matcher, element_ty);
            let parts = crate::json_schema::checks::kind_texts(crate::json_schema::checks::matched_kind(matcher, element_ty), elem)
                + crate::json_schema::checks::value_texts(matcher, elem, whole) + crate::json_schema::checks::number_texts(
                matcher,
                elem,
                whole,
            ) + crate::json_schema::checks::string_texts(ctx, matcher, elem);
            crate::json_schema::checks::matcher_condition(ctx, schema, elem, element_ty) == if parts.len() == 0 {
                "true"@
            } else {
                crate::text::join(parts, " && "@)
            }
        }),
{
}

/// The kind of a matched element is told by `typeof`, and a number is finite, an integer safe.
pub proof fn law_matched_kinds_are_told_apart(elem: Seq<char>)
    ensures
        crate::json_schema::checks::kind_texts(Some(crate::json_schema::scalar::ScalarKind::String), elem)
            == seq!["typeof "@ + elem + " === 'string'"@],
        crate::json_schema::checks::kind_texts(Some(crate::json_schema::scalar::ScalarKind::Boolean), elem)
            == seq!["typeof "@ + elem + " === 'boolean'"@],
        crate::json_schema::checks::kind_texts(Some(crate::json_schema::scalar::ScalarKind::Number), elem)
            == seq!["typeof "@ + elem + " === 'number' && Number.isFinite("@ + elem + ")"@],
        crate::json_schema::checks::kind_texts(Some(crate::json_schema::scalar::ScalarKind::Integer), elem)
            == seq!["typeof "@ + elem + " === 'number' && Number.isSafeInteger("@ + elem + ")"@],
{
}

/// The kind of a scalar is told by the name of its type.
pub proof fn law_kinds_are_told_by_their_names(name: Seq<char>)
    ensures
        crate::json_schema::scalar::scalar_kind(name) == Some(crate::json_schema::scalar::ScalarKind::String)
            <==> name == "string"@,
        crate::json_schema::scalar::scalar_kind(name) == Some(crate::json_schema::scalar::ScalarKind::Number)
            <==> name == "number"@,
        crate::json_schema::scalar::scalar_kind(name) == Some(crate::json_schema::scalar::ScalarKind::Integer)
            <==> name == "integer"@,
        crate::json_schema::scalar::scalar_kind(name) == Some(crate::json_schema::scalar::ScalarKind::Boolean)
            <==> name == "boolean"@,
{
    crate::json_schema::intake::lemma_type_names_differ();
}

/// The name of a member is reported where it is too short, too long or does not match.
#[verifier::rlimit(40)]
pub proof fn law_names_are_held_to_their_constraints(
    ctx: TsContext,
    schema: Schema,
    inner: Seq<char>,
)
    ensures
        ({
            let checks = crate::json_schema::checks::property_name_checks(
                ctx,
                crate::json_schema::scalar::matcher_of(&schema),
                inner,
            );
            let counted = "__nexgenDefinitions.codePointLength"@ + "(key, "@;
            &&& schema.min_length matches Some(least) ==> least > 0 ==> crate::json_schema::annotation::has_part(
                checks,
                inner + "if ("@ + (counted + crate::json_schema::ts_text::count_of(least) + ")"@ + " < "@
                    + crate::json_schema::ts_text::count_of(least)) + ") {\n"@,
            )
            &&& schema.max_length matches Some(most) ==> crate::json_schema::annotation::has_part(
                checks,
                inner + "if ("@ + (counted + crate::json_schema::ts_text::count_of(most) + ") > "@
                    + crate::json_schema::ts_text::count_of(most)) + ") {\n"@,
            )
            &&& schema.pattern matches Some(pattern) ==> crate::json_schema::annotation::has_part(
                checks,
                inner + "if ("@ + ("!"@ + crate::json_schema::ts_text::pattern_const(pattern@) + ".test(key)"@)
                    + ") {\n"@,
            )
            &&& schema.enum_values matches Some(values) ==> values@.len() > 0
                ==> crate::json_schema::annotation::has_part(
                checks,
                inner + "if ("@ + crate::text::join(
                    crate::json_schema::checks::unequal_texts(crate::json_schema::ts_text::value_literals(values@), "key"@),
                    " && "@,
                ) + ") {\n"@,
            )
        }),
{
    let counted = "__nexgenDefinitions.codePointLength"@ + "(key, "@;
    match schema.min_length {
        Some(least) => {
            crate::json_schema::sides::lemma_part_stays(
                inner + "if ("@ + (counted + crate::json_schema::ts_text::count_of(least) + ")"@ + " < "@
                    + crate::json_schema::ts_text::count_of(least)) + ") {\n"@,
            );
        },
        None => {},
    }
    match schema.max_length {
        Some(most) => {
            crate::json_schema::sides::lemma_part_stays(
                inner + "if ("@ + (counted + crate::json_schema::ts_text::count_of(most) + ") > "@
                    + crate::json_schema::ts_text::count_of(most)) + ") {\n"@,
            );
        },
        None => {},
    }
    match schema.pattern {
        Some(pattern) => {
            crate::json_schema::sides::lemma_part_stays(
                inner + "if ("@ + ("!"@ + crate::json_schema::ts_text::pattern_const(pattern@) + ".test(key)"@)
                    + ") {\n"@,
            );
        },
        None => {},
    }
    match schema.enum_values {
        Some(values) => {
            crate::json_schema::sides::lemma_part_stays(
                inner + "if ("@ + crate::text::join(
                    crate::json_schema::checks::unequal_texts(crate::json_schema::ts_text::value_literals(values@), "key"@),
                    " && "@,
                ) + ") {\n"@,
            );
        },
        None => {},
    }
}

/// Every member that another one requires is asked for: where the other is there and it is not, its
/// absence is reported at its own path.
#[verifier::rlimit(40)]
pub proof fn law_dependent_members_are_asked_for(
    dependents: Seq<crate::json_schema::schema::DependentRequired>,
    obj_expr: Seq<char>,
    indent: Seq<char>,
    i: int,
    k: int,
)
    requires
        0 <= i < dependents.len(),
        0 <= k < dependents[i].required@.len(),
    ensures
        crate::json_schema::annotation::has_part(
            crate::json_schema::checks::dependent_texts(dependents, obj_expr, indent),
            indent + "if ("@ + crate::json_schema::ts_text::has_own_text(obj_expr, dependents[i].name@) + ") {\n"@
                + crate::json_schema::checks::dependency_texts(
                crate::text::texts(dependents[i].required@),
                dependents[i].name@,
                obj_expr,
                indent,
            ),
        ),
        crate::json_schema::annotation::has_part(
            crate::json_schema::checks::dependency_texts(
                crate::text::texts(dependents[i].required@),
                dependents[i].name@,
                obj_expr,
                indent,
            ),
            indent + "  if (!"@ + crate::json_schema::ts_text::has_own_text(obj_expr, dependents[i].required@[k]@)
                + ") {\n"@ + indent + "    violations.push({ path: "@ + crate::json_schema::ts_text::string_literal(
                dependents[i].required@[k]@,
            ),
        ),
    decreases dependents.len(),
{
    let part = indent + "if ("@ + crate::json_schema::ts_text::has_own_text(obj_expr, dependents[i].name@) + ") {\n"@
        + crate::json_schema::checks::dependency_texts(
        crate::text::texts(dependents[i].required@),
        dependents[i].name@,
        obj_expr,
        indent,
    );
    lemma_dependency_stands(crate::text::texts(dependents[i].required@), dependents[i].name@, obj_expr, indent, k);
    if i < dependents.len() - 1 {
        law_dependent_members_are_asked_for(dependents.drop_last(), obj_expr, indent, i, k);
        assert(dependents.drop_last()[i] == dependents[i]);
        crate::json_schema::sides::lemma_part_stays(part);
    } else {
        crate::json_schema::sides::lemma_part_stays(part);
    }
}

/// The absence of a member that another one requires is reported.
proof fn lemma_dependency_stands(
    required: Seq<Seq<char>>,
    name: Seq<char>,
    obj_expr: Seq<char>,
    indent: Seq<char>,
    k: int,
)
    requires
        0 <= k < required.len(),
    ensures
        crate::json_schema::annotation::has_part(
            crate::json_schema::checks::dependency_texts(required, name, obj_expr, indent),
            indent + "  if (!"@ + crate::json_schema::ts_text::has_own_text(obj_expr, required[k]) + ") {\n"@ + indent
                + "    violations.push({ path: "@ + crate::json_schema::ts_text::string_literal(required[k]),
        ),
    decreases required.len(),
{
    let part = indent + "  if (!"@ + crate::json_schema::ts_text::has_own_text(obj_expr, required[k]) + ") {\n"@
        + indent + "    violations.push({ path: "@ + crate::json_schema::ts_text::string_literal(required[k]);
    if k < required.len() - 1 {
        lemma_dependency_stands(required.drop_last(), name, obj_expr, indent, k);
        assert(required.drop_last()[k] == required[k]);
    }
    crate::json_schema::sides::lemma_part_stays(part);
}

} // verus!
