//! What generated code takes in: a value is refused where it is not of the type that its schema
//! asks for, and is else assigned as it stands, or as its converter reads it.

use vstd::prelude::*;

use crate::json_schema::schema::{Encoding, Schema, TemporalKind};
use crate::json_schema::ts_text::TsContext;
use crate::json_schema::value::JsonValue;

verus! {

/// Whether a text refuses a value where a condition holds, as one that was expected to be something
/// else, and goes on with the other values.
pub open spec fn refuses(
    text: Seq<char>,
    condition: Seq<char>,
    path_expr: Seq<char>,
    expected: Seq<char>,
    indent: Seq<char>,
) -> bool {
    crate::json_schema::annotation::has_part(
        text,
        "if ("@ + condition + ") {\n"@ + indent + "  violations.push({ path: "@ + path_expr
            + ", reason: 'expected "@ + expected + "' });\n"@ + indent + "} else {\n"@,
    )
}

/// Whether a text assigns a value to a target.
pub open spec fn assigns(text: Seq<char>, target: Seq<char>, value: Seq<char>) -> bool {
    crate::json_schema::annotation::has_part(text, target + " = "@ + value + ";\n"@)
}

/// Whether a schema asks for a value by its type alone.
pub open spec fn asks_for_a_type(schema: Schema) -> bool {
    &&& crate::json_schema::sides::is_plain(schema)
    &&& schema.const_value is None
    &&& schema.enum_values is None
}

/// The names of the types differ.
pub proof fn lemma_type_names_differ()
    ensures
        "string"@ != "number"@,
        "string"@ != "boolean"@,
        "string"@ != "integer"@,
        "string"@ != "array"@,
        "string"@ != "object"@,
        "string"@ != "null"@,
        "number"@ != "boolean"@,
        "number"@ != "integer"@,
        "number"@ != "array"@,
        "number"@ != "object"@,
        "number"@ != "null"@,
        "boolean"@ != "integer"@,
        "boolean"@ != "array"@,
        "boolean"@ != "object"@,
        "boolean"@ != "null"@,
        "integer"@ != "array"@,
        "integer"@ != "object"@,
        "integer"@ != "null"@,
        "array"@ != "object"@,
        "array"@ != "null"@,
        "object"@ != "null"@,
{
    reveal_strlit("string");
    reveal_strlit("number");
    reveal_strlit("boolean");
    reveal_strlit("integer");
    reveal_strlit("array");
    reveal_strlit("object");
    reveal_strlit("null");
    assert("string"@[0] == 's');
    assert("number"@[0] == 'n' && "number"@.len() == 6);
    assert("boolean"@[0] == 'b');
    assert("integer"@[0] == 'i');
    assert("array"@[0] == 'a');
    assert("object"@[0] == 'o');
    assert("null"@[0] == 'n' && "null"@.len() == 4);
}

/// What a refusal by a type is made of.
proof fn lemma_refused_by_type(
    text: Seq<char>,
    raw_expr: Seq<char>,
    ty: Seq<char>,
    path_expr: Seq<char>,
    indent: Seq<char>,
    rest: Seq<char>,
)
    requires
        text == indent + "if (typeof "@ + raw_expr + " !== '"@ + ty + "') {\n"@ + indent
            + "  violations.push({ path: "@ + path_expr + ", reason: 'expected "@ + ty
            + "' });\n"@ + indent + "} else {\n"@ + rest,
    ensures
        refuses(text, "typeof "@ + raw_expr + " !== '"@ + ty + "'"@, path_expr, ty, indent),
{
    reveal_strlit("if (typeof ");
    reveal_strlit("if (");
    reveal_strlit("typeof ");
    reveal_strlit("') {\n");
    reveal_strlit("'");
    reveal_strlit(") {\n");
    assert("if (typeof "@ =~= "if ("@ + "typeof "@);
    assert("') {\n"@ =~= "'"@ + ") {\n"@);
    let condition = "typeof "@ + raw_expr + " !== '"@ + ty + "'"@;
    let part = "if ("@ + condition + ") {\n"@ + indent + "  violations.push({ path: "@ + path_expr
        + ", reason: 'expected "@ + ty + "' });\n"@ + indent + "} else {\n"@;
    assert("if (typeof "@ + raw_expr + " !== '"@ + ty + "') {\n"@ =~= "if ("@ + condition
        + ") {\n"@);
    assert(text =~= indent + part + rest);
    crate::json_schema::sides::lemma_part_of(indent, part, rest);
}

/// The wording of the refusal of what is not a string.
proof fn lemma_string_wording(
    raw_expr: Seq<char>,
    target: Seq<char>,
    path_expr: Seq<char>,
    indent: Seq<char>,
    checks: Seq<char>,
    text: Seq<char>,
)
    requires
        text == indent + "if (typeof "@ + raw_expr + " !== 'string') {\n"@ + indent
            + "  violations.push({ path: "@ + path_expr + ", reason: 'expected string' });\n"@
            + indent + "} else {\n"@ + indent + "  "@ + target + " = "@ + raw_expr + ";\n"@
            + checks + indent + "}\n"@,
    ensures
        text == indent + "if (typeof "@ + raw_expr + " !== '"@ + "string"@ + "') {\n"@ + indent
            + "  violations.push({ path: "@ + path_expr + ", reason: 'expected "@ + "string"@
            + "' });\n"@ + indent + "} else {\n"@ + indent + "  "@ + target + " = "@ + raw_expr
            + ";\n"@ + checks + indent + "}\n"@,
{
    reveal_strlit(" !== '");
    reveal_strlit("') {\n");
    reveal_strlit(", reason: 'expected ");
    reveal_strlit("' });\n");
    reveal_strlit("string");
    reveal_strlit(" !== 'string') {\n");
    reveal_strlit(", reason: 'expected string' });\n");
    assert(" !== 'string') {\n"@ =~= " !== '"@ + "string"@ + "') {\n"@);
    assert(", reason: 'expected string' });\n"@ =~= ", reason: 'expected "@ + "string"@
        + "' });\n"@);
    let a = indent + "if (typeof "@ + raw_expr;
    assert(a + " !== 'string') {\n"@ =~= a + " !== '"@ + "string"@ + "') {\n"@);
    let b = a + " !== 'string') {\n"@ + indent + "  violations.push({ path: "@ + path_expr;
    assert(b + ", reason: 'expected string' });\n"@ =~= b + ", reason: 'expected "@ + "string"@
        + "' });\n"@);
}

/// The wording of the refusal of what is not a number.
proof fn lemma_number_wording(
    raw_expr: Seq<char>,
    target: Seq<char>,
    path_expr: Seq<char>,
    indent: Seq<char>,
    checks: Seq<char>,
    text: Seq<char>,
)
    requires
        text == indent + "if (typeof "@ + raw_expr + " !== 'number') {\n"@ + indent
            + "  violations.push({ path: "@ + path_expr + ", reason: 'expected number' });\n"@
            + indent + "} else {\n"@ + indent + "  "@ + target + " = "@ + raw_expr + ";\n"@
            + checks + indent + "}\n"@,
    ensures
        text == indent + "if (typeof "@ + raw_expr + " !== '"@ + "number"@ + "') {\n"@ + indent
            + "  violations.push({ path: "@ + path_expr + ", reason: 'expected "@ + "number"@
            + "' });\n"@ + indent + "} else {\n"@ + indent + "  "@ + target + " = "@ + raw_expr
            + ";\n"@ + checks + indent + "}\n"@,
{
    reveal_strlit(" !== '");
    reveal_strlit("') {\n");
    reveal_strlit(", reason: 'expected ");
    reveal_strlit("' });\n");
    reveal_strlit("number");
    reveal_strlit(" !== 'number') {\n");
    reveal_strlit(", reason: 'expected number' });\n");
    assert(" !== 'number') {\n"@ =~= " !== '"@ + "number"@ + "') {\n"@);
    assert(", reason: 'expected number' });\n"@ =~= ", reason: 'expected "@ + "number"@
        + "' });\n"@);
    let a = indent + "if (typeof "@ + raw_expr;
    assert(a + " !== 'number') {\n"@ =~= a + " !== '"@ + "number"@ + "') {\n"@);
    let b = a + " !== 'number') {\n"@ + indent + "  violations.push({ path: "@ + path_expr;
    assert(b + ", reason: 'expected number' });\n"@ =~= b + ", reason: 'expected "@ + "number"@
        + "' });\n"@);
}

/// Nothing but the type is checked.
proof fn lemma_nothing_checked(
    raw_expr: Seq<char>,
    target: Seq<char>,
    path_expr: Seq<char>,
    indent: Seq<char>,
    ty: Seq<char>,
    text: Seq<char>,
)
    requires
        text == indent + "if (typeof "@ + raw_expr + " !== '"@ + ty + "') {\n"@ + indent
            + "  violations.push({ path: "@ + path_expr + ", reason: 'expected "@ + ty + "' });\n"@
            + indent + "} else {\n"@ + indent + "  "@ + target + " = "@ + raw_expr + ";\n"@
            + indent + "}\n"@,
    ensures
        text == indent + "if (typeof "@ + raw_expr + " !== '"@ + ty + "') {\n"@ + indent
            + "  violations.push({ path: "@ + path_expr + ", reason: 'expected "@ + ty + "' });\n"@
            + indent + "} else {\n"@ + indent + "  "@ + target + " = "@ + raw_expr + ";\n"@
            + Seq::<char>::empty() + indent + "}\n"@,
{
    let a = indent + "if (typeof "@ + raw_expr + " !== '"@ + ty + "') {\n"@ + indent
        + "  violations.push({ path: "@ + path_expr + ", reason: 'expected "@ + ty + "' });\n"@
        + indent + "} else {\n"@ + indent + "  "@ + target + " = "@ + raw_expr + ";\n"@;
    assert(a + Seq::<char>::empty() =~= a);
}

/// What the intake of a scalar is made of.
proof fn lemma_scalar_text(
    raw_expr: Seq<char>,
    target: Seq<char>,
    path_expr: Seq<char>,
    indent: Seq<char>,
    ty: Seq<char>,
    checks: Seq<char>,
    text: Seq<char>,
)
    requires
        text == indent + "if (typeof "@ + raw_expr + " !== '"@ + ty + "') {\n"@ + indent
            + "  violations.push({ path: "@ + path_expr + ", reason: 'expected "@ + ty + "' });\n"@
            + indent + "} else {\n"@ + indent + "  "@ + target + " = "@ + raw_expr + ";\n"@
            + checks + indent + "}\n"@,
    ensures
        refuses(text, "typeof "@ + raw_expr + " !== '"@ + ty + "'"@, path_expr, ty, indent),
        assigns(text, target, raw_expr),
{
    let before = indent + "if (typeof "@ + raw_expr + " !== '"@ + ty + "') {\n"@ + indent
        + "  violations.push({ path: "@ + path_expr + ", reason: 'expected "@ + ty + "' });\n"@
        + indent + "} else {\n"@;
    let assigned = target + " = "@ + raw_expr + ";\n"@;
    let rest = indent + "  "@ + assigned + checks + indent + "}\n"@;
    assert(text =~= before + rest);
    lemma_refused_by_type(text, raw_expr, ty, path_expr, indent, rest);
    assert(text =~= (before + indent + "  "@) + assigned + (checks + indent + "}\n"@));
    crate::json_schema::sides::lemma_part_of(before + indent + "  "@, assigned, checks + indent + "}\n"@);
}

/// A string, a number and a boolean are told by `typeof`, and assigned as they stand.
pub proof fn law_scalars_are_told_by_their_type(
    ctx: TsContext,
    schema: Schema,
    raw_expr: Seq<char>,
    target: Seq<char>,
    path_expr: Seq<char>,
    indent: Seq<char>,
    depth: u64,
    follow: u128,
    ty: Seq<char>,
)
    requires
        asks_for_a_type(schema),
        crate::json_schema::schema::has_type(schema, ty),
        ty == "string"@ || ty == "number"@ || ty == "boolean"@,
    ensures
        ({
            let text = crate::json_schema::parse::value_parser(
                ctx,
                schema,
                raw_expr,
                target,
                path_expr,
                indent,
                depth,
                follow,
            );
            &&& refuses(text, "typeof "@ + raw_expr + " !== '"@ + ty + "'"@, path_expr, ty, indent)
            &&& assigns(text, target, raw_expr)
        }),
{
    lemma_type_names_differ();
    let text = crate::json_schema::parse::value_parser(
        ctx,
        schema,
        raw_expr,
        target,
        path_expr,
        indent,
        depth,
        follow,
    );
    let inner = indent + "  "@;
    if ty == "string"@ && crate::json_schema::schema::string_constraints(schema) {
        let checks = crate::json_schema::checks::string_checks(ctx, raw_expr, path_expr, schema, inner);
        assert(text == crate::json_schema::parse::string_parser(
            ctx,
            schema,
            raw_expr,
            target,
            path_expr,
            indent,
        ));
        lemma_string_wording(raw_expr, target, path_expr, indent, checks, text);
        lemma_scalar_text(raw_expr, target, path_expr, indent, ty, checks, text);
    } else if ty == "number"@ {
        let checks = crate::json_schema::checks::numeric_checks(raw_expr, path_expr, schema, inner, false);
        assert(text == crate::json_schema::parse::number_parser(schema, raw_expr, target, path_expr, indent));
        lemma_number_wording(raw_expr, target, path_expr, indent, checks, text);
        lemma_scalar_text(raw_expr, target, path_expr, indent, ty, checks, text);
    } else {
        assert(text == crate::json_schema::parse::typeof_parser(raw_expr, target, path_expr, indent, ty));
        lemma_nothing_checked(raw_expr, target, path_expr, indent, ty, text);
        lemma_scalar_text(raw_expr, target, path_expr, indent, ty, Seq::empty(), text);
    }
}

/// What the intake of an integer is made of.
proof fn lemma_integer_text(
    raw_expr: Seq<char>,
    target: Seq<char>,
    path_expr: Seq<char>,
    indent: Seq<char>,
    checks: Seq<char>,
    text: Seq<char>,
)
    requires
        text == indent + "if (typeof "@ + raw_expr + " !== 'number' || !Number.isSafeInteger("@
            + raw_expr + ")) {\n"@ + indent + "  violations.push({ path: "@ + path_expr
            + ", reason: 'expected integer' });\n"@ + indent + "} else {\n"@ + indent + "  "@
            + target + " = "@ + raw_expr + ";\n"@ + checks + indent + "}\n"@,
    ensures
        crate::json_schema::annotation::has_part(
            text,
            "if (typeof "@ + raw_expr + " !== 'number' || !Number.isSafeInteger("@ + raw_expr
                + ")) {\n"@ + indent + "  violations.push({ path: "@ + path_expr
                + ", reason: 'expected integer' });\n"@ + indent + "} else {\n"@,
        ),
        assigns(text, target, raw_expr),
{
    let part = "if (typeof "@ + raw_expr + " !== 'number' || !Number.isSafeInteger("@ + raw_expr
        + ")) {\n"@ + indent + "  violations.push({ path: "@ + path_expr
        + ", reason: 'expected integer' });\n"@ + indent + "} else {\n"@;
    let assigned = target + " = "@ + raw_expr + ";\n"@;
    let rest = indent + "  "@ + assigned + checks + indent + "}\n"@;
    assert(text =~= indent + part + rest);
    crate::json_schema::sides::lemma_part_of(indent, part, rest);
    let before = indent + part + indent + "  "@;
    assert(text =~= before + assigned + (checks + indent + "}\n"@));
    crate::json_schema::sides::lemma_part_of(before, assigned, checks + indent + "}\n"@);
}

/// An integer is a number that is a safe integer, and is assigned as it stands.
pub proof fn law_integers_are_safe_integers(
    ctx: TsContext,
    schema: Schema,
    raw_expr: Seq<char>,
    target: Seq<char>,
    path_expr: Seq<char>,
    indent: Seq<char>,
    depth: u64,
    follow: u128,
)
    requires
        asks_for_a_type(schema),
        crate::json_schema::schema::has_type(schema, "integer"@),
    ensures
        ({
            let text = crate::json_schema::parse::value_parser(
                ctx,
                schema,
                raw_expr,
                target,
                path_expr,
                indent,
                depth,
                follow,
            );
            &&& crate::json_schema::annotation::has_part(
                text,
                "if (typeof "@ + raw_expr + " !== 'number' || !Number.isSafeInteger("@ + raw_expr
                    + ")) {\n"@ + indent + "  violations.push({ path: "@ + path_expr
                    + ", reason: 'expected integer' });\n"@ + indent + "} else {\n"@,
            )
            &&& assigns(text, target, raw_expr)
        }),
{
    lemma_type_names_differ();
    let text = crate::json_schema::parse::value_parser(
        ctx,
        schema,
        raw_expr,
        target,
        path_expr,
        indent,
        depth,
        follow,
    );
    let inner = indent + "  "@;
    let checks = if crate::json_schema::schema::numeric_constraints(schema) {
        crate::json_schema::checks::numeric_checks(raw_expr, path_expr, schema, inner, false)
    } else {
        Seq::empty()
    };
    assert(text == crate::json_schema::parse::integer_parser(schema, raw_expr, target, path_expr, indent));
    lemma_integer_text(raw_expr, target, path_expr, indent, checks, text);
}

/// Null is told by comparison, and assigned as null.
pub proof fn law_null_is_told_by_comparison(
    ctx: TsContext,
    schema: Schema,
    raw_expr: Seq<char>,
    target: Seq<char>,
    path_expr: Seq<char>,
    indent: Seq<char>,
    depth: u64,
    follow: u128,
)
    requires
        asks_for_a_type(schema),
        crate::json_schema::schema::has_type(schema, "null"@),
    ensures
        crate::json_schema::parse::value_parser(ctx, schema, raw_expr, target, path_expr, indent, depth, follow)
            == indent + "if ("@ + raw_expr + " !== null) {\n"@ + indent
            + "  violations.push({ path: "@ + path_expr + ", reason: 'expected null' });\n"@
            + indent + "} else {\n"@ + indent + "  "@ + target + " = null;\n"@ + indent + "}\n"@,
{
    lemma_type_names_differ();
}

/// What the intake of an array is made of.
#[verifier::rlimit(40)]
proof fn lemma_array_text(
    raw_expr: Seq<char>,
    target: Seq<char>,
    path_expr: Seq<char>,
    indent: Seq<char>,
    element: Seq<char>,
    index: Seq<char>,
    item: Seq<char>,
    annotation: Seq<char>,
    parser: Seq<char>,
    checks: Seq<char>,
    text: Seq<char>,
)
    requires
        text == indent + "if (!Array.isArray("@ + raw_expr + ")) {\n"@ + indent
            + "  violations.push({ path: "@ + path_expr + ", reason: 'expected array' });\n"@
            + indent + "} else {\n"@ + indent + "  "@ + target + " = [];\n"@ + indent + "  "@
            + raw_expr + ".forEach(("@ + element + ": unknown, "@ + index + ": number) => {\n"@
            + indent + "    let "@ + item + ": "@ + annotation + " = undefined as unknown as "@
            + annotation + ";\n"@ + parser + indent + "    if ("@ + item + " !== undefined) {\n"@
            + indent + "      "@ + target + "!.push("@ + item + ");\n"@ + indent + "    }\n"@
            + indent + "  });\n"@ + checks + indent + "}\n"@,
    ensures
        crate::json_schema::annotation::has_part(
            text,
            "if (!Array.isArray("@ + raw_expr + ")) {\n"@ + indent + "  violations.push({ path: "@
                + path_expr + ", reason: 'expected array' });\n"@ + indent + "} else {\n"@ + indent
                + "  "@ + target + " = [];\n"@,
        ),
        crate::json_schema::annotation::has_part(
            text,
            raw_expr + ".forEach(("@ + element + ": unknown, "@ + index + ": number) => {\n"@,
        ),
        crate::json_schema::annotation::has_part(
            text,
            parser + indent + "    if ("@ + item + " !== undefined) {\n"@ + indent + "      "@
                + target + "!.push("@ + item + ");\n"@,
        ),
{
    let first = "if (!Array.isArray("@ + raw_expr + ")) {\n"@ + indent
        + "  violations.push({ path: "@ + path_expr + ", reason: 'expected array' });\n"@ + indent
        + "} else {\n"@ + indent + "  "@ + target + " = [];\n"@;
    let second = raw_expr + ".forEach(("@ + element + ": unknown, "@ + index
        + ": number) => {\n"@;
    let third = parser + indent + "    if ("@ + item + " !== undefined) {\n"@ + indent + "      "@
        + target + "!.push("@ + item + ");\n"@;
    let a = indent + first;
    assert(a =~= indent + "if (!Array.isArray("@ + raw_expr + ")) {\n"@ + indent
        + "  violations.push({ path: "@ + path_expr + ", reason: 'expected array' });\n"@ + indent
        + "} else {\n"@ + indent + "  "@ + target + " = [];\n"@);
    let b = a + indent + "  "@ + second;
    assert(b =~= a + indent + "  "@ + raw_expr + ".forEach(("@ + element + ": unknown, "@ + index
        + ": number) => {\n"@);
    let c = b + indent + "    let "@ + item + ": "@ + annotation + " = undefined as unknown as "@
        + annotation + ";\n"@;
    let d = c + third;
    assert(d =~= c + parser + indent + "    if ("@ + item + " !== undefined) {\n"@ + indent
        + "      "@ + target + "!.push("@ + item + ");\n"@);
    assert(text == d + indent + "    }\n"@ + indent + "  });\n"@ + checks + indent + "}\n"@);
    assert(crate::json_schema::annotation::has_part(text, first)) by {
        crate::json_schema::sides::lemma_part_stays(first);
    }
    assert(crate::json_schema::annotation::has_part(text, second)) by {
        crate::json_schema::sides::lemma_part_stays(second);
    }
    assert(crate::json_schema::annotation::has_part(text, third)) by {
        crate::json_schema::sides::lemma_part_stays(third);
    }
}

/// An array is taken in element by element: each element is read as the items ask for, at its own
/// index, and what was read is pushed in its order.
pub proof fn law_arrays_are_taken_in_element_by_element(
    ctx: TsContext,
    schema: Schema,
    items: Schema,
    raw_expr: Seq<char>,
    target: Seq<char>,
    path_expr: Seq<char>,
    indent: Seq<char>,
    depth: u64,
    follow: u128,
)
    requires
        asks_for_a_type(schema),
        crate::json_schema::schema::has_type(schema, "array"@),
        schema.items matches Some(boxed) && *boxed == items,
    ensures
        ({
            let text = crate::json_schema::parse::value_parser(
                ctx,
                schema,
                raw_expr,
                target,
                path_expr,
                indent,
                depth,
                follow,
            );
            let suffix = crate::json_schema::ts_text::depth_suffix(depth);
            let parser = crate::json_schema::parse::value_parser(
                ctx,
                items,
                "element"@ + suffix,
                "item"@ + suffix,
                crate::json_schema::ts_text::indexed_path(path_expr, "index"@ + suffix),
                indent + "    "@,
                crate::json_schema::ts_text::deeper(depth),
                follow,
            );
            &&& crate::json_schema::annotation::has_part(
                text,
                "if (!Array.isArray("@ + raw_expr + ")) {\n"@ + indent
                    + "  violations.push({ path: "@ + path_expr
                    + ", reason: 'expected array' });\n"@ + indent + "} else {\n"@ + indent + "  "@
                    + target + " = [];\n"@,
            )
            &&& crate::json_schema::annotation::has_part(
                text,
                raw_expr + ".forEach(("@ + ("element"@ + suffix) + ": unknown, "@ + ("index"@
                    + suffix) + ": number) => {\n"@,
            )
            &&& crate::json_schema::annotation::has_part(
                text,
                parser + indent + "    if ("@ + ("item"@ + suffix) + " !== undefined) {\n"@
                    + indent + "      "@ + target + "!.push("@ + ("item"@ + suffix) + ");\n"@,
            )
        }),
{
    lemma_type_names_differ();
    let text = crate::json_schema::parse::value_parser(
        ctx,
        schema,
        raw_expr,
        target,
        path_expr,
        indent,
        depth,
        follow,
    );
    let suffix = crate::json_schema::ts_text::depth_suffix(depth);
    let element = "element"@ + suffix;
    let index = "index"@ + suffix;
    let item = "item"@ + suffix;
    let annotation = crate::json_schema::annotation::annotation_or_else(ctx, items, "unknown"@);
    let parser = crate::json_schema::parse::value_parser(
        ctx,
        items,
        element,
        item,
        crate::json_schema::ts_text::indexed_path(path_expr, index),
        indent + "    "@,
        crate::json_schema::ts_text::deeper(depth),
        follow,
    );
    let checks = if crate::json_schema::schema::array_constraints(schema) {
        crate::json_schema::checks::array_checks(ctx, raw_expr, path_expr, schema, indent + "  "@, depth, false)
    } else {
        Seq::empty()
    };
    assert(text == crate::json_schema::parse::array_parser(
        ctx,
        schema,
        raw_expr,
        target,
        path_expr,
        indent,
        depth,
        follow,
    ));
    lemma_array_text(
        raw_expr,
        target,
        path_expr,
        indent,
        element,
        index,
        item,
        annotation,
        parser,
        checks,
        text,
    );
}

/// What stands inside of a text stays a part of it.
proof fn lemma_stands_inside(before: Seq<char>, middle: Seq<char>, more: Seq<char>, after: Seq<char>, text: Seq<char>)
    requires
        text == before + (middle + more) + after,
    ensures
        forall|part: Seq<char>|
            crate::json_schema::annotation::has_part(middle, part) ==> #[trigger] crate::json_schema::annotation::has_part(text, part),
{
    assert forall|part: Seq<char>| crate::json_schema::annotation::has_part(middle, part) implies
        #[trigger] crate::json_schema::annotation::has_part(text, part) by {
        assert(text =~= before + middle + (more + after));
        crate::json_schema::sides::lemma_part_of_part(before, middle, more + after, part);
    }
}

/// What the intake of an object is made of.
proof fn lemma_object_text(raw_expr: Seq<char>, path_expr: Seq<char>, indent: Seq<char>, body: Seq<char>, text: Seq<char>)
    requires
        text == indent + "if (!__nexgenDefinitions.isPlainObject("@ + raw_expr + ")) {\n"@ + indent
            + "  violations.push({ path: "@ + path_expr + ", reason: 'expected object' });\n"@
            + indent + "} else {\n"@ + body + indent + "}\n"@,
    ensures
        ({
            let first = "if (!__nexgenDefinitions.isPlainObject("@ + raw_expr + ")) {\n"@ + indent
                + "  violations.push({ path: "@ + path_expr + ", reason: 'expected object' });\n"@
                + indent + "} else {\n"@;
            &&& crate::json_schema::annotation::has_part(text, first)
            &&& text == (indent + first) + body + (indent + "}\n"@)
        }),
{
    let first = "if (!__nexgenDefinitions.isPlainObject("@ + raw_expr + ")) {\n"@ + indent
        + "  violations.push({ path: "@ + path_expr + ", reason: 'expected object' });\n"@ + indent
        + "} else {\n"@;
    assert(text =~= indent + first + (body + indent + "}\n"@));
    crate::json_schema::sides::lemma_part_of(indent, first, body + indent + "}\n"@);
    assert(text =~= (indent + first) + body + (indent + "}\n"@));
}

/// What the intake of a map is made of.
#[verifier::rlimit(40)]
proof fn lemma_map_text(
    suffix: Seq<char>,
    annotation: Seq<char>,
    raw_expr: Seq<char>,
    target: Seq<char>,
    inner: Seq<char>,
    parser: Seq<char>,
    text: Seq<char>,
)
    requires
        text == inner + "const __members"@ + suffix + ": Record<string, "@ + annotation
            + "> = Object.create(null) as Record<string, "@ + annotation + ">;\n"@ + inner
            + "for (const [__key"@ + suffix + ", __raw"@ + suffix + "] of Object.entries("@
            + raw_expr + " as Record<string, unknown>)) {\n"@ + inner + "  let __entry"@ + suffix
            + ": "@ + annotation + " = undefined as unknown as "@ + annotation + ";\n"@ + parser
            + inner + "  if (__entry"@ + suffix + " !== undefined) {\n"@ + inner + "    __members"@
            + suffix + "[__key"@ + suffix + "] = __entry"@ + suffix + ";\n"@ + inner + "  }\n"@
            + inner + "}\n"@ + inner + target + " = __members"@ + suffix + ";\n"@,
    ensures
        crate::json_schema::annotation::has_part(
            text,
            "for (const [__key"@ + suffix + ", __raw"@ + suffix + "] of Object.entries("@ + raw_expr
                + " as Record<string, unknown>)) {\n"@,
        ),
        crate::json_schema::annotation::has_part(text, parser),
        crate::json_schema::annotation::has_part(
            text,
            "  if (__entry"@ + suffix + " !== undefined) {\n"@ + inner + "    __members"@ + suffix
                + "[__key"@ + suffix + "] = __entry"@ + suffix + ";\n"@,
        ),
        crate::json_schema::annotation::has_part(text, target + " = __members"@ + suffix + ";\n"@),
{
    let opened = inner + "const __members"@ + suffix + ": Record<string, "@ + annotation
        + "> = Object.create(null) as Record<string, "@ + annotation + ">;\n"@ + inner;
    let loop_head = "for (const [__key"@ + suffix + ", __raw"@ + suffix + "] of Object.entries("@
        + raw_expr + " as Record<string, unknown>)) {\n"@;
    let kept = "  if (__entry"@ + suffix + " !== undefined) {\n"@ + inner + "    __members"@
        + suffix + "[__key"@ + suffix + "] = __entry"@ + suffix + ";\n"@;
    let last = target + " = __members"@ + suffix + ";\n"@;
    let a = opened + loop_head;
    assert(a =~= opened + "for (const [__key"@ + suffix + ", __raw"@ + suffix
        + "] of Object.entries("@ + raw_expr + " as Record<string, unknown>)) {\n"@);
    let b = a + inner + "  let __entry"@ + suffix + ": "@ + annotation
        + " = undefined as unknown as "@ + annotation + ";\n"@ + parser + inner;
    let c = b + kept;
    assert(c =~= b + "  if (__entry"@ + suffix + " !== undefined) {\n"@ + inner + "    __members"@
        + suffix + "[__key"@ + suffix + "] = __entry"@ + suffix + ";\n"@);
    let d = c + inner + "  }\n"@ + inner + "}\n"@ + inner;
    assert(d + last =~= d + target + " = __members"@ + suffix + ";\n"@);
    assert(text == d + last);
    assert(crate::json_schema::annotation::has_part(text, loop_head)) by {
        crate::json_schema::sides::lemma_part_stays(loop_head);
    }
    assert(crate::json_schema::annotation::has_part(text, parser)) by {
        crate::json_schema::sides::lemma_part_stays(parser);
    }
    assert(crate::json_schema::annotation::has_part(text, kept)) by {
        crate::json_schema::sides::lemma_part_stays(kept);
    }
    assert(crate::json_schema::annotation::has_part(text, last)) by {
        crate::json_schema::sides::lemma_part_stays(last);
    }
}

/// An object is a plain object; where it maps keys to values, each value is read as the members ask
/// for, at its own key, and kept under that key.
pub proof fn law_maps_keep_each_value_under_its_key(
    ctx: TsContext,
    schema: Schema,
    raw_expr: Seq<char>,
    target: Seq<char>,
    path_expr: Seq<char>,
    indent: Seq<char>,
    depth: u64,
    follow: u128,
)
    requires
        asks_for_a_type(schema),
        crate::json_schema::schema::has_type(schema, "object"@),
    ensures
        ({
            let text = crate::json_schema::parse::value_parser(
                ctx,
                schema,
                raw_expr,
                target,
                path_expr,
                indent,
                depth,
                follow,
            );
            let suffix = crate::json_schema::ts_text::depth_suffix(depth);
            &&& crate::json_schema::annotation::has_part(
                text,
                "if (!__nexgenDefinitions.isPlainObject("@ + raw_expr + ")) {\n"@ + indent
                    + "  violations.push({ path: "@ + path_expr
                    + ", reason: 'expected object' });\n"@ + indent + "} else {\n"@,
            )
            &&& crate::json_schema::annotation::map_values(schema) matches Some(members) ==> {
                let parser = crate::json_schema::parse::value_parser(
                    ctx,
                    members,
                    "__raw"@ + suffix,
                    "__entry"@ + suffix,
                    crate::json_schema::ts_text::keyed_path(path_expr, "__key"@ + suffix),
                    indent + "  "@ + "  "@,
                    crate::json_schema::ts_text::deeper(depth),
                    follow,
                );
                &&& crate::json_schema::annotation::has_part(
                    text,
                    "for (const [__key"@ + suffix + ", __raw"@ + suffix + "] of Object.entries("@
                        + raw_expr + " as Record<string, unknown>)) {\n"@,
                )
                &&& crate::json_schema::annotation::has_part(text, parser)
                &&& crate::json_schema::annotation::has_part(
                    text,
                    "  if (__entry"@ + suffix + " !== undefined) {\n"@ + (indent + "  "@)
                        + "    __members"@ + suffix + "[__key"@ + suffix + "] = __entry"@ + suffix
                        + ";\n"@,
                )
                &&& crate::json_schema::annotation::has_part(text, target + " = __members"@ + suffix + ";\n"@)
            }
            &&& crate::json_schema::annotation::map_values(schema) is None ==> crate::json_schema::annotation::has_part(
                text,
                target + " = "@ + raw_expr + " as "@ + crate::json_schema::annotation::annotation_or_else(
                    ctx,
                    schema,
                    "unknown"@,
                ) + ";\n"@,
            )
        }),
{
    lemma_type_names_differ();
    let text = crate::json_schema::parse::value_parser(
        ctx,
        schema,
        raw_expr,
        target,
        path_expr,
        indent,
        depth,
        follow,
    );
    let suffix = crate::json_schema::ts_text::depth_suffix(depth);
    let inner = indent + "  "@;
    let body = crate::json_schema::parse::object_body(
        ctx,
        schema,
        raw_expr,
        target,
        path_expr,
        inner,
        depth,
        follow,
    );
    let first = "if (!__nexgenDefinitions.isPlainObject("@ + raw_expr + ")) {\n"@ + indent
        + "  violations.push({ path: "@ + path_expr + ", reason: 'expected object' });\n"@ + indent
        + "} else {\n"@;
    assert(text == crate::json_schema::parse::object_parser(raw_expr, path_expr, indent, body));
    lemma_object_text(raw_expr, path_expr, indent, body, text);
    let more = crate::json_schema::object::object_constraints(
        ctx,
        schema,
        crate::json_schema::parse::raw_record(raw_expr),
        path_expr,
        suffix,
        inner,
    );
    match crate::json_schema::annotation::map_values(schema) {
        Some(members) => {
            let annotation = crate::json_schema::annotation::annotation_or_else(ctx, members, "unknown"@);
            let parser = crate::json_schema::parse::value_parser(
                ctx,
                members,
                "__raw"@ + suffix,
                "__entry"@ + suffix,
                crate::json_schema::ts_text::keyed_path(path_expr, "__key"@ + suffix),
                inner + "  "@,
                crate::json_schema::ts_text::deeper(depth),
                follow,
            );
            lemma_map_text(
                suffix,
                annotation,
                raw_expr,
                target,
                inner,
                parser,
                crate::json_schema::parse::map_loop(suffix, annotation, raw_expr, target, inner, parser),
            );
            assert(body == crate::json_schema::parse::map_loop(
                suffix,
                annotation,
                raw_expr,
                target,
                inner,
                parser,
            ) + more);
            let loop_text = crate::json_schema::parse::map_loop(
                suffix,
                annotation,
                raw_expr,
                target,
                inner,
                parser,
            );
            lemma_stands_inside(indent + first, loop_text, more, indent + "}\n"@, text);
        },
        None => {
            let last = target + " = "@ + raw_expr + " as "@ + crate::json_schema::annotation::annotation_or_else(
                ctx,
                schema,
                "unknown"@,
            ) + ";\n"@;
            assert(body == inner + target + " = "@ + raw_expr + " as "@
                + crate::json_schema::annotation::annotation_or_else(ctx, schema, "unknown"@) + ";\n"@ + more);
            assert(inner + last =~= inner + target + " = "@ + raw_expr + " as "@
                + crate::json_schema::annotation::annotation_or_else(ctx, schema, "unknown"@) + ";\n"@);
            crate::json_schema::sides::lemma_whole_part(last);
            crate::json_schema::sides::lemma_part_behind(inner, last, last);
            lemma_stands_inside(indent + first, inner + last, more, indent + "}\n"@, text);
        },
    }
}

/// A reference is read by the converter of the model that it names, and what that refuses is
/// reported at the path.
pub proof fn law_references_are_read_by_their_converter(
    ctx: TsContext,
    schema: Schema,
    reference: Seq<char>,
    raw_expr: Seq<char>,
    target: Seq<char>,
    path_expr: Seq<char>,
    indent: Seq<char>,
    depth: u64,
    follow: u128,
)
    requires
        schema.reference matches Some(text) && text@ == reference,
    ensures
        ({
            let converter = crate::naming::lower_camel(crate::json_schema::ts_text::referenced_model(ctx, reference))
                + "TransferTypeConverter"@;
            crate::json_schema::parse::value_parser(ctx, schema, raw_expr, target, path_expr, indent, depth, follow)
                == indent + "try {\n"@ + indent + "  "@ + target + " = "@ + converter
                + ".fromTransferType("@ + raw_expr + ");\n"@ + indent + "} catch (error) {\n"@
                + indent + "  __nexgenDefinitions.collect(violations, "@ + path_expr
                + ", error);\n"@ + indent + "}\n"@
        }),
{
}

/// A value that may be null is assigned as null where it is null, and is else read as the schema
/// beside null asks for.
pub proof fn law_null_is_let_through(
    ctx: TsContext,
    schema: Schema,
    branch: Schema,
    raw_expr: Seq<char>,
    target: Seq<char>,
    path_expr: Seq<char>,
    indent: Seq<char>,
    depth: u64,
    follow: u128,
)
    requires
        schema.reference is None,
        !crate::json_schema::annotation::is_union(schema),
        crate::json_schema::annotation::branch_beside_null(schema) == Some(branch),
    ensures
        crate::json_schema::parse::value_parser(ctx, schema, raw_expr, target, path_expr, indent, depth, follow)
            == indent + "if ("@ + raw_expr + " === null) {\n"@ + indent + "  "@ + target
            + " = null;\n"@ + indent + "} else {\n"@ + crate::json_schema::parse::value_parser(
            ctx,
            branch,
            raw_expr,
            target,
            path_expr,
            indent + "  "@,
            depth,
            follow,
        ) + indent + "}\n"@,
{
}

/// What the intake of a fixed value is made of.
#[verifier::rlimit(40)]
proof fn lemma_const_text(
    value: JsonValue,
    raw_expr: Seq<char>,
    target: Seq<char>,
    path_expr: Seq<char>,
    indent: Seq<char>,
)
    ensures
        ({
            let literal = crate::json_schema::ts_text::value_literal(value);
            let text = crate::json_schema::parse::const_parser(value, raw_expr, target, path_expr, indent, literal);
            &&& crate::json_schema::annotation::has_part(
                text,
                raw_expr + " !== "@ + literal + ") {\n"@ + indent + "  violations.push({ path: "@
                    + path_expr + ", reason: `"@,
            )
            &&& crate::json_schema::annotation::has_part(
                text,
                indent + "} else {\n"@ + indent + "  "@ + target + " = "@ + raw_expr,
            )
            &&& crate::json_schema::parse::typeof_guard_of(value) matches Some(ty) ==> crate::json_schema::annotation::has_part(
                text,
                "if (typeof "@ + raw_expr + " !== '"@ + ty + "') {\n"@,
            )
        }),
{
    let literal = crate::json_schema::ts_text::value_literal(value);
    let text = crate::json_schema::parse::const_parser(value, raw_expr, target, path_expr, indent, literal);
    let reason = crate::json_schema::checks::const_reason(literal, raw_expr);
    let guard = crate::json_schema::parse::typeof_guard_of(value);
    let compared = raw_expr + " !== "@ + literal;
    assert(crate::text::join(crate::json_schema::checks::unequal_texts(seq![literal], raw_expr), " && "@) == compared) by {
        reveal_with_fuel(crate::json_schema::checks::unequal_texts, 2);
        assert(seq![literal].drop_last() =~= Seq::empty());
        assert(crate::json_schema::checks::unequal_texts(seq![literal], raw_expr) =~= seq![compared]);
    }
    let opened = crate::json_schema::parse::closed_guard(guard, raw_expr, path_expr, indent);
    lemma_closed_text(
        opened,
        compared,
        reason,
        raw_expr,
        target,
        path_expr,
        indent,
        crate::json_schema::parse::cast_text(value),
        text,
    );
    let part = compared + ") {\n"@ + indent + "  violations.push({ path: "@ + path_expr
        + ", reason: `"@;
    assert(crate::json_schema::annotation::has_part(part + reason, part)) by {
        crate::json_schema::sides::lemma_part_stays(part);
    }
    lemma_part_through(text, part + reason, part);
    match guard {
        Some(ty) => {
            let head = "if (typeof "@ + raw_expr + " !== '"@ + ty + "') {\n"@;
            let rest = indent + "  violations.push({ path: "@ + path_expr
                + ", reason: 'expected "@ + ty + "' });\n"@ + indent + "} else if ("@;
            assert(opened =~= indent + head + rest);
            crate::json_schema::sides::lemma_part_of(indent, head, rest);
            assert(crate::json_schema::annotation::has_part(text, head)) by {
                crate::json_schema::sides::lemma_part_stays(head);
            }
        },
        None => {},
    }
}

/// What the intake of one of several fixed values is made of.
proof fn lemma_enum_text(
    values: Seq<JsonValue>,
    raw_expr: Seq<char>,
    target: Seq<char>,
    path_expr: Seq<char>,
    indent: Seq<char>,
)
    ensures
        ({
            let literals = crate::json_schema::ts_text::value_literals(values);
            let text = crate::json_schema::parse::enum_parser(values, raw_expr, target, path_expr, indent);
            &&& crate::json_schema::annotation::has_part(
                text,
                crate::text::join(crate::json_schema::checks::unequal_texts(literals, raw_expr), " && "@) + ") {\n"@ + indent
                    + "  violations.push({ path: "@ + path_expr + ", reason: `"@ + (
                "must be one of ["@ + crate::text::join(literals, ", "@) + "], got ${JSON.stringify("@
                    + raw_expr + ")}"@),
            )
            &&& crate::json_schema::annotation::has_part(
                text,
                indent + "} else {\n"@ + indent + "  "@ + target + " = "@ + raw_expr,
            )
        }),
{
    let literals = crate::json_schema::ts_text::value_literals(values);
    let text = crate::json_schema::parse::enum_parser(values, raw_expr, target, path_expr, indent);
    let reason = "must be one of ["@ + crate::text::join(literals, ", "@) + "], got ${JSON.stringify("@
        + raw_expr + ")}"@;
    let guard = if values.len() > 0 {
        crate::json_schema::parse::typeof_guard_of(values[0])
    } else {
        None
    };
    lemma_closed_text(
        crate::json_schema::parse::closed_guard(guard, raw_expr, path_expr, indent),
        crate::text::join(crate::json_schema::checks::unequal_texts(literals, raw_expr), " && "@),
        reason,
        raw_expr,
        target,
        path_expr,
        indent,
        crate::json_schema::annotation::union_text(crate::json_schema::annotation::const_annotations(values)),
        text,
    );
}

/// A value that is fixed is refused where it differs from each of the values that it may have, and
/// is else assigned as it stands.
pub proof fn law_fixed_values_are_compared(
    ctx: TsContext,
    schema: Schema,
    raw_expr: Seq<char>,
    target: Seq<char>,
    path_expr: Seq<char>,
    indent: Seq<char>,
    depth: u64,
    follow: u128,
)
    requires
        crate::json_schema::sides::is_plain(schema),
    ensures
        ({
            let text = crate::json_schema::parse::value_parser(
                ctx,
                schema,
                raw_expr,
                target,
                path_expr,
                indent,
                depth,
                follow,
            );
            &&& schema.const_value matches Some(value) ==> crate::json_schema::annotation::has_part(
                text,
                raw_expr + " !== "@ + crate::json_schema::ts_text::value_literal(value) + ") {\n"@ + indent
                    + "  violations.push({ path: "@ + path_expr + ", reason: `"@,
            ) && crate::json_schema::annotation::has_part(
                text,
                indent + "} else {\n"@ + indent + "  "@ + target + " = "@ + raw_expr,
            )
            &&& schema.const_value matches Some(JsonValue::Text(_)) ==> crate::json_schema::annotation::has_part(
                text,
                "if (typeof "@ + raw_expr + " !== '"@ + "string"@ + "') {\n"@,
            )
            &&& schema.const_value matches Some(JsonValue::Number(_)) ==> crate::json_schema::annotation::has_part(
                text,
                "if (typeof "@ + raw_expr + " !== '"@ + "number"@ + "') {\n"@,
            )
            &&& schema.const_value matches Some(JsonValue::Bool(_)) ==> crate::json_schema::annotation::has_part(
                text,
                "if (typeof "@ + raw_expr + " !== '"@ + "boolean"@ + "') {\n"@,
            )
            &&& schema.const_value is None ==> (schema.enum_values matches Some(values)
                ==> crate::json_schema::annotation::has_part(
                text,
                crate::text::join(
                    crate::json_schema::checks::unequal_texts(crate::json_schema::ts_text::value_literals(values@), raw_expr),
                    " && "@,
                ) + ") {\n"@ + indent + "  violations.push({ path: "@ + path_expr
                    + ", reason: `"@ + ("must be one of ["@ + crate::text::join(
                    crate::json_schema::ts_text::value_literals(values@),
                    ", "@,
                ) + "], got ${JSON.stringify("@ + raw_expr + ")}"@),
            ) && crate::json_schema::annotation::has_part(
                text,
                indent + "} else {\n"@ + indent + "  "@ + target + " = "@ + raw_expr,
            ))
        }),
{
    let text = crate::json_schema::parse::value_parser(
        ctx,
        schema,
        raw_expr,
        target,
        path_expr,
        indent,
        depth,
        follow,
    );
    match schema.const_value {
        Some(value) => {
            let literal = crate::json_schema::ts_text::value_literal(value);
            assert(text == crate::json_schema::parse::const_parser(
                value,
                raw_expr,
                target,
                path_expr,
                indent,
                literal,
            ));
            lemma_const_text(value, raw_expr, target, path_expr, indent);
        },
        None => {
            match schema.enum_values {
                Some(values) => {
                    assert(text == crate::json_schema::parse::enum_parser(
                        values@,
                        raw_expr,
                        target,
                        path_expr,
                        indent,
                    ));
                    lemma_enum_text(values@, raw_expr, target, path_expr, indent);
                },
                None => {},
            }
        },
    }
}

/// A part of a part of a text is a part of the text.
pub proof fn lemma_part_through(text: Seq<char>, middle: Seq<char>, part: Seq<char>)
    requires
        crate::json_schema::annotation::has_part(text, middle),
        crate::json_schema::annotation::has_part(middle, part),
    ensures
        crate::json_schema::annotation::has_part(text, part),
{
    let i = choose|i: int| 0 <= i <= text.len() && crate::text::has_prefix(#[trigger] text.skip(i), middle);
    let before = text.take(i);
    let after = text.skip(i + middle.len());
    assert(text.skip(i).take(middle.len() as int) == middle);
    assert(text =~= before + middle + after) by {
        assert(text =~= before + text.skip(i));
        assert(text.skip(i) =~= text.skip(i).take(middle.len() as int) + after);
    }
    crate::json_schema::sides::lemma_part_of_part(before, middle, after, part);
}

/// What a comparison with fixed values is made of.
proof fn lemma_closed_text(
    opened: Seq<char>,
    membership: Seq<char>,
    reason: Seq<char>,
    raw_expr: Seq<char>,
    target: Seq<char>,
    path_expr: Seq<char>,
    indent: Seq<char>,
    cast_type: Seq<char>,
    text: Seq<char>,
)
    requires
        text == opened + membership + ") {\n"@ + indent + "  violations.push({ path: "@ + path_expr
            + ", reason: `"@ + reason + "` });\n"@ + indent + "} else {\n"@ + indent + "  "@
            + target + " = "@ + raw_expr + (if cast_type.len() == 0 {
            Seq::<char>::empty()
        } else {
            " as "@ + cast_type
        }) + ";\n"@ + indent + "}\n"@,
    ensures
        crate::json_schema::annotation::has_part(
            text,
            membership + ") {\n"@ + indent + "  violations.push({ path: "@ + path_expr
                + ", reason: `"@ + reason,
        ),
        crate::json_schema::annotation::has_part(
            text,
            indent + "} else {\n"@ + indent + "  "@ + target + " = "@ + raw_expr,
        ),
{
    let cast = if cast_type.len() == 0 {
        Seq::<char>::empty()
    } else {
        " as "@ + cast_type
    };
    let first = membership + ") {\n"@ + indent + "  violations.push({ path: "@ + path_expr
        + ", reason: `"@ + reason;
    let second = indent + "} else {\n"@ + indent + "  "@ + target + " = "@ + raw_expr;
    let end = cast + ";\n"@ + indent + "}\n"@;
    assert(text =~= opened + first + ("` });\n"@ + second + end));
    crate::json_schema::sides::lemma_part_of(opened, first, "` });\n"@ + second + end);
    assert(text =~= (opened + first + "` });\n"@) + second + end);
    crate::json_schema::sides::lemma_part_of(opened + first + "` });\n"@, second, end);
}

/// What the intake of a written form is made of.
proof fn lemma_handed_text(
    raw_expr: Seq<char>,
    target: Seq<char>,
    path_expr: Seq<char>,
    indent: Seq<char>,
    reader: Seq<char>,
    assertions: Seq<char>,
    closed: Seq<char>,
    text: Seq<char>,
)
    requires
        text == indent + "if (typeof "@ + raw_expr + " !== 'string') {\n"@ + indent
            + "  violations.push({ path: "@ + path_expr + ", reason: 'expected string' });\n"@
            + indent + "} else {\n"@ + assertions + closed + indent + "  const parsed = "@ + reader
            + "("@ + raw_expr + ", "@ + path_expr + ", violations);\n"@ + indent
            + "  if (parsed !== undefined) {\n"@ + indent + "    "@ + target + " = parsed;\n"@
            + indent + "  }\n"@ + indent + "}\n"@,
    ensures
        crate::json_schema::annotation::has_part(
            text,
            "if (typeof "@ + raw_expr + " !== 'string') {\n"@ + indent
                + "  violations.push({ path: "@ + path_expr + ", reason: 'expected string' });\n"@
                + indent + "} else {\n"@,
        ),
        crate::json_schema::annotation::has_part(
            text,
            "  const parsed = "@ + reader + "("@ + raw_expr + ", "@ + path_expr
                + ", violations);\n"@ + indent + "  if (parsed !== undefined) {\n"@ + indent
                + "    "@ + target + " = parsed;\n"@,
        ),
{
    let first = "if (typeof "@ + raw_expr + " !== 'string') {\n"@ + indent
        + "  violations.push({ path: "@ + path_expr + ", reason: 'expected string' });\n"@ + indent
        + "} else {\n"@;
    let second = "  const parsed = "@ + reader + "("@ + raw_expr + ", "@ + path_expr
        + ", violations);\n"@ + indent + "  if (parsed !== undefined) {\n"@ + indent + "    "@
        + target + " = parsed;\n"@;
    let end = indent + "  }\n"@ + indent + "}\n"@;
    assert(text =~= indent + first + (assertions + closed + indent + second + end));
    crate::json_schema::sides::lemma_part_of(indent, first, assertions + closed + indent + second + end);
    assert(text =~= (indent + first + assertions + closed + indent) + second + end);
    crate::json_schema::sides::lemma_part_of(indent + first + assertions + closed + indent, second, end);
}

/// A temporal or encoded string is handed to the reader of its kind, and assigned where that reads
/// it; anything but a string is refused.
pub proof fn law_written_forms_are_handed_to_their_reader(
    ctx: TsContext,
    schema: Schema,
    raw_expr: Seq<char>,
    target: Seq<char>,
    path_expr: Seq<char>,
    indent: Seq<char>,
    depth: u64,
    follow: u128,
    reader: Seq<char>,
)
    requires
        crate::json_schema::sides::is_inline(schema),
        crate::json_schema::schema::temporal_kind_of(schema) matches Some(kind) ==> reader
            == "__nexgenDefinitions."@ + (match kind {
            TemporalKind::DateTime => "parseTemporalDateTime"@,
            TemporalKind::Date => "parseTemporalDate"@,
            TemporalKind::Time => "parseTemporalTime"@,
            TemporalKind::Duration => "parseTemporalDuration"@,
        }),
        crate::json_schema::schema::temporal_kind_of(schema) is None ==> (crate::json_schema::schema::content_encoding_of(schema)
            matches Some(encoding) && reader == (match encoding {
            Encoding::Base64 => "__nexgenDefinitions.base64ToBytes"@,
            Encoding::Base64Url => "__nexgenDefinitions.base64UrlToBytes"@,
        })),
    ensures
        ({
            let text = crate::json_schema::parse::value_parser(
                ctx,
                schema,
                raw_expr,
                target,
                path_expr,
                indent,
                depth,
                follow,
            );
            &&& crate::json_schema::annotation::has_part(
                text,
                "if (typeof "@ + raw_expr + " !== 'string') {\n"@ + indent
                    + "  violations.push({ path: "@ + path_expr
                    + ", reason: 'expected string' });\n"@ + indent + "} else {\n"@,
            )
            &&& crate::json_schema::annotation::has_part(
                text,
                "  const parsed = "@ + reader + "("@ + raw_expr + ", "@ + path_expr
                    + ", violations);\n"@ + indent + "  if (parsed !== undefined) {\n"@ + indent
                    + "    "@ + target + " = parsed;\n"@,
            )
        }),
{
    let text = crate::json_schema::parse::value_parser(
        ctx,
        schema,
        raw_expr,
        target,
        path_expr,
        indent,
        depth,
        follow,
    );
    let inner = indent + "  "@;
    let with_format = crate::json_schema::schema::temporal_kind_of(schema) is None;
    let assertions = crate::json_schema::checks::string_assertions(
        ctx,
        raw_expr,
        path_expr,
        schema,
        inner,
        with_format,
    );
    let closed = crate::json_schema::checks::schema_closed_check(schema, raw_expr, path_expr, inner);
    assert(text == crate::json_schema::parse::materialized_parser_text(
        ctx,
        schema,
        reader,
        with_format,
        raw_expr,
        target,
        path_expr,
        indent,
    ));
    lemma_handed_text(
        raw_expr,
        target,
        path_expr,
        indent,
        reader,
        assertions,
        closed,
        text,
    );
}

} // verus!
