//! That the same checks stand on both sides of the wire: where a value is parsed, and where it is
//! serialized.

use vstd::prelude::*;

use crate::error::ErrorView;
use crate::json_schema::schema::{Property, Schema};
use crate::json_schema::ts_text::{JsonModel, TsContext};

verus! {

/// A part stands in a text that is put together with it.
pub proof fn lemma_part_of(before: Seq<char>, part: Seq<char>, after: Seq<char>)
    ensures
        crate::json_schema::annotation::has_part(before + part + after, part),
{
    let whole = before + part + after;
    let at = before.len() as int;
    assert(whole.skip(at) =~= part + after);
    assert((part + after).take(part.len() as int) =~= part);
    assert(crate::text::has_prefix(whole.skip(at), part));
}

/// A part of a part is a part.
pub proof fn lemma_part_of_part(
    before: Seq<char>,
    middle: Seq<char>,
    after: Seq<char>,
    part: Seq<char>,
)
    requires
        crate::json_schema::annotation::has_part(middle, part),
    ensures
        crate::json_schema::annotation::has_part(before + middle + after, part),
{
    let i = choose|i: int|
        0 <= i <= middle.len() && crate::text::has_prefix(#[trigger] middle.skip(i), part);
    let whole = before + middle + after;
    assert(whole.skip(before.len() + i) =~= middle.skip(i) + after);
    assert((middle.skip(i) + after).take(part.len() as int) =~= middle.skip(i).take(
        part.len() as int,
    ));
    assert(crate::text::has_prefix(whole.skip(before.len() + i), part));
}

/// A part stays one when something is written behind.
pub proof fn lemma_part_before(text: Seq<char>, after: Seq<char>, part: Seq<char>)
    requires
        crate::json_schema::annotation::has_part(text, part),
    ensures
        crate::json_schema::annotation::has_part(text + after, part),
{
    lemma_part_of_part(Seq::empty(), text, after, part);
    assert(Seq::<char>::empty() + text + after =~= text + after);
}

/// A part stays one when something is written before.
pub proof fn lemma_part_behind(before: Seq<char>, text: Seq<char>, part: Seq<char>)
    requires
        crate::json_schema::annotation::has_part(text, part),
    ensures
        crate::json_schema::annotation::has_part(before + text, part),
{
    lemma_part_of_part(before, text, Seq::empty(), part);
    assert(before + text + Seq::<char>::empty() =~= before + text);
}

/// A text is a part of itself.
pub proof fn lemma_whole_part(text: Seq<char>)
    ensures
        crate::json_schema::annotation::has_part(text, text),
{
    lemma_part_of(Seq::empty(), text, Seq::empty());
    assert(Seq::<char>::empty() + text + Seq::<char>::empty() =~= text);
}

/// A part stays one when something is written before or behind.
pub proof fn lemma_part_stays(part: Seq<char>)
    ensures
        crate::json_schema::annotation::has_part(part, part),
        forall|before: Seq<char>, after: Seq<char>|
            crate::json_schema::annotation::has_part(before, part)
                ==> crate::json_schema::annotation::has_part(#[trigger] (before + after), part),
        forall|before: Seq<char>, after: Seq<char>|
            crate::json_schema::annotation::has_part(after, part)
                ==> crate::json_schema::annotation::has_part(#[trigger] (before + after), part),
{
    lemma_whole_part(part);
    assert forall|before: Seq<char>, after: Seq<char>|
        crate::json_schema::annotation::has_part(
            before,
            part,
        ) implies crate::json_schema::annotation::has_part(#[trigger] (before + after), part) by {
        lemma_part_before(before, after, part);
    }
    assert forall|before: Seq<char>, after: Seq<char>|
        crate::json_schema::annotation::has_part(
            after,
            part,
        ) implies crate::json_schema::annotation::has_part(#[trigger] (before + after), part) by {
        lemma_part_behind(before, after, part);
    }
}

/// Whether a schema describes a value where it stands: no reference, no branches.
pub open spec fn is_inline(schema: Schema) -> bool {
    schema.reference is None && schema.one_of is None
}

/// Whether the value of a schema has the same form in memory as on the wire.
pub open spec fn is_plain(schema: Schema) -> bool {
    &&& is_inline(schema)
    &&& crate::json_schema::schema::temporal_kind_of(schema) is None
    &&& crate::json_schema::schema::content_encoding_of(schema) is None
}

/// The condition under which a value is none of a closed set.
pub open spec fn closed_condition(schema: Schema, expr: Seq<char>) -> Seq<char> {
    let literals = match schema.const_value {
        Some(value) => seq![crate::json_schema::ts_text::value_literal(value)],
        None => match schema.enum_values {
            Some(values) => crate::json_schema::ts_text::value_literals(values@),
            None => Seq::empty(),
        },
    };
    crate::text::join(crate::json_schema::checks::unequal_texts(literals, expr), " && "@)
}

/// The checks of a plain value that do not depend on the side of the wire: the condition of a
/// closed set, the lengths, pattern and format of a string, the bounds of a number and the
/// lengths of an array.
pub open spec fn shared_checks(
    ctx: TsContext,
    schema: Schema,
    expr: Seq<char>,
    path_expr: Seq<char>,
    indent: Seq<char>,
) -> Seq<char> {
    if schema.const_value is Some || schema.enum_values is Some {
        closed_condition(schema, expr)
    } else if crate::json_schema::schema::has_type(schema, "string"@) {
        if crate::json_schema::schema::string_constraints(schema) {
            crate::json_schema::checks::string_checks(ctx, expr, path_expr, schema, indent)
        } else {
            Seq::empty()
        }
    } else if crate::json_schema::schema::has_type(schema, "number"@)
        || crate::json_schema::schema::has_type(schema, "integer"@) {
        crate::json_schema::checks::numeric_bounds(expr, path_expr, schema, indent)
    } else if crate::json_schema::schema::has_type(schema, "array"@) {
        crate::json_schema::checks::array_lengths(expr, path_expr, schema, indent)
    } else {
        Seq::empty()
    }
}

/// Every text has the empty part.
pub proof fn lemma_empty_part(text: Seq<char>)
    ensures
        crate::json_schema::annotation::has_part(text, Seq::empty()),
{
    lemma_part_of(Seq::empty(), Seq::empty(), text);
    assert(Seq::<char>::empty() + Seq::<char>::empty() + text =~= text);
}

/// The names of the types of values differ.
pub proof fn lemma_types_differ()
    ensures
        "integer"@ != "boolean"@,
        "array"@ != "boolean"@,
        "array"@ != "integer"@,
        "array"@ != "number"@,
        "array"@ != "string"@,
        "integer"@ != "string"@,
        "number"@ != "string"@,
        "integer"@ != "number"@,
        "object"@ != "string"@,
        "object"@ != "number"@,
        "object"@ != "boolean"@,
        "object"@ != "integer"@,
        "object"@ != "array"@,
        "null"@ != "string"@,
        "null"@ != "number"@,
        "null"@ != "boolean"@,
        "null"@ != "integer"@,
        "null"@ != "array"@,
        "null"@ != "object"@,
        "boolean"@ != "string"@,
        "boolean"@ != "number"@,
{
    reveal_strlit("object");
    reveal_strlit("null");
    reveal_strlit("integer");
    reveal_strlit("boolean");
    reveal_strlit("array");
    reveal_strlit("number");
    reveal_strlit("string");
    assert("integer"@[0] != "boolean"@[0]);
    assert("integer"@[0] != "string"@[0]);
    assert("number"@[0] != "string"@[0]);
    assert("object"@[0] != "string"@[0]);
    assert("object"@[0] != "number"@[0]);
    assert("null"@.len() == 4 && "number"@.len() == 6 && "array"@.len() == 5);
}

/// The bounds of a number stand in its checks.
proof fn lemma_bounds_part(
    value_expr: Seq<char>,
    path_expr: Seq<char>,
    schema: Schema,
    indent: Seq<char>,
    emit_integer_cap: bool,
)
    ensures
        crate::json_schema::annotation::has_part(
            crate::json_schema::checks::numeric_checks(
                value_expr,
                path_expr,
                schema,
                indent,
                emit_integer_cap,
            ),
            crate::json_schema::checks::numeric_bounds(value_expr, path_expr, schema, indent),
        ),
{
    let body = crate::json_schema::checks::numeric_bounds(value_expr, path_expr, schema, indent);
    let whole = crate::json_schema::checks::numeric_checks(
        value_expr,
        path_expr,
        schema,
        indent,
        emit_integer_cap,
    );
    if body.len() == 0 {
        assert(body =~= Seq::empty());
        lemma_empty_part(whole);
    } else if crate::json_schema::schema::has_type(schema, "integer"@) && !emit_integer_cap {
        lemma_part_of(Seq::empty(), body, Seq::empty());
        assert(Seq::<char>::empty() + body + Seq::<char>::empty() =~= body);
    } else {
        let guard = if crate::json_schema::schema::has_type(schema, "integer"@) {
            indent + "if (!Number.isSafeInteger("@ + value_expr + ")) {\n"@ + indent
                + "  violations.push({ path: "@ + path_expr
                + ", reason: `exceeds ±(2^53-1) integer cap, got ${"@ + value_expr + "}` });\n"@
                + indent + "}"@
        } else {
            indent + "if (!Number.isFinite("@ + value_expr + ")) {\n"@ + indent
                + "  violations.push({ path: "@ + path_expr
                + ", reason: `must be a finite number, got ${"@ + value_expr + "}` });\n"@ + indent
                + "}"@
        };
        lemma_part_of(guard + " else {\n"@, body, indent + "}\n"@);
        assert(whole =~= guard + " else {\n"@ + body + (indent + "}\n"@));
    }
}

/// The lengths of an array stand in its checks.
proof fn lemma_lengths_part(
    ctx: TsContext,
    array_expr: Seq<char>,
    path_expr: Seq<char>,
    schema: Schema,
    indent: Seq<char>,
    depth: u64,
    serialize: bool,
)
    ensures
        crate::json_schema::annotation::has_part(
            crate::json_schema::checks::array_checks(
                ctx,
                array_expr,
                path_expr,
                schema,
                indent,
                depth,
                serialize,
            ),
            crate::json_schema::checks::array_lengths(array_expr, path_expr, schema, indent),
        ),
{
    let lengths = crate::json_schema::checks::array_lengths(
        array_expr,
        path_expr,
        schema,
        indent,
    );
    lemma_part_stays(lengths);
}

/// The checks of a plain value stand in its parser.
proof fn lemma_parser_checks(
    ctx: TsContext,
    schema: Schema,
    raw_expr: Seq<char>,
    target: Seq<char>,
    path_expr: Seq<char>,
    indent: Seq<char>,
    depth: u64,
    follow: u128,
)
    requires
        is_plain(schema),
    ensures
        crate::json_schema::annotation::has_part(
            crate::json_schema::parse::value_parser(
                ctx,
                schema,
                raw_expr,
                target,
                path_expr,
                indent,
                depth,
                follow,
            ),
            shared_checks(ctx, schema, raw_expr, path_expr, indent + "  "@),
        ),
{
    lemma_types_differ();
    let inner = indent + "  "@;
    let part = shared_checks(ctx, schema, raw_expr, path_expr, inner);
    let whole = crate::json_schema::parse::value_parser(
        ctx,
        schema,
        raw_expr,
        target,
        path_expr,
        indent,
        depth,
        follow,
    );
    if schema.const_value is Some || schema.enum_values is Some {
        lemma_closed_parser(schema, raw_expr, target, path_expr, indent);
    } else if part.len() == 0 {
        assert(part =~= Seq::empty());
        lemma_empty_part(whole);
    } else {
        lemma_part_stays(part);
        if crate::json_schema::schema::has_type(schema, "number"@) {
            lemma_bounds_part(raw_expr, path_expr, schema, inner, false);
        } else if crate::json_schema::schema::has_type(schema, "array"@) {
            lemma_lengths_part(ctx, raw_expr, path_expr, schema, inner, depth, false);
            assert(whole == crate::json_schema::parse::array_parser(
                ctx,
                schema,
                raw_expr,
                target,
                path_expr,
                indent,
                depth,
                follow,
            ));
        }
    }
}

/// The condition of a closed set stands in its parser.
proof fn lemma_closed_parser(
    schema: Schema,
    raw_expr: Seq<char>,
    target: Seq<char>,
    path_expr: Seq<char>,
    indent: Seq<char>,
)
    ensures
        schema.const_value matches Some(value) ==> crate::json_schema::annotation::has_part(
            crate::json_schema::parse::const_parser(
                value,
                raw_expr,
                target,
                path_expr,
                indent,
                crate::json_schema::ts_text::value_literal(value),
            ),
            closed_condition(schema, raw_expr),
        ),
        schema.const_value is None ==> (schema.enum_values matches Some(values)
            ==> crate::json_schema::annotation::has_part(
            crate::json_schema::parse::enum_parser(values@, raw_expr, target, path_expr, indent),
            closed_condition(schema, raw_expr),
        )),
{
    let part = closed_condition(schema, raw_expr);
    match schema.const_value {
        Some(value) => {
            let opened = crate::json_schema::parse::closed_guard(
                crate::json_schema::parse::typeof_guard_of(value),
                raw_expr,
                path_expr,
                indent,
            );
            let whole = crate::json_schema::parse::const_parser(
                value,
                raw_expr,
                target,
                path_expr,
                indent,
                crate::json_schema::ts_text::value_literal(value),
            );
            let rest = whole.skip((opened.len() + part.len()) as int);
            assert(whole =~= opened + part + rest);
            lemma_part_of(opened, part, rest);
        },
        None => match schema.enum_values {
            Some(values) => {
                let guard = if values@.len() > 0 {
                    crate::json_schema::parse::typeof_guard_of(values@[0])
                } else {
                    None
                };
                let opened = crate::json_schema::parse::closed_guard(
                    guard,
                    raw_expr,
                    path_expr,
                    indent,
                );
                let whole = crate::json_schema::parse::enum_parser(
                    values@,
                    raw_expr,
                    target,
                    path_expr,
                    indent,
                );
                let rest = whole.skip((opened.len() + part.len()) as int);
                assert(whole =~= opened + part + rest);
                lemma_part_of(opened, part, rest);
            },
            None => {},
        },
    }
}

/// The checks behind the test of a type stand in the guarded text.
pub proof fn lemma_guarded_part(
    predicate: Seq<char>,
    reason: Seq<char>,
    path_expr: Seq<char>,
    indent: Seq<char>,
    body: Seq<char>,
    part: Seq<char>,
)
    requires
        crate::json_schema::annotation::has_part(body, part),
    ensures
        crate::json_schema::annotation::has_part(
            crate::json_schema::fields::type_guarded_text(
                predicate,
                reason,
                path_expr,
                indent,
                body,
            ),
            part,
        ),
{
    let whole = crate::json_schema::fields::type_guarded_text(
        predicate,
        reason,
        path_expr,
        indent,
        body,
    );
    if body.len() == 0 {
        assert(part =~= Seq::empty());
        lemma_empty_part(whole);
    } else {
        let guard = indent + "if (!("@ + predicate + ")) {\n"@ + indent
            + "  violations.push({ path: "@ + path_expr + ", reason: '"@ + reason + "' });\n"@;
        let before = guard + indent + "} else {\n"@;
        let after = indent + "}\n"@;
        assert(whole =~= before + body + after);
        lemma_part_of_part(before, body, after, part);
    }
}

/// The checks of a plain value stand in those of its value in memory.
pub proof fn lemma_body_checks(
    ctx: TsContext,
    schema: Schema,
    value_expr: Seq<char>,
    path_expr: Seq<char>,
    indent: Seq<char>,
    depth: u64,
    follow: u128,
)
    requires
        is_plain(schema),
    ensures
        crate::json_schema::annotation::has_part(
            crate::json_schema::fields::field_body(
                ctx,
                schema,
                value_expr,
                path_expr,
                indent,
                depth,
                follow,
            ),
            shared_checks(ctx, schema, value_expr, path_expr, indent),
        ),
{
    lemma_types_differ();
    let whole = crate::json_schema::fields::field_body(
        ctx,
        schema,
        value_expr,
        path_expr,
        indent,
        depth,
        follow,
    );
    let part = shared_checks(ctx, schema, value_expr, path_expr, indent);
    assert(crate::json_schema::union::union_of(ctx, Seq::empty(), schema) is None);
    if schema.const_value is Some || schema.enum_values is Some {
        let before = indent + "if ("@;
        let rest = whole.skip((before.len() + part.len()) as int);
        assert(whole =~= before + part + rest);
        lemma_part_of(before, part, rest);
    } else if crate::json_schema::schema::has_type(schema, "string"@) {
        assert(whole =~= Seq::<char>::empty() + part + Seq::<char>::empty());
        lemma_part_of(Seq::empty(), part, Seq::empty());
    } else if crate::json_schema::schema::has_type(schema, "number"@) {
        lemma_bounds_part(value_expr, path_expr, schema, indent, false);
    } else if crate::json_schema::schema::has_type(schema, "integer"@) {
        lemma_bounds_part(value_expr, path_expr, schema, indent, true);
    } else if crate::json_schema::schema::has_type(schema, "array"@) {
        if crate::json_schema::schema::array_constraints(schema) {
            let elements = crate::json_schema::fields::element_checks(
                ctx,
                schema,
                value_expr,
                path_expr,
                indent,
                depth,
                follow,
            );
            let checks = crate::json_schema::checks::array_checks(
                ctx,
                value_expr,
                path_expr,
                schema,
                indent,
                depth,
                true,
            );
            assert(whole =~= elements + checks + Seq::<char>::empty());
            lemma_lengths_part(ctx, value_expr, path_expr, schema, indent, depth, true);
            lemma_part_of_part(elements, checks, Seq::empty(), part);
        } else {
            assert(part =~= Seq::empty());
            lemma_empty_part(whole);
        }
    } else {
        lemma_empty_part(whole);
    }
}

/// The checks of a plain value are made on both sides of the wire: of the raw value in its
/// parser, and of the value in memory before it is serialized.
pub proof fn law_checks_stand_on_both_sides(
    ctx: TsContext,
    schema: Schema,
    raw_expr: Seq<char>,
    value_expr: Seq<char>,
    target: Seq<char>,
    path_expr: Seq<char>,
    indent: Seq<char>,
    depth: u64,
    follow: u128,
)
    requires
        is_plain(schema),
    ensures
        crate::json_schema::annotation::has_part(
            crate::json_schema::parse::value_parser(
                ctx,
                schema,
                raw_expr,
                target,
                path_expr,
                indent,
                depth,
                follow,
            ),
            shared_checks(ctx, schema, raw_expr, path_expr, indent + "  "@),
        ),
        crate::json_schema::annotation::has_part(
            crate::json_schema::fields::field_checks(
                ctx,
                schema,
                value_expr,
                path_expr,
                indent,
                depth,
                follow,
            ),
            shared_checks(ctx, schema, value_expr, path_expr, indent + "  "@),
        ),
{
    lemma_parser_checks(ctx, schema, raw_expr, target, path_expr, indent, depth, follow);
    let inner = indent + "  "@;
    let part = shared_checks(ctx, schema, value_expr, path_expr, inner);
    let checks = crate::json_schema::fields::field_checks(
        ctx,
        schema,
        value_expr,
        path_expr,
        indent,
        depth,
        follow,
    );
    match crate::json_schema::fields::type_test(ctx, schema, value_expr) {
        Some(predicate) => {
            let body = crate::json_schema::fields::field_body(
                ctx,
                schema,
                value_expr,
                path_expr,
                inner,
                depth,
                follow,
            );
            let reason = crate::json_schema::fields::type_reason_text(schema);
            lemma_body_checks(ctx, schema, value_expr, path_expr, inner, depth, follow);
            lemma_guarded_part(predicate, reason, path_expr, indent, body, part);
            assert(checks == crate::json_schema::fields::type_guarded_text(
                predicate,
                reason,
                path_expr,
                indent,
                body,
            ));
        },
        None => {
            lemma_body_checks(ctx, schema, value_expr, path_expr, indent, depth, follow);
            assert(checks == crate::json_schema::fields::field_body(
                ctx,
                schema,
                value_expr,
                path_expr,
                indent,
                depth,
                follow,
            ));
        },
    }
}

/// Whether the lengths, the pattern or the values of a string that is held in another form in
/// memory are constrained on the wire.
pub open spec fn wire_form_is_constrained(schema: Schema) -> bool {
    crate::json_schema::checks::wire_constraints(
        schema,
        crate::json_schema::schema::temporal_kind_of(schema) is None,
    )
}

/// The checks of the lengths and the pattern of a string that is held in another form in memory.
pub open spec fn wire_form_checks(
    ctx: TsContext,
    schema: Schema,
    expr: Seq<char>,
    path_expr: Seq<char>,
    indent: Seq<char>,
) -> Seq<char> {
    crate::json_schema::checks::string_assertions(
        ctx,
        expr,
        path_expr,
        schema,
        indent,
        crate::json_schema::schema::temporal_kind_of(schema) is None,
    )
}

/// The checks of the wire form of a value stand in those of the value in memory.
proof fn lemma_wire_body(
    ctx: TsContext,
    schema: Schema,
    value_expr: Seq<char>,
    path_expr: Seq<char>,
    indent: Seq<char>,
    depth: u64,
    follow: u128,
)
    requires
        !is_plain(schema),
        is_inline(schema),
    ensures
        ({
            let body = crate::json_schema::fields::field_body(
                ctx,
                schema,
                value_expr,
                path_expr,
                indent,
                depth,
                follow,
            );
            let temporal = crate::json_schema::schema::temporal_kind_of(schema);
            let inner = indent + (if temporal is Some {
                "    "@
            } else {
                "  "@
            });
            &&& wire_form_is_constrained(schema) ==> {
                &&& crate::json_schema::annotation::has_part(
                    body,
                    wire_form_checks(ctx, schema, "wire"@, path_expr, inner),
                )
                &&& crate::json_schema::annotation::has_part(
                    body,
                    crate::json_schema::checks::schema_closed_check(
                        schema,
                        "wire"@,
                        path_expr,
                        inner,
                    ),
                )
            }
            &&& temporal is Some ==> crate::json_schema::annotation::has_part(
                body,
                crate::json_schema::ts_text::temporal_validate_text(temporal->Some_0),
            )
        }),
{
    let temporal = crate::json_schema::schema::temporal_kind_of(schema);
    let inner = indent + (if temporal is Some {
        "    "@
    } else {
        "  "@
    });
    lemma_part_stays(wire_form_checks(ctx, schema, "wire"@, path_expr, inner));
    lemma_part_stays(
        crate::json_schema::checks::schema_closed_check(schema, "wire"@, path_expr, inner),
    );
    if temporal is Some {
        lemma_part_stays(crate::json_schema::ts_text::temporal_validate_text(temporal->Some_0));
    }
}

/// The assignment of what a function returns for a raw text, where that is a value.
pub open spec fn parsed_assignment(
    parse_fn: Seq<char>,
    raw_expr: Seq<char>,
    target: Seq<char>,
    path_expr: Seq<char>,
    indent: Seq<char>,
) -> Seq<char> {
    indent + "  const parsed = "@ + parse_fn + "("@ + raw_expr + ", "@ + path_expr
        + ", violations);\n"@ + indent + "  if (parsed !== undefined) {\n"@ + indent + "    "@
        + target + " = parsed;\n"@
}

/// The parser of a string that is held in another form assigns what its function returns.
proof fn lemma_parsed_is_assigned(
    ctx: TsContext,
    schema: Schema,
    parse_fn: Seq<char>,
    raw_expr: Seq<char>,
    target: Seq<char>,
    path_expr: Seq<char>,
    indent: Seq<char>,
)
    ensures
        crate::json_schema::annotation::has_part(
            crate::json_schema::parse::materialized_parser_text(
                ctx,
                schema,
                parse_fn,
                false,
                raw_expr,
                target,
                path_expr,
                indent,
            ),
            parsed_assignment(parse_fn, raw_expr, target, path_expr, indent),
        ),
{
    let inner = indent + "  "@;
    let assertions = crate::json_schema::checks::string_assertions(
        ctx,
        raw_expr,
        path_expr,
        schema,
        inner,
        false,
    );
    let closed = crate::json_schema::checks::schema_closed_check(
        schema,
        raw_expr,
        path_expr,
        inner,
    );
    let opening = indent + "if (typeof "@ + raw_expr + " !== 'string') {\n"@ + indent
        + "  violations.push({ path: "@ + path_expr + ", reason: 'expected string' });\n"@ + indent
        + "} else {\n"@ + assertions + closed;
    let closing = indent + "  }\n"@ + indent + "}\n"@;
    lemma_assignment_behind(opening, parse_fn, raw_expr, target, path_expr, indent);
    let start = opening + parsed_assignment(parse_fn, raw_expr, target, path_expr, indent);
    assert(start + indent + "  }\n"@ + indent + "}\n"@ =~= start + closing);
    lemma_part_of(
        opening,
        parsed_assignment(parse_fn, raw_expr, target, path_expr, indent),
        closing,
    );
}

/// The pieces of the assignment, written one by one behind a text, are the assignment behind it.
proof fn lemma_assignment_behind(
    opening: Seq<char>,
    parse_fn: Seq<char>,
    raw_expr: Seq<char>,
    target: Seq<char>,
    path_expr: Seq<char>,
    indent: Seq<char>,
)
    ensures
        opening + indent + "  const parsed = "@ + parse_fn + "("@ + raw_expr + ", "@ + path_expr
            + ", violations);\n"@ + indent + "  if (parsed !== undefined) {\n"@ + indent + "    "@
            + target + " = parsed;\n"@ == opening + parsed_assignment(
            parse_fn,
            raw_expr,
            target,
            path_expr,
            indent,
        ),
{
}

/// Where temporal values are held as strings, a temporal text goes through unchanged: the parser of
/// the value assigns what the runtime returns for the text on the wire, which is that text, and the
/// wire form of the value is the value.
pub proof fn law_temporal_text_goes_through_unchanged(
    ctx: TsContext,
    patterns: crate::json_schema::runtime::RuntimePatterns,
    schema: Schema,
    raw_expr: Seq<char>,
    value_expr: Seq<char>,
    target: Seq<char>,
    path_expr: Seq<char>,
    indent: Seq<char>,
    path: Option<Seq<char>>,
    depth: u64,
    follow: u128,
)
    requires
        is_inline(schema),
        crate::json_schema::schema::temporal_kind_of(schema) is Some,
        ctx.repr == crate::output::TsDateTimeTypes::String,
    ensures
        ({
            let kind = crate::json_schema::schema::temporal_kind_of(schema)->Some_0;
            let parser = crate::json_schema::parse::value_parser(
                ctx,
                schema,
                raw_expr,
                target,
                path_expr,
                indent,
                depth,
                follow,
            );
            &&& crate::json_schema::annotation::has_part(
                parser,
                parsed_assignment(
                    crate::json_schema::ts_text::temporal_parse_text(kind),
                    raw_expr,
                    target,
                    path_expr,
                    indent,
                ),
            )
            &&& crate::json_schema::annotation::has_part(
                crate::json_schema::runtime::temporal_helpers(patterns, ctx.repr),
                crate::json_schema::runtime::verbatim_parser_text(kind),
            )
            &&& crate::json_schema::annotation::wire_form(
                ctx,
                schema,
                value_expr,
                path,
                depth,
                follow,
            ) == value_expr
        }),
{
    let kind = crate::json_schema::schema::temporal_kind_of(schema)->Some_0;
    crate::json_schema::ts_text::law_temporal_strings_keep_their_text(patterns, kind, value_expr);
    lemma_parsed_is_assigned(
        ctx,
        schema,
        crate::json_schema::ts_text::temporal_parse_text(kind),
        raw_expr,
        target,
        path_expr,
        indent,
    );
}

/// A string that is held in another form in memory is held to its lengths, its pattern and its
/// values on both sides of the wire: as it is read, and as it would be written. A point in time
/// is also held to its range.
pub proof fn law_wire_form_is_checked_on_both_sides(
    ctx: TsContext,
    schema: Schema,
    raw_expr: Seq<char>,
    value_expr: Seq<char>,
    target: Seq<char>,
    path_expr: Seq<char>,
    indent: Seq<char>,
    depth: u64,
    follow: u128,
)
    requires
        is_inline(schema),
        !is_plain(schema),
    ensures
        ({
            let parser = crate::json_schema::parse::value_parser(
                ctx,
                schema,
                raw_expr,
                target,
                path_expr,
                indent,
                depth,
                follow,
            );
            let checks = crate::json_schema::fields::field_checks(
                ctx,
                schema,
                value_expr,
                path_expr,
                indent,
                depth,
                follow,
            );
            let temporal = crate::json_schema::schema::temporal_kind_of(schema);
            let inner = indent + "  "@ + (if temporal is Some {
                "    "@
            } else {
                "  "@
            });
            &&& crate::json_schema::annotation::has_part(
                parser,
                wire_form_checks(ctx, schema, raw_expr, path_expr, indent + "  "@),
            )
            &&& crate::json_schema::annotation::has_part(
                parser,
                crate::json_schema::checks::schema_closed_check(
                    schema,
                    raw_expr,
                    path_expr,
                    indent + "  "@,
                ),
            )
            &&& wire_form_is_constrained(schema) ==> {
                &&& crate::json_schema::annotation::has_part(
                    checks,
                    wire_form_checks(ctx, schema, "wire"@, path_expr, inner),
                )
                &&& crate::json_schema::annotation::has_part(
                    checks,
                    crate::json_schema::checks::schema_closed_check(
                        schema,
                        "wire"@,
                        path_expr,
                        inner,
                    ),
                )
            }
            &&& temporal is Some ==> crate::json_schema::annotation::has_part(
                checks,
                crate::json_schema::ts_text::temporal_validate_text(temporal->Some_0),
            )
        }),
{
    let inner = indent + "  "@;
    lemma_part_stays(wire_form_checks(ctx, schema, raw_expr, path_expr, inner));
    lemma_part_stays(
        crate::json_schema::checks::schema_closed_check(schema, raw_expr, path_expr, inner),
    );
    let predicate = crate::json_schema::fields::type_test(ctx, schema, value_expr)->Some_0;
    let reason = crate::json_schema::fields::type_reason_text(schema);
    let body = crate::json_schema::fields::field_body(
        ctx,
        schema,
        value_expr,
        path_expr,
        inner,
        depth,
        follow,
    );
    assert(crate::json_schema::fields::field_checks(
        ctx,
        schema,
        value_expr,
        path_expr,
        indent,
        depth,
        follow,
    ) == crate::json_schema::fields::type_guarded_text(predicate, reason, path_expr, indent, body));
    let temporal = crate::json_schema::schema::temporal_kind_of(schema);
    let deeper = inner + (if temporal is Some {
        "    "@
    } else {
        "  "@
    });
    lemma_wire_body(ctx, schema, value_expr, path_expr, inner, depth, follow);
    if wire_form_is_constrained(schema) {
        lemma_guarded_part(
            predicate,
            reason,
            path_expr,
            indent,
            body,
            wire_form_checks(ctx, schema, "wire"@, path_expr, deeper),
        );
        lemma_guarded_part(
            predicate,
            reason,
            path_expr,
            indent,
            body,
            crate::json_schema::checks::schema_closed_check(schema, "wire"@, path_expr, deeper),
        );
    }
    if temporal is Some {
        lemma_guarded_part(
            predicate,
            reason,
            path_expr,
            indent,
            body,
            crate::json_schema::ts_text::temporal_validate_text(temporal->Some_0),
        );
    }
}

/// The parser of a declared member stands in those of all members.
proof fn lemma_member_parser(
    properties: Seq<Property>,
    ctx: TsContext,
    model_name: Seq<char>,
    models: Seq<JsonModel>,
    schema: Schema,
    i: int,
)
    requires
        0 <= i < properties.len(),
        crate::json_schema::model::property_parser_texts(
            properties,
            ctx,
            model_name,
            models,
            schema,
        ) is Ok,
    ensures
        member_parser(properties[i], ctx, model_name, models, schema) is Ok,
        crate::json_schema::annotation::has_part(
            crate::json_schema::model::property_parser_texts(
                properties,
                ctx,
                model_name,
                models,
                schema,
            )->Ok_0,
            member_parser(properties[i], ctx, model_name, models, schema)->Ok_0,
        ),
    decreases properties.len(),
{
    let part = member_parser(properties[i], ctx, model_name, models, schema)->Ok_0;
    let before = crate::json_schema::model::property_parser_texts(
        properties.drop_last(),
        ctx,
        model_name,
        models,
        schema,
    )->Ok_0;
    let last = member_parser(properties.last(), ctx, model_name, models, schema)->Ok_0;
    if i == properties.len() - 1 {
        lemma_whole_part(last);
        lemma_part_before(last, "\n"@, part);
        lemma_part_behind(before, last + "\n"@, part);
    } else {
        assert(properties.drop_last()[i] == properties[i]);
        lemma_member_parser(properties.drop_last(), ctx, model_name, models, schema, i);
        lemma_part_before(before, last + "\n"@, part);
    }
}

/// The parser of a declared member of a model.
pub open spec fn member_parser(
    property: Property,
    ctx: TsContext,
    model_name: Seq<char>,
    models: Seq<JsonModel>,
    schema: Schema,
) -> Result<Seq<char>, ErrorView> {
    crate::json_schema::model::property_parser(
        ctx,
        model_name,
        models,
        property.name@,
        property.schema,
        crate::json_schema::union::member_required(schema, property.name@),
    )
}

/// The serialization of a declared member of a model.
pub open spec fn member_serializer(
    property: Property,
    ctx: TsContext,
    model_name: Seq<char>,
    models: Seq<JsonModel>,
    schema: Schema,
) -> Seq<char> {
    crate::json_schema::model::property_serializer_text(
        ctx,
        model_name,
        property.name@,
        property.schema,
        models,
        crate::json_schema::union::member_required(schema, property.name@),
    )
}

/// The serialization of a declared member stands in those of all members.
proof fn lemma_member_serializer(
    properties: Seq<Property>,
    ctx: TsContext,
    model_name: Seq<char>,
    models: Seq<JsonModel>,
    schema: Schema,
    i: int,
)
    requires
        0 <= i < properties.len(),
    ensures
        crate::json_schema::annotation::has_part(
            crate::json_schema::model::property_serializer_texts(
                properties,
                ctx,
                model_name,
                models,
                schema,
            ),
            member_serializer(properties[i], ctx, model_name, models, schema),
        ),
    decreases properties.len(),
{
    let all = crate::json_schema::model::property_serializer_texts(
        properties,
        ctx,
        model_name,
        models,
        schema,
    );
    let before = crate::json_schema::model::property_serializer_texts(
        properties.drop_last(),
        ctx,
        model_name,
        models,
        schema,
    );
    let last = member_serializer(properties.last(), ctx, model_name, models, schema);
    assert(all =~= before + last + Seq::<char>::empty());
    if i == properties.len() - 1 {
        lemma_part_of(before, last, Seq::empty());
    } else {
        lemma_member_serializer(properties.drop_last(), ctx, model_name, models, schema, i);
        assert(properties.drop_last()[i] == properties[i]);
        let part = member_serializer(properties[i], ctx, model_name, models, schema);
        lemma_part_of_part(Seq::empty(), before, last, part);
        assert(all =~= Seq::<char>::empty() + before + last);
    }
}

/// Every declared member of a model is parsed and serialized, each with its checks. On both sides
/// the violations of all members are gathered and thrown together.
pub proof fn law_every_member_crosses_the_wire(
    ctx: TsContext,
    model_name: Seq<char>,
    schema: Schema,
    models: Seq<JsonModel>,
    i: int,
)
    requires
        schema.properties is Some,
        0 <= i < schema.properties->Some_0@.len(),
        crate::json_schema::annotation::map_shape(ctx, schema) == Ok::<
            Option<crate::json_schema::annotation::MapShape>,
            ErrorView,
        >(None),
        crate::json_schema::model::model_parser(ctx, model_name, schema, models) is Ok,
        crate::json_schema::model::model_serializer(ctx, model_name, schema, models) is Ok,
    ensures
        ({
            let property = schema.properties->Some_0@[i];
            let parser = crate::json_schema::model::model_parser(
                ctx,
                model_name,
                schema,
                models,
            )->Ok_0;
            let serializer = crate::json_schema::model::model_serializer(
                ctx,
                model_name,
                schema,
                models,
            )->Ok_0;
            &&& member_parser(property, ctx, model_name, models, schema) is Ok
            &&& crate::json_schema::annotation::has_part(
                parser,
                member_parser(property, ctx, model_name, models, schema)->Ok_0,
            )
            &&& crate::json_schema::annotation::has_part(
                parser,
                "  if (violations.length) {\n    throw createPayloadValidationError(violations);\n  }\n"@,
            )
            &&& crate::json_schema::annotation::has_part(
                serializer,
                "  const violations: __nexgenDefinitions.Violation[] = [];\n"@,
            )
            &&& crate::json_schema::annotation::has_part(
                serializer,
                member_serializer(property, ctx, model_name, models, schema),
            )
            &&& crate::json_schema::annotation::has_part(
                serializer,
                "  if (violations.length) {\n    throw createPayloadValidationError(violations);\n  }\n"@,
            )
        }),
{
    let properties = schema.properties->Some_0@;
    let property = properties[i];
    let parser = crate::json_schema::model::model_parser(ctx, model_name, schema, models)->Ok_0;
    let serializer = crate::json_schema::model::model_serializer(
        ctx,
        model_name,
        schema,
        models,
    )->Ok_0;
    lemma_member_parser(properties, ctx, model_name, models, schema, i);
    lemma_member_serializer(properties, ctx, model_name, models, schema, i);

    let members = crate::json_schema::model::property_parser_texts(
        properties,
        ctx,
        model_name,
        models,
        schema,
    )->Ok_0;
    let thrown = "  if (violations.length) {\n    throw createPayloadValidationError(violations);\n  }\n"@;
    let others = crate::json_schema::model::other_members(ctx, model_name, schema)->Ok_0;
    let counts = crate::json_schema::checks::property_count_checks(
        "Object.keys(raw).length"@,
        schema,
        "  "@,
    );
    let dependencies = crate::json_schema::checks::dependent_required_text("raw"@, schema, "  "@);
    let result = crate::json_schema::model::parser_result_text(model_name, schema);
    let opened = "  const violations: __nexgenDefinitions.Violation[] = [];\n  if (!__nexgenDefinitions.isPlainObject(raw)) {\n    throw createPayloadValidationError([{ path: '', reason: 'expected object' }]);\n  }\n\n"@;
    let part = member_parser(property, ctx, model_name, models, schema)->Ok_0;
    lemma_part_behind(opened, members, part);
    lemma_part_before(opened + members, others, part);
    lemma_part_before(opened + members + others, counts, part);
    lemma_part_before(opened + members + others + counts, dependencies, part);
    lemma_whole_part(thrown);
    let checked = opened + members + others + counts + dependencies;
    lemma_part_before(checked, thrown, part);
    lemma_part_behind(checked, thrown, thrown);
    lemma_part_before(checked + thrown, result, part);
    lemma_part_before(checked + thrown, result, thrown);
    assert(parser == checked + thrown + result);

    let written = crate::json_schema::model::property_serializer_texts(
        properties,
        ctx,
        model_name,
        models,
        schema,
    );
    let needs_validation = crate::json_schema::fields::validates_on_wire(schema)->Ok_0;
    assert(needs_validation);
    let violations = "  const violations: __nexgenDefinitions.Violation[] = [];\n"@;
    let start = "  const candidate: unknown = value;\n  if (!__nexgenDefinitions.isPlainObject(candidate)) {\n    throw createPayloadValidationError([{ path: '', reason: 'expected object' }]);\n  }\n"@
        + violations
        + "  const out: Record<string, unknown> = Object.create(null) as Record<string, unknown>;\n"@;
    let open = crate::json_schema::model::open_members(ctx, model_name, schema)->Ok_0;
    let end = crate::json_schema::model::serializer_result_text(schema, needs_validation);
    let part = member_serializer(property, ctx, model_name, models, schema);
    lemma_part_behind(start, written, part);
    lemma_part_before(start + written, open, part);
    lemma_part_before(start + written + open, end, part);
    assert(serializer == start + written + open + end);
    lemma_part_stays(violations);
    assert(crate::json_schema::annotation::has_part(start, violations));
    assert(crate::json_schema::annotation::has_part(start + written + open, violations));
    lemma_part_stays(thrown);
    assert(crate::json_schema::annotation::has_part(end, thrown));
}

/// The checks of a declared member stand in its serialization.
pub proof fn law_members_are_checked_before_they_are_written(
    ctx: TsContext,
    model_name: Seq<char>,
    property: Property,
    models: Seq<JsonModel>,
    schema: Schema,
)
    ensures
        exists|indent: Seq<char>|
            crate::json_schema::annotation::has_part(
                member_serializer(property, ctx, model_name, models, schema),
                #[trigger] crate::json_schema::fields::property_checks(
                    ctx,
                    property.name@,
                    property.schema,
                    indent,
                ),
            ),
{
    let name = property.name@;
    let required = crate::json_schema::union::member_required(schema, name);
    let nullable = crate::json_schema::annotation::null_allowed(property.schema);
    let indent = if required && nullable {
        "  "@
    } else if required || nullable {
        "    "@
    } else {
        "      "@
    };
    let field_name = crate::json_schema::schema::member_name_text(property.schema, name);
    let value_expr = "value."@ + field_name;
    let path_expr = crate::json_schema::ts_text::violation_path(name);
    let assignment = crate::json_schema::model::property_wire_expr(
        ctx,
        model_name,
        name,
        property.schema,
        models,
        value_expr,
        path_expr,
    );
    let checks = crate::json_schema::fields::property_checks(
        ctx,
        name,
        property.schema,
        indent,
    );
    let gated = crate::json_schema::model::gated_text(
        name,
        field_name,
        value_expr,
        assignment,
        checks,
        indent,
    );
    let head = if assignment == value_expr {
        Seq::<char>::empty()
    } else {
        indent + "const "@ + field_name + "ViolationCount = violations.length;\n"@
    };
    let tail = gated.skip((head.len() + checks.len()) as int);
    assert(gated =~= head + checks + tail);
    lemma_part_of(head, checks, tail);
    let whole = member_serializer(property, ctx, model_name, models, schema);
    let before = if required && nullable {
        Seq::<char>::empty()
    } else if required {
        "  if ("@ + value_expr + " === undefined || "@ + value_expr
            + " === null) {\n    violations.push({ path: "@ + path_expr
            + ", reason: 'required' });\n  } else {\n"@
    } else if nullable {
        "  if (value."@ + field_name + " !== undefined) {\n"@
    } else {
        "  if (value."@ + field_name + " !== undefined) {\n    if ("@ + value_expr
            + " === null) {\n      violations.push({ path: "@ + path_expr
            + ", reason: 'explicit null not allowed' });\n    } else {\n"@
    };
    let after = whole.skip((before.len() + gated.len()) as int);
    assert(whole =~= before + gated + after);
    lemma_part_of_part(before, gated, after, checks);
}

} // verus!
