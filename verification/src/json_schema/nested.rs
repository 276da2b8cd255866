//! That the values inside of others are checked on both sides of the wire: the elements of arrays,
//! the values beside `null`, the members of maps and of unions, and the models that are referred
//! to.

use vstd::prelude::*;

use crate::json_schema::schema::Schema;
use crate::json_schema::ts_text::{JsonModel, TsContext};

verus! {

/// A part of a part of a text is a part of the text.
pub proof fn lemma_part_within(text: Seq<char>, middle: Seq<char>, part: Seq<char>)
    requires
        crate::json_schema::annotation::has_part(text, middle),
        crate::json_schema::annotation::has_part(middle, part),
    ensures
        crate::json_schema::annotation::has_part(text, part),
{
    let i = choose|i: int|
        0 <= i <= text.len() && crate::text::has_prefix(#[trigger] text.skip(i), middle);
    let before = text.take(i);
    let after = text.skip(i + middle.len());
    assert(text.skip(i).take(middle.len() as int) =~= middle);
    assert(text =~= before + middle + after);
    crate::json_schema::sides::lemma_part_of_part(before, middle, after, part);
}

/// The checks of a plain value are those of its kind, so a value that is not checked has none.
proof fn lemma_unchecked_is_empty(
    ctx: TsContext,
    schema: Schema,
    expr: Seq<char>,
    path_expr: Seq<char>,
    indent: Seq<char>,
)
    requires
        crate::json_schema::sides::is_plain(schema),
        !crate::json_schema::fields::checked_on_wire(schema),
    ensures
        crate::json_schema::sides::shared_checks(ctx, schema, expr, path_expr, indent)
            == Seq::<char>::empty(),
{
}

/// The elements of an array are parsed and checked one by one, on both sides of the wire: the
/// parser of an element stands in that of the array, and its checks in those of the array. Where
/// an element is plain, its checks are the same on both sides.
pub proof fn law_elements_are_checked_on_both_sides(
    ctx: TsContext,
    schema: Schema,
    items: Schema,
    raw_expr: Seq<char>,
    value_expr: Seq<char>,
    target: Seq<char>,
    path_expr: Seq<char>,
    indent: Seq<char>,
    depth: u64,
    follow: u128,
)
    requires
        crate::json_schema::sides::is_plain(schema),
        schema.const_value is None,
        schema.enum_values is None,
        crate::json_schema::schema::has_type(schema, "array"@),
        schema.items == Some(Box::new(items)),
    ensures
        ({
            let suffix = crate::json_schema::ts_text::depth_suffix(depth);
            let inside = crate::json_schema::ts_text::deeper(depth);
            let element = "element"@ + suffix;
            let item = "item"@ + suffix;
            let item_path = crate::json_schema::ts_text::indexed_path(path_expr, "index"@ + suffix);
            let parse_indent = indent + "    "@;
            let check_indent = crate::json_schema::fields::guarded_indent(
                crate::json_schema::annotation::null_allowed(items),
                indent + "  "@ + "  "@,
            );
            let parser = crate::json_schema::parse::value_parser(
                ctx,
                schema,
                raw_expr,
                target,
                path_expr,
                indent,
                depth,
                follow,
            );
            let checks = crate::json_schema::fields::field_checks(
                ctx,
                schema,
                value_expr,
                path_expr,
                indent,
                depth,
                follow,
            );
            &&& crate::json_schema::annotation::has_part(
                parser,
                crate::json_schema::parse::value_parser(
                    ctx,
                    items,
                    element,
                    item,
                    item_path,
                    parse_indent,
                    inside,
                    follow,
                ),
            )
            &&& crate::json_schema::fields::checked_on_wire(items)
                ==> crate::json_schema::annotation::has_part(
                checks,
                crate::json_schema::fields::field_checks(
                    ctx,
                    items,
                    element,
                    item_path,
                    check_indent,
                    inside,
                    follow,
                ),
            )
            &&& crate::json_schema::sides::is_plain(items) ==> {
                &&& crate::json_schema::annotation::has_part(
                    parser,
                    crate::json_schema::sides::shared_checks(
                        ctx,
                        items,
                        element,
                        item_path,
                        parse_indent + "  "@,
                    ),
                )
                &&& crate::json_schema::annotation::has_part(
                    checks,
                    crate::json_schema::sides::shared_checks(
                        ctx,
                        items,
                        element,
                        item_path,
                        check_indent + "  "@,
                    ),
                )
            }
        }),
{
    crate::json_schema::sides::lemma_types_differ();
    let suffix = crate::json_schema::ts_text::depth_suffix(depth);
    let inside = crate::json_schema::ts_text::deeper(depth);
    let element = "element"@ + suffix;
    let item = "item"@ + suffix;
    let item_path = crate::json_schema::ts_text::indexed_path(path_expr, "index"@ + suffix);
    let parse_indent = indent + "    "@;
    let inner = indent + "  "@;
    let nullable = crate::json_schema::annotation::null_allowed(items);
    let check_indent = crate::json_schema::fields::guarded_indent(nullable, inner + "  "@);
    let parser = crate::json_schema::parse::value_parser(
        ctx,
        schema,
        raw_expr,
        target,
        path_expr,
        indent,
        depth,
        follow,
    );
    let checks = crate::json_schema::fields::field_checks(
        ctx,
        schema,
        value_expr,
        path_expr,
        indent,
        depth,
        follow,
    );
    let item_parser = crate::json_schema::parse::value_parser(
        ctx,
        items,
        element,
        item,
        item_path,
        parse_indent,
        inside,
        follow,
    );
    let item_checks = crate::json_schema::fields::field_checks(
        ctx,
        items,
        element,
        item_path,
        check_indent,
        inside,
        follow,
    );
    assert(parser == crate::json_schema::parse::array_parser(
        ctx,
        schema,
        raw_expr,
        target,
        path_expr,
        indent,
        depth,
        follow,
    ));
    assert(crate::json_schema::annotation::has_part(parser, item_parser)) by {
        crate::json_schema::sides::lemma_part_stays(item_parser);
    }
    if crate::json_schema::fields::checked_on_wire(items) {
        lemma_element_checks(ctx, schema, items, value_expr, path_expr, indent, depth, follow);
    }
    if crate::json_schema::sides::is_plain(items) {
        crate::json_schema::sides::law_checks_stand_on_both_sides(
            ctx,
            items,
            element,
            element,
            item,
            item_path,
            parse_indent,
            inside,
            follow,
        );
        let read = crate::json_schema::sides::shared_checks(
            ctx,
            items,
            element,
            item_path,
            parse_indent + "  "@,
        );
        lemma_part_within(parser, item_parser, read);
        let written = crate::json_schema::sides::shared_checks(
            ctx,
            items,
            element,
            item_path,
            check_indent + "  "@,
        );
        if crate::json_schema::fields::checked_on_wire(items) {
            crate::json_schema::sides::law_checks_stand_on_both_sides(
                ctx,
                items,
                element,
                element,
                item,
                item_path,
                check_indent,
                inside,
                follow,
            );
            lemma_part_within(checks, item_checks, written);
        } else {
            lemma_unchecked_is_empty(ctx, items, element, item_path, check_indent + "  "@);
            crate::json_schema::sides::lemma_empty_part(checks);
        }
    }
}

/// The checks of an element stand in those of its array.
proof fn lemma_element_checks(
    ctx: TsContext,
    schema: Schema,
    items: Schema,
    value_expr: Seq<char>,
    path_expr: Seq<char>,
    indent: Seq<char>,
    depth: u64,
    follow: u128,
)
    requires
        crate::json_schema::sides::is_plain(schema),
        schema.const_value is None,
        schema.enum_values is None,
        crate::json_schema::schema::has_type(schema, "array"@),
        schema.items == Some(Box::new(items)),
        crate::json_schema::fields::checked_on_wire(items),
    ensures
        crate::json_schema::annotation::has_part(
            crate::json_schema::fields::field_checks(
                ctx,
                schema,
                value_expr,
                path_expr,
                indent,
                depth,
                follow,
            ),
            crate::json_schema::fields::field_checks(
                ctx,
                items,
                "element"@ + crate::json_schema::ts_text::depth_suffix(depth),
                crate::json_schema::ts_text::indexed_path(
                    path_expr,
                    "index"@ + crate::json_schema::ts_text::depth_suffix(depth),
                ),
                crate::json_schema::fields::guarded_indent(
                    crate::json_schema::annotation::null_allowed(items),
                    indent + "  "@ + "  "@,
                ),
                crate::json_schema::ts_text::deeper(depth),
                follow,
            ),
        ),
{
    crate::json_schema::sides::lemma_types_differ();
    let suffix = crate::json_schema::ts_text::depth_suffix(depth);
    let element = "element"@ + suffix;
    let inner = indent + "  "@;
    let nullable = crate::json_schema::annotation::null_allowed(items);
    let part = crate::json_schema::fields::field_checks(
        ctx,
        items,
        element,
        crate::json_schema::ts_text::indexed_path(path_expr, "index"@ + suffix),
        crate::json_schema::fields::guarded_indent(nullable, inner + "  "@),
        crate::json_schema::ts_text::deeper(depth),
        follow,
    );
    let elements = crate::json_schema::fields::element_checks(
        ctx,
        schema,
        value_expr,
        path_expr,
        inner,
        depth,
        follow,
    );
    let body = crate::json_schema::fields::field_body(
        ctx,
        schema,
        value_expr,
        path_expr,
        inner,
        depth,
        follow,
    );
    crate::json_schema::sides::lemma_part_stays(part);
    assert(crate::json_schema::annotation::has_part(elements, part));
    assert(crate::json_schema::union::union_of(ctx, Seq::empty(), schema) is None);
    assert(crate::json_schema::annotation::has_part(body, part));
    let predicate = crate::json_schema::fields::type_test(ctx, schema, value_expr)->Some_0;
    let reason = crate::json_schema::fields::type_reason_text(schema);
    crate::json_schema::sides::lemma_guarded_part(
        predicate,
        reason,
        path_expr,
        indent,
        body,
        part,
    );
    assert(crate::json_schema::fields::field_checks(
        ctx,
        schema,
        value_expr,
        path_expr,
        indent,
        depth,
        follow,
    ) == crate::json_schema::fields::type_guarded_text(predicate, reason, path_expr, indent, body));
}

/// The value beside `null` is parsed and checked on both sides of the wire: its parser stands in
/// that of the nullable value, and its checks are those of the nullable value. Where it is plain,
/// its checks are the same on both sides.
pub proof fn law_value_beside_null_is_checked_on_both_sides(
    ctx: TsContext,
    schema: Schema,
    branch: Schema,
    raw_expr: Seq<char>,
    value_expr: Seq<char>,
    target: Seq<char>,
    path_expr: Seq<char>,
    indent: Seq<char>,
    depth: u64,
    follow: u128,
)
    requires
        schema.reference is None,
        crate::json_schema::annotation::has_null_branch(schema),
        crate::json_schema::annotation::nullable_branch_of(schema) == Some(branch),
    ensures
        ({
            let inner = indent + "  "@;
            let parser = crate::json_schema::parse::value_parser(
                ctx,
                schema,
                raw_expr,
                target,
                path_expr,
                indent,
                depth,
                follow,
            );
            let checks = crate::json_schema::fields::field_checks(
                ctx,
                schema,
                value_expr,
                path_expr,
                indent,
                depth,
                follow,
            );
            &&& crate::json_schema::annotation::has_part(
                parser,
                crate::json_schema::parse::value_parser(
                    ctx,
                    branch,
                    raw_expr,
                    target,
                    path_expr,
                    inner,
                    depth,
                    follow,
                ),
            )
            &&& checks == crate::json_schema::fields::field_checks(
                ctx,
                branch,
                value_expr,
                path_expr,
                indent,
                depth,
                follow,
            )
            &&& crate::json_schema::sides::is_plain(branch) ==> {
                &&& crate::json_schema::annotation::has_part(
                    parser,
                    crate::json_schema::sides::shared_checks(
                        ctx,
                        branch,
                        raw_expr,
                        path_expr,
                        inner + "  "@,
                    ),
                )
                &&& crate::json_schema::annotation::has_part(
                    checks,
                    crate::json_schema::sides::shared_checks(
                        ctx,
                        branch,
                        value_expr,
                        path_expr,
                        inner,
                    ),
                )
            }
        }),
{
    let inner = indent + "  "@;
    let parser = crate::json_schema::parse::value_parser(
        ctx,
        schema,
        raw_expr,
        target,
        path_expr,
        indent,
        depth,
        follow,
    );
    let branch_parser = crate::json_schema::parse::value_parser(
        ctx,
        branch,
        raw_expr,
        target,
        path_expr,
        inner,
        depth,
        follow,
    );
    assert(crate::json_schema::annotation::branch_beside_null(schema) == Some(branch));
    assert(crate::json_schema::annotation::has_part(parser, branch_parser)) by {
        crate::json_schema::sides::lemma_part_stays(branch_parser);
    }
    if crate::json_schema::sides::is_plain(branch) {
        crate::json_schema::sides::law_checks_stand_on_both_sides(
            ctx,
            branch,
            raw_expr,
            value_expr,
            target,
            path_expr,
            inner,
            depth,
            follow,
        );
        crate::json_schema::sides::law_checks_stand_on_both_sides(
            ctx,
            branch,
            raw_expr,
            value_expr,
            target,
            path_expr,
            indent,
            depth,
            follow,
        );
        lemma_part_within(
            parser,
            branch_parser,
            crate::json_schema::sides::shared_checks(
                ctx,
                branch,
                raw_expr,
                path_expr,
                inner + "  "@,
            ),
        );
    }
}

/// The test that a value is an object stands on both sides of the wire.
pub proof fn law_objects_are_tested_on_both_sides(
    ctx: TsContext,
    schema: Schema,
    raw_expr: Seq<char>,
    value_expr: Seq<char>,
    target: Seq<char>,
    path_expr: Seq<char>,
    indent: Seq<char>,
    depth: u64,
    follow: u128,
)
    requires
        crate::json_schema::sides::is_plain(schema),
        schema.const_value is None,
        schema.enum_values is None,
        crate::json_schema::schema::has_type(schema, "object"@),
    ensures
        crate::json_schema::annotation::has_part(
            crate::json_schema::parse::value_parser(
                ctx,
                schema,
                raw_expr,
                target,
                path_expr,
                indent,
                depth,
                follow,
            ),
            "__nexgenDefinitions.isPlainObject("@ + raw_expr + ")"@,
        ),
        crate::json_schema::annotation::has_part(
            crate::json_schema::fields::field_checks(
                ctx,
                schema,
                value_expr,
                path_expr,
                indent,
                depth,
                follow,
            ),
            "__nexgenDefinitions.isPlainObject("@ + value_expr + ")"@,
        ),
{
    crate::json_schema::sides::lemma_types_differ();
    let read = "__nexgenDefinitions.isPlainObject("@ + raw_expr + ")"@;
    let parser = crate::json_schema::parse::value_parser(
        ctx,
        schema,
        raw_expr,
        target,
        path_expr,
        indent,
        depth,
        follow,
    );
    let opening = "if (!__nexgenDefinitions.isPlainObject("@;
    reveal_strlit("if (!__nexgenDefinitions.isPlainObject(");
    reveal_strlit("__nexgenDefinitions.isPlainObject(");
    reveal_strlit("if (!");
    reveal_strlit(")");
    reveal_strlit(")) {\n");
    reveal_strlit(") {\n");
    assert(opening =~= "if (!"@ + "__nexgenDefinitions.isPlainObject("@);
    assert(")) {\n"@ =~= ")"@ + ") {\n"@);
    let rest = parser.skip(
        (indent.len() + opening.len() + raw_expr.len() + ")) {\n"@.len()) as int,
    );
    assert(parser =~= indent + opening + raw_expr + ")) {\n"@ + rest);
    assert(parser =~= (indent + "if (!"@) + read + (") {\n"@ + rest));
    crate::json_schema::sides::lemma_part_of(indent + "if (!"@, read, ") {\n"@ + rest);
    let written = "__nexgenDefinitions.isPlainObject("@ + value_expr + ")"@;
    assert(crate::json_schema::fields::type_test(ctx, schema, value_expr) == Some(written));
    crate::json_schema::sides::lemma_part_stays(written);
}

/// The checks of an object that is written in place as a whole stand on both sides of the wire.
pub proof fn law_whole_objects_are_checked_on_both_sides(
    ctx: TsContext,
    schema: Schema,
    raw_expr: Seq<char>,
    value_expr: Seq<char>,
    target: Seq<char>,
    path_expr: Seq<char>,
    indent: Seq<char>,
    depth: u64,
    follow: u128,
)
    requires
        crate::json_schema::sides::is_plain(schema),
        schema.const_value is None,
        schema.enum_values is None,
        crate::json_schema::schema::has_type(schema, "object"@),
    ensures
        crate::json_schema::annotation::has_part(
            crate::json_schema::parse::value_parser(
                ctx,
                schema,
                raw_expr,
                target,
                path_expr,
                indent,
                depth,
                follow,
            ),
            crate::json_schema::object::object_constraints(
                ctx,
                schema,
                crate::json_schema::parse::raw_record(raw_expr),
                path_expr,
                crate::json_schema::ts_text::depth_suffix(depth),
                indent + "  "@,
            ),
        ),
        crate::json_schema::annotation::has_part(
            crate::json_schema::fields::field_checks(
                ctx,
                schema,
                value_expr,
                path_expr,
                indent,
                depth,
                follow,
            ),
            crate::json_schema::object::object_constraints(
                ctx,
                schema,
                value_expr,
                path_expr,
                crate::json_schema::ts_text::depth_suffix(depth),
                indent + "  "@,
            ),
        ),
{
    crate::json_schema::sides::lemma_types_differ();
    let suffix = crate::json_schema::ts_text::depth_suffix(depth);
    let inner = indent + "  "@;
    let read = crate::json_schema::object::object_constraints(
        ctx,
        schema,
        crate::json_schema::parse::raw_record(raw_expr),
        path_expr,
        suffix,
        inner,
    );
    let assigned = crate::json_schema::parse::object_body(
        ctx,
        schema,
        raw_expr,
        target,
        path_expr,
        inner,
        depth,
        follow,
    );
    assert(crate::json_schema::annotation::has_part(assigned, read)) by {
        crate::json_schema::sides::lemma_part_stays(read);
    }
    assert(crate::json_schema::annotation::has_part(
        crate::json_schema::parse::object_parser(raw_expr, path_expr, indent, assigned),
        read,
    )) by {
        crate::json_schema::sides::lemma_part_stays(read);
    }
    let written = crate::json_schema::object::object_constraints(
        ctx,
        schema,
        value_expr,
        path_expr,
        suffix,
        inner,
    );
    let body = crate::json_schema::fields::field_body(
        ctx,
        schema,
        value_expr,
        path_expr,
        inner,
        depth,
        follow,
    );
    assert(crate::json_schema::union::union_of(ctx, Seq::empty(), schema) is None);
    assert(crate::json_schema::annotation::has_part(body, written)) by {
        crate::json_schema::sides::lemma_part_stays(written);
        let entries = crate::json_schema::fields::entry_checks(
            ctx,
            schema,
            value_expr,
            path_expr,
            inner,
            depth,
            follow,
        );
        assert(body == entries + written);
    }
    let predicate = crate::json_schema::fields::type_test(ctx, schema, value_expr)->Some_0;
    let reason = crate::json_schema::fields::type_reason_text(schema);
    crate::json_schema::sides::lemma_guarded_part(
        predicate,
        reason,
        path_expr,
        indent,
        body,
        written,
    );
    assert(crate::json_schema::fields::field_checks(
        ctx,
        schema,
        value_expr,
        path_expr,
        indent,
        depth,
        follow,
    ) == crate::json_schema::fields::type_guarded_text(predicate, reason, path_expr, indent, body));
}

/// The members of a map that is written in place are parsed and checked one by one, on both sides
/// of the wire. Where a member is plain, its checks are the same on both sides.
pub proof fn law_map_members_are_checked_on_both_sides(
    ctx: TsContext,
    schema: Schema,
    members: Schema,
    raw_expr: Seq<char>,
    value_expr: Seq<char>,
    target: Seq<char>,
    path_expr: Seq<char>,
    indent: Seq<char>,
    depth: u64,
    follow: u128,
)
    requires
        crate::json_schema::sides::is_plain(schema),
        schema.const_value is None,
        schema.enum_values is None,
        crate::json_schema::annotation::map_values(schema) == Some(members),
    ensures
        ({
            let suffix = crate::json_schema::ts_text::depth_suffix(depth);
            let inside = crate::json_schema::ts_text::deeper(depth);
            let raw_entry = "__raw"@ + suffix;
            let entry = "__entry"@ + suffix;
            let entry_path = crate::json_schema::ts_text::keyed_path(path_expr, "__key"@ + suffix);
            let parse_indent = indent + "  "@ + "  "@;
            let check_indent = crate::json_schema::fields::guarded_indent(
                crate::json_schema::annotation::null_allowed(members),
                parse_indent,
            );
            let parser = crate::json_schema::parse::value_parser(
                ctx,
                schema,
                raw_expr,
                target,
                path_expr,
                indent,
                depth,
                follow,
            );
            let checks = crate::json_schema::fields::field_checks(
                ctx,
                schema,
                value_expr,
                path_expr,
                indent,
                depth,
                follow,
            );
            &&& crate::json_schema::annotation::has_part(
                parser,
                crate::json_schema::parse::value_parser(
                    ctx,
                    members,
                    raw_entry,
                    entry,
                    entry_path,
                    parse_indent,
                    inside,
                    follow,
                ),
            )
            &&& crate::json_schema::fields::checked_on_wire(members)
                ==> crate::json_schema::annotation::has_part(
                checks,
                crate::json_schema::fields::field_checks(
                    ctx,
                    members,
                    entry,
                    entry_path,
                    check_indent,
                    inside,
                    follow,
                ),
            )
            &&& crate::json_schema::sides::is_plain(members) ==> {
                &&& crate::json_schema::annotation::has_part(
                    parser,
                    crate::json_schema::sides::shared_checks(
                        ctx,
                        members,
                        raw_entry,
                        entry_path,
                        parse_indent + "  "@,
                    ),
                )
                &&& crate::json_schema::annotation::has_part(
                    checks,
                    crate::json_schema::sides::shared_checks(
                        ctx,
                        members,
                        entry,
                        entry_path,
                        check_indent + "  "@,
                    ),
                )
            }
        }),
{
    crate::json_schema::sides::lemma_types_differ();
    let suffix = crate::json_schema::ts_text::depth_suffix(depth);
    let inside = crate::json_schema::ts_text::deeper(depth);
    let raw_entry = "__raw"@ + suffix;
    let entry = "__entry"@ + suffix;
    let entry_path = crate::json_schema::ts_text::keyed_path(path_expr, "__key"@ + suffix);
    let inner = indent + "  "@;
    let parse_indent = inner + "  "@;
    let nullable = crate::json_schema::annotation::null_allowed(members);
    let check_indent = crate::json_schema::fields::guarded_indent(nullable, parse_indent);
    let parser = crate::json_schema::parse::value_parser(
        ctx,
        schema,
        raw_expr,
        target,
        path_expr,
        indent,
        depth,
        follow,
    );
    let checks = crate::json_schema::fields::field_checks(
        ctx,
        schema,
        value_expr,
        path_expr,
        indent,
        depth,
        follow,
    );
    let member_parser = crate::json_schema::parse::value_parser(
        ctx,
        members,
        raw_entry,
        entry,
        entry_path,
        parse_indent,
        inside,
        follow,
    );
    let member_checks = crate::json_schema::fields::field_checks(
        ctx,
        members,
        entry,
        entry_path,
        check_indent,
        inside,
        follow,
    );
    let assigned = crate::json_schema::parse::object_body(
        ctx,
        schema,
        raw_expr,
        target,
        path_expr,
        inner,
        depth,
        follow,
    );
    assert(parser == crate::json_schema::parse::object_parser(
        raw_expr,
        path_expr,
        indent,
        assigned,
    ));
    assert(crate::json_schema::annotation::has_part(parser, member_parser)) by {
        crate::json_schema::sides::lemma_part_stays(member_parser);
        assert(crate::json_schema::annotation::has_part(assigned, member_parser));
    }
    if crate::json_schema::fields::checked_on_wire(members) {
        let entries = crate::json_schema::fields::entry_checks(
            ctx,
            schema,
            value_expr,
            path_expr,
            inner,
            depth,
            follow,
        );
        let predicate = crate::json_schema::fields::type_test(ctx, schema, value_expr)->Some_0;
        let reason = crate::json_schema::fields::type_reason_text(schema);
        assert(crate::json_schema::annotation::has_part(entries, member_checks)) by {
            crate::json_schema::sides::lemma_part_stays(member_checks);
        }
        assert(crate::json_schema::union::union_of(ctx, Seq::empty(), schema) is None);
        let body = crate::json_schema::fields::field_body(
            ctx,
            schema,
            value_expr,
            path_expr,
            inner,
            depth,
            follow,
        );
        assert(crate::json_schema::annotation::has_part(body, member_checks)) by {
            crate::json_schema::sides::lemma_part_stays(member_checks);
        }
        crate::json_schema::sides::lemma_guarded_part(
            predicate,
            reason,
            path_expr,
            indent,
            body,
            member_checks,
        );
        assert(checks == crate::json_schema::fields::type_guarded_text(
            predicate,
            reason,
            path_expr,
            indent,
            body,
        ));
    }
    if crate::json_schema::sides::is_plain(members) {
        crate::json_schema::sides::law_checks_stand_on_both_sides(
            ctx,
            members,
            raw_entry,
            entry,
            entry,
            entry_path,
            parse_indent,
            inside,
            follow,
        );
        let read = crate::json_schema::sides::shared_checks(
            ctx,
            members,
            raw_entry,
            entry_path,
            parse_indent + "  "@,
        );
        lemma_part_within(parser, member_parser, read);
        let written = crate::json_schema::sides::shared_checks(
            ctx,
            members,
            entry,
            entry_path,
            check_indent + "  "@,
        );
        if crate::json_schema::fields::checked_on_wire(members) {
            crate::json_schema::sides::law_checks_stand_on_both_sides(
                ctx,
                members,
                raw_entry,
                entry,
                entry,
                entry_path,
                check_indent,
                inside,
                follow,
            );
            lemma_part_within(checks, member_checks, written);
        } else {
            lemma_unchecked_is_empty(ctx, members, entry, entry_path, check_indent + "  "@);
            crate::json_schema::sides::lemma_empty_part(checks);
        }
    }
}

/// A model that is referred to is parsed and serialized by its converter, and what that reports is
/// collected under the path of the reference.
pub proof fn law_references_are_checked_by_their_converters(
    ctx: TsContext,
    schema: Schema,
    reference: Seq<char>,
    raw_expr: Seq<char>,
    value_expr: Seq<char>,
    target: Seq<char>,
    path_expr: Seq<char>,
    indent: Seq<char>,
    depth: u64,
    follow: u128,
)
    requires
        schema.reference matches Some(text) && text@ == reference,
    ensures
        ({
            let converter = crate::json_schema::ts_text::converter_name(
                crate::json_schema::ts_text::referenced_model(ctx, reference),
            );
            let parser = crate::json_schema::parse::value_parser(
                ctx,
                schema,
                raw_expr,
                target,
                path_expr,
                indent,
                depth,
                follow,
            );
            let written = crate::json_schema::annotation::wire_form(
                ctx,
                schema,
                value_expr,
                Some(path_expr),
                depth,
                follow,
            );
            let collected = "__nexgenDefinitions.collect(violations, "@ + path_expr + ", error);"@;
            &&& crate::json_schema::annotation::has_part(
                parser,
                converter + ".fromTransferType("@ + raw_expr + ")"@,
            )
            &&& crate::json_schema::annotation::has_part(parser, collected)
            &&& crate::json_schema::annotation::has_part(
                written,
                converter + ".toTransferType("@ + value_expr + ")"@,
            )
            &&& crate::json_schema::annotation::has_part(written, collected)
        }),
{
    let converter = crate::json_schema::ts_text::converter_name(
        crate::json_schema::ts_text::referenced_model(ctx, reference),
    );
    let parser = crate::json_schema::parse::value_parser(
        ctx,
        schema,
        raw_expr,
        target,
        path_expr,
        indent,
        depth,
        follow,
    );
    let written = crate::json_schema::annotation::wire_form(
        ctx,
        schema,
        value_expr,
        Some(path_expr),
        depth,
        follow,
    );
    let collected = "__nexgenDefinitions.collect(violations, "@ + path_expr + ", error);"@;
    let read_call = converter + ".fromTransferType("@ + raw_expr + ")"@;
    reveal_strlit(");\n");
    reveal_strlit(")");
    reveal_strlit(";\n");
    reveal_strlit("  __nexgenDefinitions.collect(violations, ");
    reveal_strlit("__nexgenDefinitions.collect(violations, ");
    reveal_strlit("  ");
    reveal_strlit(", error);\n");
    reveal_strlit(", error);");
    reveal_strlit("\n");
    reveal_strlit("; } catch (error) { __nexgenDefinitions.collect(violations, ");
    reveal_strlit("; } catch (error) { ");
    reveal_strlit(", error); return undefined; } })()");
    reveal_strlit(" return undefined; } })()");
    assert(");\n"@ =~= ")"@ + ";\n"@);
    assert("  __nexgenDefinitions.collect(violations, "@ =~= "  "@
        + "__nexgenDefinitions.collect(violations, "@);
    assert(", error);\n"@ =~= ", error);"@ + "\n"@);
    assert("; } catch (error) { __nexgenDefinitions.collect(violations, "@
        =~= "; } catch (error) { "@ + "__nexgenDefinitions.collect(violations, "@);
    assert(", error); return undefined; } })()"@ =~= ", error);"@ + " return undefined; } })()"@);
    let read_before = indent + "try {\n"@ + indent + "  "@ + target + " = "@;
    let between = indent + "} catch (error) {\n"@ + indent + "  "@;
    let read_after = ";\n"@ + between + collected + "\n"@ + indent + "}\n"@;
    assert(parser =~= read_before + read_call + read_after);
    crate::json_schema::sides::lemma_part_of(read_before, read_call, read_after);
    let read_start = read_before + read_call + ";\n"@ + between;
    let read_end = "\n"@ + indent + "}\n"@;
    assert(parser =~= read_start + collected + read_end);
    crate::json_schema::sides::lemma_part_of(read_start, collected, read_end);
    let call = converter + ".toTransferType("@ + value_expr + ")"@;
    assert(written == crate::json_schema::annotation::collected_expr(call, path_expr));
    crate::json_schema::sides::lemma_part_stays(call);
    let start = "(() => { try { return "@ + call + "; } catch (error) { "@;
    assert(written =~= start + collected + " return undefined; } })()"@);
    crate::json_schema::sides::lemma_part_of(start, collected, " return undefined; } })()"@);
}

/// The parser of a declared member holds that of its value.
pub proof fn law_members_are_parsed_with_their_checks(
    ctx: TsContext,
    model_name: Seq<char>,
    models: Seq<JsonModel>,
    json_name: Seq<char>,
    property: Schema,
    required: bool,
)
    requires
        crate::json_schema::model::property_parser(
            ctx,
            model_name,
            models,
            json_name,
            property,
            required,
        ) is Ok,
    ensures
        ({
            let value = crate::json_schema::model::property_value_parser(
                ctx,
                model_name,
                models,
                json_name,
                property,
                crate::json_schema::schema::member_name_text(property, json_name),
            );
            &&& value is Ok
            &&& crate::json_schema::annotation::has_part(
                crate::json_schema::model::property_parser(
                    ctx,
                    model_name,
                    models,
                    json_name,
                    property,
                    required,
                )->Ok_0,
                value->Ok_0,
            )
        }),
{
    let value = crate::json_schema::model::property_value_parser(
        ctx,
        model_name,
        models,
        json_name,
        property,
        crate::json_schema::schema::member_name_text(property, json_name),
    );
    crate::json_schema::sides::lemma_part_stays(value->Ok_0);
}

/// The members of a map that is a model are parsed and checked one by one, on both sides of the
/// wire, and what is reported of them is gathered and thrown together. Where a member is plain, its
/// checks are the same on both sides.
pub proof fn law_members_of_a_map_model_are_checked_on_both_sides(
    ctx: TsContext,
    model_name: Seq<char>,
    schema: Schema,
    members: Schema,
    models: Seq<JsonModel>,
)
    requires
        crate::json_schema::annotation::map_values(schema) == Some(members),
        crate::json_schema::fields::checked_on_wire(members),
        crate::json_schema::model::model_parser(ctx, model_name, schema, models) is Ok,
        crate::json_schema::model::model_serializer(ctx, model_name, schema, models) is Ok,
    ensures
        ({
            let parser = crate::json_schema::model::model_parser(
                ctx,
                model_name,
                schema,
                models,
            )->Ok_0;
            let serializer = crate::json_schema::model::model_serializer(
                ctx,
                model_name,
                schema,
                models,
            )->Ok_0;
            let declared = "  const violations: __nexgenDefinitions.Violation[] = [];\n"@;
            let thrown =
                "  if (violations.length) {\n    throw createPayloadValidationError(violations);\n  }\n"@;
            &&& crate::json_schema::annotation::has_part(
                parser,
                crate::json_schema::parse::plain_parser(
                    ctx,
                    members,
                    "raw[key]"@,
                    "entry"@,
                    "path"@,
                    "    "@,
                ),
            )
            &&& crate::json_schema::annotation::has_part(parser, thrown)
            &&& crate::json_schema::annotation::has_part(serializer, declared)
            &&& crate::json_schema::annotation::has_part(
                serializer,
                crate::json_schema::fields::member_checks(
                    ctx,
                    members,
                    "entry"@,
                    "path"@,
                    "    "@,
                ),
            )
            &&& crate::json_schema::annotation::has_part(serializer, thrown)
            &&& crate::json_schema::sides::is_plain(members)
                && !crate::json_schema::annotation::null_allowed(members) ==> {
                &&& crate::json_schema::annotation::has_part(
                    parser,
                    crate::json_schema::sides::shared_checks(
                        ctx,
                        members,
                        "raw[key]"@,
                        "path"@,
                        "    "@ + "  "@,
                    ),
                )
                &&& crate::json_schema::annotation::has_part(
                    serializer,
                    crate::json_schema::sides::shared_checks(
                        ctx,
                        members,
                        "entry"@,
                        "path"@,
                        "    "@ + "  "@,
                    ),
                )
            }
        }),
{
    let parser = crate::json_schema::model::model_parser(ctx, model_name, schema, models)->Ok_0;
    let serializer = crate::json_schema::model::model_serializer(
        ctx,
        model_name,
        schema,
        models,
    )->Ok_0;
    let shape = crate::json_schema::annotation::map_shape(ctx, schema)->Ok_0->Some_0;
    let declared = "  const violations: __nexgenDefinitions.Violation[] = [];\n"@;
    let thrown =
        "  if (violations.length) {\n    throw createPayloadValidationError(violations);\n  }\n"@;
    let member_parser = crate::json_schema::parse::plain_parser(
        ctx,
        members,
        "raw[key]"@,
        "entry"@,
        "path"@,
        "    "@,
    );
    let member_checks = crate::json_schema::fields::member_checks(
        ctx,
        members,
        "entry"@,
        "path"@,
        "    "@,
    );
    let needed = crate::json_schema::fields::validates_on_wire(schema)->Ok_0;
    assert(needed);
    let read = crate::json_schema::model::map_parser(ctx, schema, shape);
    let written = crate::json_schema::model::map_serializer(ctx, schema, shape, needed);
    let entry = crate::json_schema::model::map_entry_text(ctx, members);
    assert(crate::json_schema::annotation::has_part(parser, member_parser)) by {
        crate::json_schema::sides::lemma_part_stays(member_parser);
        assert(crate::json_schema::annotation::has_part(read, member_parser));
    }
    assert(crate::json_schema::annotation::has_part(parser, thrown)) by {
        crate::json_schema::sides::lemma_part_stays(thrown);
        assert(crate::json_schema::annotation::has_part(read, thrown));
    }
    assert(crate::json_schema::annotation::has_part(serializer, declared)) by {
        crate::json_schema::sides::lemma_part_stays(declared);
    }
    assert(crate::json_schema::annotation::has_part(serializer, member_checks)) by {
        crate::json_schema::sides::lemma_part_stays(member_checks);
        assert(crate::json_schema::annotation::has_part(entry, member_checks));
        assert(crate::json_schema::annotation::has_part(written, member_checks));
    }
    assert(crate::json_schema::annotation::has_part(serializer, thrown)) by {
        crate::json_schema::sides::lemma_part_stays(thrown);
        assert(crate::json_schema::annotation::has_part(
            crate::json_schema::model::map_final(ctx, schema, needed),
            thrown,
        ));
        assert(crate::json_schema::annotation::has_part(written, thrown));
    }
    if crate::json_schema::sides::is_plain(members)
        && !crate::json_schema::annotation::null_allowed(members) {
        crate::json_schema::sides::law_checks_stand_on_both_sides(
            ctx,
            members,
            "raw[key]"@,
            "entry"@,
            "entry"@,
            "path"@,
            "    "@,
            0,
            crate::json_schema::fields::follow_limit(ctx),
        );
        lemma_part_within(
            parser,
            member_parser,
            crate::json_schema::sides::shared_checks(
                ctx,
                members,
                "raw[key]"@,
                "path"@,
                "    "@ + "  "@,
            ),
        );
        lemma_part_within(
            serializer,
            member_checks,
            crate::json_schema::sides::shared_checks(
                ctx,
                members,
                "entry"@,
                "path"@,
                "    "@ + "  "@,
            ),
        );
    }
}

/// A member of a union that is no object is selected by a guard.
proof fn lemma_members_are_guarded(
    ctx: TsContext,
    models: Seq<JsonModel>,
    branches: Seq<Schema>,
    discriminant: Option<Seq<char>>,
)
    ensures
        forall|k: int|
            0 <= k < crate::json_schema::union::branch_variants(
                ctx,
                models,
                branches,
                discriminant,
            ).len() ==> is_guarded(
                #[trigger] crate::json_schema::union::branch_variants(
                    ctx,
                    models,
                    branches,
                    discriminant,
                )[k],
            ),
    decreases branches.len(),
{
    if branches.len() > 0 {
        lemma_members_are_guarded(ctx, models, branches.drop_last(), discriminant);
        let before = crate::json_schema::union::branch_variants(
            ctx,
            models,
            branches.drop_last(),
            discriminant,
        );
        let all = crate::json_schema::union::branch_variants(ctx, models, branches, discriminant);
        assert forall|k: int| 0 <= k < all.len() implies is_guarded(#[trigger] all[k]) by {
            if k < before.len() {
                assert(all[k] == before[k]);
            } else {
                assert(crate::json_schema::union::variant_of(
                    ctx,
                    models,
                    branches.last(),
                    discriminant,
                ) == Some(all[k]));
            }
        }
    }
}

/// A member of a union that is taken for an integer has that type.
proof fn lemma_members_have_their_type(
    ctx: TsContext,
    models: Seq<JsonModel>,
    branches: Seq<Schema>,
    discriminant: Option<Seq<char>>,
)
    ensures
        forall|k: int|
            #![trigger crate::json_schema::union::branch_variants(
                ctx,
                models,
                branches,
                discriminant,
            )[k]]
            0 <= k < crate::json_schema::union::branch_variants(
                ctx,
                models,
                branches,
                discriminant,
            ).len() && crate::json_schema::union::branch_variants(
                ctx,
                models,
                branches,
                discriminant,
            )[k].is_integer ==> crate::json_schema::schema::has_type(
                crate::json_schema::union::branch_variants(
                    ctx,
                    models,
                    branches,
                    discriminant,
                )[k].schema,
                "integer"@,
            ),
    decreases branches.len(),
{
    if branches.len() > 0 {
        lemma_members_have_their_type(ctx, models, branches.drop_last(), discriminant);
        let before = crate::json_schema::union::branch_variants(
            ctx,
            models,
            branches.drop_last(),
            discriminant,
        );
        let all = crate::json_schema::union::branch_variants(ctx, models, branches, discriminant);
        assert forall|k: int| 0 <= k < all.len() && (#[trigger] all[k]).is_integer implies
            crate::json_schema::schema::has_type(all[k].schema, "integer"@) by {
            if k < before.len() {
                assert(all[k] == before[k]);
            } else {
                assert(crate::json_schema::union::variant_of(
                    ctx,
                    models,
                    branches.last(),
                    discriminant,
                ) == Some(all[k]));
            }
        }
    }
}

/// Whether a member of a union is an object, or is selected by a guard.
pub open spec fn is_guarded(variant: crate::json_schema::union::VariantView) -> bool {
    variant.is_object || variant.is_array || variant.is_integer || variant.typeof_guard is Some
}

/// What stands in the parser of a scalar or an array stands in the parsers of a union's members.
proof fn lemma_simple_part(
    ctx: TsContext,
    models: Seq<JsonModel>,
    schema: Schema,
    raw_expr: Seq<char>,
    target: Seq<char>,
    path_expr: Seq<char>,
    indent: Seq<char>,
    depth: u64,
    follow: u128,
    count: nat,
    k: int,
    part: Seq<char>,
)
    requires
        crate::json_schema::union::union_of(ctx, models, schema) is Some,
        count <= crate::json_schema::union::union_of(ctx, models, schema)->Some_0.variants.len(),
        0 <= k < count,
        !crate::json_schema::union::union_of(ctx, models, schema)->Some_0.variants[k].is_object,
        forall|first: bool|
            crate::json_schema::annotation::has_part(
                #[trigger] crate::json_schema::parse::simple_branch(
                    ctx,
                    crate::json_schema::union::union_of(ctx, models, schema)->Some_0.variants[k],
                    first,
                    raw_expr,
                    target,
                    path_expr,
                    indent,
                    crate::json_schema::parse::array_branch(
                        ctx,
                        models,
                        schema,
                        k,
                        raw_expr,
                        target,
                        path_expr,
                        indent,
                        depth,
                        follow,
                    ),
                ),
                part,
            ),
    ensures
        crate::json_schema::annotation::has_part(
            crate::json_schema::parse::simple_branches(
                ctx,
                models,
                schema,
                raw_expr,
                target,
                path_expr,
                indent,
                depth,
                follow,
                count,
            ),
            part,
        ),
    decreases count,
{
    crate::json_schema::sides::lemma_part_stays(part);
    if k < count - 1 {
        lemma_simple_part(
            ctx,
            models,
            schema,
            raw_expr,
            target,
            path_expr,
            indent,
            depth,
            follow,
            (count - 1) as nat,
            k,
            part,
        );
    } else {
        let variants = crate::json_schema::union::union_of(ctx, models, schema)->Some_0.variants;
        let first = crate::json_schema::parse::first_object(variants) is None
            && !crate::json_schema::parse::has_clause(variants.take(count - 1));
        let branch = crate::json_schema::parse::simple_branch(
            ctx,
            variants[k],
            first,
            raw_expr,
            target,
            path_expr,
            indent,
            crate::json_schema::parse::array_branch(
                ctx,
                models,
                schema,
                k,
                raw_expr,
                target,
                path_expr,
                indent,
                depth,
                follow,
            ),
        );
        assert(crate::json_schema::annotation::has_part(branch, part));
        let before = crate::json_schema::parse::simple_branches(
            ctx,
            models,
            schema,
            raw_expr,
            target,
            path_expr,
            indent,
            depth,
            follow,
            (count - 1) as nat,
        );
        assert(crate::json_schema::annotation::has_part(before + branch, part));
    }
}

/// The checks of a union's member stand in those of the union.
proof fn lemma_branch_part(
    ctx: TsContext,
    models: Seq<JsonModel>,
    schema: Schema,
    value_expr: Seq<char>,
    path_expr: Seq<char>,
    indent: Seq<char>,
    depth: u64,
    follow: u128,
    count: nat,
    k: int,
)
    requires
        crate::json_schema::union::union_of(ctx, models, schema) is Some,
        count <= crate::json_schema::union::union_of(ctx, models, schema)->Some_0.variants.len(),
        0 <= k < count,
        !crate::json_schema::union::union_of(ctx, models, schema)->Some_0.variants[k].is_object,
        is_guarded(crate::json_schema::union::union_of(ctx, models, schema)->Some_0.variants[k]),
    ensures
        crate::json_schema::annotation::has_part(
            crate::json_schema::fields::union_checks(
                ctx,
                models,
                schema,
                value_expr,
                path_expr,
                indent,
                depth,
                follow,
                count,
            ),
            union_member_checks(
                ctx,
                crate::json_schema::union::union_of(ctx, models, schema)->Some_0.variants[k],
                value_expr,
                path_expr,
                indent,
                depth,
                follow,
            ),
        ),
    decreases count,
{
    let variant = crate::json_schema::union::union_of(ctx, models, schema)->Some_0.variants[k];
    let part = union_member_checks(ctx, variant, value_expr, path_expr, indent, depth, follow);
    crate::json_schema::sides::lemma_part_stays(part);
    if k < count - 1 {
        lemma_branch_part(
            ctx,
            models,
            schema,
            value_expr,
            path_expr,
            indent,
            depth,
            follow,
            (count - 1) as nat,
            k,
        );
    } else {
        let branch = crate::json_schema::fields::branch_checks(variant, value_expr, indent, part);
        if part.len() == 0 {
            assert(part =~= Seq::empty());
            crate::json_schema::sides::lemma_empty_part(branch);
        }
        assert(crate::json_schema::annotation::has_part(branch, part));
    }
}

/// The checks of a union's member in memory. A member that is referred to is followed as far as
/// the bound on references allows.
pub open spec fn union_member_checks(
    ctx: TsContext,
    variant: crate::json_schema::union::VariantView,
    value_expr: Seq<char>,
    path_expr: Seq<char>,
    indent: Seq<char>,
    depth: u64,
    follow: u128,
) -> Seq<char> {
    if (variant.followed && follow == 0) || crate::json_schema::fields::is_bare_integer(variant) {
        Seq::empty()
    } else {
        crate::json_schema::fields::field_body(
            ctx,
            variant.schema,
            "("@ + value_expr + " as "@ + variant.ts_type + ")"@,
            path_expr,
            indent + "  "@,
            depth,
            if variant.followed {
                (follow - 1) as u128
            } else {
                follow
            },
        )
    }
}

/// What a union's parser does with a member that is a scalar or an array: an array is parsed, and
/// the checks of a scalar are made of what it is assigned to. An array that is referred to is
/// followed as far as the bound on references allows.
pub open spec fn union_member_parser(
    ctx: TsContext,
    variant: crate::json_schema::union::VariantView,
    raw_expr: Seq<char>,
    target: Seq<char>,
    path_expr: Seq<char>,
    indent: Seq<char>,
    depth: u64,
    follow: u128,
) -> Seq<char> {
    if !variant.is_array {
        crate::json_schema::fields::value_checks(
            ctx,
            variant.schema,
            "("@ + target + " as "@ + variant.ts_type + ")"@,
            path_expr,
            indent + "  "@,
        )
    } else if variant.followed && follow == 0 {
        Seq::empty()
    } else {
        crate::json_schema::parse::array_parser(
            ctx,
            variant.schema,
            raw_expr,
            target + "ArrayBranch"@,
            path_expr,
            indent + "  "@,
            depth,
            if variant.followed {
                (follow - 1) as u128
            } else {
                follow
            },
        )
    }
}

/// Every scalar and array among the members of a union is checked on both sides of the wire: its
/// checks stand in the parser of the union and in the checks of the value in memory. Where a
/// scalar is plain, its checks are the same on both sides.
pub proof fn law_union_members_are_checked_on_both_sides(
    ctx: TsContext,
    models: Seq<JsonModel>,
    schema: Schema,
    k: int,
    raw_expr: Seq<char>,
    value_expr: Seq<char>,
    target: Seq<char>,
    path_expr: Seq<char>,
    indent: Seq<char>,
    depth: u64,
    follow: u128,
)
    requires
        crate::json_schema::union::union_of(ctx, models, schema) is Some,
        0 <= k < crate::json_schema::union::union_of(ctx, models, schema)->Some_0.variants.len(),
        !crate::json_schema::union::union_of(ctx, models, schema)->Some_0.variants[k].is_object,
    ensures
        ({
            let union = crate::json_schema::union::union_of(ctx, models, schema)->Some_0;
            let variant = union.variants[k];
            let inner = indent + "  "@;
            let parser = crate::json_schema::parse::union_parser(
                ctx,
                models,
                schema,
                raw_expr,
                target,
                path_expr,
                indent,
                depth,
                follow,
            );
            let checks = crate::json_schema::fields::union_checks(
                ctx,
                models,
                schema,
                value_expr,
                path_expr,
                indent,
                depth,
                follow,
                union.variants.len(),
            );
            &&& crate::json_schema::annotation::has_part(
                parser,
                union_member_parser(
                    ctx,
                    variant,
                    raw_expr,
                    target,
                    path_expr,
                    indent,
                    depth,
                    follow,
                ),
            )
            &&& crate::json_schema::annotation::has_part(
                checks,
                union_member_checks(ctx, variant, value_expr, path_expr, indent, depth, follow),
            )
            &&& !variant.is_array && crate::json_schema::sides::is_plain(variant.schema) && (
            !variant.followed || follow > 0) ==> {
                &&& crate::json_schema::annotation::has_part(
                    parser,
                    crate::json_schema::sides::shared_checks(
                        ctx,
                        variant.schema,
                        "("@ + target + " as "@ + variant.ts_type + ")"@,
                        path_expr,
                        inner + "  "@,
                    ),
                )
                &&& crate::json_schema::annotation::has_part(
                    checks,
                    crate::json_schema::sides::shared_checks(
                        ctx,
                        variant.schema,
                        "("@ + value_expr + " as "@ + variant.ts_type + ")"@,
                        path_expr,
                        inner,
                    ),
                )
            }
        }),
{
    let union = crate::json_schema::union::union_of(ctx, models, schema)->Some_0;
    let variant = union.variants[k];
    let inner = indent + "  "@;
    lemma_members_are_guarded(ctx, models, schema.one_of->Some_0@, union.discriminant);
    assert(is_guarded(variant));
    lemma_branch_part(
        ctx,
        models,
        schema,
        value_expr,
        path_expr,
        indent,
        depth,
        follow,
        union.variants.len(),
        k,
    );
    let read = union_member_parser(
        ctx,
        variant,
        raw_expr,
        target,
        path_expr,
        indent,
        depth,
        follow,
    );
    let array = crate::json_schema::parse::array_branch(
        ctx,
        models,
        schema,
        k,
        raw_expr,
        target,
        path_expr,
        indent,
        depth,
        follow,
    );
    assert forall|first: bool| crate::json_schema::annotation::has_part(
        #[trigger] crate::json_schema::parse::simple_branch(
            ctx,
            variant,
            first,
            raw_expr,
            target,
            path_expr,
            indent,
            array,
        ),
        read,
    ) by {
        crate::json_schema::sides::lemma_part_stays(read);
        if read.len() == 0 {
            assert(read =~= Seq::empty());
            crate::json_schema::sides::lemma_empty_part(
                crate::json_schema::parse::simple_branch(
                    ctx,
                    variant,
                    first,
                    raw_expr,
                    target,
                    path_expr,
                    indent,
                    array,
                ),
            );
        } else if variant.is_array {
            assert(array == read);
        }
    }
    lemma_simple_part(
        ctx,
        models,
        schema,
        raw_expr,
        target,
        path_expr,
        indent,
        depth,
        follow,
        union.variants.len(),
        k,
        read,
    );
    crate::json_schema::sides::lemma_part_stays(read);
    if !variant.is_array && crate::json_schema::sides::is_plain(variant.schema) && (
    !variant.followed || follow > 0) {
        let member = "("@ + value_expr + " as "@ + variant.ts_type + ")"@;
        let assigned = "("@ + target + " as "@ + variant.ts_type + ")"@;
        let left = if variant.followed {
            (follow - 1) as u128
        } else {
            follow
        };
        crate::json_schema::sides::law_checks_stand_on_both_sides(
            ctx,
            variant.schema,
            raw_expr,
            assigned,
            target,
            path_expr,
            inner,
            0,
            crate::json_schema::fields::follow_limit(ctx),
        );
        let written = crate::json_schema::sides::shared_checks(
            ctx,
            variant.schema,
            member,
            path_expr,
            inner,
        );
        let checks = crate::json_schema::fields::union_checks(
            ctx,
            models,
            schema,
            value_expr,
            path_expr,
            indent,
            depth,
            follow,
            union.variants.len(),
        );
        if crate::json_schema::fields::is_bare_integer(variant) {
            lemma_members_have_their_type(ctx, models, schema.one_of->Some_0@, union.discriminant);
            crate::json_schema::sides::lemma_types_differ();
            assert(written =~= Seq::empty());
            crate::json_schema::sides::lemma_empty_part(checks);
        } else {
            crate::json_schema::sides::lemma_body_checks(
                ctx,
                variant.schema,
                member,
                path_expr,
                inner,
                depth,
                left,
            );
            lemma_part_within(
                checks,
                union_member_checks(ctx, variant, value_expr, path_expr, indent, depth, follow),
                written,
            );
        }
        lemma_part_within(
            crate::json_schema::parse::union_parser(
                ctx,
                models,
                schema,
                raw_expr,
                target,
                path_expr,
                indent,
                depth,
                follow,
            ),
            read,
            crate::json_schema::sides::shared_checks(
                ctx,
                variant.schema,
                assigned,
                path_expr,
                inner + "  "@,
            ),
        );
    }
}

/// The case of an object stands in those of all objects of a union.
proof fn lemma_case_part(
    variants: Seq<crate::json_schema::union::VariantView>,
    raw_expr: Seq<char>,
    target: Seq<char>,
    path_expr: Seq<char>,
    indent: Seq<char>,
    k: int,
    converter: Seq<char>,
)
    requires
        0 <= k < variants.len(),
        variants[k].is_object,
        variants[k].converter == Some(converter),
        variants[k].discriminant_value is Some,
    ensures
        crate::json_schema::annotation::has_part(
            crate::json_schema::parse::case_texts(variants, raw_expr, target, path_expr, indent),
            converter + ".fromTransferType("@ + raw_expr,
        ),
    decreases variants.len(),
{
    let part = converter + ".fromTransferType("@ + raw_expr;
    let before = crate::json_schema::parse::case_texts(
        variants.drop_last(),
        raw_expr,
        target,
        path_expr,
        indent,
    );
    let all = crate::json_schema::parse::case_texts(variants, raw_expr, target, path_expr, indent);
    let last = all.skip(before.len() as int);
    assert(all =~= before + last);
    if k < variants.len() - 1 {
        assert(variants.drop_last()[k] == variants[k]);
        lemma_case_part(
            variants.drop_last(),
            raw_expr,
            target,
            path_expr,
            indent,
            k,
            converter,
        );
        crate::json_schema::sides::lemma_part_before(before, last, part);
    } else {
        let literal = crate::json_schema::ts_text::value_literal(
            variants[k].discriminant_value->Some_0,
        );
        let start = indent + "    case "@ + literal + ":\n"@ + indent + "      try {\n"@ + indent
            + "        "@ + target + " = "@;
        let rest = last.skip((start.len() + part.len()) as int);
        assert(last =~= start + part + rest);
        crate::json_schema::sides::lemma_part_of(start, part, rest);
        crate::json_schema::sides::lemma_part_behind(before, last, part);
    }
}

/// The serialization of a member of a union stands in those of all members.
proof fn lemma_serializer_part(
    variants: Seq<crate::json_schema::union::VariantView>,
    ctx: TsContext,
    discriminant: Option<Seq<char>>,
    value_expr: Seq<char>,
    k: int,
)
    requires
        0 <= k < variants.len(),
    ensures
        crate::json_schema::annotation::has_part(
            crate::json_schema::model::member_serializers(variants, ctx, discriminant, value_expr),
            crate::json_schema::model::member_serializer(
                ctx,
                variants[k],
                discriminant,
                value_expr,
            ),
        ),
    decreases variants.len(),
{
    let part = crate::json_schema::model::member_serializer(
        ctx,
        variants[k],
        discriminant,
        value_expr,
    );
    crate::json_schema::sides::lemma_part_stays(part);
    if k < variants.len() - 1 {
        assert(variants.drop_last()[k] == variants[k]);
        lemma_serializer_part(variants.drop_last(), ctx, discriminant, value_expr, k);
    }
}

/// A model among the members of a union is parsed and serialized by its converter, on both sides
/// of the wire: each that has a tag where the objects are told apart by one, else the first object.
pub proof fn law_union_objects_are_checked_by_their_converters(
    ctx: TsContext,
    models: Seq<JsonModel>,
    schema: Schema,
    k: int,
    converter: Seq<char>,
    raw_expr: Seq<char>,
    value_expr: Seq<char>,
    target: Seq<char>,
    path_expr: Seq<char>,
    indent: Seq<char>,
    depth: u64,
    follow: u128,
)
    requires
        crate::json_schema::union::union_of(ctx, models, schema) is Some,
        ({
            let union = crate::json_schema::union::union_of(ctx, models, schema)->Some_0;
            &&& 0 <= k < union.variants.len()
            &&& union.variants[k].is_object
            &&& union.variants[k].converter == Some(converter)
            &&& if union.discriminant is Some {
                union.variants[k].discriminant_value is Some
            } else {
                crate::json_schema::parse::first_object(union.variants) == Some(k)
            }
        }),
    ensures
        crate::json_schema::annotation::has_part(
            crate::json_schema::parse::union_parser(
                ctx,
                models,
                schema,
                raw_expr,
                target,
                path_expr,
                indent,
                depth,
                follow,
            ),
            converter + ".fromTransferType("@ + raw_expr,
        ),
        crate::json_schema::annotation::has_part(
            crate::json_schema::model::union_serializer(
                ctx,
                crate::json_schema::union::union_of(ctx, models, schema)->Some_0,
                value_expr,
            ),
            converter + ".toTransferType("@ + value_expr,
        ),
{
    lemma_object_read(
        ctx,
        models,
        schema,
        k,
        converter,
        raw_expr,
        target,
        path_expr,
        indent,
        depth,
        follow,
    );
    let union = crate::json_schema::union::union_of(ctx, models, schema)->Some_0;
    lemma_object_written(ctx, union, k, converter, value_expr);
}

/// A model among the members of a union is parsed by its converter.
proof fn lemma_object_read(
    ctx: TsContext,
    models: Seq<JsonModel>,
    schema: Schema,
    k: int,
    converter: Seq<char>,
    raw_expr: Seq<char>,
    target: Seq<char>,
    path_expr: Seq<char>,
    indent: Seq<char>,
    depth: u64,
    follow: u128,
)
    requires
        crate::json_schema::union::union_of(ctx, models, schema) is Some,
        ({
            let union = crate::json_schema::union::union_of(ctx, models, schema)->Some_0;
            &&& 0 <= k < union.variants.len()
            &&& union.variants[k].is_object
            &&& union.variants[k].converter == Some(converter)
            &&& if union.discriminant is Some {
                union.variants[k].discriminant_value is Some
            } else {
                crate::json_schema::parse::first_object(union.variants) == Some(k)
            }
        }),
    ensures
        crate::json_schema::annotation::has_part(
            crate::json_schema::parse::union_parser(
                ctx,
                models,
                schema,
                raw_expr,
                target,
                path_expr,
                indent,
                depth,
                follow,
            ),
            converter + ".fromTransferType("@ + raw_expr,
        ),
{
    let union = crate::json_schema::union::union_of(ctx, models, schema)->Some_0;
    let read = converter + ".fromTransferType("@ + raw_expr;
    lemma_first_object_exists(union.variants, k);
    let index = crate::json_schema::parse::first_object(union.variants)->Some_0;
    let lone = crate::json_schema::parse::lone_object_text(
        ctx,
        models,
        schema,
        index,
        raw_expr,
        target,
        path_expr,
        indent,
        depth,
        follow,
    );
    let objects = crate::json_schema::parse::object_branches(
        union,
        raw_expr,
        target,
        path_expr,
        indent,
        lone,
    );
    if union.discriminant is None {
        assert(lone == crate::json_schema::parse::converted_object(
            converter,
            raw_expr,
            target,
            path_expr,
            indent,
        ));
    }
    lemma_objects_part(union, raw_expr, target, path_expr, indent, lone, k, converter);
    let simple = crate::json_schema::parse::simple_branches(
        ctx,
        models,
        schema,
        raw_expr,
        target,
        path_expr,
        indent,
        depth,
        follow,
        union.variants.len(),
    );
    let end = crate::json_schema::parse::union_end(union, raw_expr, target, path_expr, indent);
    crate::json_schema::sides::lemma_part_before(objects, simple, read);
    crate::json_schema::sides::lemma_part_before(objects + simple, end, read);
}

/// A model among the objects of a union is parsed by its converter.
proof fn lemma_objects_part(
    union: crate::json_schema::union::UnionView,
    raw_expr: Seq<char>,
    target: Seq<char>,
    path_expr: Seq<char>,
    indent: Seq<char>,
    lone: Seq<char>,
    k: int,
    converter: Seq<char>,
)
    requires
        0 <= k < union.variants.len(),
        union.variants[k].is_object,
        union.variants[k].converter == Some(converter),
        crate::json_schema::parse::first_object(union.variants) is Some,
        union.discriminant is Some ==> union.variants[k].discriminant_value is Some,
        union.discriminant is None ==> lone == crate::json_schema::parse::converted_object(
            converter,
            raw_expr,
            target,
            path_expr,
            indent,
        ),
    ensures
        crate::json_schema::annotation::has_part(
            crate::json_schema::parse::object_branches(
                union,
                raw_expr,
                target,
                path_expr,
                indent,
                lone,
            ),
            converter + ".fromTransferType("@ + raw_expr,
        ),
{
    let read = converter + ".fromTransferType("@ + raw_expr;
    if union.discriminant is Some {
        lemma_case_part(union.variants, raw_expr, target, path_expr, indent, k, converter);
        crate::json_schema::sides::lemma_part_stays(read);
    } else {
        let start = indent + "  try {\n"@ + indent + "    "@ + target + " = "@;
        let rest = lone.skip((start.len() + read.len()) as int);
        assert(lone =~= start + read + rest);
        crate::json_schema::sides::lemma_part_of(start, read, rest);
        crate::json_schema::sides::lemma_part_stays(read);
    }
}

/// A model among the members of a union is serialized by its converter.
proof fn lemma_object_written(
    ctx: TsContext,
    union: crate::json_schema::union::UnionView,
    k: int,
    converter: Seq<char>,
    value_expr: Seq<char>,
)
    requires
        0 <= k < union.variants.len(),
        union.variants[k].is_object,
        union.variants[k].converter == Some(converter),
    ensures
        crate::json_schema::annotation::has_part(
            crate::json_schema::model::union_serializer(ctx, union, value_expr),
            converter + ".toTransferType("@ + value_expr,
        ),
{
    let variant = union.variants[k];
    let written = converter + ".toTransferType("@ + value_expr;
    let one = crate::json_schema::model::member_serializer(
        ctx,
        variant,
        union.discriminant,
        value_expr,
    );
    let start = match (union.discriminant, variant.discriminant_value) {
        (Some(name), Some(value)) => "  if (("@ + value_expr
            + " as unknown as Record<string, unknown>)["@
            + crate::json_schema::ts_text::string_literal(name) + "] === "@
            + crate::json_schema::ts_text::value_literal(value) + ") {\n    return "@,
        _ => "  if (__nexgenDefinitions.isPlainObject("@ + value_expr + ")) {\n    return "@,
    };
    let rest = one.skip((start.len() + written.len()) as int);
    assert(one =~= start + written + rest);
    crate::json_schema::sides::lemma_part_of(start, written, rest);
    lemma_serializer_part(union.variants, ctx, union.discriminant, value_expr, k);
    let all = crate::json_schema::model::member_serializers(
        union.variants,
        ctx,
        union.discriminant,
        value_expr,
    );
    lemma_part_within(all, one, written);
    assert(crate::json_schema::annotation::has_part(
        crate::json_schema::model::union_serializer(ctx, union, value_expr),
        written,
    )) by {
        crate::json_schema::sides::lemma_part_stays(written);
    }
}

/// Where one of the members of a union is an object, there is a first one.
proof fn lemma_first_object_exists(
    variants: Seq<crate::json_schema::union::VariantView>,
    k: int,
)
    requires
        0 <= k < variants.len(),
        variants[k].is_object,
    ensures
        crate::json_schema::parse::first_object(variants) is Some,
    decreases variants.len(),
{
    if k < variants.len() - 1 {
        assert(variants.drop_last()[k] == variants[k]);
        lemma_first_object_exists(variants.drop_last(), k);
    }
}

/// The members that an open model does not declare, but gives a schema for, are parsed and checked
/// one by one on both sides of the wire. Where such a member is plain, its checks are the same on
/// both sides.
pub proof fn law_undeclared_members_are_checked_on_both_sides(
    ctx: TsContext,
    model_name: Seq<char>,
    schema: Schema,
    members: Schema,
    models: Seq<JsonModel>,
)
    requires
        crate::json_schema::annotation::open_object(schema),
        crate::json_schema::annotation::member_schema(schema) == Ok::<
            Option<Schema>,
            crate::error::ErrorView,
        >(Some(members)),
        crate::json_schema::model::model_parser(ctx, model_name, schema, models) is Ok,
        crate::json_schema::model::model_serializer(ctx, model_name, schema, models) is Ok,
    ensures
        ({
            let parser = crate::json_schema::model::model_parser(
                ctx,
                model_name,
                schema,
                models,
            )->Ok_0;
            let serializer = crate::json_schema::model::model_serializer(
                ctx,
                model_name,
                schema,
                models,
            )->Ok_0;
            &&& crate::json_schema::annotation::has_part(
                parser,
                crate::json_schema::parse::plain_parser(
                    ctx,
                    members,
                    "raw[key]"@,
                    "entry"@,
                    "path"@,
                    "      "@,
                ),
            )
            &&& crate::json_schema::annotation::has_part(
                serializer,
                crate::json_schema::fields::member_checks(
                    ctx,
                    members,
                    "entry"@,
                    "path"@,
                    "    "@,
                ),
            )
            &&& crate::json_schema::sides::is_plain(members)
                && !crate::json_schema::annotation::null_allowed(members) ==> {
                &&& crate::json_schema::annotation::has_part(
                    parser,
                    crate::json_schema::sides::shared_checks(
                        ctx,
                        members,
                        "raw[key]"@,
                        "path"@,
                        "      "@ + "  "@,
                    ),
                )
                &&& crate::json_schema::annotation::has_part(
                    serializer,
                    crate::json_schema::sides::shared_checks(
                        ctx,
                        members,
                        "entry"@,
                        "path"@,
                        "    "@ + "  "@,
                    ),
                )
            }
        }),
{
    let parser = crate::json_schema::model::model_parser(ctx, model_name, schema, models)->Ok_0;
    let serializer = crate::json_schema::model::model_serializer(
        ctx,
        model_name,
        schema,
        models,
    )->Ok_0;
    let read = crate::json_schema::parse::plain_parser(
        ctx,
        members,
        "raw[key]"@,
        "entry"@,
        "path"@,
        "      "@,
    );
    let written = crate::json_schema::fields::member_checks(
        ctx,
        members,
        "entry"@,
        "path"@,
        "    "@,
    );
    assert(crate::json_schema::annotation::has_part(parser, read)) by {
        crate::json_schema::sides::lemma_part_stays(read);
        assert(crate::json_schema::annotation::has_part(
            crate::json_schema::model::open_collection(ctx, model_name, schema)->Ok_0,
            read,
        ));
        assert(crate::json_schema::annotation::has_part(
            crate::json_schema::model::other_members(ctx, model_name, schema)->Ok_0,
            read,
        ));
    }
    assert(crate::json_schema::annotation::has_part(serializer, written)) by {
        crate::json_schema::sides::lemma_part_stays(written);
        assert(crate::json_schema::annotation::has_part(
            crate::json_schema::model::open_entry_text(ctx, members),
            written,
        ));
        assert(crate::json_schema::annotation::has_part(
            crate::json_schema::model::open_members(ctx, model_name, schema)->Ok_0,
            written,
        ));
    }
    if crate::json_schema::sides::is_plain(members)
        && !crate::json_schema::annotation::null_allowed(members) {
        let limit = crate::json_schema::fields::follow_limit(ctx);
        crate::json_schema::sides::law_checks_stand_on_both_sides(
            ctx,
            members,
            "raw[key]"@,
            "entry"@,
            "entry"@,
            "path"@,
            "      "@,
            0,
            limit,
        );
        crate::json_schema::sides::law_checks_stand_on_both_sides(
            ctx,
            members,
            "raw[key]"@,
            "entry"@,
            "entry"@,
            "path"@,
            "    "@,
            0,
            limit,
        );
        lemma_part_within(
            parser,
            read,
            crate::json_schema::sides::shared_checks(
                ctx,
                members,
                "raw[key]"@,
                "path"@,
                "      "@ + "  "@,
            ),
        );
        lemma_part_within(
            serializer,
            written,
            crate::json_schema::sides::shared_checks(
                ctx,
                members,
                "entry"@,
                "path"@,
                "    "@ + "  "@,
            ),
        );
    }
}

/// The converter of a named union parses its value, checks it before it is written, and throws what
/// either reports together.
pub proof fn law_named_unions_are_checked_on_both_sides(
    ctx: TsContext,
    model_name: Seq<char>,
    schema: Schema,
    models: Seq<JsonModel>,
)
    requires
        crate::json_schema::union::union_of(ctx, models, schema) is Some,
    ensures
        ({
            let union = crate::json_schema::union::union_of(ctx, models, schema)->Some_0;
            let limit = crate::json_schema::fields::follow_limit(ctx);
            let converter = crate::json_schema::model::union_converter_text(
                ctx,
                model_name,
                schema,
                union,
                models,
            );
            let parser = crate::json_schema::parse::union_parser(
                ctx,
                models,
                schema,
                "raw"@,
                "out"@,
                "''"@,
                "    "@,
                0,
                limit,
            );
            let checks = crate::json_schema::fields::union_checks(
                ctx,
                models,
                schema,
                "value"@,
                "''"@,
                "    "@,
                0,
                limit,
                union.variants.len(),
            );
            let thrown =
                "    if (violations.length) {\n      throw createPayloadValidationError(violations);\n    }\n"@;
            &&& crate::json_schema::annotation::has_part(converter, parser + thrown)
            &&& checks.len() > 0 ==> crate::json_schema::annotation::has_part(
                converter,
                checks + thrown,
            )
        }),
{
    let union = crate::json_schema::union::union_of(ctx, models, schema)->Some_0;
    let limit = crate::json_schema::fields::follow_limit(ctx);
    let converter = crate::json_schema::model::union_converter_text(
        ctx,
        model_name,
        schema,
        union,
        models,
    );
    let parser = crate::json_schema::parse::union_parser(
        ctx,
        models,
        schema,
        "raw"@,
        "out"@,
        "''"@,
        "    "@,
        0,
        limit,
    );
    let checks = crate::json_schema::fields::union_checks(
        ctx,
        models,
        schema,
        "value"@,
        "''"@,
        "    "@,
        0,
        limit,
        union.variants.len(),
    );
    let thrown =
        "    if (violations.length) {\n      throw createPayloadValidationError(violations);\n    }\n"@;
    let start = crate::json_schema::model::converter_opening(model_name)
        + "    const violations: __nexgenDefinitions.Violation[] = [];\n    let out: "@ + model_name
        + " = undefined as unknown as "@ + model_name + ";\n"@;
    let rest = converter.skip((start.len() + parser.len() + thrown.len()) as int);
    assert(converter =~= start + (parser + thrown) + rest);
    crate::json_schema::sides::lemma_part_of(start, parser + thrown, rest);
    if checks.len() > 0 {
        let text = crate::json_schema::model::union_value_checks_text(ctx, schema, models);
        assert(text == checks + thrown);
        crate::json_schema::sides::lemma_part_stays(text);
    }
}

} // verus!
