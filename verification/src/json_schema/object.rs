//! The checks that an object that is written in place is held to as a whole.

use vstd::prelude::*;

use crate::json_schema::annotation::is_closed;
use crate::json_schema::checks::{
    render_ts_dependent_required, render_ts_property_count_checks, render_ts_property_name_checks,
};
use crate::json_schema::model::unknown_key_conditions;
use crate::json_schema::schema::Schema;
use crate::json_schema::ts_text::{ts_has_own, typescript_violation_path_literal, TsContext};
use crate::text::join_texts;

verus! {

/// The checks that required members are there.
pub open spec fn required_texts(
    names: Seq<Seq<char>>,
    object_expr: Seq<char>,
    indent: Seq<char>,
) -> Seq<char>
    decreases names.len(),
{
    if names.len() == 0 {
        Seq::empty()
    } else {
        let name = names.last();
        required_texts(names.drop_last(), object_expr, indent) + (indent + "if (!"@
            + crate::json_schema::ts_text::has_own_text(object_expr, name) + ") {\n"@ + indent
            + "  violations.push({ path: "@ + crate::json_schema::ts_text::violation_path(name)
            + ", reason: 'required' });\n"@ + indent + "}\n"@)
    }
}

/// The checks that required members are there.
pub fn required_checks(names: &Vec<String>, object_expr: &str, indent: &str) -> (result: String)
    ensures
        result@ == required_texts(crate::text::texts(names@), object_expr@, indent@),
{
    let ghost all = crate::text::texts(names@);
    let mut result = String::new();
    let mut i: usize = 0;
    while i < names.len()
        invariant
            i <= names.len(),
            all == crate::text::texts(names@),
            result@ == required_texts(all.take(i as int), object_expr@, indent@),
        decreases names.len() - i,
    {
        assert(all.take(i + 1).drop_last() =~= all.take(i as int));
        assert(all.take(i + 1).last() == names@[i as int]@);
        let name = names[i].as_str();
        let check = indent.to_owned().concat("if (!").concat(ts_has_own(object_expr, name).as_str())
            .concat(") {\n").concat(indent).concat("  violations.push({ path: ")
            .concat(typescript_violation_path_literal(name).as_str())
            .concat(", reason: 'required' });\n").concat(indent).concat("}\n");
        result.append(check.as_str());
        i += 1;
    }
    assert(all.take(i as int) =~= all);
    result
}

/// The check that a closed object has no other members than the declared ones.
pub open spec fn closed_keys_text(
    schema: Schema,
    keys_expr: Seq<char>,
    indent: Seq<char>,
) -> Seq<char> {
    let conditions = match schema.properties {
        Some(properties) => crate::json_schema::model::unknown_key_texts(properties@),
        None => Seq::<Seq<char>>::empty(),
    };
    let condition = if conditions.len() == 0 {
        "true"@
    } else {
        crate::text::join(conditions, " && "@)
    };
    if crate::json_schema::annotation::closed_schema(schema) {
        indent + "for (const key of "@ + keys_expr + ") {\n"@ + indent + "  if ("@ + condition
            + ") {\n"@ + indent
            + "    violations.push({ path: __nexgenDefinitions.memberPath(key), reason: 'unknown field' });\n"@
            + indent + "  }\n"@ + indent + "}\n"@
    } else {
        Seq::empty()
    }
}

/// The check that a closed object has no other members than the declared ones.
pub fn closed_keys_check(schema: &Schema, keys_expr: &str, indent: &str) -> (result: String)
    ensures
        result@ == closed_keys_text(*schema, keys_expr@, indent@),
{
    let conditions = match &schema.properties {
        Some(properties) => unknown_key_conditions(properties),
        None => Vec::new(),
    };
    assert(schema.properties is None ==> crate::text::texts(conditions@) =~= Seq::empty());
    let condition = if conditions.len() == 0 {
        "true".to_owned()
    } else {
        join_texts(&conditions, " && ")
    };
    if is_closed(schema) {
        indent.to_owned().concat("for (const key of ").concat(keys_expr).concat(") {\n")
            .concat(indent).concat("  if (").concat(condition.as_str()).concat(") {\n")
            .concat(indent)
            .concat(
                "    violations.push({ path: __nexgenDefinitions.memberPath(key), reason: 'unknown field' });\n",
            ).concat(indent).concat("  }\n").concat(indent).concat("}\n")
    } else {
        String::new()
    }
}

/// The checks of an object as a whole, under the paths of its members: which members it has, how
/// many, under which names, and which of them require others.
pub open spec fn whole_checks(
    ctx: TsContext,
    schema: Schema,
    object_expr: Seq<char>,
    keys_expr: Seq<char>,
    indent: Seq<char>,
) -> Seq<char> {
    let required = match schema.required {
        Some(names) => required_texts(crate::text::texts(names@), object_expr, indent),
        None => Seq::empty(),
    };
    let names = match schema.property_names {
        Some(names) => crate::json_schema::checks::property_names_text(
            ctx,
            keys_expr,
            *names,
            indent,
        ),
        None => Seq::empty(),
    };
    required + closed_keys_text(schema, keys_expr, indent)
        + crate::json_schema::checks::property_count_checks(
        keys_expr + ".length"@,
        schema,
        indent,
    ) + names + crate::json_schema::checks::dependent_required_text(object_expr, schema, indent)
}

/// The checks of an object as a whole, under the paths of its members.
pub fn render_whole_checks(
    ctx: &TsContext,
    schema: &Schema,
    object_expr: &str,
    keys_expr: &str,
    indent: &str,
) -> (result: String)
    ensures
        result@ == whole_checks(*ctx, *schema, object_expr@, keys_expr@, indent@),
{
    let required = match &schema.required {
        Some(names) => required_checks(names, object_expr, indent),
        None => String::new(),
    };
    let names = match &schema.property_names {
        Some(names) => render_ts_property_name_checks(ctx, keys_expr, names, indent),
        None => String::new(),
    };
    let count_expr = keys_expr.to_owned().concat(".length");
    let closed = closed_keys_check(schema, keys_expr, indent);
    let counts = render_ts_property_count_checks(count_expr.as_str(), schema, indent);
    let dependents = render_ts_dependent_required(object_expr, schema, indent);
    required.concat(closed.as_str()).concat(counts.as_str()).concat(names.as_str())
        .concat(dependents.as_str())
}

/// The checks of an object that is written in place as a whole: what they report is gathered and
/// put under the path of the object.
#[verifier::opaque]
pub open spec fn object_constraints(
    ctx: TsContext,
    schema: Schema,
    object_expr: Seq<char>,
    path_expr: Seq<char>,
    suffix: Seq<char>,
    indent: Seq<char>,
) -> Seq<char> {
    let inner = indent + "  "@;
    let checks = whole_checks(ctx, schema, object_expr, "__keys"@ + suffix, inner);
    if checks.len() == 0 {
        Seq::empty()
    } else {
        indent + "try {\n"@ + inner
            + "const violations: __nexgenDefinitions.Violation[] = [];\n"@ + inner
            + "const __keys"@ + suffix + " = Object.keys("@ + object_expr + ");\n"@ + checks + inner
            + "if (violations.length) {\n"@ + inner
            + "  throw createPayloadValidationError(violations);\n"@ + inner + "}\n"@ + indent
            + "} catch (error) {\n"@ + indent + "  __nexgenDefinitions.collect(violations, "@
            + path_expr + ", error);\n"@ + indent + "}\n"@
    }
}

/// The checks of an object that is written in place as a whole: what they report is gathered and
/// put under the path of the object.
pub fn render_object_constraints(
    ctx: &TsContext,
    schema: &Schema,
    object_expr: &str,
    path_expr: &str,
    suffix: &str,
    indent: &str,
) -> (result: String)
    ensures
        result@ == object_constraints(
            *ctx,
            *schema,
            object_expr@,
            path_expr@,
            suffix@,
            indent@,
        ),
{
    proof {
        reveal(object_constraints);
    }
    let inner = indent.to_owned().concat("  ");
    let keys = "__keys".to_owned().concat(suffix);
    let checks = render_whole_checks(ctx, schema, object_expr, keys.as_str(), inner.as_str());
    if checks.as_str().is_empty() {
        String::new()
    } else {
        indent.to_owned().concat("try {\n").concat(inner.as_str())
            .concat("const violations: __nexgenDefinitions.Violation[] = [];\n")
            .concat(inner.as_str()).concat("const __keys").concat(suffix)
            .concat(" = Object.keys(").concat(object_expr).concat(");\n").concat(checks.as_str())
            .concat(inner.as_str()).concat("if (violations.length) {\n").concat(inner.as_str())
            .concat("  throw createPayloadValidationError(violations);\n").concat(inner.as_str())
            .concat("}\n").concat(indent).concat("} catch (error) {\n").concat(indent)
            .concat("  __nexgenDefinitions.collect(violations, ").concat(path_expr)
            .concat(", error);\n").concat(indent).concat("}\n")
    }
}

} // verus!
