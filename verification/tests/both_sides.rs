//! What generated parsers and serializers do with values inside of others.

use nexgen::json_schema::annotation::{
    element_annotation, map_value_schema, serialize_expr, serialize_expr_collecting,
    split_top_level_union,
};
use nexgen::json_schema::backend::converter_dependency_order;
use nexgen::json_schema::checks::{
    render_ts_array_checks, render_ts_numeric_checks, render_ts_schema_closed_check,
};
use nexgen::json_schema::fields::{
    field_needs_serialize_check, model_needs_serialize_validation, render_ts_field_checks,
    render_ts_union_value_checks,
};
use nexgen::json_schema::model::{render_model_parser_body, render_model_serializer_body};
use nexgen::json_schema::number::cut_to_whole_number;
use nexgen::json_schema::object::render_object_constraints;
use nexgen::json_schema::parse::{
    render_const_parser, render_ts_union_parse, render_value_parser, render_value_parser_at_depth,
};
use nexgen::json_schema::schema::{AdditionalProperties, Property, Schema};
use nexgen::json_schema::ts_text::{
    ts_bound_literal, ts_keyed_path, JsonModel, ReadSchema, RefName, TsContext,
};
use nexgen::json_schema::value::{JsonNumber, JsonValue};
use nexgen::output::TsDateTimeTypes;

fn empty() -> Schema {
    Schema {
        reference: None,
        ty: None,
        title: None,
        description: None,
        deprecated: None,
        properties: None,
        required: None,
        additional_properties: None,
        items: None,
        one_of: None,
        default: None,
        const_value: None,
        max_properties: None,
        min_properties: None,
        property_names: None,
        dependent_required: None,
        minimum: None,
        maximum: None,
        exclusive_minimum: None,
        exclusive_maximum: None,
        multiple_of: None,
        min_length: None,
        max_length: None,
        pattern: None,
        format: None,
        content_encoding: None,
        min_items: None,
        max_items: None,
        unique_items: None,
        contains: None,
        min_contains: None,
        max_contains: None,
        enum_values: None,
        x_ts_name: None,
    }
}

fn typed(ty: &str) -> Schema {
    Schema {
        ty: Some(JsonValue::Text(ty.to_string())),
        ..empty()
    }
}

fn short_text() -> Schema {
    Schema {
        max_length: Some(3),
        ..typed("string")
    }
}

fn array_of(items: Schema) -> Schema {
    Schema {
        items: Some(Box::new(items)),
        ..typed("array")
    }
}

fn map_of(members: Schema) -> Schema {
    Schema {
        additional_properties: Some(AdditionalProperties::Matching(Box::new(members))),
        ..typed("object")
    }
}

fn one_of(branches: Vec<Schema>) -> Schema {
    Schema {
        one_of: Some(branches),
        ..empty()
    }
}

fn reference(name: &str) -> Schema {
    Schema {
        reference: Some(format!("#/$defs/{name}")),
        ..empty()
    }
}

fn number(text: &str) -> JsonNumber {
    JsonNumber {
        text: text.to_string(),
    }
}

fn context() -> TsContext {
    TsContext {
        repr: TsDateTimeTypes::String,
        formats: Vec::new(),
        ref_names: Vec::<RefName>::new(),
        tree_models: Vec::new(),
    }
}

fn alias(name: &str, target: Option<&str>) -> JsonModel {
    JsonModel {
        model_name: name.to_string(),
        full_name: name.to_string(),
        bare_reference: target.map(|target| format!("#/$defs/{target}")),
        schema: ReadSchema::Read(empty()),
    }
}

#[test]
fn nullable_array_inside_an_array_has_variables_of_its_own() {
    let nullable = one_of(vec![typed("array"), typed("null")]);
    let parser =
        render_value_parser_at_depth(&context(), &nullable, "element", "item", "p", "", 1);
    assert!(parser.contains("element.forEach((element1: unknown, index1: number) => {"));
    assert!(parser.contains("item!.push(item1);"));
    assert_eq!(
        parser,
        r#"if (element === null) {
  item = null;
} else {
  if (!Array.isArray(element)) {
    violations.push({ path: p, reason: 'expected array' });
  } else {
    item = [];
    element.forEach((element1: unknown, index1: number) => {
      let item1: unknown = undefined as unknown as unknown;
      item1 = element1 as unknown;
      if (item1 !== undefined) {
        item!.push(item1);
      }
    });
  }
}
"#
    );
}

#[test]
fn serializer_of_a_closed_model_gathers_and_throws() {
    let meta = Schema {
        properties: Some(vec![Property {
            name: "meta".to_string(),
            schema: typed("object"),
        }]),
        required: Some(vec!["meta".to_string()]),
        additional_properties: Some(AdditionalProperties::Allowed(false)),
        ..typed("object")
    };
    assert!(model_needs_serialize_validation(&meta).unwrap());
    let body = render_model_serializer_body(&context(), "Meta", &meta, &Vec::new()).unwrap();
    assert_eq!(
        body,
        r#"  const candidate: unknown = value;
  if (!__nexgenDefinitions.isPlainObject(candidate)) {
    throw createPayloadValidationError([{ path: '', reason: 'expected object' }]);
  }
  const violations: __nexgenDefinitions.Violation[] = [];
  const out: Record<string, unknown> = Object.create(null) as Record<string, unknown>;
  if (value.meta === undefined || value.meta === null) {
    violations.push({ path: "meta", reason: 'required' });
  } else {
    if (!(__nexgenDefinitions.isPlainObject(value.meta))) {
      violations.push({ path: "meta", reason: 'expected object' });
    }
    out["meta"] = value.meta;
  }
  if (violations.length) {
    throw createPayloadValidationError(violations);
  }
  return out;
"#
    );
    let parsed = render_model_parser_body(&context(), "Meta", &meta, &Vec::new()).unwrap();
    assert!(parsed.contains("if (!__nexgenDefinitions.isPlainObject(raw[\"meta\"])) {"));
    assert!(parsed.contains("violations.push({ path: \"meta\", reason: 'expected object' });"));
}

#[test]
fn unchecked_map_needs_no_violations() {
    let map = map_of(empty());
    assert!(!model_needs_serialize_validation(&map).unwrap());
    assert!(model_needs_serialize_validation(&map_of(typed("object"))).unwrap());
    assert!(field_needs_serialize_check(&typed("object")));
    assert!(field_needs_serialize_check(&typed("null")));
    assert!(!field_needs_serialize_check(&empty()));
}

#[test]
fn each_array_level_has_its_own_index() {
    let nested = array_of(array_of(reference("Leaf")));
    assert_eq!(
        serialize_expr_collecting(&context(), &nested, "v", "\"f\""),
        "v.map((element, index) => element.map((element1, index1) => (() => { try { return \
         leafTransferTypeConverter.toTransferType(element1); } catch (error) { \
         __nexgenDefinitions.collect(violations, `f[${index}][${index1}]`, error); \
         return undefined; } })()))"
    );
}

#[test]
fn brackets_and_bars_in_string_literals_do_not_count() {
    assert_eq!(element_annotation("\"<\" | \"a\""), "(\"<\" | \"a\")");
    assert_eq!(element_annotation("\"a | b\""), "\"a | b\"");
    assert_eq!(
        split_top_level_union(r#""a\"|<" | "b""#),
        vec![r#""a\"|<""#.to_string(), r#""b""#.to_string()]
    );
    assert_eq!(split_top_level_union(r#""\\" | x"#).len(), 2);
}

#[test]
fn reasons_name_the_bound_and_the_value() {
    let two = JsonValue::Number(number("2"));
    let parser = render_const_parser(&two, "r", "t", "p", "", "2");
    assert!(parser.contains("reason: `must equal 2, got ${JSON.stringify(r)}`"));
    let fixed = Schema {
        const_value: Some(JsonValue::Text("a".to_string())),
        ..empty()
    };
    assert!(render_ts_schema_closed_check(&fixed, "v", "p", "")
        .contains("reason: `must equal \"a\", got ${JSON.stringify(v)}`"));
    assert!(render_ts_numeric_checks("v", "p", &typed("integer"), "", true)
        .contains("reason: `exceeds ±(2^53-1) integer cap, got ${v}`"));
    let containing = Schema {
        contains: Some(Box::new(typed("string"))),
        ..typed("array")
    };
    assert!(render_ts_array_checks(&context(), "v", "p", &containing, "", 0, false).contains(
        "reason: `no element matches the required schema: at least 1, got ${matchCount}`"
    ));
}

#[test]
fn members_of_a_map_in_place_are_parsed_and_checked() {
    let map = map_of(short_text());
    assert!(map_value_schema(&map).is_some());
    assert!(map_value_schema(&typed("object")).is_none());
    assert_eq!(
        render_value_parser(&context(), &map, "r", "t", "\"m\"", ""),
        r#"if (!__nexgenDefinitions.isPlainObject(r)) {
  violations.push({ path: "m", reason: 'expected object' });
} else {
  const __members: Record<string, string> = Object.create(null) as Record<string, string>;
  for (const [__key, __raw] of Object.entries(r as Record<string, unknown>)) {
    let __entry: string = undefined as unknown as string;
    if (typeof __raw !== 'string') {
      violations.push({ path: `m[${JSON.stringify(__key)}]`, reason: 'expected string' });
    } else {
      __entry = __raw;
      if (__nexgenDefinitions.codePointLength(__raw, 3) > 3) {
        violations.push({ path: `m[${JSON.stringify(__key)}]`, reason: `must have length <= 3, got ${__nexgenDefinitions.codePointLength(__raw)}` });
      }
    }
    if (__entry !== undefined) {
      __members[__key] = __entry;
    }
  }
  t = __members;
}
"#
    );
    assert_eq!(
        render_ts_field_checks(&context(), &map, "v", "\"m\"", ""),
        r#"if (!(__nexgenDefinitions.isPlainObject(v))) {
  violations.push({ path: "m", reason: 'expected object' });
} else {
  for (const [__key, __entry] of Object.entries(v)) {
    if (!(typeof __entry === 'string')) {
      violations.push({ path: `m[${JSON.stringify(__key)}]`, reason: 'expected string' });
    } else {
      if (__nexgenDefinitions.codePointLength(__entry, 3) > 3) {
        violations.push({ path: `m[${JSON.stringify(__key)}]`, reason: `must have length <= 3, got ${__nexgenDefinitions.codePointLength(__entry)}` });
      }
    }
  }
}
"#
    );
    assert_eq!(ts_keyed_path("\"m\"", "k"), "`m[${JSON.stringify(k)}]`");
}

#[test]
fn members_of_a_map_in_place_are_converted() {
    let map = map_of(reference("Leaf"));
    assert_eq!(
        serialize_expr(&context(), &map, "v"),
        "Object.fromEntries(Object.entries(v).map(([__key, __entry]) => \
         [__key, leafTransferTypeConverter.toTransferType(__entry)]))"
    );
    assert_eq!(
        serialize_expr_collecting(&context(), &array_of(map), "v", "\"f\""),
        "v.map((element, index) => Object.fromEntries(Object.entries(element).map(([__key1, \
         __entry1]) => [__key1, (() => { try { return \
         leafTransferTypeConverter.toTransferType(__entry1); } catch (error) { \
         __nexgenDefinitions.collect(violations, `f[${index}][${JSON.stringify(__key1)}]`, \
         error); return undefined; } })()])))"
    );
    let plain = map_of(typed("string"));
    assert_eq!(serialize_expr(&context(), &plain, "v"), "v");
    assert_eq!(serialize_expr_collecting(&context(), &plain, "v", "p"), "v");
}

#[test]
fn unions_inside_of_arrays_are_converted() {
    let array = array_of(one_of(vec![
        reference("Leaf"),
        array_of(reference("Leaf")),
        typed("string"),
        typed("null"),
    ]));
    let mut ctx = context();
    ctx.tree_models = vec![JsonModel {
        model_name: "Leaf".to_string(),
        full_name: "Leaf".to_string(),
        bare_reference: None,
        schema: ReadSchema::Read(typed("object")),
    }];
    assert_eq!(
        serialize_expr(&ctx, &array, "v"),
        "v.map((element) => element === null ? null : \
         __nexgenDefinitions.isPlainObject(element) ? \
         leafTransferTypeConverter.toTransferType(element as unknown as Leaf) : \
         Array.isArray(element) ? (element as Leaf[]).map((element1) => \
         leafTransferTypeConverter.toTransferType(element1)) : element)"
    );
    let plain = array_of(one_of(vec![typed("boolean"), typed("string"), typed("null")]));
    assert_eq!(serialize_expr(&ctx, &plain, "v"), "v");
}

#[test]
fn union_of_unconstrained_kinds_has_no_checks() {
    let union = one_of(vec![typed("string"), typed("boolean"), typed("integer")]);
    let checks = render_ts_union_value_checks(
        &context(),
        &union,
        &Vec::new(),
        "v",
        "\"f\"",
        "",
        0,
        1,
    );
    assert_eq!(checks, "");
}

#[test]
fn elements_are_checked_on_both_sides() {
    let array = array_of(short_text());
    let parser = render_value_parser(&context(), &array, "r", "t", "\"f\"", "");
    let checks = render_ts_field_checks(&context(), &array, "v", "\"f\"", "");
    let check = "if (__nexgenDefinitions.codePointLength(element, 3) > 3) {";
    assert!(parser.contains(check));
    assert!(checks.contains(check));
}

#[test]
fn value_beside_null_is_checked_on_both_sides() {
    let nullable = one_of(vec![short_text(), typed("null")]);
    let parser = render_value_parser(&context(), &nullable, "x", "t", "\"f\"", "");
    let checks = render_ts_field_checks(&context(), &nullable, "x", "\"f\"", "");
    let check = "if (__nexgenDefinitions.codePointLength(x, 3) > 3) {";
    assert!(parser.contains(check));
    assert!(checks.contains(check));
}

#[test]
fn union_members_are_checked_on_both_sides() {
    let union = one_of(vec![short_text(), typed("boolean")]);
    let parser = render_ts_union_parse(&context(), &union, &Vec::new(), "r", "t", "\"f\"", "");
    assert!(parser.contains("if (__nexgenDefinitions.codePointLength((t as string), 3) > 3) {"));
    assert!(parser.contains("reason: 'expected one of: string, boolean'"));
    let checks = render_ts_union_value_checks(
        &context(),
        &union,
        &Vec::new(),
        "v",
        "\"f\"",
        "",
        0,
        1,
    );
    assert!(checks.contains("if (__nexgenDefinitions.codePointLength((v as string), 3) > 3) {"));
}

#[test]
fn unions_inside_of_arrays_are_parsed() {
    let array = array_of(one_of(vec![array_of(short_text()), typed("boolean")]));
    let parser = render_value_parser(&context(), &array, "r", "t", "\"f\"", "");
    assert!(!parser.contains("as never"));
    assert!(parser.contains("if (Array.isArray(element)) {"));
    assert!(parser.contains("element.forEach((element1: unknown, index1: number) => {"));
    assert!(parser.contains("`f[${index}][${index1}]`"));
    assert!(parser.contains("reason: 'expected one of: string[], boolean'"));
    let checks = render_ts_field_checks(&context(), &array, "v", "\"f\"", "");
    assert!(checks.contains("(element as string[]).forEach((element1, index1) => {"));
    assert!(checks.contains("`f[${index}][${index1}]`"));
}

#[test]
fn map_among_the_members_of_a_union_is_checked() {
    let union = one_of(vec![map_of(short_text()), typed("boolean")]);
    let parser = render_ts_union_parse(&context(), &union, &Vec::new(), "r", "t", "\"f\"", "");
    assert!(parser.starts_with("if (__nexgenDefinitions.isPlainObject(r)) {\n"));
    assert!(parser.contains("if (__nexgenDefinitions.codePointLength(__raw, 3) > 3) {"));
    assert!(parser.contains("  t = __members;\n"));
    let checks = render_ts_union_value_checks(
        &context(),
        &union,
        &Vec::new(),
        "v",
        "\"f\"",
        "",
        0,
        1,
    );
    assert!(checks.starts_with("if (__nexgenDefinitions.isPlainObject(v)) {\n"));
    assert!(checks.contains("if (__nexgenDefinitions.codePointLength(__entry, 3) > 3) {"));
}

#[test]
fn lone_branch_and_null_are_parsed() {
    let lone = one_of(vec![typed("boolean")]);
    assert_eq!(
        render_value_parser(&context(), &lone, "r", "t", "p", ""),
        render_value_parser(&context(), &typed("boolean"), "r", "t", "p", "")
    );
    assert_eq!(
        render_value_parser(&context(), &typed("null"), "r", "t", "p", ""),
        "if (r !== null) {\n  violations.push({ path: p, reason: 'expected null' });\n} else {\n  t = null;\n}\n"
    );
    assert_eq!(
        render_ts_field_checks(&context(), &typed("null"), "v", "p", ""),
        "if (!(v === null)) {\n  violations.push({ path: p, reason: 'expected null' });\n}\n"
    );
}

#[test]
fn integer_bounds_keep_their_digits() {
    assert_eq!(ts_bound_literal(&number("9007199254740993"), true), "9007199254740993");
    assert_eq!(ts_bound_literal(&number("10.5"), true), "10");
    assert_eq!(ts_bound_literal(&number("-2.9"), true), "-2");
    assert_eq!(ts_bound_literal(&number("1e3"), true), "1000");
    assert_eq!(ts_bound_literal(&number("1.25e1"), true), "12");
    assert_eq!(ts_bound_literal(&number("0.5"), true), "0");
    assert_eq!(ts_bound_literal(&number("-0.5"), true), "0");
    assert_eq!(ts_bound_literal(&number("1.5e-3"), true), "0");
    assert_eq!(ts_bound_literal(&number("10.5"), false), "10.5");
    assert_eq!(cut_to_whole_number("12345678901234567890123"), "12345678901234567890123");
}

#[test]
fn order_fails_only_on_a_cycle() {
    let models = vec![alias("A", Some("B")), alias("B", Some("C")), alias("C", None)];
    assert_eq!(converter_dependency_order(&context(), &models).unwrap(), vec![2, 1, 0]);
    let ring = vec![alias("A", Some("B")), alias("B", Some("A"))];
    assert!(converter_dependency_order(&context(), &ring).is_err());
}

#[test]
fn whole_object_in_place_is_checked_on_both_sides() {
    let object = Schema {
        required: Some(vec!["a".to_string()]),
        max_properties: Some(2),
        additional_properties: Some(AdditionalProperties::Allowed(false)),
        properties: Some(vec![Property {
            name: "a".to_string(),
            schema: typed("string"),
        }]),
        ..typed("object")
    };
    assert_eq!(
        render_object_constraints(&context(), &object, "v", "\"m\"", "1", ""),
        r#"try {
  const violations: __nexgenDefinitions.Violation[] = [];
  const __keys1 = Object.keys(v);
  if (!Object.prototype.hasOwnProperty.call(v, "a")) {
    violations.push({ path: "a", reason: 'required' });
  }
  for (const key of __keys1) {
    if (key !== "a") {
      violations.push({ path: __nexgenDefinitions.memberPath(key), reason: 'unknown field' });
    }
  }
  if (__keys1.length > 2) {
    violations.push({ path: '', reason: `must have at most 2 properties, got ${__keys1.length}` });
  }
  if (violations.length) {
    throw createPayloadValidationError(violations);
  }
} catch (error) {
  __nexgenDefinitions.collect(violations, "m", error);
}
"#
    );
    let parser = render_value_parser(&context(), &object, "r", "t", "\"m\"", "");
    let read = "(r as Record<string, unknown>)";
    assert!(parser.contains(
        render_object_constraints(&context(), &object, read, "\"m\"", "", "  ").as_str()
    ));
    let checks = render_ts_field_checks(&context(), &object, "v", "\"m\"", "");
    assert!(checks
        .contains(render_object_constraints(&context(), &object, "v", "\"m\"", "", "  ").as_str()));
}

#[test]
fn unconstrained_object_in_place_has_no_checks_of_its_own() {
    let text = render_object_constraints(&context(), &typed("object"), "v", "\"m\"", "", "");
    assert_eq!(text, "");
}
