//! TypeScript models of JSON schemas.

use nexgen::error::Error;
use nexgen::json_schema::annotation::{
    allows_null, element_annotation, is_ts_union, join_union, nullable_non_null_schema,
    optional_type_annotation, serialize_expr, split_top_level_union, type_annotation,
};
use nexgen::json_schema::backend::{
    collect_schema_patterns, render_external_models, render_pattern_regexes,
};
use nexgen::json_schema::fields::render_ts_serialize_property_check;
use nexgen::json_schema::parse::render_value_parser;
use nexgen::json_schema::runtime::{
    render_json_runtime_module, render_ts_temporal_helpers, RuntimePatterns, RuntimeUses,
};
use nexgen::json_schema::schema::{
    temporal_serializes_non_identity, AdditionalProperties, DependentRequired, Property, Schema,
    TemporalKind,
};
use nexgen::json_schema::ts_text::{
    ts_bound_literal, ts_depth_suffix, ts_has_own, ts_index_access, ts_indexed_path,
    ts_member_conflicts_with_object_prototype, ts_pattern_const_name, ts_regex_literal,
    ts_template_escape, ts_temporal_serialize_call, ts_temporal_type, typescript_object_key,
    typescript_value_literal, FormatCheck, JsonModel, ReadSchema, RefName, TsContext,
};
use nexgen::json_schema::union::classify_ts_union;
use nexgen::json_schema::value::{JsonMember, JsonNumber, JsonValue};
use nexgen::output::TsDateTimeTypes;
use serde_json::Value;

fn number(value: &serde_json::Number) -> JsonNumber {
    JsonNumber {
        text: value.to_string(),
    }
}

fn json(value: &Value) -> JsonValue {
    match value {
        Value::Null => JsonValue::Null,
        Value::Bool(value) => JsonValue::Bool(*value),
        Value::Number(value) => JsonValue::Number(number(value)),
        Value::String(text) => JsonValue::Text(text.clone()),
        Value::Array(values) => JsonValue::Array(values.iter().map(json).collect()),
        Value::Object(members) => JsonValue::Object(
            members
                .iter()
                .map(|(name, value)| JsonMember {
                    name: name.clone(),
                    value: json(value),
                })
                .collect(),
        ),
    }
}

fn texts(value: &Value) -> Vec<String> {
    value
        .as_array()
        .unwrap()
        .iter()
        .map(|text| text.as_str().unwrap().to_string())
        .collect()
}

fn schema_of(value: &Value) -> Schema {
    let text = |name: &str| value.get(name).and_then(Value::as_str).map(str::to_string);
    let count = |name: &str| value.get(name).and_then(Value::as_u64);
    let bound = |name: &str| match value.get(name) {
        Some(Value::Number(bound)) => Some(number(bound)),
        _ => None,
    };
    let flag = |name: &str| value.get(name).and_then(Value::as_bool);
    let inner = |name: &str| value.get(name).map(|inner| Box::new(schema_of(inner)));
    Schema {
        reference: text("$ref"),
        ty: value.get("type").map(json),
        title: text("title"),
        description: text("description"),
        deprecated: flag("deprecated"),
        properties: value.get("properties").map(|properties| {
            properties
                .as_object()
                .unwrap()
                .iter()
                .map(|(name, schema)| Property {
                    name: name.clone(),
                    schema: schema_of(schema),
                })
                .collect()
        }),
        required: value.get("required").map(texts),
        additional_properties: value.get("additionalProperties").map(|members| match members {
            Value::Bool(allowed) => AdditionalProperties::Allowed(*allowed),
            members => AdditionalProperties::Matching(Box::new(schema_of(members))),
        }),
        items: inner("items"),
        one_of: value
            .get("oneOf")
            .map(|branches| branches.as_array().unwrap().iter().map(schema_of).collect()),
        default: value.get("default").map(json),
        const_value: value.get("const").map(json),
        max_properties: count("maxProperties"),
        min_properties: count("minProperties"),
        property_names: inner("propertyNames"),
        dependent_required: value.get("dependentRequired").map(|entries| {
            entries
                .as_object()
                .unwrap()
                .iter()
                .map(|(name, required)| DependentRequired {
                    name: name.clone(),
                    required: texts(required),
                })
                .collect()
        }),
        minimum: bound("minimum"),
        maximum: bound("maximum"),
        exclusive_minimum: bound("exclusiveMinimum"),
        exclusive_maximum: bound("exclusiveMaximum"),
        multiple_of: bound("multipleOf"),
        min_length: count("minLength"),
        max_length: count("maxLength"),
        pattern: text("pattern"),
        format: text("format"),
        content_encoding: text("contentEncoding"),
        min_items: count("minItems"),
        max_items: count("maxItems"),
        unique_items: flag("uniqueItems"),
        contains: inner("contains"),
        min_contains: count("minContains"),
        max_contains: count("maxContains"),
        enum_values: value
            .get("enum")
            .map(|values| values.as_array().unwrap().iter().map(json).collect()),
        x_ts_name: text("x-ts-name"),
    }
}

fn model(name: &str, text: &str) -> JsonModel {
    let value: Value = serde_json::from_str(text).unwrap();
    JsonModel {
        model_name: name.to_string(),
        full_name: name.to_string(),
        bare_reference: value.get("$ref").and_then(Value::as_str).map(str::to_string),
        schema: ReadSchema::Read(schema_of(&value)),
    }
}

fn context(repr: TsDateTimeTypes) -> TsContext {
    TsContext {
        repr,
        formats: vec![FormatCheck {
            format: "email".to_string(),
            name: "email".to_string(),
            pattern: "^[^@]+@[^@]+$".to_string(),
            max_code_points: Some(254),
        }],
        ref_names: Vec::<RefName>::new(),
        tree_models: Vec::new(),
    }
}

const CIRCLE: &str =
    r#"{"type":"object","required":["type"],"properties":{"type":{"const":"circle"},"r":{"type":"number"}}}"#;

const SQUARE: &str = r#"{"type":"object","required":["type"],"properties":{"type":{"const":"square"}},
        "additionalProperties":{"type":"string"}}"#;

fn rendered(repr: TsDateTimeTypes, models: Vec<JsonModel>) -> (String, String) {
    let fragments = render_external_models(&context(repr), &models, "./definitions").unwrap();
    (fragments.imports, fragments.body)
}

#[test]
fn open_object_keeps_the_members_that_it_does_not_declare() {
    let (imports, body) = rendered(TsDateTimeTypes::String, vec![model("Circle", CIRCLE)]);
    assert_eq!(
        imports,
        r##"import type { TransferTypeConverter } from "nexus-rpc";
import { createPayloadValidationError } from "@temporalio/common";
import * as __nexgenDefinitions from "./definitions";
"##
    );
    assert_eq!(
        body,
        r##"
const TYPE_CONST = "circle";


export interface Circle {
  readonly type: "circle";
  r?: number;
  additionalProperties: Record<string, unknown>;
}

const CIRCLE_DECLARED = new Set(["type", "r"]);

export const circleTransferTypeConverter = new class implements TransferTypeConverter<Circle> {
  public fromTransferType(raw: unknown): Circle {
    const violations: __nexgenDefinitions.Violation[] = [];
    if (!__nexgenDefinitions.isPlainObject(raw)) {
      throw createPayloadValidationError([{ path: '', reason: 'expected object' }]);
    }
  
    let type: "circle" = undefined as unknown as "circle";
    if (!Object.prototype.hasOwnProperty.call(raw, "type") || raw["type"] === null) {
      violations.push({ path: "type", reason: 'required' });
    } else {
      if (typeof raw["type"] !== 'string') {
        violations.push({ path: "type", reason: 'expected string' });
      } else if (raw["type"] !== TYPE_CONST) {
        violations.push({ path: "type", reason: `must equal "circle", got ${JSON.stringify(raw["type"])}` });
      } else {
        type = raw["type"] as "circle";
      }
    }
  
    let r: number | undefined = undefined as unknown as number | undefined;
    if (Object.prototype.hasOwnProperty.call(raw, "r") && raw["r"] === null) {
      violations.push({ path: "r", reason: 'explicit null not allowed' });
    } else if (Object.prototype.hasOwnProperty.call(raw, "r")) {
      if (typeof raw["r"] !== 'number') {
        violations.push({ path: "r", reason: 'expected number' });
      } else {
        r = raw["r"];
        if (!Number.isFinite(raw["r"])) {
          violations.push({ path: "r", reason: `must be a finite number, got ${raw["r"]}` });
        }
      }
    }
  
    const additionalProperties: Record<string, unknown> = Object.create(null) as Record<string, unknown>;
    for (const key of Object.keys(raw)) {
      if (!CIRCLE_DECLARED.has(key)) {
        additionalProperties[key] = raw[key];
      }
    }
  
    if (violations.length) {
      throw createPayloadValidationError(violations);
    }
    const out: Circle = { type, additionalProperties };
    if (r !== undefined) {
      out.r = r;
    }
    return out;
  }

  public toTransferType(value: Circle): unknown {
    const candidate: unknown = value;
    if (!__nexgenDefinitions.isPlainObject(candidate)) {
      throw createPayloadValidationError([{ path: '', reason: 'expected object' }]);
    }
    const violations: __nexgenDefinitions.Violation[] = [];
    const out: Record<string, unknown> = Object.create(null) as Record<string, unknown>;
    if (value.type === undefined || value.type === null) {
      violations.push({ path: "type", reason: 'required' });
    } else {
      if (value.type !== "circle") {
        violations.push({ path: "type", reason: `must equal "circle", got ${JSON.stringify(value.type)}` });
      }
      out["type"] = value.type;
    }
    if (value.r !== undefined) {
      if (value.r === null) {
        violations.push({ path: "r", reason: 'explicit null not allowed' });
      } else {
        if (!(typeof value.r === 'number')) {
          violations.push({ path: "r", reason: 'expected number' });
        } else {
          if (!Number.isFinite(value.r)) {
            violations.push({ path: "r", reason: `must be a finite number, got ${value.r}` });
          }
        }
        out["r"] = value.r;
      }
    }
    for (const [key, entry] of Object.entries(value.additionalProperties ?? {})) {
      const path = __nexgenDefinitions.memberPath(key);
      if (CIRCLE_DECLARED.has(key)) {
        violations.push({ path, reason: 'catch-all key collides with declared property' });
        continue;
      }
      out[key] = entry;
    }
    if (violations.length) {
      throw createPayloadValidationError(violations);
    }
    return out;
  }
}();
"##
    );
}

#[test]
fn typed_members_of_an_open_object_are_parsed() {
    let (_, body) = rendered(TsDateTimeTypes::String, vec![model("Square", SQUARE)]);
    assert_eq!(
        body,
        r##"
const TYPE_CONST = "square";


export interface Square {
  readonly type: "square";
  additionalProperties: Record<string, string>;
}

const SQUARE_DECLARED = new Set(["type"]);

export const squareTransferTypeConverter = new class implements TransferTypeConverter<Square> {
  public fromTransferType(raw: unknown): Square {
    const violations: __nexgenDefinitions.Violation[] = [];
    if (!__nexgenDefinitions.isPlainObject(raw)) {
      throw createPayloadValidationError([{ path: '', reason: 'expected object' }]);
    }
  
    let type: "square" = undefined as unknown as "square";
    if (!Object.prototype.hasOwnProperty.call(raw, "type") || raw["type"] === null) {
      violations.push({ path: "type", reason: 'required' });
    } else {
      if (typeof raw["type"] !== 'string') {
        violations.push({ path: "type", reason: 'expected string' });
      } else if (raw["type"] !== TYPE_CONST) {
        violations.push({ path: "type", reason: `must equal "square", got ${JSON.stringify(raw["type"])}` });
      } else {
        type = raw["type"] as "square";
      }
    }
  
    const additionalProperties: Record<string, string> = Object.create(null) as Record<string, string>;
    for (const key of Object.keys(raw)) {
      if (!SQUARE_DECLARED.has(key)) {
        const path = __nexgenDefinitions.memberPath(key);
        let entry: string | undefined = undefined;
        if (typeof raw[key] !== 'string') {
          violations.push({ path: path, reason: 'expected string' });
        } else {
          entry = raw[key];
        }
        if (entry !== undefined) {
          additionalProperties[key] = entry;
        }
      }
    }
  
    if (violations.length) {
      throw createPayloadValidationError(violations);
    }
    const out: Square = { type, additionalProperties };
    return out;
  }

  public toTransferType(value: Square): unknown {
    const candidate: unknown = value;
    if (!__nexgenDefinitions.isPlainObject(candidate)) {
      throw createPayloadValidationError([{ path: '', reason: 'expected object' }]);
    }
    const violations: __nexgenDefinitions.Violation[] = [];
    const out: Record<string, unknown> = Object.create(null) as Record<string, unknown>;
    if (value.type === undefined || value.type === null) {
      violations.push({ path: "type", reason: 'required' });
    } else {
      if (value.type !== "square") {
        violations.push({ path: "type", reason: `must equal "square", got ${JSON.stringify(value.type)}` });
      }
      out["type"] = value.type;
    }
    for (const [key, entry] of Object.entries(value.additionalProperties ?? {})) {
      const path = __nexgenDefinitions.memberPath(key);
      if (SQUARE_DECLARED.has(key)) {
        violations.push({ path, reason: 'catch-all key collides with declared property' });
        continue;
      }
      if (!(typeof entry === 'string')) {
        violations.push({ path: path, reason: 'expected string' });
      }
      out[key] = entry;
    }
    if (violations.length) {
      throw createPayloadValidationError(violations);
    }
    return out;
  }
}();
"##
    );
}

#[test]
fn map_checks_its_keys_and_members() {
    let (_, body) = rendered(
        TsDateTimeTypes::String,
        vec![model(
            "Words",
            r#"{"type":"object","additionalProperties":{"type":"string","minLength":2},
                "propertyNames":{"pattern":"^k"},"minProperties":1}"#,
        )],
    );
    assert_eq!(
        body,
        r##"
const PATTERN_09573507B5E4721E = /^k/u;


export interface Words {
  additionalProperties: Record<string, string>;
}

export const wordsTransferTypeConverter = new class implements TransferTypeConverter<Words> {
  public fromTransferType(raw: unknown): Words {
    const violations: __nexgenDefinitions.Violation[] = [];
    if (!__nexgenDefinitions.isPlainObject(raw)) {
      throw createPayloadValidationError([{ path: '', reason: 'expected object' }]);
    }
  
    const keys = Object.keys(raw);
    if (keys.length < 1) {
      violations.push({ path: '', reason: `must have at least 1 properties, got ${keys.length}` });
    }
    for (const key of keys) {
      if (!PATTERN_09573507B5E4721E.test(key)) {
        violations.push({ path: __nexgenDefinitions.memberPath(key), reason: `invalid property name "${key}": must match pattern ^k, got ${JSON.stringify(key)}` });
      }
    }
    const additionalProperties: Record<string, string> = Object.create(null) as Record<string, string>;
    for (const key of keys) {
      const path = __nexgenDefinitions.memberPath(key);
      let entry: string | undefined = undefined;
      if (typeof raw[key] !== 'string') {
        violations.push({ path: path, reason: 'expected string' });
      } else {
        entry = raw[key];
        {
          const codePoints = __nexgenDefinitions.codePointLength(raw[key], 2);
          if (codePoints < 2) {
            violations.push({ path: path, reason: `must have length >= 2, got ${codePoints}` });
          }
        }
      }
      if (entry !== undefined) {
        additionalProperties[key] = entry;
      }
    }
    if (violations.length) {
      throw createPayloadValidationError(violations);
    }
    return { additionalProperties };
  }

  public toTransferType(value: Words): unknown {
    const candidate: unknown = value;
    if (!__nexgenDefinitions.isPlainObject(candidate)) {
      throw createPayloadValidationError([{ path: '', reason: 'expected object' }]);
    }
    const violations: __nexgenDefinitions.Violation[] = [];
    const out: Record<string, unknown> = Object.create(null) as Record<string, unknown>;
    if (!__nexgenDefinitions.isPlainObject(value.additionalProperties)) {
      throw createPayloadValidationError([{ path: '', reason: 'expected object' }]);
    }
    for (const [key, entry] of Object.entries(value.additionalProperties)) {
      const path = __nexgenDefinitions.memberPath(key);
      if (!(typeof entry === 'string')) {
        violations.push({ path: path, reason: 'expected string' });
      } else {
        {
          const codePoints = __nexgenDefinitions.codePointLength(entry, 2);
          if (codePoints < 2) {
            violations.push({ path: path, reason: `must have length >= 2, got ${codePoints}` });
          }
        }
      }
      out[key] = entry;
    }
    const keys = Object.keys(out);
    if (keys.length < 1) {
      violations.push({ path: '', reason: `must have at least 1 properties, got ${keys.length}` });
    }
    for (const key of keys) {
      if (!PATTERN_09573507B5E4721E.test(key)) {
        violations.push({ path: __nexgenDefinitions.memberPath(key), reason: `invalid property name "${key}": must match pattern ^k, got ${JSON.stringify(key)}` });
      }
    }
    if (violations.length) {
      throw createPayloadValidationError(violations);
    }
    return out;
  }
}();
"##
    );
}

#[test]
fn union_is_told_apart_by_its_discriminant() {
    let (_, body) = rendered(
        TsDateTimeTypes::String,
        vec![
            model(
                "Either",
                r##"{"oneOf":[{"$ref":"#/$defs/Circle"},{"$ref":"#/$defs/Square"},
                    {"type":"string"},{"type":"null"}]}"##,
            ),
            model("Circle", CIRCLE),
            model("Square", SQUARE),
        ],
    );
    assert!(body.contains("export type Either = Circle | Square | string | null;\n"));
    assert!(body.contains(
        r##"export const eitherTransferTypeConverter = new class implements TransferTypeConverter<Either> {
  public fromTransferType(raw: unknown): Either {
    const violations: __nexgenDefinitions.Violation[] = [];
    let out: Either = undefined as unknown as Either;
    if (__nexgenDefinitions.isPlainObject(raw)) {
      switch ((raw as Record<string, unknown>)["type"]) {
        case "circle":
          try {
            out = circleTransferTypeConverter.fromTransferType(raw);
          } catch (error) {
            __nexgenDefinitions.collect(violations, '', error);
          }
          break;
        case "square":
          try {
            out = squareTransferTypeConverter.fromTransferType(raw);
          } catch (error) {
            __nexgenDefinitions.collect(violations, '', error);
          }
          break;
        default:
          violations.push({ path: '', reason: `unknown discriminator type ${String((raw as Record<string, unknown>)["type"])}: expected one of ["circle", "square"]` });
      }
    } else if (typeof raw === 'string') {
      out = raw as string;
      if (!(typeof (out as string) === 'string')) {
        violations.push({ path: '', reason: 'expected string' });
      }
    } else if (raw === null) {
      out = null as unknown as Circle;
    } else {
      violations.push({ path: '', reason: 'expected one of: Circle, Square, string' });
    }
    if (violations.length) {
      throw createPayloadValidationError(violations);
    }
    return out;
  }

  public toTransferType(value: Either): unknown {
    const violations: __nexgenDefinitions.Violation[] = [];
  if (value === null) {
    return null;
  }
  if ((value as unknown as Record<string, unknown>)["type"] === "circle") {
    return circleTransferTypeConverter.toTransferType(value as Circle);
  }
  if ((value as unknown as Record<string, unknown>)["type"] === "square") {
    return squareTransferTypeConverter.toTransferType(value as Square);
  }
  if (typeof value === 'string') {
    return value;
  }
  throw createPayloadValidationError([{ path: '', reason: 'expected one of: Circle, Square, string' }]);
  }
}();
"##
    ));
}

#[test]
fn alias_converter_follows_its_target() {
    let (imports, body) = rendered(
        TsDateTimeTypes::String,
        vec![
            model("Alias", r##"{"$ref":"#/$defs/Circle"}"##),
            model("Circle", CIRCLE),
        ],
    );
    assert!(imports.contains("createPayloadValidationError"));
    let alias = "export const aliasTransferTypeConverter: TransferTypeConverter<Alias> = \
                 circleTransferTypeConverter;\n";
    assert!(body.contains("export type Alias = Circle;\n"));
    assert!(body.find("export const circleTransferTypeConverter").unwrap() < body.find(alias).unwrap());

    let (imports, _) = rendered(
        TsDateTimeTypes::String,
        vec![model("Alias", r##"{"$ref":"#/$defs/Elsewhere"}"##)],
    );
    assert_eq!(
        imports,
        "import type { TransferTypeConverter } from \"nexus-rpc\";\n"
    );
}

#[test]
fn alias_cycle_is_refused() {
    let error = render_external_models(
        &context(TsDateTimeTypes::String),
        &vec![
            model("One", r##"{"$ref":"#/$defs/Two"}"##),
            model("Two", r##"{"$ref":"#/$defs/One"}"##),
        ],
        "./definitions",
    )
    .unwrap_err();
    let Error::InvalidJsonSchema { path, reason } = error else {
        panic!("expected a schema error");
    };
    assert_eq!(path, "<json-generator>");
    assert_eq!(
        reason,
        "bare-`$ref` alias converter cycle among One, Two; break the alias cycle by making one \
         declaration a concrete schema"
    );
}

#[test]
fn unreadable_schema_is_refused() {
    let error = render_external_models(
        &context(TsDateTimeTypes::String),
        &vec![JsonModel {
            model_name: "Broken".to_string(),
            full_name: "a.Broken".to_string(),
            bare_reference: None,
            schema: ReadSchema::Unreadable("no map".to_string()),
        }],
        "./definitions",
    )
    .unwrap_err();
    let Error::InvalidJsonSchema { reason, .. } = error else {
        panic!("expected a schema error");
    };
    assert_eq!(reason, "failed to read planned JSON schema `a.Broken`: no map");
}

#[test]
fn no_models_render_nothing() {
    let (imports, body) = rendered(TsDateTimeTypes::String, Vec::new());
    assert_eq!(imports, "");
    assert_eq!(body, "");
}

const ORDER: &str = r##"{"type":"object","title":"An order","description":"Line one.\nLine two.",
    "required":["id","count","kind"],
    "properties":{
        "id":{"type":"string","minLength":1,"maxLength":10,"pattern":"^a/b$"},
        "count":{"type":"integer","minimum":0,"maximum":10.5,"description":"How many"},
        "price":{"type":"number","exclusiveMinimum":0},
        "when_made":{"type":"string","format":"date-time"},
        "mail":{"type":"string","format":"email"},
        "raw":{"type":"string","contentEncoding":"base64"},
        "tags":{"type":"array","items":{"type":"string","maxLength":3},"minItems":1,
            "uniqueItems":true,"contains":{"const":"x"},"maxContains":2},
        "status":{"enum":["a","b"]},
        "kind":{"const":"order"},
        "note":{"type":"string","default":"none","deprecated":true},
        "parent":{"$ref":"#/$defs/Order"},
        "maybe":{"oneOf":[{"type":"string"},{"type":"null"}]},
        "shape":{"oneOf":[{"$ref":"#/$defs/Circle"},{"$ref":"#/$defs/Square"}]},
        "labels":{"type":"object","additionalProperties":{"type":"integer"}}
    },
    "dependentRequired":{"price":["count"]},
    "additionalProperties":false}"##;

fn order() -> String {
    rendered(
        TsDateTimeTypes::Date,
        vec![
            model("Order", ORDER),
            model("Circle", CIRCLE),
            model("Square", SQUARE),
        ],
    )
    .1
}

#[test]
fn constants_stand_before_the_models() {
    assert!(order().starts_with(
        r##"
const KIND_CONST = "order";
const CIRCLE_TYPE_CONST = "circle";
const SQUARE_TYPE_CONST = "square";
export const DEFAULT_NOTE = "none";

const PATTERN_F101B436E75310CB = /^a\/b$/u;
const PATTERN_F8B1A940EF4EAA75 = /^[^@]+@[^@]+$/u;

"##
    ));
}

#[test]
fn members_are_declared_with_their_documentation() {
    assert!(order().contains(
        r##"/**
 * An order
 *
 * Line one.
 * Line two.
 */
export interface Order {
  id: string;
  /**
   * How many
   */
  count: number;
  price?: number;
  whenMade?: Date;
  mail?: string;
  raw?: Uint8Array;
  tags?: string[];
  status?: "a" | "b";
  readonly kind: "order";
  /**
   * @deprecated
   */
  note?: string;
  parent?: Order;
  maybe?: string | null;
  shape?: Circle | Square;
  labels?: Record<string, number>;
}

"##
    ));
}

#[test]
fn inline_union_has_a_serializer() {
    assert!(order().contains(
        r##"function serializeOrderShape(value: Circle | Square): unknown {
  const violations: __nexgenDefinitions.Violation[] = [];
  if ((value as unknown as Record<string, unknown>)["type"] === "circle") {
    return circleTransferTypeConverter.toTransferType(value as Circle);
  }
  if ((value as unknown as Record<string, unknown>)["type"] === "square") {
    return squareTransferTypeConverter.toTransferType(value as Square);
  }
  throw createPayloadValidationError([{ path: '', reason: 'expected one of: Circle, Square' }]);
}
"##
    ));
}

#[test]
fn every_kind_of_member_is_parsed() {
    assert!(order().contains(
        r##"export const orderTransferTypeConverter = new class implements TransferTypeConverter<Order> {
  public fromTransferType(raw: unknown): Order {
    const violations: __nexgenDefinitions.Violation[] = [];
    if (!__nexgenDefinitions.isPlainObject(raw)) {
      throw createPayloadValidationError([{ path: '', reason: 'expected object' }]);
    }
  
    let id: string = undefined as unknown as string;
    if (!Object.prototype.hasOwnProperty.call(raw, "id") || raw["id"] === null) {
      violations.push({ path: "id", reason: 'required' });
    } else {
      if (typeof raw["id"] !== 'string') {
        violations.push({ path: "id", reason: 'expected string' });
      } else {
        id = raw["id"];
        {
          const codePoints = __nexgenDefinitions.codePointLength(raw["id"], 1);
          if (codePoints < 1) {
            violations.push({ path: "id", reason: `must have length >= 1, got ${codePoints}` });
          }
        }
        if (__nexgenDefinitions.codePointLength(raw["id"], 10) > 10) {
          violations.push({ path: "id", reason: `must have length <= 10, got ${__nexgenDefinitions.codePointLength(raw["id"])}` });
        }
        if (!PATTERN_F101B436E75310CB.test(raw["id"])) {
          violations.push({ path: "id", reason: `must match pattern ^a/b\$, got ${JSON.stringify(raw["id"])}` });
        }
      }
    }
  
    let count: number = undefined as unknown as number;
    if (!Object.prototype.hasOwnProperty.call(raw, "count") || raw["count"] === null) {
      violations.push({ path: "count", reason: 'required' });
    } else {
      if (typeof raw["count"] !== 'number' || !Number.isSafeInteger(raw["count"])) {
        violations.push({ path: "count", reason: 'expected integer' });
      } else {
        count = raw["count"];
        if (raw["count"] < 0) {
          violations.push({ path: "count", reason: `must be >= 0, got ${raw["count"]}` });
        }
        if (raw["count"] > 10) {
          violations.push({ path: "count", reason: `must be <= 10, got ${raw["count"]}` });
        }
      }
    }
  
    let price: number | undefined = undefined as unknown as number | undefined;
    if (Object.prototype.hasOwnProperty.call(raw, "price") && raw["price"] === null) {
      violations.push({ path: "price", reason: 'explicit null not allowed' });
    } else if (Object.prototype.hasOwnProperty.call(raw, "price")) {
      if (typeof raw["price"] !== 'number') {
        violations.push({ path: "price", reason: 'expected number' });
      } else {
        price = raw["price"];
        if (!Number.isFinite(raw["price"])) {
          violations.push({ path: "price", reason: `must be a finite number, got ${raw["price"]}` });
        } else {
        if (raw["price"] <= 0) {
          violations.push({ path: "price", reason: `must be > 0, got ${raw["price"]}` });
        }
        }
      }
    }
  
    let whenMade: Date | undefined = undefined as unknown as Date | undefined;
    if (Object.prototype.hasOwnProperty.call(raw, "when_made") && raw["when_made"] === null) {
      violations.push({ path: "when_made", reason: 'explicit null not allowed' });
    } else if (Object.prototype.hasOwnProperty.call(raw, "when_made")) {
      if (typeof raw["when_made"] !== 'string') {
        violations.push({ path: "when_made", reason: 'expected string' });
      } else {
        const parsed = __nexgenDefinitions.parseTemporalDateTime(raw["when_made"], "when_made", violations);
        if (parsed !== undefined) {
          whenMade = parsed;
        }
      }
    }
  
    let mail: string | undefined = undefined as unknown as string | undefined;
    if (Object.prototype.hasOwnProperty.call(raw, "mail") && raw["mail"] === null) {
      violations.push({ path: "mail", reason: 'explicit null not allowed' });
    } else if (Object.prototype.hasOwnProperty.call(raw, "mail")) {
      if (typeof raw["mail"] !== 'string') {
        violations.push({ path: "mail", reason: 'expected string' });
      } else {
        mail = raw["mail"];
        if (__nexgenDefinitions.codePointLength(raw["mail"], 254) > 254 || !PATTERN_F8B1A940EF4EAA75.test(raw["mail"])) {
          violations.push({ path: "mail", reason: `must be a valid email, got ${JSON.stringify(raw["mail"])}` });
        }
      }
    }
  
    let raw: Uint8Array | undefined = undefined as unknown as Uint8Array | undefined;
    if (Object.prototype.hasOwnProperty.call(raw, "raw") && raw["raw"] === null) {
      violations.push({ path: "raw", reason: 'explicit null not allowed' });
    } else if (Object.prototype.hasOwnProperty.call(raw, "raw")) {
      if (typeof raw["raw"] !== 'string') {
        violations.push({ path: "raw", reason: 'expected string' });
      } else {
        const parsed = __nexgenDefinitions.base64ToBytes(raw["raw"], "raw", violations);
        if (parsed !== undefined) {
          raw = parsed;
        }
      }
    }
  
    let tags: string[] | undefined = undefined as unknown as string[] | undefined;
    if (Object.prototype.hasOwnProperty.call(raw, "tags") && raw["tags"] === null) {
      violations.push({ path: "tags", reason: 'explicit null not allowed' });
    } else if (Object.prototype.hasOwnProperty.call(raw, "tags")) {
      if (!Array.isArray(raw["tags"])) {
        violations.push({ path: "tags", reason: 'expected array' });
      } else {
        tags = [];
        raw["tags"].forEach((element: unknown, index: number) => {
          let item: string = undefined as unknown as string;
          if (typeof element !== 'string') {
            violations.push({ path: `tags[${index}]`, reason: 'expected string' });
          } else {
            item = element;
            if (__nexgenDefinitions.codePointLength(element, 3) > 3) {
              violations.push({ path: `tags[${index}]`, reason: `must have length <= 3, got ${__nexgenDefinitions.codePointLength(element)}` });
            }
          }
          if (item !== undefined) {
            tags!.push(item);
          }
        });
        if (raw["tags"].length < 1) {
          violations.push({ path: "tags", reason: `must have at least 1 items, got ${raw["tags"].length}` });
        }
        {
          const seen = new Map<unknown, number>();
          raw["tags"].forEach((element, index) => {
            if (seen.has(element)) {
              violations.push({ path: "tags", reason: `duplicate items: element at index ${index} equals index ${seen.get(element)}` });
            } else {
              seen.set(element, index);
            }
          });
        }
        {
          const matchCount = raw["tags"].filter((element) => typeof element === 'string' && element === "x").length;
          if (matchCount < 1) {
            violations.push({ path: "tags", reason: `no element matches the required schema: at least 1, got ${matchCount}` });
          }
          if (matchCount > 2) {
            violations.push({ path: "tags", reason: `too many matching items: at most 2, got ${matchCount}` });
          }
        }
      }
    }
  
    let status: "a" | "b" | undefined = undefined as unknown as "a" | "b" | undefined;
    if (Object.prototype.hasOwnProperty.call(raw, "status") && raw["status"] === null) {
      violations.push({ path: "status", reason: 'explicit null not allowed' });
    } else if (Object.prototype.hasOwnProperty.call(raw, "status")) {
      if (typeof raw["status"] !== 'string') {
        violations.push({ path: "status", reason: 'expected string' });
      } else if (raw["status"] !== "a" && raw["status"] !== "b") {
        violations.push({ path: "status", reason: `must be one of ["a", "b"], got ${JSON.stringify(raw["status"])}` });
      } else {
        status = raw["status"] as "a" | "b";
      }
    }
  
    let kind: "order" = undefined as unknown as "order";
    if (!Object.prototype.hasOwnProperty.call(raw, "kind") || raw["kind"] === null) {
      violations.push({ path: "kind", reason: 'required' });
    } else {
      if (typeof raw["kind"] !== 'string') {
        violations.push({ path: "kind", reason: 'expected string' });
      } else if (raw["kind"] !== KIND_CONST) {
        violations.push({ path: "kind", reason: `must equal "order", got ${JSON.stringify(raw["kind"])}` });
      } else {
        kind = raw["kind"] as "order";
      }
    }
  
    let note: string | undefined = undefined as unknown as string | undefined;
    if (Object.prototype.hasOwnProperty.call(raw, "note") && raw["note"] === null) {
      violations.push({ path: "note", reason: 'explicit null not allowed' });
    } else if (Object.prototype.hasOwnProperty.call(raw, "note")) {
      if (typeof raw["note"] !== 'string') {
        violations.push({ path: "note", reason: 'expected string' });
      } else {
        note = raw["note"];
      }
    }
  
    let parent: Order | undefined = undefined as unknown as Order | undefined;
    if (Object.prototype.hasOwnProperty.call(raw, "parent") && raw["parent"] === null) {
      violations.push({ path: "parent", reason: 'explicit null not allowed' });
    } else if (Object.prototype.hasOwnProperty.call(raw, "parent")) {
      try {
        parent = orderTransferTypeConverter.fromTransferType(raw["parent"]);
      } catch (error) {
        __nexgenDefinitions.collect(violations, "parent", error);
      }
    }
  
    let maybe: string | null | undefined = undefined as unknown as string | null | undefined;
    if (Object.prototype.hasOwnProperty.call(raw, "maybe")) {
      if (raw["maybe"] === null) {
        maybe = null;
      } else {
        if (typeof raw["maybe"] !== 'string') {
          violations.push({ path: "maybe", reason: 'expected string' });
        } else {
          maybe = raw["maybe"];
        }
      }
    }
  
    let shape: Circle | Square | undefined = undefined as unknown as Circle | Square | undefined;
    if (Object.prototype.hasOwnProperty.call(raw, "shape") && raw["shape"] === null) {
      violations.push({ path: "shape", reason: 'explicit null not allowed' });
    } else if (Object.prototype.hasOwnProperty.call(raw, "shape")) {
      if (__nexgenDefinitions.isPlainObject(raw["shape"])) {
        switch ((raw["shape"] as Record<string, unknown>)["type"]) {
          case "circle":
            try {
              shape = circleTransferTypeConverter.fromTransferType(raw["shape"]);
            } catch (error) {
              __nexgenDefinitions.collect(violations, "shape", error);
            }
            break;
          case "square":
            try {
              shape = squareTransferTypeConverter.fromTransferType(raw["shape"]);
            } catch (error) {
              __nexgenDefinitions.collect(violations, "shape", error);
            }
            break;
          default:
            violations.push({ path: "shape", reason: `unknown discriminator type ${String((raw["shape"] as Record<string, unknown>)["type"])}: expected one of ["circle", "square"]` });
        }
      } else {
        violations.push({ path: "shape", reason: 'expected one of: Circle, Square' });
      }
    }
  
    let labels: Record<string, number> | undefined = undefined as unknown as Record<string, number> | undefined;
    if (Object.prototype.hasOwnProperty.call(raw, "labels") && raw["labels"] === null) {
      violations.push({ path: "labels", reason: 'explicit null not allowed' });
    } else if (Object.prototype.hasOwnProperty.call(raw, "labels")) {
      if (!__nexgenDefinitions.isPlainObject(raw["labels"])) {
        violations.push({ path: "labels", reason: 'expected object' });
      } else {
        const __members: Record<string, number> = Object.create(null) as Record<string, number>;
        for (const [__key, __raw] of Object.entries(raw["labels"] as Record<string, unknown>)) {
          let __entry: number = undefined as unknown as number;
          if (typeof __raw !== 'number' || !Number.isSafeInteger(__raw)) {
            violations.push({ path: `labels[${JSON.stringify(__key)}]`, reason: 'expected integer' });
          } else {
            __entry = __raw;
          }
          if (__entry !== undefined) {
            __members[__key] = __entry;
          }
        }
        labels = __members;
      }
    }
  
    for (const key of Object.keys(raw)) {
      if (key !== "id" && key !== "count" && key !== "price" && key !== "when_made" && key !== "mail" && key !== "raw" && key !== "tags" && key !== "status" && key !== "kind" && key !== "note" && key !== "parent" && key !== "maybe" && key !== "shape" && key !== "labels") {
        violations.push({ path: __nexgenDefinitions.memberPath(key), reason: 'unknown field' });
      }
    }
  
    if (Object.prototype.hasOwnProperty.call(raw, "price")) {
      if (!Object.prototype.hasOwnProperty.call(raw, "count")) {
        violations.push({ path: "count", reason: `property "count" is required when "price" is present` });
      }
    }
    if (violations.length) {
      throw createPayloadValidationError(violations);
    }
    const out: Order = { id, count, kind };
    if (price !== undefined) {
      out.price = price;
    }
    if (whenMade !== undefined) {
      out.whenMade = whenMade;
    }
    if (mail !== undefined) {
      out.mail = mail;
    }
    if (raw !== undefined) {
      out.raw = raw;
    }
    if (tags !== undefined) {
      out.tags = tags;
    }
    if (status !== undefined) {
      out.status = status;
    }
    if (note !== undefined) {
      out.note = note;
    }
    if (parent !== undefined) {
      out.parent = parent;
    }
    if (maybe !== undefined) {
      out.maybe = maybe;
    }
    if (shape !== undefined) {
      out.shape = shape;
    }
    if (labels !== undefined) {
      out.labels = labels;
    }
    return out;
  }

"##
    ));
}

#[test]
fn every_kind_of_member_is_serialized() {
    assert!(order().contains(
        r##"  public toTransferType(value: Order): unknown {
    const candidate: unknown = value;
    if (!__nexgenDefinitions.isPlainObject(candidate)) {
      throw createPayloadValidationError([{ path: '', reason: 'expected object' }]);
    }
    const violations: __nexgenDefinitions.Violation[] = [];
    const out: Record<string, unknown> = Object.create(null) as Record<string, unknown>;
    if (value.id === undefined || value.id === null) {
      violations.push({ path: "id", reason: 'required' });
    } else {
      if (!(typeof value.id === 'string')) {
        violations.push({ path: "id", reason: 'expected string' });
      } else {
        {
          const codePoints = __nexgenDefinitions.codePointLength(value.id, 1);
          if (codePoints < 1) {
            violations.push({ path: "id", reason: `must have length >= 1, got ${codePoints}` });
          }
        }
        if (__nexgenDefinitions.codePointLength(value.id, 10) > 10) {
          violations.push({ path: "id", reason: `must have length <= 10, got ${__nexgenDefinitions.codePointLength(value.id)}` });
        }
        if (!PATTERN_F101B436E75310CB.test(value.id)) {
          violations.push({ path: "id", reason: `must match pattern ^a/b\$, got ${JSON.stringify(value.id)}` });
        }
      }
      out["id"] = value.id;
    }
    if (value.count === undefined || value.count === null) {
      violations.push({ path: "count", reason: 'required' });
    } else {
      if (!(typeof value.count === 'number' && Number.isInteger(value.count))) {
        violations.push({ path: "count", reason: 'expected integer' });
      } else {
        if (!Number.isSafeInteger(value.count)) {
          violations.push({ path: "count", reason: `exceeds ±(2^53-1) integer cap, got ${value.count}` });
        } else {
        if (value.count < 0) {
          violations.push({ path: "count", reason: `must be >= 0, got ${value.count}` });
        }
        if (value.count > 10) {
          violations.push({ path: "count", reason: `must be <= 10, got ${value.count}` });
        }
        }
      }
      out["count"] = value.count;
    }
    if (value.price !== undefined) {
      if (value.price === null) {
        violations.push({ path: "price", reason: 'explicit null not allowed' });
      } else {
        if (!(typeof value.price === 'number')) {
          violations.push({ path: "price", reason: 'expected number' });
        } else {
          if (!Number.isFinite(value.price)) {
            violations.push({ path: "price", reason: `must be a finite number, got ${value.price}` });
          } else {
          if (value.price <= 0) {
            violations.push({ path: "price", reason: `must be > 0, got ${value.price}` });
          }
          }
        }
        out["price"] = value.price;
      }
    }
    if (value.whenMade !== undefined) {
      if (value.whenMade === null) {
        violations.push({ path: "when_made", reason: 'explicit null not allowed' });
      } else {
        const whenMadeViolationCount = violations.length;
        if (!(value.whenMade instanceof Date)) {
          violations.push({ path: "when_made", reason: 'expected date-time' });
        } else {
          __nexgenDefinitions.validateTemporalDateTime(value.whenMade, "when_made", violations);
        }
        if (violations.length === whenMadeViolationCount) {
          out["when_made"] = Number.isFinite(value.whenMade.getTime()) ? __nexgenDefinitions.serializeTemporalDateTime(value.whenMade) : undefined;
        }
      }
    }
    if (value.mail !== undefined) {
      if (value.mail === null) {
        violations.push({ path: "mail", reason: 'explicit null not allowed' });
      } else {
        if (!(typeof value.mail === 'string')) {
          violations.push({ path: "mail", reason: 'expected string' });
        } else {
          if (__nexgenDefinitions.codePointLength(value.mail, 254) > 254 || !PATTERN_F8B1A940EF4EAA75.test(value.mail)) {
            violations.push({ path: "mail", reason: `must be a valid email, got ${JSON.stringify(value.mail)}` });
          }
        }
        out["mail"] = value.mail;
      }
    }
    if (value.raw !== undefined) {
      if (value.raw === null) {
        violations.push({ path: "raw", reason: 'explicit null not allowed' });
      } else {
        const rawViolationCount = violations.length;
        if (!(value.raw instanceof Uint8Array)) {
          violations.push({ path: "raw", reason: 'expected bytes' });
        }
        if (violations.length === rawViolationCount) {
          out["raw"] = __nexgenDefinitions.bytesToBase64(value.raw);
        }
      }
    }
    if (value.tags !== undefined) {
      if (value.tags === null) {
        violations.push({ path: "tags", reason: 'explicit null not allowed' });
      } else {
        if (!(Array.isArray(value.tags))) {
          violations.push({ path: "tags", reason: 'expected array' });
        } else {
          value.tags.forEach((element, index) => {
            if (!(typeof element === 'string')) {
              violations.push({ path: `tags[${index}]`, reason: 'expected string' });
            } else {
              if (__nexgenDefinitions.codePointLength(element, 3) > 3) {
                violations.push({ path: `tags[${index}]`, reason: `must have length <= 3, got ${__nexgenDefinitions.codePointLength(element)}` });
              }
            }
          });
          if (value.tags.length < 1) {
            violations.push({ path: "tags", reason: `must have at least 1 items, got ${value.tags.length}` });
          }
          {
            const seen = new Map<unknown, number>();
            value.tags.forEach((element, index) => {
              if (seen.has(element)) {
                violations.push({ path: "tags", reason: `duplicate items: element at index ${index} equals index ${seen.get(element)}` });
              } else {
                seen.set(element, index);
              }
            });
          }
          {
            const matchCount = value.tags.filter((element) => typeof element === 'string' && element === "x").length;
            if (matchCount < 1) {
              violations.push({ path: "tags", reason: `no element matches the required schema: at least 1, got ${matchCount}` });
            }
            if (matchCount > 2) {
              violations.push({ path: "tags", reason: `too many matching items: at most 2, got ${matchCount}` });
            }
          }
        }
        out["tags"] = value.tags;
      }
    }
    if (value.status !== undefined) {
      if (value.status === null) {
        violations.push({ path: "status", reason: 'explicit null not allowed' });
      } else {
        if (value.status !== "a" && value.status !== "b") {
          violations.push({ path: "status", reason: `must be one of ["a", "b"], got ${JSON.stringify(value.status)}` });
        }
        out["status"] = value.status;
      }
    }
    if (value.kind === undefined || value.kind === null) {
      violations.push({ path: "kind", reason: 'required' });
    } else {
      if (value.kind !== "order") {
        violations.push({ path: "kind", reason: `must equal "order", got ${JSON.stringify(value.kind)}` });
      }
      out["kind"] = value.kind;
    }
    if (value.note !== undefined) {
      if (value.note === null) {
        violations.push({ path: "note", reason: 'explicit null not allowed' });
      } else {
        if (!(typeof value.note === 'string')) {
          violations.push({ path: "note", reason: 'expected string' });
        }
        out["note"] = value.note;
      }
    }
    if (value.parent !== undefined) {
      if (value.parent === null) {
        violations.push({ path: "parent", reason: 'explicit null not allowed' });
      } else {
        const parentViolationCount = violations.length;
        if (violations.length === parentViolationCount) {
          out["parent"] = (() => { try { return orderTransferTypeConverter.toTransferType(value.parent); } catch (error) { __nexgenDefinitions.collect(violations, "parent", error); return undefined; } })();
        }
      }
    }
    if (value.maybe !== undefined) {
      if (value.maybe !== null) {
        if (!(typeof value.maybe === 'string')) {
          violations.push({ path: "maybe", reason: 'expected string' });
        }
      }
      out["maybe"] = value.maybe;
    }
    if (value.shape !== undefined) {
      if (value.shape === null) {
        violations.push({ path: "shape", reason: 'explicit null not allowed' });
      } else {
        const shapeViolationCount = violations.length;
        if (violations.length === shapeViolationCount) {
          out["shape"] = (() => { try { return serializeOrderShape(value.shape); } catch (error) { __nexgenDefinitions.collect(violations, "shape", error); return undefined; } })();
        }
      }
    }
    if (value.labels !== undefined) {
      if (value.labels === null) {
        violations.push({ path: "labels", reason: 'explicit null not allowed' });
      } else {
        if (!(__nexgenDefinitions.isPlainObject(value.labels))) {
          violations.push({ path: "labels", reason: 'expected object' });
        } else {
          for (const [__key, __entry] of Object.entries(value.labels)) {
            if (!(typeof __entry === 'number' && Number.isInteger(__entry))) {
              violations.push({ path: `labels[${JSON.stringify(__key)}]`, reason: 'expected integer' });
            } else {
              if (!Number.isSafeInteger(__entry)) {
                violations.push({ path: `labels[${JSON.stringify(__key)}]`, reason: `exceeds ±(2^53-1) integer cap, got ${__entry}` });
              }
            }
          }
        }
        out["labels"] = value.labels;
      }
    }
    if (Object.prototype.hasOwnProperty.call(out, "price")) {
      if (!Object.prototype.hasOwnProperty.call(out, "count")) {
        violations.push({ path: "count", reason: `property "count" is required when "price" is present` });
      }
    }
    if (violations.length) {
      throw createPayloadValidationError(violations);
    }
    return out;
  }
}();
"##
    ));
}

fn schema(text: &str) -> Schema {
    schema_of(&serde_json::from_str(text).unwrap())
}

#[test]
fn object_members_are_reached_by_their_literals() {
    assert_eq!(ts_index_access("raw", "a\"b"), r#"raw["a\"b"]"#);
    assert_eq!(
        ts_has_own("raw", "id"),
        r#"Object.prototype.hasOwnProperty.call(raw, "id")"#
    );
    assert_eq!(typescript_object_key("$a_1"), "$a_1");
    assert_eq!(typescript_object_key("1a"), "\"1a\"");
    assert_eq!(typescript_object_key("a-b"), "\"a-b\"");
    assert_eq!(typescript_object_key(""), "\"\"");
    assert!(ts_member_conflicts_with_object_prototype("__proto__"));
    assert!(ts_member_conflicts_with_object_prototype("toString"));
    assert!(!ts_member_conflicts_with_object_prototype("tostring"));
}

#[test]
fn values_are_written_as_literals() {
    let value: Value =
        serde_json::from_str(r#"{"a": [1, 2.5, null, true, "x\n"], "b-c": {}}"#).unwrap();
    assert_eq!(
        typescript_value_literal(&json(&value)),
        r#"{ a: [1, 2.5, null, true, "x\n"], "b-c": {  } }"#
    );
    let bound = number(&serde_json::from_str("7.9").unwrap());
    assert_eq!(ts_bound_literal(&bound, true), "7");
    assert_eq!(ts_bound_literal(&bound, false), "7.9");
}

#[test]
fn regular_expression_literal_is_not_cut() {
    assert_eq!(ts_regex_literal("^a/b\\/c$"), Some("/^a\\/b\\/c$/u".to_string()));
    assert_eq!(ts_regex_literal("\\\\/"), Some("/\\\\\\//u".to_string()));
    assert_eq!(ts_regex_literal(""), None);
    assert_eq!(ts_regex_literal("a\nb"), None);
    assert_eq!(ts_regex_literal("a\u{2028}b"), None);
    assert_eq!(ts_regex_literal("a\\"), None);
    assert_eq!(ts_template_escape("`${x}\\`"), "\\`\\${x}\\\\\\`");
}

#[test]
fn pattern_constants_are_named_by_a_hash_of_the_bytes() {
    assert_eq!(ts_pattern_const_name(""), "PATTERN_CBF29CE484222325");
    assert_eq!(ts_pattern_const_name("^a+$"), "PATTERN_41F86C4E65B61C2F");
    assert_eq!(ts_pattern_const_name("^é$"), "PATTERN_911FAE50450E313B");
}

#[test]
fn patterns_reach_every_place() {
    let ctx = context(TsDateTimeTypes::String);
    let nested = schema(
        r#"{"pattern":"own","format":"email",
            "properties":{"a":{"pattern":"member"}},
            "items":{"pattern":"item"},
            "contains":{"pattern":"matcher"},
            "oneOf":[{"pattern":"branch"}],
            "propertyNames":{"pattern":"name"},
            "additionalProperties":{"pattern":"other"}}"#,
    );
    let patterns = collect_schema_patterns(&ctx, &nested);
    for wanted in ["own", "^[^@]+@[^@]+$", "member", "item", "matcher", "branch", "name", "other"] {
        assert!(patterns.iter().any(|pattern| pattern == wanted), "{wanted}");
    }
}

#[test]
fn pattern_constants_are_declared_once() {
    let ctx = context(TsDateTimeTypes::String);
    let twice = vec![
        model("A", r#"{"type":"string","pattern":"^a+$"}"#),
        model("B", r#"{"type":"array","items":{"type":"string","pattern":"^a+$"}}"#),
    ];
    let declared = render_pattern_regexes(&ctx, &twice).unwrap();
    assert_eq!(declared.matches("PATTERN_41F86C4E65B61C2F").count(), 1);
    assert!(declared.contains("/^a+$/u"));
}

#[test]
fn unions_hold_each_type_once() {
    let values: Vec<String> =
        ["string", "number", "string"].iter().map(|value| value.to_string()).collect();
    assert_eq!(join_union(&values), "string | number");
    assert_eq!(
        split_top_level_union("Record<string, A | B> | (C | D)[] | E"),
        vec!["Record<string, A | B>", "(C | D)[]", "E"]
    );
    assert_eq!(element_annotation("A | B"), "(A | B)");
    assert_eq!(element_annotation("Array<A | B>"), "Array<A | B>");
    assert_eq!(optional_type_annotation("A"), "A | undefined");
    assert_eq!(optional_type_annotation("A | undefined"), "A | undefined");
}

#[test]
fn types_are_annotated() {
    let ctx = context(TsDateTimeTypes::Temporal);
    let annotated = |text: &str| type_annotation(&ctx, &schema(text)).unwrap();
    assert_eq!(annotated(r#"{"type":"string"}"#), "string");
    assert_eq!(annotated(r#"{"type":"integer"}"#), "number");
    assert_eq!(annotated(r#"{"type":"boolean"}"#), "boolean");
    assert_eq!(annotated(r#"{"enum":["a","b","a"]}"#), r#""a" | "b""#);
    assert_eq!(annotated(r#"{"type":"string","format":"date-time"}"#), "Temporal.ZonedDateTime");
    assert_eq!(annotated(r#"{"type":"string","format":"time"}"#), "string");
    assert_eq!(annotated(r#"{"type":"string","contentEncoding":"base64"}"#), "Uint8Array");
    assert_eq!(
        annotated(r#"{"oneOf":[{"type":"string"},{"type":"null"}]}"#),
        "string | null"
    );
}

#[test]
fn temporal_values_are_held_as_they_are_asked_for() {
    let kinds = [
        TemporalKind::DateTime,
        TemporalKind::Date,
        TemporalKind::Time,
        TemporalKind::Duration,
    ];
    let held = |repr: TsDateTimeTypes| -> Vec<String> {
        kinds.iter().map(|kind| ts_temporal_type(*kind, repr)).collect()
    };
    assert_eq!(held(TsDateTimeTypes::String), vec!["string", "string", "string", "string"]);
    assert_eq!(held(TsDateTimeTypes::Date), vec!["Date", "string", "string", "string"]);
    assert_eq!(
        held(TsDateTimeTypes::Temporal),
        vec!["Temporal.ZonedDateTime", "Temporal.PlainDate", "string", "Temporal.Duration"]
    );
    // What is held as a string is written as it is.
    for kind in kinds {
        for repr in [TsDateTimeTypes::String, TsDateTimeTypes::Date, TsDateTimeTypes::Temporal] {
            let written = ts_temporal_serialize_call(kind, repr, "value.at");
            let as_it_is = ts_temporal_type(kind, repr) == "string";
            assert_eq!(written == "value.at", as_it_is);
            assert_eq!(temporal_serializes_non_identity(kind, Some(repr)), !as_it_is);
        }
    }
    // No representation stands for any of them.
    assert!(temporal_serializes_non_identity(TemporalKind::Date, None));
    assert!(!temporal_serializes_non_identity(TemporalKind::Time, None));
    assert_eq!(
        ts_temporal_serialize_call(TemporalKind::DateTime, TsDateTimeTypes::Date, "v"),
        "Number.isFinite(v.getTime()) ? __nexgenDefinitions.serializeTemporalDateTime(v) : undefined"
    );
}

#[test]
fn discriminant_is_the_least_that_tells_the_branches_apart() {
    let ctx = context(TsDateTimeTypes::String);
    let union = schema(
        r#"{"oneOf":[
            {"type":"object","required":["z","kind","a"],
             "properties":{"z":{"const":1},"kind":{"const":"x"},"a":{"const":"same"}}},
            {"type":"object","required":["z","kind","a"],
             "properties":{"z":{"const":2},"kind":{"enum":["y"]},"a":{"const":"same"}}}]}"#,
    );
    let none: Vec<JsonModel> = Vec::new();
    let found = classify_ts_union(&ctx, &union, &none).unwrap();
    assert_eq!(found.discriminant, Some("kind".to_string()));
    assert!(!found.nullable);
    assert_eq!(found.variants.len(), 2);
}

#[test]
fn union_with_null_is_nullable_elsewhere() {
    let nullable = schema(r#"{"oneOf":[{"type":"string"},{"type":"null"}]}"#);
    assert!(allows_null(&nullable));
    assert!(nullable_non_null_schema(&nullable).is_some());
    assert!(!is_ts_union(&nullable));
    let union = schema(r#"{"oneOf":[{"type":"string"},{"type":"number"}]}"#);
    assert!(is_ts_union(&union));
    assert!(!allows_null(&union));
}

#[test]
fn arrays_are_indexed_by_their_paths() {
    assert_eq!(ts_indexed_path("\"items\"", "index"), "`items[${index}]`");
    assert_eq!(ts_indexed_path("`items[${index}]`", "index1"), "`items[${index}][${index1}]`");
    assert_eq!(ts_indexed_path("path", "index"), "`${path}[${index}]`");
    assert_eq!(ts_depth_suffix(0), "");
    assert_eq!(ts_depth_suffix(3), "3");
}

#[test]
fn runtime_module_holds_what_the_models_need() {
    let patterns = RuntimePatterns {
        date_time: "DATETIME".to_string(),
        date: "DATE".to_string(),
        time: "TIME".to_string(),
        duration: "DURATION".to_string(),
        base64: "B64".to_string(),
        base64_url: "B64URL".to_string(),
    };
    let none = RuntimeUses { temporal: false, content_encoding: false, code_point_length: false };
    let small = render_json_runtime_module("// h", &patterns, TsDateTimeTypes::String, none);
    let start = "// h\n\nimport { ApplicationFailure } from \"@temporalio/common\";\n\n";
    assert!(small.starts_with(start));
    assert!(small.contains("export interface Violation"));
    assert!(small.contains("isPlainObject"));
    assert!(!small.contains("TEMPORAL_DATE_RE"));
    assert!(!small.contains("BASE64_ALPHABET"));
    let all = RuntimeUses { temporal: true, content_encoding: true, code_point_length: true };
    let large = render_json_runtime_module("// h", &patterns, TsDateTimeTypes::Temporal, all);
    assert!(large.starts_with(small.as_str()));
    assert!(large.contains("const TEMPORAL_DATE_TIME_RE = /DATETIME/u;\n"));
    assert!(large.contains("const TEMPORAL_DURATION_RE = /DURATION/u;\n"));
    assert!(large.contains("Temporal.ZonedDateTime"));
    assert!(large.contains("/B64URL/u"));
    let dates = RuntimeUses { temporal: true, content_encoding: false, code_point_length: false };
    let native = render_json_runtime_module("// h", &patterns, TsDateTimeTypes::Date, dates);
    assert!(native.contains("parseTemporalDateTime"));
    assert!(!native.contains("Temporal.ZonedDateTime"));
}

#[test]
fn same_checks_stand_on_both_sides_of_the_wire() {
    let ctx = context(TsDateTimeTypes::String);
    let count = schema(r#"{"type":"integer","minimum":1,"maximum":9}"#);
    let parser = render_value_parser(&ctx, &count, "raw", "out", "\"n\"", "");
    let written = render_ts_serialize_property_check(&ctx, "n", &count, "");
    assert!(parser.contains("if (raw < 1) {"));
    assert!(parser.contains("if (raw > 9) {"));
    assert!(written.contains("if (value.n < 1) {"));
    assert!(written.contains("if (value.n > 9) {"));
}

#[test]
fn temporal_strings_are_kept_as_they_are_on_the_wire() {
    let patterns = RuntimePatterns {
        date_time: "DATETIME".to_string(),
        date: "DATE".to_string(),
        time: "TIME".to_string(),
        duration: "DURATION".to_string(),
        base64: "B64".to_string(),
        base64_url: "B64URL".to_string(),
    };
    let helpers = render_ts_temporal_helpers(&patterns, TsDateTimeTypes::String);
    assert!(helpers.contains(
        r#"export function parseTemporalDateTime(value: string, path: string, violations: Violation[]): string | undefined {
  if (!TEMPORAL_DATE_TIME_RE.test(value) || !validTemporalCalendar(value)) {
    violations.push({ path, reason: `must be a valid date-time, got ${JSON.stringify(value)}` });
    return undefined;
  }
  return value;
}

export function parseTemporalDate(value: string, path: string, violations: Violation[]): string | undefined {
  if (!TEMPORAL_DATE_RE.test(value) || !validTemporalCalendar(value)) {
    violations.push({ path, reason: `must be a valid date, got ${JSON.stringify(value)}` });
    return undefined;
  }
  return value;
}

export function parseTemporalTime(value: string, path: string, violations: Violation[]): string | undefined {
  if (!TEMPORAL_TIME_RE.test(value)) {
    violations.push({ path, reason: `must be a valid time, got ${JSON.stringify(value)}` });
    return undefined;
  }
  return value;
}

export function parseTemporalDuration(value: string, path: string, violations: Violation[]): string | undefined {
  if (!TEMPORAL_DURATION_RE.test(value)) {
    violations.push({ path, reason: `must be a valid duration, got ${JSON.stringify(value)}` });
    return undefined;
  }
  const seconds = temporalDurationSeconds(value);
  if (seconds === undefined) {
    violations.push({ path, reason: `must be a valid duration, got ${JSON.stringify(value)}` });
    return undefined;
  }
  return value;
}

export function validateTemporalDateTime("#
    ));
    let native = render_ts_temporal_helpers(&patterns, TsDateTimeTypes::Date);
    assert!(native.contains("  return new Date(value.toUpperCase());\n}\n\n"));
    assert!(native.contains("  return canonicalizeTemporalTime(value);\n}\n\n"));
    assert!(native.contains("  return formatTemporalDuration(seconds);\n}\n\n"));
    let typed = render_ts_temporal_helpers(&patterns, TsDateTimeTypes::Temporal);
    assert!(typed.contains("    return Temporal.PlainDate.from(value);\n"));
    assert!(typed.contains("  return Temporal.Duration.from({ seconds });\n}\n\n"));
}

#[test]
fn temporal_text_goes_through_unchanged() {
    let ctx = context(TsDateTimeTypes::String);
    let when = schema(r#"{"type":"string","format":"duration"}"#);
    let parser = render_value_parser(&ctx, &when, "raw", "out", "\"d\"", "");
    assert!(parser.contains(
        r#"  const parsed = __nexgenDefinitions.parseTemporalDuration(raw, "d", violations);
  if (parsed !== undefined) {
    out = parsed;
"#
    ));
    assert_eq!(serialize_expr(&ctx, &when, "value.d"), "value.d");
}
