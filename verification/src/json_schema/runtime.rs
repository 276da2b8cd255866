//! The runtime module that generated TypeScript models import.

use vstd::prelude::*;

use crate::json_schema::schema::TemporalKind;
use crate::json_schema::ts_text::{ts_temporal_parser_name, ts_temporal_type};
use crate::output::TsDateTimeTypes;

verus! {

/// The patterns that temporal strings and encoded bytes match.
#[derive(Debug, Clone)]
pub struct RuntimePatterns {
    pub date_time: String,
    pub date: String,
    pub time: String,
    pub duration: String,
    pub base64: String,
    pub base64_url: String,
}

/// Which helpers the models of a module need.
#[derive(Debug, Clone, Copy, PartialEq, Eq, Structural)]
pub struct RuntimeUses {
    pub temporal: bool,
    pub content_encoding: bool,
    pub code_point_length: bool,
}

/// The codec for bytes in strings.
pub const TS_CONTENT_ENCODING_BODY: &'static str = r#"const BASE64_ALPHABET = 'ABCDEFGHIJKLMNOPQRSTUVWXYZabcdefghijklmnopqrstuvwxyz0123456789+/';
const BASE64URL_ALPHABET = 'ABCDEFGHIJKLMNOPQRSTUVWXYZabcdefghijklmnopqrstuvwxyz0123456789-_';

function buildDecodeTable(alphabet: string): Int16Array {
  const table = new Int16Array(128).fill(-1);
  for (let i = 0; i < alphabet.length; i++) {
    table[alphabet.charCodeAt(i)] = i;
  }
  return table;
}

const BASE64_DECODE = buildDecodeTable(BASE64_ALPHABET);
const BASE64URL_DECODE = buildDecodeTable(BASE64URL_ALPHABET);

// decodeCanonical assumes the input has already matched the canonical regex, so
// every non-padding character is a valid alphabet member. Padding (`=`) is
// stripped by the caller-supplied `stripped` length.
function decodeCanonical(value: string, table: Int16Array): Uint8Array {
  let stripped = value.length;
  while (stripped > 0 && value.charCodeAt(stripped - 1) === 0x3d /* '=' */) {
    stripped--;
  }
  const byteLength = Math.floor((stripped * 6) / 8);
  const out = new Uint8Array(byteLength);
  let accumulator = 0;
  let bits = 0;
  let outIndex = 0;
  for (let i = 0; i < stripped; i++) {
    accumulator = (accumulator << 6) | table[value.charCodeAt(i)];
    bits += 6;
    if (bits >= 8) {
      bits -= 8;
      out[outIndex++] = (accumulator >> bits) & 0xff;
    }
  }
  return out;
}

function encodeCanonical(bytes: Uint8Array, alphabet: string, pad: boolean): string {
  let out = '';
  let accumulator = 0;
  let bits = 0;
  for (let i = 0; i < bytes.length; i++) {
    accumulator = (accumulator << 8) | bytes[i];
    bits += 8;
    while (bits >= 6) {
      bits -= 6;
      out += alphabet[(accumulator >> bits) & 0x3f];
    }
  }
  if (bits > 0) {
    out += alphabet[(accumulator << (6 - bits)) & 0x3f];
  }
  if (pad) {
    while (out.length % 4 !== 0) {
      out += '=';
    }
  }
  return out;
}

export function base64ToBytes(value: string, path: string, violations: Violation[]): Uint8Array | undefined {
  if (!BASE64_RE.test(value)) {
    violations.push({ path, reason: `must be base64-encoded, got ${JSON.stringify(value)}` });
    return undefined;
  }
  return decodeCanonical(value, BASE64_DECODE);
}

export function bytesToBase64(bytes: Uint8Array): string {
  return encodeCanonical(bytes, BASE64_ALPHABET, true);
}

export function base64UrlToBytes(value: string, path: string, violations: Violation[]): Uint8Array | undefined {
  if (!BASE64URL_RE.test(value)) {
    violations.push({ path, reason: `must be base64url-encoded, got ${JSON.stringify(value)}` });
    return undefined;
  }
  return decodeCanonical(value, BASE64URL_DECODE);
}

export function bytesToBase64Url(bytes: Uint8Array): string {
  return encodeCanonical(bytes, BASE64URL_ALPHABET, false);
}
"#;

/// The truncation of fractions of a second to nanoseconds.
pub const TS_TEMPORAL_FRACTION_TRUNCATION: &'static str = r#"function truncateTemporalFraction(value: string): string {
  const dot = value.indexOf('.');
  if (dot < 0) {
    return value;
  }
  let end = dot + 1;
  while (end < value.length && value[end] >= '0' && value[end] <= '9') {
    end++;
  }
  return end - dot - 1 <= 9 ? value : value.slice(0, dot + 10) + value.slice(end);
}

"#;

/// The calendar, canonical forms and durations that temporal helpers share.
pub const TS_TEMPORAL_COMMON: &'static str = r#"const TEMPORAL_DATE_TIME_CAP = /^(\d{4}-\d{2}-\d{2})[Tt](\d{2}:\d{2}:\d{2})(\.\d+)?([Zz]|[+-]\d{2}:\d{2})$/u;
const TEMPORAL_TIME_CAP = /^(\d{2}:\d{2}:\d{2})(\.\d+)?([Zz]|[+-]\d{2}:\d{2})?$/u;

function daysInTemporalMonth(year: number, month: number): number {
  switch (month) {
    case 1: case 3: case 5: case 7: case 8: case 10: case 12:
      return 31;
    case 4: case 6: case 9: case 11:
      return 30;
    case 2:
      return (year % 4 === 0 && year % 100 !== 0) || year % 400 === 0 ? 29 : 28;
    default:
      return 0;
  }
}

function validTemporalCalendar(value: string): boolean {
  if (value.length < 10) {
    return false;
  }
  const year = Number(value.slice(0, 4));
  const month = Number(value.slice(5, 7));
  const day = Number(value.slice(8, 10));
  if (year < 1) {
    return false;
  }
  const max = daysInTemporalMonth(year, month);
  return max > 0 && day >= 1 && day <= max;
}

function trimTemporalFraction(fraction: string | undefined): string {
  if (!fraction) {
    return '';
  }
  const trimmed = fraction.replace(/0+$/u, '');
  return trimmed === '.' ? '' : trimmed;
}

function normalizeTemporalOffset(offset: string): string {
  if (offset.toUpperCase() === 'Z' || offset === '+00:00' || offset === '-00:00') {
    return 'Z';
  }
  return offset;
}

function canonicalizeTemporalDateTime(value: string): string {
  const m = TEMPORAL_DATE_TIME_CAP.exec(value)!;
  return `${m[1]}T${m[2]}${trimTemporalFraction(m[3])}${normalizeTemporalOffset(m[4])}`;
}

function canonicalizeTemporalTime(value: string): string {
  const m = TEMPORAL_TIME_CAP.exec(value)!;
  return `${m[1]}${trimTemporalFraction(m[2])}${m[3] ? normalizeTemporalOffset(m[3]) : ''}`;
}

function temporalDurationSeconds(value: string): number | undefined {
  let total = 0;
  let digits = '';
  for (const ch of value.slice(2)) {
    if (ch >= '0' && ch <= '9') {
      digits += ch;
      continue;
    }
    const unit = ch === 'H' ? 3600 : ch === 'M' ? 60 : 1;
    total += Number(digits) * unit;
    digits = '';
    if (total > 9223372036) {
      return undefined;
    }
  }
  return total;
}

function formatTemporalDuration(total: number): string {
  if (total === 0) {
    return 'PT0S';
  }
  const hours = Math.floor(total / 3600);
  const minutes = Math.floor((total % 3600) / 60);
  const seconds = total % 60;
  let out = 'PT';
  if (hours) {
    out += `${hours}H`;
  }
  if (minutes) {
    out += `${minutes}M`;
  }
  if (seconds) {
    out += `${seconds}S`;
  }
  return out;
}

"#;

/// The type of violations, and the test for objects.
pub const TS_VALIDATOR_CORE: &'static str = r#"/** A single constraint failure, located by JSON path. */
export interface Violation {
  readonly path: string;
  readonly reason: string;
}

export function isPlainObject(value: unknown): value is Record<string, unknown> {
  return typeof value === 'object' && value !== null && !Array.isArray(value);
}
"#;

/// The paths of members, and the collection of the violations that a converter throws.
pub const TS_COLLECT_HELPER: &'static str = r#"export function memberPath(key: string): string {
  return /^[A-Za-z_][A-Za-z0-9_]*$/u.test(key) ? key : `["${key.replaceAll('\\', '\\\\').replaceAll('"', '\\"')}"]`;
}

export function collect(violations: Violation[], path: string, error: unknown): void {
  if (error instanceof ApplicationFailure && error.type === 'PayloadValidationError' && Array.isArray(error.details?.[0])) {
    // Generated failures keep the original array as their first detail; this cast performs no serialization.
    const nestedViolations = error.details?.[0] as Violation[];
    for (const inner of nestedViolations) {
      const nested = !inner.path ? path : inner.path.startsWith('[') ? `${path}${inner.path}` : `${path}.${inner.path}`;
      violations.push({ path: nested, reason: inner.reason });
    }
  } else {
    violations.push({ path, reason: String(error) });
  }
}
"#;

/// The length of a string in code points, up to a limit.
pub const TS_CODE_POINT_LENGTH: &'static str = r#"export function codePointLength(value: string, limit = Number.POSITIVE_INFINITY): number {
  let count = 0;
  for (let index = 0; index < value.length; index += 1) {
    const unit = value.charCodeAt(index);
    if (unit >= 0xd800 && unit <= 0xdbff && index + 1 < value.length) {
      const low = value.charCodeAt(index + 1);
      if (low >= 0xdc00 && low <= 0xdfff) {
        index += 1;
      }
    }
    count += 1;
    if (count > limit) {
      return count;
    }
  }
  return count;
}
"#;

/// The type of violations, and the test for objects.
pub open spec fn validator_core() -> Seq<char> {
    TS_VALIDATOR_CORE@
}

/// The type of violations, and the test for objects.
pub fn render_validator_core() -> (result: String)
    ensures
        result@ == validator_core(),
{
    TS_VALIDATOR_CORE.to_owned()
}

/// The paths of members, and the collection of the violations that a converter throws.
pub open spec fn collect_helper() -> Seq<char> {
    TS_COLLECT_HELPER@
}

/// The paths of members, and the collection of the violations that a converter throws.
pub fn render_collect_helper() -> (result: String)
    ensures
        result@ == collect_helper(),
{
    TS_COLLECT_HELPER.to_owned()
}

/// The length of a string in code points, up to a limit.
pub open spec fn code_point_length_helper() -> Seq<char> {
    TS_CODE_POINT_LENGTH@
}

/// The length of a string in code points, up to a limit.
pub fn render_code_point_length_helper() -> (result: String)
    ensures
        result@ == code_point_length_helper(),
{
    TS_CODE_POINT_LENGTH.to_owned()
}

/// The codec for bytes in strings, with the patterns that decide what is valid.
pub open spec fn content_encoding_helpers(patterns: RuntimePatterns) -> Seq<char> {
    let codec = TS_CONTENT_ENCODING_BODY@;
    (
        "const BASE64_RE = /"@ + patterns.base64@ + "/u;\nconst BASE64URL_RE = /"@
            + patterns.base64_url@ + "/u;\n"@ + codec
    )
}

/// The codec for bytes in strings, with the patterns that decide what is valid.
pub fn render_ts_content_encoding_helpers(patterns: &RuntimePatterns) -> (result: String)
    ensures
        result@ == content_encoding_helpers(*patterns),
{
    let codec = TS_CONTENT_ENCODING_BODY.to_owned();
    "const BASE64_RE = /".to_owned().concat(patterns.base64.as_str())
        .concat("/u;\nconst BASE64URL_RE = /").concat(patterns.base64_url.as_str()).concat("/u;\n")
        .concat(codec.as_str())
}

/// The refusal of a text under a condition: the violation, and no value.
pub open spec fn refusal_text(condition: Seq<char>, what: Seq<char>) -> Seq<char> {
    "  if ("@ + condition + ") {\n    violations.push({ path, reason: `must be a valid "@ + what
        + ", got ${JSON.stringify(value)}` });\n    return undefined;\n  }\n"@
}

/// The refusal of a text under a condition: the violation, and no value.
pub fn refusal(condition: &str, what: &str) -> (result: String)
    ensures
        result@ == refusal_text(condition@, what@),
{
    "  if (".to_owned().concat(condition)
        .concat(") {\n    violations.push({ path, reason: `must be a valid ").concat(what)
        .concat(", got ${JSON.stringify(value)}` });\n    return undefined;\n  }\n")
}

/// The refusals of the parser of a temporal value: a text that does not match, or that names no
/// day of the calendar or too long a duration.
pub open spec fn temporal_refusal_texts(kind: TemporalKind) -> Seq<char> {
    match kind {
        TemporalKind::DateTime => refusal_text(
            "!TEMPORAL_DATE_TIME_RE.test(value) || !validTemporalCalendar(value)"@,
            "date-time"@,
        ),
        TemporalKind::Date => refusal_text(
            "!TEMPORAL_DATE_RE.test(value) || !validTemporalCalendar(value)"@,
            "date"@,
        ),
        TemporalKind::Time => refusal_text("!TEMPORAL_TIME_RE.test(value)"@, "time"@),
        TemporalKind::Duration => refusal_text("!TEMPORAL_DURATION_RE.test(value)"@, "duration"@)
            + "  const seconds = temporalDurationSeconds(value);\n"@ + refusal_text(
            "seconds === undefined"@,
            "duration"@,
        ),
    }
}

/// The refusals of the parser of a temporal value: a text that does not match, or that names no
/// day of the calendar or too long a duration.
pub fn temporal_refusals(kind: TemporalKind) -> (result: String)
    ensures
        result@ == temporal_refusal_texts(kind),
{
    match kind {
        TemporalKind::DateTime => refusal(
            "!TEMPORAL_DATE_TIME_RE.test(value) || !validTemporalCalendar(value)",
            "date-time",
        ),
        TemporalKind::Date => refusal(
            "!TEMPORAL_DATE_RE.test(value) || !validTemporalCalendar(value)",
            "date",
        ),
        TemporalKind::Time => refusal("!TEMPORAL_TIME_RE.test(value)", "time"),
        TemporalKind::Duration => refusal("!TEMPORAL_DURATION_RE.test(value)", "duration")
            .concat("  const seconds = temporalDurationSeconds(value);\n")
            .concat(refusal("seconds === undefined", "duration").as_str()),
    }
}

/// What the parser of a temporal value returns for a text that it accepts: the text itself where
/// every temporal value is held as a string.
pub open spec fn temporal_result_text(kind: TemporalKind, repr: TsDateTimeTypes) -> Seq<char> {
    match (kind, repr) {
        (_, TsDateTimeTypes::String) => "  return value;\n"@,
        (TemporalKind::DateTime, TsDateTimeTypes::Date) => "  return new Date(value.toUpperCase());\n"@,
        (TemporalKind::DateTime, TsDateTimeTypes::Temporal) => "  const canon = truncateTemporalFraction(canonicalizeTemporalDateTime(value));\n  const zone = canon.endsWith('Z') ? 'UTC' : canon.slice(-6);\n  try {\n    return Temporal.ZonedDateTime.from(`${canon}[${zone}]`);\n  } catch {\n    violations.push({ path, reason: `must be a valid date-time, got ${JSON.stringify(value)}` });\n    return undefined;\n  }\n"@,
        (TemporalKind::Date, TsDateTimeTypes::Date) => "  return value;\n"@,
        (TemporalKind::Date, TsDateTimeTypes::Temporal) => "  try {\n    return Temporal.PlainDate.from(value);\n  } catch {\n    violations.push({ path, reason: `must be a valid date, got ${JSON.stringify(value)}` });\n    return undefined;\n  }\n"@,
        (TemporalKind::Time, _) => "  return canonicalizeTemporalTime(value);\n"@,
        (TemporalKind::Duration, TsDateTimeTypes::Date) => "  return formatTemporalDuration(seconds);\n"@,
        (TemporalKind::Duration, TsDateTimeTypes::Temporal) => "  return Temporal.Duration.from({ seconds });\n"@,
    }
}

/// What the parser of a temporal value returns for a text that it accepts: the text itself where
/// every temporal value is held as a string.
pub fn temporal_result(kind: TemporalKind, repr: TsDateTimeTypes) -> (result: String)
    ensures
        result@ == temporal_result_text(kind, repr),
{
    match (kind, repr) {
        (_, TsDateTimeTypes::String) => "  return value;\n".to_owned(),
        (TemporalKind::DateTime, TsDateTimeTypes::Date) => "  return new Date(value.toUpperCase());\n".to_owned(),
        (TemporalKind::DateTime, TsDateTimeTypes::Temporal) => "  const canon = truncateTemporalFraction(canonicalizeTemporalDateTime(value));\n  const zone = canon.endsWith('Z') ? 'UTC' : canon.slice(-6);\n  try {\n    return Temporal.ZonedDateTime.from(`${canon}[${zone}]`);\n  } catch {\n    violations.push({ path, reason: `must be a valid date-time, got ${JSON.stringify(value)}` });\n    return undefined;\n  }\n".to_owned(),
        (TemporalKind::Date, TsDateTimeTypes::Date) => "  return value;\n".to_owned(),
        (TemporalKind::Date, TsDateTimeTypes::Temporal) => "  try {\n    return Temporal.PlainDate.from(value);\n  } catch {\n    violations.push({ path, reason: `must be a valid date, got ${JSON.stringify(value)}` });\n    return undefined;\n  }\n".to_owned(),
        (TemporalKind::Time, _) => "  return canonicalizeTemporalTime(value);\n".to_owned(),
        (TemporalKind::Duration, TsDateTimeTypes::Date) => "  return formatTemporalDuration(seconds);\n".to_owned(),
        (TemporalKind::Duration, TsDateTimeTypes::Temporal) => "  return Temporal.Duration.from({ seconds });\n".to_owned(),
    }
}

/// The parser of a temporal value.
pub open spec fn temporal_parser_text(kind: TemporalKind, repr: TsDateTimeTypes) -> Seq<char> {
    "export function "@ + crate::json_schema::ts_text::temporal_parser_name(kind)
        + "(value: string, path: string, violations: Violation[]): "@
        + crate::json_schema::ts_text::temporal_type_text(kind, repr) + " | undefined {\n"@
        + temporal_refusal_texts(kind) + temporal_result_text(kind, repr) + "}\n"@
}

/// The parser of a temporal value.
pub fn temporal_parser(kind: TemporalKind, repr: TsDateTimeTypes) -> (result: String)
    ensures
        result@ == temporal_parser_text(kind, repr),
{
    "export function ".to_owned().concat(ts_temporal_parser_name(kind).as_str())
        .concat("(value: string, path: string, violations: Violation[]): ")
        .concat(ts_temporal_type(kind, repr).as_str()).concat(" | undefined {\n")
        .concat(temporal_refusals(kind).as_str()).concat(temporal_result(kind, repr).as_str())
        .concat("}\n")
}

/// The parser of a temporal value that is kept as it is written: it returns the text that it was
/// given, or refuses it.
pub open spec fn verbatim_parser_text(kind: TemporalKind) -> Seq<char> {
    "export function "@ + crate::json_schema::ts_text::temporal_parser_name(kind)
        + "(value: string, path: string, violations: Violation[]): "@ + "string"@
        + " | undefined {\n"@ + temporal_refusal_texts(kind) + "  return value;\n"@ + "}\n"@
}

/// The serializers of the temporal values that are not held as strings.
pub open spec fn temporal_serializer_texts(repr: TsDateTimeTypes) -> Seq<char> {
    match repr {
        TsDateTimeTypes::String => Seq::<char>::empty(),
        TsDateTimeTypes::Date => "\nexport function serializeTemporalDateTime(value: Date): string {\n  return value.toISOString();\n}\n"@,
        TsDateTimeTypes::Temporal => "\nexport function serializeTemporalDateTime(value: Temporal.ZonedDateTime): string {\n  const s = value.toString({ timeZoneName: 'never' });\n  return s.endsWith('+00:00') || s.endsWith('-00:00') ? s.slice(0, -6) + 'Z' : s;\n}\n\nexport function serializeTemporalDate(value: Temporal.PlainDate): string {\n  return value.toString();\n}\n\nexport function serializeTemporalDuration(value: Temporal.Duration): string {\n  return formatTemporalDuration(value.total({ unit: 'seconds' }));\n}\n"@,
    }
}

/// The serializers of the temporal values that are not held as strings.
pub fn temporal_serializers(repr: TsDateTimeTypes) -> (result: String)
    ensures
        result@ == temporal_serializer_texts(repr),
{
    match repr {
        TsDateTimeTypes::String => String::new(),
        TsDateTimeTypes::Date => "\nexport function serializeTemporalDateTime(value: Date): string {\n  return value.toISOString();\n}\n".to_owned(),
        TsDateTimeTypes::Temporal => "\nexport function serializeTemporalDateTime(value: Temporal.ZonedDateTime): string {\n  const s = value.toString({ timeZoneName: 'never' });\n  return s.endsWith('+00:00') || s.endsWith('-00:00') ? s.slice(0, -6) + 'Z' : s;\n}\n\nexport function serializeTemporalDate(value: Temporal.PlainDate): string {\n  return value.toString();\n}\n\nexport function serializeTemporalDuration(value: Temporal.Duration): string {\n  return formatTemporalDuration(value.total({ unit: 'seconds' }));\n}\n".to_owned(),
    }
}

/// The validation of a date with a time in memory.
pub open spec fn date_time_validator_text(repr: TsDateTimeTypes) -> Seq<char> {
    let dt_type = crate::json_schema::ts_text::temporal_type_text(TemporalKind::DateTime, repr);
    let finite = match repr {
        TsDateTimeTypes::Date => "  if (!Number.isFinite(value.getTime())) {\n    violations.push({ path, reason: `must be a valid date-time, got ${JSON.stringify(value)}` });\n    return;\n  }\n"@,
        _ => Seq::<char>::empty(),
    };
    let wire = match repr {
        TsDateTimeTypes::String => "value"@,
        _ => "serializeTemporalDateTime(value)"@,
    };
    (
        "\nexport function validateTemporalDateTime(value: "@ + dt_type
            + ", path: string, violations: Violation[]): void {\n"@ + finite + "  const wire = "@
            + wire
            + ";\n  if (!TEMPORAL_DATE_TIME_RE.test(wire) || !validTemporalCalendar(wire)) {\n    violations.push({ path, reason: `must be a valid date-time, got ${JSON.stringify(wire)}` });\n  }\n}\n"@
    )
}

/// The validation of a date with a time in memory.
pub fn date_time_validator(repr: TsDateTimeTypes) -> (result: String)
    ensures
        result@ == date_time_validator_text(repr),
{
    let dt_type = ts_temporal_type(TemporalKind::DateTime, repr);
    let finite = match repr {
        TsDateTimeTypes::Date => "  if (!Number.isFinite(value.getTime())) {\n    violations.push({ path, reason: `must be a valid date-time, got ${JSON.stringify(value)}` });\n    return;\n  }\n".to_owned(),
        _ => String::new(),
    };
    let wire = match repr {
        TsDateTimeTypes::String => "value".to_owned(),
        _ => "serializeTemporalDateTime(value)".to_owned(),
    };
    "\nexport function validateTemporalDateTime(value: ".to_owned().concat(dt_type.as_str())
        .concat(", path: string, violations: Violation[]): void {\n").concat(finite.as_str())
        .concat("  const wire = ").concat(wire.as_str())
        .concat(
            ";\n  if (!TEMPORAL_DATE_TIME_RE.test(wire) || !validTemporalCalendar(wire)) {\n    violations.push({ path, reason: `must be a valid date-time, got ${JSON.stringify(wire)}` });\n  }\n}\n",
        )
}

/// The validation of a date in memory.
pub open spec fn date_validator_text(repr: TsDateTimeTypes) -> Seq<char> {
    let date_type = crate::json_schema::ts_text::temporal_type_text(TemporalKind::Date, repr);
    let wire = match repr {
        TsDateTimeTypes::Temporal => "serializeTemporalDate(value)"@,
        _ => "value"@,
    };
    (
        "\nexport function validateTemporalDate(value: "@ + date_type
            + ", path: string, violations: Violation[]): void {\n  const wire = "@ + wire
            + ";\n  if (!TEMPORAL_DATE_RE.test(wire) || !validTemporalCalendar(wire)) {\n    violations.push({ path, reason: `must be a valid date, got ${JSON.stringify(wire)}` });\n  }\n}\n"@
    )
}

/// The validation of a date in memory.
pub fn date_validator(repr: TsDateTimeTypes) -> (result: String)
    ensures
        result@ == date_validator_text(repr),
{
    let date_type = ts_temporal_type(TemporalKind::Date, repr);
    let wire = match repr {
        TsDateTimeTypes::Temporal => "serializeTemporalDate(value)".to_owned(),
        _ => "value".to_owned(),
    };
    "\nexport function validateTemporalDate(value: ".to_owned().concat(date_type.as_str())
        .concat(", path: string, violations: Violation[]): void {\n  const wire = ")
        .concat(wire.as_str())
        .concat(
            ";\n  if (!TEMPORAL_DATE_RE.test(wire) || !validTemporalCalendar(wire)) {\n    violations.push({ path, reason: `must be a valid date, got ${JSON.stringify(wire)}` });\n  }\n}\n",
        )
}

/// The validation of a time in memory.
pub open spec fn time_validator_text() -> Seq<char> {
    "\nexport function validateTemporalTime(value: string, path: string, violations: Violation[]): void {\n  if (!TEMPORAL_TIME_RE.test(value)) {\n    violations.push({ path, reason: `must be a valid time, got ${JSON.stringify(value)}` });\n  }\n}\n"@
}

/// The validation of a time in memory.
pub fn time_validator() -> (result: String)
    ensures
        result@ == time_validator_text(),
{
    "\nexport function validateTemporalTime(value: string, path: string, violations: Violation[]): void {\n  if (!TEMPORAL_TIME_RE.test(value)) {\n    violations.push({ path, reason: `must be a valid time, got ${JSON.stringify(value)}` });\n  }\n}\n".to_owned()
}

/// The validation of a duration in memory.
pub open spec fn duration_validator_text(repr: TsDateTimeTypes) -> Seq<char> {
    let dur_type = crate::json_schema::ts_text::temporal_type_text(TemporalKind::Duration, repr);
    let wire = match repr {
        TsDateTimeTypes::Temporal => "serializeTemporalDuration(value)"@,
        _ => "value"@,
    };
    (
        "\nexport function validateTemporalDuration(value: "@ + dur_type
            + ", path: string, violations: Violation[]): void {\n  const wire = "@ + wire
            + ";\n  if (!TEMPORAL_DURATION_RE.test(wire) || temporalDurationSeconds(wire) === undefined) {\n    violations.push({ path, reason: `must be a valid duration, got ${JSON.stringify(wire)}` });\n  }\n}\n"@
    )
}

/// The validation of a duration in memory.
pub fn duration_validator(repr: TsDateTimeTypes) -> (result: String)
    ensures
        result@ == duration_validator_text(repr),
{
    let dur_type = ts_temporal_type(TemporalKind::Duration, repr);
    let wire = match repr {
        TsDateTimeTypes::Temporal => "serializeTemporalDuration(value)".to_owned(),
        _ => "value".to_owned(),
    };
    "\nexport function validateTemporalDuration(value: ".to_owned().concat(dur_type.as_str())
        .concat(", path: string, violations: Violation[]): void {\n  const wire = ")
        .concat(wire.as_str())
        .concat(
            ";\n  if (!TEMPORAL_DURATION_RE.test(wire) || temporalDurationSeconds(wire) === undefined) {\n    violations.push({ path, reason: `must be a valid duration, got ${JSON.stringify(wire)}` });\n  }\n}\n",
        )
}

/// The parsers, serializers and validations of temporal values, with the patterns that decide
/// what is valid.
pub open spec fn temporal_helpers(patterns: RuntimePatterns, repr: TsDateTimeTypes) -> Seq<char> {
    let regexes = "const TEMPORAL_DATE_TIME_RE = /"@ + patterns.date_time@
        + "/u;\nconst TEMPORAL_DATE_RE = /"@ + patterns.date@
        + "/u;\nconst TEMPORAL_TIME_RE = /"@ + patterns.time@
        + "/u;\nconst TEMPORAL_DURATION_RE = /"@ + patterns.duration@ + "/u;\n"@;
    let truncation = match repr {
        TsDateTimeTypes::Temporal => TS_TEMPORAL_FRACTION_TRUNCATION@,
        _ => Seq::<char>::empty(),
    };
    let common = TS_TEMPORAL_COMMON@;
    let parsers = temporal_parser_text(TemporalKind::DateTime, repr) + "\n"@
        + temporal_parser_text(TemporalKind::Date, repr) + "\n"@
        + temporal_parser_text(TemporalKind::Time, repr) + "\n"@
        + temporal_parser_text(TemporalKind::Duration, repr);
    let serializers = temporal_serializer_texts(repr);
    let validators = date_time_validator_text(repr) + date_validator_text(repr) + time_validator_text()
        + duration_validator_text(repr);
    (regexes + common + truncation + parsers + serializers + validators)
}

/// The parsers, serializers and validations of temporal values, with the patterns that decide
/// what is valid.
pub fn render_ts_temporal_helpers(
    patterns: &RuntimePatterns,
    repr: TsDateTimeTypes,
) -> (result: String)
    ensures
        result@ == temporal_helpers(*patterns, repr),
{
    let regexes = "const TEMPORAL_DATE_TIME_RE = /".to_owned().concat(patterns.date_time.as_str())
        .concat("/u;\nconst TEMPORAL_DATE_RE = /").concat(patterns.date.as_str())
        .concat("/u;\nconst TEMPORAL_TIME_RE = /").concat(patterns.time.as_str())
        .concat("/u;\nconst TEMPORAL_DURATION_RE = /").concat(patterns.duration.as_str())
        .concat("/u;\n");
    let truncation = match repr {
        TsDateTimeTypes::Temporal => TS_TEMPORAL_FRACTION_TRUNCATION.to_owned(),
        _ => String::new(),
    };
    let common = TS_TEMPORAL_COMMON.to_owned();
    let parsers = temporal_parser(TemporalKind::DateTime, repr).concat("\n")
        .concat(temporal_parser(TemporalKind::Date, repr).as_str()).concat("\n")
        .concat(temporal_parser(TemporalKind::Time, repr).as_str()).concat("\n")
        .concat(temporal_parser(TemporalKind::Duration, repr).as_str());
    let serializers = temporal_serializers(repr);
    let validators = date_time_validator(repr).concat(date_validator(repr).as_str())
        .concat(time_validator().as_str()).concat(duration_validator(repr).as_str());
    regexes.clone().concat(common.as_str()).concat(truncation.as_str()).concat(parsers.as_str())
        .concat(serializers.as_str()).concat(validators.as_str())
}

/// The runtime module: violations and their collection, and the helpers that the models need.
pub open spec fn runtime_module(
    header: Seq<char>,
    patterns: RuntimePatterns,
    repr: TsDateTimeTypes,
    uses: RuntimeUses,
) -> Seq<char> {
    let core = validator_core();
    let collect = collect_helper();
    let lengths = if uses.code_point_length {
        "\n"@ + code_point_length_helper()
    } else {
        Seq::<char>::empty()
    };
    let temporal = if uses.temporal {
        "\n"@ + temporal_helpers(patterns, repr)
    } else {
        Seq::<char>::empty()
    };
    let encoding = if uses.content_encoding {
        "\n"@ + content_encoding_helpers(patterns)
    } else {
        Seq::<char>::empty()
    };
    (
        header + "\n\nimport { ApplicationFailure } from \"@temporalio/common\";\n\n"@ + core
            + "\n"@ + collect + lengths + temporal + encoding
    )
}

/// The runtime module: violations and their collection, and the helpers that the models need.
pub fn render_json_runtime_module(
    header: &str,
    patterns: &RuntimePatterns,
    repr: TsDateTimeTypes,
    uses: RuntimeUses,
) -> (result: String)
    ensures
        result@ == runtime_module(header@, *patterns, repr, uses),
{
    let core = render_validator_core();
    let collect = render_collect_helper();
    let lengths = if uses.code_point_length {
        "\n".to_owned().concat(render_code_point_length_helper().as_str())
    } else {
        String::new()
    };
    let temporal = if uses.temporal {
        "\n".to_owned().concat(render_ts_temporal_helpers(patterns, repr).as_str())
    } else {
        String::new()
    };
    let encoding = if uses.content_encoding {
        "\n".to_owned().concat(render_ts_content_encoding_helpers(patterns).as_str())
    } else {
        String::new()
    };
    header.to_owned().concat("\n\nimport { ApplicationFailure } from \"@temporalio/common\";\n\n")
        .concat(core.as_str()).concat("\n").concat(collect.as_str()).concat(lengths.as_str())
        .concat(temporal.as_str()).concat(encoding.as_str())
}

} // verus!
