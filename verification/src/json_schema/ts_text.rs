//! Names, literals and paths in the TypeScript code for JSON models.

use vstd::prelude::*;

use crate::json_schema::number::cut_to_whole_number;
use crate::json_schema::schema::{Encoding, Schema, TemporalKind};
use crate::json_schema::value::{JsonMember, JsonNumber, JsonValue};
use crate::json_text::quote_json;
use crate::naming::{to_lower_camel, to_shouty_snake, to_upper_camel};
use crate::output::TsDateTimeTypes;
use crate::text::{
    chars_of, join_texts, last_segment_of, matches_at, replace_char, strip_prefix, strip_suffix,
    text_between, text_eq,
};
use crate::unique::decimal_text;

verus! {

/// What a `format` is checked by: a pattern, under a length.
#[derive(Debug, Clone)]
pub struct FormatCheck {
    pub format: String,
    pub name: String,
    pub pattern: String,
    pub max_code_points: Option<u64>,
}

/// The identifier of the type that a reference names.
#[derive(Debug, Clone)]
pub struct RefName {
    pub reference: String,
    pub name: String,
}

/// A schema as it was read, or why it could not be read.
#[derive(Debug)]
pub enum ReadSchema {
    Read(Schema),
    Unreadable(String),
}

/// A model whose type is described by a schema. `bare_reference` is its reference, where the
/// schema is nothing else.
#[derive(Debug)]
pub struct JsonModel {
    pub model_name: String,
    pub full_name: String,
    pub bare_reference: Option<String>,
    pub schema: ReadSchema,
}

/// What the TypeScript code of a module depends on beside its models: how temporal values are
/// held, how formats are checked, the identifiers that references stand for, and every model of
/// the input, in the order of their full names.
#[derive(Debug)]
pub struct TsContext {
    pub repr: TsDateTimeTypes,
    pub formats: Vec<FormatCheck>,
    pub ref_names: Vec<RefName>,
    pub tree_models: Vec<JsonModel>,
}

/// The first check of a format.
pub open spec fn format_check(formats: Seq<FormatCheck>, format: Seq<char>) -> Option<FormatCheck>
    decreases formats.len(),
{
    if formats.len() == 0 {
        None
    } else if formats[0].format@ == format {
        Some(formats[0])
    } else {
        format_check(formats.drop_first(), format)
    }
}

/// The check of a format, where it has one.
pub fn check_for<'a>(
    formats: &'a Vec<FormatCheck>,
    format: &str,
) -> (check: Option<&'a FormatCheck>)
    ensures
        match (check, format_check(formats@, format@)) {
            (Some(found), Some(wanted)) => *found == wanted,
            (None, None) => true,
            _ => false,
        },
{
    let mut i: usize = 0;
    assert(formats@.skip(0) =~= formats@);
    while i < formats.len()
        invariant
            i <= formats.len(),
            format_check(formats@, format@) == format_check(formats@.skip(i as int), format@),
        decreases formats.len() - i,
    {
        assert(formats@.skip(i as int).drop_first() =~= formats@.skip(i + 1));
        if text_eq(formats[i].format.as_str(), format) {
            return Some(&formats[i]);
        }
        i += 1;
    }
    None
}

/// The identifier that was registered last for a reference.
pub open spec fn registered_name(names: Seq<RefName>, reference: Seq<char>) -> Option<Seq<char>>
    decreases names.len(),
{
    if names.len() == 0 {
        None
    } else if names.last().reference@ == reference {
        Some(names.last().name@)
    } else {
        registered_name(names.drop_last(), reference)
    }
}

/// The identifier that was registered last for a reference.
pub fn find_registered_name(names: &Vec<RefName>, reference: &str) -> (name: Option<String>)
    ensures
        crate::text::opt_text(name) == registered_name(names@, reference@),
{
    let mut i: usize = names.len();
    assert(names@.take(i as int) =~= names@);
    while i > 0
        invariant
            i <= names.len(),
            registered_name(names@, reference@) == registered_name(
                names@.take(i as int),
                reference@,
            ),
        decreases i,
    {
        assert(names@.take(i as int).drop_last() =~= names@.take(i - 1));
        if text_eq(names[i - 1].reference.as_str(), reference) {
            return Some(names[i - 1].name.clone());
        }
        i -= 1;
    }
    None
}

/// The call to the scan for the length of a string in code points.
pub open spec fn code_point_length_text() -> Seq<char> {
    "__nexgenDefinitions.codePointLength"@
}

/// The call to the scan for the length of a string in code points.
pub fn code_point_length_fn() -> (result: String)
    ensures
        result@ == code_point_length_text(),
{
    "__nexgenDefinitions.codePointLength".to_owned()
}

/// The function that decodes bytes.
pub open spec fn decode_fn_text(encoding: Encoding) -> Seq<char> {
    match encoding {
        Encoding::Base64 => "__nexgenDefinitions.base64ToBytes"@,
        Encoding::Base64Url => "__nexgenDefinitions.base64UrlToBytes"@,
    }
}

/// The function that decodes bytes.
pub fn ts_content_encoding_parse_fn(encoding: Encoding) -> (result: String)
    ensures
        result@ == decode_fn_text(encoding),
{
    match encoding {
        Encoding::Base64 => "__nexgenDefinitions.base64ToBytes".to_owned(),
        Encoding::Base64Url => "__nexgenDefinitions.base64UrlToBytes".to_owned(),
    }
}

/// The function that encodes bytes.
pub open spec fn encode_fn_text(encoding: Encoding) -> Seq<char> {
    match encoding {
        Encoding::Base64 => "__nexgenDefinitions.bytesToBase64"@,
        Encoding::Base64Url => "__nexgenDefinitions.bytesToBase64Url"@,
    }
}

/// The function that encodes bytes.
pub fn ts_content_encoding_serialize_fn(encoding: Encoding) -> (result: String)
    ensures
        result@ == encode_fn_text(encoding),
{
    match encoding {
        Encoding::Base64 => "__nexgenDefinitions.bytesToBase64".to_owned(),
        Encoding::Base64Url => "__nexgenDefinitions.bytesToBase64Url".to_owned(),
    }
}

/// The type that holds a temporal value.
pub open spec fn temporal_type_text(kind: TemporalKind, repr: TsDateTimeTypes) -> Seq<char> {
    match (kind, repr) {
        (TemporalKind::DateTime, TsDateTimeTypes::Date) => "Date"@,
        (TemporalKind::DateTime, TsDateTimeTypes::Temporal) => "Temporal.ZonedDateTime"@,
        (TemporalKind::Date, TsDateTimeTypes::Temporal) => "Temporal.PlainDate"@,
        (TemporalKind::Duration, TsDateTimeTypes::Temporal) => "Temporal.Duration"@,
        _ => "string"@,
    }
}

/// The type that holds a temporal value.
pub fn ts_temporal_type(kind: TemporalKind, repr: TsDateTimeTypes) -> (result: String)
    ensures
        result@ == temporal_type_text(kind, repr),
{
    match (kind, repr) {
        (TemporalKind::DateTime, TsDateTimeTypes::Date) => "Date".to_owned(),
        (TemporalKind::DateTime, TsDateTimeTypes::Temporal) => "Temporal.ZonedDateTime".to_owned(),
        (TemporalKind::Date, TsDateTimeTypes::Temporal) => "Temporal.PlainDate".to_owned(),
        (TemporalKind::Duration, TsDateTimeTypes::Temporal) => "Temporal.Duration".to_owned(),
        _ => "string".to_owned(),
    }
}

/// The name of the function that parses a temporal value.
pub open spec fn temporal_parser_name(kind: TemporalKind) -> Seq<char> {
    match kind {
        TemporalKind::DateTime => "parseTemporalDateTime"@,
        TemporalKind::Date => "parseTemporalDate"@,
        TemporalKind::Time => "parseTemporalTime"@,
        TemporalKind::Duration => "parseTemporalDuration"@,
    }
}

/// The name of the function that parses a temporal value.
pub fn ts_temporal_parser_name(kind: TemporalKind) -> (result: String)
    ensures
        result@ == temporal_parser_name(kind),
{
    match kind {
        TemporalKind::DateTime => "parseTemporalDateTime".to_owned(),
        TemporalKind::Date => "parseTemporalDate".to_owned(),
        TemporalKind::Time => "parseTemporalTime".to_owned(),
        TemporalKind::Duration => "parseTemporalDuration".to_owned(),
    }
}

/// The function that parses a temporal value.
pub open spec fn temporal_parse_text(kind: TemporalKind) -> Seq<char> {
    "__nexgenDefinitions."@ + temporal_parser_name(kind)
}

/// The function that parses a temporal value.
pub fn ts_temporal_parse_fn(kind: TemporalKind) -> (result: String)
    ensures
        result@ == temporal_parse_text(kind),
{
    "__nexgenDefinitions.".to_owned().concat(ts_temporal_parser_name(kind).as_str())
}

/// The function that validates a temporal value in memory.
pub open spec fn temporal_validate_text(kind: TemporalKind) -> Seq<char> {
    match kind {
        TemporalKind::DateTime => "__nexgenDefinitions.validateTemporalDateTime"@,
        TemporalKind::Date => "__nexgenDefinitions.validateTemporalDate"@,
        TemporalKind::Time => "__nexgenDefinitions.validateTemporalTime"@,
        TemporalKind::Duration => "__nexgenDefinitions.validateTemporalDuration"@,
    }
}

/// The function that validates a temporal value in memory.
pub fn ts_temporal_validate_fn(kind: TemporalKind) -> (result: String)
    ensures
        result@ == temporal_validate_text(kind),
{
    match kind {
        TemporalKind::DateTime => "__nexgenDefinitions.validateTemporalDateTime".to_owned(),
        TemporalKind::Date => "__nexgenDefinitions.validateTemporalDate".to_owned(),
        TemporalKind::Time => "__nexgenDefinitions.validateTemporalTime".to_owned(),
        TemporalKind::Duration => "__nexgenDefinitions.validateTemporalDuration".to_owned(),
    }
}

/// The wire form of a temporal value: the value itself where it is held as a string. A `Date`
/// that is no point in time gives `undefined` in place of an exception.
pub open spec fn temporal_wire_text(
    kind: TemporalKind,
    repr: TsDateTimeTypes,
    value_expr: Seq<char>,
) -> Seq<char> {
    match (kind, repr) {
        (TemporalKind::DateTime, TsDateTimeTypes::Date) => "Number.isFinite("@ + value_expr
            + ".getTime()) ? __nexgenDefinitions.serializeTemporalDateTime("@ + value_expr
            + ") : undefined"@,
        (TemporalKind::DateTime, TsDateTimeTypes::Temporal) => "__nexgenDefinitions.serializeTemporalDateTime("@ + value_expr + ")"@,
        (TemporalKind::Date, TsDateTimeTypes::Temporal) => "__nexgenDefinitions.serializeTemporalDate("@ + value_expr + ")"@,
        (TemporalKind::Duration, TsDateTimeTypes::Temporal) => "__nexgenDefinitions.serializeTemporalDuration("@ + value_expr + ")"@,
        _ => value_expr,
    }
}

/// The wire form of a temporal value: the value itself where it is held as a string. A `Date`
/// that is no point in time gives `undefined` in place of an exception.
pub fn ts_temporal_serialize_call(
    kind: TemporalKind,
    repr: TsDateTimeTypes,
    value_expr: &str,
) -> (result: String)
    ensures
        result@ == temporal_wire_text(kind, repr, value_expr@),
{
    match (kind, repr) {
        (TemporalKind::DateTime, TsDateTimeTypes::Date) => "Number.isFinite(".to_owned()
            .concat(value_expr)
            .concat(".getTime()) ? __nexgenDefinitions.serializeTemporalDateTime(")
            .concat(value_expr).concat(") : undefined"),
        (
            TemporalKind::DateTime,
            TsDateTimeTypes::Temporal
        ) => "__nexgenDefinitions.serializeTemporalDateTime(".to_owned()
            .concat(value_expr).concat(")"),
        (
            TemporalKind::Date,
            TsDateTimeTypes::Temporal
        ) => "__nexgenDefinitions.serializeTemporalDate(".to_owned()
            .concat(value_expr).concat(")"),
        (
            TemporalKind::Duration,
            TsDateTimeTypes::Temporal
        ) => "__nexgenDefinitions.serializeTemporalDuration(".to_owned()
            .concat(value_expr).concat(")"),
        _ => value_expr.to_owned(),
    }
}

/// A temporal value that does not change on its way to the wire is its own wire form.
pub proof fn law_identity_temporal_is_written_as_it_is(
    kind: TemporalKind,
    repr: TsDateTimeTypes,
    value_expr: Seq<char>,
)
    ensures
        !crate::json_schema::schema::temporal_changes(kind, Some(repr)) ==> temporal_wire_text(
            kind,
            repr,
            value_expr,
        ) == value_expr,
        !crate::json_schema::schema::temporal_changes(kind, Some(repr)) <==> temporal_type_text(
            kind,
            repr,
        ) == "string"@,
{
    reveal_strlit("string");
    reveal_strlit("Date");
    reveal_strlit("Temporal.ZonedDateTime");
    reveal_strlit("Temporal.PlainDate");
    reveal_strlit("Temporal.Duration");
    assert("string"@.len() == 6);
    assert("Date"@.len() == 4);
    assert("Temporal.ZonedDateTime"@.len() == 22);
    assert("Temporal.PlainDate"@.len() == 18);
    assert("Temporal.Duration"@.len() == 17);
}

/// Where temporal values are held as strings, none of them is ever changed: each of the four
/// parsers returns the text that it was given or refuses it, and what is held is what is written.
pub proof fn law_temporal_strings_keep_their_text(
    patterns: crate::json_schema::runtime::RuntimePatterns,
    kind: TemporalKind,
    value_expr: Seq<char>,
)
    ensures
        crate::json_schema::annotation::has_part(
            crate::json_schema::runtime::temporal_helpers(patterns, TsDateTimeTypes::String),
            crate::json_schema::runtime::verbatim_parser_text(kind),
        ),
        temporal_type_text(kind, TsDateTimeTypes::String) == "string"@,
        temporal_wire_text(kind, TsDateTimeTypes::String, value_expr) == value_expr,
{
    let parser = crate::json_schema::runtime::verbatim_parser_text(kind);
    assert(crate::json_schema::runtime::temporal_parser_text(kind, TsDateTimeTypes::String)
        == parser);
    crate::json_schema::sides::lemma_part_stays(parser);
}

/// The text as a TypeScript string literal.
pub open spec fn string_literal(value: Seq<char>) -> Seq<char> {
    let quoted = crate::json_text::json_quoted(value);
    let first = crate::text::replaced_char(quoted, '\u{2028}', "\\u2028"@);
    crate::text::replaced_char(first, '\u{2029}', "\\u2029"@)
}

/// The text as a TypeScript string literal.
pub fn typescript_string_literal(value: &str) -> (result: String)
    ensures
        result@ == string_literal(value@),
{
    let quoted = quote_json(value);
    let first = replace_char(quoted.as_str(), '\u{2028}', "\\u2028");
    replace_char(first.as_str(), '\u{2029}', "\\u2029")
}

/// The element of an object under a key.
pub open spec fn index_access(object: Seq<char>, key: Seq<char>) -> Seq<char> {
    object + "["@ + string_literal(key) + "]"@
}

/// The element of an object under a key.
pub fn ts_index_access(object: &str, key: &str) -> (result: String)
    ensures
        result@ == index_access(object@, key@),
{
    object.to_owned().concat("[").concat(typescript_string_literal(key).as_str()).concat("]")
}

/// Whether an object has a key of its own.
pub open spec fn has_own_text(object: Seq<char>, key: Seq<char>) -> Seq<char> {
    "Object.prototype.hasOwnProperty.call("@ + object + ", "@ + string_literal(key) + ")"@
}

/// Whether an object has a key of its own.
pub fn ts_has_own(object: &str, key: &str) -> (result: String)
    ensures
        result@ == has_own_text(object@, key@),
{
    "Object.prototype.hasOwnProperty.call(".to_owned().concat(object).concat(", ")
        .concat(typescript_string_literal(key).as_str()).concat(")")
}

/// Whether a member would hide one that every object has.
pub open spec fn hides_prototype_member(name: Seq<char>) -> bool {
    (name == "constructor"@) || (name == "hasOwnProperty"@) || (name == "isPrototypeOf"@)
        || (name == "propertyIsEnumerable"@) || (name == "toLocaleString"@)
        || (name == "toString"@) || (name == "valueOf"@) || (name == "__defineGetter__"@)
        || (name == "__defineSetter__"@) || (name == "__lookupGetter__"@)
        || (name == "__lookupSetter__"@) || (name == "__proto__"@)
}

/// Whether a member would hide one that every object has.
pub fn ts_member_conflicts_with_object_prototype(name: &str) -> (result: bool)
    ensures
        result == hides_prototype_member(name@),
{
    text_eq(name, "constructor") || text_eq(
        name,
        "hasOwnProperty",
    ) || text_eq(name, "isPrototypeOf")
        || text_eq(name, "propertyIsEnumerable") || text_eq(name, "toLocaleString")
        || text_eq(name, "toString") || text_eq(name, "valueOf") || text_eq(
            name,
            "__defineGetter__",
        )
        || text_eq(name, "__defineSetter__") || text_eq(name, "__lookupGetter__")
        || text_eq(name, "__lookupSetter__") || text_eq(name, "__proto__")
}

/// The literal of a bound: cut down to an integer where the values are integers.
pub open spec fn bound_literal(number: JsonNumber, is_integer: bool) -> Seq<char> {
    if is_integer {
        crate::json_schema::number::whole_number(number.text@)
    } else {
        number.text@
    }
}

/// The literal of a bound: cut down to an integer where the values are integers.
pub fn ts_bound_literal(number: &JsonNumber, is_integer: bool) -> (result: String)
    ensures
        result@ == bound_literal(*number, is_integer),
{
    if is_integer {
        cut_to_whole_number(number.text.as_str())
    } else {
        number.text.clone()
    }
}

/// The number in decimal.
pub open spec fn count_of(value: u64) -> Seq<char> {
    crate::unique::decimal(value as nat)
}

/// The number in decimal.
pub fn count_text(value: u64) -> (result: String)
    ensures
        result@ == count_of(value),
{
    decimal_text(value as u128)
}

/// One byte into the FNV-1a hash.
pub open spec fn fnv_step(hash: u64, byte: u8) -> u64 {
    (hash ^ (byte as u64)).wrapping_mul(0x0000_0100_0000_01b3)
}

/// The FNV-1a hash of bytes.
pub open spec fn fnv_hash(bytes: Seq<u8>) -> u64
    decreases bytes.len(),
{
    if bytes.len() == 0 {
        0xcbf2_9ce4_8422_2325
    } else {
        fnv_step(fnv_hash(bytes.drop_last()), bytes.last())
    }
}

/// The upper-case hexadecimal digit for a number below sixteen.
pub open spec fn upper_hex(value: u64) -> char {
    match value {
        0 => '0',
        1 => '1',
        2 => '2',
        3 => '3',
        4 => '4',
        5 => '5',
        6 => '6',
        7 => '7',
        8 => '8',
        9 => '9',
        10 => 'A',
        11 => 'B',
        12 => 'C',
        13 => 'D',
        14 => 'E',
        _ => 'F',
    }
}

/// The upper-case hexadecimal digit for a number below sixteen.
pub fn upper_hex_digit(value: u64) -> (result: char)
    ensures
        result == upper_hex(value),
{
    match value {
        0 => '0',
        1 => '1',
        2 => '2',
        3 => '3',
        4 => '4',
        5 => '5',
        6 => '6',
        7 => '7',
        8 => '8',
        9 => '9',
        10 => 'A',
        11 => 'B',
        12 => 'C',
        13 => 'D',
        14 => 'E',
        _ => 'F',
    }
}

/// The last hexadecimal digits of a number, as many as are asked for.
pub open spec fn hex_digits(value: u64, digits: nat) -> Seq<char>
    decreases digits,
{
    if digits == 0 {
        Seq::empty()
    } else {
        hex_digits(value / 16, (digits - 1) as nat).push(upper_hex(value % 16))
    }
}

fn hex_text(value: u64, digits: u64) -> (text: String)
    ensures
        text@ == hex_digits(value, digits as nat),
    decreases digits,
{
    if digits == 0 {
        String::new()
    } else {
        let mut text = hex_text(value / 16, digits - 1);
        text.push(upper_hex_digit(value % 16));
        text
    }
}

/// The constant that holds a compiled pattern, named by the hash of the pattern.
pub open spec fn pattern_const(pattern: Seq<char>) -> Seq<char> {
    "PATTERN_"@ + hex_digits(fnv_hash(vstd::utf8::encode_utf8(pattern)), 16)
}

/// The constant that holds a compiled pattern, named by the hash of the pattern.
pub fn ts_pattern_const_name(pattern: &str) -> (name: String)
    ensures
        name@ == pattern_const(pattern@),
{
    let bytes = pattern.as_bytes();
    let mut hash: u64 = 0xcbf2_9ce4_8422_2325;
    let mut i: usize = 0;
    while i < bytes.len()
        invariant
            i <= bytes.len(),
            hash == fnv_hash(bytes@.take(i as int)),
        decreases bytes.len() - i,
    {
        assert(bytes@.take(i + 1).drop_last() =~= bytes@.take(i as int));
        hash = (hash ^ (bytes[i] as u64)).wrapping_mul(0x0000_0100_0000_01b3);
        i += 1;
    }
    assert(bytes@.take(i as int) =~= bytes@);
    "PATTERN_".to_owned().concat(hex_text(hash, 16).as_str())
}

/// The text inside a template literal.
pub open spec fn template_escaped(value: Seq<char>) -> Seq<char> {
    let first = crate::text::replaced_char(value, '\\', "\\\\"@);
    let second = crate::text::replaced_char(first, '`', "\\`"@);
    crate::text::replaced_char(second, '$', "\\$"@)
}

/// The text inside a template literal.
pub fn ts_template_escape(value: &str) -> (result: String)
    ensures
        result@ == template_escaped(value@),
{
    let first = replace_char(value, '\\', "\\\\");
    let second = replace_char(first.as_str(), '`', "\\`");
    replace_char(second.as_str(), '$', "\\$")
}

/// Whether a character ends a line in TypeScript.
pub open spec fn ends_line(c: char) -> bool {
    c == '\n' || c == '\r' || c == '\u{2028}' || c == '\u{2029}'
}

/// The body of a regular expression literal for a pattern, and whether the pattern ends in an
/// open escape. A slash that is not escaped is.
pub open spec fn regex_body(pattern: Seq<char>) -> (Seq<char>, bool)
    decreases pattern.len(),
{
    if pattern.len() == 0 {
        (Seq::empty(), false)
    } else {
        let (body, escaped) = regex_body(pattern.drop_last());
        let c = pattern.last();
        if escaped {
            (body.push(c), false)
        } else if c == '\\' {
            (body.push(c), true)
        } else if c == '/' {
            (body.push('\\').push('/'), false)
        } else {
            (body.push(c), false)
        }
    }
}

/// The regular expression literal for a pattern, where there is one: not for an empty pattern,
/// one that holds the end of a line, and one that ends in an open escape.
pub open spec fn regex_literal(pattern: Seq<char>) -> Option<Seq<char>> {
    if pattern.len() == 0 || (
        exists|i: int| 0 <= i < pattern.len() && ends_line(#[trigger] pattern[i])
    )
        || regex_body(pattern).1 {
        None
    } else {
        Some("/"@ + regex_body(pattern).0 + "/u"@)
    }
}

/// The regular expression literal for a pattern, where there is one.
pub fn ts_regex_literal(pattern: &str) -> (literal: Option<String>)
    ensures
        crate::text::opt_text(literal) == regex_literal(pattern@),
{
    let chars = chars_of(pattern);
    if chars.len() == 0 {
        return None;
    }
    let mut body = String::new();
    let mut escaped = false;
    let mut i: usize = 0;
    while i < chars.len()
        invariant
            i <= chars.len(),
            chars@ == pattern@,
            (body@, escaped) == regex_body(chars@.take(i as int)),
            forall|k: int| 0 <= k < i ==> !ends_line(#[trigger] chars@[k]),
        decreases chars.len() - i,
    {
        let c = chars[i];
        if c == '\n' || c == '\r' || c == '\u{2028}' || c == '\u{2029}' {
            assert(ends_line(pattern@[i as int]));
            return None;
        }
        assert(chars@.take(i + 1).drop_last() =~= chars@.take(i as int));
        if escaped {
            body.push(c);
            escaped = false;
        } else if c == '\\' {
            body.push(c);
            escaped = true;
        } else if c == '/' {
            body.push('\\');
            body.push('/');
        } else {
            body.push(c);
        }
        i += 1;
    }
    assert(chars@.take(i as int) =~= pattern@);
    if escaped {
        None
    } else {
        Some("/".to_owned().concat(body.as_str()).concat("/u"))
    }
}

/// Whether reading the characters of a literal's body from its start leaves an escape open, and
/// whether a slash that ends the literal is read on the way.
pub open spec fn reads_slash(body: Seq<char>) -> (bool, bool)
    decreases body.len(),
{
    if body.len() == 0 {
        (false, false)
    } else {
        let (escaped, ended) = reads_slash(body.drop_last());
        if escaped {
            (false, ended)
        } else if body.last() == '\\' {
            (true, ended)
        } else {
            (false, ended || body.last() == '/')
        }
    }
}

/// No slash inside a regular expression literal ends it.
pub proof fn law_regex_literal_is_not_cut(pattern: Seq<char>)
    ensures
        !reads_slash(regex_body(pattern).0).1,
        reads_slash(regex_body(pattern).0).0 == regex_body(pattern).1,
    decreases pattern.len(),
{
    if pattern.len() > 0 {
        law_regex_literal_is_not_cut(pattern.drop_last());
        let (body, escaped) = regex_body(pattern.drop_last());
        let c = pattern.last();
        assert(body.push(c).drop_last() =~= body);
        assert(body.push('\\').drop_last() =~= body);
        assert(body.push('\\').push('/').drop_last() =~= body.push('\\'));
        assert(!escaped ==> reads_slash(body.push('\\')).0);
    }
}

/// The identifier of the converter of a model.
pub open spec fn converter_name(model_name: Seq<char>) -> Seq<char> {
    crate::naming::lower_camel(model_name) + "TransferTypeConverter"@
}

/// The identifier of the converter of a model.
pub fn ts_transfer_type_converter_name(model_name: &str) -> (result: String)
    ensures
        result@ == converter_name(model_name@),
{
    to_lower_camel(model_name).concat("TransferTypeConverter")
}

/// The identifier of the type that a reference names: the registered one, else the last part of
/// the reference in upper camel case.
pub open spec fn referenced_model(ctx: TsContext, reference: Seq<char>) -> Seq<char> {
    match registered_name(ctx.ref_names@, reference) {
        Some(name) => name,
        None => {
            let pointer = crate::text::last_segment(reference, '#');
            let name = crate::text::last_segment(pointer, '/');
            crate::naming::upper_camel(name)
        },
    }
}

/// The identifier of the type that a reference names: the registered one, else the last part of
/// the reference in upper camel case.
pub fn reference_model_name(ctx: &TsContext, reference: &str) -> (result: String)
    ensures
        result@ == referenced_model(*ctx, reference@),
{
    match find_registered_name(&ctx.ref_names, reference) {
        Some(name) => name,
        None => {
            let pointer = last_segment_of(reference, '#');
            let name = last_segment_of(pointer.as_str(), '/');
            to_upper_camel(name.as_str())
        },
    }
}

/// The index after the last place where a part stands in a text, among the places below `upto`;
/// none where there is no such place.
pub open spec fn after_last_part(text: Seq<char>, part: Seq<char>, upto: nat) -> Option<int>
    decreases upto,
{
    if upto == 0 {
        None
    } else if crate::text::has_prefix(text.skip(upto - 1), part) {
        Some(upto - 1 + part.len())
    } else {
        after_last_part(text, part, (upto - 1) as nat)
    }
}

/// The full name that a reference gives: what follows its last `#/$defs/`.
pub open spec fn full_name_of(reference: Seq<char>) -> Seq<char> {
    match after_last_part(reference, "#/$defs/"@, reference.len()) {
        Some(start) => reference.skip(start),
        None => reference,
    }
}

/// The full name that a reference gives: what follows its last `#/$defs/`.
pub fn reference_full_name(reference: &str) -> (name: String)
    ensures
        name@ == full_name_of(reference@),
{
    let chars = chars_of(reference);
    let part = chars_of("#/$defs/");
    let mut upto: usize = chars.len();
    while upto > 0
        invariant
            upto <= chars.len(),
            chars@ == reference@,
            part@ == "#/$defs/"@,
            after_last_part(reference@, part@, reference@.len()) == after_last_part(
                reference@,
                part@,
                upto as nat,
            ),
        decreases upto,
    {
        if matches_at(&chars, upto - 1, &part) {
            let start: usize = upto - 1 + part.len();
            let name = text_between(&chars, start, chars.len());
            assert(reference@.skip(start as int) =~= reference@.subrange(
                start as int,
                chars@.len() as int,
            ));
            return name;
        }
        upto -= 1;
    }
    reference.to_owned()
}

/// The constant that holds the names of a model's declared members.
pub open spec fn declared_const(model_name: Seq<char>) -> Seq<char> {
    crate::naming::shouty_snake(model_name) + "_DECLARED"@
}

/// The constant that holds the names of a model's declared members.
pub fn declared_fields_const_name(model_name: &str) -> (result: String)
    ensures
        result@ == declared_const(model_name@),
{
    to_shouty_snake(model_name).concat("_DECLARED")
}

/// The text inside a string literal in double quotes.
pub open spec fn literal_value(value: Seq<char>) -> Option<Seq<char>> {
    match crate::text::without_prefix(value, "\""@) {
        Some(rest) => crate::text::without_suffix(rest, "\""@),
        None => None,
    }
}

/// The text inside a string literal in double quotes.
pub fn string_literal_value(value: &str) -> (result: Option<String>)
    ensures
        crate::text::opt_text(result) == literal_value(value@),
{
    match strip_prefix(value, "\"") {
        Some(rest) => strip_suffix(rest.as_str(), "\""),
        None => None,
    }
}

/// The path of an element under the path of its array.
pub open spec fn indexed_path(path_expr: Seq<char>, index_expr: Seq<char>) -> Seq<char> {
    match literal_value(path_expr) {
        Some(path) => "`"@ + path + "[${"@ + index_expr + "}]`"@,
        None => match crate::text::without_prefix(path_expr, "`"@) {
            Some(rest) => match crate::text::without_suffix(rest, "`"@) {
                Some(path) => "`"@ + path + "[${"@ + index_expr + "}]`"@,
                None => "`${"@ + path_expr + "}[${"@ + index_expr + "}]`"@,
            },
            None => "`${"@ + path_expr + "}[${"@ + index_expr + "}]`"@,
        },
    }
}

/// The path of an element under the path of its array.
pub fn ts_indexed_path(path_expr: &str, index_expr: &str) -> (result: String)
    ensures
        result@ == indexed_path(path_expr@, index_expr@),
{
    match string_literal_value(path_expr) {
        Some(path) => "`".to_owned().concat(path.as_str()).concat("[${").concat(index_expr)
            .concat("}]`"),
        None => match strip_prefix(path_expr, "`") {
            Some(rest) => match strip_suffix(rest.as_str(), "`") {
                Some(path) => "`".to_owned().concat(path.as_str()).concat("[${").concat(index_expr)
                    .concat("}]`"),
                None => "`${".to_owned().concat(path_expr).concat("}[${").concat(index_expr)
                    .concat("}]`"),
            },
            None => "`${".to_owned().concat(path_expr).concat("}[${").concat(index_expr)
                .concat("}]`"),
        },
    }
}

/// The path of a member under the path of its object, where an expression gives the member's name.
pub open spec fn keyed_path(path_expr: Seq<char>, key_expr: Seq<char>) -> Seq<char> {
    indexed_path(path_expr, "JSON.stringify("@ + key_expr + ")"@)
}

/// The path of a member under the path of its object, where an expression gives the member's name.
pub fn ts_keyed_path(path_expr: &str, key_expr: &str) -> (result: String)
    ensures
        result@ == keyed_path(path_expr@, key_expr@),
{
    let name = "JSON.stringify(".to_owned().concat(key_expr).concat(")");
    ts_indexed_path(path_expr, name.as_str())
}

/// The suffix of the loop variables of an array inside that many others.
pub open spec fn depth_suffix(depth: u64) -> Seq<char> {
    if depth == 0 {
        Seq::<char>::empty()
    } else {
        count_of(depth)
    }
}

/// The suffix of the loop variables of an array inside that many others.
pub fn ts_depth_suffix(depth: u64) -> (result: String)
    ensures
        result@ == depth_suffix(depth),
{
    if depth == 0 {
        String::new()
    } else {
        count_text(depth)
    }
}

/// The depth of an array inside one of a depth.
pub open spec fn deeper(depth: u64) -> u64 {
    if depth < u64::MAX {
        (depth + 1) as u64
    } else {
        depth
    }
}

/// The depth of an array inside one of a depth.
pub fn next_depth(depth: u64) -> (result: u64)
    ensures
        result == deeper(depth),
{
    if depth < u64::MAX {
        depth + 1
    } else {
        depth
    }
}

/// Whether a character may stand at the start of an identifier.
pub open spec fn starts_identifier(c: char) -> bool {
    'a' <= c <= 'z' || 'A' <= c <= 'Z' || c == '_'
}

/// Whether a character may stand in an identifier.
pub open spec fn in_identifier(c: char) -> bool {
    starts_identifier(c) || '0' <= c <= '9'
}

/// Whether a text is a plain identifier. `$` counts as a letter where `dollar` says so.
pub open spec fn is_identifier(text: Seq<char>, dollar: bool) -> bool {
    &&& text.len() > 0
    &&& starts_identifier(text[0]) || (dollar && text[0] == '$')
    &&& forall|i: int|
        1 <= i < text.len() ==> in_identifier(#[trigger] text[i]) || (dollar && text[i] == '$')
}

fn text_is_identifier(text: &str, dollar: bool) -> (valid: bool)
    ensures
        valid == is_identifier(text@, dollar),
{
    let chars = chars_of(text);
    if chars.len() == 0 {
        return false;
    }
    let first = chars[0];
    if !(('a' <= first && first <= 'z') || ('A' <= first && first <= 'Z') || first == '_' || (dollar
        && first == '$')) {
        return false;
    }
    let mut i: usize = 1;
    while i < chars.len()
        invariant
            1 <= i <= chars.len(),
            chars@ == text@,
            forall|k: int|
                1 <= k < i ==> in_identifier(#[trigger] text@[k]) || (dollar && text@[k] == '$'),
        decreases chars.len() - i,
    {
        let c = chars[i];
        if !(('a' <= c && c <= 'z') || ('A' <= c && c <= 'Z') || c == '_' || ('0' <= c && c <= '9')
            || (dollar && c == '$')) {
            assert(!(in_identifier(text@[i as int]) || (dollar && text@[i as int] == '$')));
            return false;
        }
        i += 1;
    }
    true
}

/// The key of a member in an object literal or type.
pub open spec fn object_key(name: Seq<char>) -> Seq<char> {
    if is_identifier(name, true) {
        name
    } else {
        string_literal(name)
    }
}

/// The key of a member in an object literal or type.
pub fn typescript_object_key(name: &str) -> (result: String)
    ensures
        result@ == object_key(name@),
{
    if text_is_identifier(name, true) {
        name.to_owned()
    } else {
        typescript_string_literal(name)
    }
}

/// The segment of a member in the path of a violation: its name, or its name in brackets and
/// quotes where it is no identifier.
pub open spec fn member_segment(key: Seq<char>) -> Seq<char> {
    if is_identifier(key, false) {
        key
    } else {
        let slashes = crate::text::replaced_char(key, '\\', "\\\\"@);
        let quotes = crate::text::replaced_char(slashes, '"', "\\\""@);
        ("[\""@ + quotes + "\"]"@)
    }
}

/// The segment of a member in the path of a violation: its name, or its name in brackets and
/// quotes where it is no identifier.
pub fn violation_member_segment(key: &str) -> (result: String)
    ensures
        result@ == member_segment(key@),
{
    if text_is_identifier(key, false) {
        key.to_owned()
    } else {
        let slashes = replace_char(key, '\\', "\\\\");
        let quotes = replace_char(slashes.as_str(), '"', "\\\"");
        "[\"".to_owned().concat(quotes.as_str()).concat("\"]")
    }
}

/// The path of a member as a string literal.
pub open spec fn violation_path(key: Seq<char>) -> Seq<char> {
    let segment = member_segment(key);
    string_literal(segment)
}

/// The path of a member as a string literal.
pub fn typescript_violation_path_literal(key: &str) -> (result: String)
    ensures
        result@ == violation_path(key@),
{
    let segment = violation_member_segment(key);
    typescript_string_literal(segment.as_str())
}

/// The literal of a boolean.
pub open spec fn bool_literal(value: bool) -> Seq<char> {
    if value {
        "true"@
    } else {
        "false"@
    }
}

/// The literal of a boolean.
pub fn bool_text(value: bool) -> (result: String)
    ensures
        result@ == bool_literal(value),
{
    if value {
        "true".to_owned()
    } else {
        "false".to_owned()
    }
}

/// The literals of the first values of a list.
pub open spec fn value_literals(values: Seq<JsonValue>) -> Seq<Seq<char>>
    decreases values, 0nat,
{
    if values.len() == 0 {
        Seq::empty()
    } else {
        value_literals(values.drop_last()).push(value_literal(values.last()))
    }
}

/// The members of an object literal.
pub open spec fn member_literals(members: Seq<JsonMember>) -> Seq<Seq<char>>
    decreases members, 0nat,
{
    if members.len() == 0 {
        Seq::empty()
    } else {
        member_literals(members.drop_last()).push(
            object_key(members.last().name@) + ": "@ + value_literal(members.last().value),
        )
    }
}

/// The TypeScript literal of a JSON value.
pub open spec fn value_literal(value: JsonValue) -> Seq<char>
    decreases value, 1nat,
{
    match value {
        JsonValue::Null => "null"@,
        JsonValue::Bool(value) => bool_literal(value),
        JsonValue::Number(number) => number.text@,
        JsonValue::Text(text) => string_literal(text@),
        JsonValue::Array(values) => "["@ + crate::text::join(value_literals(values@), ", "@) + "]"@,
        JsonValue::Object(members) => "{ "@ + crate::text::join(member_literals(members@), ", "@)
            + " }"@,
    }
}

/// The TypeScript literal of a JSON value.
pub fn typescript_value_literal(value: &JsonValue) -> (literal: String)
    ensures
        literal@ == value_literal(*value),
    decreases value, 1nat,
{
    match value {
        JsonValue::Null => "null".to_owned(),
        JsonValue::Bool(value) => bool_text(*value),
        JsonValue::Number(number) => number.text.clone(),
        JsonValue::Text(text) => typescript_string_literal(text.as_str()),
        JsonValue::Array(values) => {
            let mut literals: Vec<String> = Vec::new();
            let mut i: usize = 0;
            while i < values.len()
                invariant
                    i <= values.len(),
                    *value == JsonValue::Array(*values),
                    crate::text::texts(literals@) == value_literals(values@.take(i as int)),
                decreases values.len() - i,
            {
                broadcast use crate::text::group_texts;

                assert(values@.take(i + 1).drop_last() =~= values@.take(i as int));
                proof {
                    crate::json_schema::value::lemma_element_smaller(*value, i as int);
                }
                literals.push(typescript_value_literal(&values[i]));
                i += 1;
            }
            assert(values@.take(i as int) =~= values@);
            "[".to_owned().concat(join_texts(&literals, ", ").as_str()).concat("]")
        },
        JsonValue::Object(members) => {
            let mut literals: Vec<String> = Vec::new();
            let mut i: usize = 0;
            while i < members.len()
                invariant
                    i <= members.len(),
                    *value == JsonValue::Object(*members),
                    crate::text::texts(literals@) == member_literals(members@.take(i as int)),
                decreases members.len() - i,
            {
                broadcast use crate::text::group_texts;

                assert(members@.take(i + 1).drop_last() =~= members@.take(i as int));
                proof {
                    crate::json_schema::value::lemma_member_smaller(*value, i as int);
                }
                let literal = typescript_value_literal(&members[i].value);
                literals.push(
                    typescript_object_key(members[i].name.as_str()).concat(": ").concat(
                        literal.as_str(),
                    ),
                );
                i += 1;
            }
            assert(members@.take(i as int) =~= members@);
            "{ ".to_owned().concat(join_texts(&literals, ", ").as_str()).concat(" }")
        },
    }
}

/// The literals of a list of values.
pub fn literals_of(values: &Vec<JsonValue>) -> (literals: Vec<String>)
    ensures
        crate::text::texts(literals@) == value_literals(values@),
{
    let mut literals: Vec<String> = Vec::new();
    let mut i: usize = 0;
    while i < values.len()
        invariant
            i <= values.len(),
            crate::text::texts(literals@) == value_literals(values@.take(i as int)),
        decreases values.len() - i,
    {
        broadcast use crate::text::group_texts;

        assert(values@.take(i + 1).drop_last() =~= values@.take(i as int));
        literals.push(typescript_value_literal(&values[i]));
        i += 1;
    }
    assert(values@.take(i as int) =~= values@);
    literals
}

/// The literal of a scalar in the type of an element.
pub open spec fn scalar_literal(value: JsonValue, integer: bool) -> Seq<char> {
    match value {
        JsonValue::Number(number) => bound_literal(number, integer),
        _ => value_literal(value),
    }
}

/// The literal of a scalar in the type of an element.
pub fn ts_scalar_literal(value: &JsonValue, integer: bool) -> (result: String)
    ensures
        result@ == scalar_literal(*value, integer),
{
    match value {
        JsonValue::Number(number) => ts_bound_literal(number, integer),
        _ => typescript_value_literal(value),
    }
}

/// The type that holds one JSON scalar alone.
pub open spec fn const_annotation(value: JsonValue) -> Option<Seq<char>> {
    match value {
        JsonValue::Null => Some("null"@),
        JsonValue::Bool(value) => Some(bool_literal(value)),
        JsonValue::Number(number) => Some(number.text@),
        JsonValue::Text(text) => Some(string_literal(text@)),
        _ => None,
    }
}

/// The type that holds one JSON scalar alone.
pub fn typescript_const_annotation(value: &JsonValue) -> (result: Option<String>)
    ensures
        crate::text::opt_text(result) == const_annotation(*value),
{
    match value {
        JsonValue::Null => Some("null".to_owned()),
        JsonValue::Bool(value) => Some(bool_text(*value)),
        JsonValue::Number(number) => Some(number.text.clone()),
        JsonValue::Text(text) => Some(typescript_string_literal(text.as_str())),
        _ => None,
    }
}

} // verus!
