//! What holds of the texts that generated modules are made of: literals, paths, names and the
//! modules themselves.

use vstd::prelude::*;

use crate::generation::ApiSpecNode;
use crate::json_schema::backend::Usage;
use crate::json_schema::runtime::{RuntimePatterns, RuntimeUses};
use crate::json_schema::schema::{AdditionalProperties, Property, Schema, TemporalKind};
use crate::json_schema::ts_text::{FormatCheck, JsonModel, RefName, TsContext};
use crate::json_schema::value::{JsonMember, JsonNumber, JsonValue};
use crate::output::TsDateTimeTypes;

verus! {

/// A value is written as the literal that stands for it.
pub proof fn law_literals_stand_for_their_value(value: JsonValue)
    ensures
        value is Null ==> crate::json_schema::ts_text::value_literal(value) == "null"@,
        value == JsonValue::Bool(true) ==> crate::json_schema::ts_text::value_literal(value) == "true"@,
        value == JsonValue::Bool(false) ==> crate::json_schema::ts_text::value_literal(value) == "false"@,
        value matches JsonValue::Number(number) ==> crate::json_schema::ts_text::value_literal(value)
            == number.text@,
        value matches JsonValue::Text(text) ==> crate::json_schema::ts_text::value_literal(value)
            == crate::json_schema::ts_text::string_literal(text@),
        value matches JsonValue::Array(values) ==> crate::json_schema::ts_text::value_literal(value) == "["@
            + crate::text::join(crate::json_schema::ts_text::value_literals(values@), ", "@) + "]"@,
        value matches JsonValue::Object(members) ==> crate::json_schema::ts_text::value_literal(value) == "{ "@
            + crate::text::join(crate::json_schema::ts_text::member_literals(members@), ", "@) + " }"@,
{
}

/// The elements and members of a literal are the literals of the elements and members, in their
/// order, each member under its key.
pub proof fn law_literals_keep_their_order(
    values: Seq<JsonValue>,
    members: Seq<JsonMember>,
    i: int,
)
    ensures
        crate::json_schema::ts_text::value_literals(values).len() == values.len(),
        0 <= i < values.len() ==> crate::json_schema::ts_text::value_literals(values)[i] == crate::json_schema::ts_text::value_literal(
            values[i],
        ),
        crate::json_schema::ts_text::member_literals(members).len() == members.len(),
        0 <= i < members.len() ==> crate::json_schema::ts_text::member_literals(members)[i]
            == crate::json_schema::ts_text::object_key(members[i].name@) + ": "@ + crate::json_schema::ts_text::value_literal(
            members[i].value,
        ),
    decreases values.len() + members.len(),
{
    if values.len() > 0 {
        law_literals_keep_their_order(values.drop_last(), members, i);
    } else if members.len() > 0 {
        law_literals_keep_their_order(values, members.drop_last(), i);
    }
}

/// A key stands bare where it is an identifier, and quoted where it is not.
pub proof fn law_keys_stand_bare_where_they_can(name: Seq<char>)
    ensures
        crate::json_schema::ts_text::is_identifier(name, true) ==> crate::json_schema::ts_text::object_key(name) == name,
        !crate::json_schema::ts_text::is_identifier(name, true) ==> crate::json_schema::ts_text::object_key(name)
            == crate::json_schema::ts_text::string_literal(name),
        crate::json_schema::ts_text::is_identifier(name, false) ==> crate::json_schema::ts_text::member_segment(name) == name,
        !crate::json_schema::ts_text::is_identifier(name, false) ==> crate::json_schema::ts_text::member_segment(name) == "[\""@
            + crate::text::replaced_char(crate::text::replaced_char(name, '\\', "\\\\"@), '"', "\\\""@) + "\"]"@,
        crate::json_schema::ts_text::is_identifier(name, false) ==> name.len() > 0 && !('0' <= name[0] <= '9'),
        crate::json_schema::ts_text::is_identifier(name, false) ==> forall|i: int|
            0 <= i < name.len() ==> 'a' <= #[trigger] name[i] <= 'z' || 'A' <= name[i] <= 'Z' || '0'
                <= name[i] <= '9' || name[i] == '_',
{
}

/// An element stands at the path of what holds it, with its index in brackets, whatever the path is
/// written as; an entry stands at its key.
pub proof fn law_elements_stand_at_their_index(path: Seq<char>, index: Seq<char>, key: Seq<char>)
    ensures
        crate::json_schema::ts_text::indexed_path("\""@ + path + "\""@, index) == "`"@ + path + "[${"@ + index
            + "}]`"@,
        crate::json_schema::ts_text::indexed_path("`"@ + path + "`"@, index) == "`"@ + path + "[${"@ + index
            + "}]`"@,
        !crate::text::has_prefix(path, "\""@) && !crate::text::has_prefix(path, "`"@) ==> crate::json_schema::ts_text::indexed_path(
            path,
            index,
        ) == "`${"@ + path + "}[${"@ + index + "}]`"@,
        crate::json_schema::ts_text::keyed_path(path, key) == crate::json_schema::ts_text::indexed_path(
            path,
            "JSON.stringify("@ + key + ")"@,
        ),
{
    reveal_strlit("\"");
    reveal_strlit("`");
    let quoted = "\""@ + path + "\""@;
    assert(quoted.take(1) =~= "\""@);
    assert(quoted.skip(1) =~= path + "\""@);
    assert((path + "\""@).skip(path.len() as int) =~= "\""@);
    assert((path + "\""@).take(path.len() as int) =~= path);
    let template = "`"@ + path + "`"@;
    assert(template.take(1) =~= "`"@);
    assert(template[0] == '`');
    assert("\""@[0] == '"');
    assert(template.take(1) != "\""@) by {
        assert(template.take(1)[0] == '`');
    }
    assert(template.skip(1) =~= path + "`"@);
    assert((path + "`"@).skip(path.len() as int) =~= "`"@);
    assert((path + "`"@).take(path.len() as int) =~= path);
}

/// Each depth has its own suffix, and what is inside is one deeper.
pub proof fn law_depths_have_their_own_suffix(depth: u64)
    ensures
        crate::json_schema::ts_text::depth_suffix(0) == Seq::<char>::empty(),
        depth > 0 ==> crate::json_schema::ts_text::depth_suffix(depth) == crate::unique::decimal(depth as nat),
        depth < u64::MAX ==> crate::json_schema::ts_text::deeper(depth) == depth + 1,
{
}

/// A member is read by its key in brackets, and asked for as a member of the object itself.
pub proof fn law_members_are_reached_by_their_key(object: Seq<char>, key: Seq<char>, model: Seq<char>)
    ensures
        crate::json_schema::ts_text::index_access(object, key) == object + "["@ + crate::json_schema::ts_text::string_literal(key)
            + "]"@,
        crate::json_schema::ts_text::has_own_text(object, key) == "Object.prototype.hasOwnProperty.call("@ + object
            + ", "@ + crate::json_schema::ts_text::string_literal(key) + ")"@,
        crate::json_schema::ts_text::converter_name(model) == crate::naming::lower_camel(model) + "TransferTypeConverter"@,
        crate::json_schema::ts_text::declared_const(model) == crate::naming::shouty_snake(model) + "_DECLARED"@,
{
}

/// In a template a backslash, a backtick and a dollar are escaped, and nothing else.
pub proof fn law_templates_are_escaped(text: Seq<char>, c: char)
    ensures
        crate::json_schema::ts_text::template_escaped(Seq::empty()) == Seq::<char>::empty(),
        c != '\\' && c != '`' && c != '$' ==> crate::json_schema::ts_text::template_escaped(text.push(c))
            == crate::json_schema::ts_text::template_escaped(text).push(c),
        c == '`' ==> crate::json_schema::ts_text::template_escaped(text.push(c)) == crate::json_schema::ts_text::template_escaped(
            text,
        ) + "\\`"@,
        c == '$' ==> crate::json_schema::ts_text::template_escaped(text.push(c)) == crate::json_schema::ts_text::template_escaped(
            text,
        ) + "\\$"@,
        c == '\\' ==> crate::json_schema::ts_text::template_escaped(text.push(c)) == crate::json_schema::ts_text::template_escaped(
            text,
        ) + "\\\\"@,
{
    let slashes = "\\\\"@;
    let tick = "\\`"@;
    let dollar = "\\$"@;
    reveal_strlit("\\\\");
    reveal_strlit("\\`");
    reveal_strlit("\\$");
    assert(slashes =~= seq!['\\', '\\']);
    assert(tick =~= seq!['\\', '`']);
    assert(dollar =~= seq!['\\', '$']);
    crate::characters::law_characters_are_replaced_where_they_stand(text, c, '\\', slashes);
    let first = crate::text::replaced_char(text, '\\', slashes);
    let second = crate::text::replaced_char(first, '`', tick);
    let third = crate::text::replaced_char(second, '$', dollar);
    crate::characters::law_characters_are_replaced_where_they_stand(text, c, '\\', slashes);
    if c == '\\' {
        assert(first + slashes =~= first.push('\\').push('\\'));
        lemma_kept(first, '\\', '`', tick);
        lemma_kept(first.push('\\'), '\\', '`', tick);
        lemma_kept(second, '\\', '$', dollar);
        lemma_kept(second.push('\\'), '\\', '$', dollar);
        assert(third + slashes =~= third.push('\\').push('\\'));
    } else {
        crate::characters::law_characters_are_replaced_where_they_stand(first, c, '`', tick);
        if c == '`' {
            assert(second + tick =~= second.push('\\').push('`'));
            lemma_kept(second, '\\', '$', dollar);
            lemma_kept(second.push('\\'), '`', '$', dollar);
            assert(third + tick =~= third.push('\\').push('`'));
        } else {
            crate::characters::law_characters_are_replaced_where_they_stand(second, c, '$', dollar);
        }
    }
    assert(crate::text::replaced_char(Seq::empty(), '\\', slashes) =~= Seq::empty());
    assert(crate::text::replaced_char(Seq::empty(), '`', tick) =~= Seq::empty());
    assert(crate::text::replaced_char(Seq::empty(), '$', dollar) =~= Seq::empty());
}

/// Another character stays.
proof fn lemma_kept(text: Seq<char>, c: char, wanted: char, by: Seq<char>)
    requires
        c != wanted,
    ensures
        crate::text::replaced_char(text.push(c), wanted, by) == crate::text::replaced_char(text, wanted, by).push(c),
{
    crate::characters::law_characters_are_replaced_where_they_stand(text, c, wanted, by);
}

/// The names that every object has are hidden, and no others.
pub proof fn law_prototype_names_are_hidden(name: Seq<char>)
    ensures
        crate::json_schema::ts_text::hides_prototype_member(name) <==> seq![
            "constructor"@,
            "hasOwnProperty"@,
            "isPrototypeOf"@,
            "propertyIsEnumerable"@,
            "toLocaleString"@,
            "toString"@,
            "valueOf"@,
            "__defineGetter__"@,
            "__defineSetter__"@,
            "__lookupGetter__"@,
            "__lookupSetter__"@,
            "__proto__"@,
        ].contains(name),
{
    let names = seq![
        "constructor"@,
        "hasOwnProperty"@,
        "isPrototypeOf"@,
        "propertyIsEnumerable"@,
        "toLocaleString"@,
        "toString"@,
        "valueOf"@,
        "__defineGetter__"@,
        "__defineSetter__"@,
        "__lookupGetter__"@,
        "__lookupSetter__"@,
        "__proto__"@,
    ];
    assert(names.len() == 12);
    assert(names[0] == "constructor"@ && names[1] == "hasOwnProperty"@ && names[2]
        == "isPrototypeOf"@ && names[3] == "propertyIsEnumerable"@);
    assert(names[4] == "toLocaleString"@ && names[5] == "toString"@ && names[6] == "valueOf"@
        && names[7] == "__defineGetter__"@);
    assert(names[8] == "__defineSetter__"@ && names[9] == "__lookupGetter__"@ && names[10]
        == "__lookupSetter__"@ && names[11] == "__proto__"@);
}

/// A pattern is named by the hash of its bytes, which takes them in one after the other; the digits
/// of the name are those of the hash.
pub proof fn law_patterns_are_named_by_their_hash(bytes: Seq<u8>, byte: u8, pattern: Seq<char>)
    ensures
        crate::json_schema::ts_text::fnv_hash(Seq::empty()) == 14695981039346656037u64,
        crate::json_schema::ts_text::fnv_hash(bytes.push(byte)) == (crate::json_schema::ts_text::fnv_hash(bytes) ^ (
        byte as u64)).wrapping_mul(1099511628211u64),
        crate::json_schema::ts_text::pattern_const(pattern) == "PATTERN_"@ + crate::json_schema::ts_text::hex_digits(
            crate::json_schema::ts_text::fnv_hash(vstd::utf8::encode_utf8(pattern)),
            16,
        ),
{
    assert(bytes.push(byte).drop_last() =~= bytes);
}

/// The value of an upper case hexadecimal digit.
pub open spec fn upper_value(c: char) -> int {
    if '0' <= c <= '9' {
        c as int - '0' as int
    } else {
        c as int - 'A' as int + 10
    }
}

/// The value of upper case hexadecimal digits.
pub open spec fn upper_digits_value(digits: Seq<char>) -> int
    decreases digits.len(),
{
    if digits.len() == 0 {
        0
    } else {
        upper_digits_value(digits.drop_last()) * 16 + upper_value(digits.last())
    }
}

/// The hexadecimal digits of a value have that value, where there are enough of them.
pub proof fn law_hexadecimal_digits_have_their_value(value: u64, digits: nat)
    ensures
        crate::json_schema::ts_text::hex_digits(value, digits).len() == digits,
        value < vstd::arithmetic::power::pow(16, digits) ==> upper_digits_value(
            crate::json_schema::ts_text::hex_digits(value, digits),
        ) == value,
    decreases digits,
{
    reveal(vstd::arithmetic::power::pow);
    if digits > 0 {
        let before = (digits - 1) as nat;
        law_hexadecimal_digits_have_their_value(value / 16, before);
        let all = crate::json_schema::ts_text::hex_digits(value, digits);
        assert(all.drop_last() =~= crate::json_schema::ts_text::hex_digits(value / 16, before));
        assert(upper_value(crate::json_schema::ts_text::upper_hex(value % 16)) == value % 16);
        if value < vstd::arithmetic::power::pow(16, digits) {
            let power = vstd::arithmetic::power::pow(16, before);
            assert(vstd::arithmetic::power::pow(16, digits) == 16 * power);
            assert(value / 16 < power);
        }
    }
}

/// A reference is the model that was registered for it last; else the last part of the reference, in
/// upper camel case.
pub proof fn law_references_name_what_was_registered(ctx: TsContext, reference: Seq<char>, i: int)
    ensures
        0 <= i < ctx.ref_names@.len() && ctx.ref_names@[i].reference@ == reference && (forall|
            k: int,
        |
            i < k < ctx.ref_names@.len() ==> (#[trigger] ctx.ref_names@[k]).reference@ != reference)
            ==> crate::json_schema::ts_text::referenced_model(ctx, reference) == ctx.ref_names@[i].name@,
        (forall|k: int|
            0 <= k < ctx.ref_names@.len() ==> (#[trigger] ctx.ref_names@[k]).reference@
                != reference) ==> crate::json_schema::ts_text::referenced_model(ctx, reference) == crate::naming::upper_camel(
            crate::text::last_segment(crate::text::last_segment(reference, '#'), '/'),
        ),
{
    lemma_registered(ctx.ref_names@, reference, i);
}

/// The last registration holds.
proof fn lemma_registered(names: Seq<RefName>, reference: Seq<char>, i: int)
    ensures
        0 <= i < names.len() && names[i].reference@ == reference && (forall|k: int|
            i < k < names.len() ==> (#[trigger] names[k]).reference@ != reference)
            ==> crate::json_schema::ts_text::registered_name(names, reference) == Some(names[i].name@),
        (forall|k: int|
            0 <= k < names.len() ==> (#[trigger] names[k]).reference@ != reference)
            ==> crate::json_schema::ts_text::registered_name(names, reference) is None,
    decreases names.len(),
{
    if names.len() > 0 {
        let before = names.drop_last();
        lemma_registered(before, reference, i);
        assert forall|k: int| 0 <= k < before.len() implies #[trigger] before[k] == names[k] by {}
        assert(names[names.len() - 1] == names.last());
        if i < names.len() - 1 {
            assert(i >= 0 ==> before[i] == names[i]);
        }
    }
}

/// A format is checked by the first check that is registered for it.
pub proof fn law_formats_are_checked_by_their_first_check(
    formats: Seq<FormatCheck>,
    format: Seq<char>,
    i: int,
)
    ensures
        0 <= i < formats.len() && formats[i].format@ == format && (forall|k: int|
            0 <= k < i ==> (#[trigger] formats[k]).format@ != format) ==> crate::json_schema::ts_text::format_check(
            formats,
            format,
        ) == Some(formats[i]),
        (forall|k: int| 0 <= k < formats.len() ==> (#[trigger] formats[k]).format@ != format)
            ==> crate::json_schema::ts_text::format_check(formats, format) is None,
    decreases formats.len(),
{
    if formats.len() > 0 {
        let rest = formats.drop_first();
        law_formats_are_checked_by_their_first_check(rest, format, i - 1);
        assert forall|k: int| 0 <= k < rest.len() implies #[trigger] rest[k] == formats[k + 1] by {}
        if i > 0 && i < formats.len() {
            assert(rest[i - 1] == formats[i]);
        }
        if i > 0 && (forall|k: int| 0 <= k < i ==> (#[trigger] formats[k]).format@ != format) {
            assert(formats[0].format@ != format);
        }
        if forall|k: int| 0 <= k < formats.len() ==> (#[trigger] formats[k]).format@ != format {
            assert(formats[0].format@ != format);
        }
    }
}

/// A type of several members is put in brackets before it is an array; any other is not.
pub proof fn law_union_types_are_bracketed_in_arrays(annotation: Seq<char>)
    ensures
        crate::json_schema::annotation::union_members(annotation).len() > 1 ==> crate::json_schema::annotation::element_type(
            annotation,
        ) == "("@ + annotation + ")"@,
        crate::json_schema::annotation::union_members(annotation).len() == 1 ==> crate::json_schema::annotation::element_type(
            annotation,
        ) == annotation,
        crate::json_schema::annotation::has_part(annotation, "undefined"@) ==> crate::json_schema::annotation::optional_type(
            annotation,
        ) == annotation,
        !crate::json_schema::annotation::has_part(annotation, "undefined"@) ==> crate::json_schema::annotation::optional_type(
            annotation,
        ) == annotation + " | undefined"@,
{
}

/// The modules of the runtime are imported where they are used: the definitions where the body names
/// them, the factory of errors where a model has a converter of its own.
#[verifier::rlimit(40)]
pub proof fn law_imports_follow_from_use(module: Seq<char>, body: Seq<char>, factory: bool)
    ensures
        ({
            let imports = crate::json_schema::backend::model_imports(module, body, factory);
            &&& factory ==> crate::json_schema::annotation::has_part(
                imports,
                "import { createPayloadValidationError } from \"@temporalio/common\";\n"@,
            )
            &&& crate::json_schema::annotation::has_part(body, "__nexgenDefinitions"@) ==> crate::json_schema::annotation::has_part(
                imports,
                "import * as __nexgenDefinitions from \""@ + module + "\";\n"@,
            )
            &&& !factory && !crate::json_schema::annotation::has_part(body, "__nexgenDefinitions"@) ==> imports
                == "import type { TransferTypeConverter } from \"nexus-rpc\";\n"@
            &&& crate::text::has_prefix(
                imports,
                "import type { TransferTypeConverter } from \"nexus-rpc\";\n"@,
            )
        }),
{
    let imports = crate::json_schema::backend::model_imports(module, body, factory);
    let first = "import type { TransferTypeConverter } from \"nexus-rpc\";\n"@;
    let second = "import { createPayloadValidationError } from \"@temporalio/common\";\n"@;
    let third = "import * as __nexgenDefinitions from \""@ + module + "\";\n"@;
    crate::json_schema::sides::lemma_part_stays(second);
    crate::json_schema::sides::lemma_part_stays(third);
    assert(imports.take(first.len() as int) =~= first);
    if !factory && !crate::json_schema::annotation::has_part(body, "__nexgenDefinitions"@) {
        assert(imports =~= first);
    }
}

/// A module exports the type and the converter of each of its models, in their order.
pub proof fn law_models_are_exported(models: Seq<JsonModel>, i: int)
    requires
        0 <= i < models.len(),
    ensures
        crate::json_schema::backend::exported_type_names(models).len() == models.len(),
        crate::json_schema::backend::exported_type_names(models)[i] == models[i].model_name@,
        crate::json_schema::backend::exported_converter_names(models).len() == models.len(),
        crate::json_schema::backend::exported_converter_names(models)[i] == crate::naming::lower_camel(models[i].model_name@)
            + "TransferTypeConverter"@,
    decreases models.len(),
{
    let before = models.drop_last();
    if models.len() > 1 {
        if i < models.len() - 1 {
            law_models_are_exported(before, i);
        } else {
            law_models_are_exported(before, 0);
        }
    } else {
        assert(crate::json_schema::backend::exported_type_names(before) =~= Seq::empty());
        assert(crate::json_schema::backend::exported_converter_names(before) =~= Seq::empty());
    }
}

/// The module of the runtime stands at the root: as many steps up as the module is deep.
pub proof fn law_runtime_stands_at_the_root(depth: usize)
    ensures
        crate::json_schema::backend::runtime_import(0) == "definitions"@,
        depth < usize::MAX ==> crate::json_schema::backend::steps_up_text((depth + 1) as usize)
            == crate::json_schema::backend::steps_up_text(depth) + "../"@,
        crate::json_schema::backend::runtime_import(depth) == crate::json_schema::backend::steps_up_text(depth) + "definitions"@,
        crate::json_schema::backend::steps_up_text(0).len() == 0,
{
    assert(Seq::<char>::empty() + "definitions"@ =~= "definitions"@);
}

/// The runtime is written as `definitions.ts` where there is one, and exported from the root.
pub proof fn law_runtime_is_written_where_there_is_one(runtime: Seq<char>)
    ensures
        crate::json_schema::backend::support_of(Some(runtime)).files == seq![("definitions.ts"@, runtime)],
        crate::json_schema::backend::support_of(Some(runtime)).root_exports == seq![
            "export type { Violation } from './definitions';"@,
        ],
        crate::json_schema::backend::support_of(None).files.len() == 0,
        crate::json_schema::backend::support_of(None).root_exports.len() == 0,
{
}

/// What the runtime is made of.
proof fn lemma_runtime_text(
    header: Seq<char>,
    gap: Seq<char>,
    core: Seq<char>,
    collect: Seq<char>,
    counting: Seq<char>,
    temporal: Seq<char>,
    encoding: Seq<char>,
    uses: RuntimeUses,
)
    ensures
        ({
            let start = header + gap + core + "\n"@ + collect;
            let text = start + (if uses.code_point_length {
                "\n"@ + counting
            } else {
                Seq::empty()
            }) + (if uses.temporal {
                "\n"@ + temporal
            } else {
                Seq::empty()
            }) + (if uses.content_encoding {
                "\n"@ + encoding
            } else {
                Seq::empty()
            });
            &&& crate::text::has_prefix(text, header)
            &&& uses.temporal ==> crate::json_schema::annotation::has_part(text, temporal)
            &&& uses.content_encoding ==> crate::json_schema::annotation::has_part(text, encoding)
            &&& uses.code_point_length ==> crate::json_schema::annotation::has_part(text, counting)
            &&& !uses.temporal && !uses.content_encoding && !uses.code_point_length ==> text
                == start
        }),
{
    let none = Seq::<char>::empty();
    let start = header + gap + core + "\n"@ + collect;
    let a = if uses.code_point_length {
        "\n"@ + counting
    } else {
        none
    };
    let b = if uses.temporal {
        "\n"@ + temporal
    } else {
        none
    };
    let c = if uses.content_encoding {
        "\n"@ + encoding
    } else {
        none
    };
    let text = start + a + b + c;
    assert(text.take(header.len() as int) =~= header);
    if uses.code_point_length {
        assert(text =~= (start + "\n"@) + counting + (b + c));
        crate::json_schema::sides::lemma_part_of(start + "\n"@, counting, b + c);
    }
    if uses.temporal {
        assert(text =~= (start + a + "\n"@) + temporal + c);
        crate::json_schema::sides::lemma_part_of(start + a + "\n"@, temporal, c);
    }
    if uses.content_encoding {
        assert(text =~= (start + a + b + "\n"@) + encoding + none);
        crate::json_schema::sides::lemma_part_of(start + a + b + "\n"@, encoding, none);
    }
    if !uses.temporal && !uses.content_encoding && !uses.code_point_length {
        assert(text =~= start);
    }
}

/// The runtime has the helpers that are used, and no others.
pub proof fn law_runtime_has_the_helpers_that_are_used(
    header: Seq<char>,
    patterns: RuntimePatterns,
    repr: TsDateTimeTypes,
    uses: RuntimeUses,
)
    ensures
        ({
            let text = crate::json_schema::runtime::runtime_module(header, patterns, repr, uses);
            let start = header
                + "\n\nimport { ApplicationFailure } from \"@temporalio/common\";\n\n"@
                + crate::json_schema::runtime::validator_core() + "\n"@ + crate::json_schema::runtime::collect_helper();
            &&& crate::text::has_prefix(text, header)
            &&& uses.temporal ==> crate::json_schema::annotation::has_part(
                text,
                crate::json_schema::runtime::temporal_helpers(patterns, repr),
            )
            &&& uses.content_encoding ==> crate::json_schema::annotation::has_part(
                text,
                crate::json_schema::runtime::content_encoding_helpers(patterns),
            )
            &&& uses.code_point_length ==> crate::json_schema::annotation::has_part(
                text,
                crate::json_schema::runtime::code_point_length_helper(),
            )
            &&& !uses.temporal && !uses.content_encoding && !uses.code_point_length ==> text
                == start
        }),
{
    lemma_runtime_text(
        header,
        "\n\nimport { ApplicationFailure } from \"@temporalio/common\";\n\n"@,
        crate::json_schema::runtime::validator_core(),
        crate::json_schema::runtime::collect_helper(),
        crate::json_schema::runtime::code_point_length_helper(),
        crate::json_schema::runtime::temporal_helpers(patterns, repr),
        crate::json_schema::runtime::content_encoding_helpers(patterns),
        uses,
    );
}

/// Each kind of temporal text is matched by its own pattern.
pub proof fn law_kinds_are_matched_by_their_own_pattern(
    patterns: RuntimePatterns,
    repr: TsDateTimeTypes,
)
    ensures
        crate::text::has_prefix(
            crate::json_schema::runtime::temporal_helpers(patterns, repr),
            "const TEMPORAL_DATE_TIME_RE = /"@ + patterns.date_time@
                + "/u;\nconst TEMPORAL_DATE_RE = /"@ + patterns.date@
                + "/u;\nconst TEMPORAL_TIME_RE = /"@ + patterns.time@
                + "/u;\nconst TEMPORAL_DURATION_RE = /"@ + patterns.duration@ + "/u;\n"@,
        ),
        crate::text::has_prefix(
            crate::json_schema::runtime::content_encoding_helpers(patterns),
            "const BASE64_RE = /"@ + patterns.base64@ + "/u;\nconst BASE64URL_RE = /"@
                + patterns.base64_url@ + "/u;\n"@,
        ),
        crate::text::has_prefix(
            crate::json_schema::runtime::temporal_refusal_texts(TemporalKind::DateTime),
            "  if ("@ + "!TEMPORAL_DATE_TIME_RE.test(value) || !validTemporalCalendar(value)"@
                + ") {\n    violations.push({ path, reason: `must be a valid "@ + "date-time"@,
        ),
        crate::text::has_prefix(
            crate::json_schema::runtime::temporal_refusal_texts(TemporalKind::Date),
            "  if ("@ + "!TEMPORAL_DATE_RE.test(value) || !validTemporalCalendar(value)"@
                + ") {\n    violations.push({ path, reason: `must be a valid "@ + "date"@,
        ),
        crate::text::has_prefix(
            crate::json_schema::runtime::temporal_refusal_texts(TemporalKind::Time),
            "  if ("@ + "!TEMPORAL_TIME_RE.test(value)"@
                + ") {\n    violations.push({ path, reason: `must be a valid "@ + "time"@,
        ),
        crate::text::has_prefix(
            crate::json_schema::runtime::temporal_refusal_texts(TemporalKind::Duration),
            "  if ("@ + "!TEMPORAL_DURATION_RE.test(value)"@
                + ") {\n    violations.push({ path, reason: `must be a valid "@ + "duration"@,
        ),
{
    let regexes = "const TEMPORAL_DATE_TIME_RE = /"@ + patterns.date_time@
        + "/u;\nconst TEMPORAL_DATE_RE = /"@ + patterns.date@
        + "/u;\nconst TEMPORAL_TIME_RE = /"@ + patterns.time@
        + "/u;\nconst TEMPORAL_DURATION_RE = /"@ + patterns.duration@ + "/u;\n"@;
    let helpers = crate::json_schema::runtime::temporal_helpers(patterns, repr);
    assert(helpers.take(regexes.len() as int) =~= regexes);
    let encodings = "const BASE64_RE = /"@ + patterns.base64@ + "/u;\nconst BASE64URL_RE = /"@
        + patterns.base64_url@ + "/u;\n"@;
    let codec = crate::json_schema::runtime::content_encoding_helpers(patterns);
    assert(codec.take(encodings.len() as int) =~= encodings);
    lemma_refusal(
        "!TEMPORAL_DATE_TIME_RE.test(value) || !validTemporalCalendar(value)"@,
        "date-time"@,
        Seq::empty(),
    );
    lemma_refusal(
        "!TEMPORAL_DATE_RE.test(value) || !validTemporalCalendar(value)"@,
        "date"@,
        Seq::empty(),
    );
    lemma_refusal("!TEMPORAL_TIME_RE.test(value)"@, "time"@, Seq::empty());
    lemma_refusal(
        "!TEMPORAL_DURATION_RE.test(value)"@,
        "duration"@,
        "  const seconds = temporalDurationSeconds(value);\n"@,
    );
    let text = crate::json_schema::runtime::temporal_refusal_texts(TemporalKind::Duration);
    let head = "  if ("@ + "!TEMPORAL_DURATION_RE.test(value)"@
        + ") {\n    violations.push({ path, reason: `must be a valid "@ + "duration"@;
    assert(text.take(head.len() as int) =~= head);
}

/// What a refusal starts with.
proof fn lemma_refusal(condition: Seq<char>, what: Seq<char>, more: Seq<char>)
    ensures
        crate::text::has_prefix(
            crate::json_schema::runtime::refusal_text(condition, what),
            "  if ("@ + condition + ") {\n    violations.push({ path, reason: `must be a valid "@
                + what,
        ),
{
    let text = crate::json_schema::runtime::refusal_text(condition, what);
    let head = "  if ("@ + condition + ") {\n    violations.push({ path, reason: `must be a valid "@
        + what;
    assert(text.take(head.len() as int) =~= head);
}

/// A schema uses what any part of it uses: a member, an item, a branch, and what its map holds.
pub proof fn law_parts_are_used(ctx: TsContext, schema: Schema, usage: Usage, i: int)
    ensures
        crate::json_schema::backend::own_use(ctx, schema, usage) ==> crate::json_schema::backend::used_by(ctx, schema, usage),
        schema.properties matches Some(properties) ==> (0 <= i < properties@.len()
            && crate::json_schema::backend::used_by(ctx, properties@[i].schema, usage) ==> crate::json_schema::backend::used_by(
            ctx,
            schema,
            usage,
        )),
        schema.items matches Some(items) ==> (crate::json_schema::backend::used_by(ctx, *items, usage)
            ==> crate::json_schema::backend::used_by(ctx, schema, usage)),
        schema.one_of matches Some(branches) ==> (0 <= i < branches@.len() && crate::json_schema::backend::used_by(
            ctx,
            branches@[i],
            usage,
        ) ==> crate::json_schema::backend::used_by(ctx, schema, usage)),
        schema.additional_properties matches Some(AdditionalProperties::Matching(members)) ==> (
        crate::json_schema::backend::used_by(ctx, *members, usage) ==> crate::json_schema::backend::used_by(ctx, schema, usage)),
{
    match schema.properties {
        Some(properties) => {
            if 0 <= i < properties@.len() {
                lemma_property_used(ctx, properties@, usage, i);
            }
        },
        None => {},
    }
    match schema.one_of {
        Some(branches) => {
            if 0 <= i < branches@.len() {
                lemma_branch_used(ctx, branches@, usage, i);
            }
        },
        None => {},
    }
    assert(crate::json_schema::backend::used_by(ctx, schema, usage) == crate::json_schema::backend::used_by(ctx, schema, usage));
}

/// What a member uses is used.
proof fn lemma_property_used(ctx: TsContext, properties: Seq<Property>, usage: Usage, i: int)
    requires
        0 <= i < properties.len(),
    ensures
        crate::json_schema::backend::used_by(ctx, properties[i].schema, usage) ==> crate::json_schema::backend::some_property_uses(
            ctx,
            properties,
            usage,
        ),
    decreases properties.len(),
{
    if i < properties.len() - 1 {
        lemma_property_used(ctx, properties.drop_last(), usage, i);
    }
}

/// What a branch uses is used.
proof fn lemma_branch_used(ctx: TsContext, branches: Seq<Schema>, usage: Usage, i: int)
    requires
        0 <= i < branches.len(),
    ensures
        crate::json_schema::backend::used_by(ctx, branches[i], usage) ==> crate::json_schema::backend::some_branch_uses(
            ctx,
            branches,
            usage,
        ),
    decreases branches.len(),
{
    if i < branches.len() - 1 {
        lemma_branch_used(ctx, branches.drop_last(), usage, i);
    }
}

/// The helpers are used by what they are for: temporal strings, encoded bytes, and lengths.
pub proof fn law_helpers_are_used_by_what_they_are_for(ctx: TsContext, schema: Schema)
    ensures
        crate::json_schema::backend::own_use(ctx, schema, Usage::Temporal) <==> crate::json_schema::schema::temporal_kind_of(schema)
            is Some,
        crate::json_schema::backend::own_use(ctx, schema, Usage::ContentEncoding)
            <==> crate::json_schema::schema::content_encoding_of(schema) is Some,
        schema.max_length is Some ==> crate::json_schema::backend::own_use(ctx, schema, Usage::CodePointLength),
        schema.min_length matches Some(min) ==> (min > 0 ==> crate::json_schema::backend::own_use(
            ctx,
            schema,
            Usage::CodePointLength,
        )),
{
}

/// A pattern is declared under its own name as the literal that matches it.
pub proof fn law_patterns_are_declared_under_their_name(patterns: Seq<Seq<char>>, i: int)
    requires
        0 <= i < patterns.len(),
    ensures
        crate::json_schema::ts_text::regex_literal(patterns[i]) matches Some(literal) ==> crate::json_schema::annotation::has_part(
            crate::json_schema::backend::pattern_declaration_texts(patterns),
            "const "@ + crate::json_schema::ts_text::pattern_const(patterns[i]) + " = "@ + literal + ";\n"@,
        ),
        crate::json_schema::ts_text::regex_literal(patterns[i]) is None ==> crate::json_schema::annotation::has_part(
            crate::json_schema::backend::pattern_declaration_texts(patterns),
            "const "@ + crate::json_schema::ts_text::pattern_const(patterns[i]) + " = new RegExp("@
                + crate::json_schema::ts_text::string_literal(patterns[i]) + ", \"u\");\n"@,
        ),
    decreases patterns.len(),
{
    let name = crate::json_schema::ts_text::pattern_const(patterns[i]);
    let part = match crate::json_schema::ts_text::regex_literal(patterns[i]) {
        Some(literal) => "const "@ + name + " = "@ + literal + ";\n"@,
        None => "const "@ + name + " = new RegExp("@ + crate::json_schema::ts_text::string_literal(patterns[i])
            + ", \"u\");\n"@,
    };
    crate::json_schema::sides::lemma_part_stays(part);
    if i < patterns.len() - 1 {
        law_patterns_are_declared_under_their_name(patterns.drop_last(), i);
    }
}

/// A tree has models where one of its leaves has.
pub proof fn law_trees_have_the_models_of_their_leaves(
    children: Vec<ApiSpecNode<bool>>,
    found: bool,
    i: int,
)
    ensures
        crate::json_schema::backend::has_json_models(ApiSpecNode::Leaf(found)) == found,
        0 <= i < children@.len() && crate::json_schema::backend::has_json_models(children@[i])
            ==> crate::json_schema::backend::has_json_models(ApiSpecNode::Branch(children)),
        (forall|k: int|
            0 <= k < children@.len() ==> !crate::json_schema::backend::has_json_models(#[trigger] children@[k]))
            ==> !crate::json_schema::backend::has_json_models(ApiSpecNode::Branch(children)),
{
    let node = ApiSpecNode::Branch(children);
    assert(crate::json_schema::backend::has_json_models(node) == crate::json_schema::backend::some_child_has_models(
        node,
        children@.len(),
    ));
    lemma_some_child(children, children@.len(), i);
}

/// Some child has models where one of them has.
proof fn lemma_some_child(children: Vec<ApiSpecNode<bool>>, count: nat, i: int)
    requires
        count <= children@.len(),
    ensures
        0 <= i < count && crate::json_schema::backend::has_json_models(children@[i])
            ==> crate::json_schema::backend::some_child_has_models(ApiSpecNode::Branch(children), count),
        (forall|k: int|
            0 <= k < count ==> !crate::json_schema::backend::has_json_models(#[trigger] children@[k]))
            ==> !crate::json_schema::backend::some_child_has_models(ApiSpecNode::Branch(children), count),
    decreases count,
{
    reveal_with_fuel(crate::json_schema::backend::some_child_has_models, 2);
    if count > 0 {
        lemma_some_child(children, (count - 1) as nat, i);
    }
}

/// Scalars are the same where they are written alike, a decimal zero with either sign is one value,
/// and values of different kinds differ.
pub proof fn law_same_scalars_are_written_alike(
    left: JsonNumber,
    right: JsonNumber,
    a: String,
    b: String,
    p: bool,
    q: bool,
)
    ensures
        crate::json_schema::value::same_value(JsonValue::Text(a), JsonValue::Text(b)) <==> a@ == b@,
        crate::json_schema::value::same_value(JsonValue::Bool(p), JsonValue::Bool(q)) <==> p == q,
        crate::json_schema::value::same_value(JsonValue::Null, JsonValue::Null),
        left.text@ == right.text@ ==> crate::json_schema::value::same_value(
            JsonValue::Number(left),
            JsonValue::Number(right),
        ),
        left.text@ != right.text@ && left.text@ != "0.0"@ && left.text@ != "-0.0"@
            ==> !crate::json_schema::value::same_value(JsonValue::Number(left), JsonValue::Number(right)),
        left.text@ == "0.0"@ && right.text@ == "-0.0"@ ==> crate::json_schema::value::same_value(
            JsonValue::Number(left),
            JsonValue::Number(right),
        ),
        !crate::json_schema::value::same_value(JsonValue::Text(a), JsonValue::Number(left)),
        !crate::json_schema::value::same_value(JsonValue::Text(a), JsonValue::Bool(p)),
        !crate::json_schema::value::same_value(JsonValue::Number(left), JsonValue::Bool(p)),
        !crate::json_schema::value::same_value(JsonValue::Null, JsonValue::Bool(p)),
{
}

/// A member is the first one of its name.
pub proof fn law_members_are_found_by_their_name(members: Seq<JsonMember>, name: Seq<char>, i: int)
    ensures
        0 <= i < members.len() && members[i].name@ == name && (forall|k: int|
            0 <= k < i ==> (#[trigger] members[k]).name@ != name) ==> crate::json_schema::value::member_index(
            members,
            name,
        ) == Some(i),
        (forall|k: int| 0 <= k < members.len() ==> (#[trigger] members[k]).name@ != name)
            ==> crate::json_schema::value::member_index(members, name) is None,
    decreases members.len(),
{
    if members.len() > 0 {
        let before = members.drop_last();
        law_members_are_found_by_their_name(before, name, i);
        assert forall|k: int| 0 <= k < before.len() implies #[trigger] before[k] == members[k] by {}
        assert(members[members.len() - 1] == members.last());
        if i == members.len() - 1 {
            if forall|k: int| 0 <= k < i ==> (#[trigger] members[k]).name@ != name {
                assert forall|k: int| 0 <= k < before.len() implies (#[trigger] before[k]).name@
                    != name by {
                    assert(before[k] == members[k]);
                }
            }
        }
    }
}

/// A number is cut at its point and at its exponent mark, behind its sign.
pub proof fn law_numbers_are_cut_at_their_marks(whole: Seq<char>, fraction: Seq<char>, exponent: Seq<char>)
    requires
        forall|i: int|
            0 <= i < whole.len() ==> #[trigger] whole[i] != 'e' && whole[i] != 'E' && whole[i]
                != '.' && whole[i] != '-',
        forall|i: int|
            0 <= i < fraction.len() ==> #[trigger] fraction[i] != 'e' && fraction[i] != 'E',
        whole.len() > 0,
    ensures
        ({
            let text = whole + seq!['.'] + fraction + seq!['e'] + exponent;
            let parts = crate::json_schema::number::decimal_parts(text);
            &&& !parts.negative
            &&& parts.whole == whole
            &&& parts.fraction == fraction
            &&& parts.exponent == crate::json_schema::number::exponent_value(exponent)
            &&& crate::json_schema::number::decimal_parts(seq!['-'] + text).negative
            &&& crate::json_schema::number::decimal_parts(seq!['-'] + text).whole == whole
            &&& crate::json_schema::number::decimal_parts(seq!['-'] + text).fraction == fraction
        }),
{
    let mantissa = whole + seq!['.'] + fraction;
    let text = whole + seq!['.'] + fraction + seq!['e'] + exponent;
    assert(text =~= mantissa + seq!['e'] + exponent);
    assert forall|k: int| 0 <= k < mantissa.len() implies #[trigger] mantissa[k] != 'e' by {
        if k < whole.len() {
            assert(mantissa[k] == whole[k]);
        } else if k > whole.len() {
            assert(mantissa[k] == fraction[k - whole.len() - 1]);
        }
    }
    lemma_index_of(mantissa, 'e', exponent);
    assert forall|k: int| 0 <= k < whole.len() implies #[trigger] whole[k] != '.' by {}
    assert(mantissa =~= whole + seq!['.'] + fraction);
    lemma_index_of(whole, '.', fraction);
    assert(text[0] == whole[0]);
    assert(text.take(mantissa.len() as int) =~= mantissa);
    assert(text.skip(mantissa.len() as int + 1) =~= exponent);
    assert(mantissa.take(whole.len() as int) =~= whole);
    assert(mantissa.skip(whole.len() as int + 1) =~= fraction);
    assert((seq!['-'] + text).skip(1) =~= text);
    assert((seq!['-'] + text)[0] == '-');
}

/// The first place of a mark is behind what has none.
proof fn lemma_index_of(before: Seq<char>, mark: char, after: Seq<char>)
    requires
        forall|k: int| 0 <= k < before.len() ==> #[trigger] before[k] != mark,
    ensures
        crate::text::first_index(before + seq![mark] + after, mark) == before.len(),
{
    let text = before + seq![mark] + after;
    crate::characters::law_first_index_is_the_first(text, mark);
    let at = crate::text::first_index(text, mark);
    assert(text[before.len() as int] == mark);
    if at < before.len() {
        assert(text[at] == before[at]);
    }
}

/// An exponent is signed, and has the value of its digits.
pub proof fn law_exponents_are_signed(digits: Seq<char>, value: int)
    requires
        digits.len() <= 4,
        crate::json_schema::number::digits_value(digits) == Some(value),
        digits.len() > 0 ==> digits[0] != '-' && digits[0] != '+',
    ensures
        crate::json_schema::number::exponent_value(digits) == Some(value),
        crate::json_schema::number::exponent_value(seq!['+'] + digits) == Some(value),
        crate::json_schema::number::exponent_value(seq!['-'] + digits) == Some(-value),
{
    assert((seq!['+'] + digits).skip(1) =~= digits);
    assert((seq!['-'] + digits).skip(1) =~= digits);
    assert((seq!['-'] + digits)[0] == '-');
    assert((seq!['+'] + digits)[0] == '+');
}

/// The decimal point is moved by the exponent: digits are dropped behind it, and zeros added before.
pub proof fn law_points_are_moved_by_their_exponent(digits: Seq<char>, point: int)
    ensures
        point <= 0 ==> crate::json_schema::number::digits_before(digits, point).len() == 0,
        point > 0 ==> crate::json_schema::number::digits_before(digits, point).len() == point,
        forall|k: int|
            0 <= k < point && k < digits.len() ==> #[trigger] crate::json_schema::number::digits_before(
                digits,
                point,
            )[k] == digits[k],
        forall|k: int|
            digits.len() <= k < point ==> #[trigger] crate::json_schema::number::digits_before(digits, point)[k]
                == '0',
        crate::json_schema::number::signed_number(true, digits) == if digits.len() == 0 {
            seq!['0']
        } else {
            seq!['-'] + digits
        },
        digits.len() > 0 ==> crate::json_schema::number::signed_number(false, digits) == digits,
        digits.len() > 0 && digits[0] != '0' ==> crate::json_schema::number::significant_digits(digits) == digits,
        crate::json_schema::number::significant_digits(seq!['0'] + digits) == crate::json_schema::number::significant_digits(digits),
{
    assert((seq!['0'] + digits).drop_first() =~= digits);
}

} // verus!
