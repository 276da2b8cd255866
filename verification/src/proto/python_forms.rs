//! What generated Python is made of: the modules of its messages, the types that it names, the
//! variants that it writes and the converters that it declares.

use vstd::prelude::*;

use crate::plan::{
    PlannedProtoTypeInfo, PlannedRecord, PlannedRecordField, PlannedType, PlannedWireFieldBinding,
    PlannedWireVariantMember,
};
use crate::proto::python::{PlannedVariant, RenderedField, RenderedModel};

verus! {

/// A message is found in the module of its file, with dots for slashes and `_pb2` for the ending;
/// what is of Temporal is found in the package of its SDK.
pub proof fn law_messages_are_found_in_the_module_of_their_file(file: Seq<char>, package: Seq<char>)
    ensures
        ({
            let dotted = crate::text::replaced_char(file, '/', "."@);
            &&& crate::text::without_suffix(dotted, ".proto"@) matches Some(stem) ==> (
            crate::text::without_prefix(stem + "_pb2"@, "temporal."@) is None ==> crate::proto::python::module_path_of(
                Some(file),
                package,
            ) == Some(stem + "_pb2"@))
            &&& crate::text::without_suffix(dotted, ".proto"@) matches Some(stem) ==> (
            crate::text::without_prefix(stem + "_pb2"@, "temporal."@) matches Some(rest)
                ==> crate::proto::python::module_path_of(Some(file), package) == Some("temporalio."@ + rest))
            &&& crate::text::without_suffix(dotted, ".proto"@) is None && crate::text::without_prefix(
                dotted,
                "temporal."@,
            ) is None ==> crate::proto::python::module_path_of(Some(file), package) == Some(dotted)
            &&& package.len() == 0 ==> crate::proto::python::module_path_of(None, package) is None
            &&& package.len() > 0 && crate::text::without_prefix(package, "temporal."@) is None
                ==> crate::proto::python::module_path_of(None, package) == Some(package)
            &&& crate::text::without_prefix(package, "temporal."@) matches Some(rest) ==> package.len() > 0
                ==> crate::proto::python::module_path_of(None, package) == Some("temporalio."@ + rest)
        }),
{
}

/// A message is named by its module and its name below its package; an enumeration by the type of
/// its values.
pub proof fn law_types_are_named_by_their_module(info: PlannedProtoTypeInfo)
    ensures
        ({
            let module = crate::proto::python::module_path_of(crate::text::opt_text(info.file_name), info.package@);
            let name = crate::plan::relative_name_text(info.full_name@, info.package@);
            &&& module is None ==> crate::proto::python::message_reference(info) is None && crate::proto::python::enum_reference(info)
                is None
            &&& module matches Some(module) ==> (crate::proto::python::message_reference(info) matches Some(found)
                && found.module == module && found.type_ref == module + "."@ + name)
            &&& module matches Some(module) ==> (crate::proto::python::enum_reference(info) matches Some(found)
                && found.module == module && found.type_ref == module + "."@ + name
                + ".ValueType"@)
        }),
{
}

/// A type is annotated by what it is: a message by its reference, a record and an enumeration by
/// their names.
pub proof fn law_types_are_annotated_by_what_they_are(model_type: PlannedType)
    ensures
        model_type matches PlannedType::Message(message) ==> (crate::proto::python::message_reference(message.proto)
            matches Some(found) ==> crate::proto::python::type_annotation_of(model_type) == Some(found.type_ref)),
        model_type matches PlannedType::Record(record) ==> crate::proto::python::type_annotation_of(model_type)
            == Some(record.model_name@) && crate::proto::python::wire_identifier_of(model_type) == Some(
            record.full_name@,
        ),
        model_type matches PlannedType::Enum(enumeration) ==> (enumeration.replacement is None
            ==> crate::proto::python::type_annotation_of(model_type) == Some(enumeration.name@)),
        model_type matches PlannedType::Message(message) ==> crate::proto::python::wire_identifier_of(model_type)
            == Some(message.proto.full_name@),
{
}

/// An expression stands where the conversion leaves a place for it.
pub proof fn law_expressions_stand_in_their_place(
    conversion: crate::proto::python::ConversionView,
    expr: Seq<char>,
    hint: Seq<char>,
)
    ensures
        crate::proto::python::from_wire_text(conversion, expr) == crate::text::replaced_text(
            conversion.from_wire,
            "{wire}"@,
            expr,
        ),
        crate::proto::python::to_wire_text(conversion, expr) == crate::text::replaced_text(
            conversion.to_wire,
            "{value}"@,
            expr,
        ),
        crate::proto::python::hinted_from_wire_text(conversion, expr, hint) == crate::text::replaced_text(
            crate::proto::python::from_wire_text(conversion, expr),
            "{type_hint}"@,
            hint,
        ),
{
}

/// A type parameter is replaced by the first argument that is given for it, and stays where none
/// is.
pub proof fn law_parameters_are_replaced_by_their_argument(
    arguments: Seq<crate::proto::python::TypeArgumentView>,
    name: Seq<char>,
    i: int,
)
    ensures
        0 <= i < arguments.len() && arguments[i].parameter == name && (forall|k: int|
            0 <= k < i ==> (#[trigger] arguments[k]).parameter != name) ==> crate::proto::python::substituted(
            arguments,
            name,
        ) == arguments[i].argument,
        (forall|k: int| 0 <= k < arguments.len() ==> (#[trigger] arguments[k]).parameter != name)
            ==> crate::proto::python::substituted(arguments, name) == name,
    decreases arguments.len(),
{
    if arguments.len() > 0 {
        let rest = arguments.drop_first();
        law_parameters_are_replaced_by_their_argument(rest, name, i - 1);
        assert forall|k: int| 0 <= k < rest.len() implies #[trigger] rest[k] == arguments[k
            + 1] by {}
        if 0 < i < arguments.len() {
            assert(rest[i - 1] == arguments[i]);
            if forall|k: int| 0 <= k < i ==> (#[trigger] arguments[k]).parameter != name {
                assert(arguments[0].parameter != name);
            }
        }
        if forall|k: int|
            0 <= k < arguments.len() ==> (#[trigger] arguments[k]).parameter != name {
            assert(arguments[0].parameter != name);
        }
    }
}

/// What a function makes of a value is copied into a message and assigned to anything else, only
/// where the value is there.
pub proof fn law_functions_write_what_they_make(
    proto_name: Seq<char>,
    value_expr: Seq<char>,
    converter: Seq<char>,
    resolved: crate::proto::python::ResolvedTypeView,
)
    ensures
        ({
            let converted = converter + "("@ + value_expr + ")"@;
            let always = crate::proto::python::function_write(proto_name, value_expr, converter, resolved, false);
            let guarded = crate::proto::python::function_write(proto_name, value_expr, converter, resolved, true);
            &&& resolved.kind is Message ==> always.last() == Seq::<char>::empty() + "message."@
                + proto_name + ".CopyFrom("@ + converted + ")"@ && guarded.last() == "    "@
                + "message."@ + proto_name + ".CopyFrom("@ + converted + ")"@
            &&& !(resolved.kind is Message) ==> always.last() == Seq::<char>::empty() + "message."@
                + proto_name + " = "@ + converted && guarded.last() == "    "@ + "message."@
                + proto_name + " = "@ + converted
            &&& always.len() == 1
            &&& guarded.len() == 2
            &&& guarded[0] == "if "@ + value_expr + " is not None:"@
        }),
{
}

/// A field is written by what it is: a carrier is packed, a map and a list are written element by
/// element, anything else as a value.
pub proof fn law_fields_are_written_by_what_they_are(
    proto_name: Seq<char>,
    field: PlannedRecordField,
    value_expr: Seq<char>,
    resolved: crate::proto::python::ResolvedTypeView,
    optional_guard: bool,
)
    ensures
        ({
            let written = crate::proto::python::field_write_of(
                proto_name,
                field,
                value_expr,
                resolved,
                None,
                optional_guard,
            );
            &&& field.field_type is Mapping ==> written == crate::proto::python::map_to_proto(
                resolved,
                value_expr,
                proto_name,
                optional_guard,
            )
            &&& field.field_type is List ==> written == crate::proto::python::repeated_to_proto(
                resolved,
                value_expr,
                proto_name,
                optional_guard,
            )
            &&& !(field.field_type is Mapping) && !(field.field_type is List) ==> written
                == crate::proto::python::value_to_proto(resolved, value_expr, proto_name, optional_guard)
        }),
{
}

/// A required field that is missing is refused: where it has presence by asking for it, and a text
/// by asking whether it is empty.
pub proof fn law_required_fields_are_asked_for(
    proto_name: Seq<char>,
    field: PlannedRecordField,
    missing: Seq<char>,
)
    ensures
        crate::proto::python::has_presence(field) ==> crate::proto::python::required_test(proto_name, field, missing) == seq![
            "if not value.HasField(\""@ + proto_name + "\"):"@,
            "    raise ValueError("@ + missing + ")"@,
        ],
        !crate::proto::python::has_presence(field) && (field.field_type is String || field.field_type is Bytes)
            ==> crate::proto::python::required_test(proto_name, field, missing) == seq![
            "if not value."@ + proto_name + ":"@,
            "    raise ValueError("@ + missing + ")"@,
        ],
        !crate::proto::python::has_presence(field) && !(field.field_type is String || field.field_type is Bytes)
            ==> crate::proto::python::required_test(proto_name, field, missing).len() == 0,
{
}

/// A value with a default is read where it is there, and is else the default.
pub proof fn law_defaults_stand_for_missing_fields(
    field: PlannedRecordField,
    proto_name: Seq<char>,
    value_expr: Seq<char>,
    default_expr: Seq<char>,
)
    ensures
        crate::proto::python::has_presence(field) ==> crate::proto::python::defaulted_read(field, proto_name, value_expr, default_expr)
            == value_expr + " if value.HasField(\""@ + proto_name + "\") else "@ + default_expr,
        !crate::proto::python::has_presence(field) ==> crate::proto::python::defaulted_read(field, proto_name, value_expr, default_expr)
            == value_expr,
{
}

/// A variant is read by the case that is set, and what is none of its cases is refused.
pub proof fn law_variants_are_read_by_the_case_that_is_set(
    model_name: Seq<char>,
    attr_name: Seq<char>,
    oneof: crate::proto::python::OneofView,
    arguments: Seq<crate::proto::python::TypeArgumentView>,
    required: bool,
)
    ensures
        ({
            let read = crate::proto::python::oneof_read_of(model_name, attr_name, oneof, arguments, required);
            let local = "_oneof_"@ + attr_name;
            let case_var = local + "_case"@;
            &&& read.expr == local
            &&& read.setup_lines[0] == case_var + " = value.WhichOneof("@
                + crate::json_text::json_quoted(oneof.name) + ")"@
            &&& read.setup_lines[1] == "if "@ + case_var + " is None:"@
            &&& read.setup_lines[read.setup_lines.len() - 2] == "else:"@
            &&& read.setup_lines.last() == "    raise ValueError(f\"unknown protobuf oneof case "@
                + model_name + "."@ + oneof.name + ": {"@ + case_var + "}\")"@
            &&& required ==> read.setup_lines[2] == "    raise ValueError("@
                + crate::json_text::json_quoted(
                "missing required field "@ + model_name + "."@ + attr_name,
            ) + ")"@
            &&& !required ==> read.setup_lines[2] == "    "@ + local + " = None"@
        }),
{
}

/// A variant is written by the case that the value is: where it is required it must be there, and
/// what is none of its cases is refused.
pub proof fn law_variants_are_written_by_the_case_that_they_are(
    model_name: Seq<char>,
    attr_name: Seq<char>,
    oneof: crate::proto::python::OneofView,
    value_expr: Seq<char>,
    any: bool,
)
    ensures
        ({
            let always = crate::proto::python::oneof_write_of(model_name, attr_name, oneof, value_expr, true, any);
            let sometimes = crate::proto::python::oneof_write_of(
                model_name,
                attr_name,
                oneof,
                value_expr,
                false,
                any,
            );
            let public = "_oneof_"@ + crate::naming::snake(attr_name) + "_value"@;
            let none = Seq::<char>::empty();
            &&& always[0] == "if "@ + value_expr + " is None:"@
            &&& always[1] == "    raise ValueError("@ + crate::json_text::json_quoted(
                "missing required field "@ + model_name + "."@ + attr_name,
            ) + ")"@
            &&& sometimes[0] == "if "@ + value_expr + " is not None:"@
            &&& any ==> always[2] == none + public + " = "@ + value_expr && sometimes[1] == "    "@
                + public + " = "@ + value_expr
            &&& !any ==> always[2] == none + public + " = typing.cast(typing.Any, "@ + value_expr
                + ")"@ && sometimes[1] == "    "@ + public + " = typing.cast(typing.Any, "@
                + value_expr + ")"@
            &&& always[always.len() - 2] == none + "else:"@
            &&& sometimes[sometimes.len() - 2] == "    "@ + "else:"@
            &&& always.last() == none + "    raise TypeError(f\"unsupported variant case "@
                + model_name + "."@ + oneof.name + ": {"@ + public + "!r}\")"@
        }),
{
}

/// A case of a variant is told by its class, and its payload written into its own field.
pub proof fn law_cases_of_variants_are_told_by_their_class(
    cases: Seq<crate::proto::python::OneofCaseView>,
    last: crate::proto::python::OneofCaseView,
    public: Seq<char>,
    indent: Seq<char>,
)
    ensures
        ({
            let before = crate::proto::python::oneof_case_write_lines(cases, public, indent);
            let all = crate::proto::python::oneof_case_write_lines(cases.push(last), public, indent);
            let keyword = if cases.len() == 0 {
                "if"@
            } else {
                "elif"@
            };
            let written = match last.generic_carrier {
                Some(carrier) => crate::proto::python::carrier_to_proto(
                    carrier,
                    public + ".value"@,
                    last.proto_name,
                    false,
                ),
                None => crate::proto::python::value_to_proto(
                    last.payload_type,
                    public + ".value"@,
                    last.proto_name,
                    false,
                ),
            };
            all == before + (seq![
                indent + keyword + " isinstance("@ + public + ", "@ + last.class_name + "):"@,
            ] + crate::proto::python::indented(written, indent + "    "@))
        }),
{
    assert(cases.push(last).drop_last() =~= cases);
}

/// Lines that stand deeper are the same lines behind more space.
pub proof fn law_deeper_lines_are_the_same_lines(lines: Seq<Seq<char>>, indent: Seq<char>, i: int)
    requires
        0 <= i < lines.len(),
    ensures
        crate::proto::python::indented(lines, indent).len() == lines.len(),
        crate::proto::python::indented(lines, indent)[i] == indent + lines[i],
    decreases lines.len(),
{
    let before = lines.drop_last();
    if lines.len() > 1 {
        if i < lines.len() - 1 {
            law_deeper_lines_are_the_same_lines(before, indent, i);
        } else {
            law_deeper_lines_are_the_same_lines(before, indent, 0);
        }
    } else {
        assert(crate::proto::python::indented(before, indent) =~= Seq::empty());
    }
}

/// A member of a variant is the case of its name, with the payload of that case.
pub proof fn law_members_of_variants_are_their_cases(
    message_name: Seq<char>,
    wire_name: Seq<char>,
    variant: PlannedVariant,
    member: PlannedWireVariantMember,
    i: int,
)
    requires
        crate::proto::python::case_index(variant.cases@, member.wire_name@) == Some(i),
    ensures
        variant.cases@[i].payload matches Some(payload) ==> (crate::proto::python::member_outcome(
            message_name,
            wire_name,
            variant,
            member,
        ) matches Ok(case) && case.class_name == variant.cases@[i].class_name@ && case.proto_name
            == member.wire_name@ && case.payload_type == payload.resolved@ && (!(crate::plan::bare_type(
            payload.planned,
        ) is TypeParameter) ==> case.generic_carrier is None)),
        variant.cases@[i].payload is None ==> crate::proto::python::member_outcome(
            message_name,
            wire_name,
            variant,
            member,
        ) is Err,
{
}

/// A field is written as a variant where its message has members for it, and only there.
pub proof fn law_fields_are_variants_where_their_message_is(
    variants: Seq<PlannedVariant>,
    record: PlannedRecord,
    field: PlannedRecordField,
)
    ensures
        crate::proto::python::analysis_outcome(variants, record, field) matches Ok(found) ==> (found.oneof is Some
            <==> record.proto is Some && (field.wire_binding matches Some(
            PlannedWireFieldBinding::VariantMembers { .. },
        ))),
        crate::proto::python::analysis_outcome(variants, record, field) matches Ok(found) ==> (
        field.wire_binding matches Some(PlannedWireFieldBinding::VariantMembers {
            wire_name,
            members,
        }) ==> (found.oneof matches Some(oneof) ==> oneof.name == wire_name@)),
{
}

/// A model is annotated by its name in quotes, with anything for each of its parameters.
pub proof fn law_models_are_annotated_by_their_name(
    model: RenderedModel,
    proto_type: Seq<char>,
    count: nat,
)
    ensures
        model.type_parameters@.len() == 0 ==> crate::proto::python::model_annotation(model) == "\""@ + model.name@
            + "\""@ && crate::proto::python::converter_decorator_text(model)
            == "@temporalio.converter.transfer_type_convertible(_"@ + model.name@
            + "TransferTypeConverter)"@,
        model.type_parameters@.len() > 0 ==> crate::proto::python::model_annotation(model) == "\""@ + model.name@
            + "["@ + crate::proto::python::any_list(model.type_parameters@.len()) + "]\""@
            && crate::proto::python::converter_decorator_text(model)
            == "@typing.cast(typing.Any, temporalio.converter.transfer_type_convertible(_"@
            + model.name@ + "TransferTypeConverter))"@,
        crate::proto::python::any_list(1) == "typing.Any"@,
        count > 0 ==> crate::proto::python::any_list(count + 1) == crate::proto::python::any_list(count) + ", "@ + "typing.Any"@,
        crate::proto::python::converter_head_lines(model, proto_type)[0] == "class _"@ + model.name@
            + "TransferTypeConverter(temporalio.converter.TransferTypeConverter["@
            + crate::proto::python::model_annotation(model) + ", "@ + proto_type + "]):"@,
        crate::proto::python::converter_head_lines(model, proto_type)[1] == "    transfer_type: type["@ + proto_type
            + "] | None = "@ + proto_type,
{
    reveal_with_fuel(crate::text::join, 2);
    let one = Seq::new(1, |i: int| "typing.Any"@);
    assert(one[0] == "typing.Any"@);
    let fewer = Seq::new(count, |i: int| "typing.Any"@);
    let more = Seq::new(count + 1, |i: int| "typing.Any"@);
    assert(more.drop_last() =~= fewer);
    assert(more.last() == "typing.Any"@);
}

/// A model is made of the message by its reader: without fields it is empty, else each field is set
/// up before the model is made.
pub proof fn law_readers_make_the_model(
    model: RenderedModel,
    proto_type: Seq<char>,
    arguments: Seq<crate::proto::python::TypeArgumentView>,
    wires: Seq<crate::proto::python::FieldWireView>,
)
    ensures
        ({
            let text = crate::proto::python::from_transfer_text(model, proto_type, arguments, wires);
            let annotation = crate::proto::python::model_annotation(model);
            let head = "    @typing_extensions.override\n    def from_transfer_type(\n        self,\n        value: "@
                + proto_type + ",\n        type_hint: type["@ + annotation + "],\n    ) -> "@
                + annotation + ":\n"@;
            &&& model.fields@.len() == 0 ==> text == head + "        return "@ + model.name@
                + "()\n"@
            &&& model.fields@.len() > 0 ==> text == "\n"@ + head + crate::proto::python::type_variable_text(arguments)
                + crate::proto::python::setup_text(wires) + "        return "@ + model.name@ + "(\n"@
                + crate::proto::python::argument_text(wires) + "        )\n"@
        }),
{
}

/// A message is made of the model by its writer: each field is written into a new message.
pub proof fn law_writers_make_the_message(
    model: RenderedModel,
    proto_type: Seq<char>,
    wires: Seq<crate::proto::python::FieldWireView>,
    generic_oneof: bool,
)
    ensures
        ({
            let text = crate::proto::python::to_transfer_text(model, proto_type, wires, generic_oneof);
            &&& crate::text::has_suffix(
                text,
                "        message = "@ + proto_type + "()\n"@ + crate::proto::python::write_text(wires)
                    + "        return message\n"@,
            )
            &&& crate::json_schema::annotation::has_part(
                text,
                "def to_transfer_type(\n        self,\n        value: "@ + crate::proto::python::model_annotation(
                    model,
                ) + ",\n    ) -> "@ + proto_type + ":\n"@,
            )
        }),
{
    let text = crate::proto::python::to_transfer_text(model, proto_type, wires, generic_oneof);
    let annotation = crate::proto::python::model_annotation(model);
    let gap = if model.fields@.len() == 0 {
        "\n"@
    } else {
        "\n\n"@
    };
    let runtime = if generic_oneof {
        "        runtime_value: typing.Any = value\n"@
    } else {
        Seq::empty()
    };
    let over = "    @typing_extensions.override\n    "@;
    let def = "def to_transfer_type(\n        self,\n        value: "@;
    reveal_strlit("    @typing_extensions.override\n    def to_transfer_type(\n        self,\n        value: ");
    reveal_strlit("    @typing_extensions.override\n    ");
    reveal_strlit("def to_transfer_type(\n        self,\n        value: ");
    assert("    @typing_extensions.override\n    def to_transfer_type(\n        self,\n        value: "@
        =~= over + def);
    let part = def + annotation + ",\n    ) -> "@ + proto_type + ":\n"@;
    let last = "        message = "@ + proto_type + "()\n"@ + crate::proto::python::write_text(wires)
        + "        return message\n"@;
    lemma_writer_text(gap, over, def, annotation, proto_type, runtime, crate::proto::python::write_text(wires), text);
}

/// What a writer is made of.
proof fn lemma_writer_text(
    gap: Seq<char>,
    over: Seq<char>,
    def: Seq<char>,
    annotation: Seq<char>,
    proto_type: Seq<char>,
    runtime: Seq<char>,
    writes: Seq<char>,
    text: Seq<char>,
)
    requires
        text == gap + (over + def) + annotation + ",\n    ) -> "@ + proto_type + ":\n"@ + runtime
            + "        message = "@ + proto_type + "()\n"@ + writes + "        return message\n"@,
    ensures
        crate::text::has_suffix(
            text,
            "        message = "@ + proto_type + "()\n"@ + writes + "        return message\n"@,
        ),
        crate::json_schema::annotation::has_part(text, def + annotation + ",\n    ) -> "@ + proto_type + ":\n"@),
{
    let part = def + annotation + ",\n    ) -> "@ + proto_type + ":\n"@;
    let last = "        message = "@ + proto_type + "()\n"@ + writes + "        return message\n"@;
    let a = gap + over;
    let b = a + part;
    assert(b =~= gap + (over + def) + annotation + ",\n    ) -> "@ + proto_type + ":\n"@);
    let c = b + runtime;
    assert(c + last =~= c + "        message = "@ + proto_type + "()\n"@ + writes
        + "        return message\n"@);
    assert(text == c + last);
    assert((c + last).skip((c + last).len() - last.len()) =~= last);
    assert(crate::json_schema::annotation::has_part(text, part)) by {
        crate::json_schema::sides::lemma_part_stays(part);
    }
}

/// The parameters of a model are taken from the type that is hinted, and are anything where none is.
pub proof fn law_parameters_are_taken_from_the_hint(arguments: Seq<crate::proto::python::TypeArgumentView>)
    ensures
        arguments.len() == 0 ==> crate::proto::python::type_variable_text(arguments).len() == 0,
        arguments.len() == 1 ==> crate::proto::python::type_variable_text(arguments) == "        "@
            + crate::proto::python::argument_list_text(arguments) + ","@ + " = typing.get_args(type_hint) or ("@
            + crate::proto::python::any_list(1) + ","@ + ")\n"@,
        arguments.len() > 1 ==> crate::proto::python::type_variable_text(arguments) == "        "@
            + crate::proto::python::argument_list_text(arguments) + Seq::<char>::empty()
            + " = typing.get_args(type_hint) or ("@ + crate::proto::python::any_list(arguments.len())
            + Seq::<char>::empty() + ")\n"@,
{
}

/// A field is read and written under its own name; a generic variant through the value at run time.
pub proof fn law_fields_are_read_and_written_under_their_name(
    model_name: Seq<char>,
    planned: PlannedRecordField,
    rendered: RenderedField,
    proto: crate::proto::python::ProtoFieldView,
    arguments: Seq<crate::proto::python::TypeArgumentView>,
    generic_oneof: bool,
)
    ensures
        ({
            let wire = crate::proto::python::field_wire_of(
                model_name,
                planned,
                rendered,
                proto,
                arguments,
                generic_oneof,
            );
            let expr = if generic_oneof {
                "runtime_value."@ + rendered.attr_name@
            } else {
                "value."@ + rendered.attr_name@
            };
            &&& wire.attr_name == rendered.attr_name@
            &&& wire.read == crate::proto::python::rendered_field_read(model_name, planned, rendered, proto, arguments)
            &&& wire.write == crate::proto::python::rendered_field_write(
                model_name,
                planned,
                rendered,
                proto,
                expr,
                generic_oneof,
            )
        }),
{
}

/// A field is guarded when it is written where it may be missing or starts empty; where a function
/// makes it, the function writes it.
pub proof fn law_fields_are_guarded_where_they_may_be_missing(
    model_name: Seq<char>,
    planned: PlannedRecordField,
    rendered: RenderedField,
    proto: crate::proto::python::ProtoFieldView,
    value_expr: Seq<char>,
    any: bool,
)
    requires
        proto.oneof is None,
    ensures
        ({
            let guard = rendered.default_kind is Missing || rendered.default_kind is EmptyDict
                || rendered.default_kind is EmptyList;
            let written = crate::proto::python::rendered_field_write(
                model_name,
                planned,
                rendered,
                proto,
                value_expr,
                any,
            );
            &&& planned.function_converter is None ==> written == crate::proto::python::field_write_of(
                planned.name@,
                planned,
                value_expr,
                rendered.wire_value_type@,
                proto.generic_carrier,
                guard,
            )
            &&& planned.function_converter matches Some(converter) ==> (!(planned.field_type
                is Mapping) && !(planned.field_type is List) && !planned.has_default ==> written
                == crate::proto::python::function_write(
                planned.name@,
                value_expr,
                converter@,
                rendered.wire_value_type@,
                guard,
            ))
        }),
{
}

/// A message and an enumeration are read by their conversion; an enumeration without one by its own
/// type.
pub proof fn law_values_are_read_by_their_conversion(
    resolved: crate::proto::python::ResolvedTypeView,
    expr: Seq<char>,
    arguments: Seq<crate::proto::python::TypeArgumentView>,
)
    ensures
        resolved.wire_conversion is None ==> crate::proto::python::message_from_wire_text(resolved, expr, arguments)
            == expr && crate::proto::python::enum_from_proto(resolved, expr) == resolved.annotation + "("@ + expr
            + ")"@,
        resolved.wire_conversion matches Some(conversion) ==> crate::proto::python::enum_from_proto(resolved, expr)
            == crate::text::replaced_text(conversion.from_wire, "{wire}"@, expr),
        resolved.wire_conversion matches Some(conversion) ==> crate::proto::python::message_from_wire_text(
            resolved,
            expr,
            arguments,
        ) == crate::text::replaced_text(
            crate::text::replaced_text(conversion.from_wire, "{wire}"@, expr),
            "{type_hint}"@,
            crate::proto::python::concrete_hint(resolved.annotation, arguments),
        ),
{
}

} // verus!
