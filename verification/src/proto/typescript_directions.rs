//! What the generated TypeScript conversions do: the function from a message reads, the function to
//! a message writes, and neither stands in for the other.

use vstd::prelude::*;

use crate::language::Language;
use crate::plan::{
    PlannedProtoMessage, PlannedProtoTypeInfo, PlannedRecord, PlannedType, TypeReplacementSpec,
};
use crate::proto::typescript::{
    FlattenedField, RenderedField, RenderedModel, SourcedField, WireFunctionNames,
};

verus! {

/// A generated conversion reads through the first of its functions and writes through the second;
/// the two have different names, and both are named after the model.
pub proof fn law_generated_conversions_call_their_own_functions(
    model_type: PlannedType,
    planned_model: PlannedRecord,
)
    ensures
        crate::proto::typescript::generated_conversion_of(model_type, planned_model) matches Some(conversion) ==> {
            let names = conversion.wire_function_names;
            &&& names is Some
            &&& conversion.from_wire == names->Some_0.0 + "({wire})"@
            &&& conversion.to_wire == names->Some_0.1 + "({value}) ?? {}"@
            &&& conversion.function_name_to_wire == Some(
                names->Some_0.1 + "({ name: {name} }) ?? {}"@,
            )
            &&& names->Some_0.0 == crate::naming::lower_camel(conversion.annotation) + "FromProto"@
            &&& names->Some_0.1 == crate::naming::lower_camel(conversion.annotation) + "ToProto"@
            &&& names->Some_0.0 != names->Some_0.1
            &&& conversion.uses_rendered_model_annotation
        },
        planned_model.proto is Some ==> {
            &&& crate::proto::typescript::generated_conversion_of(model_type, planned_model) is Some
            &&& crate::proto::typescript::generated_conversion_of(model_type, planned_model)->Some_0.annotation
                == planned_model.name@
        },
        planned_model.proto is None ==> (model_type matches PlannedType::Message(message) ==> {
            &&& crate::proto::typescript::generated_conversion_of(model_type, planned_model) is Some
            &&& crate::proto::typescript::generated_conversion_of(model_type, planned_model)->Some_0.annotation
                == message.model_name@
        }),
        planned_model.proto is None && !(model_type is Message) ==> crate::proto::typescript::generated_conversion_of(
            model_type,
            planned_model,
        ) is None,
{
    reveal_strlit("FromProto");
    reveal_strlit("ToProto");
    assert("FromProto"@.len() == 9);
    assert("ToProto"@.len() == 7);
    match crate::proto::typescript::generated_conversion_of(model_type, planned_model) {
        Some(conversion) => {
            let names = conversion.wire_function_names->Some_0;
            assert(names.0.len() != names.1.len());
        },
        None => {},
    }
}

/// The functions of a replacement are those that it names, and else those that are named after the
/// type.
pub proof fn law_replacements_name_their_functions(name: Seq<char>, replacement: TypeReplacementSpec)
    ensures
        crate::plan::text_for(replacement.from_proto, Language::TypeScript) matches Some(converter)
            ==> crate::proto::typescript::from_proto_converter(name, replacement) == converter,
        crate::plan::text_for(replacement.to_proto, Language::TypeScript) matches Some(converter)
            ==> crate::proto::typescript::to_proto_converter(name, replacement) == converter,
        crate::plan::text_for(replacement.from_proto, Language::TypeScript) is None
            ==> crate::proto::typescript::from_proto_converter(name, replacement) == crate::naming::lower_camel(
            crate::text::last_segment(name, '.'),
        ) + "FromProto"@,
        crate::plan::text_for(replacement.to_proto, Language::TypeScript) is None
            ==> crate::proto::typescript::to_proto_converter(name, replacement) == crate::naming::lower_camel(
            crate::text::last_segment(name, '.'),
        ) + "ToProto"@,
        crate::proto::typescript::replacement_annotation(replacement) == crate::plan::text_for(
            replacement.annotation,
            Language::TypeScript,
        ),
{
}

/// A message with a replacement is read and written by the functions of the replacement; one with
/// an authored type by the functions that are named after the message.
pub proof fn law_messages_are_converted_by_their_functions(message: PlannedProtoMessage)
    ensures
        ({
            let outcome = crate::proto::typescript::message_override_conversion_of(PlannedType::Message(message));
            let name = message.proto.full_name@;
            let annotated = message.replacement matches Some(replacement) && crate::plan::text_for(
                replacement.annotation,
                Language::TypeScript,
            ) is Some;
            &&& annotated ==> {
                let replacement = message.replacement->Some_0;
                &&& outcome is Some
                &&& Some(outcome->Some_0.annotation) == crate::plan::text_for(
                    replacement.annotation,
                    Language::TypeScript,
                )
                &&& outcome->Some_0.from_wire == crate::proto::typescript::from_proto_converter(name, replacement)
                    + "({wire})"@
                &&& outcome->Some_0.to_wire == crate::proto::typescript::to_proto_converter(name, replacement)
                    + "({value})"@
                &&& outcome->Some_0.function_name_to_wire == Some(
                    crate::proto::typescript::to_proto_converter(name, replacement) + "({name})"@,
                )
            }
            &&& !annotated ==> (message.authored_annotation matches Some(annotation) ==> {
                &&& outcome is Some
                &&& outcome->Some_0.annotation == annotation@
                &&& outcome->Some_0.from_wire == crate::naming::lower_camel(crate::text::last_segment(name, '.'))
                    + "FromProto"@ + "({wire})"@
                &&& outcome->Some_0.to_wire == crate::naming::lower_camel(crate::text::last_segment(name, '.'))
                    + "ToProto"@ + "({value})"@
            })
            &&& !annotated && message.authored_annotation is None ==> outcome is None
        }),
{
}

/// An enumeration with a replacement is read and written by the functions of the replacement.
pub proof fn law_enumerations_are_converted_by_their_functions(
    enumeration: crate::plan::PlannedProtoEnum,
)
    ensures
        ({
            let outcome = crate::proto::typescript::enum_conversion_of(PlannedType::Enum(enumeration));
            let name = enumeration.proto.full_name@;
            let annotated = enumeration.replacement matches Some(replacement) && crate::plan::text_for(
                replacement.annotation,
                Language::TypeScript,
            ) is Some;
            &&& annotated ==> {
                let replacement = enumeration.replacement->Some_0;
                &&& outcome is Some
                &&& outcome->Some_0.from_wire == crate::proto::typescript::from_proto_converter(name, replacement)
                    + "({wire})"@
                &&& outcome->Some_0.to_wire == crate::proto::typescript::to_proto_converter(name, replacement)
                    + "({value})"@
            }
            &&& !annotated ==> outcome is None
        }),
{
}

/// The conversion of a type is that of its enumeration, else that of its override, else the one
/// that is generated for its record.
pub proof fn law_overrides_come_before_generated_conversions(
    model_type: PlannedType,
    record: PlannedRecord,
)
    ensures
        crate::proto::typescript::enum_conversion_of(model_type) is Some ==> crate::proto::typescript::conversion_for(model_type, Some(&record))
            == crate::proto::typescript::enum_conversion_of(model_type),
        crate::proto::typescript::enum_conversion_of(model_type) is None && crate::proto::typescript::message_override_conversion_of(
            model_type,
        ) is Some ==> crate::proto::typescript::conversion_for(model_type, Some(&record))
            == crate::proto::typescript::message_override_conversion_of(model_type),
        crate::proto::typescript::enum_conversion_of(model_type) is None && crate::proto::typescript::message_override_conversion_of(
            model_type,
        ) is None ==> crate::proto::typescript::conversion_for(model_type, Some(&record)) == crate::proto::typescript::generated_conversion_of(
            model_type,
            record,
        ) && crate::proto::typescript::conversion_for(model_type, None) is None,
{
}

/// The function to a message takes the model and gives the message, `undefined` for none; every
/// field and every sourced field is an entry of the message under its wire name.
pub proof fn law_writers_write_every_field(
    model: RenderedModel,
    record: PlannedRecord,
    name: Seq<char>,
    i: int,
)
    requires
        0 <= i < model.fields@.len(),
    ensures
        ({
            let text = crate::proto::typescript::to_proto_function_text(model, record, name);
            let wire = crate::proto::typescript::wire_annotation_text(model, record);
            &&& crate::text::has_prefix(
                text,
                "export function "@ + name + model.type_parameters@ + "(\n  model: "@
                    + model.name@ + model.type_arguments@ + " | null | undefined,\n): "@ + wire
                    + " | undefined {\n  if (model == null) {\n    return undefined;\n  }\n"@,
            )
            &&& crate::json_schema::annotation::has_part(
                text,
                "    "@ + model.fields@[i].wire_name@ + ": "@ + model.fields@[i].to_wire_expr@
                    + ",\n"@,
            )
        }),
{
    let text = crate::proto::typescript::to_proto_function_text(model, record, name);
    let wire = crate::proto::typescript::wire_annotation_text(model, record);
    let head = "export function "@ + name + model.type_parameters@ + "(\n  model: "@ + model.name@
        + model.type_arguments@ + " | null | undefined,\n): "@ + wire
        + " | undefined {\n  if (model == null) {\n    return undefined;\n  }\n"@;
    assert(text.take(head.len() as int) =~= head);
    lemma_entry_is_written(model.fields@, i);
    crate::json_schema::sides::lemma_part_stays(
        "    "@ + model.fields@[i].wire_name@ + ": "@ + model.fields@[i].to_wire_expr@ + ",\n"@,
    );
}

/// Every field is an entry of the message.
proof fn lemma_entry_is_written(fields: Seq<RenderedField>, i: int)
    requires
        0 <= i < fields.len(),
    ensures
        crate::json_schema::annotation::has_part(
            crate::proto::typescript::field_entries_text(fields),
            "    "@ + fields[i].wire_name@ + ": "@ + fields[i].to_wire_expr@ + ",\n"@,
        ),
    decreases fields.len(),
{
    let part = "    "@ + fields[i].wire_name@ + ": "@ + fields[i].to_wire_expr@ + ",\n"@;
    if i < fields.len() - 1 {
        lemma_entry_is_written(fields.drop_last(), i);
        assert(fields.drop_last()[i] == fields[i]);
    }
    crate::json_schema::sides::lemma_part_stays(part);
}

/// Every sourced field is an entry of the message.
pub proof fn law_sourced_fields_are_written(fields: Seq<SourcedField>, i: int)
    requires
        0 <= i < fields.len(),
    ensures
        crate::json_schema::annotation::has_part(
            crate::proto::typescript::sourced_entries_text(fields),
            "    "@ + fields[i].name@ + ": "@ + fields[i].to_wire_expr@ + ",\n"@,
        ),
    decreases fields.len(),
{
    let part = "    "@ + fields[i].name@ + ": "@ + fields[i].to_wire_expr@ + ",\n"@;
    if i < fields.len() - 1 {
        law_sourced_fields_are_written(fields.drop_last(), i);
        assert(fields.drop_last()[i] == fields[i]);
    }
    crate::json_schema::sides::lemma_part_stays(part);
}

/// The function from a message takes the message and gives the model, `undefined` for none; every
/// field is a member of the model under its own name, read from the message.
pub proof fn law_readers_read_every_field(
    model: RenderedModel,
    record: PlannedRecord,
    name: Seq<char>,
    i: int,
)
    requires
        0 <= i < model.fields@.len(),
        model.fields@[i].flattened_fields@.len() == 0,
    ensures
        ({
            let text = crate::proto::typescript::from_proto_function_text(model, record, name);
            let wire = crate::proto::typescript::wire_annotation_text(model, record);
            &&& crate::text::has_prefix(
                text,
                "export function "@ + name + model.type_parameters@ + "(\n  proto: "@ + wire
                    + " | null | undefined,\n): "@ + model.name@ + model.type_arguments@
                    + " | undefined {\n  if (proto == null) {\n    return undefined;\n  }\n"@,
            )
            &&& crate::json_schema::annotation::has_part(
                text,
                "    "@ + model.fields@[i].name@ + ": "@ + crate::text::replaced_text(
                    model.fields@[i].from_wire_expr@,
                    "{wire}"@,
                    "proto"@,
                ) + ",\n"@,
            )
        }),
{
    let text = crate::proto::typescript::from_proto_function_text(model, record, name);
    let wire = crate::proto::typescript::wire_annotation_text(model, record);
    let head = "export function "@ + name + model.type_parameters@ + "(\n  proto: "@ + wire
        + " | null | undefined,\n): "@ + model.name@ + model.type_arguments@
        + " | undefined {\n  if (proto == null) {\n    return undefined;\n  }\n"@;
    assert(text.take(head.len() as int) =~= head);
    lemma_member_is_read(model.fields@, i);
    crate::json_schema::sides::lemma_part_stays(
        "    "@ + model.fields@[i].name@ + ": "@ + crate::text::replaced_text(
            model.fields@[i].from_wire_expr@,
            "{wire}"@,
            "proto"@,
        ) + ",\n"@,
    );
}

/// Every field is a member of the model.
proof fn lemma_member_is_read(fields: Seq<RenderedField>, i: int)
    requires
        0 <= i < fields.len(),
        fields[i].flattened_fields@.len() == 0,
    ensures
        crate::json_schema::annotation::has_part(
            crate::proto::typescript::model_entries_text(fields),
            "    "@ + fields[i].name@ + ": "@ + crate::text::replaced_text(
                fields[i].from_wire_expr@,
                "{wire}"@,
                "proto"@,
            ) + ",\n"@,
        ),
    decreases fields.len(),
{
    let part = "    "@ + fields[i].name@ + ": "@ + crate::text::replaced_text(
        fields[i].from_wire_expr@,
        "{wire}"@,
        "proto"@,
    ) + ",\n"@;
    if i < fields.len() - 1 {
        lemma_member_is_read(fields.drop_last(), i);
        assert(fields.drop_last()[i] == fields[i]);
    }
    crate::json_schema::sides::lemma_part_stays(part);
}

/// Every member of a flattened field is a member of the model, read from the message.
pub proof fn law_flattened_members_are_read(fields: Seq<FlattenedField>, i: int)
    requires
        0 <= i < fields.len(),
    ensures
        crate::json_schema::annotation::has_part(
            crate::proto::typescript::flattened_entries_text(fields),
            "    "@ + fields[i].name@ + ": "@ + crate::text::replaced_text(
                fields[i].from_wire_expr@,
                "{wire}"@,
                "proto"@,
            ) + ",\n"@,
        ),
    decreases fields.len(),
{
    let part = "    "@ + fields[i].name@ + ": "@ + crate::text::replaced_text(
        fields[i].from_wire_expr@,
        "{wire}"@,
        "proto"@,
    ) + ",\n"@;
    if i < fields.len() - 1 {
        law_flattened_members_are_read(fields.drop_last(), i);
        assert(fields.drop_last()[i] == fields[i]);
    }
    crate::json_schema::sides::lemma_part_stays(part);
}

/// The converter of a model reads through the function from its message and writes through the
/// function to it.
pub proof fn law_transfer_converters_call_both_functions(
    model: RenderedModel,
    proto: PlannedProtoTypeInfo,
    names: WireFunctionNames,
)
    ensures
        ({
            let text = crate::proto::typescript::transfer_converter_text(model, proto, names);
            let wire = crate::proto::typescript::interface_ref(proto);
            &&& crate::json_schema::annotation::has_part(
                text,
                "TransferTypeConverter = {\n  fromTransferType(value: "@ + wire + "): "@
                    + model.name@ + " {\n    return "@ + names.from_wire@,
            )
            &&& crate::json_schema::annotation::has_part(
                text,
                "(value)!;\n  },\n\n  toTransferType(value: "@ + model.name@ + "): "@ + wire
                    + " {\n    return "@ + names.to_wire@,
            )
        }),
{
    let text = crate::proto::typescript::transfer_converter_text(model, proto, names);
    let wire = crate::proto::typescript::interface_ref(proto);
    let start = "export const "@ + crate::naming::lower_camel(model.name@);
    let read = "TransferTypeConverter = {\n  fromTransferType(value: "@ + wire + "): "@ + model.name@
        + " {\n    return "@ + names.from_wire@;
    let written = "(value)!;\n  },\n\n  toTransferType(value: "@ + model.name@ + "): "@ + wire
        + " {\n    return "@ + names.to_wire@;
    let end = "(value) ?? {};\n  },\n};"@;
    assert(text =~= start + read + (written + end));
    assert(text =~= (start + read) + written + end);
    crate::json_schema::sides::lemma_part_of(start, read, written + end);
    crate::json_schema::sides::lemma_part_of(start + read, written, end);
}

/// The functions of a model are rendered under the names that its conversion calls.
#[verifier::rlimit(40)]
pub proof fn law_functions_are_rendered_under_their_names(
    model: RenderedModel,
    record: PlannedRecord,
    proto: PlannedProtoTypeInfo,
    names: WireFunctionNames,
)
    ensures
        ({
            let text = crate::proto::typescript::wire_functions_text(model, record, proto, names);
            &&& crate::json_schema::annotation::has_part(
                text,
                crate::proto::typescript::from_proto_function_text(model, record, names.from_wire@),
            )
            &&& crate::json_schema::annotation::has_part(
                text,
                crate::proto::typescript::to_proto_function_text(model, record, names.to_wire@),
            )
            &&& crate::json_schema::annotation::has_part(text, crate::proto::typescript::transfer_converter_text(model, proto, names))
        }),
{
    crate::json_schema::sides::lemma_part_stays(crate::proto::typescript::from_proto_function_text(model, record, names.from_wire@));
    crate::json_schema::sides::lemma_part_stays(crate::proto::typescript::to_proto_function_text(model, record, names.to_wire@));
    crate::json_schema::sides::lemma_part_stays(crate::proto::typescript::transfer_converter_text(model, proto, names));
}

/// The interface of a message is its name with an `I` before the last part, in its package.
pub proof fn law_interfaces_are_named_after_messages(
    proto: PlannedProtoTypeInfo,
    leaf: Seq<char>,
)
    requires
        forall|i: int| 0 <= i < leaf.len() ==> leaf[i] != '.',
        proto.full_name@ == proto.package@ + "."@ + leaf,
    ensures
        crate::proto::typescript::interface_ref(proto) == proto.package@ + "."@ + "I"@ + leaf,
{
    let full = proto.full_name@;
    let prefix = proto.package@ + "."@;
    assert(full.take(prefix.len() as int) =~= prefix);
    assert(full.skip(prefix.len() as int) =~= leaf);
    lemma_no_separator(leaf, '.');
    assert(leaf.take(0) =~= Seq::empty());
    assert(leaf.skip(0) =~= leaf);
    assert(proto.package@ + "."@ + leaf.take(0) + "I"@ + leaf =~= proto.package@ + "."@ + "I"@
        + leaf);
}

/// A text without a separator is one segment.
proof fn lemma_no_separator(text: Seq<char>, separator: char)
    requires
        forall|i: int| 0 <= i < text.len() ==> text[i] != separator,
    ensures
        crate::text::after_last_index(text, separator) == 0,
    decreases text.len(),
{
    if text.len() > 0 {
        lemma_no_separator(text.drop_last(), separator);
    }
}

} // verus!
