//! What the generated Python conversions do: whatever is written into a message is read back from
//! the same field, by the opposite conversion.

use vstd::prelude::*;

use crate::language::Language;
use crate::plan::{
    PlannedProtoMessage, PlannedRecord, PlannedRecordField, PlannedType, TypeReplacementSpec,
};
use crate::proto::python::{
    ProtoGenericCarrier, PythonFieldDefaultKind, RenderedField, RenderedModel, ResolvedFieldKind,
};

verus! {

/// Whatever its values are, a map is read entry by entry: each key stays with its own item, and the
/// item is converted as a single value of its type is.
pub proof fn law_maps_keep_each_key_with_its_item(
    value_type: crate::proto::python::ResolvedTypeView,
    proto_name: Seq<char>,
    type_arguments: Seq<crate::proto::python::TypeArgumentView>,
)
    ensures
        crate::proto::python::map_from_proto(value_type, proto_name, type_arguments) == "{key: "@
            + crate::proto::python::value_from_proto(value_type, "item"@, type_arguments)
            + " for key, item in value."@ + proto_name + ".items()}"@,
{
    reveal_strlit("{key: item for key, item in value.");
    reveal_strlit("{key: ");
    reveal_strlit("item");
    reveal_strlit(" for key, item in value.");
    assert("{key: item for key, item in value."@ =~= "{key: "@ + "item"@
        + " for key, item in value."@);
}

/// A map is written entry by entry under its own keys, into the field that it is read from, and a
/// map that may be missing only where there is one.
pub proof fn law_maps_are_written_under_their_keys(
    value_type: crate::proto::python::ResolvedTypeView,
    value_expr: Seq<char>,
    proto_name: Seq<char>,
)
    ensures
        ({
            let lines = crate::proto::python::map_to_proto(value_type, value_expr, proto_name, false);
            let guarded = crate::proto::python::map_to_proto(value_type, value_expr, proto_name, true);
            &&& guarded.len() == lines.len() + 1
            &&& guarded[0] == "if "@ + value_expr + ":"@
            &&& forall|i: int|
                0 <= i < lines.len() ==> #[trigger] guarded[i + 1] == "    "@ + lines[i]
            &&& value_type.kind == ResolvedFieldKind::Message ==> lines == seq![
                "for key, value in "@ + value_expr + ".items():"@,
                "    message."@ + proto_name + "[key].CopyFrom("@ + crate::proto::python::message_to_wire_text(
                    value_type,
                    "value"@,
                ) + ")"@,
            ]
            &&& value_type.kind == ResolvedFieldKind::Enum ==> lines == seq![
                "message."@ + proto_name + ".update({key: "@ + crate::proto::python::enum_to_proto(
                    value_type,
                    "value"@,
                ) + " for key, value in "@ + value_expr + ".items()})"@,
            ]
            &&& value_type.kind == ResolvedFieldKind::Scalar ==> lines == seq![
                "message."@ + proto_name + ".update("@ + value_expr + ")"@,
            ]
        }),
{
    let lines = crate::proto::python::map_to_proto(value_type, value_expr, proto_name, false);
    let guarded = crate::proto::python::map_to_proto(value_type, value_expr, proto_name, true);
    let none = Seq::<char>::empty();
    assert(none + "for key, value in "@ =~= "for key, value in "@);
    assert(none + "    message."@ =~= "    message."@);
    assert(none + "message."@ =~= "message."@);
    assert forall|i: int| 0 <= i < lines.len() implies #[trigger] guarded[i + 1] == "    "@
        + lines[i] by {
        assert("    "@ + lines[i] =~= guarded[i + 1]);
    }
}

/// A list is read element by element, each converted as a single value of its type is; one of
/// scalars is copied.
pub proof fn law_lists_are_read_element_by_element(
    value_type: crate::proto::python::ResolvedTypeView,
    proto_name: Seq<char>,
    type_arguments: Seq<crate::proto::python::TypeArgumentView>,
)
    ensures
        value_type.kind == ResolvedFieldKind::Message || value_type.kind == ResolvedFieldKind::Enum
            ==> crate::proto::python::repeated_from_proto(value_type, proto_name, type_arguments) == "["@
            + crate::proto::python::value_from_proto(value_type, "item"@, type_arguments) + " for item in value."@
            + proto_name + "]"@,
        value_type.kind == ResolvedFieldKind::Scalar ==> crate::proto::python::repeated_from_proto(
            value_type,
            proto_name,
            type_arguments,
        ) == "list(value."@ + proto_name + ")"@,
{
}

/// A list is written element by element into the field that it is read from, and a list that may be
/// missing only where there is one.
pub proof fn law_lists_are_written_element_by_element(
    value_type: crate::proto::python::ResolvedTypeView,
    value_expr: Seq<char>,
    proto_name: Seq<char>,
)
    ensures
        ({
            let lines = crate::proto::python::repeated_to_proto(value_type, value_expr, proto_name, false);
            let guarded = crate::proto::python::repeated_to_proto(value_type, value_expr, proto_name, true);
            &&& guarded.len() == lines.len() + 1
            &&& guarded[0] == "if "@ + value_expr + ":"@
            &&& forall|i: int|
                0 <= i < lines.len() ==> #[trigger] guarded[i + 1] == "    "@ + lines[i]
            &&& value_type.kind == ResolvedFieldKind::Message ==> lines == seq![
                "for value in "@ + value_expr + ":"@,
                "    item = message."@ + proto_name + ".add()"@,
                "    item.CopyFrom("@ + crate::proto::python::message_to_wire_text(value_type, "value"@) + ")"@,
            ]
            &&& value_type.kind == ResolvedFieldKind::Enum ==> lines == seq![
                "message."@ + proto_name + ".extend("@ + crate::proto::python::enum_to_proto(value_type, "value"@)
                    + " for value in "@ + value_expr + ")"@,
            ]
            &&& value_type.kind == ResolvedFieldKind::Scalar ==> lines == seq![
                "message."@ + proto_name + ".extend("@ + value_expr + ")"@,
            ]
        }),
{
    let lines = crate::proto::python::repeated_to_proto(value_type, value_expr, proto_name, false);
    let guarded = crate::proto::python::repeated_to_proto(value_type, value_expr, proto_name, true);
    let none = Seq::<char>::empty();
    assert(none + "for value in "@ =~= "for value in "@);
    assert(none + "    item = message."@ =~= "    item = message."@);
    assert(none + "    item.CopyFrom("@ =~= "    item.CopyFrom("@);
    assert(none + "message."@ =~= "message."@);
    assert forall|i: int| 0 <= i < lines.len() implies #[trigger] guarded[i + 1] == "    "@
        + lines[i] by {
        assert("    "@ + lines[i] =~= guarded[i + 1]);
    }
}

/// A single value is written into the field that it is read from: a message is copied, anything
/// else assigned, and a value that may be missing is written only where it is there.
pub proof fn law_values_are_written_into_their_field(
    value_type: crate::proto::python::ResolvedTypeView,
    value_expr: Seq<char>,
    proto_name: Seq<char>,
)
    ensures
        ({
            let lines = crate::proto::python::value_to_proto(value_type, value_expr, proto_name, false);
            let guarded = crate::proto::python::value_to_proto(value_type, value_expr, proto_name, true);
            &&& lines.len() == 1
            &&& guarded == seq!["if "@ + value_expr + " is not None:"@, "    "@ + lines[0]]
            &&& value_type.kind == ResolvedFieldKind::Message ==> lines[0] == "message."@
                + proto_name + ".CopyFrom("@ + crate::proto::python::message_to_wire_text(value_type, value_expr)
                + ")"@
            &&& value_type.kind == ResolvedFieldKind::Enum ==> lines[0] == "message."@ + proto_name
                + " = "@ + crate::proto::python::enum_to_proto(value_type, value_expr)
            &&& value_type.kind == ResolvedFieldKind::Scalar ==> lines[0] == "message."@
                + proto_name + " = "@ + value_expr
        }),
{
    let lines = crate::proto::python::value_to_proto(value_type, value_expr, proto_name, false);
    let guarded = crate::proto::python::value_to_proto(value_type, value_expr, proto_name, true);
    assert(Seq::<char>::empty() + "message."@ =~= "message."@);
    assert("    "@ + lines[0] =~= guarded[1]);
}

/// A scalar is read as it is; a message and an enumeration through their conversions, and an
/// enumeration without one through its class.
pub proof fn law_values_are_read_through_their_conversion(
    value_type: crate::proto::python::ResolvedTypeView,
    expr: Seq<char>,
    type_arguments: Seq<crate::proto::python::TypeArgumentView>,
)
    ensures
        value_type.kind == ResolvedFieldKind::Scalar ==> crate::proto::python::value_from_proto(
            value_type,
            expr,
            type_arguments,
        ) == expr,
        value_type.wire_conversion is None && value_type.kind == ResolvedFieldKind::Message
            ==> crate::proto::python::value_from_proto(value_type, expr, type_arguments) == expr
            && crate::proto::python::message_to_wire_text(value_type, expr) == expr,
        value_type.wire_conversion is None && value_type.kind == ResolvedFieldKind::Enum
            ==> crate::proto::python::value_from_proto(value_type, expr, type_arguments) == value_type.annotation
            + "("@ + expr + ")"@ && crate::proto::python::enum_to_proto(value_type, expr) == "int("@ + expr + ")"@,
        value_type.wire_conversion matches Some(conversion) ==> {
            &&& value_type.kind == ResolvedFieldKind::Message ==> crate::proto::python::value_from_proto(
                value_type,
                expr,
                type_arguments,
            ) == crate::text::replaced_text(
                crate::text::replaced_text(conversion.from_wire, "{wire}"@, expr),
                "{type_hint}"@,
                crate::proto::python::concrete_hint(value_type.annotation, type_arguments),
            )
            &&& value_type.kind == ResolvedFieldKind::Message ==> crate::proto::python::message_to_wire_text(
                value_type,
                expr,
            ) == crate::text::replaced_text(conversion.to_wire, "{value}"@, expr)
            &&& value_type.kind == ResolvedFieldKind::Enum ==> crate::proto::python::value_from_proto(
                value_type,
                expr,
                type_arguments,
            ) == crate::text::replaced_text(conversion.from_wire, "{wire}"@, expr) && crate::proto::python::enum_to_proto(
                value_type,
                expr,
            ) == crate::text::replaced_text(conversion.to_wire, "{value}"@, expr)
        },
{
}

/// A generated conversion reads and writes through the converter of its model, each direction by
/// its own method; a record without a message is handed through.
pub proof fn law_generated_conversions_call_their_own_methods(
    model_type: PlannedType,
    planned_model: PlannedRecord,
)
    ensures
        planned_model.proto is Some ==> {
            let outcome = crate::proto::python::generated_conversion_of(model_type, planned_model);
            &&& outcome is Some
            &&& outcome->Some_0.annotation == planned_model.name@
            &&& outcome->Some_0.from_wire == "_"@ + planned_model.name@
                + "TransferTypeConverter().from_transfer_type({wire}, {type_hint})"@
            &&& outcome->Some_0.to_wire == "_"@ + planned_model.name@
                + "TransferTypeConverter().to_transfer_type({value})"@
        },
        planned_model.proto is None ==> (model_type matches PlannedType::Message(message) ==> {
            let outcome = crate::proto::python::generated_conversion_of(model_type, planned_model);
            &&& outcome is Some
            &&& outcome->Some_0.annotation == message.model_name@
            &&& outcome->Some_0.from_wire == "_"@ + message.model_name@
                + "TransferTypeConverter().from_transfer_type({wire}, {type_hint})"@
            &&& outcome->Some_0.to_wire == "_"@ + message.model_name@
                + "TransferTypeConverter().to_transfer_type({value})"@
        }),
        planned_model.proto is None ==> (model_type matches PlannedType::Record(record) ==> {
            let outcome = crate::proto::python::generated_conversion_of(model_type, planned_model);
            &&& outcome is Some
            &&& outcome->Some_0.annotation == record.model_name@
            &&& outcome->Some_0.from_wire == "{wire}"@
            &&& outcome->Some_0.to_wire == "{value}"@
        }),
{
}

/// The functions of a replacement are those that it names, and else those that are named after the
/// type.
pub proof fn law_replacements_name_their_functions(name: Seq<char>, replacement: TypeReplacementSpec)
    ensures
        crate::plan::text_for(replacement.from_proto, Language::Python) matches Some(converter)
            ==> crate::proto::python::from_proto_converter(name, replacement) == converter,
        crate::plan::text_for(replacement.to_proto, Language::Python) matches Some(converter)
            ==> crate::proto::python::to_proto_converter(name, replacement) == converter,
        crate::plan::text_for(replacement.from_proto, Language::Python) is None ==> crate::proto::python::from_proto_converter(
            name,
            replacement,
        ) == crate::naming::snake(crate::text::last_segment(name, '.')) + "_from_proto"@,
        crate::plan::text_for(replacement.to_proto, Language::Python) is None ==> crate::proto::python::to_proto_converter(
            name,
            replacement,
        ) == crate::naming::snake(crate::text::last_segment(name, '.')) + "_to_proto"@,
        crate::proto::python::replacement_annotation(replacement) == crate::plan::text_for(
            replacement.annotation,
            Language::Python,
        ),
{
}

/// A message with a replacement is read and written by the functions of the replacement; one with
/// an authored type by the functions that are named after the message.
pub proof fn law_messages_are_converted_by_their_functions(message: PlannedProtoMessage)
    ensures
        ({
            let outcome = crate::proto::python::message_override_conversion_of(PlannedType::Message(message));
            let name = message.proto.full_name@;
            let annotated = message.replacement matches Some(replacement) && crate::plan::text_for(
                replacement.annotation,
                Language::Python,
            ) is Some;
            &&& annotated ==> {
                let replacement = message.replacement->Some_0;
                &&& outcome is Some
                &&& Some(outcome->Some_0.annotation) == crate::plan::text_for(
                    replacement.annotation,
                    Language::Python,
                )
                &&& outcome->Some_0.from_wire == crate::proto::python::from_proto_converter(name, replacement)
                    + "({wire})"@
                &&& outcome->Some_0.to_wire == crate::proto::python::to_proto_converter(name, replacement)
                    + "({value})"@
            }
            &&& !annotated ==> (message.authored_annotation matches Some(annotation) ==> {
                &&& outcome is Some
                &&& outcome->Some_0.annotation == annotation@
                &&& outcome->Some_0.from_wire == crate::naming::snake(crate::text::last_segment(name, '.'))
                    + "_from_proto"@ + "({wire})"@
                &&& outcome->Some_0.to_wire == crate::naming::snake(crate::text::last_segment(name, '.')) + "_to_proto"@
                    + "({value})"@
            })
            &&& !annotated && message.authored_annotation is None ==> outcome is None
        }),
{
}

/// An enumeration with a replacement is read and written by the functions of the replacement.
pub proof fn law_enumerations_are_converted_by_their_functions(
    enumeration: crate::plan::PlannedProtoEnum,
)
    ensures
        ({
            let outcome = crate::proto::python::enum_conversion_of(PlannedType::Enum(enumeration));
            let name = enumeration.proto.full_name@;
            let annotated = enumeration.replacement matches Some(replacement) && crate::plan::text_for(
                replacement.annotation,
                Language::Python,
            ) is Some;
            &&& annotated ==> {
                let replacement = enumeration.replacement->Some_0;
                &&& outcome is Some
                &&& outcome->Some_0.from_wire == crate::proto::python::from_proto_converter(name, replacement)
                    + "({wire})"@
                &&& outcome->Some_0.to_wire == crate::proto::python::to_proto_converter(name, replacement)
                    + "({value})"@
            }
            &&& !annotated ==> outcome is None
        }),
{
}

/// The conversion of a type is that of its enumeration, else that of its override, else the one
/// that is generated for its record.
pub proof fn law_overrides_come_before_generated_conversions(
    model_type: PlannedType,
    record: PlannedRecord,
)
    ensures
        crate::proto::python::enum_conversion_of(model_type) is Some ==> crate::proto::python::conversion_for(model_type, Some(&record))
            == crate::proto::python::enum_conversion_of(model_type),
        crate::proto::python::enum_conversion_of(model_type) is None && crate::proto::python::message_override_conversion_of(
            model_type,
        ) is Some ==> crate::proto::python::conversion_for(model_type, Some(&record))
            == crate::proto::python::message_override_conversion_of(model_type),
        crate::proto::python::enum_conversion_of(model_type) is None && crate::proto::python::message_override_conversion_of(
            model_type,
        ) is None ==> crate::proto::python::conversion_for(model_type, Some(&record)) == crate::proto::python::generated_conversion_of(
            model_type,
            record,
        ) && crate::proto::python::conversion_for(model_type, None) is None,
{
}

/// A value of a generic type is unpacked from the carrier that it is packed into: a payload, or the
/// first of a list of payloads.
pub proof fn law_carriers_are_unpacked_as_they_are_packed(
    value_type: crate::proto::python::ResolvedTypeView,
    proto_expr: Seq<char>,
    value_expr: Seq<char>,
    proto_name: Seq<char>,
    type_arguments: Seq<crate::proto::python::TypeArgumentView>,
)
    ensures
        ({
            let hint = crate::proto::python::concrete_hint(value_type.annotation, type_arguments);
            &&& crate::proto::python::carrier_from_proto(
                ProtoGenericCarrier::Payload,
                value_type,
                proto_expr,
                type_arguments,
            ) == "payload_from_proto("@ + proto_expr + ", "@ + hint + ")"@
            &&& crate::proto::python::carrier_from_proto(
                ProtoGenericCarrier::Payloads,
                value_type,
                proto_expr,
                type_arguments,
            ) == "payloads_from_proto("@ + proto_expr + ", ["@ + hint + "])[0]"@
            &&& crate::proto::python::carrier_to_proto(ProtoGenericCarrier::Payload, value_expr, proto_name, true)
                == seq![
                "if "@ + value_expr + " is not None:"@,
                "    "@ + "message."@ + proto_name + ".CopyFrom("@ + ("payload_to_proto("@
                    + value_expr + ")"@) + ")"@,
            ]
            &&& crate::proto::python::carrier_to_proto(ProtoGenericCarrier::Payloads, value_expr, proto_name, true)
                == seq![
                "if "@ + value_expr + " is not None:"@,
                "    "@ + "message."@ + proto_name + ".CopyFrom("@ + ("payloads_to_proto(["@
                    + value_expr + "])"@) + ")"@,
            ]
            &&& crate::proto::python::carrier_to_proto(ProtoGenericCarrier::Payload, value_expr, proto_name, false)
                == seq![
                Seq::<char>::empty() + "message."@ + proto_name + ".CopyFrom("@
                    + ("payload_to_proto("@ + value_expr + ")"@) + ")"@,
            ]
            &&& crate::proto::python::carrier_to_proto(ProtoGenericCarrier::Payloads, value_expr, proto_name, false)
                == seq![
                Seq::<char>::empty() + "message."@ + proto_name + ".CopyFrom("@
                    + ("payloads_to_proto(["@ + value_expr + "])"@) + ")"@,
            ]
        }),
{
}

/// The carrier of a generic value is told by the name of its message.
pub proof fn law_carriers_are_told_by_their_message(wire_type: PlannedType)
    ensures
        crate::proto::python::generic_carrier_of(wire_type) == Some(ProtoGenericCarrier::Payload) <==> (
        crate::plan::bare_type(wire_type) matches PlannedType::Message(message) && message.proto.full_name@
            == "temporal.api.common.v1.Payload"@),
        crate::proto::python::generic_carrier_of(wire_type) == Some(ProtoGenericCarrier::Payloads) <==> (
        crate::plan::bare_type(wire_type) matches PlannedType::Message(message) && message.proto.full_name@
            == "temporal.api.common.v1.Payloads"@),
{
    reveal_strlit("temporal.api.common.v1.Payload");
    reveal_strlit("temporal.api.common.v1.Payloads");
    assert("temporal.api.common.v1.Payload"@.len() != "temporal.api.common.v1.Payloads"@.len());
}

/// A required field that is missing raises an error, an optional one is `None`, and one with a
/// default is the default.
pub proof fn law_missing_fields_are_read_by_their_policy(
    proto_name: Seq<char>,
    attr_name: Seq<char>,
    field: PlannedRecordField,
    value_type: crate::proto::python::ResolvedTypeView,
    carrier: Option<ProtoGenericCarrier>,
    type_arguments: Seq<crate::proto::python::TypeArgumentView>,
    missing_error: Seq<char>,
    default_expr: Seq<char>,
)
    requires
        field.has_presence == Some(true),
    ensures
        ({
            let value = crate::proto::python::field_value_text(
                proto_name,
                field,
                value_type,
                carrier,
                type_arguments,
            );
            &&& crate::proto::python::field_read_of(
                proto_name,
                attr_name,
                field,
                value_type,
                carrier,
                type_arguments,
                crate::proto::python::ReadPolicyView::Required { missing_error },
            ) == (crate::proto::python::WireReadView {
                setup_lines: seq![
                    "if not value.HasField(\""@ + proto_name + "\"):"@,
                    "    raise ValueError("@ + missing_error + ")"@,
                    attr_name + " = "@ + value,
                ],
                expr: attr_name,
            })
            &&& crate::proto::python::field_read_of(
                proto_name,
                attr_name,
                field,
                value_type,
                carrier,
                type_arguments,
                crate::proto::python::ReadPolicyView::Optional,
            ).expr == value + " if value.HasField(\""@ + proto_name + "\") else None"@
            &&& crate::proto::python::field_read_of(
                proto_name,
                attr_name,
                field,
                value_type,
                carrier,
                type_arguments,
                crate::proto::python::ReadPolicyView::Default { default_expr },
            ).expr == value + " if value.HasField(\""@ + proto_name + "\") else "@ + default_expr
        }),
{
    let value = crate::proto::python::field_value_text(proto_name, field, value_type, carrier, type_arguments);
    assert(crate::proto::python::required_test(proto_name, field, missing_error) + seq![attr_name + " = "@ + value]
        =~= seq![
        "if not value.HasField(\""@ + proto_name + "\"):"@,
        "    raise ValueError("@ + missing_error + ")"@,
        attr_name + " = "@ + value,
    ]);
}

/// A field without presence is missing where it has its zero value: an empty text, no bytes, `False`
/// or zero.
pub proof fn law_zero_values_are_missing(
    proto_name: Seq<char>,
    field: PlannedRecordField,
    value_type: crate::proto::python::ResolvedTypeView,
    value_expr: Seq<char>,
)
    requires
        field.has_presence == Some(false),
    ensures
        value_type.kind == ResolvedFieldKind::Enum ==> crate::proto::python::optional_read(
            field,
            value_type,
            proto_name,
            value_expr,
        ) == value_expr + " if "@ + ("value."@ + proto_name + " != 0"@) + " else None"@,
        value_type.kind == ResolvedFieldKind::Scalar && (crate::plan::bare_type(field.field_type) is Int
            || crate::plan::bare_type(field.field_type) is Float) ==> crate::proto::python::optional_read(
            field,
            value_type,
            proto_name,
            value_expr,
        ) == value_expr + " if "@ + ("value."@ + proto_name + " != 0"@) + " else None"@,
        value_type.kind == ResolvedFieldKind::Scalar && (crate::plan::bare_type(field.field_type) is Bool
            || crate::plan::bare_type(field.field_type) is String || crate::plan::bare_type(field.field_type) is Bytes)
            ==> crate::proto::python::optional_read(field, value_type, proto_name, value_expr) == value_expr + " if "@
            + ("bool(value."@ + proto_name + ")"@) + " else None"@,
        value_type.kind == ResolvedFieldKind::Message ==> crate::proto::python::optional_read(
            field,
            value_type,
            proto_name,
            value_expr,
        ) == value_expr,
{
}

/// How a missing field is read follows from its default.
pub proof fn law_policies_follow_from_defaults(model_name: Seq<char>, field: RenderedField)
    ensures
        field.default_kind is Required ==> crate::proto::python::read_policy_of(model_name, field)
            == (crate::proto::python::ReadPolicyView::Required {
            missing_error: crate::json_text::json_quoted(
                "missing required field "@ + model_name + "."@ + field.attr_name@,
            ),
        }),
        field.default_kind is Missing ==> crate::proto::python::read_policy_of(model_name, field)
            == crate::proto::python::ReadPolicyView::Optional,
        field.default_kind is EmptyDict ==> crate::proto::python::read_policy_of(model_name, field)
            == (crate::proto::python::ReadPolicyView::Default { default_expr: "{}"@ }),
        field.default_kind is EmptyList ==> crate::proto::python::read_policy_of(model_name, field)
            == (crate::proto::python::ReadPolicyView::Default { default_expr: "[]"@ }),
        field.default_kind matches PythonFieldDefaultKind::Expression(text) ==> crate::proto::python::read_policy_of(
            model_name,
            field,
        ) == (crate::proto::python::ReadPolicyView::Default { default_expr: text@ }),
        crate::proto::python::required_field(field) <==> field.default_kind is Required,
{
}

/// A case of a oneof is read where its name is the one that is set, from the field of that name, and
/// wrapped in its own class; a value of the class is written into the same field.
pub proof fn law_cases_are_read_and_written_by_their_field(
    cases: Seq<crate::proto::python::OneofCaseView>,
    local_var: Seq<char>,
    case_var: Seq<char>,
    value_expr: Seq<char>,
    type_arguments: Seq<crate::proto::python::TypeArgumentView>,
    i: int,
)
    requires
        0 <= i < cases.len(),
    ensures
        ({
            let case = cases[i];
            let read = crate::proto::python::oneof_case_read_lines(cases, local_var, case_var, type_arguments);
            let written = crate::proto::python::oneof_case_write_lines(cases, value_expr, Seq::empty());
            let converted = match case.generic_carrier {
                Some(carrier) => crate::proto::python::carrier_from_proto(
                    carrier,
                    case.payload_type,
                    "value."@ + case.proto_name,
                    type_arguments,
                ),
                None => crate::proto::python::value_from_proto(
                    case.payload_type,
                    "value."@ + case.proto_name,
                    type_arguments,
                ),
            };
            &&& read.len() == 2 * cases.len()
            &&& read[2 * i] == "elif "@ + case_var + " == "@ + crate::json_text::json_quoted(
                case.proto_name,
            ) + ":"@
            &&& read[2 * i + 1] == "    "@ + local_var + " = "@ + case.class_name + "("@ + converted
                + ")"@
            &&& written.contains(
                Seq::<char>::empty() + (if i == 0 {
                    "if"@
                } else {
                    "elif"@
                }) + " isinstance("@ + value_expr + ", "@ + case.class_name + "):"@,
            )
        }),
    decreases cases.len(),
{
    let case = cases[i];
    lemma_case_reads(cases.drop_last(), local_var, case_var, type_arguments);
    lemma_case_reads(cases, local_var, case_var, type_arguments);
    let line = Seq::<char>::empty() + (if i == 0 {
        "if"@
    } else {
        "elif"@
    }) + " isinstance("@ + value_expr + ", "@ + case.class_name + "):"@;
    let written = crate::proto::python::oneof_case_write_lines(cases, value_expr, Seq::empty());
    let before = crate::proto::python::oneof_case_write_lines(cases.drop_last(), value_expr, Seq::empty());
    if i < cases.len() - 1 {
        law_cases_are_read_and_written_by_their_field(
            cases.drop_last(),
            local_var,
            case_var,
            value_expr,
            type_arguments,
            i,
        );
        assert(cases.drop_last()[i] == cases[i]);
        let k = choose|k: int| 0 <= k < before.len() && before[k] == line;
        assert(written[k] == before[k]);
    } else {
        assert(written[before.len() as int] == line);
    }
}

/// Each case takes two lines.
proof fn lemma_case_reads(
    cases: Seq<crate::proto::python::OneofCaseView>,
    local_var: Seq<char>,
    case_var: Seq<char>,
    type_arguments: Seq<crate::proto::python::TypeArgumentView>,
)
    ensures
        crate::proto::python::oneof_case_read_lines(cases, local_var, case_var, type_arguments).len() == 2
            * cases.len(),
    decreases cases.len(),
{
    if cases.len() > 0 {
        lemma_case_reads(cases.drop_last(), local_var, case_var, type_arguments);
    }
}

/// A oneof that has no case set raises an error where it is required and is `None` where it is not;
/// an unknown case raises an error.
pub proof fn law_unset_oneofs_are_read_by_their_requirement(
    model_name: Seq<char>,
    attr_name: Seq<char>,
    oneof: crate::proto::python::OneofView,
    type_arguments: Seq<crate::proto::python::TypeArgumentView>,
    required: bool,
)
    ensures
        ({
            let read = crate::proto::python::oneof_read_of(model_name, attr_name, oneof, type_arguments, required);
            let local = "_oneof_"@ + attr_name;
            let lines = read.setup_lines;
            &&& read.expr == local
            &&& lines[0] == local + "_case"@ + " = value.WhichOneof("@
                + crate::json_text::json_quoted(oneof.name) + ")"@
            &&& lines[1] == "if "@ + (local + "_case"@) + " is None:"@
            &&& lines[2] == if required {
                "    raise ValueError("@ + crate::json_text::json_quoted(
                    "missing required field "@ + model_name + "."@ + attr_name,
                ) + ")"@
            } else {
                "    "@ + local + " = None"@
            }
            &&& lines[lines.len() - 2] == "else:"@
            &&& crate::text::has_prefix(lines[lines.len() - 1], "    raise ValueError("@)
        }),
{
    reveal_strlit("    raise ValueError(f\"unknown protobuf oneof case ");
    reveal_strlit("    raise ValueError(");
    let read = crate::proto::python::oneof_read_of(model_name, attr_name, oneof, type_arguments, required);
    let lines = read.setup_lines;
    let last = lines[lines.len() - 1];
    let start = "    raise ValueError("@;
    let long = "    raise ValueError(f\"unknown protobuf oneof case "@;
    assert(long.take(start.len() as int) =~= start);
    assert(last.take(start.len() as int) =~= start);
}

/// The value of a field is read from the field of its name in the message.
pub proof fn law_fields_are_read_from_their_name(
    proto_name: Seq<char>,
    field: PlannedRecordField,
    value_type: crate::proto::python::ResolvedTypeView,
    type_arguments: Seq<crate::proto::python::TypeArgumentView>,
)
    ensures
        field.field_type is Mapping ==> crate::proto::python::field_value_text(
            proto_name,
            field,
            value_type,
            None,
            type_arguments,
        ) == crate::proto::python::map_from_proto(value_type, proto_name, type_arguments),
        field.field_type is List ==> crate::proto::python::field_value_text(
            proto_name,
            field,
            value_type,
            None,
            type_arguments,
        ) == crate::proto::python::repeated_from_proto(value_type, proto_name, type_arguments),
        !(field.field_type is Mapping) && !(field.field_type is List) ==> crate::proto::python::field_value_text(
            proto_name,
            field,
            value_type,
            None,
            type_arguments,
        ) == crate::proto::python::value_from_proto(value_type, "value."@ + proto_name, type_arguments),
{
}

/// The method from a message makes the model of what is read for each of its fields; the method to
/// a message makes an empty message, writes each field and returns the message.
#[verifier::rlimit(40)]
pub proof fn law_methods_read_and_write_every_field(
    model: RenderedModel,
    proto_type: Seq<char>,
    arguments: Seq<crate::proto::python::TypeArgumentView>,
    wires: Seq<crate::proto::python::FieldWireView>,
    generic_oneof: bool,
    i: int,
)
    requires
        model.fields@.len() > 0,
        0 <= i < wires.len(),
    ensures
        ({
            let reader = crate::proto::python::from_transfer_text(model, proto_type, arguments, wires);
            let writer = crate::proto::python::to_transfer_text(model, proto_type, wires, generic_oneof);
            &&& crate::json_schema::annotation::has_part(
                reader,
                "            "@ + wires[i].attr_name + "="@ + wires[i].read.expr + ",\n"@,
            )
            &&& crate::json_schema::annotation::has_part(
                reader,
                crate::proto::python::indented_text(wires[i].read.setup_lines, "        "@),
            )
            &&& crate::json_schema::annotation::has_part(reader, "    def from_transfer_type("@)
            &&& crate::json_schema::annotation::has_part(writer, "    def to_transfer_type("@)
            &&& crate::json_schema::annotation::has_part(
                writer,
                crate::proto::python::indented_text(wires[i].write, "        "@),
            )
            &&& crate::json_schema::annotation::has_part(writer, "        return message\n"@)
        }),
{
    let argument = "            "@ + wires[i].attr_name + "="@ + wires[i].read.expr + ",\n"@;
    let setup = crate::proto::python::indented_text(wires[i].read.setup_lines, "        "@);
    let write = crate::proto::python::indented_text(wires[i].write, "        "@);
    lemma_wire_stands(wires, i);
    crate::json_schema::sides::lemma_part_stays(argument);
    crate::json_schema::sides::lemma_part_stays(setup);
    crate::json_schema::sides::lemma_part_stays(write);
    crate::json_schema::sides::lemma_part_stays("        return message\n"@);
    lemma_method_names();
    crate::json_schema::sides::lemma_part_stays("    def from_transfer_type("@);
    crate::json_schema::sides::lemma_part_stays("    def to_transfer_type("@);
}

/// The heads of the methods hold their names.
proof fn lemma_method_names()
    ensures
        crate::json_schema::annotation::has_part(
            "    @typing_extensions.override\n    def from_transfer_type(\n        self,\n        value: "@,
            "    def from_transfer_type("@,
        ),
        crate::json_schema::annotation::has_part(
            "    @typing_extensions.override\n    def to_transfer_type(\n        self,\n        value: "@,
            "    def to_transfer_type("@,
        ),
{
    reveal_strlit("    @typing_extensions.override\n    def from_transfer_type(\n        self,\n        value: ");
    reveal_strlit("    @typing_extensions.override\n    def to_transfer_type(\n        self,\n        value: ");
    reveal_strlit("    def from_transfer_type(");
    reveal_strlit("    def to_transfer_type(");
    let before = "    @typing_extensions.override\n"@;
    reveal_strlit("    @typing_extensions.override\n");
    let after = "\n        self,\n        value: "@;
    reveal_strlit("\n        self,\n        value: ");
    assert("    @typing_extensions.override\n    def from_transfer_type(\n        self,\n        value: "@
        =~= before + "    def from_transfer_type("@ + after);
    assert("    @typing_extensions.override\n    def to_transfer_type(\n        self,\n        value: "@
        =~= before + "    def to_transfer_type("@ + after);
    crate::json_schema::sides::lemma_part_of(before, "    def from_transfer_type("@, after);
    crate::json_schema::sides::lemma_part_of(before, "    def to_transfer_type("@, after);
}

/// What is read and written of a field stands among what is read and written of all.
#[verifier::rlimit(40)]
proof fn lemma_wire_stands(wires: Seq<crate::proto::python::FieldWireView>, i: int)
    requires
        0 <= i < wires.len(),
    ensures
        crate::json_schema::annotation::has_part(
            crate::proto::python::argument_text(wires),
            "            "@ + wires[i].attr_name + "="@ + wires[i].read.expr + ",\n"@,
        ),
        crate::json_schema::annotation::has_part(
            crate::proto::python::setup_text(wires),
            crate::proto::python::indented_text(wires[i].read.setup_lines, "        "@),
        ),
        crate::json_schema::annotation::has_part(
            crate::proto::python::write_text(wires),
            crate::proto::python::indented_text(wires[i].write, "        "@),
        ),
    decreases wires.len(),
{
    let argument = "            "@ + wires[i].attr_name + "="@ + wires[i].read.expr + ",\n"@;
    let setup = crate::proto::python::indented_text(wires[i].read.setup_lines, "        "@);
    let write = crate::proto::python::indented_text(wires[i].write, "        "@);
    if i < wires.len() - 1 {
        lemma_wire_stands(wires.drop_last(), i);
        assert(wires.drop_last()[i] == wires[i]);
    }
    crate::json_schema::sides::lemma_part_stays(argument);
    crate::json_schema::sides::lemma_part_stays(setup);
    crate::json_schema::sides::lemma_part_stays(write);
}

} // verus!
