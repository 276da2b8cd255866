//! TypeScript conversions between generated models and protobuf messages.

use vstd::prelude::*;

use crate::error::{Error, ErrorView};
use crate::language::Language;
use crate::naming::to_lower_camel;
use crate::plan::{
    relative_descriptor_name, PlannedProtoMessage, PlannedProtoTypeInfo, PlannedRecord, PlannedType,
    TypeReplacementSpec,
};
use crate::proto::validation::validate_record_conversion;
use crate::text::{last_segment_of, replace_text, text_eq};

verus! {

/// The names of the functions between a model and its message.
#[derive(Debug, Clone)]
pub struct WireFunctionNames {
    pub from_wire: String,
    pub to_wire: String,
}

/// Templates for turning a model value into a wire value and back. `{wire}`, `{value}` and
/// `{name}` stand for the expressions that are put in.
#[derive(Debug, Clone)]
pub struct WireValueConversion {
    pub annotation: String,
    pub from_wire: String,
    pub to_wire: String,
    pub function_name_to_wire: Option<String>,
    pub wire_function_names: Option<WireFunctionNames>,
    pub uses_rendered_model_annotation: bool,
}

/// A [`WireValueConversion`] by the views of its texts.
#[verifier::ext_equal]
pub struct ConversionView {
    pub annotation: Seq<char>,
    pub from_wire: Seq<char>,
    pub to_wire: Seq<char>,
    pub function_name_to_wire: Option<Seq<char>>,
    pub wire_function_names: Option<(Seq<char>, Seq<char>)>,
    pub uses_rendered_model_annotation: bool,
}

/// The view of an optional conversion.
pub open spec fn opt_conversion(conversion: Option<WireValueConversion>) -> Option<ConversionView> {
    match conversion {
        Some(conversion) => Some(
            ConversionView {
                annotation: conversion.annotation@,
                from_wire: conversion.from_wire@,
                to_wire: conversion.to_wire@,
                function_name_to_wire: crate::text::opt_text(conversion.function_name_to_wire),
                wire_function_names: match conversion.wire_function_names {
                    Some(names) => Some((names.from_wire@, names.to_wire@)),
                    None => None,
                },
                uses_rendered_model_annotation: conversion.uses_rendered_model_annotation,
            },
        ),
        None => None,
    }
}

/// The conversion through hand-written functions.
pub open spec fn override_of(
    annotation: Seq<char>,
    from_wire: Seq<char>,
    to_wire: Seq<char>,
    function_name_to_wire: Option<Seq<char>>,
) -> ConversionView {
    ConversionView {
        annotation,
        from_wire,
        to_wire,
        function_name_to_wire,
        wire_function_names: None,
        uses_rendered_model_annotation: false,
    }
}

fn override_conversion(
    annotation: String,
    from_wire: String,
    to_wire: String,
    function_name_to_wire: Option<String>,
) -> (result: WireValueConversion)
    ensures
        opt_conversion(Some(result)) == Some(
            override_of(
                annotation@,
                from_wire@,
                to_wire@,
                crate::text::opt_text(function_name_to_wire),
            ),
        ),
{
    WireValueConversion {
        annotation,
        from_wire,
        to_wire,
        function_name_to_wire,
        wire_function_names: None,
        uses_rendered_model_annotation: false,
    }
}

/// A field of a rendered model that holds the fields of another model.
#[derive(Debug, Clone)]
pub struct FlattenedField {
    pub name: String,
    pub from_wire_expr: String,
}

/// A field of a rendered model.
#[derive(Debug, Clone)]
pub struct RenderedField {
    pub name: String,
    pub wire_name: String,
    pub to_wire_expr: String,
    pub from_wire_expr: String,
    pub flattened_fields: Vec<FlattenedField>,
}

/// A field of the message whose value no field of the model gives.
#[derive(Debug, Clone)]
pub struct SourcedField {
    pub name: String,
    pub to_wire_expr: String,
}

/// A rendered model. Of a generic model, `type_parameters` is the list in angle brackets that
/// declares its parameters, and `type_arguments` the one that names them; both are empty for any
/// other model.
#[derive(Debug, Clone)]
pub struct RenderedModel {
    pub name: String,
    pub type_parameters: String,
    pub type_arguments: String,
    pub wire_function_names: Option<WireFunctionNames>,
    pub fields: Vec<RenderedField>,
    pub sourced_fields: Vec<SourcedField>,
}

/// The TypeScript interface of a protobuf message: its name behind an `I`, below its package and
/// the messages that it is declared in.
pub open spec fn interface_ref(proto: PlannedProtoTypeInfo) -> Seq<char> {
    let relative_name = crate::plan::relative_name_text(proto.full_name@, proto.package@);
    let leaf = crate::text::last_segment(relative_name, '.');
    let outer = outer_segments(relative_name);
    (proto.package@ + "."@ + outer + "I"@ + leaf)
}

/// The TypeScript interface of a protobuf message: its name behind an `I`, below its package and
/// the messages that it is declared in.
pub fn message_typescript_interface_ref(proto: &PlannedProtoTypeInfo) -> (result: String)
    ensures
        result@ == interface_ref(*proto),
{
    let relative_name = relative_descriptor_name(proto.full_name.as_str(), proto.package.as_str());
    let leaf = last_segment_of(relative_name.as_str(), '.');
    let outer = without_leaf(relative_name.as_str());
    proto.package.clone().concat(".").concat(outer.as_str()).concat("I").concat(leaf.as_str())
}

/// The part of a dotted name before its last segment, with the dot.
pub open spec fn outer_segments(name: Seq<char>) -> Seq<char> {
    name.take(crate::text::after_last_index(name, '.'))
}

fn without_leaf(name: &str) -> (outer: String)
    ensures
        outer@ == outer_segments(name@),
{
    let chars = crate::text::chars_of(name);
    let mut i: usize = chars.len();
    while i > 0 && chars[i - 1] != '.'
        invariant
            i <= chars.len(),
            forall|j: int| i <= j < chars.len() ==> chars[j] != '.',
        decreases i,
    {
        i -= 1;
    }
    proof {
        crate::text::lemma_after_last_index_at(chars@, '.', i as int);
        assert(chars@.subrange(0, i as int) =~= chars@.take(i as int));
    }
    crate::text::text_between(&chars, 0, i)
}

/// The index of the first record with the name.
pub open spec fn record_index(records: Seq<PlannedRecord>, full_name: Seq<char>) -> Option<int>
    decreases records.len(),
{
    if records.len() == 0 {
        None
    } else {
        match record_index(records.drop_last(), full_name) {
            Some(i) => Some(i),
            None => if records.last().full_name@ == full_name {
                Some(records.len() - 1)
            } else {
                None
            },
        }
    }
}

fn find_record(records: &Vec<PlannedRecord>, full_name: &str) -> (index: Option<usize>)
    ensures
        match index {
            Some(i) => i < records@.len() && record_index(records@, full_name@) == Some(i as int),
            None => record_index(records@, full_name@) is None,
        },
{
    let mut found: Option<usize> = None;
    let mut i: usize = 0;
    while i < records.len()
        invariant
            i <= records.len(),
            match found {
                Some(k) => k < i && record_index(records@.take(i as int), full_name@) == Some(
                    k as int,
                ),
                None => record_index(records@.take(i as int), full_name@) is None,
            },
        decreases records.len() - i,
    {
        assert(records@.take(i + 1).drop_last() =~= records@.take(i as int));
        if found.is_none() && text_eq(records[i].full_name.as_str(), full_name) {
            found = Some(i);
        }
        i += 1;
    }
    assert(records@.take(i as int) =~= records@);
    found
}

/// The message that the record of a type is bound to.
pub open spec fn record_proto(model_type: PlannedType, records: Seq<PlannedRecord>) -> Option<
    PlannedProtoTypeInfo,
> {
    match model_type {
        PlannedType::Record(record) => match record_index(records, record.full_name@) {
            Some(i) => records[i].proto,
            None => None,
        },
        _ => None,
    }
}

/// The message that the record of a type is bound to.
pub fn record_proto_info<'a>(model_type: &PlannedType, records: &'a Vec<PlannedRecord>) -> (proto:
    Option<&'a PlannedProtoTypeInfo>)
    ensures
        match (proto, record_proto(*model_type, records@)) {
            (Some(found), Some(wanted)) => *found == wanted,
            (None, None) => true,
            _ => false,
        },
{
    match model_type {
        PlannedType::Record(record) => match find_record(records, record.full_name.as_str()) {
            Some(i) => match &records[i].proto {
                Some(proto) => Some(proto),
                None => None,
            },
            None => None,
        },
        _ => None,
    }
}

/// The TypeScript interface of the message that a type is sent as; a record without a message
/// is sent as itself.
pub open spec fn model_interface_ref(
    model_type: PlannedType,
    records: Seq<PlannedRecord>,
) -> Option<Seq<char>> {
    match model_type {
        PlannedType::Message(message) => Some(interface_ref(message.proto)),
        PlannedType::Record(record) => match record_proto(model_type, records) {
            Some(proto) => Some(interface_ref(proto)),
            None => Some(record.model_name@),
        },
        _ => None,
    }
}

/// The TypeScript interface of the message that a type is sent as; a record without a message
/// is sent as itself.
pub fn model_typescript_interface_ref(
    model_type: &PlannedType,
    records: &Vec<PlannedRecord>,
) -> (result: Option<String>)
    ensures
        crate::text::opt_text(result) == model_interface_ref(*model_type, records@),
{
    match model_type {
        PlannedType::Message(message) => Some(message_typescript_interface_ref(&message.proto)),
        PlannedType::Record(record) => match record_proto_info(model_type, records) {
            Some(proto) => Some(message_typescript_interface_ref(proto)),
            None => Some(record.model_name.clone()),
        },
        _ => None,
    }
}

/// The name of the message that a type is sent as; a record without a message has its own.
pub open spec fn model_type_id(
    model_type: PlannedType,
    records: Seq<PlannedRecord>,
) -> Option<Seq<char>> {
    match model_type {
        PlannedType::Message(message) => Some(message.proto.full_name@),
        PlannedType::Record(record) => match record_proto(model_type, records) {
            Some(proto) => Some(proto.full_name@),
            None => Some(record.full_name@),
        },
        _ => None,
    }
}

/// The name of the message that a type is sent as; a record without a message has its own.
pub fn model_typescript_type_id(
    model_type: &PlannedType,
    records: &Vec<PlannedRecord>,
) -> (result: Option<String>)
    ensures
        crate::text::opt_text(result) == model_type_id(*model_type, records@),
{
    match model_type {
        PlannedType::Message(message) => Some(message.proto.full_name.clone()),
        PlannedType::Record(record) => match record_proto_info(model_type, records) {
            Some(proto) => Some(proto.full_name.clone()),
            None => Some(record.full_name.clone()),
        },
        _ => None,
    }
}

/// The name of the default function from a protobuf type.
pub open spec fn default_from_proto_name(name: Seq<char>) -> Seq<char> {
    crate::naming::lower_camel(crate::text::last_segment(name, '.')) + "FromProto"@
}

/// The name of the default function from a protobuf type.
pub fn typescript_default_from_proto_name(name: &str) -> (result: String)
    ensures
        result@ == default_from_proto_name(name@),
{
    to_lower_camel(last_segment_of(name, '.').as_str()).concat("FromProto")
}

/// The name of the default function to a protobuf type.
pub open spec fn default_to_proto_name(name: Seq<char>) -> Seq<char> {
    crate::naming::lower_camel(crate::text::last_segment(name, '.')) + "ToProto"@
}

/// The name of the default function to a protobuf type.
pub fn typescript_default_to_proto_name(name: &str) -> (result: String)
    ensures
        result@ == default_to_proto_name(name@),
{
    to_lower_camel(last_segment_of(name, '.').as_str()).concat("ToProto")
}

/// The function from a protobuf type to its replacement.
pub open spec fn from_proto_converter(
    name: Seq<char>,
    replacement: TypeReplacementSpec,
) -> Seq<char> {
    match crate::plan::text_for(replacement.from_proto, Language::TypeScript) {
        Some(converter) => converter,
        None => default_from_proto_name(name),
    }
}

/// The function from a protobuf type to its replacement.
pub fn typescript_from_proto_converter(
    name: &str,
    replacement: &TypeReplacementSpec,
) -> (result: String)
    ensures
        result@ == from_proto_converter(name@, *replacement),
{
    match replacement.from_proto.for_language(Language::TypeScript) {
        Some(converter) => converter,
        None => typescript_default_from_proto_name(name),
    }
}

/// The function from a replacement to its protobuf type.
pub open spec fn to_proto_converter(
    name: Seq<char>,
    replacement: TypeReplacementSpec,
) -> Seq<char> {
    match crate::plan::text_for(replacement.to_proto, Language::TypeScript) {
        Some(converter) => converter,
        None => default_to_proto_name(name),
    }
}

/// The function from a replacement to its protobuf type.
pub fn typescript_to_proto_converter(
    name: &str,
    replacement: &TypeReplacementSpec,
) -> (result: String)
    ensures
        result@ == to_proto_converter(name@, *replacement),
{
    match replacement.to_proto.for_language(Language::TypeScript) {
        Some(converter) => converter,
        None => typescript_default_to_proto_name(name),
    }
}

/// The TypeScript type that stands for a protobuf type.
pub open spec fn replacement_annotation(replacement: TypeReplacementSpec) -> Option<Seq<char>> {
    crate::plan::text_for(replacement.annotation, Language::TypeScript)
}

/// The TypeScript type that stands for a protobuf type.
pub fn typescript_replacement_annotation(
    replacement: &TypeReplacementSpec,
) -> (result: Option<String>)
    ensures
        crate::text::opt_text(result) == replacement_annotation(*replacement),
{
    replacement.annotation.for_language(Language::TypeScript)
}

/// The conversion of a replaced message, where its replacement has a TypeScript type.
pub open spec fn message_replacement_conversion_of(
    message: PlannedProtoMessage,
) -> Option<ConversionView> {
    match message.replacement {
        Some(replacement) => match replacement_annotation(replacement) {
            Some(annotation) => {
                let from_proto = from_proto_converter(message.proto.full_name@, replacement);
                let to_proto = to_proto_converter(message.proto.full_name@, replacement);
                Some(
                    override_of(
                        annotation,
                        (from_proto + "({wire})"@),
                        (to_proto + "({value})"@),
                        Some(to_proto + "({name})"@),
                    ),
                )
            },
            None => None,
        },
        None => None,
    }
}

/// The conversion of a replaced message, where its replacement has a TypeScript type.
pub fn message_replacement_conversion(
    message: &PlannedProtoMessage,
) -> (result: Option<WireValueConversion>)
    ensures
        opt_conversion(result) == message_replacement_conversion_of(*message),
{
    match &message.replacement {
        Some(replacement) => match typescript_replacement_annotation(replacement) {
            Some(annotation) => {
                let from_proto = typescript_from_proto_converter(
                    message.proto.full_name.as_str(),
                    replacement,
                );
                let to_proto = typescript_to_proto_converter(
                    message.proto.full_name.as_str(),
                    replacement,
                );
                Some(
                    override_conversion(
                        annotation,
                        from_proto.clone().concat("({wire})"),
                        to_proto.clone().concat("({value})"),
                        Some(to_proto.clone().concat("({name})")),
                    ),
                )
            },
            None => None,
        },
        None => None,
    }
}

/// The conversion of a message that is not rendered as a model: by its replacement, else by the
/// default functions of its authored type.
pub open spec fn message_override_conversion_of(
    model_type: PlannedType,
) -> Option<ConversionView> {
    match model_type {
        PlannedType::Message(message) => match message_replacement_conversion_of(message) {
            Some(conversion) => Some(conversion),
            None => match message.authored_annotation {
                Some(annotation) => {
                    let from_proto = default_from_proto_name(message.proto.full_name@);
                    let to_proto = default_to_proto_name(message.proto.full_name@);
                    Some(
                        override_of(
                            annotation@,
                            (from_proto + "({wire})"@),
                            (to_proto + "({value})"@),
                            Some(to_proto + "({name})"@),
                        ),
                    )
                },
                None => None,
            },
        },
        _ => None,
    }
}

/// The conversion of a message that is not rendered as a model: by its replacement, else by the
/// default functions of its authored type.
pub fn message_override_conversion(
    model_type: &PlannedType,
) -> (result: Option<WireValueConversion>)
    ensures
        opt_conversion(result) == message_override_conversion_of(*model_type),
{
    match model_type {
        PlannedType::Message(message) => match message_replacement_conversion(message) {
            Some(conversion) => Some(conversion),
            None => match &message.authored_annotation {
                Some(annotation) => {
                    let from_proto = typescript_default_from_proto_name(
                        message.proto.full_name.as_str(),
                    );
                    let to_proto = typescript_default_to_proto_name(
                        message.proto.full_name.as_str(),
                    );
                    Some(
                        override_conversion(
                            annotation.clone(),
                            from_proto.clone().concat("({wire})"),
                            to_proto.clone().concat("({value})"),
                            Some(to_proto.clone().concat("({name})")),
                        ),
                    )
                },
                None => None,
            },
        },
        _ => None,
    }
}

/// The name of the function from a model to its message.
pub open spec fn to_proto_function(model_name: Seq<char>) -> Seq<char> {
    crate::naming::lower_camel(model_name) + "ToProto"@
}

/// The name of the function from a model to its message.
pub fn model_to_proto_function_name(model_name: &str) -> (result: String)
    ensures
        result@ == to_proto_function(model_name@),
{
    to_lower_camel(model_name).concat("ToProto")
}

/// The name of the function from a message to its model.
pub open spec fn from_proto_function(model_name: Seq<char>) -> Seq<char> {
    crate::naming::lower_camel(model_name) + "FromProto"@
}

/// The name of the function from a message to its model.
pub fn model_from_proto_function_name(model_name: &str) -> (result: String)
    ensures
        result@ == from_proto_function(model_name@),
{
    to_lower_camel(model_name).concat("FromProto")
}

/// The name of the model that is generated for a message.
pub open spec fn generated_name(
    model_type: PlannedType,
    planned_model: PlannedRecord,
) -> Option<Seq<char>> {
    if planned_model.proto.is_some() {
        Some(planned_model.name@)
    } else {
        match model_type {
            PlannedType::Message(message) => Some(message.model_name@),
            _ => None,
        }
    }
}

/// The name of the model that is generated for a message.
pub fn generated_model_name(
    model_type: &PlannedType,
    planned_model: &PlannedRecord,
) -> (result: Option<String>)
    ensures
        crate::text::opt_text(result) == generated_name(*model_type, *planned_model),
{
    if planned_model.proto.is_some() {
        Some(planned_model.name.clone())
    } else {
        match model_type {
            PlannedType::Message(message) => Some(message.model_name.clone()),
            _ => None,
        }
    }
}

/// The conversion through the functions that are generated for the model.
pub open spec fn generated_of(model_name: Seq<char>) -> ConversionView {
    ConversionView {
        annotation: model_name,
        from_wire: from_proto_function(model_name) + "({wire})"@,
        to_wire: to_proto_function(model_name) + "({value}) ?? {}"@,
        function_name_to_wire: Some(
            to_proto_function(model_name) + "({ name: {name} }) ?? {}"@,
        ),
        wire_function_names: Some((from_proto_function(model_name), to_proto_function(model_name))),
        uses_rendered_model_annotation: true,
    }
}

/// The conversion of a generated model.
pub fn generated_wire_conversion(
    model_type: &PlannedType,
    planned_model: &PlannedRecord,
) -> (result: Option<WireValueConversion>)
    ensures
        opt_conversion(result) == generated_conversion_of(*model_type, *planned_model),
{
    match generated_model_name(model_type, planned_model) {
        Some(model_name) => {
            let from_wire = model_from_proto_function_name(model_name.as_str());
            let to_wire = model_to_proto_function_name(model_name.as_str());
            Some(
                WireValueConversion {
                    annotation: model_name,
                    from_wire: from_wire.clone().concat("({wire})"),
                    to_wire: to_wire.clone().concat("({value}) ?? {}"),
                    function_name_to_wire: Some(
                        to_wire.clone().concat("({ name: {name} }) ?? {}"),
                    ),
                    wire_function_names: Some(WireFunctionNames { from_wire, to_wire }),
                    uses_rendered_model_annotation: true,
                },
            )
        },
        None => None,
    }
}

/// The conversion of a generated model.
pub open spec fn generated_conversion_of(
    model_type: PlannedType,
    planned_model: PlannedRecord,
) -> Option<ConversionView> {
    match generated_name(model_type, planned_model) {
        Some(model_name) => Some(generated_of(model_name)),
        None => None,
    }
}

/// The conversion of a protobuf enum that is replaced.
pub open spec fn enum_conversion_of(value_type: PlannedType) -> Option<ConversionView> {
    match value_type {
        PlannedType::Enum(enumeration) => match enumeration.replacement {
            Some(replacement) => match replacement_annotation(replacement) {
                Some(annotation) => Some(override_of(
                        annotation,
                        (
                            from_proto_converter(
                                enumeration.proto.full_name@,
                                replacement,
                            ) + "({wire})"@
                        ),
                        (
                            to_proto_converter(
                                enumeration.proto.full_name@,
                                replacement,
                            ) + "({value})"@
                        ),
                        None,
                )),
                None => None,
            },
            None => None,
        },
        _ => None,
    }
}

/// The conversion of a protobuf enum that is replaced.
pub fn enum_wire_conversion(value_type: &PlannedType) -> (result: Option<WireValueConversion>)
    ensures
        opt_conversion(result) == enum_conversion_of(*value_type),
{
    match value_type {
        PlannedType::Enum(enumeration) => match &enumeration.replacement {
            Some(replacement) => match typescript_replacement_annotation(replacement) {
                Some(annotation) => Some(override_conversion(
                    annotation,
                    typescript_from_proto_converter(
                        enumeration.proto.full_name.as_str(),
                        replacement,
                    ).concat("({wire})"),
                    typescript_to_proto_converter(
                        enumeration.proto.full_name.as_str(),
                        replacement,
                    ).concat("({value})"),
                    None,
                )),
                None => None,
            },
            None => None,
        },
        _ => None,
    }
}

/// The conversion of a type: of a replaced enum, of an overridden message, or of the generated
/// model of `planned_record`.
pub open spec fn conversion_for(
    model_type: PlannedType,
    planned_record: Option<&PlannedRecord>,
) -> Option<ConversionView> {
    match enum_conversion_of(model_type) {
        Some(conversion) => Some(conversion),
        None => match message_override_conversion_of(model_type) {
            Some(conversion) => Some(conversion),
            None => match planned_record {
                Some(record) => generated_conversion_of(model_type, *record),
                None => None,
            },
        },
    }
}

/// The conversion of a type: of a replaced enum, of an overridden message, or of the generated
/// model of `planned_record`.
pub fn wire_conversion(
    model_type: &PlannedType,
    planned_record: Option<&PlannedRecord>,
) -> (result: Option<WireValueConversion>)
    ensures
        opt_conversion(result) == conversion_for(*model_type, planned_record),
{
    match enum_wire_conversion(model_type) {
        Some(conversion) => Some(conversion),
        None => match message_override_conversion(model_type) {
            Some(conversion) => Some(conversion),
            None => match planned_record {
                Some(record) => generated_wire_conversion(model_type, record),
                None => None,
            },
        },
    }
}

/// The annotation of a type that protobuf declares.
pub open spec fn type_annotation_of(model_type: PlannedType) -> Option<Seq<char>> {
    match model_type {
        PlannedType::Message(message) => Some(interface_ref(message.proto)),
        PlannedType::Enum(enumeration) => {
            let replaced = match enumeration.replacement {
                Some(replacement) => replacement_annotation(replacement),
                None => None,
            };
            match replaced {
                Some(annotation) => Some(annotation),
                None => Some(enumeration.name@),
            }
        },
        _ => None,
    }
}

/// The annotation of a type that protobuf declares.
pub fn model_type_annotation(model_type: &PlannedType) -> (result: Option<String>)
    ensures
        crate::text::opt_text(result) == type_annotation_of(*model_type),
{
    match model_type {
        PlannedType::Message(message) => Some(message_typescript_interface_ref(&message.proto)),
        PlannedType::Enum(enumeration) => {
            let replaced = match &enumeration.replacement {
                Some(replacement) => typescript_replacement_annotation(replacement),
                None => None,
            };
            match replaced {
                Some(annotation) => Some(annotation),
                None => Some(enumeration.name.clone()),
            }
        },
        _ => None,
    }
}

/// The name under which the wire knows a type.
pub open spec fn wire_identifier_of(model_type: PlannedType) -> Option<Seq<char>> {
    match model_type {
        PlannedType::Message(message) => Some(message.proto.full_name@),
        _ => None,
    }
}

/// The name under which the wire knows a type.
pub fn wire_type_identifier(model_type: &PlannedType) -> (result: Option<String>)
    ensures
        crate::text::opt_text(result) == wire_identifier_of(*model_type),
{
    match model_type {
        PlannedType::Message(message) => Some(message.proto.full_name.clone()),
        _ => None,
    }
}

/// A field of a protobuf message as its descriptor names it.
#[derive(Debug, Clone)]
pub struct FieldDescriptor {
    pub name: Option<String>,
    pub json_name: Option<String>,
}

/// Where the name of a generated field comes from.
#[derive(Debug, Clone)]
pub enum FieldNameSource {
    /// From the input, in its spelling.
    Authored(String),
    /// From the descriptor, as it stands.
    Descriptor(String),
}

/// The name that a generated field is made from: the explicit one, else the JSON name of the
/// descriptor, else its name. A descriptor names its field.
pub fn field_name(field: &FieldDescriptor, explicit_name: Option<&str>) -> (source: FieldNameSource)
    requires
        explicit_name is None ==> field.json_name is Some || field.name is Some,
    ensures
        match (explicit_name, field.json_name, field.name) {
            (Some(name), _, _) => source matches FieldNameSource::Authored(text) && text@ == name@,
            (None, Some(name), _) => source matches FieldNameSource::Descriptor(text) && text@
                == name@,
            (None, None, Some(name)) => source matches FieldNameSource::Descriptor(text) && text@
                == name@,
            _ => false,
        },
{
    match explicit_name {
        Some(name) => FieldNameSource::Authored(name.to_owned()),
        None => match &field.json_name {
            Some(name) => FieldNameSource::Descriptor(name.clone()),
            None => match &field.name {
                Some(name) => FieldNameSource::Descriptor(name.clone()),
                None => FieldNameSource::Descriptor(String::new()),
            },
        },
    }
}

/// The TypeScript type of the message of a model; a model without one is sent as itself.
pub open spec fn wire_annotation_text(
    model: RenderedModel,
    planned_record: PlannedRecord,
) -> Seq<char> {
    match planned_record.proto {
        Some(proto) => interface_ref(proto),
        None => model.name@,
    }
}

/// The TypeScript type of the message of a model; a model without one is sent as itself.
pub fn rendered_model_wire_annotation(
    model: &RenderedModel,
    planned_record: &PlannedRecord,
) -> (result: String)
    ensures
        result@ == wire_annotation_text(*model, *planned_record),
{
    match &planned_record.proto {
        Some(proto) => message_typescript_interface_ref(proto),
        None => model.name.clone(),
    }
}

/// The entries of the message that the fields of the model give.
pub open spec fn field_entries_text(fields: Seq<RenderedField>) -> Seq<char>
    decreases fields.len(),
{
    if fields.len() == 0 {
        Seq::empty()
    } else {
        let field = fields.last();
        field_entries_text(fields.drop_last()) + (
            ("    "@ + field.wire_name@ + ": "@ + field.to_wire_expr@ + ",\n"@)
        )
    }
}

/// The entries of the message that the fields of the model give.
pub fn field_entries(fields: &Vec<RenderedField>) -> (result: String)
    ensures
        result@ == field_entries_text(fields@),
{
    let mut result: String = String::new();
    let mut i: usize = 0;
    while i < fields.len()
        invariant
            i <= fields.len(),
            result@ == field_entries_text(fields@.take(i as int)),
        decreases fields.len() - i,
    {
        proof {
            assert(fields@.take(i + 1).drop_last() =~= fields@.take(i as int));
            assert(fields@.take(i + 1).last() == fields@[i as int]);
        }
        let field = &fields[i];
        let part = "    ".to_owned().concat(field.wire_name.as_str()).concat(": ")
            .concat(field.to_wire_expr.as_str()).concat(",\n");
        result.append(part.as_str());
        i += 1;
    }
    proof {
        crate::text::lemma_take_all(fields@);
    }
    result
}

/// The entries of the message that no field of the model gives.
pub open spec fn sourced_entries_text(fields: Seq<SourcedField>) -> Seq<char>
    decreases fields.len(),
{
    if fields.len() == 0 {
        Seq::empty()
    } else {
        let field = fields.last();
        sourced_entries_text(fields.drop_last()) + (
            ("    "@ + field.name@ + ": "@ + field.to_wire_expr@ + ",\n"@)
        )
    }
}

/// The entries of the message that no field of the model gives.
pub fn sourced_entries(fields: &Vec<SourcedField>) -> (result: String)
    ensures
        result@ == sourced_entries_text(fields@),
{
    let mut result: String = String::new();
    let mut i: usize = 0;
    while i < fields.len()
        invariant
            i <= fields.len(),
            result@ == sourced_entries_text(fields@.take(i as int)),
        decreases fields.len() - i,
    {
        proof {
            assert(fields@.take(i + 1).drop_last() =~= fields@.take(i as int));
            assert(fields@.take(i + 1).last() == fields@[i as int]);
        }
        let field = &fields[i];
        let part = "    ".to_owned().concat(field.name.as_str()).concat(": ")
            .concat(field.to_wire_expr.as_str()).concat(",\n");
        result.append(part.as_str());
        i += 1;
    }
    proof {
        crate::text::lemma_take_all(fields@);
    }
    result
}

/// The function from a model to its message.
pub open spec fn to_proto_function_text(
    model: RenderedModel,
    planned_record: PlannedRecord,
    function_name: Seq<char>,
) -> Seq<char> {
    let wire_annotation = wire_annotation_text(model, planned_record);
    let head = "export function "@ + function_name + model.type_parameters@ + "(\n  model: "@ + model.name@
        + model.type_arguments@ + " | null | undefined,\n): "@ + wire_annotation
        + " | undefined {\n  if (model == null) {\n    return undefined;\n  }\n"@;
    let body = if model.fields@.len() == 0 && model.sourced_fields@.len() == 0 {
        "  return {};\n"@
    } else {
        "  return {\n"@ + field_entries_text(model.fields@)
            + sourced_entries_text(model.sourced_fields@) + "  };\n"@
    };
    (head + body + "}\n"@)
}

/// The function from a model to its message.
pub fn render_model_to_proto_function(
    output: &mut String,
    model: &RenderedModel,
    planned_record: &PlannedRecord,
    function_name: &str,
)
    ensures
        final(output)@ == old(output)@ + to_proto_function_text(
            *model,
            *planned_record,
            function_name@,
        ),
{
    let text = {
        let wire_annotation = rendered_model_wire_annotation(model, planned_record);
        let head = "export function ".to_owned().concat(function_name)
            .concat(model.type_parameters.as_str()).concat("(\n  model: ")
            .concat(model.name.as_str()).concat(model.type_arguments.as_str())
            .concat(" | null | undefined,\n): ").concat(wire_annotation.as_str())
            .concat(" | undefined {\n  if (model == null) {\n    return undefined;\n  }\n");
        let body = if model.fields.len() == 0 && model.sourced_fields.len() == 0 {
            "  return {};\n".to_owned()
        } else {
            "  return {\n".to_owned().concat(field_entries(&model.fields).as_str())
                .concat(sourced_entries(&model.sourced_fields).as_str()).concat("  };\n")
        };
        head.clone().concat(body.as_str()).concat("}\n")
    };
    output.append(text.as_str());
}

/// A template with the message in the place of `{wire}`.
pub open spec fn from_proto_text(field_expr: Seq<char>) -> Seq<char> {
    crate::text::replaced_text(field_expr, "{wire}"@, "proto"@)
}

/// A template with the message in the place of `{wire}`.
pub fn from_proto_expr(field_expr: &str) -> (result: String)
    ensures
        result@ == from_proto_text(field_expr@),
{
    replace_text(field_expr, "{wire}", "proto")
}

/// The entries of the model that a flattened field gives.
pub open spec fn flattened_entries_text(fields: Seq<FlattenedField>) -> Seq<char>
    decreases fields.len(),
{
    if fields.len() == 0 {
        Seq::empty()
    } else {
        let field = fields.last();
        flattened_entries_text(fields.drop_last()) + (
            ("    "@ + field.name@ + ": "@ + from_proto_text(field.from_wire_expr@) + ",\n"@)
        )
    }
}

/// The entries of the model that a flattened field gives.
pub fn flattened_entries(fields: &Vec<FlattenedField>) -> (result: String)
    ensures
        result@ == flattened_entries_text(fields@),
{
    let mut result: String = String::new();
    let mut i: usize = 0;
    while i < fields.len()
        invariant
            i <= fields.len(),
            result@ == flattened_entries_text(fields@.take(i as int)),
        decreases fields.len() - i,
    {
        proof {
            assert(fields@.take(i + 1).drop_last() =~= fields@.take(i as int));
            assert(fields@.take(i + 1).last() == fields@[i as int]);
        }
        let field = &fields[i];
        let part = "    ".to_owned().concat(field.name.as_str()).concat(": ")
            .concat(from_proto_expr(field.from_wire_expr.as_str()).as_str()).concat(",\n");
        result.append(part.as_str());
        i += 1;
    }
    proof {
        crate::text::lemma_take_all(fields@);
    }
    result
}

/// The entries of the model that its message gives.
pub open spec fn model_entries_text(fields: Seq<RenderedField>) -> Seq<char>
    decreases fields.len(),
{
    if fields.len() == 0 {
        Seq::empty()
    } else {
        let field = fields.last();
        model_entries_text(fields.drop_last()) + (
            if field.flattened_fields@.len() == 0 {
                "    "@ + field.name@ + ": "@ + from_proto_text(field.from_wire_expr@) + ",\n"@
            } else {
                flattened_entries_text(field.flattened_fields@)
            }
        )
    }
}

/// The entries of the model that its message gives.
pub fn model_entries(fields: &Vec<RenderedField>) -> (result: String)
    ensures
        result@ == model_entries_text(fields@),
{
    let mut result: String = String::new();
    let mut i: usize = 0;
    while i < fields.len()
        invariant
            i <= fields.len(),
            result@ == model_entries_text(fields@.take(i as int)),
        decreases fields.len() - i,
    {
        proof {
            assert(fields@.take(i + 1).drop_last() =~= fields@.take(i as int));
            assert(fields@.take(i + 1).last() == fields@[i as int]);
        }
        let field = &fields[i];
        let part = if field.flattened_fields.len() == 0 {
            "    ".to_owned().concat(field.name.as_str()).concat(": ")
                .concat(from_proto_expr(field.from_wire_expr.as_str()).as_str()).concat(",\n")
        } else {
            flattened_entries(&field.flattened_fields)
        };
        result.append(part.as_str());
        i += 1;
    }
    proof {
        crate::text::lemma_take_all(fields@);
    }
    result
}

/// The function from a message to its model.
pub open spec fn from_proto_function_text(
    model: RenderedModel,
    planned_record: PlannedRecord,
    function_name: Seq<char>,
) -> Seq<char> {
    let wire_annotation = wire_annotation_text(model, planned_record);
    let head = "export function "@ + function_name + model.type_parameters@ + "(\n  proto: "@
        + wire_annotation + " | null | undefined,\n): "@ + model.name@ + model.type_arguments@
        + " | undefined {\n  if (proto == null) {\n    return undefined;\n  }\n"@;
    let body = if model.fields@.len() == 0 {
        "  return {};\n"@
    } else {
        "  return {\n"@ + model_entries_text(model.fields@) + "  };\n"@
    };
    (head + body + "}\n"@)
}

/// The function from a message to its model.
pub fn render_model_from_proto_function(
    output: &mut String,
    model: &RenderedModel,
    planned_record: &PlannedRecord,
    function_name: &str,
)
    ensures
        final(output)@ == old(output)@ + from_proto_function_text(
            *model,
            *planned_record,
            function_name@,
        ),
{
    let text = {
        let wire_annotation = rendered_model_wire_annotation(model, planned_record);
        let head = "export function ".to_owned().concat(function_name)
            .concat(model.type_parameters.as_str()).concat("(\n  proto: ")
            .concat(wire_annotation.as_str()).concat(" | null | undefined,\n): ")
            .concat(model.name.as_str()).concat(model.type_arguments.as_str())
            .concat(" | undefined {\n  if (proto == null) {\n    return undefined;\n  }\n");
        let body = if model.fields.len() == 0 {
            "  return {};\n".to_owned()
        } else {
            "  return {\n".to_owned().concat(model_entries(&model.fields).as_str()).concat("  };\n")
        };
        head.clone().concat(body.as_str()).concat("}\n")
    };
    output.append(text.as_str());
}

/// The adapter that carries a model as its message.
pub open spec fn transfer_converter_text(
    model: RenderedModel,
    proto: PlannedProtoTypeInfo,
    names: WireFunctionNames,
) -> Seq<char> {
    let proto_type = interface_ref(proto);
    (
        "export const "@ + crate::naming::lower_camel(model.name@)
            + "TransferTypeConverter = {\n  fromTransferType(value: "@ + proto_type + "): "@
            + model.name@ + " {\n    return "@ + names.from_wire@
            + "(value)!;\n  },\n\n  toTransferType(value: "@ + model.name@ + "): "@ + proto_type
            + " {\n    return "@ + names.to_wire@ + "(value) ?? {};\n  },\n};"@
    )
}

/// The adapter that carries a model as its message.
pub fn render_model_transfer_type_converter(
    output: &mut String,
    model: &RenderedModel,
    proto: &PlannedProtoTypeInfo,
    names: &WireFunctionNames,
)
    ensures
        final(output)@ == old(output)@ + transfer_converter_text(*model, *proto, *names),
{
    let text = {
        let proto_type = message_typescript_interface_ref(proto);
        "export const ".to_owned().concat(to_lower_camel(model.name.as_str()).as_str())
            .concat("TransferTypeConverter = {\n  fromTransferType(value: ")
            .concat(proto_type.as_str()).concat("): ").concat(model.name.as_str())
            .concat(" {\n    return ").concat(names.from_wire.as_str())
            .concat("(value)!;\n  },\n\n  toTransferType(value: ").concat(model.name.as_str())
            .concat("): ").concat(proto_type.as_str()).concat(" {\n    return ")
            .concat(names.to_wire.as_str()).concat("(value) ?? {};\n  },\n};")
    };
    output.append(text.as_str());
}

/// The functions between a model and its message, and the adapter that uses them.
pub open spec fn wire_functions_text(
    model: RenderedModel,
    planned_record: PlannedRecord,
    proto: PlannedProtoTypeInfo,
    names: WireFunctionNames,
) -> Seq<char> {
    from_proto_function_text(model, planned_record, names.from_wire@) + "\n"@
        + to_proto_function_text(model, planned_record, names.to_wire@) + "\n"@
        + transfer_converter_text(model, proto, names)
}

/// Renders the functions between a model and its message, where the model has any; a model that
/// has them is bound to a message.
pub fn render_model_wire_functions(
    output: &mut String,
    model: &RenderedModel,
    planned_record: &PlannedRecord,
) -> (rendered: bool)
    requires
        model.wire_function_names is Some ==> planned_record.proto is Some,
    ensures
        rendered == (model.wire_function_names is Some),
        final(output)@ == old(output)@ + match model.wire_function_names {
            Some(names) => wire_functions_text(
                *model,
                *planned_record,
                planned_record.proto->Some_0,
                names,
            ),
            None => Seq::empty(),
        },
{
    match (&model.wire_function_names, &planned_record.proto) {
        (Some(names), Some(proto)) => {
            let mut text = String::new();
            render_model_from_proto_function(
                &mut text,
                model,
                planned_record,
                names.from_wire.as_str(),
            );
            text.append("\n");
            render_model_to_proto_function(
                &mut text,
                model,
                planned_record,
                names.to_wire.as_str(),
            );
            text.append("\n");
            render_model_transfer_type_converter(&mut text, model, proto, names);
            assert(text@ =~= wire_functions_text(*model, *planned_record, *proto, *names));
            output.append(text.as_str());
            true
        },
        _ => {
            assert(output@ =~= output@ + Seq::<char>::empty());
            false
        },
    }
}

/// The error of the first record that cannot be converted.
pub open spec fn records_conversion_error(
    language: Language,
    records: Seq<PlannedRecord>,
) -> Option<
    ErrorView,
>
    decreases records.len(),
{
    if records.len() == 0 {
        None
    } else {
        match crate::proto::validation::record_conversion_error(language, records[0]) {
            Some(error) => Some(error),
            None => records_conversion_error(language, records.drop_first()),
        }
    }
}

/// Refuses the first record with a field that TypeScript has no conversion for.
pub fn prepare(records: &Vec<PlannedRecord>) -> (result: Result<(), Error>)
    ensures
        match records_conversion_error(Language::TypeScript, records@) {
            Some(view) => result matches Err(error) && error@ == view,
            None => result is Ok,
        },
{
    let ghost all = records@;
    let mut i: usize = 0;
    assert(all.skip(0) =~= all);
    while i < records.len()
        invariant
            i <= records.len(),
            all == records@,
            records_conversion_error(Language::TypeScript, all.skip(i as int))
                == records_conversion_error(Language::TypeScript, all),
        decreases records.len() - i,
    {
        assert(all.skip(i as int).drop_first() =~= all.skip(i + 1));
        assert(all.skip(i as int)[0] == all[i as int]);
        match validate_record_conversion(Language::TypeScript, &records[i]) {
            Ok(_) => {},
            Err(error) => {
                return Err(error);
            },
        }
        i += 1;
    }
    Ok(())
}

} // verus!
