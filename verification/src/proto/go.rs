//! Go conversions between generated models and protobuf messages.

use vstd::prelude::*;

use crate::error::{Error, ErrorView};
use crate::json_text::quote_json;
use crate::language::Language;
use crate::naming::{to_lower_camel, to_upper_camel};
use crate::plan::{LanguageStringSpec, PlannedProtoTypeInfo, PlannedRecord, TypeReplacementSpec};
use crate::proto::go_imports::{go_proto_ref, GoImportCollector, ImportEntries};
use crate::proto::validation::validate_record_conversion;
use crate::text::{join_texts, last_segment_of, starts_with, text_eq, with_lines};

verus! {

/// The shape of a conversion, which decides how pointers are bridged.
#[derive(Debug, Clone, Copy, PartialEq, Eq, Structural)]
pub enum GoConversionKind {
    /// None: both sides have the same Go type.
    Scalar,
    /// A cast between a named type and a protobuf enum.
    Enum,
    /// A hand-written pair of functions.
    OverrideConverter,
    /// The functions that are generated for a model: a value on one side, a pointer to the
    /// message on the other.
    ModelConverter,
}

/// How a value is turned into its protobuf form and back: the text around the expression in
/// each direction.
#[derive(Debug, Clone)]
pub struct GoValueConversion {
    pub kind: GoConversionKind,
    pub from_before: String,
    pub from_after: String,
    pub to_before: String,
    pub to_after: String,
    /// Whether the conversion gives an error beside the value.
    pub fallible: bool,
    /// Whether the native argument is a pointer.
    pub to_proto_takes_pointer: bool,
    /// Whether the native result is a pointer.
    pub from_proto_returns_pointer: bool,
}

/// A [`GoValueConversion`] by the views of its texts.
#[verifier::ext_equal]
pub struct GoConversionView {
    pub kind: GoConversionKind,
    pub from_before: Seq<char>,
    pub from_after: Seq<char>,
    pub to_before: Seq<char>,
    pub to_after: Seq<char>,
    pub fallible: bool,
    pub to_proto_takes_pointer: bool,
    pub from_proto_returns_pointer: bool,
}

impl View for GoValueConversion {
    type V = GoConversionView;

    open spec fn view(&self) -> GoConversionView {
        GoConversionView {
            kind: self.kind,
            from_before: self.from_before@,
            from_after: self.from_after@,
            to_before: self.to_before@,
            to_after: self.to_after@,
            fallible: self.fallible,
            to_proto_takes_pointer: self.to_proto_takes_pointer,
            from_proto_returns_pointer: self.from_proto_returns_pointer,
        }
    }
}

/// The outcome of building a conversion, or the reason that there is none.
pub open spec fn conversion_outcome(result: Result<GoValueConversion, String>) -> Result<
    GoConversionView,
    Seq<char>,
> {
    match result {
        Ok(conversion) => Ok(conversion@),
        Err(reason) => Err(reason@),
    }
}

/// The native expression for a protobuf expression.
pub open spec fn from_proto_text(conversion: GoConversionView, expr: Seq<char>) -> Seq<char> {
    conversion.from_before + expr + conversion.from_after
}

/// The native expression for a protobuf expression.
pub fn from_proto(conversion: &GoValueConversion, expr: &str) -> (result: String)
    ensures
        result@ == from_proto_text(conversion@, expr@),
{
    conversion.from_before.as_str().to_owned().concat(expr).concat(conversion.from_after.as_str())
}

/// The protobuf expression for a native expression.
pub open spec fn to_proto_text(conversion: GoConversionView, expr: Seq<char>) -> Seq<char> {
    conversion.to_before + expr + conversion.to_after
}

/// The protobuf expression for a native expression.
pub fn to_proto(conversion: &GoValueConversion, expr: &str) -> (result: String)
    ensures
        result@ == to_proto_text(conversion@, expr@),
{
    conversion.to_before.as_str().to_owned().concat(expr).concat(conversion.to_after.as_str())
}

/// A scalar type of a planned value.
#[derive(Debug, Clone, Copy, PartialEq, Eq, Structural)]
pub enum PlannedScalarType {
    Float,
    Int32,
    Int64,
    Bool,
    String,
    Bytes,
}

/// Where a message of the plan comes from.
#[derive(Debug, Clone, Copy, PartialEq, Eq, Structural)]
pub enum PlannedMessageSource {
    Proto,
    Wit,
}

/// A message of the plan.
#[derive(Debug, Clone)]
pub struct PlannedMessageType {
    pub info: PlannedProtoTypeInfo,
    pub model_name: String,
    pub replacement: Option<TypeReplacementSpec>,
    /// Whether the Go type of the replacement has a `nil` value of its own.
    pub replacement_is_nilable: bool,
    /// The annotation of the authored type that stands for the message.
    pub authored_annotation: Option<String>,
    pub source: PlannedMessageSource,
}

/// An enum of the plan.
#[derive(Debug, Clone)]
pub struct PlannedEnumType {
    pub name: Option<String>,
    pub info: Option<PlannedProtoTypeInfo>,
    pub replacement: Option<TypeReplacementSpec>,
}

/// A value of the plan.
#[derive(Debug, Clone)]
pub enum PlannedValueType {
    Scalar(PlannedScalarType),
    Enum(PlannedEnumType),
    Message(PlannedMessageType),
    Flags,
    Variant,
    Tuple,
    Outcome,
    External,
    Unknown,
    Other,
}

/// How many values a field holds.
#[derive(Debug, Clone)]
pub enum PlannedFieldKind {
    Singular(PlannedValueType),
    Repeated(PlannedValueType),
    Mapping { key: PlannedValueType, value: PlannedValueType },
}

/// The names that the generated package gives to types of the SDK.
#[derive(Debug, Clone)]
pub struct GoPackageContext {
    pub workflow_context_type: String,
    pub new_future: String,
    pub nexus_operation_options: String,
    pub operation_future_type: String,
}

/// The Go type of a scalar.
pub open spec fn scalar_type_text(scalar: PlannedScalarType) -> Seq<char> {
    match scalar {
        PlannedScalarType::Float => "float64"@,
        PlannedScalarType::Int32 => "int32"@,
        PlannedScalarType::Int64 => "int64"@,
        PlannedScalarType::Bool => "bool"@,
        PlannedScalarType::String => "string"@,
        PlannedScalarType::Bytes => "[]byte"@,
    }
}

/// The Go type of a scalar.
pub fn go_scalar_type_expr(scalar: PlannedScalarType) -> (result: String)
    ensures
        result@ == scalar_type_text(scalar),
{
    match scalar {
        PlannedScalarType::Float => "float64".to_owned(),
        PlannedScalarType::Int32 => "int32".to_owned(),
        PlannedScalarType::Int64 => "int64".to_owned(),
        PlannedScalarType::Bool => "bool".to_owned(),
        PlannedScalarType::String => "string".to_owned(),
        PlannedScalarType::Bytes => "[]byte".to_owned(),
    }
}

/// The last segment of a protobuf name in lower camel case.
pub open spec fn leaf_lower_camel_text(full_name: Seq<char>) -> Seq<char> {
    crate::naming::lower_camel(crate::text::last_segment(full_name, '.'))
}

/// The last segment of a protobuf name in lower camel case.
pub fn leaf_lower_camel(full_name: &str) -> (result: String)
    ensures
        result@ == leaf_lower_camel_text(full_name@),
{
    to_lower_camel(last_segment_of(full_name, '.').as_str())
}

/// The name of the default function from a protobuf type.
pub open spec fn default_from_proto_name(full_name: Seq<char>) -> Seq<char> {
    leaf_lower_camel_text(full_name) + "FromProto"@
}

/// The name of the default function from a protobuf type.
pub fn go_default_from_proto_name(full_name: &str) -> (result: String)
    ensures
        result@ == default_from_proto_name(full_name@),
{
    leaf_lower_camel(full_name).concat("FromProto")
}

/// The name of the default function to a protobuf type.
pub open spec fn default_to_proto_name(full_name: Seq<char>) -> Seq<char> {
    leaf_lower_camel_text(full_name) + "ToProto"@
}

/// The name of the default function to a protobuf type.
pub fn go_default_to_proto_name(full_name: &str) -> (result: String)
    ensures
        result@ == default_to_proto_name(full_name@),
{
    leaf_lower_camel(full_name).concat("ToProto")
}

/// The function from a protobuf type to its replacement.
pub open spec fn from_proto_converter(
    full_name: Seq<char>,
    replacement: TypeReplacementSpec,
) -> Seq<char> {
    match crate::plan::text_for(replacement.from_proto, Language::Go) {
        Some(converter) => converter,
        None => default_from_proto_name(full_name),
    }
}

/// The function from a protobuf type to its replacement.
pub fn go_from_proto_converter(
    full_name: &str,
    replacement: &TypeReplacementSpec,
) -> (result: String)
    ensures
        result@ == from_proto_converter(full_name@, *replacement),
{
    match replacement.from_proto.for_language(Language::Go) {
        Some(converter) => converter,
        None => go_default_from_proto_name(full_name),
    }
}

/// The function from a replacement to its protobuf type.
pub open spec fn to_proto_converter(
    full_name: Seq<char>,
    replacement: TypeReplacementSpec,
) -> Seq<char> {
    match crate::plan::text_for(replacement.to_proto, Language::Go) {
        Some(converter) => converter,
        None => default_to_proto_name(full_name),
    }
}

/// The function from a replacement to its protobuf type.
pub fn go_to_proto_converter(
    full_name: &str,
    replacement: &TypeReplacementSpec,
) -> (result: String)
    ensures
        result@ == to_proto_converter(full_name@, *replacement),
{
    match replacement.to_proto.for_language(Language::Go) {
        Some(converter) => converter,
        None => go_default_to_proto_name(full_name),
    }
}

/// The Go type that stands for a protobuf type.
pub open spec fn replacement_annotation(replacement: TypeReplacementSpec) -> Option<Seq<char>> {
    crate::plan::text_for(replacement.annotation, Language::Go)
}

/// The Go type that stands for a protobuf type.
pub fn go_replacement_annotation(replacement: &TypeReplacementSpec) -> (result: Option<String>)
    ensures
        crate::text::opt_text(result) == replacement_annotation(*replacement),
{
    replacement.annotation.for_language(Language::Go)
}

/// The accessor of a protobuf field.
pub open spec fn proto_field_text(proto_name: Seq<char>) -> Seq<char> {
    crate::naming::upper_camel(proto_name)
}

/// The accessor of a protobuf field.
pub fn go_proto_field_name(proto_name: &str) -> (result: String)
    ensures
        result@ == proto_field_text(proto_name@),
{
    to_upper_camel(proto_name)
}

/// The exported Go name of a field.
pub open spec fn field_name_text(name: Seq<char>) -> Seq<char> {
    crate::naming::upper_camel(name)
}

/// The exported Go name of a field.
pub fn go_field_name(name: &str) -> (result: String)
    ensures
        result@ == field_name_text(name@),
{
    to_upper_camel(name)
}

/// The unexported form of a Go name.
pub open spec fn unexported_name_text(name: Seq<char>) -> Seq<char> {
    crate::naming::lower_camel(name)
}

/// The unexported form of a Go name.
pub fn go_unexported_name(name: &str) -> (result: String)
    ensures
        result@ == unexported_name_text(name@),
{
    to_lower_camel(name)
}

/// The local variable for a field of a resource.
pub open spec fn local_name_text(field_name: Seq<char>) -> Seq<char> {
    unexported_name_text(field_name_text(field_name))
}

/// The local variable for a field of a resource.
pub fn resource_return_local_name(field_name: &str) -> (result: String)
    ensures
        result@ == local_name_text(field_name@),
{
    go_unexported_name(go_field_name(field_name).as_str())
}

/// The conversion through a pair of hand-written functions.
pub open spec fn override_of(from: Seq<char>, to: Seq<char>, pointers: bool) -> GoConversionView {
    GoConversionView {
        kind: GoConversionKind::OverrideConverter,
        from_before: from + "(ctx, "@,
        from_after: ")"@,
        to_before: to + "(ctx, "@,
        to_after: ")"@,
        fallible: true,
        to_proto_takes_pointer: pointers,
        from_proto_returns_pointer: pointers,
    }
}

fn override_conversion(from: String, to: String, pointers: bool) -> (conversion: GoValueConversion)
    ensures
        conversion@ == override_of(from@, to@, pointers),
{
    GoValueConversion {
        kind: GoConversionKind::OverrideConverter,
        from_before: from.concat("(ctx, "),
        from_after: ")".to_owned(),
        to_before: to.concat("(ctx, "),
        to_after: ")".to_owned(),
        fallible: true,
        to_proto_takes_pointer: pointers,
        from_proto_returns_pointer: pointers,
    }
}

/// The conversion through the functions that are generated for a model.
pub open spec fn model_converter_of(from: Seq<char>) -> GoConversionView {
    GoConversionView {
        kind: GoConversionKind::ModelConverter,
        from_before: from + "(ctx, "@,
        from_after: ")"@,
        to_before: ""@,
        to_after: ".toProto(ctx)"@,
        fallible: true,
        to_proto_takes_pointer: false,
        from_proto_returns_pointer: false,
    }
}

fn model_conversion(from: String) -> (conversion: GoValueConversion)
    ensures
        conversion@ == model_converter_of(from@),
{
    GoValueConversion {
        kind: GoConversionKind::ModelConverter,
        from_before: from.concat("(ctx, "),
        from_after: ")".to_owned(),
        to_before: "".to_owned(),
        to_after: ".toProto(ctx)".to_owned(),
        fallible: true,
        to_proto_takes_pointer: false,
        from_proto_returns_pointer: false,
    }
}

/// The conversion of a scalar: the expression itself.
pub open spec fn scalar_of() -> GoConversionView {
    GoConversionView {
        kind: GoConversionKind::Scalar,
        from_before: ""@,
        from_after: ""@,
        to_before: ""@,
        to_after: ""@,
        fallible: false,
        to_proto_takes_pointer: false,
        from_proto_returns_pointer: false,
    }
}

fn scalar_conversion() -> (conversion: GoValueConversion)
    ensures
        conversion@ == scalar_of(),
{
    GoValueConversion {
        kind: GoConversionKind::Scalar,
        from_before: "".to_owned(),
        from_after: "".to_owned(),
        to_before: "".to_owned(),
        to_after: "".to_owned(),
        fallible: false,
        to_proto_takes_pointer: false,
        from_proto_returns_pointer: false,
    }
}

/// The conversion of an enum: a cast in each direction.
pub open spec fn enum_cast_of(native: Seq<char>, proto: Seq<char>) -> GoConversionView {
    GoConversionView {
        kind: GoConversionKind::Enum,
        from_before: native + "(int32("@,
        from_after: "))"@,
        to_before: proto + "("@,
        to_after: ")"@,
        fallible: false,
        to_proto_takes_pointer: false,
        from_proto_returns_pointer: false,
    }
}

fn enum_cast(native: String, proto: String) -> (conversion: GoValueConversion)
    ensures
        conversion@ == enum_cast_of(native@, proto@),
{
    GoValueConversion {
        kind: GoConversionKind::Enum,
        from_before: native.concat("(int32("),
        from_after: "))".to_owned(),
        to_before: proto.concat("("),
        to_after: ")".to_owned(),
        fallible: false,
        to_proto_takes_pointer: false,
        from_proto_returns_pointer: false,
    }
}

/// The conversion of a replaced message, where its replacement has a Go type.
pub open spec fn replaced_message_conversion_of(
    message: PlannedMessageType,
) -> Option<GoConversionView> {
    match message.replacement {
        Some(replacement) => match replacement_annotation(replacement) {
            Some(_) => Some(override_of(
                    from_proto_converter(message.info.full_name@, replacement),
                    to_proto_converter(message.info.full_name@, replacement),
                    !message.replacement_is_nilable,
            )),
            None => None,
        },
        None => None,
    }
}

/// The conversion of a replaced message, where its replacement has a Go type.
pub fn replaced_message_conversion(
    message: &PlannedMessageType,
) -> (result: Option<GoValueConversion>)
    ensures
        opt_conversion(result) == replaced_message_conversion_of(*message),
{
    match &message.replacement {
        Some(replacement) => match go_replacement_annotation(replacement) {
            Some(_) => Some(override_conversion(
                go_from_proto_converter(message.info.full_name.as_str(), replacement),
                go_to_proto_converter(message.info.full_name.as_str(), replacement),
                !message.replacement_is_nilable,
            )),
            None => None,
        },
        None => None,
    }
}

/// The view of an optional conversion.
pub open spec fn opt_conversion(conversion: Option<GoValueConversion>) -> Option<GoConversionView> {
    match conversion {
        Some(conversion) => Some(conversion@),
        None => None,
    }
}

/// The conversion of a message: by its replacement, by the default functions of its authored
/// type, or by the functions that are generated for its model.
pub open spec fn message_conversion_of(
    message: PlannedMessageType,
) -> Result<GoConversionView, Seq<char>> {
    match replaced_message_conversion_of(message) {
        Some(conversion) => Ok(conversion),
        None => if message.authored_annotation.is_some() {
            Ok(override_of(
                    default_from_proto_name(message.info.full_name@),
                    default_to_proto_name(message.info.full_name@),
                    true,
            ))
        } else if message.replacement.is_some() {
            Err(
                "type-replaced message `"@ + message.info.full_name@
                    + "` has no `go=` annotation in its `@nexus.type` directive"@,
            )
        } else {
            match message.source {
                PlannedMessageSource::Proto => Ok(
                    model_converter_of(unexported_name_text(message.model_name@) + "FromProto"@),
                ),
                PlannedMessageSource::Wit => Err(
                    "WIT-native record `"@ + message.model_name@ + "` has no proto conversion"@,
                ),
            }
        },
    }
}

/// The conversion of a message: by its replacement, by the default functions of its authored
/// type, or by the functions that are generated for its model.
pub fn go_message_conversion(
    message: &PlannedMessageType,
) -> (result: Result<GoValueConversion, String>)
    ensures
        conversion_outcome(result) == message_conversion_of(*message),
{
    match replaced_message_conversion(message) {
        Some(conversion) => Ok(conversion),
        None => if message.authored_annotation.is_some() {
            Ok(override_conversion(
                go_default_from_proto_name(message.info.full_name.as_str()),
                go_default_to_proto_name(message.info.full_name.as_str()),
                true,
            ))
        } else if message.replacement.is_some() {
            Err(
                "type-replaced message `".to_owned().concat(message.info.full_name.as_str())
                    .concat("` has no `go=` annotation in its `@nexus.type` directive"),
            )
        } else {
            match message.source {
                PlannedMessageSource::Proto => Ok(
                    model_conversion(
                        go_unexported_name(message.model_name.as_str()).concat("FromProto"),
                    ),
                ),
                PlannedMessageSource::Wit => Err(
                    "WIT-native record `".to_owned().concat(message.model_name.as_str())
                        .concat("` has no proto conversion"),
                ),
            }
        },
    }
}

/// The Go type of the values of an enum, or why it has none.
pub open spec fn enum_native_type_of(enum_type: PlannedEnumType) -> Result<Seq<char>, Seq<char>> {
    match enum_type.replacement {
        Some(replacement) => match replacement_annotation(replacement) {
            Some(annotation) => Ok(annotation),
            None => Err(
                "the type-replaced enum has no `go=` annotation in its `@nexus.type` directive"@,
            ),
        },
        None => match enum_type.name {
            Some(name) => Ok(name@),
            None => Err("the enum has no generated Go name"@),
        },
    }
}

/// The Go type of the values of an enum, or why it has none.
pub fn enum_native_type(enum_type: &PlannedEnumType) -> (result: Result<String, String>)
    ensures
        text_result(result) == enum_native_type_of(*enum_type),
{
    match &enum_type.replacement {
        Some(replacement) => match go_replacement_annotation(replacement) {
            Some(annotation) => Ok(annotation),
            None => Err(
                "the type-replaced enum has no `go=` annotation in its `@nexus.type` directive".to_owned(),
            ),
        },
        None => match &enum_type.name {
            Some(name) => Ok(name.clone()),
            None => Err("the enum has no generated Go name".to_owned()),
        },
    }
}

/// A text or a reason, by their views.
pub open spec fn text_result(result: Result<String, String>) -> Result<Seq<char>, Seq<char>> {
    match result {
        Ok(text) => Ok(text@),
        Err(reason) => Err(reason@),
    }
}

/// The Go type of a protobuf type, and the imports with its package among them.
pub open spec fn proto_type_step(imports: ImportEntries, info: PlannedProtoTypeInfo) -> (
    Option<Seq<char>>,
    ImportEntries,
) {
    match crate::proto::go_imports::go_ref_of(info) {
        Some((path, wanted, name)) => (
            Some(crate::proto::go_imports::chosen_alias(imports, path, wanted) + "."@ + name),
            crate::proto::go_imports::with_import(imports, path, wanted),
        ),
        None => (None, imports),
    }
}

/// The Go type of a protobuf type; its package is imported.
pub fn proto_type(info: &PlannedProtoTypeInfo, imports: &mut GoImportCollector) -> (result: Option<
    String,
>)
    requires
        old(imports).wf(),
    ensures
        final(imports).wf(),
        (crate::text::opt_text(result), final(imports)@) == proto_type_step(old(imports)@, *info),
{
    match go_proto_ref(info) {
        Some(reference) => {
            let alias = imports.register(&reference);
            Some(reference.qualified(alias.as_str()))
        },
        None => None,
    }
}

/// The Go type of a pointer to a message, and the imports with its package among them.
pub open spec fn message_type_step(imports: ImportEntries, message: PlannedMessageType) -> (
    Option<Seq<char>>,
    ImportEntries,
) {
    match proto_type_step(imports, message.info) {
        (Some(name), after) => (Some("*"@ + name), after),
        (None, after) => (None, after),
    }
}

/// The Go type of a pointer to a message; its package is imported.
pub fn message_proto_type(message: &PlannedMessageType, imports: &mut GoImportCollector) -> (result:
    Option<String>)
    requires
        old(imports).wf(),
    ensures
        final(imports).wf(),
        (crate::text::opt_text(result), final(imports)@) == message_type_step(
            old(imports)@,
            *message,
        ),
{
    match proto_type(&message.info, imports) {
        Some(name) => Some("*".to_owned().concat(name.as_str())),
        None => None,
    }
}

/// The Go type of a value in its message, or why it has none, and the imports behind it.
pub open spec fn value_type_step(imports: ImportEntries, value: PlannedValueType) -> (
    Result<Seq<char>, Seq<char>>,
    ImportEntries,
) {
    match value {
        PlannedValueType::Scalar(scalar) => (Ok(scalar_type_text(scalar)), imports),
        PlannedValueType::Enum(enum_type) => match enum_type.info {
            None => (Err("the enum has no proto descriptor info"@), imports),
            Some(info) => match proto_type_step(imports, info) {
                (Some(name), after) => (Ok(name), after),
                (None, after) => (
                    Err(
                        "proto enum `"@ + info.full_name@
                            + "` has no `go_package` option in its descriptor"@,
                    ),
                    after,
                ),
            },
        },
        PlannedValueType::Message(message) => match message_type_step(imports, message) {
            (Some(name), after) => (Ok(name), after),
            (None, after) => (
                Err(
                    "proto message `"@ + message.info.full_name@
                        + "` has no `go_package` option in its descriptor"@,
                ),
                after,
            ),
        },
        _ => (Err("the value has no proto-side Go type"@), imports),
    }
}

/// The Go type of a value in its message.
pub fn value_proto_type(
    value: &PlannedValueType,
    imports: &mut GoImportCollector,
) -> (result: Result<
    String,
    String,
>)
    requires
        old(imports).wf(),
    ensures
        final(imports).wf(),
        (text_result(result), final(imports)@) == value_type_step(old(imports)@, *value),
{
    match value {
        PlannedValueType::Scalar(scalar) => Ok(go_scalar_type_expr(*scalar)),
        PlannedValueType::Enum(enum_type) => match &enum_type.info {
            None => Err("the enum has no proto descriptor info".to_owned()),
            Some(info) => match proto_type(info, imports) {
                Some(name) => Ok(name),
                None => Err(
                    "proto enum `".to_owned().concat(info.full_name.as_str()).concat(
                        "` has no `go_package` option in its descriptor",
                    ),
                ),
            },
        },
        PlannedValueType::Message(message) => match message_proto_type(message, imports) {
            Some(name) => Ok(name),
            None => Err(
                "proto message `".to_owned().concat(message.info.full_name.as_str()).concat(
                    "` has no `go_package` option in its descriptor",
                ),
            ),
        },
        _ => Err("the value has no proto-side Go type".to_owned()),
    }
}

/// The conversion of an enum, or why there is none, and the imports behind it.
pub open spec fn enum_step(imports: ImportEntries, enum_type: PlannedEnumType) -> (
    Result<GoConversionView, Seq<char>>,
    ImportEntries,
) {
    match enum_native_type_of(enum_type) {
        Err(reason) => (Err(reason), imports),
        Ok(native) => match value_type_step(imports, PlannedValueType::Enum(enum_type)) {
            (Err(reason), after) => (Err(reason), after),
            (Ok(proto), after) => (Ok(enum_cast_of(native, proto)), after),
        },
    }
}

/// The conversion of an enum.
pub fn go_enum_conversion(enum_type: &PlannedEnumType, imports: &mut GoImportCollector) -> (result:
    Result<GoValueConversion, String>)
    requires
        old(imports).wf(),
    ensures
        final(imports).wf(),
        (conversion_outcome(result), final(imports)@) == enum_step(old(imports)@, *enum_type),
{
    match enum_native_type(enum_type) {
        Err(reason) => Err(reason),
        Ok(native) => match &enum_type.info {
            None => Err("the enum has no proto descriptor info".to_owned()),
            Some(info) => match proto_type(info, imports) {
                Some(proto) => Ok(enum_cast(native, proto)),
                None => Err(
                    "proto enum `".to_owned().concat(info.full_name.as_str()).concat(
                        "` has no `go_package` option in its descriptor",
                    ),
                ),
            },
        },
    }
}

/// Why a value that is no scalar, enum or message has no conversion.
pub open spec fn no_conversion_text(value: PlannedValueType) -> Seq<char> {
    match value {
        PlannedValueType::Flags => "flags values have no Go proto conversion"@,
        PlannedValueType::Variant => "variant values have no Go proto conversion"@,
        PlannedValueType::Tuple => "tuple values have no Go proto conversion"@,
        PlannedValueType::Outcome => "result values have no Go proto conversion"@,
        PlannedValueType::External => "externally-typed values (via `@nexus.type`) have no Go proto conversion"@,
        PlannedValueType::Unknown => "the proto type could not be resolved from the provided descriptors"@,
        _ => "the value has no Go proto conversion"@,
    }
}

/// Why a value that is no scalar, enum or message has no conversion.
pub fn no_conversion_reason(value: &PlannedValueType) -> (result: String)
    ensures
        result@ == no_conversion_text(*value),
{
    match value {
        PlannedValueType::Flags => "flags values have no Go proto conversion".to_owned(),
        PlannedValueType::Variant => "variant values have no Go proto conversion".to_owned(),
        PlannedValueType::Tuple => "tuple values have no Go proto conversion".to_owned(),
        PlannedValueType::Outcome => "result values have no Go proto conversion".to_owned(),
        PlannedValueType::External => "externally-typed values (via `@nexus.type`) have no Go proto conversion".to_owned(),
        PlannedValueType::Unknown => "the proto type could not be resolved from the provided descriptors".to_owned(),
        _ => "the value has no Go proto conversion".to_owned(),
    }
}

/// The conversion of a value, or why there is none, and the imports behind it.
pub open spec fn value_step(imports: ImportEntries, value: PlannedValueType) -> (
    Result<GoConversionView, Seq<char>>,
    ImportEntries,
) {
    match value {
        PlannedValueType::Scalar(_) => (Ok(scalar_of()), imports),
        PlannedValueType::Enum(enum_type) => enum_step(imports, enum_type),
        PlannedValueType::Message(message) => (message_conversion_of(message), imports),
        _ => (Err(no_conversion_text(value)), imports),
    }
}

/// The conversion of a value.
pub fn go_value_conversion(value: &PlannedValueType, imports: &mut GoImportCollector) -> (result:
    Result<GoValueConversion, String>)
    requires
        old(imports).wf(),
    ensures
        final(imports).wf(),
        (conversion_outcome(result), final(imports)@) == value_step(old(imports)@, *value),
{
    match value {
        PlannedValueType::Scalar(_) => Ok(scalar_conversion()),
        PlannedValueType::Enum(enum_type) => go_enum_conversion(enum_type, imports),
        PlannedValueType::Message(message) => go_message_conversion(message),
        _ => Err(no_conversion_reason(value)),
    }
}

/// The annotation of a value that is an enum or a message.
pub open spec fn type_annotation_of(model_type: PlannedValueType) -> Option<Seq<char>> {
    match model_type {
        PlannedValueType::Enum(enum_type) => {
            let replaced = match enum_type.replacement {
                Some(replacement) => replacement_annotation(replacement),
                None => None,
            };
            match replaced {
                Some(annotation) => Some(annotation),
                None => match enum_type.name {
                    Some(name) => Some(name@),
                    None => None,
                },
            }
        },
        PlannedValueType::Message(message) => match message.replacement {
            Some(replacement) => replacement_annotation(replacement),
            None => match message.authored_annotation {
                Some(annotation) => Some(annotation@),
                None => Some(message.model_name@),
            },
        },
        _ => None,
    }
}

/// The annotation of a value that is an enum or a message.
pub fn model_type_annotation(model_type: &PlannedValueType) -> (result: Option<String>)
    ensures
        crate::text::opt_text(result) == type_annotation_of(*model_type),
{
    match model_type {
        PlannedValueType::Enum(enum_type) => {
            let replaced = match &enum_type.replacement {
                Some(replacement) => go_replacement_annotation(replacement),
                None => None,
            };
            match replaced {
                Some(annotation) => Some(annotation),
                None => match &enum_type.name {
                    Some(name) => Some(name.clone()),
                    None => None,
                },
            }
        },
        PlannedValueType::Message(message) => match &message.replacement {
            Some(replacement) => go_replacement_annotation(replacement),
            None => match &message.authored_annotation {
                Some(annotation) => Some(annotation.clone()),
                None => Some(message.model_name.clone()),
            },
        },
        _ => None,
    }
}

/// The name under which the wire knows a value.
pub open spec fn wire_identifier_of(model_type: PlannedValueType) -> Option<Seq<char>> {
    match model_type {
        PlannedValueType::Message(message) => Some(message.info.full_name@),
        _ => None,
    }
}

/// The name under which the wire knows a value.
pub fn wire_type_identifier(model_type: &PlannedValueType) -> (result: Option<String>)
    ensures
        crate::text::opt_text(result) == wire_identifier_of(*model_type),
{
    match model_type {
        PlannedValueType::Message(message) => Some(message.info.full_name.clone()),
        _ => None,
    }
}

/// Whether the file of a protobuf type names a Go package.
pub open spec fn has_go_package(info: PlannedProtoTypeInfo) -> bool {
    info.go_package.is_some()
}

/// Whether the file of a protobuf type names a Go package.
pub fn descriptor_has_go_package(info: &PlannedProtoTypeInfo) -> (result: bool)
    ensures
        result == has_go_package(*info),
{
    info.go_package.is_some()
}

/// Whether a model is generated for the message, with functions from and to it.
pub open spec fn proto_backed(message: PlannedMessageType) -> bool {
    message.replacement.is_none()
        && message.authored_annotation.is_none()
        && message.source == PlannedMessageSource::Proto
        && has_go_package(message.info)
}

/// Whether a model is generated for the message, with functions from and to it.
pub fn is_proto_backed(message: &PlannedMessageType) -> (result: bool)
    ensures
        result == proto_backed(*message),
{
    message.replacement.is_none()
        && message.authored_annotation.is_none()
        && message.source == PlannedMessageSource::Proto
        && descriptor_has_go_package(&message.info)
}

/// The declaration of the message that a model is generated for, where it has functions from
/// and to it.
pub fn proto_backed_info(message: &PlannedMessageType) -> (info: Option<&PlannedProtoTypeInfo>)
    ensures
        match info {
            Some(info) => proto_backed(*message) && *info == message.info,
            None => !proto_backed(*message),
        },
{
    if is_proto_backed(message) {
        Some(&message.info)
    } else {
        None
    }
}

/// The lines that assign a converted value once its error was handled.
pub open spec fn checked_assign(
    call: Seq<char>,
    proto_field: Seq<char>,
    error_return: Seq<char>,
) -> Seq<Seq<char>> {
    seq![
        "{"@,
        ("\tconverted, err := "@ + call),
        "\tif err != nil {"@,
        ("\t\t"@ + error_return),
        "\t}"@,
        ("\tmessage."@ + proto_field + " = converted"@),
        "}"@
    ]
}

/// The lines that assign a converted value once its error was handled.
pub fn checked_assign_lines(
    call: &str,
    proto_field: &str,
    error_return: &str,
) -> (result: Vec<String>)
    ensures
        crate::text::texts(result@) == checked_assign(call@, proto_field@, error_return@),
{
    vec![
        "{".to_owned(),
        "\tconverted, err := ".to_owned().concat(call),
        "\tif err != nil {".to_owned(),
        "\t\t".to_owned().concat(error_return),
        "\t}".to_owned(),
        "\tmessage.".to_owned().concat(proto_field).concat(" = converted"),
        "}".to_owned()
    ]
}

/// The lines that put a field into its message. A field that is a pointer is only put in where
/// it is set, or is handed to a converter that takes pointers.
pub open spec fn singular_to_proto(
    conversion: GoConversionView,
    receiver: Seq<char>,
    proto_field: Seq<char>,
    field_is_pointer: bool,
    error_return: Seq<char>,
) -> Seq<Seq<char>> {
    match conversion.kind {
        GoConversionKind::OverrideConverter => {
            let arg = if conversion.to_proto_takes_pointer
                && !field_is_pointer { "&"@ + receiver } else { receiver };
            let converted = to_proto_text(conversion, arg);
            if conversion.fallible {
                checked_assign(converted, proto_field, error_return)
            } else {
                seq![("message."@ + proto_field + " = "@ + converted)]
            }
        },
        _ => if field_is_pointer {
            let converted = to_proto_text(conversion, ("(*"@ + receiver + ")"@));
            if conversion.fallible {
                seq![
                    ("if "@ + receiver + " != nil {"@),
                    ("\tconverted, err := "@ + converted),
                    "\tif err != nil {"@,
                    ("\t\t"@ + error_return),
                    "\t}"@,
                    ("\tmessage."@ + proto_field + " = converted"@),
                    "}"@
                ]
            } else {
                seq![
                    ("if "@ + receiver + " != nil {"@),
                    ("\tmessage."@ + proto_field + " = "@ + converted),
                    "}"@,
                ]
            }
        } else {
            let converted = to_proto_text(conversion, receiver);
            if conversion.fallible {
                checked_assign(converted, proto_field, error_return)
            } else {
                seq![("message."@ + proto_field + " = "@ + converted)]
            }
        },
    }
}

/// The lines that put a field into its message. A field that is a pointer is only put in where
/// it is set, or is handed to a converter that takes pointers.
pub fn singular_to_proto_lines(
    conversion: &GoValueConversion,
    receiver: &str,
    proto_field: &str,
    field_is_pointer: bool,
    error_return: &str,
) -> (result: Vec<String>)
    ensures
        crate::text::texts(result@) == singular_to_proto(
            conversion@,
            receiver@,
            proto_field@,
            field_is_pointer,
            error_return@,
        ),
{
    match conversion.kind {
        GoConversionKind::OverrideConverter => {
            let arg = if conversion.to_proto_takes_pointer && !field_is_pointer {
                "&".to_owned().concat(receiver)
            } else { receiver.to_owned() };
            let converted = to_proto(conversion, arg.as_str());
            if conversion.fallible {
                checked_assign_lines(converted.as_str(), proto_field, error_return)
            } else {
                vec![
                    "message.".to_owned().concat(proto_field).concat(" = ")
                        .concat(converted.as_str()),
                ]
            }
        },
        _ => if field_is_pointer {
            let converted = to_proto(
                conversion,
                "(*".to_owned().concat(receiver).concat(")").as_str(),
            );
            if conversion.fallible {
                vec![
                    "if ".to_owned().concat(receiver).concat(" != nil {"),
                    "\tconverted, err := ".to_owned().concat(converted.as_str()),
                    "\tif err != nil {".to_owned(),
                    "\t\t".to_owned().concat(error_return),
                    "\t}".to_owned(),
                    "\tmessage.".to_owned().concat(proto_field).concat(" = converted"),
                    "}".to_owned()
                ]
            } else {
                vec![
                    "if ".to_owned().concat(receiver).concat(" != nil {"),
                    "\tmessage.".to_owned().concat(proto_field).concat(" = ")
                        .concat(converted.as_str()),
                    "}".to_owned(),
                ]
            }
        } else {
            let converted = to_proto(conversion, receiver);
            if conversion.fallible {
                checked_assign_lines(converted.as_str(), proto_field, error_return)
            } else {
                vec![
                    "message.".to_owned().concat(proto_field).concat(" = ")
                        .concat(converted.as_str()),
                ]
            }
        },
    }
}

/// The lines that handle the error of a conversion inside a block.
pub open spec fn checked_block(
    head: Seq<char>,
    converted: Seq<char>,
    error_return: Seq<char>,
    assignment: Seq<char>,
) -> Seq<Seq<char>> {
    seq![
        head,
        ("\tconverted, err := "@ + converted),
        "\tif err != nil {"@,
        ("\t\t"@ + error_return),
        "\t}"@,
        ("\t"@ + assignment),
        "}"@
    ]
}

/// The lines that handle the error of a conversion inside a block.
pub fn checked_block_lines(
    head: &str,
    converted: &str,
    error_return: &str,
    assignment: &str,
) -> (result: Vec<String>)
    ensures
        crate::text::texts(result@) == checked_block(head@, converted@, error_return@, assignment@),
{
    vec![
        head.to_owned(),
        "\tconverted, err := ".to_owned().concat(converted),
        "\tif err != nil {".to_owned(),
        "\t\t".to_owned().concat(error_return),
        "\t}".to_owned(),
        "\t".to_owned().concat(assignment),
        "}".to_owned()
    ]
}

/// The lines that read a field through a hand-written converter.
pub open spec fn override_from_proto(
    conversion: GoConversionView,
    converted: Seq<char>,
    go_field: Seq<char>,
    field_is_pointer: bool,
    error_return: Seq<char>,
) -> Seq<Seq<char>> {
    if !conversion.from_proto_returns_pointer {
        let assignment = if field_is_pointer {
            "value."@ + go_field + " = &converted"@
        } else { "value."@ + go_field + " = converted"@ };
        if conversion.fallible {
            checked_block("{"@, converted, error_return, assignment)
        } else if field_is_pointer {
            seq![
                "{"@,
                ("\tconverted := "@ + converted),
                ("\tvalue."@ + go_field + " = &converted"@),
                "}"@,
            ]
        } else {
            seq![("value."@ + go_field + " = "@ + converted)]
        }
    } else if field_is_pointer {
        if conversion.fallible {
            checked_block("{"@, converted, error_return, ("value."@ + go_field + " = converted"@))
        } else {
            seq![("value."@ + go_field + " = "@ + converted)]
        }
    } else if conversion.fallible {
        seq![
            "{"@,
            ("\tconverted, err := "@ + converted),
            "\tif err != nil {"@,
            ("\t\t"@ + error_return),
            "\t}"@,
            "\tif converted != nil {"@,
            ("\t\tvalue."@ + go_field + " = *converted"@),
            "\t}"@,
            "}"@
        ]
    } else {
        seq![
            ("if converted := "@ + converted + "; converted != nil {"@),
            ("\tvalue."@ + go_field + " = *converted"@),
            "}"@
        ]
    }
}

/// The lines that read a field through a hand-written converter.
pub fn override_from_proto_lines(
    conversion: &GoValueConversion,
    converted: &str,
    go_field: &str,
    field_is_pointer: bool,
    error_return: &str,
) -> (result: Vec<String>)
    ensures
        crate::text::texts(result@) == override_from_proto(
            conversion@,
            converted@,
            go_field@,
            field_is_pointer,
            error_return@,
        ),
{
    if !conversion.from_proto_returns_pointer {
        let assignment = if field_is_pointer {
            "value.".to_owned().concat(go_field).concat(" = &converted")
        } else { "value.".to_owned().concat(go_field).concat(" = converted") };
        if conversion.fallible {
            checked_block_lines("{", converted, error_return, assignment.as_str())
        } else if field_is_pointer {
            vec![
                "{".to_owned(),
                "\tconverted := ".to_owned().concat(converted),
                "\tvalue.".to_owned().concat(go_field).concat(" = &converted"),
                "}".to_owned(),
            ]
        } else {
            vec!["value.".to_owned().concat(go_field).concat(" = ").concat(converted)]
        }
    } else if field_is_pointer {
        if conversion.fallible {
            checked_block_lines(
                "{",
                converted,
                error_return,
                "value.".to_owned().concat(go_field).concat(" = converted").as_str(),
            )
        } else {
            vec!["value.".to_owned().concat(go_field).concat(" = ").concat(converted)]
        }
    } else if conversion.fallible {
        vec![
            "{".to_owned(),
            "\tconverted, err := ".to_owned().concat(converted),
            "\tif err != nil {".to_owned(),
            "\t\t".to_owned().concat(error_return),
            "\t}".to_owned(),
            "\tif converted != nil {".to_owned(),
            "\t\tvalue.".to_owned().concat(go_field).concat(" = *converted"),
            "\t}".to_owned(),
            "}".to_owned()
        ]
    } else {
        vec![
            "if converted := ".to_owned().concat(converted).concat("; converted != nil {"),
            "\tvalue.".to_owned().concat(go_field).concat(" = *converted"),
            "}".to_owned()
        ]
    }
}

/// The lines that read a field of its message into the model.
pub open spec fn singular_from_proto(
    conversion: GoConversionView,
    proto_field: Seq<char>,
    go_field: Seq<char>,
    field_is_pointer: bool,
    error_return: Seq<char>,
) -> Seq<Seq<char>> {
    let getter = "proto.Get"@ + proto_field + "()"@;
    let converted = from_proto_text(conversion, getter);
    match conversion.kind {
        GoConversionKind::OverrideConverter => override_from_proto(
            conversion,
            converted,
            go_field,
            field_is_pointer,
            error_return,
        ),
        GoConversionKind::ModelConverter => if field_is_pointer {
            if conversion.fallible {
                checked_block(
                    ("if "@ + getter + " != nil {"@),
                    converted,
                    error_return,
                    ("value."@ + go_field + " = &converted"@),
                )
            } else {
                seq![
                    ("if "@ + getter + " != nil {"@),
                    ("\tconverted := "@ + converted),
                    ("\tvalue."@ + go_field + " = &converted"@),
                    "}"@
                ]
            }
        } else if conversion.fallible {
            checked_block("{"@, converted, error_return, ("value."@ + go_field + " = converted"@))
        } else {
            seq![("value."@ + go_field + " = "@ + converted)]
        },
        _ => if field_is_pointer {
            seq![
                "{"@,
                ("\tconverted := "@ + converted),
                ("\tvalue."@ + go_field + " = &converted"@),
                "}"@,
            ]
        } else {
            seq![("value."@ + go_field + " = "@ + converted)]
        },
    }
}

/// The lines that read a field of its message into the model.
pub fn singular_from_proto_lines(
    conversion: &GoValueConversion,
    proto_field: &str,
    go_field: &str,
    field_is_pointer: bool,
    error_return: &str,
) -> (result: Vec<String>)
    ensures
        crate::text::texts(result@) == singular_from_proto(
            conversion@,
            proto_field@,
            go_field@,
            field_is_pointer,
            error_return@,
        ),
{
    let getter = "proto.Get".to_owned().concat(proto_field).concat("()");
    let converted = from_proto(conversion, getter.as_str());
    match conversion.kind {
        GoConversionKind::OverrideConverter => override_from_proto_lines(
            conversion,
            converted.as_str(),
            go_field,
            field_is_pointer,
            error_return,
        ),
        GoConversionKind::ModelConverter => if field_is_pointer {
            if conversion.fallible {
                checked_block_lines(
                    "if ".to_owned().concat(getter.as_str()).concat(" != nil {").as_str(),
                    converted.as_str(),
                    error_return,
                    "value.".to_owned().concat(go_field).concat(" = &converted").as_str(),
                )
            } else {
                vec![
                    "if ".to_owned().concat(getter.as_str()).concat(" != nil {"),
                    "\tconverted := ".to_owned().concat(converted.as_str()),
                    "\tvalue.".to_owned().concat(go_field).concat(" = &converted"),
                    "}".to_owned()
                ]
            }
        } else if conversion.fallible {
            checked_block_lines(
                "{",
                converted.as_str(),
                error_return,
                "value.".to_owned().concat(go_field).concat(" = converted").as_str(),
            )
        } else {
            vec!["value.".to_owned().concat(go_field).concat(" = ").concat(converted.as_str())]
        },
        _ => if field_is_pointer {
            vec![
                "{".to_owned(),
                "\tconverted := ".to_owned().concat(converted.as_str()),
                "\tvalue.".to_owned().concat(go_field).concat(" = &converted"),
                "}".to_owned(),
            ]
        } else {
            vec!["value.".to_owned().concat(go_field).concat(" = ").concat(converted.as_str())]
        },
    }
}

/// The protobuf form of an item of a list or map.
pub open spec fn element_to_proto_text(
    conversion: GoConversionView,
    item: Seq<char>,
) -> Seq<char> {
    match conversion.kind {
        GoConversionKind::OverrideConverter => if conversion.to_proto_takes_pointer {
            to_proto_text(conversion, ("&"@ + item))
        } else {
            to_proto_text(conversion, item)
        },
        _ => to_proto_text(conversion, item),
    }
}

/// The protobuf form of an item of a list or map.
pub fn element_to_proto(conversion: &GoValueConversion, item: &str) -> (result: String)
    ensures
        result@ == element_to_proto_text(conversion@, item@),
{
    match conversion.kind {
        GoConversionKind::OverrideConverter => if conversion.to_proto_takes_pointer {
            to_proto(conversion, "&".to_owned().concat(item).as_str())
        } else {
            to_proto(conversion, item)
        },
        _ => to_proto(conversion, item),
    }
}

/// The lines that put a list into its message.
pub open spec fn repeated_to_proto(
    conversion: GoConversionView,
    receiver: Seq<char>,
    proto_field: Seq<char>,
    error_return: Seq<char>,
) -> Seq<Seq<char>> {
    let converted = element_to_proto_text(conversion, "item"@);
    seq![("for _, item := range "@ + receiver + " {"@)] + (if conversion.fallible {
            seq![
                ("\tconverted, err := "@ + converted),
                "\tif err != nil {"@,
                ("\t\t"@ + error_return),
                "\t}"@,
                (
                    "\tmessage."@ + proto_field + " = append(message."@ + proto_field
                        + ", converted)"@
                )
            ]
        } else {
            seq![
                (
                    "\tmessage."@ + proto_field + " = append(message."@ + proto_field + ", "@
                        + converted + ")"@
                ),
            ]
    }) + seq!["}"@]
}

/// The lines that put a list into its message.
pub fn repeated_to_proto_lines(
    conversion: &GoValueConversion,
    receiver: &str,
    proto_field: &str,
    error_return: &str,
) -> (result: Vec<String>)
    ensures
        crate::text::texts(result@) == repeated_to_proto(
            conversion@,
            receiver@,
            proto_field@,
            error_return@,
        ),
{
    let converted = element_to_proto(conversion, "item");
    with_lines(
        with_lines(
            vec!["for _, item := range ".to_owned().concat(receiver).concat(" {")],
            if conversion.fallible {
                vec![
                    "\tconverted, err := ".to_owned().concat(converted.as_str()),
                    "\tif err != nil {".to_owned(),
                    "\t\t".to_owned().concat(error_return),
                    "\t}".to_owned(),
                    "\tmessage.".to_owned().concat(proto_field).concat(" = append(message.")
                        .concat(proto_field).concat(", converted)"),
                ]
            } else {
                vec![
                    "\tmessage.".to_owned().concat(proto_field).concat(" = append(message.")
                        .concat(proto_field).concat(", ").concat(converted.as_str()).concat(")"),
                ]
            },
        ),
        vec!["}".to_owned()],
    )
}

/// Whether the conversion gives a pointer that may be `nil`.
pub open spec fn pointer_result(conversion: GoConversionView) -> bool {
    conversion.kind == GoConversionKind::OverrideConverter && conversion.from_proto_returns_pointer
}

/// Whether the conversion gives a pointer that may be `nil`.
pub fn gives_pointer(conversion: &GoValueConversion) -> (result: bool)
    ensures
        result == pointer_result(conversion@),
{
    conversion.kind == GoConversionKind::OverrideConverter && conversion.from_proto_returns_pointer
}

/// The lines that read a list of its message into the model.
pub open spec fn repeated_from_proto(
    conversion: GoConversionView,
    proto_field: Seq<char>,
    go_field: Seq<char>,
    error_return: Seq<char>,
) -> Seq<Seq<char>> {
    let converted = from_proto_text(conversion, "item"@);
    seq![("for _, item := range proto.Get"@ + proto_field + "() {"@)]
        + (if pointer_result(conversion) && conversion.fallible {
            seq![
                ("\tconverted, err := "@ + converted),
                "\tif err != nil {"@,
                ("\t\t"@ + error_return),
                "\t}"@,
                "\tif converted != nil {"@,
                ("\t\tvalue."@ + go_field + " = append(value."@ + go_field + ", *converted)"@),
                "\t}"@
            ]
        } else if pointer_result(conversion) {
            seq![
                ("\tif converted := "@ + converted + "; converted != nil {"@),
                ("\t\tvalue."@ + go_field + " = append(value."@ + go_field + ", *converted)"@),
                "\t}"@
            ]
        } else if conversion.fallible {
            seq![
                ("\tconverted, err := "@ + converted),
                "\tif err != nil {"@,
                ("\t\t"@ + error_return),
                "\t}"@,
                ("\tvalue."@ + go_field + " = append(value."@ + go_field + ", converted)"@)
            ]
        } else {
            seq![
                (
                    "\tvalue."@ + go_field + " = append(value."@ + go_field + ", "@ + converted
                        + ")"@
                ),
            ]
    }) + seq!["}"@]
}

/// The lines that read a list of its message into the model.
pub fn repeated_from_proto_lines(
    conversion: &GoValueConversion,
    proto_field: &str,
    go_field: &str,
    error_return: &str,
) -> (result: Vec<String>)
    ensures
        crate::text::texts(result@) == repeated_from_proto(
            conversion@,
            proto_field@,
            go_field@,
            error_return@,
        ),
{
    let converted = from_proto(conversion, "item");
    with_lines(
        with_lines(
            vec!["for _, item := range proto.Get".to_owned().concat(proto_field).concat("() {")],
            if gives_pointer(conversion) && conversion.fallible {
                vec![
                    "\tconverted, err := ".to_owned().concat(converted.as_str()),
                    "\tif err != nil {".to_owned(),
                    "\t\t".to_owned().concat(error_return),
                    "\t}".to_owned(),
                    "\tif converted != nil {".to_owned(),
                    "\t\tvalue.".to_owned().concat(go_field).concat(" = append(value.")
                        .concat(go_field)
                        .concat(", *converted)"),
                    "\t}".to_owned(),
                ]
            } else if gives_pointer(conversion) {
                vec![
                    "\tif converted := ".to_owned().concat(converted.as_str())
                        .concat("; converted != nil {"),
                    "\t\tvalue.".to_owned().concat(go_field).concat(" = append(value.")
                        .concat(go_field)
                        .concat(", *converted)"),
                    "\t}".to_owned(),
                ]
            } else if conversion.fallible {
                vec![
                    "\tconverted, err := ".to_owned().concat(converted.as_str()),
                    "\tif err != nil {".to_owned(),
                    "\t\t".to_owned().concat(error_return),
                    "\t}".to_owned(),
                    "\tvalue.".to_owned().concat(go_field).concat(" = append(value.")
                        .concat(go_field)
                        .concat(", converted)"),
                ]
            } else {
                vec![
                    "\tvalue.".to_owned().concat(go_field).concat(" = append(value.")
                        .concat(go_field)
                        .concat(", ").concat(converted.as_str()).concat(")"),
                ]
            },
        ),
        vec!["}".to_owned()],
    )
}

/// The lines that put a map into its message.
pub open spec fn map_to_proto(
    conversion: GoConversionView,
    proto_map_type: Seq<char>,
    receiver: Seq<char>,
    proto_field: Seq<char>,
    error_return: Seq<char>,
) -> Seq<Seq<char>> {
    let converted = element_to_proto_text(conversion, "v"@);
    (seq![
            ("if len("@ + receiver + ") > 0 {"@),
            (
                "\tmessage."@ + proto_field + " = make("@ + proto_map_type + ", len("@ + receiver
                    + "))"@
            ),
            ("\tfor k, v := range "@ + receiver + " {"@)
    ]) + (if conversion.fallible {
            seq![
                ("\t\tconverted, err := "@ + converted),
                "\t\tif err != nil {"@,
                ("\t\t\t"@ + error_return),
                "\t\t}"@,
                ("\t\tmessage."@ + proto_field + "[k] = converted"@)
            ]
        } else {
            seq![("\t\tmessage."@ + proto_field + "[k] = "@ + converted)]
    }) + seq!["\t}"@, "}"@]
}

/// The lines that put a map into its message.
pub fn map_to_proto_lines(
    conversion: &GoValueConversion,
    proto_map_type: &str,
    receiver: &str,
    proto_field: &str,
    error_return: &str,
) -> (result: Vec<String>)
    ensures
        crate::text::texts(result@) == map_to_proto(
            conversion@,
            proto_map_type@,
            receiver@,
            proto_field@,
            error_return@,
        ),
{
    let converted = element_to_proto(conversion, "v");
    with_lines(with_lines(vec![
            "if len(".to_owned().concat(receiver).concat(") > 0 {"),
            "\tmessage.".to_owned().concat(proto_field).concat(" = make(").concat(proto_map_type)
                .concat(", len(").concat(receiver).concat("))"),
            "\tfor k, v := range ".to_owned().concat(receiver).concat(" {")
        ], if conversion.fallible {
            vec![
                "\t\tconverted, err := ".to_owned().concat(converted.as_str()),
                "\t\tif err != nil {".to_owned(),
                "\t\t\t".to_owned().concat(error_return),
                "\t\t}".to_owned(),
                "\t\tmessage.".to_owned().concat(proto_field).concat("[k] = converted")
            ]
        } else {
            vec![
                "\t\tmessage.".to_owned().concat(proto_field).concat("[k] = ")
                    .concat(converted.as_str()),
            ]
        }), vec!["\t}".to_owned(), "}".to_owned()])
}

/// The lines that read the entries of a map of its message into `target`.
pub open spec fn map_entry_lines_of(
    conversion: GoConversionView,
    converted: Seq<char>,
    target: Seq<char>,
    error_return: Seq<char>,
) -> Seq<Seq<char>> {
    if pointer_result(conversion) {
        (if conversion.fallible {
                seq![
                    ("\t\tconverted, err := "@ + converted),
                    "\t\tif err != nil {"@,
                    ("\t\t\t"@ + error_return),
                    "\t\t}"@,
                    "\t\tif converted != nil {"@
                ]
            } else {
                seq![("\t\tif converted := "@ + converted + "; converted != nil {"@)]
        }) + seq![("\t\t\t"@ + target + "[k] = *converted"@), "\t\t}"@]
    } else if conversion.fallible {
        seq![
            ("\t\tconverted, err := "@ + converted),
            "\t\tif err != nil {"@,
            ("\t\t\t"@ + error_return),
            "\t\t}"@,
            ("\t\t"@ + target + "[k] = converted"@)
        ]
    } else {
        seq![("\t\t"@ + target + "[k] = "@ + converted)]
    }
}

/// The lines that read the entries of a map of its message into `target`.
pub fn map_entry_lines(
    conversion: &GoValueConversion,
    converted: &str,
    target: &str,
    error_return: &str,
) -> (result: Vec<String>)
    ensures
        crate::text::texts(result@) == map_entry_lines_of(
            conversion@,
            converted@,
            target@,
            error_return@,
        ),
{
    if gives_pointer(conversion) {
        with_lines(if conversion.fallible {
                vec![
                    "\t\tconverted, err := ".to_owned().concat(converted),
                    "\t\tif err != nil {".to_owned(),
                    "\t\t\t".to_owned().concat(error_return),
                    "\t\t}".to_owned(),
                    "\t\tif converted != nil {".to_owned()
                ]
            } else {
                vec![
                    "\t\tif converted := ".to_owned().concat(converted)
                        .concat("; converted != nil {"),
                ]
            }, vec!["\t\t\t".to_owned().concat(target)
                .concat("[k] = *converted"), "\t\t}".to_owned()])
    } else if conversion.fallible {
        vec![
            "\t\tconverted, err := ".to_owned().concat(converted),
            "\t\tif err != nil {".to_owned(),
            "\t\t\t".to_owned().concat(error_return),
            "\t\t}".to_owned(),
            "\t\t".to_owned().concat(target).concat("[k] = converted")
        ]
    } else {
        vec!["\t\t".to_owned().concat(target).concat("[k] = ").concat(converted)]
    }
}

/// The lines that read a map of its message into the model.
pub open spec fn map_from_proto(
    conversion: GoConversionView,
    native_map_type: Seq<char>,
    proto_field: Seq<char>,
    go_field: Seq<char>,
    error_return: Seq<char>,
) -> Seq<Seq<char>> {
    let getter = "proto.Get"@ + proto_field + "()"@;
    (seq![
            ("if len("@ + getter + ") > 0 {"@),
            ("\tvalue."@ + go_field + " = make("@ + native_map_type + ", len("@ + getter + "))"@),
            ("\tfor k, v := range "@ + getter + " {"@)
    ]) + map_entry_lines_of(conversion, from_proto_text(conversion, "v"@), ("value."@
                + go_field), error_return) + seq!["\t}"@, "}"@]
}

/// The lines that read a map of its message into the model.
pub fn map_from_proto_lines(
    conversion: &GoValueConversion,
    native_map_type: &str,
    proto_field: &str,
    go_field: &str,
    error_return: &str,
) -> (result: Vec<String>)
    ensures
        crate::text::texts(result@) == map_from_proto(
            conversion@,
            native_map_type@,
            proto_field@,
            go_field@,
            error_return@,
        ),
{
    let getter = "proto.Get".to_owned().concat(proto_field).concat("()");
    with_lines(with_lines(vec![
            "if len(".to_owned().concat(getter.as_str()).concat(") > 0 {"),
            "\tvalue.".to_owned().concat(go_field).concat(" = make(").concat(native_map_type)
                .concat(", len(").concat(getter.as_str()).concat("))"),
            "\tfor k, v := range ".to_owned().concat(getter.as_str()).concat(" {")
        ], map_entry_lines(conversion, from_proto(conversion, "v").as_str(), "value.".to_owned().concat(go_field).as_str(), error_return)), vec!["\t}".to_owned(), "}".to_owned()])
}

/// Where a field of a returned resource gets its value from.
#[derive(Debug, Clone)]
pub enum ResolvedResourceBindingSource {
    RequestField { field_name: String, proto_field_name: String, hidden: bool },
    ResultField { proto_field_name: String },
}

/// A field of a resource that a returned resource is made with.
#[derive(Debug, Clone)]
pub struct PlannedResourceField {
    pub name: String,
    pub optional: bool,
    pub kind: PlannedFieldKind,
    /// The Go type that the resource holds the field in.
    pub internal_type: String,
    /// Whether the constructor takes the zero value for a missing one.
    pub puns_zero: bool,
}

/// A resource of a service.
#[derive(Debug, Clone)]
pub struct PlannedResource {
    pub class_name: String,
    pub fields: Vec<PlannedResourceField>,
}

/// How a field of a returned resource is bound.
#[derive(Debug, Clone)]
pub struct PlannedResourceBinding {
    pub field_name: String,
    pub source: ResolvedResourceBindingSource,
}

/// The resource that an operation returns.
#[derive(Debug, Clone)]
pub struct PlannedOperationResourceReturn {
    pub resource_class: String,
    pub bindings: Vec<PlannedResourceBinding>,
}

/// The zero value of a type.
pub open spec fn zero_value_text(value: PlannedValueType) -> Seq<char> {
    match value {
        PlannedValueType::Scalar(PlannedScalarType::Bool) => "false"@,
        PlannedValueType::Scalar(PlannedScalarType::String) => "\"\""@,
        PlannedValueType::Scalar(PlannedScalarType::Bytes) => "nil"@,
        PlannedValueType::Scalar(_) => "0"@,
        PlannedValueType::Enum(_) => "0"@,
        _ => "nil"@,
    }
}

/// The zero value of a type.
pub fn resource_return_zero_value_expr(value: &PlannedValueType) -> (result: String)
    ensures
        result@ == zero_value_text(*value),
{
    match value {
        PlannedValueType::Scalar(PlannedScalarType::Bool) => "false".to_owned(),
        PlannedValueType::Scalar(PlannedScalarType::String) => "\"\"".to_owned(),
        PlannedValueType::Scalar(PlannedScalarType::Bytes) => "nil".to_owned(),
        PlannedValueType::Scalar(_) => "0".to_owned(),
        PlannedValueType::Enum(_) => "0".to_owned(),
        _ => "nil".to_owned(),
    }
}

/// The lines that bind a local variable to a converted value.
pub open spec fn bound_local(
    conversion: GoConversionView,
    converted: Seq<char>,
    local: Seq<char>,
    error_return: Seq<char>,
) -> Seq<Seq<char>> {
    if conversion.fallible {
        seq![
            (local + ", err := "@ + converted),
            "if err != nil {"@,
            ("\t"@ + error_return),
            "}"@
        ]
    } else {
        seq![(local + " := "@ + converted)]
    }
}

/// The lines that bind a local variable to a converted value.
pub fn bound_local_lines(
    conversion: &GoValueConversion,
    converted: &str,
    local: &str,
    error_return: &str,
) -> (result: Vec<String>)
    ensures
        crate::text::texts(result@) == bound_local(conversion@, converted@, local@, error_return@),
{
    if conversion.fallible {
        vec![
            local.to_owned().concat(", err := ").concat(converted),
            "if err != nil {".to_owned(),
            "\t".to_owned().concat(error_return),
            "}".to_owned()
        ]
    } else {
        vec![local.to_owned().concat(" := ").concat(converted)]
    }
}

/// How a value of a message becomes a field of a returned resource through a hand-written
/// converter.
pub open spec fn override_resource_lines(
    conversion: GoConversionView,
    converted: Seq<char>,
    local: Seq<char>,
    native_type: Seq<char>,
    uses_pointer: bool,
    error_return: Seq<char>,
) -> Seq<Seq<char>> {
    if !conversion.from_proto_returns_pointer {
        if uses_pointer {
            if conversion.fallible {
                seq![
                    ("converted, err := "@ + converted),
                    "if err != nil {"@,
                    ("\t"@ + error_return),
                    "}"@,
                    (local + " := &converted"@)
                ]
            } else {
                seq![("converted := "@ + converted), (local + " := &converted"@)]
            }
        } else {
            bound_local(conversion, converted, local, error_return)
        }
    } else if uses_pointer {
        bound_local(conversion, converted, local, error_return)
    } else {
        seq![("var "@ + local + " "@ + native_type)] + (if conversion.fallible {
                seq![
                    ("converted, err := "@ + converted),
                    "if err != nil {"@,
                    ("\t"@ + error_return),
                    "}"@,
                    "if converted != nil {"@
                ]
            } else {
                seq![("if converted := "@ + converted + "; converted != nil {"@)]
        }) + seq![("\t"@ + local + " = *converted"@), "}"@]
    }
}

/// How a value of a message becomes a field of a returned resource through a hand-written
/// converter.
pub fn override_resource_source(
    conversion: &GoValueConversion,
    converted: &str,
    local: &str,
    native_type: &str,
    uses_pointer: bool,
    error_return: &str,
) -> (result: Vec<String>)
    ensures
        crate::text::texts(result@) == override_resource_lines(
            conversion@,
            converted@,
            local@,
            native_type@,
            uses_pointer,
            error_return@,
        ),
{
    if !conversion.from_proto_returns_pointer {
        if uses_pointer {
            if conversion.fallible {
                vec![
                    "converted, err := ".to_owned().concat(converted),
                    "if err != nil {".to_owned(),
                    "\t".to_owned().concat(error_return),
                    "}".to_owned(),
                    local.to_owned().concat(" := &converted")
                ]
            } else {
                vec![
                    "converted := ".to_owned().concat(converted),
                    local.to_owned().concat(" := &converted"),
                ]
            }
        } else {
            bound_local_lines(conversion, converted, local, error_return)
        }
    } else if uses_pointer {
        bound_local_lines(conversion, converted, local, error_return)
    } else {
        with_lines(
            with_lines(
                vec!["var ".to_owned().concat(local).concat(" ").concat(native_type)],
                if conversion.fallible {
                    vec![
                        "converted, err := ".to_owned().concat(converted),
                        "if err != nil {".to_owned(),
                        "\t".to_owned().concat(error_return),
                        "}".to_owned(),
                        "if converted != nil {".to_owned(),
                    ]
                } else {
                    vec![
                        "if converted := ".to_owned().concat(converted)
                            .concat("; converted != nil {"),
                    ]
                },
            ),
            vec!["\t".to_owned().concat(local).concat(" = *converted"), "}".to_owned()],
        )
    }
}

/// How a value of a message becomes a field of a returned resource: the lines before, and the
/// expression.
pub open spec fn singular_source(
    field: PlannedResourceField,
    value: PlannedValueType,
    conversion: GoConversionView,
    getter: Seq<char>,
    local: Seq<char>,
    native_type: Seq<char>,
    error_return: Seq<char>,
) -> (Seq<Seq<char>>, Seq<char>) {
    let converted = from_proto_text(conversion, getter);
    let uses_pointer = field.optional && crate::text::has_prefix(native_type, "*"@);
    let is_plain = match conversion.kind {
        GoConversionKind::Scalar => true,
        GoConversionKind::Enum => true,
        _ => false,
    };
    if is_plain && !uses_pointer && !conversion.fallible {
        (Seq::<Seq<char>>::empty(), converted)
    } else {
        match conversion.kind {
            GoConversionKind::OverrideConverter => (
                override_resource_lines(
                    conversion,
                    converted,
                    local,
                    native_type,
                    uses_pointer,
                    error_return,
                ),
                local
            ),
            GoConversionKind::ModelConverter => if uses_pointer {
                (
                    seq![("var "@ + local + " "@ + native_type), ("if "@ + getter + " != nil {"@)]
                        + (if conversion.fallible {
                            seq![
                                ("\tconverted, err := "@ + converted),
                                "\tif err != nil {"@,
                                ("\t\t"@ + error_return),
                                "\t}"@
                            ]
                        } else {
                            seq![("\tconverted := "@ + converted)]
                    }) + seq![("\t"@ + local + " = &converted"@), "}"@],
                    local,
                )
            } else {
                (bound_local(conversion, converted, local, error_return), local)
            },
            _ => if uses_pointer {
                let value_local = local + "Value"@;
                let zero = zero_value_text(value);
                (
                    seq![
                        (value_local + " := "@ + converted),
                        ("var "@ + local + " "@ + native_type),
                        ("if "@ + value_local + " != "@ + zero + " {"@),
                        ("\t"@ + local + " = &"@ + value_local),
                        "}"@
                    ],
                    local,
                )
            } else {
                (seq![(local + " := "@ + converted)], local)
            },
        }
    }
}

/// How a value of a message becomes a field of a returned resource: the lines before, and the
/// expression.
pub fn resource_return_singular_proto_source(
    field: &PlannedResourceField,
    value: &PlannedValueType,
    conversion: &GoValueConversion,
    getter: &str,
    local: &str,
    native_type: &str,
    error_return: &str,
) -> (result: (Vec<String>, String))
    ensures
        crate::text::texts(result.0@) == singular_source(
            *field,
            *value,
            conversion@,
            getter@,
            local@,
            native_type@,
            error_return@,
        ).0,
        result.1@ == singular_source(
            *field,
            *value,
            conversion@,
            getter@,
            local@,
            native_type@,
            error_return@,
        ).1,
{
    let converted = from_proto(conversion, getter);
    let uses_pointer = field.optional && starts_with(native_type, "*");
    let is_plain = match conversion.kind {
        GoConversionKind::Scalar => true,
        GoConversionKind::Enum => true,
        _ => false,
    };
    if is_plain && !uses_pointer && !conversion.fallible {
        (Vec::new(), converted)
    } else {
        match conversion.kind {
            GoConversionKind::OverrideConverter => (
                override_resource_source(
                    conversion,
                    converted.as_str(),
                    local,
                    native_type,
                    uses_pointer,
                    error_return,
                ),
                local.to_owned()
            ),
            GoConversionKind::ModelConverter => if uses_pointer {
                (
                    with_lines(
                        with_lines(
                            vec![
                                "var ".to_owned().concat(local).concat(" ").concat(native_type),
                                "if ".to_owned().concat(getter).concat(" != nil {"),
                            ],
                            if conversion.fallible {
                                vec![
                                    "\tconverted, err := ".to_owned().concat(converted.as_str()),
                                    "\tif err != nil {".to_owned(),
                                    "\t\t".to_owned().concat(error_return),
                                    "\t}".to_owned(),
                                ]
                            } else {
                                vec!["\tconverted := ".to_owned().concat(converted.as_str())]
                            },
                        ),
                        vec!["\t".to_owned().concat(local).concat(" = &converted"), "}".to_owned()],
                    ),
                    local.to_owned(),
                )
            } else {
                (
                    bound_local_lines(conversion, converted.as_str(), local, error_return),
                    local.to_owned()
                )
            },
            _ => if uses_pointer {
                let value_local = local.to_owned().concat("Value");
                let zero = resource_return_zero_value_expr(value);
                (
                    vec![
                        value_local.clone().concat(" := ").concat(converted.as_str()),
                        "var ".to_owned().concat(local).concat(" ").concat(native_type),
                        "if ".to_owned().concat(value_local.as_str()).concat(" != ")
                            .concat(zero.as_str()).concat(" {"),
                        "\t".to_owned().concat(local).concat(" = &").concat(value_local.as_str()),
                        "}".to_owned()
                    ],
                    local.to_owned(),
                )
            } else {
                (vec![local.to_owned().concat(" := ").concat(converted.as_str())], local.to_owned())
            },
        }
    }
}

/// The lines that collect the items of a list of a message.
pub open spec fn repeated_source(
    conversion: GoConversionView,
    getter: Seq<char>,
    local: Seq<char>,
    native_type: Seq<char>,
) -> Seq<Seq<char>> {
    let converted = from_proto_text(conversion, "item"@);
    seq![("var "@ + local + " "@ + native_type), ("for _, item := range "@ + getter + " {"@)]
        + (if pointer_result(conversion) {
            (if conversion.fallible {
                    seq![
                        ("\tconverted, err := "@ + converted),
                        "\tif err != nil {"@,
                        "\t\treturn nil, err"@,
                        "\t}"@,
                        "\tif converted != nil {"@
                    ]
                } else {
                    seq![("\tif converted := "@ + converted + "; converted != nil {"@)]
            }) + seq![("\t\t"@ + local + " = append("@ + local + ", *converted)"@), "\t}"@]
        } else if conversion.fallible {
            seq![
                ("\tconverted, err := "@ + converted),
                "\tif err != nil {"@,
                "\t\treturn nil, err"@,
                "\t}"@,
                ("\t"@ + local + " = append("@ + local + ", converted)"@)
            ]
        } else {
            seq![("\t"@ + local + " = append("@ + local + ", "@ + converted + ")"@)]
    }) + seq!["}"@]
}

/// The lines that collect the items of a list of a message.
pub fn repeated_source_lines(
    conversion: &GoValueConversion,
    getter: &str,
    local: &str,
    native_type: &str,
) -> (result: Vec<String>)
    ensures
        crate::text::texts(result@) == repeated_source(conversion@, getter@, local@, native_type@),
{
    let converted = from_proto(conversion, "item");
    with_lines(
        with_lines(
            vec![
                "var ".to_owned().concat(local).concat(" ").concat(native_type),
                "for _, item := range ".to_owned().concat(getter).concat(" {"),
            ],
            if gives_pointer(conversion) {
                with_lines(
                    if conversion.fallible {
                        vec![
                            "\tconverted, err := ".to_owned().concat(converted.as_str()),
                            "\tif err != nil {".to_owned(),
                            "\t\treturn nil, err".to_owned(),
                            "\t}".to_owned(),
                            "\tif converted != nil {".to_owned(),
                        ]
                    } else {
                        vec![
                            "\tif converted := ".to_owned().concat(converted.as_str())
                                .concat("; converted != nil {"),
                        ]
                    },
                    vec![
                        "\t\t".to_owned().concat(local).concat(" = append(").concat(local)
                            .concat(", *converted)"),
                        "\t}".to_owned(),
                    ],
                )
            } else if conversion.fallible {
                vec![
                    "\tconverted, err := ".to_owned().concat(converted.as_str()),
                    "\tif err != nil {".to_owned(),
                    "\t\treturn nil, err".to_owned(),
                    "\t}".to_owned(),
                    "\t".to_owned().concat(local).concat(" = append(").concat(local)
                        .concat(", converted)"),
                ]
            } else {
                vec![
                    "\t".to_owned().concat(local).concat(" = append(").concat(local).concat(", ")
                        .concat(converted.as_str()).concat(")"),
                ]
            },
        ),
        vec!["}".to_owned()],
    )
}

/// The lines that collect the entries of a map of a message.
pub open spec fn map_source(
    conversion: GoConversionView,
    getter: Seq<char>,
    local: Seq<char>,
    native_type: Seq<char>,
) -> Seq<Seq<char>> {
    (seq![
            ("var "@ + local + " "@ + native_type),
            ("if len("@ + getter + ") > 0 {"@),
            ("\t"@ + local + " = make("@ + native_type + ", len("@ + getter + "))"@),
            ("\tfor k, v := range "@ + getter + " {"@)
    ]) + map_entry_lines_of(conversion, from_proto_text(conversion, "v"@), local, "return nil, err"@) + seq!["\t}"@, "}"@]
}

/// The lines that collect the entries of a map of a message.
pub fn map_source_lines(
    conversion: &GoValueConversion,
    getter: &str,
    local: &str,
    native_type: &str,
) -> (result: Vec<String>)
    ensures
        crate::text::texts(result@) == map_source(conversion@, getter@, local@, native_type@),
{
    with_lines(with_lines(vec![
            "var ".to_owned().concat(local).concat(" ").concat(native_type),
            "if len(".to_owned().concat(getter).concat(") > 0 {"),
            "\t".to_owned().concat(local).concat(" = make(").concat(native_type).concat(", len(")
                .concat(getter).concat("))"),
            "\tfor k, v := range ".to_owned().concat(getter).concat(" {")
        ], map_entry_lines(conversion, from_proto(conversion, "v").as_str(), local, "return nil, err")), vec!["\t}".to_owned(), "}".to_owned()])
}

/// The text without the asterisks at its front.
pub open spec fn without_stars(text: Seq<char>) -> Seq<char>
    decreases text.len(),
{
    if text.len() > 0 && text[0] == '*' {
        without_stars(text.drop_first())
    } else {
        text
    }
}

/// The text without the asterisks at its front.
fn trim_stars(text: &str) -> (result: String)
    ensures
        result@ == without_stars(text@),
{
    let chars = crate::text::chars_of(text);
    let mut i: usize = 0;
    assert(chars@.skip(0) =~= chars@);
    while i < chars.len() && chars[i] == '*'
        invariant
            i <= chars.len(),
            without_stars(chars@.skip(i as int)) == without_stars(text@),
        decreases chars.len() - i,
    {
        assert(chars@.skip(i as int).drop_first() =~= chars@.skip(i + 1));
        i += 1;
    }
    assert(chars@.subrange(i as int, chars@.len() as int) =~= chars@.skip(i as int));
    crate::text::text_between(&chars, i, chars.len())
}

/// The Go type that a field of a message is read into for a returned resource.
pub open spec fn source_native_text(field: PlannedResourceField) -> Seq<char> {
    if field.optional && field.puns_zero {
        without_stars(field.internal_type@)
    } else {
        field.internal_type@
    }
}

/// The Go type that a field of a message is read into for a returned resource.
pub fn source_native_type(field: &PlannedResourceField) -> (result: String)
    ensures
        result@ == source_native_text(*field),
{
    if field.optional && field.puns_zero {
        trim_stars(field.internal_type.as_str())
    } else {
        field.internal_type.clone()
    }
}

/// The outcome of reading a field for a returned resource, by its views.
pub open spec fn source_outcome(result: Result<(Vec<String>, String), String>) -> Result<
    (Seq<Seq<char>>, Seq<char>),
    Seq<char>,
> {
    match result {
        Ok(source) => Ok((crate::text::texts(source.0@), source.1@)),
        Err(reason) => Err(reason@),
    }
}

/// How a field of a message becomes a field of a returned resource, or why it cannot, and the
/// imports behind it.
pub open spec fn proto_source_step(
    imports: ImportEntries,
    field: PlannedResourceField,
    source: Seq<char>,
    proto_field_name: Seq<char>,
) -> (Result<(Seq<Seq<char>>, Seq<char>), Seq<char>>, ImportEntries) {
    let local = local_name_text(field.name@);
    let getter = source + ".Get"@ + proto_field_text(proto_field_name) + "()"@;
    let native_type = source_native_text(field);
    match field.kind {
        PlannedFieldKind::Singular(value) => match value_step(imports, value) {
            (Err(reason), after) => (Err(reason), after),
            (Ok(conversion), after) => (
                Ok(
                    singular_source(
                        field,
                        value,
                        conversion,
                        getter,
                        local,
                        native_type,
                        "return nil, err"@,
                    ),
                ),
                after,
            ),
        },
        PlannedFieldKind::Repeated(value) => match value_step(imports, value) {
            (Err(reason), after) => (Err(reason), after),
            (Ok(conversion), after) => (
                Ok((repeated_source(conversion, getter, local, native_type), local)),
                after,
            ),
        },
        PlannedFieldKind::Mapping { value, .. } => match value_step(imports, value) {
            (Err(reason), after) => (Err(reason), after),
            (Ok(conversion), after) => (
                Ok((map_source(conversion, getter, local, native_type), local)),
                after,
            ),
        },
    }
}

/// How a field of a message becomes a field of a returned resource.
pub fn resource_return_proto_field_source(
    field: &PlannedResourceField,
    source: &str,
    proto_field_name: &str,
    imports: &mut GoImportCollector,
) -> (result: Result<(Vec<String>, String), String>)
    requires
        old(imports).wf(),
    ensures
        final(imports).wf(),
        source_outcome(result) == proto_source_step(
            old(imports)@,
            *field,
            source@,
            proto_field_name@,
        ).0,
        final(imports)@ == proto_source_step(
            old(imports)@,
            *field,
            source@,
            proto_field_name@,
        ).1,
{
    let local = resource_return_local_name(field.name.as_str());
    let proto_field = go_proto_field_name(proto_field_name);
    let getter = source.to_owned().concat(".Get").concat(proto_field.as_str()).concat("()");
    let native_type = source_native_type(field);
    match &field.kind {
        PlannedFieldKind::Singular(value) => match go_value_conversion(value, imports) {
            Err(reason) => Err(reason),
            Ok(conversion) => Ok(
                resource_return_singular_proto_source(
                    field,
                    value,
                    &conversion,
                    getter.as_str(),
                    local.as_str(),
                    native_type.as_str(),
                    "return nil, err",
                ),
            ),
        },
        PlannedFieldKind::Repeated(value) => match go_value_conversion(value, imports) {
            Err(reason) => Err(reason),
            Ok(conversion) => {
                let lines = repeated_source_lines(
                    &conversion,
                    getter.as_str(),
                    local.as_str(),
                    native_type.as_str(),
                );
                Ok((lines, local))
            },
        },
        PlannedFieldKind::Mapping { value, .. } => match go_value_conversion(value, imports) {
            Err(reason) => Err(reason),
            Ok(conversion) => {
                let lines = map_source_lines(
                    &conversion,
                    getter.as_str(),
                    local.as_str(),
                    native_type.as_str(),
                );
                Ok((lines, local))
            },
        },
    }
}

/// The index of the first field with the name.
pub open spec fn field_index(fields: Seq<PlannedResourceField>, name: Seq<char>) -> Option<int>
    decreases fields.len(),
{
    if fields.len() == 0 {
        None
    } else {
        match field_index(fields.drop_last(), name) {
            Some(i) => Some(i),
            None => if fields.last().name@ == name {
                Some(fields.len() - 1)
            } else {
                None
            },
        }
    }
}

fn find_field(fields: &Vec<PlannedResourceField>, name: &str) -> (index: Option<usize>)
    ensures
        match index {
            Some(i) => i < fields@.len() && field_index(fields@, name@) == Some(i as int),
            None => field_index(fields@, name@) is None,
        },
{
    let mut found: Option<usize> = None;
    let mut i: usize = 0;
    while i < fields.len()
        invariant
            i <= fields.len(),
            match found {
                Some(k) => k < i && field_index(fields@.take(i as int), name@) == Some(k as int),
                None => field_index(fields@.take(i as int), name@) is None,
            },
        decreases fields.len() - i,
    {
        assert(fields@.take(i + 1).drop_last() =~= fields@.take(i as int));
        if found.is_none() && text_eq(fields[i].name.as_str(), name) {
            found = Some(i);
        }
        i += 1;
    }
    assert(fields@.take(i as int) =~= fields@);
    found
}

/// The code that makes the resource that an operation returns.
#[derive(Debug, Clone)]
pub struct RenderedResourceReturn {
    pub resource_class: String,
    pub local_lines: Vec<String>,
    pub field_initializers: Vec<String>,
}

/// A [`RenderedResourceReturn`] by the views of its texts.
#[verifier::ext_equal]
pub struct ResourceReturnView {
    pub resource_class: Seq<char>,
    pub local_lines: Seq<Seq<char>>,
    pub field_initializers: Seq<Seq<char>>,
}

impl View for RenderedResourceReturn {
    type V = ResourceReturnView;

    open spec fn view(&self) -> ResourceReturnView {
        ResourceReturnView {
            resource_class: self.resource_class@,
            local_lines: crate::text::texts(self.local_lines@),
            field_initializers: crate::text::texts(self.field_initializers@),
        }
    }
}

/// The lines that unpack a pointer of the request for a constructor that takes a value.
pub open spec fn unpack_lines_of(
    value_local: Seq<char>,
    expr: Seq<char>,
    value_type: Seq<char>,
) -> Seq<Seq<char>> {
    seq![
        ("var "@ + value_local + " "@ + value_type),
        ("if "@ + expr + " != nil {"@),
        ("\t"@ + value_local + " = *"@ + expr),
        "}"@
    ]
}

/// The lines that unpack a pointer of the request for a constructor that takes a value.
pub fn unpack_lines(value_local: &str, expr: &str, value_type: &str) -> (result: Vec<String>)
    ensures
        crate::text::texts(result@) == unpack_lines_of(value_local@, expr@, value_type@),
{
    vec![
        "var ".to_owned().concat(value_local).concat(" ").concat(value_type),
        "if ".to_owned().concat(expr).concat(" != nil {"),
        "\t".to_owned().concat(value_local).concat(" = *").concat(expr),
        "}".to_owned()
    ]
}

/// The lines and the expression for one bound field of a returned resource, or why it cannot be
/// bound, and the imports behind it.
pub open spec fn binding_step(
    imports: ImportEntries,
    service: Seq<char>,
    resource_class: Seq<char>,
    fields: Seq<PlannedResourceField>,
    binding: PlannedResourceBinding,
) -> (Result<(Seq<Seq<char>>, Seq<char>), ErrorView>, ImportEntries) {
    match field_index(fields, binding.field_name@) {
        None => (
            Err(
                ErrorView::InvalidResource {
                    service,
                    resource: resource_class,
                    reason: "resource-returning operation references unknown field `"@
                        + binding.field_name@ + "`"@,
                },
            ),
            imports,
        ),
        Some(i) => {
            let field = fields[i];
            match binding.source {
                ResolvedResourceBindingSource::RequestField {
                    field_name,
                    proto_field_name,
                    hidden,
                } => if hidden {
                    bound_proto_step(
                        imports,
                        resource_class,
                        binding.field_name@,
                        field,
                        "requestProto"@,
                        proto_field_name@,
                    )
                } else {
                    let expr = "request."@ + field_name_text(field_name@);
                    if field.optional && field.puns_zero {
                        let value_local = local_name_text(field.name@) + "ConstructorValue"@;
                        (
                            Ok(
                                (
                                    unpack_lines_of(
                                        value_local,
                                        expr,
                                        without_stars(field.internal_type@),
                                    ),
                                    value_local,
                                ),
                            ),
                            imports,
                        )
                    } else {
                        (Ok((Seq::empty(), expr)), imports)
                    }
                },
                ResolvedResourceBindingSource::ResultField { proto_field_name } => bound_proto_step(
                    imports,
                    resource_class,
                    binding.field_name@,
                    field,
                    "result"@,
                    proto_field_name@,
                ),
            }
        },
    }
}

/// The lines and the expression for a field of a returned resource that a message gives.
pub open spec fn bound_proto_step(
    imports: ImportEntries,
    resource_class: Seq<char>,
    field_name: Seq<char>,
    field: PlannedResourceField,
    source: Seq<char>,
    proto_field_name: Seq<char>,
) -> (Result<(Seq<Seq<char>>, Seq<char>), ErrorView>, ImportEntries) {
    match proto_source_step(imports, field, source, proto_field_name) {
        (Ok(lines), after) => (Ok(lines), after),
        (Err(reason), after) => (
            Err(
                ErrorView::UnsupportedGoProtoConversion {
                    context: "resource return field `"@ + resource_class + "."@ + field_name
                        + "`"@,
                    reason,
                },
            ),
            after,
        ),
    }
}

/// The outcome of binding a field, by its views.
pub open spec fn binding_outcome(result: Result<(Vec<String>, String), Error>) -> Result<
    (Seq<Seq<char>>, Seq<char>),
    ErrorView,
> {
    match result {
        Ok(source) => Ok((crate::text::texts(source.0@), source.1@)),
        Err(error) => Err(error@),
    }
}

fn bound_proto_source(
    resource_class: &str,
    field_name: &str,
    field: &PlannedResourceField,
    source: &str,
    proto_field_name: &str,
    imports: &mut GoImportCollector,
) -> (result: Result<(Vec<String>, String), Error>)
    requires
        old(imports).wf(),
    ensures
        final(imports).wf(),
        binding_outcome(result) == bound_proto_step(
            old(imports)@,
            resource_class@,
            field_name@,
            *field,
            source@,
            proto_field_name@,
        ).0,
        final(imports)@ == bound_proto_step(
            old(imports)@,
            resource_class@,
            field_name@,
            *field,
            source@,
            proto_field_name@,
        ).1,
{
    match resource_return_proto_field_source(field, source, proto_field_name, imports) {
        Ok(lines) => Ok(lines),
        Err(reason) => Err(
            Error::UnsupportedGoProtoConversion {
                context: "resource return field `".to_owned().concat(resource_class).concat(
                    ".",
                ).concat(field_name).concat("`"),
                reason,
            },
        ),
    }
}

fn bind_field(
    service: &str,
    resource_class: &str,
    fields: &Vec<PlannedResourceField>,
    binding: &PlannedResourceBinding,
    imports: &mut GoImportCollector,
) -> (result: Result<(Vec<String>, String), Error>)
    requires
        old(imports).wf(),
    ensures
        final(imports).wf(),
        binding_outcome(result) == binding_step(
            old(imports)@,
            service@,
            resource_class@,
            fields@,
            *binding,
        ).0,
        final(imports)@ == binding_step(
            old(imports)@,
            service@,
            resource_class@,
            fields@,
            *binding,
        ).1,
{
    broadcast use crate::text::group_texts;

    match find_field(fields, binding.field_name.as_str()) {
        None => Err(
            Error::InvalidResource {
                service: service.to_owned(),
                resource: resource_class.to_owned(),
                reason: "resource-returning operation references unknown field `".to_owned().concat(
                    binding.field_name.as_str(),
                ).concat("`"),
            },
        ),
        Some(i) => {
            let field = &fields[i];
            match &binding.source {
                ResolvedResourceBindingSource::RequestField {
                    field_name,
                    proto_field_name,
                    hidden,
                } => {
                    if *hidden {
                        bound_proto_source(
                            resource_class,
                            binding.field_name.as_str(),
                            field,
                            "requestProto",
                            proto_field_name.as_str(),
                            imports,
                        )
                    } else {
                        let expr = "request.".to_owned().concat(
                            go_field_name(field_name.as_str()).as_str(),
                        );
                        if field.optional && field.puns_zero {
                            let value_local = resource_return_local_name(
                                field.name.as_str(),
                            ).concat("ConstructorValue");
                            let lines = unpack_lines(
                                value_local.as_str(),
                                expr.as_str(),
                                trim_stars(field.internal_type.as_str()).as_str(),
                            );
                            Ok((lines, value_local))
                        } else {
                            Ok((Vec::new(), expr))
                        }
                    }
                },
                ResolvedResourceBindingSource::ResultField { proto_field_name } => bound_proto_source(
                    resource_class,
                    binding.field_name.as_str(),
                    field,
                    "result",
                    proto_field_name.as_str(),
                    imports,
                ),
            }
        },
    }
}

/// The lines and the initializers for the bound fields, or the error of the first that cannot
/// be bound, and the imports behind them.
pub open spec fn bindings_step(
    imports: ImportEntries,
    service: Seq<char>,
    resource_class: Seq<char>,
    fields: Seq<PlannedResourceField>,
    bindings: Seq<PlannedResourceBinding>,
) -> (Result<(Seq<Seq<char>>, Seq<Seq<char>>), ErrorView>, ImportEntries)
    decreases bindings.len(),
{
    if bindings.len() == 0 {
        (Ok((Seq::empty(), Seq::empty())), imports)
    } else {
        match bindings_step(imports, service, resource_class, fields, bindings.drop_last()) {
            (Err(error), middle) => (Err(error), middle),
            (Ok(before), middle) => match binding_step(
                middle,
                service,
                resource_class,
                fields,
                bindings.last(),
            ) {
                (Err(error), after) => (Err(error), after),
                (Ok(bound), after) => (Ok((before.0 + bound.0, before.1.push(bound.1))), after),
            },
        }
    }
}

proof fn lemma_bindings_error(
    imports: ImportEntries,
    service: Seq<char>,
    resource_class: Seq<char>,
    fields: Seq<PlannedResourceField>,
    bindings: Seq<PlannedResourceBinding>,
    count: int,
)
    requires
        0 <= count <= bindings.len(),
        bindings_step(imports, service, resource_class, fields, bindings.take(count)).0 is Err,
    ensures
        bindings_step(imports, service, resource_class, fields, bindings) == bindings_step(
            imports,
            service,
            resource_class,
            fields,
            bindings.take(count),
        ),
    decreases bindings.len() - count,
{
    if count < bindings.len() {
        assert(bindings.take(count + 1).drop_last() =~= bindings.take(count));
        lemma_bindings_error(imports, service, resource_class, fields, bindings, count + 1);
    } else {
        assert(bindings.take(count) =~= bindings);
    }
}

/// The code that makes a returned resource, or why it cannot be made, and the imports behind it.
pub open spec fn resource_return_step(
    imports: ImportEntries,
    service: Seq<char>,
    resource_return: PlannedOperationResourceReturn,
    resource: PlannedResource,
) -> (Result<ResourceReturnView, ErrorView>, ImportEntries) {
    match bindings_step(
        imports,
        service,
        resource_return.resource_class@,
        resource.fields@,
        resource_return.bindings@,
    ) {
        (Err(error), after) => (Err(error), after),
        (Ok(bound), after) => (
            Ok(
                ResourceReturnView {
                    resource_class: resource_return.resource_class@,
                    local_lines: bound.0,
                    field_initializers: bound.1,
                },
            ),
            after,
        ),
    }
}

/// The outcome of making a returned resource, by its views.
pub open spec fn return_outcome(result: Result<RenderedResourceReturn, Error>) -> Result<
    ResourceReturnView,
    ErrorView,
> {
    match result {
        Ok(rendered) => Ok(rendered@),
        Err(error) => Err(error@),
    }
}

/// The code that makes the resource that an operation returns: each bound field of the resource
/// gets its value from the request or from the result.
pub fn build_rendered_resource_return(
    service_name: &str,
    resource_return: &PlannedOperationResourceReturn,
    resource: &PlannedResource,
    imports: &mut GoImportCollector,
) -> (result: Result<RenderedResourceReturn, Error>)
    requires
        old(imports).wf(),
    ensures
        final(imports).wf(),
        return_outcome(result) == resource_return_step(
            old(imports)@,
            service_name@,
            *resource_return,
            *resource,
        ).0,
        final(imports)@ == resource_return_step(
            old(imports)@,
            service_name@,
            *resource_return,
            *resource,
        ).1,
{
    broadcast use crate::text::group_texts;

    let ghost start = imports@;
    let ghost class = resource_return.resource_class@;
    let ghost bindings = resource_return.bindings@;
    let mut local_lines: Vec<String> = Vec::new();
    let mut field_initializers: Vec<String> = Vec::new();
    let mut i: usize = 0;
    while i < resource_return.bindings.len()
        invariant
            i <= resource_return.bindings.len(),
            imports.wf(),
            start == old(imports)@,
            class == resource_return.resource_class@,
            bindings == resource_return.bindings@,
            bindings_step(
                start,
                service_name@,
                class,
                resource.fields@,
                bindings.take(i as int),
            ) == (
                Ok::<(Seq<Seq<char>>, Seq<Seq<char>>), ErrorView>(
                    (crate::text::texts(local_lines@), crate::text::texts(field_initializers@)),
                ),
                imports@,
            ),
        decreases resource_return.bindings.len() - i,
    {
        assert(bindings.take(i + 1).drop_last() =~= bindings.take(i as int));
        let ghost lines_before = crate::text::texts(local_lines@);
        let ghost initializers_before = crate::text::texts(field_initializers@);
        let bound = bind_field(
            service_name,
            resource_return.resource_class.as_str(),
            &resource.fields,
            &resource_return.bindings[i],
            imports,
        );
        match bound {
            Ok((lines, initializer)) => {
                local_lines = with_lines(local_lines, lines);
                field_initializers.push(initializer);
                assert(
                    crate::text::texts(local_lines@) == lines_before + crate::text::texts(lines@)
                );
                assert(
                    crate::text::texts(field_initializers@)
                        == initializers_before.push(initializer@)
                );
                assert(binding_outcome(bound) == Ok::<(Seq<Seq<char>>, Seq<char>), ErrorView>(
                    (crate::text::texts(lines@), initializer@),
                ));
            },
            Err(error) => {
                proof {
                    lemma_bindings_error(
                        start,
                        service_name@,
                        class,
                        resource.fields@,
                        bindings,
                        i + 1,
                    );
                }
                return Err(error);
            },
        }
        i += 1;
    }
    assert(bindings.take(i as int) =~= bindings);
    Ok(
        RenderedResourceReturn {
            resource_class: resource_return.resource_class.clone(),
            local_lines,
            field_initializers,
        },
    )
}

/// A field of a generated model.
#[derive(Debug, Clone)]
pub struct PlannedField {
    pub proto_name: String,
    pub authored_name: String,
    pub kind: PlannedFieldKind,
    /// The type that the field has where its model is flattened into another.
    pub flattened_annotation: Option<LanguageStringSpec>,
}

/// A field of the message whose value no field of the model gives.
#[derive(Debug, Clone)]
pub struct PlannedSourcedField {
    pub proto_name: String,
    pub kind: PlannedFieldKind,
    pub source_expr: String,
}

/// The lines that put a field into its message, and those that read it.
#[derive(Debug, Clone)]
pub struct RenderedFieldConversion {
    pub to_proto_lines: Vec<String>,
    pub from_proto_lines: Vec<String>,
}

/// A [`RenderedFieldConversion`] by the views of its texts.
#[verifier::ext_equal]
pub struct FieldConversionView {
    pub to_proto_lines: Seq<Seq<char>>,
    pub from_proto_lines: Seq<Seq<char>>,
}

impl View for RenderedFieldConversion {
    type V = FieldConversionView;

    open spec fn view(&self) -> FieldConversionView {
        FieldConversionView {
            to_proto_lines: crate::text::texts(self.to_proto_lines@),
            from_proto_lines: crate::text::texts(self.from_proto_lines@),
        }
    }
}

/// The views of a list of field conversions.
pub open spec fn field_conversion_views(fields: Seq<RenderedFieldConversion>) -> Seq<
    FieldConversionView,
> {
    fields.map_values(|field: RenderedFieldConversion| field@)
}

/// The lines that put a value into its message that no field gives.
#[derive(Debug, Clone)]
pub struct RenderedSourcedField {
    pub to_proto_lines: Vec<String>,
}

impl View for RenderedSourcedField {
    type V = Seq<Seq<char>>;

    open spec fn view(&self) -> Seq<Seq<char>> {
        crate::text::texts(self.to_proto_lines@)
    }
}

/// The views of a list of sourced fields.
pub open spec fn sourced_views(fields: Seq<RenderedSourcedField>) -> Seq<Seq<Seq<char>>> {
    fields.map_values(|field: RenderedSourcedField| field@)
}

/// Whether the field has a Go type of its own where its model is flattened.
pub open spec fn flattened_type(field: PlannedField) -> bool {
    match field.flattened_annotation {
        Some(annotation) => crate::plan::text_for(annotation, Language::Go) is Some,
        None => false,
    }
}

/// Whether the field has a Go type of its own where its model is flattened.
pub fn has_flattened_type(field: &PlannedField) -> (result: bool)
    ensures
        result == flattened_type(*field),
{
    match &field.flattened_annotation {
        Some(annotation) => annotation.for_language(Language::Go).is_some(),
        None => false,
    }
}

/// The lines that read a field whose decoded value must have the flattened type.
pub open spec fn typed_from_proto(
    conversion: GoConversionView,
    proto_field: Seq<char>,
    go_field: Seq<char>,
    native_go_type: Seq<char>,
) -> Seq<Seq<char>> {
    let getter = "proto.Get"@ + proto_field + "()"@;
    seq![
        ("if "@ + getter + " != nil {"@),
        ("\tconverted, err := "@ + from_proto_text(conversion, getter)),
        "\tif err != nil {"@,
        "\t\treturn value, err"@,
        "\t}"@,
        ("\ttyped, ok := converted.("@ + native_go_type + ")"@),
        "\tif !ok {"@,
        (
            "\t\treturn value, fmt.Errorf(\"nexgen decoded field "@ + go_field
                + " has unexpected type %T\", converted)"@
        ),
        "\t}"@,
        ("\tvalue."@ + go_field + " = typed"@),
        "}"@
    ]
}

/// The lines that read a field whose decoded value must have the flattened type.
pub fn typed_from_proto_lines(
    conversion: &GoValueConversion,
    proto_field: &str,
    go_field: &str,
    native_go_type: &str,
) -> (result: Vec<String>)
    ensures
        crate::text::texts(result@) == typed_from_proto(
            conversion@,
            proto_field@,
            go_field@,
            native_go_type@,
        ),
{
    let getter = "proto.Get".to_owned().concat(proto_field).concat("()");
    vec![
        "if ".to_owned().concat(getter.as_str()).concat(" != nil {"),
        "\tconverted, err := ".to_owned().concat(from_proto(conversion, getter.as_str()).as_str()),
        "\tif err != nil {".to_owned(),
        "\t\treturn value, err".to_owned(),
        "\t}".to_owned(),
        "\ttyped, ok := converted.(".to_owned().concat(native_go_type).concat(")"),
        "\tif !ok {".to_owned(),
        "\t\treturn value, fmt.Errorf(\"nexgen decoded field ".to_owned().concat(go_field)
            .concat(" has unexpected type %T\", converted)"),
        "\t}".to_owned(),
        "\tvalue.".to_owned().concat(go_field).concat(" = typed"),
        "}".to_owned()
    ]
}

/// The lines that read a singular field into the model.
pub open spec fn field_from_proto(
    field: PlannedField,
    conversion: GoConversionView,
    proto_field: Seq<char>,
    go_field: Seq<char>,
    native_go_type: Seq<char>,
) -> Seq<Seq<char>> {
    if flattened_type(field) && !conversion.from_proto_returns_pointer {
        typed_from_proto(conversion, proto_field, go_field, native_go_type)
    } else {
        singular_from_proto(
            conversion,
            proto_field,
            go_field,
            crate::text::has_prefix(native_go_type, "*"@),
            "return value, err"@,
        )
    }
}

/// The lines that read a singular field into the model.
pub fn field_from_proto_lines(
    field: &PlannedField,
    conversion: &GoValueConversion,
    proto_field: &str,
    go_field: &str,
    native_go_type: &str,
) -> (result: Vec<String>)
    ensures
        crate::text::texts(result@) == field_from_proto(
            *field,
            conversion@,
            proto_field@,
            go_field@,
            native_go_type@,
        ),
{
    if has_flattened_type(field) && !conversion.from_proto_returns_pointer {
        typed_from_proto_lines(conversion, proto_field, go_field, native_go_type)
    } else {
        singular_from_proto_lines(
            conversion,
            proto_field,
            go_field,
            starts_with(native_go_type, "*"),
            "return value, err",
        )
    }
}

/// The Go type of a map in its message, or why it has none, and the imports behind it.
pub open spec fn map_type_step(
    imports: ImportEntries,
    key: PlannedValueType,
    value: PlannedValueType,
) -> (Result<Seq<char>, Seq<char>>, ImportEntries) {
    match value_type_step(imports, key) {
        (Err(reason), after) => (Err("map key: "@ + reason), after),
        (Ok(key_type), middle) => match value_type_step(middle, value) {
            (Err(reason), after) => (Err("map value: "@ + reason), after),
            (Ok(value_type), after) => (Ok("map["@ + key_type + "]"@ + value_type), after),
        },
    }
}

fn map_proto_type(
    key: &PlannedValueType,
    value: &PlannedValueType,
    imports: &mut GoImportCollector,
) -> (result: Result<String, String>)
    requires
        old(imports).wf(),
    ensures
        final(imports).wf(),
        (text_result(result), final(imports)@) == map_type_step(old(imports)@, *key, *value),
{
    match value_proto_type(key, imports) {
        Err(reason) => Err("map key: ".to_owned().concat(reason.as_str())),
        Ok(key_type) => match value_proto_type(value, imports) {
            Err(reason) => Err("map value: ".to_owned().concat(reason.as_str())),
            Ok(value_type) => Ok(
                "map[".to_owned().concat(key_type.as_str()).concat("]").concat(value_type.as_str()),
            ),
        },
    }
}

/// The conversion of a field, or why there is none, and the imports behind it.
pub open spec fn field_step(
    imports: ImportEntries,
    field: PlannedField,
    native_go_type: Seq<char>,
) -> (Result<FieldConversionView, Seq<char>>, ImportEntries) {
    let proto_field = proto_field_text(field.proto_name@);
    let go_field = field_name_text(field.authored_name@);
    let receiver = "m."@ + go_field;
    match field.kind {
        PlannedFieldKind::Singular(value) => match value_step(imports, value) {
            (Err(reason), after) => (Err(reason), after),
            (Ok(conversion), after) => (
                Ok(
                    FieldConversionView {
                        to_proto_lines: singular_to_proto(
                            conversion,
                            receiver,
                            proto_field,
                            crate::text::has_prefix(native_go_type, "*"@),
                            "return nil, err"@,
                        ),
                        from_proto_lines: field_from_proto(
                            field,
                            conversion,
                            proto_field,
                            go_field,
                            native_go_type,
                        ),
                    },
                ),
                after,
            ),
        },
        PlannedFieldKind::Repeated(value) => match value_step(imports, value) {
            (Err(reason), after) => (Err(reason), after),
            (Ok(conversion), after) => (
                Ok(
                    FieldConversionView {
                        to_proto_lines: repeated_to_proto(
                            conversion,
                            receiver,
                            proto_field,
                            "return nil, err"@,
                        ),
                        from_proto_lines: repeated_from_proto(
                            conversion,
                            proto_field,
                            go_field,
                            "return value, err"@,
                        ),
                    },
                ),
                after,
            ),
        },
        PlannedFieldKind::Mapping { key, value } => match value_step(imports, value) {
            (Err(reason), after) => (Err(reason), after),
            (Ok(conversion), middle) => match map_type_step(middle, key, value) {
                (Err(reason), after) => (Err(reason), after),
                (Ok(map_type), after) => (
                    Ok(
                        FieldConversionView {
                            to_proto_lines: map_to_proto(
                                conversion,
                                map_type,
                                receiver,
                                proto_field,
                                "return nil, err"@,
                            ),
                            from_proto_lines: map_from_proto(
                                conversion,
                                native_go_type,
                                proto_field,
                                go_field,
                                "return value, err"@,
                            ),
                        },
                    ),
                    after,
                ),
            },
        },
    }
}

/// The conversion of a field, by its views.
pub open spec fn field_outcome(result: Result<RenderedFieldConversion, String>) -> Result<
    FieldConversionView,
    Seq<char>,
> {
    match result {
        Ok(field) => Ok(field@),
        Err(reason) => Err(reason@),
    }
}

/// The conversion of a field of a generated model.
pub fn build_field_conversion(
    field: &PlannedField,
    native_go_type: &str,
    imports: &mut GoImportCollector,
) -> (result: Result<RenderedFieldConversion, String>)
    requires
        old(imports).wf(),
    ensures
        final(imports).wf(),
        field_outcome(result) == field_step(old(imports)@, *field, native_go_type@).0,
        final(imports)@ == field_step(old(imports)@, *field, native_go_type@).1,
{
    let proto_field = go_proto_field_name(field.proto_name.as_str());
    let go_field = go_field_name(field.authored_name.as_str());
    let receiver = "m.".to_owned().concat(go_field.as_str());
    match &field.kind {
        PlannedFieldKind::Singular(value) => match go_value_conversion(value, imports) {
            Err(reason) => Err(reason),
            Ok(conversion) => Ok(
                RenderedFieldConversion {
                    to_proto_lines: singular_to_proto_lines(
                        &conversion,
                        receiver.as_str(),
                        proto_field.as_str(),
                        starts_with(native_go_type, "*"),
                        "return nil, err",
                    ),
                    from_proto_lines: field_from_proto_lines(
                        field,
                        &conversion,
                        proto_field.as_str(),
                        go_field.as_str(),
                        native_go_type,
                    ),
                },
            ),
        },
        PlannedFieldKind::Repeated(value) => match go_value_conversion(value, imports) {
            Err(reason) => Err(reason),
            Ok(conversion) => Ok(
                RenderedFieldConversion {
                    to_proto_lines: repeated_to_proto_lines(
                        &conversion,
                        receiver.as_str(),
                        proto_field.as_str(),
                        "return nil, err",
                    ),
                    from_proto_lines: repeated_from_proto_lines(
                        &conversion,
                        proto_field.as_str(),
                        go_field.as_str(),
                        "return value, err",
                    ),
                },
            ),
        },
        PlannedFieldKind::Mapping { key, value } => match go_value_conversion(value, imports) {
            Err(reason) => Err(reason),
            Ok(conversion) => match map_proto_type(key, value, imports) {
                Err(reason) => Err(reason),
                Ok(map_type) => Ok(
                    RenderedFieldConversion {
                        to_proto_lines: map_to_proto_lines(
                            &conversion,
                            map_type.as_str(),
                            receiver.as_str(),
                            proto_field.as_str(),
                            "return nil, err",
                        ),
                        from_proto_lines: map_from_proto_lines(
                            &conversion,
                            native_go_type,
                            proto_field.as_str(),
                            go_field.as_str(),
                            "return value, err",
                        ),
                    },
                ),
            },
        },
    }
}

/// The lines that put a sourced value into its message.
pub open spec fn sourced_singular(
    conversion: GoConversionView,
    proto_field: Seq<char>,
    source_expr: Seq<char>,
) -> Seq<Seq<char>> {
    match conversion.kind {
        GoConversionKind::OverrideConverter => {
            let converted = element_to_proto_text(conversion, "sourced"@);
            seq![("sourced := "@ + source_expr)] + (if conversion.fallible {
                    seq![
                        ("converted, err := "@ + converted),
                        "if err != nil {"@,
                        "\treturn nil, err"@,
                        "}"@,
                        ("message."@ + proto_field + " = converted"@)
                    ]
                } else {
                    seq![("message."@ + proto_field + " = "@ + converted)]
            })
        },
        _ => {
            let converted = to_proto_text(conversion, source_expr);
            if conversion.fallible {
                seq![
                    ("converted, err := "@ + converted),
                    "if err != nil {"@,
                    "\treturn nil, err"@,
                    "}"@,
                    ("message."@ + proto_field + " = converted"@)
                ]
            } else {
                seq![("message."@ + proto_field + " = "@ + converted)]
            }
        },
    }
}

/// The lines that put a sourced value into its message.
pub fn sourced_singular_lines(
    conversion: &GoValueConversion,
    proto_field: &str,
    source_expr: &str,
) -> (result: Vec<String>)
    ensures
        crate::text::texts(result@) == sourced_singular(conversion@, proto_field@, source_expr@),
{
    match conversion.kind {
        GoConversionKind::OverrideConverter => {
            let converted = element_to_proto(conversion, "sourced");
            with_lines(vec!["sourced := ".to_owned().concat(source_expr)], if conversion.fallible {
                    vec![
                        "converted, err := ".to_owned().concat(converted.as_str()),
                        "if err != nil {".to_owned(),
                        "\treturn nil, err".to_owned(),
                        "}".to_owned(),
                        "message.".to_owned().concat(proto_field).concat(" = converted")
                    ]
                } else {
                    vec![
                        "message.".to_owned().concat(proto_field).concat(" = ")
                            .concat(converted.as_str()),
                    ]
                })
        },
        _ => {
            let converted = to_proto(conversion, source_expr);
            if conversion.fallible {
                vec![
                    "converted, err := ".to_owned().concat(converted.as_str()),
                    "if err != nil {".to_owned(),
                    "\treturn nil, err".to_owned(),
                    "}".to_owned(),
                    "message.".to_owned().concat(proto_field).concat(" = converted")
                ]
            } else {
                vec![
                    "message.".to_owned().concat(proto_field).concat(" = ")
                        .concat(converted.as_str()),
                ]
            }
        },
    }
}

/// The lines for a sourced field, or why there are none, and the imports behind them.
pub open spec fn sourced_step(imports: ImportEntries, field: PlannedSourcedField) -> (
    Result<Seq<Seq<char>>, Seq<char>>,
    ImportEntries,
) {
    let proto_field = proto_field_text(field.proto_name@);
    match field.kind {
        PlannedFieldKind::Singular(value) => match value_step(imports, value) {
            (Err(reason), after) => (Err(reason), after),
            (Ok(conversion), after) => (
                Ok(sourced_singular(conversion, proto_field, field.source_expr@)),
                after,
            ),
        },
        PlannedFieldKind::Repeated(value) => match value_step(imports, value) {
            (Err(reason), after) => (Err(reason), after),
            (Ok(conversion), after) => (
                Ok(
                    repeated_to_proto(
                        conversion,
                        field.source_expr@,
                        proto_field,
                        "return nil, err"@,
                    ),
                ),
                after,
            ),
        },
        PlannedFieldKind::Mapping { key, value } => match value_step(imports, value) {
            (Err(reason), after) => (Err(reason), after),
            (Ok(conversion), middle) => match map_type_step(middle, key, value) {
                (Err(reason), after) => (Err(reason), after),
                (Ok(map_type), after) => {
                    let local = "sourced"@ + proto_field;
                    (
                        Ok(
                            seq![local + " := "@ + field.source_expr@] + map_to_proto(
                                conversion,
                                map_type,
                                local,
                                proto_field,
                                "return nil, err"@,
                            ),
                        ),
                        after,
                    )
                },
            },
        },
    }
}

/// The lines for a sourced field, by their views.
pub open spec fn sourced_outcome(result: Result<RenderedSourcedField, String>) -> Result<
    Seq<Seq<char>>,
    Seq<char>,
> {
    match result {
        Ok(field) => Ok(field@),
        Err(reason) => Err(reason@),
    }
}

/// The lines for a sourced field of a message.
pub fn build_sourced_conversion(
    field: &PlannedSourcedField,
    imports: &mut GoImportCollector,
) -> (result: Result<RenderedSourcedField, String>)
    requires
        old(imports).wf(),
    ensures
        final(imports).wf(),
        sourced_outcome(result) == sourced_step(old(imports)@, *field).0,
        final(imports)@ == sourced_step(old(imports)@, *field).1,
{
    let proto_field = go_proto_field_name(field.proto_name.as_str());
    match &field.kind {
        PlannedFieldKind::Singular(value) => match go_value_conversion(value, imports) {
            Err(reason) => Err(reason),
            Ok(conversion) => Ok(
                RenderedSourcedField {
                    to_proto_lines: sourced_singular_lines(
                        &conversion,
                        proto_field.as_str(),
                        field.source_expr.as_str(),
                    ),
                },
            ),
        },
        PlannedFieldKind::Repeated(value) => match go_value_conversion(value, imports) {
            Err(reason) => Err(reason),
            Ok(conversion) => Ok(
                RenderedSourcedField {
                    to_proto_lines: repeated_to_proto_lines(
                        &conversion,
                        field.source_expr.as_str(),
                        proto_field.as_str(),
                        "return nil, err",
                    ),
                },
            ),
        },
        PlannedFieldKind::Mapping { key, value } => match go_value_conversion(value, imports) {
            Err(reason) => Err(reason),
            Ok(conversion) => match map_proto_type(key, value, imports) {
                Err(reason) => Err(reason),
                Ok(map_type) => {
                    let local = "sourced".to_owned().concat(proto_field.as_str());
                    let first = vec![
                        local.clone().concat(" := ").concat(field.source_expr.as_str()),
                    ];
                    assert(
                        crate::text::texts(first@) =~= seq![local@ + " := "@ + field.source_expr@]
                    );
                    Ok(
                        RenderedSourcedField {
                            to_proto_lines: with_lines(
                                first,
                                map_to_proto_lines(
                                    &conversion,
                                    map_type.as_str(),
                                    local.as_str(),
                                    proto_field.as_str(),
                                    "return nil, err",
                                ),
                            ),
                        },
                    )
                },
            },
        },
    }
}

/// The Go type of the field at a place; empty where none is known.
pub open spec fn native_at(natives: Seq<Seq<char>>, index: int) -> Seq<char> {
    if index < natives.len() {
        natives[index]
    } else {
        ""@
    }
}

/// The conversion of a field of the model `model_name`, with its place in the error.
pub open spec fn named_field_step(
    imports: ImportEntries,
    model_name: Seq<char>,
    field: PlannedField,
    native_go_type: Seq<char>,
) -> (Result<FieldConversionView, ErrorView>, ImportEntries) {
    match field_step(imports, field, native_go_type) {
        (Ok(made), after) => (Ok(made), after),
        (Err(reason), after) => (
            Err(
                ErrorView::UnsupportedGoProtoConversion {
                    context: "field `"@ + model_name + "."@ + field.authored_name@ + "`"@,
                    reason,
                },
            ),
            after,
        ),
    }
}

fn named_field_conversion(
    model_name: &str,
    field: &PlannedField,
    natives: &Vec<String>,
    index: usize,
    imports: &mut GoImportCollector,
) -> (result: Result<RenderedFieldConversion, Error>)
    requires
        old(imports).wf(),
    ensures
        final(imports).wf(),
        match (
            result,
            named_field_step(
                old(imports)@,
                model_name@,
                *field,
                native_at(crate::text::texts(natives@), index as int),
            ).0,
        ) {
            (Ok(made), Ok(view)) => made@ == view,
            (Err(error), Err(view)) => error@ == view,
            _ => false,
        },
        final(imports)@ == named_field_step(
            old(imports)@,
            model_name@,
            *field,
            native_at(crate::text::texts(natives@), index as int),
        ).1,
{
    let native_go_type = if index < natives.len() {
        natives[index].as_str()
    } else {
        ""
    };
    match build_field_conversion(field, native_go_type, imports) {
        Ok(made) => Ok(made),
        Err(reason) => Err(
            Error::UnsupportedGoProtoConversion {
                context: "field `".to_owned().concat(model_name).concat(".").concat(
                    field.authored_name.as_str(),
                ).concat("`"),
                reason,
            },
        ),
    }
}

/// The conversions of the fields of a model, in their order, up to the first that has none.
pub open spec fn fields_step(
    imports: ImportEntries,
    fields: Seq<PlannedField>,
    model_name: Seq<char>,
    natives: Seq<Seq<char>>,
) -> (Result<Seq<FieldConversionView>, ErrorView>, ImportEntries)
    decreases fields.len(),
{
    if fields.len() == 0 {
        (Ok(Seq::empty()), imports)
    } else {
        let field = fields.last();
        let index = fields.len() - 1;
        match fields_step(imports, fields.drop_last(), model_name, natives) {
            (Err(error), imports) => (Err(error), imports),
            (Ok(before), imports) => match named_field_step(
                imports,
                model_name,
                field,
                native_at(natives, index),
            ) {
                (Err(error), after) => (Err(error), after),
                (Ok(made), after) => (Ok(before.push(made)), after),
            },
        }
    }
}

proof fn lemma_fields_error(
    imports: ImportEntries,
    fields: Seq<PlannedField>,
    model_name: Seq<char>,
    natives: Seq<Seq<char>>,
    count: int,
)
    requires
        0 <= count <= fields.len(),
        fields_step(imports, fields.take(count), model_name, natives).0 is Err,
    ensures
        fields_step(imports, fields, model_name, natives) == fields_step(
            imports,
            fields.take(count),
            model_name,
            natives,
        ),
    decreases fields.len() - count,
{
    if count < fields.len() {
        assert(fields.take(count + 1).drop_last() =~= fields.take(count));
        lemma_fields_error(imports, fields, model_name, natives, count + 1);
    } else {
        assert(fields.take(count) =~= fields);
    }
}

/// The conversions of the fields of a model, in their order, up to the first that has none.
pub fn build_field_conversions(
    fields: &Vec<PlannedField>,
    model_name: &str,
    natives: &Vec<String>,
    imports: &mut GoImportCollector,
) -> (result: Result<Vec<RenderedFieldConversion>, Error>)
    requires
        old(imports).wf(),
    ensures
        final(imports).wf(),
        match (
            result,
            fields_step(old(imports)@, fields@, model_name@, crate::text::texts(natives@)).0
        ) {
            (Ok(made), Ok(view)) => field_conversion_views(made@) == view,
            (Err(error), Err(view)) => error@ == view,
            _ => false,
        },
        final(imports)@ == fields_step(
            old(imports)@,
            fields@,
            model_name@,
            crate::text::texts(natives@),
        ).1,
{
    let ghost start = imports@;
    let mut items: Vec<RenderedFieldConversion> = Vec::new();
    let mut i: usize = 0;
    assert(field_conversion_views(items@) =~= Seq::empty());
    while i < fields.len()
        invariant
            i <= fields.len(),
            imports.wf(),
            start == old(imports)@,
            fields_step(
                start,
                fields@.take(i as int),
                model_name@,
                crate::text::texts(natives@),
            ) == (
                Ok::<Seq<FieldConversionView>, ErrorView>(field_conversion_views(items@)),
                imports@
            ),
        decreases fields.len() - i,
    {
        assert(fields@.take(i + 1).drop_last() =~= fields@.take(i as int));
        let field = &fields[i];
        let index: usize = i;
        let ghost before = items@;
        match named_field_conversion(model_name, field, natives, index, imports) {
            Ok(made) => {
                items.push(made);
                assert(
                    field_conversion_views(items@) =~= field_conversion_views(before).push(made@)
                );
            },
            Err(error) => {
                proof {
                    lemma_fields_error(
                        start,
                        fields@,
                        model_name@,
                        crate::text::texts(natives@),
                        i + 1,
                    );
                }
                return Err(error);
            },
        }
        i += 1;
    }
    assert(fields@.take(i as int) =~= fields@);
    Ok(items)
}

/// The lines for a sourced field of the model `model_name`, with its place in the error.
pub open spec fn named_sourced_step(
    imports: ImportEntries,
    model_name: Seq<char>,
    field: PlannedSourcedField,
) -> (Result<Seq<Seq<char>>, ErrorView>, ImportEntries) {
    match sourced_step(imports, field) {
        (Ok(made), after) => (Ok(made), after),
        (Err(reason), after) => (
            Err(
                ErrorView::UnsupportedGoProtoConversion {
                    context: "sourced field `"@ + model_name + "."@ + field.proto_name@ + "`"@,
                    reason,
                },
            ),
            after,
        ),
    }
}

fn named_sourced_conversion(
    model_name: &str,
    field: &PlannedSourcedField,
    imports: &mut GoImportCollector,
) -> (result: Result<RenderedSourcedField, Error>)
    requires
        old(imports).wf(),
    ensures
        final(imports).wf(),
        match (result, named_sourced_step(old(imports)@, model_name@, *field).0) {
            (Ok(made), Ok(view)) => made@ == view,
            (Err(error), Err(view)) => error@ == view,
            _ => false,
        },
        final(imports)@ == named_sourced_step(old(imports)@, model_name@, *field).1,
{
    match build_sourced_conversion(field, imports) {
        Ok(made) => Ok(made),
        Err(reason) => Err(
            Error::UnsupportedGoProtoConversion {
                context: "sourced field `".to_owned().concat(model_name).concat(".").concat(
                    field.proto_name.as_str(),
                ).concat("`"),
                reason,
            },
        ),
    }
}

/// The lines for the sourced fields of a model, in their order, up to the first that has none.
pub open spec fn sourced_fields_step(
    imports: ImportEntries,
    fields: Seq<PlannedSourcedField>,
    model_name: Seq<char>,
) -> (Result<Seq<Seq<Seq<char>>>, ErrorView>, ImportEntries)
    decreases fields.len(),
{
    if fields.len() == 0 {
        (Ok(Seq::empty()), imports)
    } else {
        let field = fields.last();
        match sourced_fields_step(imports, fields.drop_last(), model_name) {
            (Err(error), imports) => (Err(error), imports),
            (Ok(before), imports) => match named_sourced_step(imports, model_name, field) {
                (Err(error), after) => (Err(error), after),
                (Ok(made), after) => (Ok(before.push(made)), after),
            },
        }
    }
}

proof fn lemma_sourced_error(
    imports: ImportEntries,
    fields: Seq<PlannedSourcedField>,
    model_name: Seq<char>,
    count: int,
)
    requires
        0 <= count <= fields.len(),
        sourced_fields_step(imports, fields.take(count), model_name).0 is Err,
    ensures
        sourced_fields_step(imports, fields, model_name) == sourced_fields_step(
            imports,
            fields.take(count),
            model_name,
        ),
    decreases fields.len() - count,
{
    if count < fields.len() {
        assert(fields.take(count + 1).drop_last() =~= fields.take(count));
        lemma_sourced_error(imports, fields, model_name, count + 1);
    } else {
        assert(fields.take(count) =~= fields);
    }
}

/// The lines for the sourced fields of a model, in their order, up to the first that has none.
pub fn build_sourced_conversions(
    fields: &Vec<PlannedSourcedField>,
    model_name: &str,
    imports: &mut GoImportCollector,
) -> (result: Result<Vec<RenderedSourcedField>, Error>)
    requires
        old(imports).wf(),
    ensures
        final(imports).wf(),
        match (result, sourced_fields_step(old(imports)@, fields@, model_name@).0) {
            (Ok(made), Ok(view)) => sourced_views(made@) == view,
            (Err(error), Err(view)) => error@ == view,
            _ => false,
        },
        final(imports)@ == sourced_fields_step(old(imports)@, fields@, model_name@).1,
{
    let ghost start = imports@;
    let mut items: Vec<RenderedSourcedField> = Vec::new();
    let mut i: usize = 0;
    assert(sourced_views(items@) =~= Seq::empty());
    while i < fields.len()
        invariant
            i <= fields.len(),
            imports.wf(),
            start == old(imports)@,
            sourced_fields_step(start, fields@.take(i as int), model_name@) == (
                Ok::<Seq<Seq<Seq<char>>>, ErrorView>(sourced_views(items@)),
                imports@
            ),
        decreases fields.len() - i,
    {
        assert(fields@.take(i + 1).drop_last() =~= fields@.take(i as int));
        let field = &fields[i];
        let ghost before = items@;
        match named_sourced_conversion(model_name, field, imports) {
            Ok(made) => {
                items.push(made);
                assert(sourced_views(items@) =~= sourced_views(before).push(made@));
            },
            Err(error) => {
                proof {
                    lemma_sourced_error(start, fields@, model_name@, i + 1);
                }
                return Err(error);
            },
        }
        i += 1;
    }
    assert(fields@.take(i as int) =~= fields@);
    Ok(items)
}

/// What the plan knows of the record that a model is generated from.
#[derive(Debug)]
pub struct GoModelRecord {
    pub record: PlannedRecord,
    pub fields: Vec<PlannedField>,
    pub sourced_fields: Vec<PlannedSourcedField>,
}

/// A rendered model with the declaration of its message, where it has functions from and to it.
#[derive(Debug)]
pub struct GoModel {
    pub key: String,
    pub proto: Option<PlannedProtoTypeInfo>,
    pub record: Option<GoModelRecord>,
    /// The Go types of the fields of the model.
    pub field_types: Vec<String>,
}

/// How a model passes the wire.
#[derive(Debug, Clone)]
pub struct RenderedModelWire {
    pub proto_type: String,
    pub field_conversions: Vec<RenderedFieldConversion>,
    pub sourced_fields: Vec<RenderedSourcedField>,
}

/// A [`RenderedModelWire`] by the views of its texts.
#[verifier::ext_equal]
pub struct ModelWireView {
    pub proto_type: Seq<char>,
    pub field_conversions: Seq<FieldConversionView>,
    pub sourced_fields: Seq<Seq<Seq<char>>>,
}

impl View for RenderedModelWire {
    type V = ModelWireView;

    open spec fn view(&self) -> ModelWireView {
        ModelWireView {
            proto_type: self.proto_type@,
            field_conversions: field_conversion_views(self.field_conversions@),
            sourced_fields: sourced_views(self.sourced_fields@),
        }
    }
}

/// The model of a key and how it passes the wire, where it does.
#[derive(Debug, Clone)]
pub struct KeyedModelWire {
    pub key: String,
    pub wire: Option<RenderedModelWire>,
}

impl View for KeyedModelWire {
    type V = (Seq<char>, Option<ModelWireView>);

    open spec fn view(&self) -> (Seq<char>, Option<ModelWireView>) {
        (
            self.key@,
            match self.wire {
                Some(wire) => Some(wire@),
                None => None,
            },
        )
    }
}

/// The views of a list of keyed models.
pub open spec fn keyed_views(models: Seq<KeyedModelWire>) -> Seq<
    (Seq<char>, Option<ModelWireView>),
> {
    models.map_values(|model: KeyedModelWire| model@)
}

/// How the fields of a model's record pass the wire; a model without a record has none.
pub open spec fn record_wire_step(
    imports: ImportEntries,
    record: Option<GoModelRecord>,
    natives: Seq<Seq<char>>,
) -> (Result<(Seq<FieldConversionView>, Seq<Seq<Seq<char>>>), ErrorView>, ImportEntries) {
    match record {
        None => (Ok((Seq::empty(), Seq::empty())), imports),
        Some(record) => match fields_step(imports, record.fields@, record.record.name@, natives) {
            (Err(error), after) => (Err(error), after),
            (Ok(fields), middle) => match sourced_fields_step(
                middle,
                record.sourced_fields@,
                record.record.name@,
            ) {
                (Err(error), after) => (Err(error), after),
                (Ok(sourced), after) => (Ok((fields, sourced)), after),
            },
        },
    }
}

/// How a model passes the wire, or why it cannot, and the imports behind it. A model without
/// functions from and to a message does not.
pub open spec fn model_wire_step(imports: ImportEntries, model: GoModel) -> (
    Result<(Seq<char>, Option<ModelWireView>), ErrorView>,
    ImportEntries,
) {
    match model.proto {
        None => (Ok((model.key@, None)), imports),
        Some(proto) => {
            let refused = match model.record {
                Some(record) => crate::proto::validation::record_conversion_error(
                    Language::Go,
                    record.record,
                ),
                None => None,
            };
            match refused {
                Some(error) => (Err(error), imports),
                None => match proto_type_step(imports, proto) {
                    (None, after) => (
                        Err(
                            ErrorView::UnsupportedGoProtoConversion {
                                context: "model `"@ + proto.full_name@ + "`"@,
                                reason: "its proto descriptor has no `go_package` option"@,
                            },
                        ),
                        after,
                    ),
                    (Some(name), middle) => match record_wire_step(
                        middle,
                        model.record,
                        crate::text::texts(model.field_types@),
                    ) {
                        (Err(error), after) => (Err(error), after),
                        (Ok(lines), after) => (
                            Ok(
                                (
                                    model.key@,
                                    Some(
                                        ModelWireView {
                                            proto_type: "*"@ + name,
                                            field_conversions: lines.0,
                                            sourced_fields: lines.1,
                                        },
                                    ),
                                ),
                            ),
                            after,
                        ),
                    },
                },
            }
        },
    }
}

/// How a model passes the wire.
pub fn build_model_wire(model: &GoModel, imports: &mut GoImportCollector) -> (result: Result<
    KeyedModelWire,
    Error,
>)
    requires
        old(imports).wf(),
    ensures
        final(imports).wf(),
        match (result, model_wire_step(old(imports)@, *model).0) {
            (Ok(made), Ok(view)) => made@ == view,
            (Err(error), Err(view)) => error@ == view,
            _ => false,
        },
        final(imports)@ == model_wire_step(old(imports)@, *model).1,
{
    let proto = match &model.proto {
        Some(proto) => proto,
        None => {
            return Ok(KeyedModelWire { key: model.key.clone(), wire: None });
        },
    };
    match &model.record {
        Some(record) => match validate_record_conversion(Language::Go, &record.record) {
            Ok(_) => {},
            Err(error) => {
                return Err(error);
            },
        },
        None => {},
    }
    let name = match proto_type(proto, imports) {
        Some(name) => name,
        None => {
            return Err(
                Error::UnsupportedGoProtoConversion {
                    context: "model `".to_owned().concat(proto.full_name.as_str()).concat("`"),
                    reason: "its proto descriptor has no `go_package` option".to_owned(),
                },
            );
        },
    };
    let wire = match &model.record {
        None => {
            let wire = RenderedModelWire {
                proto_type: "*".to_owned().concat(name.as_str()),
                field_conversions: Vec::new(),
                sourced_fields: Vec::new(),
            };
            assert(field_conversion_views(wire.field_conversions@) =~= Seq::empty());
            assert(sourced_views(wire.sourced_fields@) =~= Seq::empty());
            wire
        },
        Some(record) => {
            let field_conversions = match build_field_conversions(
                &record.fields,
                record.record.name.as_str(),
                &model.field_types,
                imports,
            ) {
                Ok(fields) => fields,
                Err(error) => {
                    return Err(error);
                },
            };
            let sourced_fields = match build_sourced_conversions(
                &record.sourced_fields,
                record.record.name.as_str(),
                imports,
            ) {
                Ok(fields) => fields,
                Err(error) => {
                    return Err(error);
                },
            };
            RenderedModelWire {
                proto_type: "*".to_owned().concat(name.as_str()),
                field_conversions,
                sourced_fields,
            }
        },
    };
    Ok(KeyedModelWire { key: model.key.clone(), wire: Some(wire) })
}

/// How the models pass the wire, in their order, up to the first that cannot.
pub open spec fn models_step(
    imports: ImportEntries,
    models: Seq<GoModel>,
) -> (Result<Seq<(Seq<char>,Option<ModelWireView>)>, ErrorView>, ImportEntries)
    decreases models.len(),
{
    if models.len() == 0 {
        (Ok(Seq::empty()), imports)
    } else {
        let model = models.last();
        match models_step(imports, models.drop_last()) {
            (Err(error), imports) => (Err(error), imports),
            (Ok(before), imports) => match model_wire_step(imports, model) {
                (Err(error), after) => (Err(error), after),
                (Ok(made), after) => (Ok(before.push(made)), after),
            },
        }
    }
}

proof fn lemma_models_error(imports: ImportEntries, models: Seq<GoModel>, count: int)
    requires
        0 <= count <= models.len(),
        models_step(imports, models.take(count)).0 is Err,
    ensures
        models_step(imports, models) == models_step(imports, models.take(count)),
    decreases models.len() - count,
{
    if count < models.len() {
        assert(models.take(count + 1).drop_last() =~= models.take(count));
        lemma_models_error(imports, models, count + 1);
    } else {
        assert(models.take(count) =~= models);
    }
}

/// How the models pass the wire, in their order, up to the first that cannot.
pub fn populate_model_wire_conversions(
    models: &Vec<GoModel>,
    imports: &mut GoImportCollector,
) -> (result: Result<Vec<KeyedModelWire>, Error>)
    requires
        old(imports).wf(),
    ensures
        final(imports).wf(),
        match (result, models_step(old(imports)@, models@).0) {
            (Ok(made), Ok(view)) => keyed_views(made@) == view,
            (Err(error), Err(view)) => error@ == view,
            _ => false,
        },
        final(imports)@ == models_step(old(imports)@, models@).1,
{
    let ghost start = imports@;
    let mut items: Vec<KeyedModelWire> = Vec::new();
    let mut i: usize = 0;
    assert(keyed_views(items@) =~= Seq::empty());
    while i < models.len()
        invariant
            i <= models.len(),
            imports.wf(),
            start == old(imports)@,
            models_step(start, models@.take(i as int)) == (
                Ok::<Seq<(Seq<char>,Option<ModelWireView>)>, ErrorView>(keyed_views(items@)),
                imports@
            ),
        decreases models.len() - i,
    {
        assert(models@.take(i + 1).drop_last() =~= models@.take(i as int));
        let model = &models[i];
        let ghost before = items@;
        match build_model_wire(model, imports) {
            Ok(made) => {
                items.push(made);
                assert(keyed_views(items@) =~= keyed_views(before).push(made@));
            },
            Err(error) => {
                proof {
                    lemma_models_error(start, models@, i + 1);
                }
                return Err(error);
            },
        }
        i += 1;
    }
    assert(models@.take(i as int) =~= models@);
    Ok(items)
}

/// No field of a model is left out of its conversion: each has its lines, or the model is
/// refused.
pub proof fn law_no_field_is_left_out(
    imports: ImportEntries,
    fields: Seq<PlannedField>,
    model_name: Seq<char>,
    natives: Seq<Seq<char>>,
)
    ensures
        fields_step(imports, fields, model_name, natives).0 matches Ok(made) ==> made.len()
            == fields.len(),
    decreases fields.len(),
{
    if fields.len() > 0 {
        law_no_field_is_left_out(imports, fields.drop_last(), model_name, natives);
    }
}

/// What an operation returns.
#[derive(Debug, Clone)]
pub enum PlannedOperationOutput {
    Message(PlannedMessageType),
    Resource,
    Nothing,
}

/// How the output of an operation is transformed.
#[derive(Debug, Clone)]
pub struct PlannedOutputTransform {
    pub annotation: LanguageStringSpec,
    pub transform: LanguageStringSpec,
}

/// An operation of a service.
#[derive(Debug, Clone)]
pub struct PlannedOperation {
    pub name: String,
    pub input: Option<PlannedMessageType>,
    pub output: PlannedOperationOutput,
    pub output_transform: Option<PlannedOutputTransform>,
    pub resource_return: Option<PlannedOperationResourceReturn>,
}

/// A service with its operations and resources.
#[derive(Debug, Clone)]
pub struct PlannedService {
    pub name: String,
    pub operations: Vec<PlannedOperation>,
    pub resources: Vec<PlannedResource>,
}

/// How the request and the response of an operation pass the wire.
#[derive(Debug, Clone)]
pub struct OperationBinding {
    /// The expression for the message of the request.
    pub input_to_proto: String,
    /// The Go type of the message of the response.
    pub output_proto_type: Option<String>,
    /// The expression for the native response.
    pub output_from_proto: Option<String>,
    /// Whether the native response is a pointer.
    pub output_returns_pointer: bool,
    /// The resource that is made of the response.
    pub resource_return: Option<RenderedResourceReturn>,
}

/// An [`OperationBinding`] by the views of its texts.
#[verifier::ext_equal]
pub struct OperationBindingView {
    pub input_to_proto: Seq<char>,
    pub output_proto_type: Option<Seq<char>>,
    pub output_from_proto: Option<Seq<char>>,
    pub output_returns_pointer: bool,
    pub resource_return: Option<ResourceReturnView>,
}

/// The view of an optional returned resource.
pub open spec fn opt_return(resource_return: Option<RenderedResourceReturn>) -> Option<
    ResourceReturnView,
> {
    match resource_return {
        Some(resource_return) => Some(resource_return@),
        None => None,
    }
}

impl View for OperationBinding {
    type V = OperationBindingView;

    open spec fn view(&self) -> OperationBindingView {
        OperationBindingView {
            input_to_proto: self.input_to_proto@,
            output_proto_type: crate::text::opt_text(self.output_proto_type),
            output_from_proto: crate::text::opt_text(self.output_from_proto),
            output_returns_pointer: self.output_returns_pointer,
            resource_return: opt_return(self.resource_return),
        }
    }
}

impl OperationBinding {
    /// Whether the generated code needs the `fmt` package.
    pub fn requires_fmt(&self) -> (required: bool)
        ensures
            required == self@.output_returns_pointer,
    {
        self.output_returns_pointer
    }

    /// The class of the resource that the operation returns.
    pub fn returned_resource_class(&self) -> (class: Option<&str>)
        ensures
            crate::text::opt_str(class) == match self@.resource_return {
                Some(resource_return) => Some(resource_return.resource_class),
                None => None,
            },
    {
        match &self.resource_return {
            Some(resource_return) => Some(resource_return.resource_class.as_str()),
            None => None,
        }
    }
}

/// The binding of an operation, where it has one.
#[derive(Debug, Clone)]
pub struct BoundOperation {
    pub binding: Option<OperationBinding>,
}

impl View for BoundOperation {
    type V = Option<OperationBindingView>;

    open spec fn view(&self) -> Option<OperationBindingView> {
        match self.binding {
            Some(binding) => Some(binding@),
            None => None,
        }
    }
}

/// The views of a list of bound operations.
pub open spec fn bound_views(operations: Seq<BoundOperation>) -> Seq<Option<OperationBindingView>> {
    operations.map_values(|operation: BoundOperation| operation@)
}

/// Whether the output of the operation is transformed in Go: a type and an expression are given.
pub open spec fn transforms_output(operation: PlannedOperation) -> bool {
    match operation.output_transform {
        Some(transform) => crate::plan::text_for(
            transform.annotation,
            Language::Go,
        ) is Some && crate::plan::text_for(transform.transform, Language::Go) is Some,
        None => false,
    }
}

/// Whether the output of the operation is transformed in Go: a type and an expression are given.
pub fn has_go_output_transform(operation: &PlannedOperation) -> (result: bool)
    ensures
        result == transforms_output(*operation),
{
    match &operation.output_transform {
        Some(transform) => transform.annotation.for_language(Language::Go).is_some()
            && transform.transform.for_language(Language::Go).is_some(),
        None => false,
    }
}

/// The wire type and the conversion of a message of an operation, or why there is none. A
/// message whose file names no Go package is not handled.
pub open spec fn message_binding_step(
    imports: ImportEntries,
    message: PlannedMessageType,
    operation_name: Seq<char>,
    direction: Seq<char>,
) -> (Result<Option<(Seq<char>, GoConversionView)>, ErrorView>, ImportEntries) {
    match message_type_step(imports, message) {
        (None, after) => (Ok(None), after),
        (Some(name), after) => match message_conversion_of(message) {
            Ok(conversion) => (Ok(Some((name, conversion))), after),
            Err(reason) => (
                Err(
                    ErrorView::UnsupportedGoProtoConversion {
                        context: "operation `"@ + operation_name + "` "@ + direction,
                        reason,
                    },
                ),
                after,
            ),
        },
    }
}

/// The wire type and the conversion of a message of an operation.
pub fn operation_message_binding(
    message: &PlannedMessageType,
    operation_name: &str,
    direction: &str,
    imports: &mut GoImportCollector,
) -> (result: Result<Option<(String, GoValueConversion)>, Error>)
    requires
        old(imports).wf(),
    ensures
        final(imports).wf(),
        match (
            result,
            message_binding_step(old(imports)@, *message, operation_name@, direction@).0,
        ) {
            (Ok(Some(bound)), Ok(Some(view))) => (bound.0@, bound.1@) == view,
            (Ok(None), Ok(None)) => true,
            (Err(error), Err(view)) => error@ == view,
            _ => false,
        },
        final(imports)@ == message_binding_step(
            old(imports)@,
            *message,
            operation_name@,
            direction@,
        ).1,
{
    match message_proto_type(message, imports) {
        None => Ok(None),
        Some(name) => match go_message_conversion(message) {
            Ok(conversion) => Ok(Some((name, conversion))),
            Err(reason) => Err(
                Error::UnsupportedGoProtoConversion {
                    context: "operation `".to_owned().concat(operation_name).concat("` ").concat(
                        direction,
                    ),
                    reason,
                },
            ),
        },
    }
}

/// The index of the first resource with the class name.
pub open spec fn resource_index(resources: Seq<PlannedResource>, class_name: Seq<char>) -> Option<
    int,
>
    decreases resources.len(),
{
    if resources.len() == 0 {
        None
    } else {
        match resource_index(resources.drop_last(), class_name) {
            Some(i) => Some(i),
            None => if resources.last().class_name@ == class_name {
                Some(resources.len() - 1)
            } else {
                None
            },
        }
    }
}

fn find_resource(resources: &Vec<PlannedResource>, class_name: &str) -> (index: Option<usize>)
    ensures
        match index {
            Some(i) => i < resources@.len() && resource_index(resources@, class_name@) == Some(
                i as int,
            ),
            None => resource_index(resources@, class_name@) is None,
        },
{
    let mut found: Option<usize> = None;
    let mut i: usize = 0;
    while i < resources.len()
        invariant
            i <= resources.len(),
            match found {
                Some(k) => k < i && resource_index(resources@.take(i as int), class_name@) == Some(
                    k as int,
                ),
                None => resource_index(resources@.take(i as int), class_name@) is None,
            },
        decreases resources.len() - i,
    {
        assert(resources@.take(i + 1).drop_last() =~= resources@.take(i as int));
        if found.is_none() && text_eq(resources[i].class_name.as_str(), class_name) {
            found = Some(i);
        }
        i += 1;
    }
    assert(resources@.take(i as int) =~= resources@);
    found
}

/// The returned resource of an operation, where it returns one, and the imports behind it.
pub open spec fn returned_step(
    imports: ImportEntries,
    service: Seq<char>,
    resources: Seq<PlannedResource>,
    resource_return: Option<PlannedOperationResourceReturn>,
) -> (Result<Option<ResourceReturnView>, ErrorView>, ImportEntries) {
    match resource_return {
        None => (Ok(None), imports),
        Some(planned) => match resource_index(resources, planned.resource_class@) {
            None => (
                Err(
                    ErrorView::InvalidResource {
                        service,
                        resource: planned.resource_class@,
                        reason: "resource-returning operation references an unknown resource"@,
                    },
                ),
                imports,
            ),
            Some(i) => match resource_return_step(imports, service, planned, resources[i]) {
                (Err(error), after) => (Err(error), after),
                (Ok(made), after) => (Ok(Some(made)), after),
            },
        },
    }
}

fn returned_resource(
    service: &str,
    resources: &Vec<PlannedResource>,
    resource_return: &Option<PlannedOperationResourceReturn>,
    imports: &mut GoImportCollector,
) -> (result: Result<Option<RenderedResourceReturn>, Error>)
    requires
        old(imports).wf(),
    ensures
        final(imports).wf(),
        match (
            result,
            returned_step(old(imports)@, service@, resources@, *resource_return).0,
        ) {
            (Ok(made), Ok(view)) => opt_return(made) == view,
            (Err(error), Err(view)) => error@ == view,
            _ => false,
        },
        final(imports)@ == returned_step(
            old(imports)@,
            service@,
            resources@,
            *resource_return,
        ).1,
{
    match resource_return {
        None => Ok(None),
        Some(planned) => match find_resource(resources, planned.resource_class.as_str()) {
            None => Err(
                Error::InvalidResource {
                    service: service.to_owned(),
                    resource: planned.resource_class.clone(),
                    reason: "resource-returning operation references an unknown resource".to_owned(
                    ),
                },
            ),
            Some(i) => match build_rendered_resource_return(
                service,
                planned,
                &resources[i],
                imports,
            ) {
                Ok(made) => Ok(Some(made)),
                Err(error) => Err(error),
            },
        },
    }
}

/// The wire type, the native expression and its shape for the output of an operation; none
/// where the operation is not handled.
pub open spec fn output_step(
    imports: ImportEntries,
    operation: PlannedOperation,
) -> (
    Result<Option<(Option<Seq<char>>, Option<Seq<char>>, bool)>, ErrorView>,
    ImportEntries,
) {
    match operation.output {
        PlannedOperationOutput::Message(message) => if operation.resource_return is Some {
            match message_type_step(imports, message) {
                (Some(name), after) => (Ok(Some((Some(name), None, false))), after),
                (None, after) => (Ok(None), after),
            }
        } else if transforms_output(operation) {
            match message_type_step(imports, message) {
                (name, after) => (Ok(Some((name, None, false))), after),
            }
        } else {
            match message_binding_step(imports, message, operation.name@, "output"@) {
                (Err(error), after) => (Err(error), after),
                (Ok(None), after) => (Ok(None), after),
                (Ok(Some((name, conversion))), after) => (
                    Ok(
                        Some(
                            (
                                Some(name),
                                Some(from_proto_text(conversion, "&result"@)),
                                conversion.from_proto_returns_pointer,
                            ),
                        ),
                    ),
                    after,
                ),
            }
        },
        PlannedOperationOutput::Resource => (Ok(None), imports),
        PlannedOperationOutput::Nothing => (Ok(Some((None, None, false))), imports),
    }
}

/// The output of an operation, by its views.
pub open spec fn output_outcome(
    result: Result<Option<(Option<String>, Option<String>, bool)>, Error>,
) -> Result<Option<(Option<Seq<char>>, Option<Seq<char>>, bool)>, ErrorView> {
    match result {
        Ok(Some(output)) => Ok(
            Some((crate::text::opt_text(output.0), crate::text::opt_text(output.1), output.2)),
        ),
        Ok(None) => Ok(None),
        Err(error) => Err(error@),
    }
}

fn bind_output(operation: &PlannedOperation, imports: &mut GoImportCollector) -> (result: Result<
    Option<(Option<String>, Option<String>, bool)>,
    Error,
>)
    requires
        old(imports).wf(),
    ensures
        final(imports).wf(),
        output_outcome(result) == output_step(old(imports)@, *operation).0,
        final(imports)@ == output_step(old(imports)@, *operation).1,
{
    match &operation.output {
        PlannedOperationOutput::Message(message) => {
            if operation.resource_return.is_some() {
                match message_proto_type(message, imports) {
                    Some(name) => Ok(Some((Some(name), None, false))),
                    None => Ok(None),
                }
            } else if has_go_output_transform(operation) {
                Ok(Some((message_proto_type(message, imports), None, false)))
            } else {
                match operation_message_binding(
                    message,
                    operation.name.as_str(),
                    "output",
                    imports,
                ) {
                    Err(error) => Err(error),
                    Ok(None) => Ok(None),
                    Ok(Some((name, conversion))) => {
                        let native = from_proto(&conversion, "&result");
                        Ok(Some((Some(name), Some(native), conversion.from_proto_returns_pointer)))
                    },
                }
            }
        },
        PlannedOperationOutput::Resource => Ok(None),
        PlannedOperationOutput::Nothing => Ok(Some((None, None, false))),
    }
}

/// The expression for the message of a request.
pub open spec fn request_to_proto_text(conversion: GoConversionView) -> Seq<char> {
    match conversion.kind {
        GoConversionKind::OverrideConverter => to_proto_text(conversion, "&request"@),
        _ => to_proto_text(conversion, "request"@),
    }
}

/// The expression for the message of a request.
pub fn request_to_proto(conversion: &GoValueConversion) -> (result: String)
    ensures
        result@ == request_to_proto_text(conversion@),
{
    match conversion.kind {
        GoConversionKind::OverrideConverter => to_proto(conversion, "&request"),
        _ => to_proto(conversion, "request"),
    }
}

/// The binding of an operation, or why there is none, and the imports behind it. An operation
/// without a message as its input is not bound.
pub open spec fn operation_step(
    imports: ImportEntries,
    service: Seq<char>,
    resources: Seq<PlannedResource>,
    operation: PlannedOperation,
) -> (Result<Option<OperationBindingView>, ErrorView>, ImportEntries) {
    match operation.input {
        None => (Ok(None), imports),
        Some(input) => match message_binding_step(imports, input, operation.name@, "input"@) {
            (Err(error), after) => (Err(error), after),
            (Ok(None), after) => (Ok(None), after),
            (Ok(Some((_, conversion))), second) => match returned_step(
                second,
                service,
                resources,
                operation.resource_return,
            ) {
                (Err(error), after) => (Err(error), after),
                (Ok(resource_return), third) => match output_step(third, operation) {
                    (Err(error), after) => (Err(error), after),
                    (Ok(None), after) => (Ok(None), after),
                    (Ok(Some((wire_type, native, pointer))), after) => (
                        Ok(
                            Some(
                                OperationBindingView {
                                    input_to_proto: request_to_proto_text(conversion),
                                    output_proto_type: wire_type,
                                    output_from_proto: native,
                                    output_returns_pointer: pointer,
                                    resource_return,
                                },
                            ),
                        ),
                        after,
                    ),
                },
            },
        },
    }
}

/// The binding of an operation.
pub fn bind_operation(
    service: &PlannedService,
    operation: &PlannedOperation,
    imports: &mut GoImportCollector,
) -> (result: Result<BoundOperation, Error>)
    requires
        old(imports).wf(),
    ensures
        final(imports).wf(),
        match (
            result,
            operation_step(old(imports)@, service.name@, service.resources@, *operation).0,
        ) {
            (Ok(made), Ok(view)) => made@ == view,
            (Err(error), Err(view)) => error@ == view,
            _ => false,
        },
        final(imports)@ == operation_step(
            old(imports)@,
            service.name@,
            service.resources@,
            *operation,
        ).1,
{
    let input = match &operation.input {
        Some(input) => input,
        None => {
            return Ok(BoundOperation { binding: None });
        },
    };
    let conversion = match operation_message_binding(
        input,
        operation.name.as_str(),
        "input",
        imports,
    ) {
        Err(error) => {
            return Err(error);
        },
        Ok(None) => {
            return Ok(BoundOperation { binding: None });
        },
        Ok(Some((_, conversion))) => conversion,
    };
    let input_to_proto = request_to_proto(&conversion);
    let resource_return = match returned_resource(
        service.name.as_str(),
        &service.resources,
        &operation.resource_return,
        imports,
    ) {
        Err(error) => {
            return Err(error);
        },
        Ok(resource_return) => resource_return,
    };
    match bind_output(operation, imports) {
        Err(error) => Err(error),
        Ok(None) => Ok(BoundOperation { binding: None }),
        Ok(Some((output_proto_type, output_from_proto, output_returns_pointer))) => Ok(
            BoundOperation {
                binding: Some(
                    OperationBinding {
                        input_to_proto,
                        output_proto_type,
                        output_from_proto,
                        output_returns_pointer,
                        resource_return,
                    },
                ),
            },
        ),
    }
}

/// The bindings of the operations of a service, in their order, up to the first that cannot be
/// bound.
pub open spec fn operations_step(
    imports: ImportEntries,
    operations: Seq<PlannedOperation>,
    service: PlannedService,
) -> (Result<Seq<Option<OperationBindingView>>, ErrorView>, ImportEntries)
    decreases operations.len(),
{
    if operations.len() == 0 {
        (Ok(Seq::empty()), imports)
    } else {
        let operation = operations.last();
        match operations_step(imports, operations.drop_last(), service) {
            (Err(error), imports) => (Err(error), imports),
            (Ok(before), imports) => match operation_step(
                imports,
                service.name@,
                service.resources@,
                operation,
            ) {
                (Err(error), after) => (Err(error), after),
                (Ok(made), after) => (Ok(before.push(made)), after),
            },
        }
    }
}

proof fn lemma_operations_error(
    imports: ImportEntries,
    operations: Seq<PlannedOperation>,
    service: PlannedService,
    count: int,
)
    requires
        0 <= count <= operations.len(),
        operations_step(imports, operations.take(count), service).0 is Err,
    ensures
        operations_step(imports, operations, service) == operations_step(
            imports,
            operations.take(count),
            service,
        ),
    decreases operations.len() - count,
{
    if count < operations.len() {
        assert(operations.take(count + 1).drop_last() =~= operations.take(count));
        lemma_operations_error(imports, operations, service, count + 1);
    } else {
        assert(operations.take(count) =~= operations);
    }
}

/// The bindings of the operations of a service, in their order, up to the first that cannot be
/// bound.
pub fn bind_operations(
    operations: &Vec<PlannedOperation>,
    service: &PlannedService,
    imports: &mut GoImportCollector,
) -> (result: Result<Vec<BoundOperation>, Error>)
    requires
        old(imports).wf(),
    ensures
        final(imports).wf(),
        match (result, operations_step(old(imports)@, operations@, *service).0) {
            (Ok(made), Ok(view)) => bound_views(made@) == view,
            (Err(error), Err(view)) => error@ == view,
            _ => false,
        },
        final(imports)@ == operations_step(old(imports)@, operations@, *service).1,
{
    let ghost start = imports@;
    let mut items: Vec<BoundOperation> = Vec::new();
    let mut i: usize = 0;
    assert(bound_views(items@) =~= Seq::empty());
    while i < operations.len()
        invariant
            i <= operations.len(),
            imports.wf(),
            start == old(imports)@,
            operations_step(start, operations@.take(i as int), *service) == (
                Ok::<Seq<Option<OperationBindingView>>, ErrorView>(bound_views(items@)),
                imports@
            ),
        decreases operations.len() - i,
    {
        assert(operations@.take(i + 1).drop_last() =~= operations@.take(i as int));
        let operation = &operations[i];
        let ghost before = items@;
        match bind_operation(service, operation, imports) {
            Ok(made) => {
                items.push(made);
                assert(bound_views(items@) =~= bound_views(before).push(made@));
            },
            Err(error) => {
                proof {
                    lemma_operations_error(start, operations@, *service, i + 1);
                }
                return Err(error);
            },
        }
        i += 1;
    }
    assert(operations@.take(i as int) =~= operations@);
    Ok(items)
}

/// The bound operations of a service.
#[derive(Debug, Clone)]
pub struct BoundService {
    pub operations: Vec<BoundOperation>,
}

impl View for BoundService {
    type V = Seq<Option<OperationBindingView>>;

    open spec fn view(&self) -> Seq<Option<OperationBindingView>> {
        bound_views(self.operations@)
    }
}

/// The views of a list of bound services.
pub open spec fn service_views(services: Seq<BoundService>) -> Seq<
    Seq<Option<OperationBindingView>>,
> {
    services.map_values(|service: BoundService| service@)
}

fn bind_service(service: &PlannedService, imports: &mut GoImportCollector) -> (result: Result<
    BoundService,
    Error,
>)
    requires
        old(imports).wf(),
    ensures
        final(imports).wf(),
        match (result, operations_step(old(imports)@, service.operations@, *service).0) {
            (Ok(made), Ok(view)) => made@ == view,
            (Err(error), Err(view)) => error@ == view,
            _ => false,
        },
        final(imports)@ == operations_step(old(imports)@, service.operations@, *service).1,
{
    match bind_operations(&service.operations, service, imports) {
        Ok(operations) => Ok(BoundService { operations }),
        Err(error) => Err(error),
    }
}

/// The bindings of the operations of the services, in their order, up to the first that cannot
/// be bound.
pub open spec fn services_step(
    imports: ImportEntries,
    services: Seq<PlannedService>,
) -> (Result<Seq<Seq<Option<OperationBindingView>>>, ErrorView>, ImportEntries)
    decreases services.len(),
{
    if services.len() == 0 {
        (Ok(Seq::empty()), imports)
    } else {
        let service = services.last();
        match services_step(imports, services.drop_last()) {
            (Err(error), imports) => (Err(error), imports),
            (Ok(before), imports) => match operations_step(imports, service.operations@, service) {
                (Err(error), after) => (Err(error), after),
                (Ok(made), after) => (Ok(before.push(made)), after),
            },
        }
    }
}

proof fn lemma_services_error(
    imports: ImportEntries,
    services: Seq<PlannedService>,
    count: int,
)
    requires
        0 <= count <= services.len(),
        services_step(imports, services.take(count)).0 is Err,
    ensures
        services_step(imports, services) == services_step(imports, services.take(count)),
    decreases services.len() - count,
{
    if count < services.len() {
        assert(services.take(count + 1).drop_last() =~= services.take(count));
        lemma_services_error(imports, services, count + 1);
    } else {
        assert(services.take(count) =~= services);
    }
}

/// The bindings of the operations of the services, in their order, up to the first that cannot
/// be bound.
pub fn populate_operation_bindings(
    services: &Vec<PlannedService>,
    imports: &mut GoImportCollector,
) -> (result: Result<Vec<BoundService>, Error>)
    requires
        old(imports).wf(),
    ensures
        final(imports).wf(),
        match (result, services_step(old(imports)@, services@).0) {
            (Ok(made), Ok(view)) => service_views(made@) == view,
            (Err(error), Err(view)) => error@ == view,
            _ => false,
        },
        final(imports)@ == services_step(old(imports)@, services@).1,
{
    let ghost start = imports@;
    let mut items: Vec<BoundService> = Vec::new();
    let mut i: usize = 0;
    assert(service_views(items@) =~= Seq::empty());
    while i < services.len()
        invariant
            i <= services.len(),
            imports.wf(),
            start == old(imports)@,
            services_step(start, services@.take(i as int)) == (
                Ok::<Seq<Seq<Option<OperationBindingView>>>, ErrorView>(service_views(items@)),
                imports@
            ),
        decreases services.len() - i,
    {
        assert(services@.take(i + 1).drop_last() =~= services@.take(i as int));
        let service = &services[i];
        let ghost before = items@;
        match bind_service(service, imports) {
            Ok(made) => {
                items.push(made);
                assert(service_views(items@) =~= service_views(before).push(made@));
            },
            Err(error) => {
                proof {
                    lemma_services_error(start, services@, i + 1);
                }
                return Err(error);
            },
        }
        i += 1;
    }
    assert(services@.take(i as int) =~= services@);
    Ok(items)
}

/// A service as its operations are rendered.
#[derive(Debug, Clone)]
pub struct RenderedService {
    /// The expression that makes a client of the service.
    pub client_expr: String,
}

/// An operation as it is rendered.
#[derive(Debug, Clone)]
pub struct RenderedOperation {
    pub func_name: String,
    pub wire_name: String,
    pub input_type: String,
    pub output_type: Option<String>,
    pub raw_output_type: Option<String>,
    pub output_transform_expr: Option<String>,
    pub output_transform_type: Option<String>,
}

/// The code around the body of a future that yields `value`.
#[derive(Debug, Clone)]
pub struct FutureAdapter {
    pub before: String,
    pub after: String,
}

/// What the future of an operation yields.
#[derive(Debug, Clone)]
pub enum FutureResult {
    /// The value of a transform, of the given type.
    Transformed(String),
    /// The native response of the given type, and whether it is a pointer.
    Converted(String, bool),
    /// A resource of the given class.
    Resource(String),
    /// What the client yields.
    Raw,
}

/// What the future of an operation yields, by its views.
pub enum FutureResultView {
    Transformed(Seq<char>),
    Converted(Seq<char>, bool),
    Resource(Seq<char>),
    Raw,
}

impl View for FutureResult {
    type V = FutureResultView;

    open spec fn view(&self) -> FutureResultView {
        match self {
            FutureResult::Transformed(text) => FutureResultView::Transformed(text@),
            FutureResult::Converted(text, pointer) => FutureResultView::Converted(text@, *pointer),
            FutureResult::Resource(text) => FutureResultView::Resource(text@),
            FutureResult::Raw => FutureResultView::Raw,
        }
    }
}

/// What the future of an operation yields: a transform comes first, a converted response next,
/// then a resource; without any of them it is what the client yields.
pub open spec fn operation_result_of(
    operation: RenderedOperation,
    binding: OperationBinding,
) -> FutureResultView {
    match (operation.output_transform_expr, operation.output_transform_type) {
        (Some(_), Some(transform_type)) => FutureResultView::Transformed(transform_type@),
        _ => match (operation.output_type, binding.output_proto_type, binding.output_from_proto) {
            (Some(output_type), Some(_), Some(_)) => FutureResultView::Converted(
                output_type@,
                binding.output_returns_pointer,
            ),
            _ => match (binding.resource_return, binding.output_proto_type) {
                (Some(resource_return), Some(_)) => FutureResultView::Resource(
                    resource_return.resource_class@,
                ),
                _ => FutureResultView::Raw,
            },
        },
    }
}

/// What the future of an operation yields: a transform comes first, a converted response next,
/// then a resource; without any of them it is what the client yields.
pub fn operation_result(
    operation: &RenderedOperation,
    binding: &OperationBinding,
) -> (result: FutureResult)
    ensures
        result@ == operation_result_of(*operation, *binding),
{
    match (&operation.output_transform_expr, &operation.output_transform_type) {
        (Some(_), Some(transform_type)) => FutureResult::Transformed(transform_type.clone()),
        _ => match (
            &operation.output_type,
            &binding.output_proto_type,
            &binding.output_from_proto
        ) {
            (Some(output_type), Some(_), Some(_)) => FutureResult::Converted(
                output_type.clone(),
                binding.output_returns_pointer,
            ),
            _ => match (&binding.resource_return, &binding.output_proto_type) {
                (Some(resource_return), Some(_)) => FutureResult::Resource(
                    resource_return.resource_class.clone(),
                ),
                _ => FutureResult::Raw,
            },
        },
    }
}

/// The lines that await the response of a given type.
pub open spec fn await_text(result_type: Seq<char>) -> Seq<char> {
    "\t\tvar result "@ + result_type + "\n\t\tif err := fut.Get(ctx, &result); err != nil {\n"@
}

/// The lines that await the response of a given type.
pub fn await_result(result_type: &str) -> (result: String)
    ensures
        result@ == await_text(result_type@),
{
    "\t\tvar result ".to_owned().concat(result_type)
        .concat("\n\t\tif err := fut.Get(ctx, &result); err != nil {\n")
}

/// The lines that end a future with an error.
pub open spec fn settle_text(level: Seq<char>) -> Seq<char> {
    level + "\tresultSettable.SetError(err)\n"@ + level + "\treturn\n"@ + level + "}\n"@
}

/// The lines that end a future with an error.
pub fn settle_error(level: &str) -> (result: String)
    ensures
        result@ == settle_text(level@),
{
    level.to_owned().concat("\tresultSettable.SetError(err)\n").concat(level).concat("\treturn\n")
        .concat(level).concat("}\n")
}

/// The lines that bind the value of an expression that may fail.
pub open spec fn checked_value_text(expr: Seq<char>) -> Seq<char> {
    "\t\tvalue, err := "@ + expr + "\n\t\tif err != nil {\n"@ + settle_text("\t\t"@)
}

/// The lines that bind the value of an expression that may fail.
pub fn checked_value(expr: &str) -> (result: String)
    ensures
        result@ == checked_value_text(expr@),
{
    "\t\tvalue, err := ".to_owned().concat(expr).concat("\n\t\tif err != nil {\n")
        .concat(settle_error("\t\t").as_str())
}

/// The lines that await the response which a transform is applied to.
pub open spec fn await_transformed_text(
    operation: RenderedOperation,
    binding: OperationBinding,
) -> Seq<char> {
    match binding.output_proto_type {
        Some(wire_type) => await_text(without_stars(wire_type@)),
        None => match operation.raw_output_type {
            Some(raw_type) => await_text(raw_type@),
            None => "\t\tif err := fut.Get(ctx, nil); err != nil {\n"@,
        },
    }
}

/// The lines that await the response which a transform is applied to.
pub fn await_transformed(
    operation: &RenderedOperation,
    binding: &OperationBinding,
) -> (result: String)
    ensures
        result@ == await_transformed_text(*operation, *binding),
{
    match &binding.output_proto_type {
        Some(wire_type) => await_result(trim_stars(wire_type.as_str()).as_str()),
        None => match &operation.raw_output_type {
            Some(raw_type) => await_result(raw_type.as_str()),
            None => "\t\tif err := fut.Get(ctx, nil); err != nil {\n".to_owned(),
        },
    }
}

/// The lines before the resource of an operation is made.
pub open spec fn local_block_text(lines: Seq<Seq<char>>) -> Seq<char>
    decreases lines.len(),
{
    if lines.len() == 0 {
        Seq::empty()
    } else {
        let line = lines.last();
        local_block_text(lines.drop_last()) + (
            ("\t\t"@ + line + "\n"@)
        )
    }
}

/// The lines before the resource of an operation is made.
pub fn local_block(lines: &Vec<String>) -> (result: String)
    ensures
        result@ == local_block_text(crate::text::texts(lines@)),
{
    let mut result: String = String::new();
    let mut i: usize = 0;
    while i < lines.len()
        invariant
            i <= lines.len(),
            result@ == local_block_text(crate::text::texts(lines@).take(i as int)),
        decreases lines.len() - i,
    {
        proof {
            assert(
                crate::text::texts(lines@).take(i + 1).drop_last()
                    =~= crate::text::texts(lines@).take(i as int)
            );
            assert(
                crate::text::texts(lines@).take(i + 1).last()
                    == crate::text::texts(lines@)[i as int]
            );
        }
        let line = lines[i].as_str();
        let part = "\t\t".to_owned().concat(line).concat("\n");
        result.append(part.as_str());
        i += 1;
    }
    proof {
        crate::text::lemma_take_all(crate::text::texts(lines@));
    }
    result
}

/// The body of the future of an operation.
pub open spec fn operation_body_text(
    operation: RenderedOperation,
    binding: OperationBinding,
) -> Seq<char> {
    match (operation.output_transform_expr, operation.output_transform_type) {
        (Some(transform_expr), Some(_)) => await_transformed_text(operation, binding) + settle_text("\t\t"@)
            + checked_value_text(transform_expr@),
        _ => match (operation.output_type, binding.output_proto_type, binding.output_from_proto) {
            (Some(_), Some(wire_type), Some(native)) => await_text(without_stars(wire_type@)) + settle_text("\t\t"@)
                + checked_value_text(native@),
            _ => match (binding.resource_return, binding.output_proto_type) {
                (Some(resource_return), Some(wire_type)) => await_text(without_stars(wire_type@)) + settle_text("\t\t"@)
                    + local_block_text(crate::text::texts(resource_return.local_lines@))
                    + "\t\tvalue := New"@ + resource_return.resource_class@ + "("@
                    + initializer_list_text(
                    crate::text::texts(resource_return.field_initializers@),
                ) + ")\n"@,
                _ => Seq::<char>::empty(),
            },
        },
    }
}

/// The body of the future of an operation.
pub fn operation_body(
    operation: &RenderedOperation,
    binding: &OperationBinding,
) -> (result: String)
    ensures
        result@ == operation_body_text(*operation, *binding),
{
    match (&operation.output_transform_expr, &operation.output_transform_type) {
        (Some(transform_expr), Some(_)) => await_transformed(operation, binding)
            .concat(settle_error("\t\t").as_str())
            .concat(checked_value(transform_expr.as_str()).as_str()),
        _ => match (
            &operation.output_type,
            &binding.output_proto_type,
            &binding.output_from_proto
        ) {
            (Some(_), Some(wire_type), Some(native)) => await_result(
                trim_stars(wire_type.as_str()).as_str(),
            )
                .concat(settle_error("\t\t").as_str())
                .concat(checked_value(native.as_str()).as_str()),
            _ => match (&binding.resource_return, &binding.output_proto_type) {
                (Some(resource_return), Some(wire_type)) => await_result(
                    trim_stars(wire_type.as_str()).as_str(),
                )
                    .concat(settle_error("\t\t").as_str())
                    .concat(local_block(&resource_return.local_lines).as_str())
                    .concat("\t\tvalue := New").concat(resource_return.resource_class.as_str())
                    .concat("(")
                    .concat(initializer_list(&resource_return.field_initializers).as_str())
                    .concat(")\n"),
                _ => String::new(),
            },
        },
    }
}

/// The arguments of the constructor of a resource.
pub open spec fn initializer_list_text(initializers: Seq<Seq<char>>) -> Seq<char> {
    crate::text::join(initializers, ", "@)
}

/// The arguments of the constructor of a resource.
pub fn initializer_list(initializers: &Vec<String>) -> (result: String)
    ensures
        result@ == initializer_list_text(crate::text::texts(initializers@)),
{
    join_texts(initializers, ", ")
}

/// The function of an operation: it turns the request into its message, calls the service, and
/// hands on what the future yields.
pub open spec fn operation_function_text(
    service: RenderedService,
    operation: RenderedOperation,
    binding: OperationBinding,
    package: GoPackageContext,
    adapter: FutureAdapter,
) -> Seq<char> {
    let head = "func "@ + operation.func_name@ + "(ctx "@ + package.workflow_context_type@ + ", request "@
        + operation.input_type@ + ") "@ + package.operation_future_type@
        + " {\n\trequestProto, err := "@ + binding.input_to_proto@
        + "\n\tif err != nil {\n\t\tresult, resultSettable := "@ + package.new_future@
        + "(ctx)\n\t\tresultSettable.SetError(err)\n\t\treturn result\n\t}\n\tc := "@
        + service.client_expr@ + "\n\tfut := c.ExecuteOperation(ctx, "@
        + crate::json_text::json_quoted(operation.wire_name@) + ", requestProto, "@
        + package.nexus_operation_options@ + ")\n"@;
    match operation_result_of(operation, binding) {
        FutureResultView::Raw => head + "\treturn fut\n}\n"@,
        _ => head + adapter.before@ + operation_body_text(operation, binding) + adapter.after@
            + "}\n"@,
    }
}

/// The function of an operation: it turns the request into its message, calls the service, and
/// hands on what the future yields.
pub fn render_operation_function_proto(
    output: &mut String,
    service: &RenderedService,
    operation: &RenderedOperation,
    binding: &OperationBinding,
    package: &GoPackageContext,
    adapter: &FutureAdapter,
)
    ensures
        final(output)@ == old(output)@ + operation_function_text(
            *service,
            *operation,
            *binding,
            *package,
            *adapter,
        ),
{
    let text = {
        let head = "func ".to_owned().concat(operation.func_name.as_str()).concat("(ctx ")
            .concat(package.workflow_context_type.as_str()).concat(", request ")
            .concat(operation.input_type.as_str()).concat(") ")
            .concat(package.operation_future_type.as_str()).concat(" {\n\trequestProto, err := ")
            .concat(binding.input_to_proto.as_str())
            .concat("\n\tif err != nil {\n\t\tresult, resultSettable := ")
            .concat(package.new_future.as_str())
            .concat("(ctx)\n\t\tresultSettable.SetError(err)\n\t\treturn result\n\t}\n\tc := ")
            .concat(service.client_expr.as_str()).concat("\n\tfut := c.ExecuteOperation(ctx, ")
            .concat(quote_json(operation.wire_name.as_str()).as_str()).concat(", requestProto, ")
            .concat(package.nexus_operation_options.as_str()).concat(")\n");
        match operation_result(operation, binding) {
            FutureResult::Raw => head.clone().concat("\treturn fut\n}\n"),
            _ => head.clone().concat(adapter.before.as_str())
                .concat(operation_body(operation, binding).as_str()).concat(adapter.after.as_str())
                .concat("}\n"),
        }
    };
    output.append(text.as_str());
}

/// The lines of a function body.
pub open spec fn body_block_text(lines: Seq<Seq<char>>) -> Seq<char>
    decreases lines.len(),
{
    if lines.len() == 0 {
        Seq::empty()
    } else {
        let line = lines.last();
        body_block_text(lines.drop_last()) + (
            ("\t"@ + line + "\n"@)
        )
    }
}

/// The lines of a function body.
pub fn body_block(lines: &Vec<String>) -> (result: String)
    ensures
        result@ == body_block_text(crate::text::texts(lines@)),
{
    let mut result: String = String::new();
    let mut i: usize = 0;
    while i < lines.len()
        invariant
            i <= lines.len(),
            result@ == body_block_text(crate::text::texts(lines@).take(i as int)),
        decreases lines.len() - i,
    {
        proof {
            assert(
                crate::text::texts(lines@).take(i + 1).drop_last()
                    =~= crate::text::texts(lines@).take(i as int)
            );
            assert(
                crate::text::texts(lines@).take(i + 1).last()
                    == crate::text::texts(lines@)[i as int]
            );
        }
        let line = lines[i].as_str();
        let part = "\t".to_owned().concat(line).concat("\n");
        result.append(part.as_str());
        i += 1;
    }
    proof {
        crate::text::lemma_take_all(crate::text::texts(lines@));
    }
    result
}

/// The lines that put the fields of a model into its message.
pub open spec fn to_proto_block_text(fields: Seq<RenderedFieldConversion>) -> Seq<char>
    decreases fields.len(),
{
    if fields.len() == 0 {
        Seq::empty()
    } else {
        let field = fields.last();
        to_proto_block_text(fields.drop_last()) + (
            body_block_text(crate::text::texts(field.to_proto_lines@))
        )
    }
}

/// The lines that put the fields of a model into its message.
pub fn to_proto_block(fields: &Vec<RenderedFieldConversion>) -> (result: String)
    ensures
        result@ == to_proto_block_text(fields@),
{
    let mut result: String = String::new();
    let mut i: usize = 0;
    while i < fields.len()
        invariant
            i <= fields.len(),
            result@ == to_proto_block_text(fields@.take(i as int)),
        decreases fields.len() - i,
    {
        proof {
            assert(fields@.take(i + 1).drop_last() =~= fields@.take(i as int));
            assert(fields@.take(i + 1).last() == fields@[i as int]);
        }
        let field = &fields[i];
        let part = body_block(&field.to_proto_lines);
        result.append(part.as_str());
        i += 1;
    }
    proof {
        crate::text::lemma_take_all(fields@);
    }
    result
}

/// The lines that read the fields of a model from its message.
pub open spec fn from_proto_block_text(fields: Seq<RenderedFieldConversion>) -> Seq<char>
    decreases fields.len(),
{
    if fields.len() == 0 {
        Seq::empty()
    } else {
        let field = fields.last();
        from_proto_block_text(fields.drop_last()) + (
            body_block_text(crate::text::texts(field.from_proto_lines@))
        )
    }
}

/// The lines that read the fields of a model from its message.
pub fn from_proto_block(fields: &Vec<RenderedFieldConversion>) -> (result: String)
    ensures
        result@ == from_proto_block_text(fields@),
{
    let mut result: String = String::new();
    let mut i: usize = 0;
    while i < fields.len()
        invariant
            i <= fields.len(),
            result@ == from_proto_block_text(fields@.take(i as int)),
        decreases fields.len() - i,
    {
        proof {
            assert(fields@.take(i + 1).drop_last() =~= fields@.take(i as int));
            assert(fields@.take(i + 1).last() == fields@[i as int]);
        }
        let field = &fields[i];
        let part = body_block(&field.from_proto_lines);
        result.append(part.as_str());
        i += 1;
    }
    proof {
        crate::text::lemma_take_all(fields@);
    }
    result
}

/// The lines that put the sourced values into the message of a model.
pub open spec fn sourced_block_text(fields: Seq<RenderedSourcedField>) -> Seq<char>
    decreases fields.len(),
{
    if fields.len() == 0 {
        Seq::empty()
    } else {
        let field = fields.last();
        sourced_block_text(fields.drop_last()) + (
            body_block_text(crate::text::texts(field.to_proto_lines@))
        )
    }
}

/// The lines that put the sourced values into the message of a model.
pub fn sourced_block(fields: &Vec<RenderedSourcedField>) -> (result: String)
    ensures
        result@ == sourced_block_text(fields@),
{
    let mut result: String = String::new();
    let mut i: usize = 0;
    while i < fields.len()
        invariant
            i <= fields.len(),
            result@ == sourced_block_text(fields@.take(i as int)),
        decreases fields.len() - i,
    {
        proof {
            assert(fields@.take(i + 1).drop_last() =~= fields@.take(i as int));
            assert(fields@.take(i + 1).last() == fields@[i as int]);
        }
        let field = &fields[i];
        let part = body_block(&field.to_proto_lines);
        result.append(part.as_str());
        i += 1;
    }
    proof {
        crate::text::lemma_take_all(fields@);
    }
    result
}

/// The name of a type declaration without its type parameters.
pub open spec fn declared_ident(name: Seq<char>) -> Seq<char> {
    name.take(crate::text::first_index(name, '['))
}

fn split_declared_ident(name: &str) -> (ident: String)
    ensures
        ident@ == declared_ident(name@),
{
    let chars = crate::text::chars_of(name);
    assert(chars@.skip(0) =~= chars@);
    let at = crate::text::find_char(&chars, '[', 0);
    assert(chars@.subrange(0, at as int) =~= chars@.take(at as int));
    crate::text::text_between(&chars, 0, at)
}

/// The methods between a model and its message.
pub open spec fn wire_methods_text(
    model_name: Seq<char>,
    wire: RenderedModelWire,
    package: GoPackageContext,
) -> Seq<char> {
    let wire_value_type = without_stars(wire.proto_type@);
    let to_proto = "\nfunc (m "@ + model_name + ") toProto(ctx "@ + package.workflow_context_type@ + ") ("@
        + wire.proto_type@ + ", error) {\n\tmessage := &"@ + wire_value_type + "{}\n"@
        + to_proto_block_text(wire.field_conversions@)
        + sourced_block_text(wire.sourced_fields@) + "\treturn message, nil\n}\n"@;
    let from_proto = "\nfunc "@ + unexported_name_text(declared_ident(model_name)) + "FromProto(ctx "@
        + package.workflow_context_type@ + ", proto "@ + wire.proto_type@ + ") ("@ + model_name
        + ", error) {\n\tvalue := "@ + model_name + "{}\n"@
        + from_proto_block_text(wire.field_conversions@) + "\treturn value, nil\n}\n"@;
    (to_proto + from_proto)
}

/// The methods between a model and its message.
pub fn render_model_wire_methods(
    output: &mut String,
    model_name: &str,
    wire: &RenderedModelWire,
    package: &GoPackageContext,
)
    ensures
        final(output)@ == old(output)@ + wire_methods_text(model_name@, *wire, *package),
{
    let text = {
        let wire_value_type = trim_stars(wire.proto_type.as_str());
        let to_proto = "\nfunc (m ".to_owned().concat(model_name).concat(") toProto(ctx ")
            .concat(package.workflow_context_type.as_str()).concat(") (")
            .concat(wire.proto_type.as_str()).concat(", error) {\n\tmessage := &")
            .concat(wire_value_type.as_str()).concat("{}\n")
            .concat(to_proto_block(&wire.field_conversions).as_str())
            .concat(sourced_block(&wire.sourced_fields).as_str())
            .concat("\treturn message, nil\n}\n");
        let from_proto = "\nfunc ".to_owned()
            .concat(go_unexported_name(split_declared_ident(model_name).as_str()).as_str())
            .concat("FromProto(ctx ").concat(package.workflow_context_type.as_str())
            .concat(", proto ").concat(wire.proto_type.as_str()).concat(") (").concat(model_name)
            .concat(", error) {\n\tvalue := ").concat(model_name).concat("{}\n")
            .concat(from_proto_block(&wire.field_conversions).as_str())
            .concat("\treturn value, nil\n}\n");
        to_proto.clone().concat(from_proto.as_str())
    };
    output.append(text.as_str());
}

} // verus!
