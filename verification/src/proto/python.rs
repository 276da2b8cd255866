//! Python conversions between generated models and protobuf messages.

use vstd::prelude::*;

use crate::error::{Error, ErrorView};
use crate::json_text::quote_json;
use crate::language::Language;
use crate::naming::to_snake;
use crate::plan::{
    relative_descriptor_name, PlannedProtoEnum, PlannedProtoMessage, PlannedProtoTypeInfo,
    PlannedRecord, PlannedRecordField, PlannedType, PlannedWireFieldBinding,
    PlannedWireVariantMember, RecordFieldVisibility, TypeReplacementSpec,
};
use crate::text::{
    char_is_ascii_word, chars_of, last_segment_of, replace_char, replace_text, split_lines,
    strip_prefix, strip_suffix, text_eq, with_lines,
};

verus! {

/// Modules that generated Python code imports; none stands twice.
#[derive(Debug, Clone)]
pub struct PythonImports {
    pub module_imports: Vec<String>,
}

impl PythonImports {
    /// The imported modules.
    pub open spec fn modules(&self) -> Set<Seq<char>> {
        crate::text::texts(self.module_imports@).to_set()
    }

    /// No imports.
    pub fn new() -> (imports: Self)
        ensures
            imports.module_imports@.len() == 0,
            imports.modules() == Set::<Seq<char>>::empty(),
    {
        let imports = PythonImports { module_imports: Vec::new() };
        assert(imports.modules() =~= Set::<Seq<char>>::empty());
        imports
    }

    /// Adds a module.
    pub fn insert(&mut self, module: &str)
        ensures
            final(self).modules() == old(self).modules().insert(module@),
            crate::text::texts(old(self).module_imports@).no_duplicates() ==> crate::text::texts(
                final(self).module_imports@,
            ).no_duplicates(),
    {
        let ghost before = crate::text::texts(self.module_imports@);
        if !crate::text::contains_text(&self.module_imports, module) {
            self.module_imports.push(module.to_owned());
            proof {
                let after = crate::text::texts(self.module_imports@);
                assert(after =~= before.push(module@));
                assert(after.to_set() =~= before.to_set().insert(module@)) by {
                    assert(after.last() == module@);
                    assert forall|name: Seq<char>| before.contains(name) implies after.contains(
                        name,
                    ) by {
                        let i = choose|i: int| 0 <= i < before.len() && before[i] == name;
                        assert(after[i] == name);
                    }
                }
            }
        } else {
            assert(before.to_set() =~= before.to_set().insert(module@));
        }
    }

    /// Adds the modules of `other`.
    pub fn extend(&mut self, other: &PythonImports)
        ensures
            final(self).modules() == old(self).modules().union(other.modules()),
            crate::text::texts(old(self).module_imports@).no_duplicates() ==> crate::text::texts(
                final(self).module_imports@,
            ).no_duplicates(),
    {
        let ghost before = self.modules();
        let ghost added = crate::text::texts(other.module_imports@);
        let mut i: usize = 0;
        assert(before.union(added.take(0).to_set()) =~= before);
        while i < other.module_imports.len()
            invariant
                i <= other.module_imports.len(),
                before == old(self).modules(),
                added == crate::text::texts(other.module_imports@),
                self.modules() == before.union(added.take(i as int).to_set()),
                crate::text::texts(
                    old(self).module_imports@,
                ).no_duplicates() ==> crate::text::texts(
                    self.module_imports@,
                ).no_duplicates(),
            decreases other.module_imports.len() - i,
        {
            self.insert(other.module_imports[i].as_str());
            proof {
                let shorter = added.take(i as int);
                let longer = added.take(i + 1);
                assert(longer =~= shorter.push(added[i as int]));
                assert(longer.to_set() =~= shorter.to_set().insert(added[i as int])) by {
                    assert(longer.last() == added[i as int]);
                    assert forall|name: Seq<char>| shorter.contains(name) implies longer.contains(
                        name,
                    ) by {
                        let j = choose|j: int| 0 <= j < shorter.len() && shorter[j] == name;
                        assert(longer[j] == name);
                    }
                }
                assert(self.modules() =~= before.union(longer.to_set()));
            }
            i += 1;
        }
        assert(added.take(i as int) =~= added);
    }
}

/// Templates for turning a model value into a wire value and back. `{wire}`, `{value}` and
/// `{type_hint}` stand for the expressions that are put in.
#[derive(Debug, Clone)]
pub struct WireValueConversion {
    pub annotation: String,
    pub from_wire: String,
    pub to_wire: String,
    pub imports: PythonImports,
    pub supports_unpacked_input: bool,
}

/// A [`WireValueConversion`] by the views of its texts and the modules that it imports.
#[verifier::ext_equal]
pub struct ConversionView {
    pub annotation: Seq<char>,
    pub from_wire: Seq<char>,
    pub to_wire: Seq<char>,
    pub modules: Set<Seq<char>>,
    pub supports_unpacked_input: bool,
}

impl View for WireValueConversion {
    type V = ConversionView;

    open spec fn view(&self) -> ConversionView {
        ConversionView {
            annotation: self.annotation@,
            from_wire: self.from_wire@,
            to_wire: self.to_wire@,
            modules: self.imports.modules(),
            supports_unpacked_input: self.supports_unpacked_input,
        }
    }
}

/// The view of an optional conversion.
pub open spec fn opt_conversion(conversion: Option<WireValueConversion>) -> Option<ConversionView> {
    match conversion {
        Some(conversion) => Some(conversion@),
        None => None,
    }
}

/// The conversion with the given templates and no imports.
pub open spec fn conversion_of(
    annotation: Seq<char>,
    from_wire: Seq<char>,
    to_wire: Seq<char>,
    supports_unpacked_input: bool,
) -> ConversionView {
    ConversionView {
        annotation,
        from_wire,
        to_wire,
        modules: Set::empty(),
        supports_unpacked_input,
    }
}

/// The conversion with the given templates and no imports.
fn conversion(
    annotation: String,
    from_wire: String,
    to_wire: String,
    supports_unpacked_input: bool,
) -> (result: WireValueConversion)
    ensures
        opt_conversion(Some(result)) == Some(
            conversion_of(annotation@, from_wire@, to_wire@, supports_unpacked_input),
        ),
{
    WireValueConversion {
        annotation,
        from_wire,
        to_wire,
        imports: PythonImports::new(),
        supports_unpacked_input,
    }
}

/// What kind of value a field holds.
#[derive(Debug, Clone, Copy, PartialEq, Eq, Structural)]
pub enum ResolvedFieldKind {
    Scalar,
    Message,
    Enum,
    Other,
}

/// The Python type of a field. A message always has a conversion.
#[derive(Debug, Clone)]
pub struct ResolvedFieldType {
    pub annotation: String,
    pub imports: PythonImports,
    pub kind: ResolvedFieldKind,
    pub wire_conversion: Option<WireValueConversion>,
}

/// A [`ResolvedFieldType`] by the views of its texts.
#[verifier::ext_equal]
pub struct ResolvedTypeView {
    pub annotation: Seq<char>,
    pub modules: Set<Seq<char>>,
    pub kind: ResolvedFieldKind,
    pub wire_conversion: Option<ConversionView>,
}

impl View for ResolvedFieldType {
    type V = ResolvedTypeView;

    open spec fn view(&self) -> ResolvedTypeView {
        ResolvedTypeView {
            annotation: self.annotation@,
            modules: self.imports.modules(),
            kind: self.kind,
            wire_conversion: opt_conversion(self.wire_conversion),
        }
    }
}

impl PythonImports {
    /// A copy of the imports.
    pub fn copied(&self) -> (imports: PythonImports)
        ensures
            imports.modules() == self.modules(),
    {
        let mut imports = PythonImports::new();
        imports.extend(self);
        assert(imports.modules() =~= self.modules());
        imports
    }
}

impl WireValueConversion {
    /// A copy of the conversion.
    pub fn copied(&self) -> (conversion: WireValueConversion)
        ensures
            conversion@ == self@,
    {
        WireValueConversion {
            annotation: self.annotation.clone(),
            from_wire: self.from_wire.clone(),
            to_wire: self.to_wire.clone(),
            imports: self.imports.copied(),
            supports_unpacked_input: self.supports_unpacked_input,
        }
    }
}

impl ResolvedFieldType {
    /// A message has a conversion.
    pub open spec fn wf(&self) -> bool {
        self.kind is Message ==> self.wire_conversion is Some
    }

    /// A copy of the type.
    pub fn copied(&self) -> (copy: ResolvedFieldType)
        ensures
            copy@ == self@,
    {
        ResolvedFieldType {
            annotation: self.annotation.clone(),
            imports: self.imports.copied(),
            kind: self.kind,
            wire_conversion: match &self.wire_conversion {
                Some(conversion) => Some(conversion.copied()),
                None => None,
            },
        }
    }
}

/// How a missing value of a field is read.
#[derive(Debug, Clone)]
pub enum PythonFieldDefaultKind {
    Required,
    Missing,
    EmptyDict,
    EmptyList,
    Expression(String),
}

/// A field of a rendered model.
#[derive(Debug, Clone)]
pub struct RenderedField {
    pub attr_name: String,
    pub wire_value_type: ResolvedFieldType,
    pub default_kind: PythonFieldDefaultKind,
}

/// A rendered model.
#[derive(Debug, Clone)]
pub struct RenderedModel {
    pub name: String,
    pub type_parameters: Vec<String>,
    pub fields: Vec<RenderedField>,
}

/// Lines before an expression, and the expression, that read a field from its message.
#[derive(Debug, Clone)]
pub struct RenderedWireRead {
    pub setup_lines: Vec<String>,
    pub expr: String,
}

/// A [`RenderedWireRead`] by the views of its texts.
#[verifier::ext_equal]
pub struct WireReadView {
    pub setup_lines: Seq<Seq<char>>,
    pub expr: Seq<char>,
}

impl View for RenderedWireRead {
    type V = WireReadView;

    open spec fn view(&self) -> WireReadView {
        WireReadView { setup_lines: crate::text::texts(self.setup_lines@), expr: self.expr@ }
    }
}

/// The read with the given lines and expression.
pub open spec fn read_of(setup_lines: Seq<Seq<char>>, expr: Seq<char>) -> WireReadView {
    WireReadView { setup_lines, expr }
}

/// The read with the given lines and expression.
fn wire_read(setup_lines: Vec<String>, expr: String) -> (read: RenderedWireRead)
    ensures
        read@ == read_of(crate::text::texts(setup_lines@), expr@),
{
    RenderedWireRead { setup_lines, expr }
}

/// How a field is read that its message may lack.
#[derive(Debug, Clone)]
pub enum WireReadPolicy {
    Required { missing_error: String },
    Optional,
    Default { default_expr: String },
}

/// A [`WireReadPolicy`] by the views of its texts.
#[verifier::ext_equal]
pub enum ReadPolicyView {
    Required { missing_error: Seq<char> },
    Optional,
    Default { default_expr: Seq<char> },
}

impl View for WireReadPolicy {
    type V = ReadPolicyView;

    open spec fn view(&self) -> ReadPolicyView {
        match self {
            WireReadPolicy::Required { missing_error } => ReadPolicyView::Required {
                missing_error: missing_error@,
            },
            WireReadPolicy::Optional => ReadPolicyView::Optional,
            WireReadPolicy::Default { default_expr } => ReadPolicyView::Default {
                default_expr: default_expr@,
            },
        }
    }
}

/// The protobuf messages that carry a value of any type.
#[derive(Debug, Clone, Copy, PartialEq, Eq, Structural)]
pub enum ProtoGenericCarrier {
    Payload,
    Payloads,
}

/// A case of a protobuf oneof.
#[derive(Debug, Clone)]
pub struct ProtoOneofCase {
    pub class_name: String,
    pub proto_name: String,
    pub payload_type: ResolvedFieldType,
    pub generic_carrier: Option<ProtoGenericCarrier>,
}

/// A protobuf oneof.
#[derive(Debug, Clone)]
pub struct ProtoOneof {
    pub name: String,
    pub cases: Vec<ProtoOneofCase>,
}

/// What is known of a field from its protobuf binding.
#[derive(Debug, Clone)]
pub struct ProtoField {
    pub oneof: Option<ProtoOneof>,
    pub generic_carrier: Option<ProtoGenericCarrier>,
}

/// A [`ProtoOneofCase`] by the views of its texts.
#[verifier::ext_equal]
pub struct OneofCaseView {
    pub class_name: Seq<char>,
    pub proto_name: Seq<char>,
    pub payload_type: ResolvedTypeView,
    pub generic_carrier: Option<ProtoGenericCarrier>,
}

/// A [`ProtoOneof`] by the views of its texts.
#[verifier::ext_equal]
pub struct OneofView {
    pub name: Seq<char>,
    pub cases: Seq<OneofCaseView>,
}

/// A [`ProtoField`] by the views of its texts.
#[verifier::ext_equal]
pub struct ProtoFieldView {
    pub oneof: Option<OneofView>,
    pub generic_carrier: Option<ProtoGenericCarrier>,
}

impl View for ProtoOneofCase {
    type V = OneofCaseView;

    open spec fn view(&self) -> OneofCaseView {
        OneofCaseView {
            class_name: self.class_name@,
            proto_name: self.proto_name@,
            payload_type: self.payload_type@,
            generic_carrier: self.generic_carrier,
        }
    }
}

/// The views of a list of cases.
pub open spec fn case_views(cases: Seq<ProtoOneofCase>) -> Seq<OneofCaseView> {
    cases.map_values(|case: ProtoOneofCase| case@)
}

impl View for ProtoOneof {
    type V = OneofView;

    open spec fn view(&self) -> OneofView {
        OneofView { name: self.name@, cases: case_views(self.cases@) }
    }
}

impl View for ProtoField {
    type V = ProtoFieldView;

    open spec fn view(&self) -> ProtoFieldView {
        ProtoFieldView {
            oneof: match self.oneof {
                Some(oneof) => Some(oneof@),
                None => None,
            },
            generic_carrier: self.generic_carrier,
        }
    }
}

/// A type argument of a generic model: the parameter and the variable that holds its type.
#[derive(Debug, Clone)]
pub struct TypeArgument {
    pub parameter: String,
    pub argument: String,
}

/// A [`TypeArgument`] by the views of its texts.
#[verifier::ext_equal]
pub struct TypeArgumentView {
    pub parameter: Seq<char>,
    pub argument: Seq<char>,
}

impl View for TypeArgument {
    type V = TypeArgumentView;

    open spec fn view(&self) -> TypeArgumentView {
        TypeArgumentView { parameter: self.parameter@, argument: self.argument@ }
    }
}

/// The views of a list of type arguments.
pub open spec fn argument_views(arguments: Seq<TypeArgument>) -> Seq<TypeArgumentView> {
    arguments.map_values(|argument: TypeArgument| argument@)
}

/// A Python string literal.
pub open spec fn python_literal(value: Seq<char>) -> Seq<char> {
    crate::json_text::json_quoted(value)
}

/// A Python string literal.
pub fn python_string_literal(value: &str) -> (result: String)
    ensures
        result@ == python_literal(value@),
{
    quote_json(value)
}

/// The carrier that a wire type is, where it is one.
pub open spec fn generic_carrier_of(wire_type: PlannedType) -> Option<ProtoGenericCarrier> {
    match crate::plan::bare_type(wire_type) {
        PlannedType::Message(message) => if (
            message.proto.full_name@ == "temporal.api.common.v1.Payload"@
        ) {
            Some(ProtoGenericCarrier::Payload)
        } else if (message.proto.full_name@ == "temporal.api.common.v1.Payloads"@) {
            Some(ProtoGenericCarrier::Payloads)
        } else {
            None
        },
        _ => None,
    }
}

/// The carrier that a wire type is, where it is one.
pub fn proto_generic_carrier(wire_type: &PlannedType) -> (result: Option<ProtoGenericCarrier>)
    ensures
        result == generic_carrier_of(*wire_type),
{
    match wire_type.validation_type() {
        PlannedType::Message(message) => if text_eq(
            message.proto.full_name.as_str(),
            "temporal.api.common.v1.Payload",
        ) {
            Some(ProtoGenericCarrier::Payload)
        } else if text_eq(message.proto.full_name.as_str(), "temporal.api.common.v1.Payloads") {
            Some(ProtoGenericCarrier::Payloads)
        } else {
            None
        },
        _ => None,
    }
}

/// The name of the default function from a protobuf type.
pub open spec fn default_from_proto_name(name: Seq<char>) -> Seq<char> {
    crate::naming::snake(crate::text::last_segment(name, '.')) + "_from_proto"@
}

/// The name of the default function from a protobuf type.
pub fn python_default_from_proto_name(name: &str) -> (result: String)
    ensures
        result@ == default_from_proto_name(name@),
{
    to_snake(last_segment_of(name, '.').as_str()).concat("_from_proto")
}

/// The name of the default function to a protobuf type.
pub open spec fn default_to_proto_name(name: Seq<char>) -> Seq<char> {
    crate::naming::snake(crate::text::last_segment(name, '.')) + "_to_proto"@
}

/// The name of the default function to a protobuf type.
pub fn python_default_to_proto_name(name: &str) -> (result: String)
    ensures
        result@ == default_to_proto_name(name@),
{
    to_snake(last_segment_of(name, '.').as_str()).concat("_to_proto")
}

/// The function from a protobuf type to its replacement.
pub open spec fn from_proto_converter(
    name: Seq<char>,
    replacement: TypeReplacementSpec,
) -> Seq<char> {
    match crate::plan::text_for(replacement.from_proto, Language::Python) {
        Some(converter) => converter,
        None => default_from_proto_name(name),
    }
}

/// The function from a protobuf type to its replacement.
pub fn python_from_proto_converter(
    name: &str,
    replacement: &TypeReplacementSpec,
) -> (result: String)
    ensures
        result@ == from_proto_converter(name@, *replacement),
{
    match replacement.from_proto.for_language(Language::Python) {
        Some(converter) => converter,
        None => python_default_from_proto_name(name),
    }
}

/// The function from a replacement to its protobuf type.
pub open spec fn to_proto_converter(
    name: Seq<char>,
    replacement: TypeReplacementSpec,
) -> Seq<char> {
    match crate::plan::text_for(replacement.to_proto, Language::Python) {
        Some(converter) => converter,
        None => default_to_proto_name(name),
    }
}

/// The function from a replacement to its protobuf type.
pub fn python_to_proto_converter(
    name: &str,
    replacement: &TypeReplacementSpec,
) -> (result: String)
    ensures
        result@ == to_proto_converter(name@, *replacement),
{
    match replacement.to_proto.for_language(Language::Python) {
        Some(converter) => converter,
        None => python_default_to_proto_name(name),
    }
}

/// The Python type that stands for a protobuf type.
pub open spec fn replacement_annotation(replacement: TypeReplacementSpec) -> Option<Seq<char>> {
    crate::plan::text_for(replacement.annotation, Language::Python)
}

/// The Python type that stands for a protobuf type.
pub fn python_replacement_annotation(
    replacement: &TypeReplacementSpec,
) -> (result: Option<String>)
    ensures
        crate::text::opt_text(result) == replacement_annotation(*replacement),
{
    replacement.annotation.for_language(Language::Python)
}

/// The conversion of a replaced message, where its replacement has a Python type.
pub open spec fn message_replacement_conversion_of(
    message: PlannedProtoMessage,
) -> Option<ConversionView> {
    match message.replacement {
        Some(replacement) => match replacement_annotation(replacement) {
            Some(annotation) => Some(conversion_of(
                    annotation,
                    (from_proto_converter(message.proto.full_name@, replacement) + "({wire})"@),
                    (to_proto_converter(message.proto.full_name@, replacement) + "({value})"@),
                    false,
            )),
            None => None,
        },
        None => None,
    }
}

/// The conversion of a replaced message, where its replacement has a Python type.
pub fn message_replacement_conversion(
    message: &PlannedProtoMessage,
) -> (result: Option<WireValueConversion>)
    ensures
        opt_conversion(result) == message_replacement_conversion_of(*message),
{
    match &message.replacement {
        Some(replacement) => match python_replacement_annotation(replacement) {
            Some(annotation) => Some(conversion(
                annotation,
                python_from_proto_converter(
                    message.proto.full_name.as_str(),
                    replacement,
                ).concat("({wire})"),
                python_to_proto_converter(
                    message.proto.full_name.as_str(),
                    replacement,
                ).concat("({value})"),
                false,
            )),
            None => None,
        },
        None => None,
    }
}

/// The conversion of a message that is not rendered as a model: by its replacement, else by the
/// default functions of its authored type.
pub open spec fn message_override_conversion_of(
    model_type: PlannedType,
) -> Option<ConversionView> {
    match model_type {
        PlannedType::Message(message) => match message_replacement_conversion_of(message) {
            Some(conversion) => Some(conversion),
            None => match message.authored_annotation {
                Some(annotation) => Some(conversion_of(
                        annotation@,
                        (default_from_proto_name(message.proto.full_name@) + "({wire})"@),
                        (default_to_proto_name(message.proto.full_name@) + "({value})"@),
                        false,
                )),
                None => None,
            },
        },
        _ => None,
    }
}

/// The conversion of a message that is not rendered as a model: by its replacement, else by the
/// default functions of its authored type.
pub fn message_override_conversion(
    model_type: &PlannedType,
) -> (result: Option<WireValueConversion>)
    ensures
        opt_conversion(result) == message_override_conversion_of(*model_type),
{
    match model_type {
        PlannedType::Message(message) => match message_replacement_conversion(message) {
            Some(conversion) => Some(conversion),
            None => match &message.authored_annotation {
                Some(annotation) => Some(conversion(
                    annotation.clone(),
                    python_default_from_proto_name(
                        message.proto.full_name.as_str(),
                    ).concat("({wire})"),
                    python_default_to_proto_name(
                        message.proto.full_name.as_str(),
                    ).concat("({value})"),
                    false,
                )),
                None => None,
            },
        },
        _ => None,
    }
}

/// The name of the model that is generated for a message.
pub open spec fn generated_model_name(
    model_type: PlannedType,
    planned_model: PlannedRecord,
) -> Option<Seq<char>> {
    if planned_model.proto.is_some() {
        Some(planned_model.name@)
    } else {
        match model_type {
            PlannedType::Message(message) => Some(message.model_name@),
            _ => None,
        }
    }
}

/// The name of the model that is generated for a message.
pub fn generated_message_model_name(
    model_type: &PlannedType,
    planned_model: &PlannedRecord,
) -> (result: Option<String>)
    ensures
        crate::text::opt_text(result) == generated_model_name(*model_type, *planned_model),
{
    if planned_model.proto.is_some() {
        Some(planned_model.name.clone())
    } else {
        match model_type {
            PlannedType::Message(message) => Some(message.model_name.clone()),
            _ => None,
        }
    }
}

/// The conversion of a generated model: through its converter class, or none at all for a
/// record without a message.
pub open spec fn generated_conversion_of(
    model_type: PlannedType,
    planned_model: PlannedRecord,
) -> Option<ConversionView> {
    match generated_model_name(model_type, planned_model) {
        Some(model_name) => Some(conversion_of(
                model_name,
                (
                    "_"@ + model_name
                        + "TransferTypeConverter().from_transfer_type({wire}, {type_hint})"@
                ),
                ("_"@ + model_name + "TransferTypeConverter().to_transfer_type({value})"@),
                true,
        )),
        None => match model_type {
            PlannedType::Record(record) => Some(
                conversion_of(record.model_name@, "{wire}"@, "{value}"@, true),
            ),
            _ => None,
        },
    }
}

/// The conversion of a generated model: through its converter class, or none at all for a
/// record without a message.
pub fn generated_wire_conversion(
    model_type: &PlannedType,
    planned_model: &PlannedRecord,
) -> (result: Option<WireValueConversion>)
    ensures
        opt_conversion(result) == generated_conversion_of(*model_type, *planned_model),
{
    match generated_message_model_name(model_type, planned_model) {
        Some(model_name) => Some(conversion(
            model_name.clone(),
            "_".to_owned().concat(model_name.as_str())
                .concat("TransferTypeConverter().from_transfer_type({wire}, {type_hint})"),
            "_".to_owned().concat(model_name.as_str())
                .concat("TransferTypeConverter().to_transfer_type({value})"),
            true,
        )),
        None => match model_type {
            PlannedType::Record(record) => Some(
                conversion(
                    record.model_name.clone(),
                    "{wire}".to_owned(),
                    "{value}".to_owned(),
                    true,
                ),
            ),
            _ => None,
        },
    }
}

/// The Python module of a protobuf file; where no file is known, that of the package.
pub open spec fn module_path_of(
    file_name: Option<Seq<char>>,
    package: Seq<char>,
) -> Option<Seq<char>> {
    match file_name {
        Some(file_name) => {
            let dotted = crate::text::replaced_char(file_name, '/', "."@);
            let module = match crate::text::without_suffix(dotted, ".proto"@) {
                Some(stripped) => stripped + "_pb2"@,
                None => dotted,
            };
            match crate::text::without_prefix(module, "temporal."@) {
                Some(suffix) => Some("temporalio."@ + suffix),
                None => Some(module),
            }
        },
        None => if package.len() == 0 {
            None
        } else {
            match crate::text::without_prefix(package, "temporal."@) {
                Some(suffix) => Some("temporalio."@ + suffix),
                None => Some(package),
            }
        },
    }
}

/// The Python module of a protobuf file; where no file is known, that of the package.
pub fn python_module_path_for_file_name(
    file_name: &Option<String>,
    package: &str,
) -> (result: Option<String>)
    ensures
        crate::text::opt_text(result) == module_path_of(
            crate::text::opt_text(*file_name),
            package@,
        ),
{
    match file_name {
        Some(file_name) => {
            let dotted = replace_char(file_name.as_str(), '/', ".");
            let module = match strip_suffix(dotted.as_str(), ".proto") {
                Some(stripped) => stripped.clone().concat("_pb2"),
                None => dotted,
            };
            match strip_prefix(module.as_str(), "temporal.") {
                Some(suffix) => Some("temporalio.".to_owned().concat(suffix.as_str())),
                None => Some(module),
            }
        },
        None => if package.is_empty() {
            None
        } else {
            match strip_prefix(package, "temporal.") {
                Some(suffix) => Some("temporalio.".to_owned().concat(suffix.as_str())),
                None => Some(package.to_owned()),
            }
        },
    }
}

/// A Python module and a type in it.
#[derive(Debug, Clone)]
pub struct PythonReference {
    pub module: String,
    pub type_ref: String,
}

/// A [`PythonReference`] by the views of its texts.
#[verifier::ext_equal]
pub struct ReferenceView {
    pub module: Seq<char>,
    pub type_ref: Seq<char>,
}

/// The view of an optional reference.
pub open spec fn opt_reference(reference: Option<PythonReference>) -> Option<ReferenceView> {
    match reference {
        Some(reference) => Some(
            ReferenceView { module: reference.module@, type_ref: reference.type_ref@ },
        ),
        None => None,
    }
}

/// The reference to a type in a module.
pub open spec fn reference_of(module: Seq<char>, type_ref: Seq<char>) -> ReferenceView {
    ReferenceView { module, type_ref }
}

/// The reference to a type in a module.
fn python_reference(module: String, type_ref: String) -> (reference: PythonReference)
    ensures
        opt_reference(Some(reference)) == Some(reference_of(module@, type_ref@)),
{
    PythonReference { module, type_ref }
}

/// The Python class of a protobuf message.
pub open spec fn message_reference(type_info: PlannedProtoTypeInfo) -> Option<ReferenceView> {
    match module_path_of(crate::text::opt_text(type_info.file_name), type_info.package@) {
        Some(module) => {
            let type_ref = module + "."@
                + crate::plan::relative_name_text(type_info.full_name@, type_info.package@);
            Some(reference_of(module, type_ref))
        },
        None => None,
    }
}

/// The Python class of a protobuf message.
pub fn message_python_ref(type_info: &PlannedProtoTypeInfo) -> (result: Option<PythonReference>)
    ensures
        opt_reference(result) == message_reference(*type_info),
{
    match python_module_path_for_file_name(&type_info.file_name, type_info.package.as_str()) {
        Some(module) => {
            let type_ref = module.clone().concat(".")
                .concat(
                    relative_descriptor_name(
                        type_info.full_name.as_str(),
                        type_info.package.as_str(),
                    ).as_str(),
                );
            Some(python_reference(module, type_ref))
        },
        None => None,
    }
}

/// The Python type of the values of a protobuf enum.
pub open spec fn enum_reference(type_info: PlannedProtoTypeInfo) -> Option<ReferenceView> {
    match module_path_of(crate::text::opt_text(type_info.file_name), type_info.package@) {
        Some(module) => {
            let type_ref = module + "."@
                + crate::plan::relative_name_text(type_info.full_name@, type_info.package@)
                + ".ValueType"@;
            Some(reference_of(module, type_ref))
        },
        None => None,
    }
}

/// The Python type of the values of a protobuf enum.
pub fn enum_python_ref(type_info: &PlannedProtoTypeInfo) -> (result: Option<PythonReference>)
    ensures
        opt_reference(result) == enum_reference(*type_info),
{
    match python_module_path_for_file_name(&type_info.file_name, type_info.package.as_str()) {
        Some(module) => {
            let type_ref = module.clone().concat(".")
                .concat(
                    relative_descriptor_name(
                        type_info.full_name.as_str(),
                        type_info.package.as_str(),
                    ).as_str(),
                )
                .concat(".ValueType");
            Some(python_reference(module, type_ref))
        },
        None => None,
    }
}

/// The Python class of a type that is a protobuf message.
pub open spec fn external_message_reference(model_type: PlannedType) -> Option<ReferenceView> {
    match model_type {
        PlannedType::Message(message) => message_reference(message.proto),
        _ => None,
    }
}

/// The Python class of a type that is a protobuf message.
pub fn external_message_python_ref(
    model_type: &PlannedType,
) -> (result: Option<PythonReference>)
    ensures
        opt_reference(result) == external_message_reference(*model_type),
{
    match model_type {
        PlannedType::Message(message) => message_python_ref(&message.proto),
        _ => None,
    }
}

/// The Python class of the message that a record is bound to.
pub open spec fn record_reference(planned_model: PlannedRecord) -> Option<ReferenceView> {
    match planned_model.proto {
        Some(proto) => message_reference(proto),
        None => None,
    }
}

/// The Python class of the message that a record is bound to.
pub fn record_python_ref(planned_model: &PlannedRecord) -> (result: Option<PythonReference>)
    ensures
        opt_reference(result) == record_reference(*planned_model),
{
    match &planned_model.proto {
        Some(proto) => message_python_ref(proto),
        None => None,
    }
}

/// The annotation of a type that protobuf declares or that a record stands for.
pub open spec fn type_annotation_of(model_type: PlannedType) -> Option<Seq<char>> {
    match model_type {
        PlannedType::Message(message) => match message_reference(message.proto) {
            Some(reference) => Some(reference.type_ref),
            None => None,
        },
        PlannedType::Enum(enumeration) => {
            let replaced = match enumeration.replacement {
                Some(replacement) => replacement_annotation(replacement),
                None => None,
            };
            match replaced {
                Some(annotation) => Some(annotation),
                None => Some(enumeration.name@),
            }
        },
        PlannedType::Record(record) => Some(record.model_name@),
        _ => None,
    }
}

/// The annotation of a type that protobuf declares or that a record stands for.
pub fn model_type_annotation(model_type: &PlannedType) -> (result: Option<String>)
    ensures
        crate::text::opt_text(result) == type_annotation_of(*model_type),
{
    match model_type {
        PlannedType::Message(message) => match message_python_ref(&message.proto) {
            Some(reference) => Some(reference.type_ref),
            None => None,
        },
        PlannedType::Enum(enumeration) => {
            let replaced = match &enumeration.replacement {
                Some(replacement) => python_replacement_annotation(replacement),
                None => None,
            };
            match replaced {
                Some(annotation) => Some(annotation),
                None => Some(enumeration.name.clone()),
            }
        },
        PlannedType::Record(record) => Some(record.model_name.clone()),
        _ => None,
    }
}

/// The name under which the wire knows a type.
pub open spec fn wire_identifier_of(model_type: PlannedType) -> Option<Seq<char>> {
    match model_type {
        PlannedType::Message(message) => Some(message.proto.full_name@),
        PlannedType::Record(record) => Some(record.full_name@),
        _ => None,
    }
}

/// The name under which the wire knows a type.
pub fn wire_type_identifier(model_type: &PlannedType) -> (result: Option<String>)
    ensures
        crate::text::opt_text(result) == wire_identifier_of(*model_type),
{
    match model_type {
        PlannedType::Message(message) => Some(message.proto.full_name.clone()),
        PlannedType::Record(record) => Some(record.full_name.clone()),
        _ => None,
    }
}

/// The functions between a replaced protobuf enum and its replacement.
#[derive(Debug, Clone)]
pub struct PythonProtoEnumConversion {
    pub from_proto: String,
    pub to_proto: String,
}

/// The Python side of a protobuf enum.
#[derive(Debug, Clone)]
pub struct PythonProtoEnumValue {
    pub annotation: String,
    pub module_import: Option<String>,
    pub conversion: Option<PythonProtoEnumConversion>,
}

/// A [`PythonProtoEnumValue`] by the views of its texts.
#[verifier::ext_equal]
pub struct EnumValueView {
    pub annotation: Seq<char>,
    pub module_import: Option<Seq<char>>,
    pub conversion: Option<(Seq<char>, Seq<char>)>,
}

/// The view of an optional enum value.
pub open spec fn opt_enum_value(value: Option<PythonProtoEnumValue>) -> Option<EnumValueView> {
    match value {
        Some(value) => Some(
            EnumValueView {
                annotation: value.annotation@,
                module_import: crate::text::opt_text(value.module_import),
                conversion: match value.conversion {
                    Some(conversion) => Some((conversion.from_proto@, conversion.to_proto@)),
                    None => None,
                },
            },
        ),
        None => None,
    }
}

/// The enum value with the given parts.
pub open spec fn enum_value_of(
    annotation: Seq<char>,
    module_import: Option<Seq<char>>,
    conversion: Option<(Seq<char>, Seq<char>)>,
) -> EnumValueView {
    EnumValueView { annotation, module_import, conversion }
}

/// The enum value of a replaced enum.
fn replaced_enum_value(annotation: String, from_proto: String, to_proto: String) -> (value:
    PythonProtoEnumValue)
    ensures
        opt_enum_value(Some(value)) == Some(
            replaced_enum_value_of(annotation@, from_proto@, to_proto@),
        ),
{
    PythonProtoEnumValue {
        annotation,
        module_import: None,
        conversion: Some(PythonProtoEnumConversion { from_proto, to_proto }),
    }
}

/// The enum value of a replaced enum.
pub open spec fn replaced_enum_value_of(
    annotation: Seq<char>,
    from_proto: Seq<char>,
    to_proto: Seq<char>,
) -> EnumValueView {
    enum_value_of(annotation, None, Some((from_proto, to_proto)))
}

/// The enum value of an enum that protobuf declares.
fn declared_enum_value(annotation: String, module_import: Option<String>) -> (value:
    PythonProtoEnumValue)
    ensures
        opt_enum_value(Some(value)) == Some(
            declared_enum_value_of(annotation@, crate::text::opt_text(module_import)),
        ),
{
    PythonProtoEnumValue { annotation, module_import, conversion: None }
}

/// The enum value of an enum that protobuf declares.
pub open spec fn declared_enum_value_of(
    annotation: Seq<char>,
    module_import: Option<Seq<char>>,
) -> EnumValueView {
    enum_value_of(annotation, module_import, None)
}

/// The Python side of a replaced enum.
pub open spec fn replaced_enum_of(enumeration: PlannedProtoEnum) -> Option<EnumValueView> {
    match enumeration.replacement {
        Some(replacement) => match replacement_annotation(replacement) {
            Some(annotation) => Some(replaced_enum_value_of(
                    annotation,
                    from_proto_converter(enumeration.proto.full_name@, replacement),
                    to_proto_converter(enumeration.proto.full_name@, replacement),
            )),
            None => None,
        },
        None => None,
    }
}

/// The Python side of a replaced enum.
pub fn replaced_enum(enumeration: &PlannedProtoEnum) -> (result: Option<PythonProtoEnumValue>)
    ensures
        opt_enum_value(result) == replaced_enum_of(*enumeration),
{
    match &enumeration.replacement {
        Some(replacement) => match python_replacement_annotation(replacement) {
            Some(annotation) => Some(replaced_enum_value(
                annotation,
                python_from_proto_converter(enumeration.proto.full_name.as_str(), replacement),
                python_to_proto_converter(enumeration.proto.full_name.as_str(), replacement),
            )),
            None => None,
        },
        None => None,
    }
}

/// The Python side of a type that is a protobuf enum.
pub open spec fn planned_enum_value(value_type: PlannedType) -> Option<EnumValueView> {
    match value_type {
        PlannedType::Enum(enumeration) => match replaced_enum_of(enumeration) {
            Some(value) => Some(value),
            None => {
                let module_import = match enum_reference(enumeration.proto) {
                    Some(reference) => Some(reference.module),
                    None => None,
                };
                Some(declared_enum_value_of(enumeration.name@, module_import))
            },
        },
        _ => None,
    }
}

/// The Python side of a type that is a protobuf enum.
pub fn enum_value(value_type: &PlannedType) -> (result: Option<PythonProtoEnumValue>)
    ensures
        opt_enum_value(result) == planned_enum_value(*value_type),
{
    match value_type {
        PlannedType::Enum(enumeration) => match replaced_enum(enumeration) {
            Some(value) => Some(value),
            None => {
                let module_import = match enum_python_ref(&enumeration.proto) {
                    Some(reference) => Some(reference.module),
                    None => None,
                };
                Some(declared_enum_value(enumeration.name.clone(), module_import))
            },
        },
        _ => None,
    }
}

/// The conversion of a protobuf enum that is replaced.
pub open spec fn enum_conversion_of(value_type: PlannedType) -> Option<ConversionView> {
    match planned_enum_value(value_type) {
        Some(value) => match value.conversion {
            Some(functions) => Some(conversion_of(
                    value.annotation,
                    (functions.0 + "({wire})"@),
                    (functions.1 + "({value})"@),
                    false,
            )),
            None => None,
        },
        None => None,
    }
}

/// The conversion of a protobuf enum that is replaced.
pub fn enum_wire_conversion(value_type: &PlannedType) -> (result: Option<WireValueConversion>)
    ensures
        opt_conversion(result) == enum_conversion_of(*value_type),
{
    match enum_value(value_type) {
        Some(value) => match value.conversion {
            Some(functions) => Some(conversion(
                value.annotation,
                functions.from_proto.concat("({wire})"),
                functions.to_proto.concat("({value})"),
                false,
            )),
            None => None,
        },
        None => None,
    }
}

/// The conversion of a type: of a replaced enum, of an overridden message, or of the generated
/// model of `planned_record`.
pub open spec fn conversion_for(
    model_type: PlannedType,
    planned_record: Option<&PlannedRecord>,
) -> Option<ConversionView> {
    match enum_conversion_of(model_type) {
        Some(conversion) => Some(conversion),
        None => match message_override_conversion_of(model_type) {
            Some(conversion) => Some(conversion),
            None => match planned_record {
                Some(record) => generated_conversion_of(model_type, *record),
                None => None,
            },
        },
    }
}

/// The conversion of a type: of a replaced enum, of an overridden message, or of the generated
/// model of `planned_record`.
pub fn wire_conversion(
    model_type: &PlannedType,
    planned_record: Option<&PlannedRecord>,
) -> (result: Option<WireValueConversion>)
    ensures
        opt_conversion(result) == conversion_for(*model_type, planned_record),
{
    match enum_wire_conversion(model_type) {
        Some(conversion) => Some(conversion),
        None => match message_override_conversion(model_type) {
            Some(conversion) => Some(conversion),
            None => match planned_record {
                Some(record) => generated_wire_conversion(model_type, record),
                None => None,
            },
        },
    }
}

/// The Python type of a field that holds a protobuf enum.
pub fn enum_field_type(value_type: &PlannedType) -> (result: Option<ResolvedFieldType>)
    ensures
        match (result, planned_enum_value(*value_type)) {
            (Some(field), Some(value)) => {
                &&& field.annotation@ == value.annotation
                &&& field.kind == ResolvedFieldKind::Enum
                &&& opt_conversion(field.wire_conversion) == enum_conversion_of(*value_type)
                &&& field.imports.modules() == match value.module_import {
                    Some(module) => set![module],
                    None => Set::empty(),
                }
            },
            (None, None) => true,
            _ => false,
        },
{
    match enum_value(value_type) {
        None => None,
        Some(value) => {
            let mut imports = PythonImports::new();
            match &value.module_import {
                Some(module) => {
                    imports.insert(module.as_str());
                },
                None => {},
            }
            Some(
                ResolvedFieldType {
                    annotation: value.annotation,
                    imports,
                    kind: ResolvedFieldKind::Enum,
                    wire_conversion: enum_wire_conversion(value_type),
                },
            )
        },
    }
}

/// The expression for a model value, from the expression of its wire value.
pub open spec fn from_wire_text(conversion: ConversionView, expr: Seq<char>) -> Seq<char> {
    crate::text::replaced_text(conversion.from_wire, "{wire}"@, expr)
}

/// The expression for a model value, from the expression of its wire value.
pub fn from_wire_expr(conversion: &WireValueConversion, expr: &str) -> (result: String)
    ensures
        result@ == from_wire_text(conversion@, expr@),
{
    replace_text(conversion.from_wire.as_str(), "{wire}", expr)
}

/// The expression for a model value, from the expression of its wire value and that of its type.
pub open spec fn hinted_from_wire_text(
    conversion: ConversionView,
    expr: Seq<char>,
    type_hint: Seq<char>,
) -> Seq<char> {
    crate::text::replaced_text(
        crate::text::replaced_text(conversion.from_wire, "{wire}"@, expr),
        "{type_hint}"@,
        type_hint,
    )
}

/// The expression for a model value, from the expression of its wire value and that of its type.
pub fn from_wire_expr_with_type_hint(
    conversion: &WireValueConversion,
    expr: &str,
    type_hint: &str,
) -> (result: String)
    ensures
        result@ == hinted_from_wire_text(conversion@, expr@, type_hint@),
{
    replace_text(
        replace_text(conversion.from_wire.as_str(), "{wire}", expr).as_str(),
        "{type_hint}",
        type_hint,
    )
}

/// The expression for a wire value, from the expression of its model value.
pub open spec fn to_wire_text(conversion: ConversionView, expr: Seq<char>) -> Seq<char> {
    crate::text::replaced_text(conversion.to_wire, "{value}"@, expr)
}

/// The expression for a wire value, from the expression of its model value.
pub fn to_wire_expr(conversion: &WireValueConversion, expr: &str) -> (result: String)
    ensures
        result@ == to_wire_text(conversion@, expr@),
{
    replace_text(conversion.to_wire.as_str(), "{value}", expr)
}

/// The argument for the parameter `identifier`, else the identifier itself.
pub open spec fn substituted(arguments: Seq<TypeArgumentView>, identifier: Seq<char>) -> Seq<char>
    decreases arguments.len(),
{
    if arguments.len() == 0 {
        identifier
    } else if arguments[0].parameter == identifier {
        arguments[0].argument
    } else {
        substituted(arguments.drop_first(), identifier)
    }
}

/// The rest of an annotation with each identifier that is a type parameter replaced by its
/// argument; `pending` is the identifier that was begun before the rest.
pub open spec fn hint_rest(
    rest: Seq<char>,
    pending: Seq<char>,
    arguments: Seq<TypeArgumentView>,
) -> Seq<char>
    decreases rest.len(),
{
    if rest.len() == 0 {
        hint_word(pending, arguments)
    } else if crate::text::is_ascii_word(rest[0]) || rest[0] == '_' {
        hint_rest(rest.drop_first(), pending.push(rest[0]), arguments)
    } else {
        hint_word(pending, arguments) + seq![rest[0]] + hint_rest(
            rest.drop_first(),
            Seq::empty(),
            arguments,
        )
    }
}

/// An identifier of an annotation, with its argument in the place of a type parameter.
pub open spec fn hint_word(identifier: Seq<char>, arguments: Seq<TypeArgumentView>) -> Seq<char> {
    if identifier.len() == 0 {
        identifier
    } else {
        substituted(arguments, identifier)
    }
}

/// The annotation with each type parameter replaced by its argument.
pub open spec fn concrete_hint(annotation: Seq<char>, arguments: Seq<TypeArgumentView>) -> Seq<
    char,
> {
    hint_rest(annotation, Seq::empty(), arguments)
}

fn substitute(arguments: &Vec<TypeArgument>, identifier: &str) -> (result: String)
    ensures
        result@ == hint_word(identifier@, argument_views(arguments@)),
{
    if identifier.is_empty() {
        return identifier.to_owned();
    }
    let ghost views = argument_views(arguments@);
    let mut i: usize = 0;
    assert(views.skip(0) =~= views);
    while i < arguments.len()
        invariant
            i <= arguments.len(),
            identifier@.len() > 0,
            views == argument_views(arguments@),
            substituted(views.skip(i as int), identifier@) == substituted(views, identifier@),
        decreases arguments.len() - i,
    {
        assert(views.skip(i as int)[0] == arguments@[i as int]@);
        if text_eq(arguments[i].parameter.as_str(), identifier) {
            return arguments[i].argument.clone();
        }
        assert(views.skip(i as int).drop_first() =~= views.skip(i + 1));
        i += 1;
    }
    identifier.to_owned()
}

/// The annotation with each identifier that is a type parameter replaced by its argument.
pub fn concrete_type_hint(annotation: &str, type_arguments: &Vec<TypeArgument>) -> (hint: String)
    ensures
        hint@ == concrete_hint(annotation@, argument_views(type_arguments@)),
{
    let chars = chars_of(annotation);
    let ghost views = argument_views(type_arguments@);
    let mut hint = String::new();
    let mut identifier = String::new();
    let mut i: usize = 0;
    assert(chars@.skip(0) =~= chars@);
    assert(hint@ + hint_rest(chars@, identifier@, views) =~= concrete_hint(annotation@, views));
    while i < chars.len()
        invariant
            i <= chars.len(),
            chars@ == annotation@,
            views == argument_views(type_arguments@),
            hint@ + hint_rest(chars@.skip(i as int), identifier@, views) == concrete_hint(
                annotation@,
                views,
            ),
        decreases chars.len() - i,
    {
        let ghost rest = chars@.skip(i as int);
        let ghost before = hint@;
        let ghost pending = identifier@;
        assert(rest.drop_first() =~= chars@.skip(i + 1));
        let c = chars[i];
        if char_is_ascii_word(c) || c == '_' {
            identifier.push(c);
        } else {
            let word = substitute(type_arguments, identifier.as_str());
            hint.append(word.as_str());
            hint.push(c);
            identifier = String::new();
            proof {
                let tail = hint_rest(rest.drop_first(), Seq::empty(), views);
                assert(before + (hint_word(pending, views) + seq![c] + tail) =~= hint@ + tail);
                assert(identifier@ =~= Seq::<char>::empty());
            }
        }
        i += 1;
    }
    let word = substitute(type_arguments, identifier.as_str());
    hint.append(word.as_str());
    hint
}

/// The expression that turns a carrier into a value of the field's type.
pub open spec fn carrier_from_proto(
    carrier: ProtoGenericCarrier,
    resolved_type: ResolvedTypeView,
    proto_expr: Seq<char>,
    type_arguments: Seq<TypeArgumentView>,
) -> Seq<char> {
    match carrier {
        ProtoGenericCarrier::Payload => "payload_from_proto("@ + proto_expr + ", "@
            + concrete_hint(resolved_type.annotation, type_arguments) + ")"@,
        ProtoGenericCarrier::Payloads => "payloads_from_proto("@ + proto_expr + ", ["@
            + concrete_hint(resolved_type.annotation, type_arguments) + "])[0]"@,
    }
}

/// The expression that turns a carrier into a value of the field's type.
pub fn generic_carrier_from_proto_expr(
    carrier: ProtoGenericCarrier,
    resolved_type: &ResolvedFieldType,
    proto_expr: &str,
    type_arguments: &Vec<TypeArgument>,
) -> (result: String)
    ensures
        result@ == carrier_from_proto(
            carrier,
            resolved_type@,
            proto_expr@,
            argument_views(type_arguments@),
        ),
{
    match carrier {
        ProtoGenericCarrier::Payload => "payload_from_proto(".to_owned().concat(proto_expr)
            .concat(", ")
            .concat(concrete_type_hint(resolved_type.annotation.as_str(), type_arguments).as_str())
            .concat(")"),
        ProtoGenericCarrier::Payloads => "payloads_from_proto(".to_owned().concat(proto_expr)
            .concat(", [")
            .concat(concrete_type_hint(resolved_type.annotation.as_str(), type_arguments).as_str())
            .concat("])[0]"),
    }
}

/// The indentation of lines that stand behind a guard.
pub open spec fn guard_indent_text(optional_guard: bool) -> Seq<char> {
    if optional_guard { "    "@ } else { Seq::<char>::empty() }
}

/// The indentation of lines that stand behind a guard.
pub fn guard_indent(optional_guard: bool) -> (result: String)
    ensures
        result@ == guard_indent_text(optional_guard),
{
    if optional_guard { "    ".to_owned() } else { String::new() }
}

/// The lines that write a value into a carrier.
pub open spec fn carrier_to_proto(
    carrier: ProtoGenericCarrier,
    value_expr: Seq<char>,
    proto_name: Seq<char>,
    optional_guard: bool,
) -> Seq<Seq<char>> {
    let indent = guard_indent_text(optional_guard);
    let converted = match carrier {
        ProtoGenericCarrier::Payload => "payload_to_proto("@ + value_expr + ")"@,
        ProtoGenericCarrier::Payloads => "payloads_to_proto(["@ + value_expr + "])"@,
    };
    (
        if optional_guard {
            seq![("if "@ + value_expr + " is not None:"@)]
        } else { Seq::<Seq<char>>::empty() }
    ) + seq![(indent + "message."@ + proto_name + ".CopyFrom("@ + converted + ")"@)]
}

/// The lines that write a value into a carrier.
pub fn generic_carrier_to_proto_lines(
    carrier: ProtoGenericCarrier,
    value_expr: &str,
    proto_name: &str,
    optional_guard: bool,
) -> (result: Vec<String>)
    ensures
        crate::text::texts(result@) == carrier_to_proto(
            carrier,
            value_expr@,
            proto_name@,
            optional_guard,
        ),
{
    let indent = guard_indent(optional_guard);
    let converted = match carrier {
        ProtoGenericCarrier::Payload => "payload_to_proto(".to_owned().concat(value_expr)
            .concat(")"),
        ProtoGenericCarrier::Payloads => "payloads_to_proto([".to_owned().concat(value_expr)
            .concat("])"),
    };
    with_lines(
        if optional_guard {
            vec!["if ".to_owned().concat(value_expr).concat(" is not None:")]
        } else { Vec::new() },
        vec![
            indent.clone().concat("message.").concat(proto_name).concat(".CopyFrom(")
                .concat(converted.as_str()).concat(")"),
        ],
    )
}

/// The lines that write a function field through its converter.
pub open spec fn function_write(
    proto_name: Seq<char>,
    value_expr: Seq<char>,
    converter: Seq<char>,
    resolved_type: ResolvedTypeView,
    optional_guard: bool,
) -> Seq<Seq<char>> {
    let indent = guard_indent_text(optional_guard);
    let converted = converter + "("@ + value_expr + ")"@;
    (
        if optional_guard {
            seq![("if "@ + value_expr + " is not None:"@)]
        } else { Seq::<Seq<char>>::empty() }
    ) + (match resolved_type.kind {
            ResolvedFieldKind::Message => seq![(indent + "message."@ + proto_name + ".CopyFrom("@ + converted + ")"@)],
            _ => seq![(indent + "message."@ + proto_name + " = "@ + converted)],
    })
}

/// The lines that write a function field through its converter.
pub fn function_field_write(
    proto_name: &str,
    value_expr: &str,
    converter: &str,
    resolved_type: &ResolvedFieldType,
    optional_guard: bool,
) -> (result: Vec<String>)
    ensures
        crate::text::texts(result@) == function_write(
            proto_name@,
            value_expr@,
            converter@,
            resolved_type@,
            optional_guard,
        ),
{
    let indent = guard_indent(optional_guard);
    let converted = converter.to_owned().concat("(").concat(value_expr).concat(")");
    with_lines(
        if optional_guard {
            vec!["if ".to_owned().concat(value_expr).concat(" is not None:")]
        } else {
            Vec::new()
        },
        match resolved_type.kind {
            ResolvedFieldKind::Message => vec![
                indent.clone().concat("message.").concat(proto_name).concat(".CopyFrom(")
                    .concat(converted.as_str()).concat(")"),
            ],
            _ => vec![
                indent.clone().concat("message.").concat(proto_name).concat(" = ")
                    .concat(converted.as_str()),
            ],
        },
    )
}

/// Whether the message tells an absent field from one with a default value.
pub open spec fn has_presence(field: PlannedRecordField) -> bool {
    match field.has_presence {
        Some(presence) => presence,
        None => !field.required,
    }
}

/// Whether the message tells an absent field from one with a default value.
pub fn field_has_proto_presence(field: &PlannedRecordField) -> (result: bool)
    ensures
        result == has_presence(*field),
{
    match field.has_presence {
        Some(presence) => presence,
        None => !field.required,
    }
}

/// The test that a field without presence holds no default value.
pub open spec fn present_test(
    field: PlannedRecordField,
    resolved_type: ResolvedTypeView,
    proto_name: Seq<char>,
) -> Option<Seq<char>> {
    match resolved_type.kind {
        ResolvedFieldKind::Enum => Some("value."@ + proto_name + " != 0"@),
        ResolvedFieldKind::Scalar => match crate::plan::bare_type(field.field_type) {
            PlannedType::Bool | PlannedType::String | PlannedType::Bytes => Some(
                "bool(value."@ + proto_name + ")"@,
            ),
            PlannedType::Int | PlannedType::Float => Some("value."@ + proto_name + " != 0"@),
            _ => None,
        },
        _ => None,
    }
}

/// The test that a field without presence holds no default value.
pub fn no_presence_default_value_present_expr(
    field: &PlannedRecordField,
    resolved_type: &ResolvedFieldType,
    proto_name: &str,
) -> (result: Option<String>)
    ensures
        crate::text::opt_text(result) == present_test(*field, resolved_type@, proto_name@),
{
    match resolved_type.kind {
        ResolvedFieldKind::Enum => Some("value.".to_owned().concat(proto_name).concat(" != 0")),
        ResolvedFieldKind::Scalar => match field.field_type.validation_type() {
            PlannedType::Bool | PlannedType::String | PlannedType::Bytes => Some(
                "bool(value.".to_owned().concat(proto_name).concat(")"),
            ),
            PlannedType::Int | PlannedType::Float => Some(
                "value.".to_owned().concat(proto_name).concat(" != 0"),
            ),
            _ => None,
        },
        _ => None,
    }
}

/// The expression that reads a field which may be missing.
pub open spec fn optional_read(
    field: PlannedRecordField,
    resolved_type: ResolvedTypeView,
    proto_name: Seq<char>,
    value_expr: Seq<char>,
) -> Seq<char> {
    if has_presence(field) {
        (value_expr + " if value.HasField(\""@ + proto_name + "\") else None"@)
    } else {
        match present_test(field, resolved_type, proto_name) {
            Some(present) => (value_expr + " if "@ + present + " else None"@),
            None => value_expr,
        }
    }
}

/// The expression that reads a field which may be missing.
pub fn optional_from_proto_expr(
    field: &PlannedRecordField,
    resolved_type: &ResolvedFieldType,
    proto_name: &str,
    value_expr: &str,
) -> (result: String)
    ensures
        result@ == optional_read(*field, resolved_type@, proto_name@, value_expr@),
{
    if field_has_proto_presence(field) {
        value_expr.to_owned().concat(" if value.HasField(\"").concat(proto_name)
            .concat("\") else None")
    } else {
        match no_presence_default_value_present_expr(field, resolved_type, proto_name) {
            Some(present) => value_expr.to_owned().concat(" if ").concat(present.as_str())
                .concat(" else None"),
            None => value_expr.to_owned(),
        }
    }
}

/// The expression that reads a field which has a default.
pub open spec fn defaulted_read(
    field: PlannedRecordField,
    proto_name: Seq<char>,
    value_expr: Seq<char>,
    default_expr: Seq<char>,
) -> Seq<char> {
    if has_presence(field) {
        (value_expr + " if value.HasField(\""@ + proto_name + "\") else "@ + default_expr)
    } else {
        value_expr
    }
}

/// The expression that reads a field which has a default.
pub fn defaulted_from_proto_expr(
    field: &PlannedRecordField,
    proto_name: &str,
    value_expr: &str,
    default_expr: &str,
) -> (result: String)
    ensures
        result@ == defaulted_read(*field, proto_name@, value_expr@, default_expr@),
{
    if field_has_proto_presence(field) {
        value_expr.to_owned().concat(" if value.HasField(\"").concat(proto_name).concat("\") else ")
            .concat(default_expr)
    } else {
        value_expr.to_owned()
    }
}

/// The model value of a message, from its wire expression.
pub open spec fn message_from_wire_text(
    resolved_type: ResolvedTypeView,
    expr: Seq<char>,
    type_arguments: Seq<TypeArgumentView>,
) -> Seq<char> {
    match resolved_type.wire_conversion {
        Some(conversion) => hinted_from_wire_text(
            conversion,
            expr,
            concrete_hint(resolved_type.annotation, type_arguments),
        ),
        None => expr,
    }
}

/// The model value of a message, from its wire expression.
pub fn message_from_wire(
    resolved_type: &ResolvedFieldType,
    expr: &str,
    type_arguments: &Vec<TypeArgument>,
) -> (result: String)
    requires
        resolved_type.wire_conversion is Some,
    ensures
        result@ == message_from_wire_text(resolved_type@, expr@, argument_views(type_arguments@)),
{
    match &resolved_type.wire_conversion {
        Some(conversion) => from_wire_expr_with_type_hint(
            conversion,
            expr,
            concrete_type_hint(resolved_type.annotation.as_str(), type_arguments).as_str(),
        ),
        None => expr.to_owned(),
    }
}

/// The message of a model value, from its expression.
pub open spec fn message_to_wire_text(
    resolved_type: ResolvedTypeView,
    expr: Seq<char>,
) -> Seq<char> {
    match resolved_type.wire_conversion {
        Some(conversion) => to_wire_text(conversion, expr),
        None => expr,
    }
}

/// The message of a model value, from its expression.
pub fn message_to_wire(resolved_type: &ResolvedFieldType, expr: &str) -> (result: String)
    requires
        resolved_type.wire_conversion is Some,
    ensures
        result@ == message_to_wire_text(resolved_type@, expr@),
{
    match &resolved_type.wire_conversion {
        Some(conversion) => to_wire_expr(conversion, expr),
        None => expr.to_owned(),
    }
}

/// The model value of an enum, from its wire expression.
pub open spec fn enum_from_proto(resolved_type: ResolvedTypeView, expr: Seq<char>) -> Seq<char> {
    match resolved_type.wire_conversion {
        Some(conversion) => from_wire_text(conversion, expr),
        None => resolved_type.annotation + "("@ + expr + ")"@,
    }
}

/// The model value of an enum, from its wire expression.
pub fn enum_from_proto_expr(resolved_type: &ResolvedFieldType, expr: &str) -> (result: String)
    ensures
        result@ == enum_from_proto(resolved_type@, expr@),
{
    match &resolved_type.wire_conversion {
        Some(conversion) => from_wire_expr(conversion, expr),
        None => resolved_type.annotation.as_str().to_owned().concat("(").concat(expr).concat(")"),
    }
}

/// The wire value of an enum, from its expression.
pub open spec fn enum_to_proto(resolved_type: ResolvedTypeView, expr: Seq<char>) -> Seq<char> {
    match resolved_type.wire_conversion {
        Some(conversion) => to_wire_text(conversion, expr),
        None => "int("@ + expr + ")"@,
    }
}

/// The wire value of an enum, from its expression.
pub fn enum_to_proto_expr(resolved_type: &ResolvedFieldType, expr: &str) -> (result: String)
    ensures
        result@ == enum_to_proto(resolved_type@, expr@),
{
    match &resolved_type.wire_conversion {
        Some(conversion) => to_wire_expr(conversion, expr),
        None => "int(".to_owned().concat(expr).concat(")"),
    }
}

/// The expression that reads a repeated field.
pub open spec fn repeated_from_proto(
    resolved_type: ResolvedTypeView,
    proto_name: Seq<char>,
    type_arguments: Seq<TypeArgumentView>,
) -> Seq<char> {
    match resolved_type.kind {
        ResolvedFieldKind::Message => "["@ + message_from_wire_text(resolved_type, "item"@, type_arguments)
            + " for item in value."@ + proto_name + "]"@,
        ResolvedFieldKind::Enum => "["@ + enum_from_proto(resolved_type, "item"@) + " for item in value."@ + proto_name
            + "]"@,
        _ => "list(value."@ + proto_name + ")"@,
    }
}

/// The expression that reads a repeated field.
pub fn repeated_from_proto_expr(
    resolved_type: &ResolvedFieldType,
    proto_name: &str,
    type_arguments: &Vec<TypeArgument>,
) -> (result: String)
    requires
        resolved_type.wf(),
    ensures
        result@ == repeated_from_proto(
            resolved_type@,
            proto_name@,
            argument_views(type_arguments@),
        ),
{
    match resolved_type.kind {
        ResolvedFieldKind::Message => "[".to_owned()
            .concat(message_from_wire(resolved_type, "item", type_arguments).as_str())
            .concat(" for item in value.").concat(proto_name).concat("]"),
        ResolvedFieldKind::Enum => "[".to_owned()
            .concat(enum_from_proto_expr(resolved_type, "item").as_str())
            .concat(" for item in value.").concat(proto_name).concat("]"),
        _ => "list(value.".to_owned().concat(proto_name).concat(")"),
    }
}

/// The expression that reads a map field.
pub open spec fn map_from_proto(
    map_value_type: ResolvedTypeView,
    proto_name: Seq<char>,
    type_arguments: Seq<TypeArgumentView>,
) -> Seq<char> {
    match map_value_type.kind {
        ResolvedFieldKind::Message => "{key: "@ + message_from_wire_text(map_value_type, "item"@, type_arguments)
            + " for key, item in value."@ + proto_name + ".items()}"@,
        ResolvedFieldKind::Enum => "{key: "@ + enum_from_proto(map_value_type, "item"@) + " for key, item in value."@
            + proto_name + ".items()}"@,
        _ => "{key: item for key, item in value."@ + proto_name + ".items()}"@,
    }
}

/// The expression that reads a map field.
pub fn map_value_from_proto_expr(
    map_value_type: &ResolvedFieldType,
    proto_name: &str,
    type_arguments: &Vec<TypeArgument>,
) -> (result: String)
    requires
        map_value_type.wf(),
    ensures
        result@ == map_from_proto(map_value_type@, proto_name@, argument_views(type_arguments@)),
{
    match map_value_type.kind {
        ResolvedFieldKind::Message => "{key: ".to_owned()
            .concat(message_from_wire(map_value_type, "item", type_arguments).as_str())
            .concat(" for key, item in value.").concat(proto_name).concat(".items()}"),
        ResolvedFieldKind::Enum => "{key: ".to_owned()
            .concat(enum_from_proto_expr(map_value_type, "item").as_str())
            .concat(" for key, item in value.").concat(proto_name).concat(".items()}"),
        _ => "{key: item for key, item in value.".to_owned().concat(proto_name).concat(".items()}"),
    }
}

/// The expression that reads a singular field.
pub open spec fn value_from_proto(
    resolved_type: ResolvedTypeView,
    proto_expr: Seq<char>,
    type_arguments: Seq<TypeArgumentView>,
) -> Seq<char> {
    match resolved_type.kind {
        ResolvedFieldKind::Message => message_from_wire_text(
            resolved_type,
            proto_expr,
            type_arguments,
        ),
        ResolvedFieldKind::Enum => enum_from_proto(resolved_type, proto_expr),
        _ => proto_expr,
    }
}

/// The expression that reads a singular field.
pub fn from_proto_value_expr(
    resolved_type: &ResolvedFieldType,
    proto_expr: &str,
    type_arguments: &Vec<TypeArgument>,
) -> (result: String)
    requires
        resolved_type.wf(),
    ensures
        result@ == value_from_proto(resolved_type@, proto_expr@, argument_views(type_arguments@)),
{
    match resolved_type.kind {
        ResolvedFieldKind::Message => message_from_wire(resolved_type, proto_expr, type_arguments),
        ResolvedFieldKind::Enum => enum_from_proto_expr(resolved_type, proto_expr),
        _ => proto_expr.to_owned(),
    }
}

/// The lines that write a repeated field.
pub open spec fn repeated_to_proto(
    resolved_type: ResolvedTypeView,
    value_expr: Seq<char>,
    proto_name: Seq<char>,
    optional_guard: bool,
) -> Seq<Seq<char>> {
    let indent = guard_indent_text(optional_guard);
    (
        if optional_guard { seq![("if "@ + value_expr + ":"@)] } else { Seq::<Seq<char>>::empty() }
    ) + (match resolved_type.kind {
            ResolvedFieldKind::Message => seq![
                (indent + "for value in "@ + value_expr + ":"@),
                (indent + "    item = message."@ + proto_name + ".add()"@),
                (
                    indent + "    item.CopyFrom("@ + message_to_wire_text(resolved_type, "value"@)
                        + ")"@
                )
            ],
            ResolvedFieldKind::Enum => seq![
                (
                    indent + "message."@ + proto_name + ".extend("@
                        + enum_to_proto(resolved_type, "value"@) + " for value in "@ + value_expr
                        + ")"@
                ),
            ],
            _ => seq![(indent + "message."@ + proto_name + ".extend("@ + value_expr + ")"@)],
    })
}

/// The lines that write a repeated field.
pub fn repeated_to_proto_lines(
    resolved_type: &ResolvedFieldType,
    value_expr: &str,
    proto_name: &str,
    optional_guard: bool,
) -> (result: Vec<String>)
    requires
        resolved_type.wf(),
    ensures
        crate::text::texts(result@) == repeated_to_proto(
            resolved_type@,
            value_expr@,
            proto_name@,
            optional_guard,
        ),
{
    let indent = guard_indent(optional_guard);
    with_lines(
        if optional_guard {
            vec!["if ".to_owned().concat(value_expr).concat(":")]
        } else {
            Vec::new()
        },
        match resolved_type.kind {
            ResolvedFieldKind::Message => vec![
                indent.clone().concat("for value in ").concat(value_expr).concat(":"),
                indent.clone().concat("    item = message.").concat(proto_name).concat(".add()"),
                indent.clone().concat("    item.CopyFrom(")
                    .concat(message_to_wire(resolved_type, "value").as_str()).concat(")"),
            ],
            ResolvedFieldKind::Enum => vec![
                indent.clone().concat("message.").concat(proto_name).concat(".extend(")
                    .concat(enum_to_proto_expr(resolved_type, "value").as_str())
                    .concat(" for value in ").concat(value_expr).concat(")"),
            ],
            _ => vec![
                indent.clone().concat("message.").concat(proto_name).concat(".extend(")
                    .concat(value_expr).concat(")"),
            ],
        },
    )
}

/// The lines that write a map field.
pub open spec fn map_to_proto(
    map_value_type: ResolvedTypeView,
    value_expr: Seq<char>,
    proto_name: Seq<char>,
    optional_guard: bool,
) -> Seq<Seq<char>> {
    let indent = guard_indent_text(optional_guard);
    (
        if optional_guard { seq![("if "@ + value_expr + ":"@)] } else { Seq::<Seq<char>>::empty() }
    ) + (match map_value_type.kind {
            ResolvedFieldKind::Message => seq![
                (indent + "for key, value in "@ + value_expr + ".items():"@),
                (
                    indent + "    message."@ + proto_name + "[key].CopyFrom("@
                        + message_to_wire_text(map_value_type, "value"@) + ")"@
                )
            ],
            ResolvedFieldKind::Enum => seq![
                (
                    indent + "message."@ + proto_name + ".update({key: "@
                        + enum_to_proto(map_value_type, "value"@) + " for key, value in "@
                        + value_expr + ".items()})"@
                ),
            ],
            _ => seq![(indent + "message."@ + proto_name + ".update("@ + value_expr + ")"@)],
    })
}

/// The lines that write a map field.
pub fn map_value_to_proto_lines(
    map_value_type: &ResolvedFieldType,
    value_expr: &str,
    proto_name: &str,
    optional_guard: bool,
) -> (result: Vec<String>)
    requires
        map_value_type.wf(),
    ensures
        crate::text::texts(result@) == map_to_proto(
            map_value_type@,
            value_expr@,
            proto_name@,
            optional_guard,
        ),
{
    let indent = guard_indent(optional_guard);
    with_lines(
        if optional_guard {
            vec!["if ".to_owned().concat(value_expr).concat(":")]
        } else {
            Vec::new()
        },
        match map_value_type.kind {
            ResolvedFieldKind::Message => vec![
                indent.clone().concat("for key, value in ").concat(value_expr).concat(".items():"),
                indent.clone().concat("    message.").concat(proto_name).concat("[key].CopyFrom(")
                    .concat(message_to_wire(map_value_type, "value").as_str()).concat(")"),
            ],
            ResolvedFieldKind::Enum => vec![
                indent.clone().concat("message.").concat(proto_name).concat(".update({key: ")
                    .concat(enum_to_proto_expr(map_value_type, "value").as_str())
                    .concat(" for key, value in ").concat(value_expr).concat(".items()})"),
            ],
            _ => vec![
                indent.clone().concat("message.").concat(proto_name).concat(".update(")
                    .concat(value_expr).concat(")"),
            ],
        },
    )
}

/// The lines that write a singular field.
pub open spec fn value_to_proto(
    resolved_type: ResolvedTypeView,
    value_expr: Seq<char>,
    proto_name: Seq<char>,
    optional_guard: bool,
) -> Seq<Seq<char>> {
    let indent = guard_indent_text(optional_guard);
    (
        if optional_guard {
            seq![("if "@ + value_expr + " is not None:"@)]
        } else { Seq::<Seq<char>>::empty() }
    ) + (match resolved_type.kind {
            ResolvedFieldKind::Message => seq![
                (
                    indent + "message."@ + proto_name + ".CopyFrom("@
                        + message_to_wire_text(resolved_type, value_expr) + ")"@
                ),
            ],
            ResolvedFieldKind::Enum => seq![
                (
                    indent + "message."@ + proto_name + " = "@
                        + enum_to_proto(resolved_type, value_expr)
                ),
            ],
            _ => seq![(indent + "message."@ + proto_name + " = "@ + value_expr)],
    })
}

/// The lines that write a singular field.
pub fn value_to_proto_lines(
    resolved_type: &ResolvedFieldType,
    value_expr: &str,
    proto_name: &str,
    optional_guard: bool,
) -> (result: Vec<String>)
    requires
        resolved_type.wf(),
    ensures
        crate::text::texts(result@) == value_to_proto(
            resolved_type@,
            value_expr@,
            proto_name@,
            optional_guard,
        ),
{
    let indent = guard_indent(optional_guard);
    with_lines(
        if optional_guard {
            vec!["if ".to_owned().concat(value_expr).concat(" is not None:")]
        } else {
            Vec::new()
        },
        match resolved_type.kind {
            ResolvedFieldKind::Message => vec![
                indent.clone().concat("message.").concat(proto_name).concat(".CopyFrom(")
                    .concat(message_to_wire(resolved_type, value_expr).as_str()).concat(")"),
            ],
            ResolvedFieldKind::Enum => vec![
                indent.clone().concat("message.").concat(proto_name).concat(" = ")
                    .concat(enum_to_proto_expr(resolved_type, value_expr).as_str()),
            ],
            _ => vec![
                indent.clone().concat("message.").concat(proto_name).concat(" = ")
                    .concat(value_expr),
            ],
        },
    )
}

/// The expression for the value of a field, as its message holds it.
pub open spec fn field_value_text(
    proto_name: Seq<char>,
    field: PlannedRecordField,
    resolved_value_type: ResolvedTypeView,
    generic_carrier: Option<ProtoGenericCarrier>,
    type_arguments: Seq<TypeArgumentView>,
) -> Seq<char> {
    let proto_expr = "value."@ + proto_name;
    match generic_carrier {
        Some(carrier) => carrier_from_proto(
            carrier,
            resolved_value_type,
            proto_expr,
            type_arguments,
        ),
        None => match field.field_type {
            PlannedType::Mapping(_, _) => map_from_proto(
                resolved_value_type,
                proto_name,
                type_arguments,
            ),
            PlannedType::List(_) => repeated_from_proto(
                resolved_value_type,
                proto_name,
                type_arguments,
            ),
            _ => value_from_proto(resolved_value_type, proto_expr, type_arguments),
        },
    }
}

/// The expression for the value of a field, as its message holds it.
pub fn field_value_expr(
    proto_name: &str,
    field: &PlannedRecordField,
    resolved_value_type: &ResolvedFieldType,
    generic_carrier: Option<ProtoGenericCarrier>,
    type_arguments: &Vec<TypeArgument>,
) -> (result: String)
    requires
        resolved_value_type.wf(),
    ensures
        result@ == field_value_text(
            proto_name@,
            *field,
            resolved_value_type@,
            generic_carrier,
            argument_views(type_arguments@),
        ),
{
    let proto_expr = "value.".to_owned().concat(proto_name);
    match generic_carrier {
        Some(carrier) => generic_carrier_from_proto_expr(
            carrier,
            resolved_value_type,
            proto_expr.as_str(),
            type_arguments,
        ),
        None => match &field.field_type {
            PlannedType::Mapping(_, _) => map_value_from_proto_expr(
                resolved_value_type,
                proto_name,
                type_arguments,
            ),
            PlannedType::List(_) => repeated_from_proto_expr(
                resolved_value_type,
                proto_name,
                type_arguments,
            ),
            _ => from_proto_value_expr(resolved_value_type, proto_expr.as_str(), type_arguments),
        },
    }
}

/// The lines that test a required field before it is read.
pub open spec fn required_test(
    proto_name: Seq<char>,
    field: PlannedRecordField,
    missing_error: Seq<char>,
) -> Seq<Seq<char>> {
    if has_presence(field) {
        seq![
            ("if not value.HasField(\""@ + proto_name + "\"):"@),
            ("    raise ValueError("@ + missing_error + ")"@),
        ]
    } else {
        match field.field_type {
            PlannedType::String | PlannedType::Bytes => seq![
                ("if not value."@ + proto_name + ":"@),
                ("    raise ValueError("@ + missing_error + ")"@),
            ],
            _ => Seq::<Seq<char>>::empty(),
        }
    }
}

/// The lines that test a required field before it is read.
pub fn required_test_lines(
    proto_name: &str,
    field: &PlannedRecordField,
    missing_error: &str,
) -> (result: Vec<String>)
    ensures
        crate::text::texts(result@) == required_test(proto_name@, *field, missing_error@),
{
    if field_has_proto_presence(field) {
        vec![
            "if not value.HasField(\"".to_owned().concat(proto_name).concat("\"):"),
            "    raise ValueError(".to_owned().concat(missing_error).concat(")"),
        ]
    } else {
        match &field.field_type {
            PlannedType::String | PlannedType::Bytes => vec![
                "if not value.".to_owned().concat(proto_name).concat(":"),
                "    raise ValueError(".to_owned().concat(missing_error).concat(")"),
            ],
            _ => Vec::new(),
        }
    }
}

/// How a field is read from its message.
pub open spec fn field_read_of(
    proto_name: Seq<char>,
    attr_name: Seq<char>,
    field: PlannedRecordField,
    resolved_value_type: ResolvedTypeView,
    generic_carrier: Option<ProtoGenericCarrier>,
    type_arguments: Seq<TypeArgumentView>,
    policy: ReadPolicyView,
) -> WireReadView {
    let value_expr = field_value_text(
        proto_name,
        field,
        resolved_value_type,
        generic_carrier,
        type_arguments,
    );
    match policy {
        ReadPolicyView::Required { missing_error } => read_of(
            required_test(
                proto_name,
                field,
                missing_error,
            ) + seq![(attr_name + " = "@ + value_expr)],
            attr_name,
        ),
        ReadPolicyView::Optional => read_of(
            Seq::<Seq<char>>::empty(),
            optional_read(field, resolved_value_type, proto_name, value_expr),
        ),
        ReadPolicyView::Default { default_expr } => read_of(
            Seq::<Seq<char>>::empty(),
            defaulted_read(field, proto_name, value_expr, default_expr),
        ),
    }
}

/// How a field is read from its message.
pub fn field_read(
    proto_name: &str,
    attr_name: &str,
    field: &PlannedRecordField,
    resolved_value_type: &ResolvedFieldType,
    generic_carrier: Option<ProtoGenericCarrier>,
    type_arguments: &Vec<TypeArgument>,
    policy: &WireReadPolicy,
) -> (result: RenderedWireRead)
    requires
        resolved_value_type.wf(),
    ensures
        result@ == field_read_of(
            proto_name@,
            attr_name@,
            *field,
            resolved_value_type@,
            generic_carrier,
            argument_views(type_arguments@),
            policy@,
        ),
{
    let value_expr = field_value_expr(
        proto_name,
        field,
        resolved_value_type,
        generic_carrier,
        type_arguments,
    );
    match policy {
        WireReadPolicy::Required { missing_error } => wire_read(
            with_lines(
                required_test_lines(proto_name, field, missing_error.as_str()),
                vec![attr_name.to_owned().concat(" = ").concat(value_expr.as_str())],
            ),
            attr_name.to_owned(),
        ),
        WireReadPolicy::Optional => wire_read(
            Vec::new(),
            optional_from_proto_expr(field, resolved_value_type, proto_name, value_expr.as_str()),
        ),
        WireReadPolicy::Default { default_expr } => wire_read(
            Vec::new(),
            defaulted_from_proto_expr(
                field,
                proto_name,
                value_expr.as_str(),
                default_expr.as_str(),
            ),
        ),
    }
}

/// The lines that write a field into its message.
pub open spec fn field_write_of(
    proto_name: Seq<char>,
    field: PlannedRecordField,
    value_expr: Seq<char>,
    resolved_value_type: ResolvedTypeView,
    generic_carrier: Option<ProtoGenericCarrier>,
    optional_guard: bool,
) -> Seq<Seq<char>> {
    match generic_carrier {
        Some(carrier) => carrier_to_proto(carrier, value_expr, proto_name, optional_guard),
        None => match field.field_type {
            PlannedType::Mapping(_, _) => map_to_proto(
                resolved_value_type,
                value_expr,
                proto_name,
                optional_guard,
            ),
            PlannedType::List(_) => repeated_to_proto(
                resolved_value_type,
                value_expr,
                proto_name,
                optional_guard,
            ),
            _ => value_to_proto(resolved_value_type, value_expr, proto_name, optional_guard),
        },
    }
}

/// The lines that write a field into its message.
pub fn field_write(
    proto_name: &str,
    field: &PlannedRecordField,
    value_expr: &str,
    resolved_value_type: &ResolvedFieldType,
    generic_carrier: Option<ProtoGenericCarrier>,
    optional_guard: bool,
) -> (result: Vec<String>)
    requires
        resolved_value_type.wf(),
    ensures
        crate::text::texts(result@) == field_write_of(
            proto_name@,
            *field,
            value_expr@,
            resolved_value_type@,
            generic_carrier,
            optional_guard,
        ),
{
    match generic_carrier {
        Some(carrier) => generic_carrier_to_proto_lines(
            carrier,
            value_expr,
            proto_name,
            optional_guard,
        ),
        None => match &field.field_type {
            PlannedType::Mapping(_, _) => map_value_to_proto_lines(
                resolved_value_type,
                value_expr,
                proto_name,
                optional_guard,
            ),
            PlannedType::List(_) => repeated_to_proto_lines(
                resolved_value_type,
                value_expr,
                proto_name,
                optional_guard,
            ),
            _ => value_to_proto_lines(resolved_value_type, value_expr, proto_name, optional_guard),
        },
    }
}

/// How a field that its message may lack is read.
pub open spec fn read_policy_of(
    model_name: Seq<char>,
    rendered_field: RenderedField,
) -> ReadPolicyView {
    match rendered_field.default_kind {
        PythonFieldDefaultKind::Required => ReadPolicyView::Required {
            missing_error: python_literal(
                "missing required field "@ + model_name + "."@ + rendered_field.attr_name@,
            ),
        },
        PythonFieldDefaultKind::Missing => ReadPolicyView::Optional,
        PythonFieldDefaultKind::EmptyDict => ReadPolicyView::Default { default_expr: "{}"@ },
        PythonFieldDefaultKind::EmptyList => ReadPolicyView::Default { default_expr: "[]"@ },
        PythonFieldDefaultKind::Expression(default_expr) => ReadPolicyView::Default {
            default_expr: default_expr@
        },
    }
}

/// How a field that its message may lack is read.
pub fn field_read_policy(
    model_name: &str,
    rendered_field: &RenderedField,
) -> (result: WireReadPolicy)
    ensures
        result@ == read_policy_of(model_name@, *rendered_field),
{
    match &rendered_field.default_kind {
        PythonFieldDefaultKind::Required => WireReadPolicy::Required {
            missing_error: python_string_literal(
                "missing required field ".to_owned().concat(model_name).concat(".")
                    .concat(rendered_field.attr_name.as_str()).as_str(),
            ),
        },
        PythonFieldDefaultKind::Missing => WireReadPolicy::Optional,
        PythonFieldDefaultKind::EmptyDict => WireReadPolicy::Default {
            default_expr: "{}".to_owned()
        },
        PythonFieldDefaultKind::EmptyList => WireReadPolicy::Default {
            default_expr: "[]".to_owned()
        },
        PythonFieldDefaultKind::Expression(default_expr) => WireReadPolicy::Default {
            default_expr: default_expr.clone()
        },
    }
}

/// The lines that read one case of a oneof.
pub open spec fn oneof_case_read_lines(
    cases: Seq<OneofCaseView>,
    local_var: Seq<char>,
    case_var: Seq<char>,
    type_arguments: Seq<TypeArgumentView>,
) -> Seq<Seq<char>>
    decreases cases.len(),
{
    if cases.len() == 0 {
        Seq::empty()
    } else {
        let case = cases.last();
        oneof_case_read_lines(cases.drop_last(), local_var, case_var, type_arguments) + (
            {
                let proto_expr = "value."@ + case.proto_name;
                let converted = match case.generic_carrier {
                    Some(carrier) => carrier_from_proto(
                        carrier,
                        case.payload_type,
                        proto_expr,
                        type_arguments,
                    ),
                    None => value_from_proto(case.payload_type, proto_expr, type_arguments),
                };
                seq![
                    ("elif "@ + case_var + " == "@ + python_literal(case.proto_name) + ":"@),
                    ("    "@ + local_var + " = "@ + case.class_name + "("@ + converted + ")"@)
                ]
            }
        )
    }
}

/// The lines that read one case of a oneof.
pub fn oneof_case_reads(
    cases: &Vec<ProtoOneofCase>,
    local_var: &str,
    case_var: &str,
    type_arguments: &Vec<TypeArgument>,
) -> (result: Vec<String>)
    requires
        forall|k: int| 0 <= k < cases@.len() ==> (#[trigger] cases@[k]).payload_type.wf(),
    ensures
        crate::text::texts(result@) == oneof_case_read_lines(
            case_views(cases@),
            local_var@,
            case_var@,
            argument_views(type_arguments@),
        ),
{
    broadcast use crate::text::group_texts;

    let mut result: Vec<String> = Vec::new();
    let mut i: usize = 0;
    while i < cases.len()
        invariant
            i <= cases.len(),
            forall|k: int| 0 <= k < cases@.len() ==> (#[trigger] cases@[k]).payload_type.wf(),
            crate::text::texts(result@) == oneof_case_read_lines(
                case_views(cases@).take(i as int),
                local_var@,
                case_var@,
                argument_views(type_arguments@),
            ),
        decreases cases.len() - i,
    {
        proof {
            assert(
                case_views(cases@).take(i + 1).drop_last() =~= case_views(cases@).take(i as int)
            );
            assert(case_views(cases@).take(i + 1).last() == case_views(cases@)[i as int]);
        }
        let case = &cases[i];
        let part = {
            let proto_expr = "value.".to_owned().concat(case.proto_name.as_str());
            let converted = match case.generic_carrier {
                Some(carrier) => generic_carrier_from_proto_expr(
                    carrier,
                    &case.payload_type,
                    proto_expr.as_str(),
                    type_arguments,
                ),
                None => from_proto_value_expr(
                    &case.payload_type,
                    proto_expr.as_str(),
                    type_arguments,
                ),
            };
            vec![
                "elif ".to_owned().concat(case_var).concat(" == ")
                    .concat(python_string_literal(case.proto_name.as_str()).as_str()).concat(":"),
                "    ".to_owned().concat(local_var).concat(" = ").concat(case.class_name.as_str())
                    .concat("(").concat(converted.as_str()).concat(")")
            ]
        };
        result = with_lines(result, part);
        i += 1;
    }
    proof {
        crate::text::lemma_take_all(case_views(cases@));
    }
    result
}

/// How a oneof is read from its message: the case that is set decides the class.
pub open spec fn oneof_read_of(
    model_name: Seq<char>,
    attr_name: Seq<char>,
    oneof: OneofView,
    type_arguments: Seq<TypeArgumentView>,
    required: bool,
) -> WireReadView {
    let local_var = "_oneof_"@ + attr_name;
    let case_var = local_var + "_case"@;
    let missing_error = python_literal(
        "missing required field "@ + model_name + "."@ + attr_name,
    );
    let missing = if required {
        "    raise ValueError("@ + missing_error + ")"@
    } else {
        "    "@ + local_var + " = None"@
    };
    read_of(
        (seq![
                (case_var + " = value.WhichOneof("@ + python_literal(oneof.name) + ")"@),
                ("if "@ + case_var + " is None:"@),
                missing
        ]) + oneof_case_read_lines(oneof.cases, local_var, case_var, type_arguments) + (seq![
                "else:"@,
                (
                    "    raise ValueError(f\"unknown protobuf oneof case "@ + model_name + "."@
                        + oneof.name + ": {"@ + case_var + "}\")"@
                )
        ]),
        local_var,
    )
}

/// How a oneof is read from its message: the case that is set decides the class.
pub fn oneof_field_read(
    model_name: &str,
    attr_name: &str,
    oneof: &ProtoOneof,
    type_arguments: &Vec<TypeArgument>,
    required: bool,
) -> (result: RenderedWireRead)
    requires
        forall|k: int| 0 <= k < oneof.cases@.len() ==> (
            #[trigger] oneof.cases@[k]
        ).payload_type.wf(),
    ensures
        result@ == oneof_read_of(
            model_name@,
            attr_name@,
            oneof@,
            argument_views(type_arguments@),
            required,
        ),
{
    let local_var = "_oneof_".to_owned().concat(attr_name);
    let case_var = local_var.clone().concat("_case");
    let missing_error = python_string_literal(
        "missing required field ".to_owned().concat(model_name).concat(".")
            .concat(attr_name).as_str(),
    );
    let missing = if required {
        "    raise ValueError(".to_owned().concat(missing_error.as_str()).concat(")")
    } else {
        "    ".to_owned().concat(local_var.as_str()).concat(" = None")
    };
    wire_read(
        with_lines(with_lines(vec![
                case_var.clone().concat(" = value.WhichOneof(")
                    .concat(python_string_literal(oneof.name.as_str()).as_str()).concat(")"),
                "if ".to_owned().concat(case_var.as_str()).concat(" is None:"),
                missing
            ], oneof_case_reads(&oneof.cases, local_var.as_str(), case_var.as_str(), type_arguments)), vec![
                "else:".to_owned(),
                "    raise ValueError(f\"unknown protobuf oneof case ".to_owned().concat(model_name)
                    .concat(".").concat(oneof.name.as_str()).concat(": {").concat(case_var.as_str())
                    .concat("}\")")
            ]),
        local_var,
    )
}

/// Each line behind `indent`.
pub open spec fn indented(lines: Seq<Seq<char>>, indent: Seq<char>) -> Seq<Seq<char>>
    decreases lines.len(),
{
    if lines.len() == 0 {
        Seq::empty()
    } else {
        let line = lines.last();
        indented(lines.drop_last(), indent) + (
            seq![(indent + line)]
        )
    }
}

/// Each line behind `indent`.
pub fn indented_lines(lines: &Vec<String>, indent: &str) -> (result: Vec<String>)
    ensures
        crate::text::texts(result@) == indented(crate::text::texts(lines@), indent@),
{
    broadcast use crate::text::group_texts;

    let mut result: Vec<String> = Vec::new();
    let mut i: usize = 0;
    while i < lines.len()
        invariant
            i <= lines.len(),
            crate::text::texts(result@) == indented(
                crate::text::texts(lines@).take(i as int),
                indent@,
            ),
        decreases lines.len() - i,
    {
        proof {
            assert(
                crate::text::texts(lines@).take(i + 1).drop_last()
                    =~= crate::text::texts(lines@).take(i as int)
            );
            assert(
                crate::text::texts(lines@).take(i + 1).last()
                    == crate::text::texts(lines@)[i as int]
            );
        }
        let line = lines[i].as_str();
        let part = vec![indent.to_owned().concat(line)];
        result = with_lines(result, part);
        i += 1;
    }
    proof {
        crate::text::lemma_take_all(crate::text::texts(lines@));
    }
    result
}

/// The lines that write one case of a oneof.
pub open spec fn oneof_case_write_lines(
    cases: Seq<OneofCaseView>,
    public_value_expr: Seq<char>,
    case_indent: Seq<char>,
) -> Seq<Seq<char>>
    decreases cases.len(),
{
    if cases.len() == 0 {
        Seq::empty()
    } else {
        let case = cases.last();
        let index = cases.len() - 1;
        oneof_case_write_lines(cases.drop_last(), public_value_expr, case_indent) + (
            {
                let keyword = if index == 0 { "if"@ } else { "elif"@ };
                let case_value_expr = public_value_expr + ".value"@;
                let case_lines = match case.generic_carrier {
                    Some(carrier) => carrier_to_proto(
                        carrier,
                        case_value_expr,
                        case.proto_name,
                        false,
                    ),
                    None => value_to_proto(
                        case.payload_type,
                        case_value_expr,
                        case.proto_name,
                        false,
                    ),
                };
                seq![
                    (
                        case_indent + keyword + " isinstance("@ + public_value_expr + ", "@
                            + case.class_name + "):"@
                    ),
                ]
                    + indented(
                    case_lines,
                    (case_indent + "    "@),
                )
            }
        )
    }
}

/// The lines that write one case of a oneof.
pub fn oneof_case_writes(
    cases: &Vec<ProtoOneofCase>,
    public_value_expr: &str,
    case_indent: &str,
) -> (result: Vec<String>)
    requires
        forall|k: int| 0 <= k < cases@.len() ==> (#[trigger] cases@[k]).payload_type.wf(),
    ensures
        crate::text::texts(result@) == oneof_case_write_lines(
            case_views(cases@),
            public_value_expr@,
            case_indent@,
        ),
{
    broadcast use crate::text::group_texts;

    let mut result: Vec<String> = Vec::new();
    let mut i: usize = 0;
    while i < cases.len()
        invariant
            i <= cases.len(),
            forall|k: int| 0 <= k < cases@.len() ==> (#[trigger] cases@[k]).payload_type.wf(),
            crate::text::texts(result@) == oneof_case_write_lines(
                case_views(cases@).take(i as int),
                public_value_expr@,
                case_indent@,
            ),
        decreases cases.len() - i,
    {
        proof {
            assert(
                case_views(cases@).take(i + 1).drop_last() =~= case_views(cases@).take(i as int)
            );
            assert(case_views(cases@).take(i + 1).last() == case_views(cases@)[i as int]);
        }
        let case = &cases[i];
        let index: usize = i;
        let part = {
            let keyword = if index == 0 { "if".to_owned() } else { "elif".to_owned() };
            let case_value_expr = public_value_expr.to_owned().concat(".value");
            let case_lines = match case.generic_carrier {
                Some(carrier) => generic_carrier_to_proto_lines(
                    carrier,
                    case_value_expr.as_str(),
                    case.proto_name.as_str(),
                    false,
                ),
                None => value_to_proto_lines(
                    &case.payload_type,
                    case_value_expr.as_str(),
                    case.proto_name.as_str(),
                    false,
                ),
            };
            with_lines(
                vec![
                    case_indent.to_owned().concat(keyword.as_str()).concat(" isinstance(")
                        .concat(public_value_expr).concat(", ").concat(case.class_name.as_str())
                        .concat("):"),
                ],
                indented_lines(&case_lines, case_indent.to_owned().concat("    ").as_str()),
            )
        };
        result = with_lines(result, part);
        i += 1;
    }
    proof {
        crate::text::lemma_take_all(case_views(cases@));
    }
    result
}

/// The lines that write a oneof into its message: the class of the value decides the case.
pub open spec fn oneof_write_of(
    model_name: Seq<char>,
    attr_name: Seq<char>,
    oneof: OneofView,
    value_expr: Seq<char>,
    required: bool,
    value_is_any: bool,
) -> Seq<Seq<char>> {
    let case_indent = if required { Seq::<char>::empty() } else { "    "@ };
    let missing_error = python_literal(
        "missing required field "@ + model_name + "."@ + attr_name,
    );
    let public_value_expr = "_oneof_"@ + crate::naming::snake(attr_name) + "_value"@;
    let public_value = if value_is_any {
        case_indent + public_value_expr + " = "@ + value_expr
    } else {
        case_indent + public_value_expr + " = typing.cast(typing.Any, "@ + value_expr + ")"@
    };
    (if required {
            seq![
                ("if "@ + value_expr + " is None:"@),
                ("    raise ValueError("@ + missing_error + ")"@)
            ]
        } else {
            seq![("if "@ + value_expr + " is not None:"@)]
    }) + seq![public_value] + oneof_case_write_lines(oneof.cases, public_value_expr, case_indent) + (seq![
            (case_indent + "else:"@),
            (
                case_indent + "    raise TypeError(f\"unsupported variant case "@ + model_name
                    + "."@ + oneof.name + ": {"@ + public_value_expr + "!r}\")"@
            )
    ])
}

/// The lines that write a oneof into its message: the class of the value decides the case.
pub fn oneof_field_write(
    model_name: &str,
    attr_name: &str,
    oneof: &ProtoOneof,
    value_expr: &str,
    required: bool,
    value_is_any: bool,
) -> (result: Vec<String>)
    requires
        forall|k: int| 0 <= k < oneof.cases@.len() ==> (
            #[trigger] oneof.cases@[k]
        ).payload_type.wf(),
    ensures
        crate::text::texts(result@) == oneof_write_of(
            model_name@,
            attr_name@,
            oneof@,
            value_expr@,
            required,
            value_is_any,
        ),
{
    let case_indent = if required { String::new() } else { "    ".to_owned() };
    let missing_error = python_string_literal(
        "missing required field ".to_owned().concat(model_name).concat(".")
            .concat(attr_name).as_str(),
    );
    let public_value_expr = "_oneof_".to_owned().concat(to_snake(attr_name).as_str())
        .concat("_value");
    let public_value = if value_is_any {
        case_indent.clone().concat(public_value_expr.as_str()).concat(" = ").concat(value_expr)
    } else {
        case_indent.clone().concat(public_value_expr.as_str()).concat(" = typing.cast(typing.Any, ")
            .concat(value_expr).concat(")")
    };
    with_lines(with_lines(with_lines(if required {
            vec![
                "if ".to_owned().concat(value_expr).concat(" is None:"),
                "    raise ValueError(".to_owned().concat(missing_error.as_str()).concat(")")
            ]
        } else {
            vec!["if ".to_owned().concat(value_expr).concat(" is not None:")]
        }, vec![public_value]), oneof_case_writes(&oneof.cases, public_value_expr.as_str(), case_indent.as_str())), vec![
            case_indent.clone().concat("else:"),
            case_indent.clone().concat("    raise TypeError(f\"unsupported variant case ")
                .concat(model_name).concat(".").concat(oneof.name.as_str()).concat(": {")
                .concat(public_value_expr.as_str()).concat("!r}\")")
        ])
}

/// The lines that write a field of a rendered model.
pub open spec fn rendered_field_write(
    model_name: Seq<char>,
    planned_field: PlannedRecordField,
    rendered_field: RenderedField,
    proto_field: ProtoFieldView,
    value_expr: Seq<char>,
    value_is_any: bool,
) -> Seq<Seq<char>> {
    match proto_field.oneof {
        Some(oneof) => oneof_write_of(
            model_name,
            rendered_field.attr_name@,
            oneof,
            value_expr,
            required_field(rendered_field),
            value_is_any,
        ),
        None => {
            let optional_guard = match rendered_field.default_kind {
                PythonFieldDefaultKind::Missing => true,
                PythonFieldDefaultKind::EmptyDict => true,
                PythonFieldDefaultKind::EmptyList => true,
                _ => false,
            };
            let is_collection = match planned_field.field_type {
                PlannedType::Mapping(_, _) => true,
                PlannedType::List(_) => true,
                _ => false,
            };
            match planned_field.function_converter {
                Some(converter) => if is_collection || planned_field.has_default {
                    field_write_of(
                        planned_field.name@,
                        planned_field,
                        value_expr,
                        rendered_field.wire_value_type@,
                        proto_field.generic_carrier,
                        optional_guard,
                    )
                } else {
                    function_write(
                        planned_field.name@,
                        value_expr,
                        converter@,
                        rendered_field.wire_value_type@,
                        optional_guard,
                    )
                },
                None => field_write_of(
                    planned_field.name@,
                    planned_field,
                    value_expr,
                    rendered_field.wire_value_type@,
                    proto_field.generic_carrier,
                    optional_guard,
                ),
            }
        },
    }
}

/// The lines that write a field of a rendered model.
pub fn field_write_for_rendered_field(
    model_name: &str,
    planned_field: &PlannedRecordField,
    rendered_field: &RenderedField,
    proto_field: &ProtoField,
    value_expr: &str,
    value_is_any: bool,
) -> (result: Vec<String>)
    requires
        rendered_field.wire_value_type.wf(),
        proto_field.wf(),
    ensures
        crate::text::texts(result@) == rendered_field_write(
            model_name@,
            *planned_field,
            *rendered_field,
            proto_field@,
            value_expr@,
            value_is_any,
        ),
{
    match &proto_field.oneof {
        Some(oneof) => oneof_field_write(
            model_name,
            rendered_field.attr_name.as_str(),
            oneof,
            value_expr,
            is_required(rendered_field),
            value_is_any,
        ),
        None => {
            let optional_guard = match &rendered_field.default_kind {
                PythonFieldDefaultKind::Missing => true,
                PythonFieldDefaultKind::EmptyDict => true,
                PythonFieldDefaultKind::EmptyList => true,
                _ => false,
            };
            let is_collection = match &planned_field.field_type {
                PlannedType::Mapping(_, _) => true,
                PlannedType::List(_) => true,
                _ => false,
            };
            match &planned_field.function_converter {
                Some(converter) => if is_collection || planned_field.has_default {
                    field_write(
                        planned_field.name.as_str(),
                        planned_field,
                        value_expr,
                        &rendered_field.wire_value_type,
                        proto_field.generic_carrier,
                        optional_guard,
                    )
                } else {
                    function_field_write(
                        planned_field.name.as_str(),
                        value_expr,
                        converter.as_str(),
                        &rendered_field.wire_value_type,
                        optional_guard,
                    )
                },
                None => field_write(
                    planned_field.name.as_str(),
                    planned_field,
                    value_expr,
                    &rendered_field.wire_value_type,
                    proto_field.generic_carrier,
                    optional_guard,
                ),
            }
        },
    }
}

impl ProtoField {
    /// The payloads of the oneof are well formed.
    pub open spec fn wf(&self) -> bool {
        self.oneof matches Some(oneof) ==> forall|k: int|
            0 <= k < oneof.cases@.len() ==> (#[trigger] oneof.cases@[k]).payload_type.wf()
    }
}

/// Whether a value of the field must be present.
pub open spec fn required_field(rendered_field: RenderedField) -> bool {
    match rendered_field.default_kind {
        PythonFieldDefaultKind::Required => true,
        _ => false,
    }
}

/// Whether a value of the field must be present.
pub fn is_required(rendered_field: &RenderedField) -> (result: bool)
    ensures
        result == required_field(*rendered_field),
{
    match &rendered_field.default_kind {
        PythonFieldDefaultKind::Required => true,
        _ => false,
    }
}

/// How a field of a rendered model is read.
pub open spec fn rendered_field_read(
    model_name: Seq<char>,
    planned_field: PlannedRecordField,
    rendered_field: RenderedField,
    proto_field: ProtoFieldView,
    type_arguments: Seq<TypeArgumentView>,
) -> WireReadView {
    match proto_field.oneof {
        Some(oneof) => oneof_read_of(
            model_name,
            rendered_field.attr_name@,
            oneof,
            type_arguments,
            required_field(rendered_field),
        ),
        None => field_read_of(
            planned_field.name@,
            rendered_field.attr_name@,
            planned_field,
            rendered_field.wire_value_type@,
            proto_field.generic_carrier,
            type_arguments,
            read_policy_of(model_name, rendered_field),
        ),
    }
}

/// How a field of a rendered model is read.
pub fn read_for_rendered_field(
    model_name: &str,
    planned_field: &PlannedRecordField,
    rendered_field: &RenderedField,
    proto_field: &ProtoField,
    type_arguments: &Vec<TypeArgument>,
) -> (result: RenderedWireRead)
    requires
        rendered_field.wire_value_type.wf(),
        proto_field.wf(),
    ensures
        result@ == rendered_field_read(
            model_name@,
            *planned_field,
            *rendered_field,
            proto_field@,
            argument_views(type_arguments@),
        ),
{
    match &proto_field.oneof {
        Some(oneof) => oneof_field_read(
            model_name,
            rendered_field.attr_name.as_str(),
            oneof,
            type_arguments,
            is_required(rendered_field),
        ),
        None => field_read(
            planned_field.name.as_str(),
            rendered_field.attr_name.as_str(),
            planned_field,
            &rendered_field.wire_value_type,
            proto_field.generic_carrier,
            type_arguments,
            &field_read_policy(model_name, rendered_field),
        ),
    }
}

/// The payload of a variant case: its planned type and its Python type.
#[derive(Debug)]
pub struct PlannedCasePayload {
    pub planned: PlannedType,
    pub resolved: ResolvedFieldType,
}

/// A case of a planned variant.
#[derive(Debug)]
pub struct PlannedVariantCase {
    pub name: String,
    pub wire_name: String,
    pub class_name: String,
    pub payload: Option<PlannedCasePayload>,
}

/// A planned variant.
#[derive(Debug)]
pub struct PlannedVariant {
    pub full_name: String,
    pub name: String,
    pub cases: Vec<PlannedVariantCase>,
}

impl PlannedVariant {
    /// The payloads of the cases are well formed.
    pub open spec fn wf(&self) -> bool {
        forall|k: int|
            0 <= k < self.cases@.len() ==> (
            (#[trigger] self.cases@[k]).payload matches Some(payload) ==> payload.resolved.wf())
    }
}

/// The index of the first variant with the name.
pub open spec fn variant_index(variants: Seq<PlannedVariant>, full_name: Seq<char>) -> Option<int>
    decreases variants.len(),
{
    if variants.len() == 0 {
        None
    } else {
        match variant_index(variants.drop_last(), full_name) {
            Some(i) => Some(i),
            None => if variants.last().full_name@ == full_name {
                Some(variants.len() - 1)
            } else {
                None
            },
        }
    }
}

/// The index of the first case with the wire name.
pub open spec fn case_index(cases: Seq<PlannedVariantCase>, wire_name: Seq<char>) -> Option<int>
    decreases cases.len(),
{
    if cases.len() == 0 {
        None
    } else {
        match case_index(cases.drop_last(), wire_name) {
            Some(i) => Some(i),
            None => if cases.last().wire_name@ == wire_name {
                Some(cases.len() - 1)
            } else {
                None
            },
        }
    }
}

fn find_variant(variants: &Vec<PlannedVariant>, full_name: &str) -> (index: Option<usize>)
    ensures
        match index {
            Some(i) => i < variants@.len() && variant_index(
                variants@,
                full_name@,
            ) == Some(i as int),
            None => variant_index(variants@, full_name@) is None,
        },
{
    let mut found: Option<usize> = None;
    let mut i: usize = 0;
    while i < variants.len()
        invariant
            i <= variants.len(),
            match found {
                Some(k) => k < i && variant_index(variants@.take(i as int), full_name@) == Some(
                    k as int,
                ),
                None => variant_index(variants@.take(i as int), full_name@) is None,
            },
        decreases variants.len() - i,
    {
        assert(variants@.take(i + 1).drop_last() =~= variants@.take(i as int));
        if found.is_none() && text_eq(variants[i].full_name.as_str(), full_name) {
            found = Some(i);
        }
        i += 1;
    }
    assert(variants@.take(i as int) =~= variants@);
    found
}

fn find_case(cases: &Vec<PlannedVariantCase>, wire_name: &str) -> (index: Option<usize>)
    ensures
        match index {
            Some(i) => i < cases@.len() && case_index(cases@, wire_name@) == Some(i as int),
            None => case_index(cases@, wire_name@) is None,
        },
{
    let mut found: Option<usize> = None;
    let mut i: usize = 0;
    while i < cases.len()
        invariant
            i <= cases.len(),
            match found {
                Some(k) => k < i && case_index(cases@.take(i as int), wire_name@) == Some(k as int),
                None => case_index(cases@.take(i as int), wire_name@) is None,
            },
        decreases cases.len() - i,
    {
        assert(cases@.take(i + 1).drop_last() =~= cases@.take(i as int));
        if found.is_none() && text_eq(cases[i].wire_name.as_str(), wire_name) {
            found = Some(i);
        }
        i += 1;
    }
    assert(cases@.take(i as int) =~= cases@);
    found
}

/// A field whose type cannot be used, with the reason.
pub open spec fn type_error(message: Seq<char>, field: Seq<char>, reason: Seq<char>) -> ErrorView {
    ErrorView::InvalidTypeOverrideField { message, field, property: "type"@, reason }
}

/// A field whose type cannot be used, with the reason.
fn invalid_type(message: &str, field: &str, reason: String) -> (error: Error)
    ensures
        error@ == type_error(message@, field@, reason@),
{
    Error::InvalidTypeOverrideField {
        message: message.to_owned(),
        field: field.to_owned(),
        property: "type".to_owned(),
        reason,
    }
}

/// The case that a oneof member stands for, or why it stands for none: the variant lacks it, or
/// it has no payload.
pub open spec fn member_outcome(
    message_name: Seq<char>,
    wire_name: Seq<char>,
    variant: PlannedVariant,
    member: PlannedWireVariantMember,
) -> Result<OneofCaseView, ErrorView> {
    match case_index(variant.cases@, member.wire_name@) {
        None => Err(
            type_error(
                message_name,
                wire_name,
                "planned variant `"@ + variant.name@ + "` is missing wire case `"@
                    + member.wire_name@ + "`"@,
            ),
        ),
        Some(i) => {
            let case = variant.cases@[i];
            match case.payload {
                None => Err(
                    type_error(
                        message_name,
                        wire_name,
                        "planned variant case `"@ + case.name@ + "` has no payload"@,
                    ),
                ),
                Some(payload) => Ok(
                    OneofCaseView {
                        class_name: case.class_name@,
                        proto_name: member.wire_name@,
                        payload_type: payload.resolved@,
                        generic_carrier: if crate::plan::bare_type(
                            payload.planned,
                        ) is TypeParameter {
                            generic_carrier_of(member.wire_type)
                        } else {
                            None
                        },
                    },
                ),
            }
        },
    }
}

/// The cases that the members of a oneof stand for, or the error of the first that stands for
/// none.
pub open spec fn members_outcome(
    message_name: Seq<char>,
    wire_name: Seq<char>,
    variant: PlannedVariant,
    members: Seq<PlannedWireVariantMember>,
) -> Result<Seq<OneofCaseView>, ErrorView>
    decreases members.len(),
{
    if members.len() == 0 {
        Ok(Seq::empty())
    } else {
        match members_outcome(message_name, wire_name, variant, members.drop_last()) {
            Err(error) => Err(error),
            Ok(cases) => match member_outcome(message_name, wire_name, variant, members.last()) {
                Err(error) => Err(error),
                Ok(case) => Ok(cases.push(case)),
            },
        }
    }
}

/// The oneof that a variant field is bound to, or why it cannot be: the field is no variant, the
/// variant is unknown, or a member stands for no case.
pub open spec fn oneof_outcome(
    variants: Seq<PlannedVariant>,
    message_name: Seq<char>,
    field: PlannedRecordField,
    wire_name: Seq<char>,
    members: Seq<PlannedWireVariantMember>,
) -> Result<OneofView, ErrorView> {
    match crate::plan::bare_type(field.field_type) {
        PlannedType::Variant(full_name) => match variant_index(variants, full_name@) {
            None => Err(
                type_error(
                    message_name,
                    wire_name,
                    "planned variant `"@ + full_name@ + "` is unavailable"@,
                ),
            ),
            Some(i) => match members_outcome(message_name, wire_name, variants[i], members) {
                Err(error) => Err(error),
                Ok(cases) => Ok(OneofView { name: wire_name, cases }),
            },
        },
        _ => Err(
            type_error(
                message_name,
                wire_name,
                "wire variant members do not resolve to a planned variant"@,
            ),
        ),
    }
}

fn build_case(
    message_name: &str,
    wire_name: &str,
    variant: &PlannedVariant,
    member: &PlannedWireVariantMember,
) -> (result: Result<ProtoOneofCase, Error>)
    requires
        variant.wf(),
    ensures
        match (result, member_outcome(message_name@, wire_name@, *variant, *member)) {
            (Ok(case), Ok(view)) => case@ == view && case.payload_type.wf(),
            (Err(error), Err(view)) => error@ == view,
            _ => false,
        },
{
    match find_case(&variant.cases, member.wire_name.as_str()) {
        None => Err(
            invalid_type(
                message_name,
                wire_name,
                "planned variant `".to_owned().concat(variant.name.as_str()).concat(
                    "` is missing wire case `",
                ).concat(member.wire_name.as_str()).concat("`"),
            ),
        ),
        Some(i) => {
            let case = &variant.cases[i];
            match &case.payload {
                None => Err(
                    invalid_type(
                        message_name,
                        wire_name,
                        "planned variant case `".to_owned().concat(case.name.as_str()).concat(
                            "` has no payload",
                        ),
                    ),
                ),
                Some(payload) => Ok(
                    ProtoOneofCase {
                        class_name: case.class_name.clone(),
                        proto_name: member.wire_name.clone(),
                        payload_type: payload.resolved.copied(),
                        generic_carrier: if payload.planned.is_type_parameter() {
                            proto_generic_carrier(&member.wire_type)
                        } else {
                            None
                        },
                    },
                ),
            }
        },
    }
}

/// The oneof that a variant field is bound to.
pub fn build_oneof(
    variants: &Vec<PlannedVariant>,
    message_name: &str,
    field: &PlannedRecordField,
    wire_name: &str,
    members: &Vec<PlannedWireVariantMember>,
) -> (result: Result<ProtoOneof, Error>)
    requires
        forall|k: int| 0 <= k < variants@.len() ==> (#[trigger] variants@[k]).wf(),
    ensures
        match (
            result,
            oneof_outcome(variants@, message_name@, *field, wire_name@, members@),
        ) {
            (Ok(oneof), Ok(view)) => oneof@ == view && forall|k: int|
                0 <= k < oneof.cases@.len() ==> (#[trigger] oneof.cases@[k]).payload_type.wf(),
            (Err(error), Err(view)) => error@ == view,
            _ => false,
        },
{
    match field.field_type.validation_type() {
        PlannedType::Variant(full_name) => {
            match find_variant(variants, full_name.as_str()) {
                None => Err(
                    invalid_type(
                        message_name,
                        wire_name,
                        "planned variant `".to_owned().concat(full_name.as_str()).concat(
                            "` is unavailable",
                        ),
                    ),
                ),
                Some(index) => {
                    let variant = &variants[index];
                    let mut cases: Vec<ProtoOneofCase> = Vec::new();
                    let mut i: usize = 0;
                    assert(case_views(cases@) =~= Seq::empty());
                    while i < members.len()
                        invariant
                            i <= members.len(),
                            variant.wf(),
                            crate::plan::bare_type(field.field_type) == PlannedType::Variant(
                                *full_name,
                            ),
                            variant_index(variants@, full_name@) == Some(index as int),
                            *variant == variants@[index as int],
                            members_outcome(
                                message_name@,
                                wire_name@,
                                *variant,
                                members@.take(i as int),
                            ) == Ok::<Seq<OneofCaseView>, ErrorView>(case_views(cases@)),
                            forall|k: int|
                                0 <= k < cases@.len() ==> (#[trigger] cases@[k]).payload_type.wf(),
                        decreases members.len() - i,
                    {
                        assert(members@.take(i + 1).drop_last() =~= members@.take(i as int));
                        let ghost before = cases@;
                        match build_case(message_name, wire_name, variant, &members[i]) {
                            Ok(case) => {
                                cases.push(case);
                                assert(case_views(cases@) =~= case_views(before).push(case@));
                            },
                            Err(error) => {
                                proof {
                                    lemma_members_error(
                                        message_name@,
                                        wire_name@,
                                        *variant,
                                        members@,
                                        i + 1,
                                    );
                                }
                                return Err(error);
                            },
                        }
                        i += 1;
                    }
                    assert(members@.take(i as int) =~= members@);
                    Ok(ProtoOneof { name: wire_name.to_owned(), cases })
                },
            }
        },
        _ => Err(
            invalid_type(
                message_name,
                wire_name,
                "wire variant members do not resolve to a planned variant".to_owned(),
            ),
        ),
    }
}

/// An error among the first members is the error of all of them.
proof fn lemma_members_error(
    message_name: Seq<char>,
    wire_name: Seq<char>,
    variant: PlannedVariant,
    members: Seq<PlannedWireVariantMember>,
    count: int,
)
    requires
        0 <= count <= members.len(),
        members_outcome(message_name, wire_name, variant, members.take(count)) is Err,
    ensures
        members_outcome(message_name, wire_name, variant, members) == members_outcome(
            message_name,
            wire_name,
            variant,
            members.take(count),
        ),
    decreases members.len() - count,
{
    if count < members.len() {
        assert(members.take(count + 1).drop_last() =~= members.take(count));
        lemma_members_error(message_name, wire_name, variant, members, count + 1);
    } else {
        assert(members.take(count) =~= members);
    }
}

/// What the protobuf binding tells of a field, or why it cannot be used.
pub open spec fn analysis_outcome(
    variants: Seq<PlannedVariant>,
    record: PlannedRecord,
    field: PlannedRecordField,
) -> Result<ProtoFieldView, ErrorView> {
    let generic_carrier = match field.wire_binding {
        Some(PlannedWireFieldBinding::Value { wire_type }) => if crate::plan::bare_type(
            field.field_type,
        ) is TypeParameter {
            generic_carrier_of(wire_type)
        } else {
            None
        },
        _ => None,
    };
    match (record.proto, field.wire_binding) {
        (Some(proto), Some(PlannedWireFieldBinding::VariantMembers { wire_name, members })) =>
        match oneof_outcome(variants, proto.full_name@, field, wire_name@, members@) {
            Err(error) => Err(error),
            Ok(oneof) => Ok(ProtoFieldView { oneof: Some(oneof), generic_carrier }),
        },
        _ => Ok(ProtoFieldView { oneof: None, generic_carrier }),
    }
}

/// What the protobuf binding tells of a field.
pub fn analyze_field(
    variants: &Vec<PlannedVariant>,
    record: &PlannedRecord,
    field: &PlannedRecordField,
) -> (result: Result<ProtoField, Error>)
    requires
        forall|k: int| 0 <= k < variants@.len() ==> (#[trigger] variants@[k]).wf(),
    ensures
        match (result, analysis_outcome(variants@, *record, *field)) {
            (Ok(analyzed), Ok(view)) => analyzed@ == view && analyzed.wf(),
            (Err(error), Err(view)) => error@ == view,
            _ => false,
        },
{
    let generic_carrier = match &field.wire_binding {
        Some(
            PlannedWireFieldBinding::Value { wire_type }
        ) => if field.field_type.is_type_parameter() {
            proto_generic_carrier(wire_type)
        } else {
            None
        },
        _ => None,
    };
    match (&record.proto, &field.wire_binding) {
        (Some(proto), Some(PlannedWireFieldBinding::VariantMembers { wire_name, members })) => {
            match build_oneof(
                variants,
                proto.full_name.as_str(),
                field,
                wire_name.as_str(),
                members,
            ) {
                Err(error) => Err(error),
                Ok(oneof) => Ok(ProtoField { oneof: Some(oneof), generic_carrier }),
            }
        },
        _ => Ok(ProtoField { oneof: None, generic_carrier }),
    }
}

/// The variable for the type that a parameter stands for, before numbers make it unique.
pub open spec fn type_variable_base_text(parameter: Seq<char>) -> Seq<char> {
    let stem = match crate::text::without_suffix(parameter, "T"@) {
        Some(stem) => if stem.len() == 0 { parameter } else { stem },
        None => parameter,
    };
    (crate::naming::snake(stem) + "_type"@)
}

/// The variable for the type that a parameter stands for, before numbers make it unique.
pub fn type_variable_base(parameter: &str) -> (result: String)
    ensures
        result@ == type_variable_base_text(parameter@),
{
    let stem = match strip_suffix(parameter, "T") {
        Some(stem) => if stem.as_str().is_empty() { parameter.to_owned() } else { stem },
        None => parameter.to_owned(),
    };
    to_snake(stem.as_str()).concat("_type")
}

/// The attribute names of the fields.
pub open spec fn attribute_names(fields: Seq<RenderedField>) -> Seq<Seq<char>> {
    fields.map_values(|field: RenderedField| field.attr_name@)
}

/// The variables of a list of type arguments.
pub open spec fn argument_names(arguments: Seq<TypeArgumentView>) -> Seq<Seq<char>> {
    arguments.map_values(|argument: TypeArgumentView| argument.argument)
}

/// A variable for the type of each parameter, in order. Each is named after its parameter, with
/// the first number that sets it apart from the fields and from the variables before it.
pub open spec fn type_arguments_of(
    parameters: Seq<Seq<char>>,
    attributes: Seq<Seq<char>>,
) -> Seq<TypeArgumentView>
    decreases parameters.len(),
{
    if parameters.len() == 0 {
        Seq::empty()
    } else {
        let before = type_arguments_of(parameters.drop_last(), attributes);
        let parameter = parameters.last();
        before.push(
            TypeArgumentView {
                parameter,
                argument: crate::unique::free_name(
                    type_variable_base_text(parameter),
                    "_"@,
                    argument_names(before) + attributes,
                ),
            },
        )
    }
}

/// A variable for the type of each parameter of the model.
pub fn runtime_type_arguments(model: &RenderedModel) -> (arguments: Vec<TypeArgument>)
    ensures
        argument_views(arguments@) == type_arguments_of(
            crate::text::texts(model.type_parameters@),
            attribute_names(model.fields@),
        ),
{
    broadcast use crate::text::group_texts;

    let ghost parameters = crate::text::texts(model.type_parameters@);
    let ghost attributes = attribute_names(model.fields@);
    let mut arguments: Vec<TypeArgument> = Vec::new();
    let mut i: usize = 0;
    assert(argument_views(arguments@) =~= Seq::empty());
    while i < model.type_parameters.len()
        invariant
            i <= model.type_parameters.len(),
            parameters == crate::text::texts(model.type_parameters@),
            attributes == attribute_names(model.fields@),
            argument_views(arguments@) == type_arguments_of(parameters.take(i as int), attributes),
        decreases model.type_parameters.len() - i,
    {
        let taken = taken_names(&arguments, &model.fields);
        let parameter = &model.type_parameters[i];
        let base = type_variable_base(parameter.as_str());
        let argument = crate::unique::first_free_name(base.as_str(), "_", &taken);
        let ghost before = arguments@;
        arguments.push(TypeArgument { parameter: parameter.clone(), argument });
        proof {
            assert(parameters.take(i + 1).drop_last() =~= parameters.take(i as int));
            assert(argument_views(arguments@) =~= argument_views(before).push(arguments@.last()@));
        }
        i += 1;
    }
    assert(parameters.take(i as int) =~= parameters);
    arguments
}

/// The names that a new type variable must differ from.
fn taken_names(arguments: &Vec<TypeArgument>, fields: &Vec<RenderedField>) -> (taken: Vec<String>)
    ensures
        crate::text::texts(taken@) == argument_names(
            argument_views(arguments@),
        ) + attribute_names(fields@),
{
    broadcast use crate::text::group_texts;

    let ghost names = argument_names(argument_views(arguments@));
    let ghost attributes = attribute_names(fields@);
    let mut taken: Vec<String> = Vec::new();
    let mut i: usize = 0;
    assert(crate::text::texts(taken@) =~= names.take(0));
    while i < arguments.len()
        invariant
            i <= arguments.len(),
            names == argument_names(argument_views(arguments@)),
            crate::text::texts(taken@) == names.take(i as int),
        decreases arguments.len() - i,
    {
        taken.push(arguments[i].argument.clone());
        assert(names.take(i + 1) =~= names.take(i as int).push(names[i as int]));
        i += 1;
    }
    assert(names.take(i as int) =~= names);
    let mut j: usize = 0;
    assert(crate::text::texts(taken@) =~= names + attributes.take(0));
    while j < fields.len()
        invariant
            j <= fields.len(),
            attributes == attribute_names(fields@),
            crate::text::texts(taken@) == names + attributes.take(j as int),
        decreases fields.len() - j,
    {
        let ghost before = crate::text::texts(taken@);
        taken.push(fields[j].attr_name.clone());
        assert(crate::text::texts(taken@) == before.push(attributes[j as int]));
        assert(attributes.take(j + 1) =~= attributes.take(j as int).push(attributes[j as int]));
        assert(crate::text::texts(taken@) =~= names + attributes.take(j + 1));
        j += 1;
    }
    assert(attributes.take(j as int) =~= attributes);
    taken
}

/// The variables of the type arguments are set apart from each other and from the fields.
pub proof fn law_type_variables_distinct(parameters: Seq<Seq<char>>, attributes: Seq<Seq<char>>)
    ensures
        type_arguments_of(parameters, attributes).len() == parameters.len(),
        forall|i: int, j: int|
            0 <= i < j < parameters.len() ==> (#[trigger] type_arguments_of(
                parameters,
                attributes,
            )[i]).argument != (#[trigger] type_arguments_of(parameters, attributes)[j]).argument,
        forall|i: int|
            0 <= i < parameters.len() ==> !attributes.contains(
                (#[trigger] type_arguments_of(parameters, attributes)[i]).argument,
            ),
    decreases parameters.len(),
{
    if parameters.len() > 0 {
        law_type_variables_distinct(parameters.drop_last(), attributes);
        let before = type_arguments_of(parameters.drop_last(), attributes);
        let all = type_arguments_of(parameters, attributes);
        let names = argument_names(before);
        let taken = names + attributes;
        crate::unique::law_free_name_is_free(
            type_variable_base_text(parameters.last()),
            "_"@,
            taken,
        );
        let n = parameters.len() - 1;
        assert forall|i: int, j: int| 0 <= i < j < parameters.len() implies (
        #[trigger] all[i]).argument != (#[trigger] all[j]).argument by {
            assert(all[i] == before[i]);
            if j == n {
                assert(taken[i] == names[i]);
                assert(names[i] == before[i].argument);
            } else {
                assert(all[j] == before[j]);
            }
        }
        assert forall|i: int| 0 <= i < parameters.len() implies !attributes.contains(
            (#[trigger] all[i]).argument,
        ) by {
            if i == n {
                if attributes.contains(all[i].argument) {
                    let k = choose|k: int| 0 <= k < attributes.len()
                        && attributes[k] == all[i].argument;
                    assert(taken[names.len() + k] == all[i].argument);
                }
            } else {
                assert(all[i] == before[i]);
            }
        }
    }
}

/// Whether the field is left out of the model.
pub open spec fn omitted(field: PlannedRecordField) -> bool {
    match field.visibility {
        RecordFieldVisibility::Omitted => true,
        _ => false,
    }
}

/// Whether the field is left out of the model.
pub fn is_omitted(field: &PlannedRecordField) -> (result: bool)
    ensures
        result == omitted(*field),
{
    match &field.visibility {
        RecordFieldVisibility::Omitted => true,
        _ => false,
    }
}

/// The number of fields that are not left out.
pub open spec fn visible_count(fields: Seq<PlannedRecordField>) -> nat
    decreases fields.len(),
{
    if fields.len() == 0 {
        0
    } else if omitted(fields.last()) {
        visible_count(fields.drop_last())
    } else {
        visible_count(fields.drop_last()) + 1
    }
}

/// What the protobuf bindings tell of the fields that are not left out, or the error of the
/// first that cannot be used.
pub open spec fn analyses_outcome(
    variants: Seq<PlannedVariant>,
    record: PlannedRecord,
    fields: Seq<PlannedRecordField>,
) -> Result<Seq<ProtoFieldView>, ErrorView>
    decreases fields.len(),
{
    if fields.len() == 0 {
        Ok(Seq::empty())
    } else {
        match analyses_outcome(variants, record, fields.drop_last()) {
            Err(error) => Err(error),
            Ok(before) => if omitted(fields.last()) {
                Ok(before)
            } else {
                match analysis_outcome(variants, record, fields.last()) {
                    Err(error) => Err(error),
                    Ok(field) => Ok(before.push(field)),
                }
            },
        }
    }
}

/// The views of a list of analyzed fields.
pub open spec fn proto_field_views(fields: Seq<ProtoField>) -> Seq<ProtoFieldView> {
    fields.map_values(|field: ProtoField| field@)
}

proof fn lemma_analyses_error(
    variants: Seq<PlannedVariant>,
    record: PlannedRecord,
    fields: Seq<PlannedRecordField>,
    count: int,
)
    requires
        0 <= count <= fields.len(),
        analyses_outcome(variants, record, fields.take(count)) is Err,
    ensures
        analyses_outcome(variants, record, fields) == analyses_outcome(
            variants,
            record,
            fields.take(count),
        ),
    decreases fields.len() - count,
{
    if count < fields.len() {
        assert(fields.take(count + 1).drop_last() =~= fields.take(count));
        lemma_analyses_error(variants, record, fields, count + 1);
    } else {
        assert(fields.take(count) =~= fields);
    }
}

/// What the protobuf bindings tell of the fields that are not left out.
fn analyze_fields(variants: &Vec<PlannedVariant>, record: &PlannedRecord) -> (result: Result<
    Vec<ProtoField>,
    Error,
>)
    requires
        forall|k: int| 0 <= k < variants@.len() ==> (#[trigger] variants@[k]).wf(),
    ensures
        match (result, analyses_outcome(variants@, *record, record.fields@)) {
            (Ok(fields), Ok(views)) => proto_field_views(fields@) == views && forall|k: int|
                0 <= k < fields@.len() ==> (#[trigger] fields@[k]).wf(),
            (Err(error), Err(view)) => error@ == view,
            _ => false,
        },
{
    let mut fields: Vec<ProtoField> = Vec::new();
    let mut i: usize = 0;
    assert(proto_field_views(fields@) =~= Seq::empty());
    while i < record.fields.len()
        invariant
            i <= record.fields.len(),
            forall|k: int| 0 <= k < variants@.len() ==> (#[trigger] variants@[k]).wf(),
            analyses_outcome(variants@, *record, record.fields@.take(i as int)) == Ok::<
                Seq<ProtoFieldView>,
                ErrorView,
            >(proto_field_views(fields@)),
            forall|k: int| 0 <= k < fields@.len() ==> (#[trigger] fields@[k]).wf(),
        decreases record.fields.len() - i,
    {
        assert(record.fields@.take(i + 1).drop_last() =~= record.fields@.take(i as int));
        let ghost before = fields@;
        if !is_omitted(&record.fields[i]) {
            match analyze_field(variants, record, &record.fields[i]) {
                Ok(field) => {
                    fields.push(field);
                    assert(proto_field_views(fields@) =~= proto_field_views(before).push(field@));
                },
                Err(error) => {
                    proof {
                        lemma_analyses_error(variants@, *record, record.fields@, i + 1);
                    }
                    return Err(error);
                },
            }
        }
        i += 1;
    }
    assert(record.fields@.take(i as int) =~= record.fields@);
    Ok(fields)
}

/// How one field of a model passes the wire.
#[derive(Debug, Clone)]
pub struct FieldWire {
    pub attr_name: String,
    pub read: RenderedWireRead,
    pub write: Vec<String>,
}

/// A [`FieldWire`] by the views of its texts.
#[verifier::ext_equal]
pub struct FieldWireView {
    pub attr_name: Seq<char>,
    pub read: WireReadView,
    pub write: Seq<Seq<char>>,
}

impl View for FieldWire {
    type V = FieldWireView;

    open spec fn view(&self) -> FieldWireView {
        FieldWireView {
            attr_name: self.attr_name@,
            read: self.read@,
            write: crate::text::texts(self.write@),
        }
    }
}

/// The views of a list of field wires.
pub open spec fn wire_views(wires: Seq<FieldWire>) -> Seq<FieldWireView> {
    wires.map_values(|wire: FieldWire| wire@)
}

/// How one field passes the wire: how it is read, and the lines that write it.
pub open spec fn field_wire_of(
    model_name: Seq<char>,
    planned: PlannedRecordField,
    rendered: RenderedField,
    proto: ProtoFieldView,
    arguments: Seq<TypeArgumentView>,
    generic_oneof: bool,
) -> FieldWireView {
    FieldWireView {
        attr_name: rendered.attr_name@,
        read: rendered_field_read(model_name, planned, rendered, proto, arguments),
        write: rendered_field_write(
            model_name,
            planned,
            rendered,
            proto,
            field_expr_text(generic_oneof, rendered.attr_name@),
            generic_oneof,
        ),
    }
}

/// The expression for the value of a field of the model.
pub open spec fn field_expr_text(generic_oneof: bool, attr_name: Seq<char>) -> Seq<char> {
    if generic_oneof { "runtime_value."@ + attr_name } else { "value."@ + attr_name }
}

/// The expression for the value of a field of the model.
pub fn field_expr(generic_oneof: bool, attr_name: &str) -> (result: String)
    ensures
        result@ == field_expr_text(generic_oneof, attr_name@),
{
    if generic_oneof {
        "runtime_value.".to_owned().concat(attr_name)
    } else { "value.".to_owned().concat(attr_name) }
}

/// How the fields pass the wire: the planned fields that are not left out, each with the
/// rendered field and the analysis at its place.
pub open spec fn field_wires_of(
    model: RenderedModel,
    fields: Seq<PlannedRecordField>,
    protos: Seq<ProtoFieldView>,
    arguments: Seq<TypeArgumentView>,
    generic_oneof: bool,
) -> Seq<FieldWireView>
    decreases fields.len(),
{
    if fields.len() == 0 {
        Seq::empty()
    } else {
        let before = field_wires_of(model, fields.drop_last(), protos, arguments, generic_oneof);
        let k = visible_count(fields.drop_last());
        if omitted(fields.last()) || k >= model.fields@.len() || k >= protos.len() {
            before
        } else {
            before.push(
                field_wire_of(
                    model.name@,
                    fields.last(),
                    model.fields@[k as int],
                    protos[k as int],
                    arguments,
                    generic_oneof,
                ),
            )
        }
    }
}

fn field_wires(
    model: &RenderedModel,
    fields: &Vec<PlannedRecordField>,
    protos: &Vec<ProtoField>,
    arguments: &Vec<TypeArgument>,
    generic_oneof: bool,
) -> (wires: Vec<FieldWire>)
    requires
        forall|k: int|
            0 <= k < model.fields@.len() ==> (#[trigger] model.fields@[k]).wire_value_type.wf(),
        forall|k: int| 0 <= k < protos@.len() ==> (#[trigger] protos@[k]).wf(),
    ensures
        wire_views(wires@) == field_wires_of(
            *model,
            fields@,
            proto_field_views(protos@),
            argument_views(arguments@),
            generic_oneof,
        ),
{
    let ghost views = proto_field_views(protos@);
    let ghost argument_view = argument_views(arguments@);
    let mut wires: Vec<FieldWire> = Vec::new();
    let mut visible: usize = 0;
    let mut i: usize = 0;
    assert(wire_views(wires@) =~= Seq::empty());
    while i < fields.len()
        invariant
            i <= fields.len(),
            visible <= i,
            visible == visible_count(fields@.take(i as int)),
            views == proto_field_views(protos@),
            argument_view == argument_views(arguments@),
            forall|k: int|
                0 <= k < model.fields@.len() ==> (#[trigger] model.fields@[k]).wire_value_type.wf(),
            forall|k: int| 0 <= k < protos@.len() ==> (#[trigger] protos@[k]).wf(),
            wire_views(wires@) == field_wires_of(
                *model,
                fields@.take(i as int),
                views,
                argument_view,
                generic_oneof,
            ),
        decreases fields.len() - i,
    {
        assert(fields@.take(i + 1).drop_last() =~= fields@.take(i as int));
        let planned = &fields[i];
        if !is_omitted(planned) {
            if visible < model.fields.len() && visible < protos.len() {
                let ghost before = wires@;
                let rendered = &model.fields[visible];
                let proto = &protos[visible];
                let expr = field_expr(generic_oneof, rendered.attr_name.as_str());
                let wire = FieldWire {
                    attr_name: rendered.attr_name.clone(),
                    read: read_for_rendered_field(
                        model.name.as_str(),
                        planned,
                        rendered,
                        proto,
                        arguments,
                    ),
                    write: field_write_for_rendered_field(
                        model.name.as_str(),
                        planned,
                        rendered,
                        proto,
                        expr.as_str(),
                        generic_oneof,
                    ),
                };
                wires.push(wire);
                proof {
                    assert(views[visible as int] == proto@);
                    assert(wire_views(wires@) =~= wire_views(before).push(wire@));
                }
            }
            visible += 1;
        }
        i += 1;
    }
    assert(fields@.take(i as int) =~= fields@);
    wires
}

/// `typing.Any`, so many times, with commas between.
pub open spec fn any_list(count: nat) -> Seq<char> {
    crate::text::join(Seq::new(count, |i: int| "typing.Any"@), ", "@)
}

fn any_arguments(count: usize) -> (list: String)
    ensures
        list@ == any_list(count as nat),
{
    let mut parts: Vec<String> = Vec::new();
    let mut i: usize = 0;
    while i < count
        invariant
            i <= count,
            crate::text::texts(parts@) =~= Seq::new(i as nat, |k: int| "typing.Any"@),
        decreases count - i,
    {
        let ghost before = parts@;
        parts.push("typing.Any".to_owned());
        assert(crate::text::texts(parts@) =~= crate::text::texts(before).push("typing.Any"@));
        i += 1;
    }
    assert(crate::text::texts(parts@) =~= Seq::new(count as nat, |k: int| "typing.Any"@));
    crate::text::join_texts(&parts, ", ")
}

fn argument_list(arguments: &Vec<TypeArgument>) -> (list: String)
    ensures
        list@ == argument_list_text(argument_views(arguments@)),
{
    let no_fields: Vec<RenderedField> = Vec::new();
    let names = taken_names(arguments, &no_fields);
    assert(crate::text::texts(names@) =~= argument_names(argument_views(arguments@)));
    crate::text::join_texts(&names, ", ")
}

/// The variables of the type arguments, with commas between.
pub open spec fn argument_list_text(arguments: Seq<TypeArgumentView>) -> Seq<char> {
    crate::text::join(argument_names(arguments), ", "@)
}

/// The annotation of the model in its converter, with any type for its parameters.
pub open spec fn model_annotation(model: RenderedModel) -> Seq<char> {
    if model.type_parameters@.len() == 0 {
        "\""@ + model.name@ + "\""@
    } else {
        "\""@ + model.name@ + "["@ + any_list(model.type_parameters@.len()) + "]\""@
    }
}

/// The annotation of the model in its converter, with any type for its parameters.
pub fn converter_model_annotation(model: &RenderedModel) -> (result: String)
    ensures
        result@ == model_annotation(*model),
{
    if model.type_parameters.len() == 0 {
        "\"".to_owned().concat(model.name.as_str()).concat("\"")
    } else {
        "\"".to_owned().concat(model.name.as_str()).concat("[")
            .concat(any_arguments(model.type_parameters.len()).as_str()).concat("]\"")
    }
}

/// Each line behind `indent` and before a line feed.
pub open spec fn indented_text(lines: Seq<Seq<char>>, indent: Seq<char>) -> Seq<char>
    decreases lines.len(),
{
    if lines.len() == 0 {
        Seq::empty()
    } else {
        let line = lines.last();
        indented_text(lines.drop_last(), indent) + (
            (indent + line + "\n"@)
        )
    }
}

/// Each line behind `indent` and before a line feed.
pub fn indented_block(lines: &Vec<String>, indent: &str) -> (result: String)
    ensures
        result@ == indented_text(crate::text::texts(lines@), indent@),
{
    let mut result: String = String::new();
    let mut i: usize = 0;
    while i < lines.len()
        invariant
            i <= lines.len(),
            result@ == indented_text(crate::text::texts(lines@).take(i as int), indent@),
        decreases lines.len() - i,
    {
        proof {
            assert(
                crate::text::texts(lines@).take(i + 1).drop_last()
                    =~= crate::text::texts(lines@).take(i as int)
            );
            assert(
                crate::text::texts(lines@).take(i + 1).last()
                    == crate::text::texts(lines@)[i as int]
            );
        }
        let line = lines[i].as_str();
        let part = indent.to_owned().concat(line).concat("\n");
        result.append(part.as_str());
        i += 1;
    }
    proof {
        crate::text::lemma_take_all(crate::text::texts(lines@));
    }
    result
}

/// The lines that prepare the fields.
pub open spec fn setup_text(wires: Seq<FieldWireView>) -> Seq<char>
    decreases wires.len(),
{
    if wires.len() == 0 {
        Seq::empty()
    } else {
        let wire = wires.last();
        setup_text(wires.drop_last()) + (
            indented_text(wire.read.setup_lines, "        "@)
        )
    }
}

/// The lines that prepare the fields.
pub fn setup_block(wires: &Vec<FieldWire>) -> (result: String)
    ensures
        result@ == setup_text(wire_views(wires@)),
{
    let mut result: String = String::new();
    let mut i: usize = 0;
    while i < wires.len()
        invariant
            i <= wires.len(),
            result@ == setup_text(wire_views(wires@).take(i as int)),
        decreases wires.len() - i,
    {
        proof {
            assert(
                wire_views(wires@).take(i + 1).drop_last() =~= wire_views(wires@).take(i as int)
            );
            assert(wire_views(wires@).take(i + 1).last() == wire_views(wires@)[i as int]);
        }
        let wire = &wires[i];
        let part = indented_block(&wire.read.setup_lines, "        ");
        result.append(part.as_str());
        i += 1;
    }
    proof {
        crate::text::lemma_take_all(wire_views(wires@));
    }
    result
}

/// The fields as arguments of the model's class.
pub open spec fn argument_text(wires: Seq<FieldWireView>) -> Seq<char>
    decreases wires.len(),
{
    if wires.len() == 0 {
        Seq::empty()
    } else {
        let wire = wires.last();
        argument_text(wires.drop_last()) + (
            ("            "@ + wire.attr_name + "="@ + wire.read.expr + ",\n"@)
        )
    }
}

/// The fields as arguments of the model's class.
pub fn argument_block(wires: &Vec<FieldWire>) -> (result: String)
    ensures
        result@ == argument_text(wire_views(wires@)),
{
    let mut result: String = String::new();
    let mut i: usize = 0;
    while i < wires.len()
        invariant
            i <= wires.len(),
            result@ == argument_text(wire_views(wires@).take(i as int)),
        decreases wires.len() - i,
    {
        proof {
            assert(
                wire_views(wires@).take(i + 1).drop_last() =~= wire_views(wires@).take(i as int)
            );
            assert(wire_views(wires@).take(i + 1).last() == wire_views(wires@)[i as int]);
        }
        let wire = &wires[i];
        let part = "            ".to_owned().concat(wire.attr_name.as_str()).concat("=")
            .concat(wire.read.expr.as_str()).concat(",\n");
        result.append(part.as_str());
        i += 1;
    }
    proof {
        crate::text::lemma_take_all(wire_views(wires@));
    }
    result
}

/// The lines that write the fields.
pub open spec fn write_text(wires: Seq<FieldWireView>) -> Seq<char>
    decreases wires.len(),
{
    if wires.len() == 0 {
        Seq::empty()
    } else {
        let wire = wires.last();
        write_text(wires.drop_last()) + (
            indented_text(wire.write, "        "@)
        )
    }
}

/// The lines that write the fields.
pub fn write_block(wires: &Vec<FieldWire>) -> (result: String)
    ensures
        result@ == write_text(wire_views(wires@)),
{
    let mut result: String = String::new();
    let mut i: usize = 0;
    while i < wires.len()
        invariant
            i <= wires.len(),
            result@ == write_text(wire_views(wires@).take(i as int)),
        decreases wires.len() - i,
    {
        proof {
            assert(
                wire_views(wires@).take(i + 1).drop_last() =~= wire_views(wires@).take(i as int)
            );
            assert(wire_views(wires@).take(i + 1).last() == wire_views(wires@)[i as int]);
        }
        let wire = &wires[i];
        let part = indented_block(&wire.write, "        ");
        result.append(part.as_str());
        i += 1;
    }
    proof {
        crate::text::lemma_take_all(wire_views(wires@));
    }
    result
}

/// The line that binds the type variables.
pub open spec fn type_variable_text(arguments: Seq<TypeArgumentView>) -> Seq<char> {
    let comma = if arguments.len() == 1 { ","@ } else { Seq::<char>::empty() };
    if arguments.len() == 0 {
        Seq::<char>::empty()
    } else {
        "        "@ + argument_list_text(arguments) + comma
            + " = typing.get_args(type_hint) or ("@ + any_list(arguments.len()) + comma + ")\n"@
    }
}

/// The line that binds the type variables.
pub fn type_variable_block(arguments: &Vec<TypeArgument>) -> (result: String)
    ensures
        result@ == type_variable_text(argument_views(arguments@)),
{
    let comma = if arguments.len() == 1 { ",".to_owned() } else { String::new() };
    if arguments.len() == 0 {
        String::new()
    } else {
        "        ".to_owned().concat(argument_list(arguments).as_str()).concat(comma.as_str())
            .concat(" = typing.get_args(type_hint) or (")
            .concat(any_arguments(arguments.len()).as_str()).concat(comma.as_str()).concat(")\n")
    }
}

/// The method that turns a message into the model.
pub open spec fn from_transfer_text(
    model: RenderedModel,
    proto_type: Seq<char>,
    arguments: Seq<TypeArgumentView>,
    wires: Seq<FieldWireView>,
) -> Seq<char> {
    let annotation = model_annotation(model);
    let head = "    @typing_extensions.override\n    def from_transfer_type(\n        self,\n        value: "@
        + proto_type + ",\n        type_hint: type["@ + annotation + "],\n    ) -> "@
        + annotation + ":\n"@;
    if model.fields@.len() == 0 {
        head + "        return "@ + model.name@ + "()\n"@
    } else {
        "\n"@ + head + type_variable_text(arguments) + setup_text(wires) + "        return "@
            + model.name@ + "(\n"@ + argument_text(wires) + "        )\n"@
    }
}

/// The method that turns a message into the model.
pub fn from_transfer_block(
    model: &RenderedModel,
    proto_type: &str,
    arguments: &Vec<TypeArgument>,
    wires: &Vec<FieldWire>,
) -> (result: String)
    ensures
        result@ == from_transfer_text(
            *model,
            proto_type@,
            argument_views(arguments@),
            wire_views(wires@),
        ),
{
    let annotation = converter_model_annotation(model);
    let head = "    @typing_extensions.override\n    def from_transfer_type(\n        self,\n        value: ".to_owned()
        .concat(proto_type).concat(",\n        type_hint: type[").concat(annotation.as_str())
        .concat("],\n    ) -> ").concat(annotation.as_str()).concat(":\n");
    if model.fields.len() == 0 {
        head.clone().concat("        return ").concat(model.name.as_str()).concat("()\n")
    } else {
        "\n".to_owned().concat(head.as_str()).concat(type_variable_block(arguments).as_str())
            .concat(setup_block(wires).as_str()).concat("        return ")
            .concat(model.name.as_str()).concat("(\n").concat(argument_block(wires).as_str())
            .concat("        )\n")
    }
}

/// The method that turns the model into a message.
pub open spec fn to_transfer_text(
    model: RenderedModel,
    proto_type: Seq<char>,
    wires: Seq<FieldWireView>,
    generic_oneof: bool,
) -> Seq<char> {
    let gap = if model.fields@.len() == 0 { "\n"@ } else { "\n\n"@ };
    let annotation = model_annotation(model);
    let runtime = if generic_oneof {
        "        runtime_value: typing.Any = value\n"@
    } else { Seq::<char>::empty() };
    (
        gap
            + "    @typing_extensions.override\n    def to_transfer_type(\n        self,\n        value: "@
            + annotation + ",\n    ) -> "@ + proto_type + ":\n"@ + runtime + "        message = "@
            + proto_type + "()\n"@ + write_text(wires) + "        return message\n"@
    )
}

/// The method that turns the model into a message.
pub fn to_transfer_block(
    model: &RenderedModel,
    proto_type: &str,
    wires: &Vec<FieldWire>,
    generic_oneof: bool,
) -> (result: String)
    ensures
        result@ == to_transfer_text(*model, proto_type@, wire_views(wires@), generic_oneof),
{
    let gap = if model.fields.len() == 0 { "\n".to_owned() } else { "\n\n".to_owned() };
    let annotation = converter_model_annotation(model);
    let runtime = if generic_oneof {
        "        runtime_value: typing.Any = value\n".to_owned()
    } else { String::new() };
    gap.clone()
        .concat(
            "    @typing_extensions.override\n    def to_transfer_type(\n        self,\n        value: ",
        )
        .concat(annotation.as_str()).concat(",\n    ) -> ").concat(proto_type).concat(":\n")
        .concat(runtime.as_str()).concat("        message = ").concat(proto_type).concat("()\n")
        .concat(write_block(wires).as_str()).concat("        return message\n")
}

/// The head of the converter class of a model.
pub open spec fn converter_head_lines(
    model: RenderedModel,
    proto_type: Seq<char>,
) -> Seq<Seq<char>> {
    seq![
        (
            "class _"@ + model.name@
                + "TransferTypeConverter(temporalio.converter.TransferTypeConverter["@
                + model_annotation(model) + ", "@ + proto_type + "]):"@
        ),
        ("    transfer_type: type["@ + proto_type + "] | None = "@ + proto_type),
        Seq::<char>::empty()
    ]
}

/// The head of the converter class of a model.
pub fn converter_head(model: &RenderedModel, proto_type: &str) -> (result: Vec<String>)
    ensures
        crate::text::texts(result@) == converter_head_lines(*model, proto_type@),
{
    vec![
        "class _".to_owned().concat(model.name.as_str())
            .concat("TransferTypeConverter(temporalio.converter.TransferTypeConverter[")
            .concat(converter_model_annotation(model).as_str()).concat(", ").concat(proto_type)
            .concat("]):"),
        "    transfer_type: type[".to_owned().concat(proto_type).concat("] | None = ")
            .concat(proto_type),
        String::new()
    ]
}

/// The decorator that ties a model to its converter class.
pub open spec fn converter_decorator_text(model: RenderedModel) -> Seq<char> {
    if model.type_parameters@.len() == 0 {
        "@temporalio.converter.transfer_type_convertible(_"@ + model.name@
            + "TransferTypeConverter)"@
    } else {
        "@typing.cast(typing.Any, temporalio.converter.transfer_type_convertible(_"@
            + model.name@ + "TransferTypeConverter))"@
    }
}

/// The decorator that ties a model to its converter class.
pub fn converter_decorator(model: &RenderedModel) -> (result: String)
    ensures
        result@ == converter_decorator_text(*model),
{
    if model.type_parameters.len() == 0 {
        "@temporalio.converter.transfer_type_convertible(_".to_owned().concat(model.name.as_str())
            .concat("TransferTypeConverter)")
    } else {
        "@typing.cast(typing.Any, temporalio.converter.transfer_type_convertible(_".to_owned()
            .concat(model.name.as_str()).concat("TransferTypeConverter))")
    }
}

/// The code that ties a model to its message.
#[derive(Debug, Clone)]
pub struct RenderedRecordWireBlock {
    pub imports: PythonImports,
    pub pre_class_lines: Vec<String>,
    pub decorator: Option<String>,
    pub class_body_lines: Vec<String>,
}

/// Whether some field is bound to a oneof.
pub open spec fn has_oneof(protos: Seq<ProtoFieldView>) -> bool {
    exists|k: int| 0 <= k < protos.len() && (#[trigger] protos[k]).oneof is Some
}

fn any_oneof(protos: &Vec<ProtoField>) -> (found: bool)
    ensures
        found == has_oneof(proto_field_views(protos@)),
{
    let ghost views = proto_field_views(protos@);
    let mut i: usize = 0;
    while i < protos.len()
        invariant
            i <= protos.len(),
            views == proto_field_views(protos@),
            forall|k: int| 0 <= k < i ==> (#[trigger] views[k]).oneof is None,
        decreases protos.len() - i,
    {
        assert(views[i as int] == protos@[i as int]@);
        if protos[i].oneof.is_some() {
            return true;
        }
        i += 1;
    }
    false
}

/// The modules that the payloads of the cases import.
pub open spec fn case_modules(cases: Seq<OneofCaseView>) -> Set<Seq<char>>
    decreases cases.len(),
{
    if cases.len() == 0 {
        Set::empty()
    } else {
        case_modules(cases.drop_last()).union(cases.last().payload_type.modules)
    }
}

/// The modules that the payloads of the oneofs import.
pub open spec fn oneof_modules(protos: Seq<ProtoFieldView>) -> Set<Seq<char>>
    decreases protos.len(),
{
    if protos.len() == 0 {
        Set::empty()
    } else {
        match protos.last().oneof {
            Some(oneof) => oneof_modules(protos.drop_last()).union(case_modules(oneof.cases)),
            None => oneof_modules(protos.drop_last()),
        }
    }
}

fn extend_with_cases(imports: &mut PythonImports, cases: &Vec<ProtoOneofCase>)
    ensures
        final(imports).modules() == old(imports).modules().union(case_modules(case_views(cases@))),
{
    let ghost before = imports.modules();
    let ghost views = case_views(cases@);
    let mut i: usize = 0;
    assert(before.union(case_modules(views.take(0))) =~= before);
    while i < cases.len()
        invariant
            i <= cases.len(),
            views == case_views(cases@),
            before == old(imports).modules(),
            imports.modules() == before.union(case_modules(views.take(i as int))),
        decreases cases.len() - i,
    {
        imports.extend(&cases[i].payload_type.imports);
        proof {
            assert(views.take(i + 1).drop_last() =~= views.take(i as int));
            assert(views.take(i + 1).last() == cases@[i as int]@);
            assert(imports.modules() =~= before.union(case_modules(views.take(i + 1))));
        }
        i += 1;
    }
    assert(views.take(i as int) =~= views);
}

fn extend_with_oneofs(imports: &mut PythonImports, protos: &Vec<ProtoField>)
    ensures
        final(imports).modules() == old(imports).modules().union(
            oneof_modules(proto_field_views(protos@)),
        ),
{
    let ghost before = imports.modules();
    let ghost views = proto_field_views(protos@);
    let mut i: usize = 0;
    assert(before.union(oneof_modules(views.take(0))) =~= before);
    while i < protos.len()
        invariant
            i <= protos.len(),
            views == proto_field_views(protos@),
            before == old(imports).modules(),
            imports.modules() == before.union(oneof_modules(views.take(i as int))),
        decreases protos.len() - i,
    {
        proof {
            assert(views.take(i + 1).drop_last() =~= views.take(i as int));
            assert(views.take(i + 1).last() == protos@[i as int]@);
        }
        match &protos[i].oneof {
            Some(oneof) => {
                extend_with_cases(imports, &oneof.cases);
                assert(imports.modules() =~= before.union(oneof_modules(views.take(i + 1))));
            },
            None => {},
        }
        i += 1;
    }
    assert(views.take(i as int) =~= views);
}

/// Whether the model is generic and some field is bound to a oneof.
pub open spec fn is_generic_oneof(model: RenderedModel, protos: Seq<ProtoFieldView>) -> bool {
    model.type_parameters@.len() > 0 && has_oneof(protos)
}

/// The lines of the converter class of a model: its head, and the lines of its two methods.
pub open spec fn converter_lines(
    model: RenderedModel,
    planned_model: PlannedRecord,
    proto_type: Seq<char>,
    protos: Seq<ProtoFieldView>,
) -> Seq<Seq<char>> {
    let arguments = type_arguments_of(
        crate::text::texts(model.type_parameters@),
        attribute_names(model.fields@),
    );
    let generic_oneof = is_generic_oneof(model, protos);
    let wires = field_wires_of(model, planned_model.fields@, protos, arguments, generic_oneof);
    converter_head_lines(model, proto_type) + crate::text::lines_of(
        from_transfer_text(model, proto_type, arguments, wires) + to_transfer_text(
            model,
            proto_type,
            wires,
            generic_oneof,
        ),
    )
}

/// The code that ties a model to the message of its record: a class that converts between the
/// two and the decorator that names it. A record without a Python class for a message has none.
pub fn render_record_wire_block(
    variants: &Vec<PlannedVariant>,
    model: &RenderedModel,
    planned_model: &PlannedRecord,
) -> (result: Result<Option<RenderedRecordWireBlock>, Error>)
    requires
        forall|k: int| 0 <= k < variants@.len() ==> (#[trigger] variants@[k]).wf(),
        forall|k: int|
            0 <= k < model.fields@.len() ==> (#[trigger] model.fields@[k]).wire_value_type.wf(),
    ensures
        match record_reference(*planned_model) {
            None => result matches Ok(None),
            Some(reference) => match (
                result,
                analyses_outcome(variants@, *planned_model, planned_model.fields@),
            ) {
                (Err(error), Err(view)) => error@ == view,
                (Ok(Some(block)), Ok(protos)) => {
                    &&& crate::text::texts(block.pre_class_lines@) == converter_lines(
                        *model,
                        *planned_model,
                        reference.type_ref,
                        protos,
                    )
                    &&& crate::text::opt_text(block.decorator) == Some(
                        converter_decorator_text(*model),
                    )
                    &&& block.class_body_lines@.len() == 0
                    &&& block.imports.modules() == set![
                        reference.module,
                        "temporalio.converter"@,
                    ].union(oneof_modules(protos))
                },
                _ => false,
            },
        },
{
    let reference = match record_python_ref(planned_model) {
        Some(reference) => reference,
        None => {
            return Ok(None);
        },
    };
    let protos = match analyze_fields(variants, planned_model) {
        Ok(protos) => protos,
        Err(error) => {
            return Err(error);
        },
    };
    let arguments = runtime_type_arguments(model);
    let generic_oneof = model.type_parameters.len() > 0 && any_oneof(&protos);
    let wires = field_wires(model, &planned_model.fields, &protos, &arguments, generic_oneof);
    let proto_type = reference.type_ref.as_str();
    let methods = from_transfer_block(model, proto_type, &arguments, &wires).concat(
        to_transfer_block(model, proto_type, &wires, generic_oneof).as_str(),
    );
    let lines = with_lines(converter_head(model, proto_type), split_lines(methods.as_str()));
    let mut imports = PythonImports::new();
    imports.insert(reference.module.as_str());
    imports.insert("temporalio.converter");
    assert(imports.modules() =~= set![reference.module@, "temporalio.converter"@]);
    extend_with_oneofs(&mut imports, &protos);
    Ok(
        Some(
            RenderedRecordWireBlock {
                imports,
                pre_class_lines: lines,
                decorator: Some(converter_decorator(model)),
                class_body_lines: Vec::new(),
            },
        ),
    )
}

} // verus!
