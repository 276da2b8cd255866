//! What the protobuf backends read of a planned input.

use vstd::prelude::*;

use crate::language::Language;
use crate::text::{strip_prefix, text_eq};

verus! {

/// A text for one language.
#[derive(Debug, Clone)]
pub struct LanguageText {
    pub language: Language,
    pub text: String,
}

/// A [`LanguageText`] by its texts.
#[verifier::ext_equal]
pub struct LanguageTextView {
    pub language: Language,
    pub text: Seq<char>,
}

impl View for LanguageText {
    type V = LanguageTextView;

    open spec fn view(&self) -> LanguageTextView {
        LanguageTextView {
            language: self.language,
            text: self.text@,
        }
    }
}

/// The texts of a list of [`LanguageText`].
pub open spec fn language_text_views(items: Seq<LanguageText>) -> Seq<LanguageTextView> {
    items.map_values(|item: LanguageText| item@)
}

/// A text that languages can have their own version of, and what has to be imported for it.
#[derive(Debug, Clone)]
pub struct LanguageStringSpec {
    pub default: Option<String>,
    pub by_language: Vec<LanguageText>,
    pub default_import: Option<String>,
    pub imports: Vec<LanguageText>,
}

/// A [`LanguageStringSpec`] by its texts.
#[verifier::ext_equal]
pub struct LanguageStringView {
    pub default: Option<Seq<char>>,
    pub by_language: Seq<LanguageTextView>,
    pub default_import: Option<Seq<char>>,
    pub imports: Seq<LanguageTextView>,
}

impl View for LanguageStringSpec {
    type V = LanguageStringView;

    open spec fn view(&self) -> LanguageStringView {
        LanguageStringView {
            default: crate::text::opt_text(self.default),
            by_language: language_text_views(self.by_language@),
            default_import: crate::text::opt_text(self.default_import),
            imports: language_text_views(self.imports@),
        }
    }
}

/// The texts of an optional [`LanguageStringSpec`].
pub open spec fn language_string_spec_opt(
    value: Option<LanguageStringSpec>,
) -> Option<LanguageStringView> {
    match value {
        Some(value) => Some(value@),
        None => None,
    }
}

/// The text of the first entry for the language.
pub open spec fn own_text(entries: Seq<LanguageTextView>, language: Language) -> Option<Seq<char>>
    decreases entries.len(),
{
    if entries.len() == 0 {
        None
    } else if entries[0].language == language {
        Some(entries[0].text)
    } else {
        own_text(entries.drop_first(), language)
    }
}

/// The text for the language: its own, else the default.
pub open spec fn view_text_for(strings: LanguageStringView, language: Language) -> Option<
    Seq<char>,
> {
    match own_text(strings.by_language, language) {
        Some(text) => Some(text),
        None => strings.default,
    }
}

/// The text for the language: its own, else the default.
pub open spec fn text_for(strings: LanguageStringSpec, language: Language) -> Option<Seq<char>> {
    view_text_for(strings@, language)
}

/// The strings without any text.
pub open spec fn no_strings() -> LanguageStringView {
    LanguageStringView {
        default: None,
        by_language: Seq::empty(),
        default_import: None,
        imports: Seq::empty(),
    }
}

/// Whether no language has a text.
pub open spec fn strings_empty(strings: LanguageStringView) -> bool {
    strings.default is None && strings.by_language.len() == 0
}

/// A copy of texts for languages.
pub fn copy_entries(entries: &Vec<LanguageText>) -> (copy: Vec<LanguageText>)
    ensures
        language_text_views(copy@) == language_text_views(entries@),
{
    let mut copy: Vec<LanguageText> = Vec::new();
    let mut i: usize = 0;
    while i < entries.len()
        invariant
            i <= entries.len(),
            language_text_views(copy@) == language_text_views(entries@).take(i as int),
        decreases entries.len() - i,
    {
        let ghost before = copy@;
        copy.push(LanguageText { language: entries[i].language, text: entries[i].text.clone() });
        assert(
            language_text_views(copy@) =~= language_text_views(before).push(entries@[i as int]@)
        );
        i += 1;
    }
    copy
}

/// A copy of an optional text.
pub fn copy_text(text: &Option<String>) -> (copy: Option<String>)
    ensures
        crate::text::opt_text(copy) == crate::text::opt_text(*text),
{
    match text {
        Some(text) => Some(text.clone()),
        None => None,
    }
}

impl LanguageStringSpec {
    /// The strings without any text.
    pub fn new() -> (strings: Self)
        ensures
            strings@ == no_strings(),
    {
        LanguageStringSpec {
            default: None,
            by_language: Vec::new(),
            default_import: None,
            imports: Vec::new(),
        }
    }

    /// The text for the language: its own, else the default.
    pub fn for_language(&self, language: Language) -> (text: Option<String>)
        ensures
            crate::text::opt_text(text) == text_for(*self, language),
    {
        let ghost entries = language_text_views(self.by_language@);
        let mut i: usize = 0;
        assert(entries.skip(0) =~= entries);
        while i < self.by_language.len()
            invariant
                i <= self.by_language.len(),
                entries == language_text_views(self.by_language@),
                own_text(entries.skip(i as int), language) == own_text(entries, language),
            decreases self.by_language.len() - i,
        {
            if self.by_language[i].language == language {
                return Some(self.by_language[i].text.clone());
            }
            assert(entries.skip(i as int).drop_first() =~= entries.skip(i + 1));
            i += 1;
        }
        match &self.default {
            Some(text) => Some(text.clone()),
            None => None,
        }
    }

    /// Whether no language has a text.
    pub fn is_empty(&self) -> (empty: bool)
        ensures
            empty == strings_empty(self@),
    {
        self.default.is_none() && self.by_language.len() == 0
    }

    /// A copy of the strings.
    pub fn copy(&self) -> (copy: Self)
        ensures
            copy@ == self@,
    {
        LanguageStringSpec {
            default: copy_text(&self.default),
            by_language: copy_entries(&self.by_language),
            default_import: copy_text(&self.default_import),
            imports: copy_entries(&self.imports),
        }
    }
}

/// A type of a language that stands for a protobuf type, and the functions between the two.
#[derive(Debug, Clone)]
pub struct TypeReplacementSpec {
    pub annotation: LanguageStringSpec,
    pub from_proto: LanguageStringSpec,
    pub to_proto: LanguageStringSpec,
}

/// A [`TypeReplacementSpec`] by its texts.
#[verifier::ext_equal]
pub struct TypeReplacementView {
    pub annotation: LanguageStringView,
    pub from_proto: LanguageStringView,
    pub to_proto: LanguageStringView,
}

impl View for TypeReplacementSpec {
    type V = TypeReplacementView;

    open spec fn view(&self) -> TypeReplacementView {
        TypeReplacementView {
            annotation: self.annotation@,
            from_proto: self.from_proto@,
            to_proto: self.to_proto@,
        }
    }
}

/// The texts of an optional [`TypeReplacementSpec`].
pub open spec fn type_replacement_spec_opt(
    value: Option<TypeReplacementSpec>,
) -> Option<TypeReplacementView> {
    match value {
        Some(value) => Some(value@),
        None => None,
    }
}

/// Where a protobuf type is declared.
#[derive(Debug, Clone)]
pub struct PlannedProtoTypeInfo {
    pub full_name: String,
    pub package: String,
    pub file_name: Option<String>,
    pub go_package: Option<String>,
}

/// A protobuf message in a planned type.
#[derive(Debug, Clone)]
pub struct PlannedProtoMessage {
    pub proto: PlannedProtoTypeInfo,
    pub model_name: String,
    pub replacement: Option<TypeReplacementSpec>,
    /// The annotation of the authored type that stands for the message, where there is one.
    pub authored_annotation: Option<String>,
}

/// A protobuf enum in a planned type.
#[derive(Debug, Clone)]
pub struct PlannedProtoEnum {
    pub name: String,
    pub proto: PlannedProtoTypeInfo,
    pub replacement: Option<TypeReplacementSpec>,
}

/// A reference to a record of the input.
#[derive(Debug, Clone)]
pub struct PlannedRecordRef {
    pub full_name: String,
    pub model_name: String,
}

/// The type of a planned field.
#[derive(Debug)]
pub enum PlannedType {
    Bool,
    Int,
    Float,
    String,
    Bytes,
    List(Box<PlannedType>),
    Mapping(Box<PlannedType>, Box<PlannedType>),
    Optional(Box<PlannedType>),
    Record(PlannedRecordRef),
    Variant(String),
    TypeParameter(String),
    Message(PlannedProtoMessage),
    Enum(PlannedProtoEnum),
    Other,
}

/// The type behind every `Optional`.
pub open spec fn bare_type(planned: PlannedType) -> PlannedType
    decreases planned,
{
    match planned {
        PlannedType::Optional(inner) => bare_type(*inner),
        other => other,
    }
}

impl PlannedType {
    /// The type behind every `Optional`.
    pub fn validation_type(&self) -> (bare: &PlannedType)
        ensures
            *bare == bare_type(*self),
        decreases self,
    {
        match self {
            PlannedType::Optional(inner) => inner.validation_type(),
            other => other,
        }
    }

    /// Whether the type is a type parameter, behind every `Optional`.
    pub fn is_type_parameter(&self) -> (result: bool)
        ensures
            result == (bare_type(*self) is TypeParameter),
    {
        match self.validation_type() {
            PlannedType::TypeParameter(_) => true,
            _ => false,
        }
    }
}

/// A member of a protobuf oneof that a variant is bound to.
#[derive(Debug)]
pub struct PlannedWireVariantMember {
    pub wire_name: String,
    pub wire_type: PlannedType,
}

/// How a field is bound to the wire.
#[derive(Debug)]
pub enum PlannedWireFieldBinding {
    VariantMembers { wire_name: String, members: Vec<PlannedWireVariantMember> },
    Value { wire_type: PlannedType },
}

/// Whether a field is part of the generated model.
#[derive(Debug, Clone)]
pub enum RecordFieldVisibility {
    Public,
    Omitted,
    Sourced { source_expr: String },
}

/// A field of a planned record.
#[derive(Debug)]
pub struct PlannedRecordField {
    pub name: String,
    pub visibility: RecordFieldVisibility,
    pub field_type: PlannedType,
    pub required: bool,
    /// The converter of a function field, where it has one.
    pub function_converter: Option<String>,
    pub has_default: bool,
    pub wire_binding: Option<PlannedWireFieldBinding>,
    pub has_presence: Option<bool>,
}

/// A planned record; its fields stand in their order of declaration.
#[derive(Debug)]
pub struct PlannedRecord {
    pub name: String,
    pub full_name: String,
    pub fields: Vec<PlannedRecordField>,
    pub proto: Option<PlannedProtoTypeInfo>,
}

/// The name of a protobuf type below its package.
pub open spec fn relative_name_text(full_name: Seq<char>, package: Seq<char>) -> Seq<char> {
    match crate::text::without_prefix(full_name, (package + "."@)) {
        Some(relative) => relative,
        None => full_name,
    }
}

/// The name of a protobuf type below its package.
pub fn relative_descriptor_name(full_name: &str, package: &str) -> (result: String)
    ensures
        result@ == relative_name_text(full_name@, package@),
{
    match strip_prefix(full_name, package.to_owned().concat(".").as_str()) {
        Some(relative) => relative,
        None => full_name.to_owned(),
    }
}

/// Whether the type is one of the protobuf messages that carry a value of any type.
pub open spec fn is_generic_carrier(kind: PlannedType) -> bool {
    match bare_type(kind) {
        PlannedType::Message(message) => (
            message.proto.full_name@ == "temporal.api.common.v1.Payload"@
        ) || (
            message.proto.full_name@ == "temporal.api.common.v1.Payloads"@
        ),
        _ => false,
    }
}

/// Whether the type is one of the protobuf messages that carry a value of any type.
pub fn is_proto_generic_carrier(kind: &PlannedType) -> (result: bool)
    ensures
        result == is_generic_carrier(*kind),
{
    match kind.validation_type() {
        PlannedType::Message(message) => text_eq(
            message.proto.full_name.as_str(),
            "temporal.api.common.v1.Payload",
        ) || text_eq(
            message.proto.full_name.as_str(),
            "temporal.api.common.v1.Payloads",
        ),
        _ => false,
    }
}

} // verus!
