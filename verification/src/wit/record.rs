//! The fields of authored records.

use indexmap::IndexMap;
use vstd::prelude::*;

use crate::error::{Error, ErrorView};
use crate::language::Language;
use crate::naming::to_snake;
use crate::plan::LanguageStringSpec;
use crate::text::text_eq;
use crate::wit::directive::{directive, directive_error, parse_directives, wit_error, Directive};
use crate::wit::document::{WitDocument, WitField, WitOwner, WitType, WitTypeKind};
use crate::wit::function::{
    build_function_field, find_flattened_function_type_spec, generated_function_arg_doc,
    resolve_type_for_language, FlattenedFunctionArgSpec, FlattenedFunctionTypeSpec,
    FunctionFieldSpec,
};
use crate::wit::resolve::{is_optional_type, wit_type_full_name};
use crate::wit::strings::{
    directive_language_string, directive_language_value, directive_own_value, directive_value,
    reject_misplaced_type_parameter,
};
use crate::wit::types::{authored_field_type_for_language, TypeSpec};

verus! {

/// Whether a field is seen, and where its value comes from.
#[derive(Debug)]
pub enum RecordFieldVisibility {
    Public,
    ApiOmitted,
    Omitted,
    Sourced { source_expr: String },
}

/// A [`RecordFieldVisibility`] by its texts.
#[verifier::ext_equal]
pub enum VisibilityView {
    Public,
    ApiOmitted,
    Omitted,
    Sourced { source_expr: Seq<char> },
}

impl View for RecordFieldVisibility {
    type V = VisibilityView;

    open spec fn view(&self) -> VisibilityView {
        match *self {
            RecordFieldVisibility::Public => VisibilityView::Public,
            RecordFieldVisibility::ApiOmitted => VisibilityView::ApiOmitted,
            RecordFieldVisibility::Omitted => VisibilityView::Omitted,
            RecordFieldVisibility::Sourced { source_expr } => VisibilityView::Sourced {
                source_expr: source_expr@,
            },
        }
    }
}

/// The case of an enumeration that a field has where it is given none.
#[derive(Debug)]
pub struct FieldDefaultSpec {
    pub enum_case: String,
    pub enum_value: i32,
}

/// A [`FieldDefaultSpec`] by its texts.
#[verifier::ext_equal]
pub struct FieldDefaultView {
    pub enum_case: Seq<char>,
    pub enum_value: i32,
}

impl View for FieldDefaultSpec {
    type V = FieldDefaultView;

    open spec fn view(&self) -> FieldDefaultView {
        FieldDefaultView {
            enum_case: self.enum_case@,
            enum_value: self.enum_value,
        }
    }
}

/// The texts of an optional [`FieldDefaultSpec`].
pub open spec fn field_default_spec_opt(
    value: Option<FieldDefaultSpec>,
) -> Option<FieldDefaultView> {
    match value {
        Some(value) => Some(value@),
        None => None,
    }
}

/// A field of a record.
#[derive(Debug)]
pub struct RecordFieldSpec {
    pub name: String,
    pub doc: Option<LanguageStringSpec>,
    pub annotation: Option<LanguageStringSpec>,
    pub flattened_annotation: Option<LanguageStringSpec>,
    pub field_type: TypeSpec,
    pub default_value: Option<FieldDefaultSpec>,
    pub required: bool,
    pub visibility: RecordFieldVisibility,
    pub function: Option<FunctionFieldSpec>,
}

/// A [`RecordFieldSpec`] by its texts.
#[verifier::ext_equal]
pub struct RecordFieldView {
    pub name: Seq<char>,
    pub doc: Option<crate::plan::LanguageStringView>,
    pub annotation: Option<crate::plan::LanguageStringView>,
    pub flattened_annotation: Option<crate::plan::LanguageStringView>,
    pub field_type: crate::wit::types::TypeView,
    pub default_value: Option<FieldDefaultView>,
    pub required: bool,
    pub visibility: VisibilityView,
    pub function: Option<crate::wit::function::FunctionFieldView>,
}

impl View for RecordFieldSpec {
    type V = RecordFieldView;

    open spec fn view(&self) -> RecordFieldView {
        RecordFieldView {
            name: self.name@,
            doc: crate::plan::language_string_spec_opt(self.doc),
            annotation: crate::plan::language_string_spec_opt(self.annotation),
            flattened_annotation: crate::plan::language_string_spec_opt(self.flattened_annotation),
            field_type: self.field_type@,
            default_value: field_default_spec_opt(self.default_value),
            required: self.required,
            visibility: self.visibility@,
            function: crate::wit::function::function_field_spec_opt(self.function),
        }
    }
}

/// The keys and values of a map of fields, in the order of insertion.
pub uninterp spec fn field_entries(map: IndexMap<String, RecordFieldSpec>) -> Seq<
    (Seq<char>, RecordFieldSpec),
>;

/// `IndexMap::new`: the map has no entries.
#[verifier::external_body]
fn new_field_map() -> (map: IndexMap<String, RecordFieldSpec>)
    ensures
        field_entries(map) == Seq::<(Seq<char>, RecordFieldSpec)>::empty(),
{
    IndexMap::new()
}

/// `IndexMap::contains_key`: whether the map holds a key.
#[verifier::external_body]
fn field_map_has(map: &IndexMap<String, RecordFieldSpec>, key: &str) -> (found: bool)
    ensures
        match found {
            true => exists|i: int|
                0 <= i < field_entries(*map).len() && (#[trigger] field_entries(*map)[i]).0 == key@,
            false => forall|i: int|
                0 <= i < field_entries(*map).len() ==> (#[trigger] field_entries(*map)[i]).0
                    != key@,
        },
{
    map.contains_key(key)
}

/// `IndexMap::len`: the number of entries.
#[verifier::external_body]
fn field_map_len(map: &IndexMap<String, RecordFieldSpec>) -> (len: usize)
    ensures
        len == field_entries(*map).len(),
{
    map.len()
}

/// `IndexMap::get_index`: the value at a place in the order of insertion.
#[verifier::external_body]
fn field_map_at(map: &IndexMap<String, RecordFieldSpec>, index: usize) -> (field: Option<
    &RecordFieldSpec,
>)
    ensures
        match field {
            Some(field) => index < field_entries(*map).len() && field_entries(*map)[index as int].1
                == *field,
            None => index >= field_entries(*map).len(),
        },
{
    map.get_index(index).map(|entry| entry.1)
}

/// `IndexMap::insert` of a key that the map does not hold: the entry is added at the end.
#[verifier::external_body]
fn field_map_insert(
    map: &mut IndexMap<String, RecordFieldSpec>,
    key: String,
    value: RecordFieldSpec,
)
    requires
        forall|i: int|
            0 <= i < field_entries(*old(map)).len() ==> (#[trigger] field_entries(*old(map))[i]).0
                != key@,
    ensures
        field_entries(*final(map)) == field_entries(*old(map)).push((key@, value)),
{
    map.insert(key, value);
}

/// The fields of a record, each under its protobuf name, in the order in which they are written.
#[derive(Debug)]
pub struct RecordFields {
    pub map: IndexMap<String, RecordFieldSpec>,
}

/// A field of a record under its protobuf name.
#[verifier::ext_equal]
pub struct RecordEntryView {
    pub key: Seq<char>,
    pub field: RecordFieldView,
}

impl View for RecordFields {
    type V = Seq<RecordEntryView>;

    open spec fn view(&self) -> Seq<RecordEntryView> {
        field_entries(self.map).map_values(
            |entry: (Seq<char>, RecordFieldSpec)|
                RecordEntryView { key: entry.0, field: entry.1@ },
        )
    }
}

/// Whether a field has a protobuf name.
pub open spec fn has_key(entries: Seq<RecordEntryView>, key: Seq<char>) -> bool {
    exists|i: int| 0 <= i < entries.len() && (#[trigger] entries[i]).key == key
}

/// Whether a field has a protobuf name.
pub fn has_record_field(fields: &RecordFields, key: &str) -> (found: bool)
    ensures
        found == has_key(fields@, key@),
{
    let found = field_map_has(&fields.map, key);
    proof {
        let raw = field_entries(fields.map);
        if found {
            let i = choose|i: int| 0 <= i < raw.len() && (#[trigger] raw[i]).0 == key@;
            assert(fields@[i].key == key@);
        } else if has_key(fields@, key@) {
            let i = choose|i: int| 0 <= i < fields@.len() && (#[trigger] fields@[i]).key == key@;
            assert(raw[i].0 == key@);
        }
    }
    found
}

/// The number of fields.
pub fn record_field_count(fields: &RecordFields) -> (count: usize)
    ensures
        count == fields@.len(),
{
    field_map_len(&fields.map)
}

/// The field at a place in the order in which they are written.
pub fn record_field_at(fields: &RecordFields, index: usize) -> (field: Option<&RecordFieldSpec>)
    ensures
        match field {
            Some(field) => index < fields@.len() && fields@[index as int].field == field@,
            None => index >= fields@.len(),
        },
{
    field_map_at(&fields.map, index)
}

/// No fields.
pub fn no_record_fields() -> (fields: RecordFields)
    ensures
        fields@ == Seq::<RecordEntryView>::empty(),
{
    let fields = RecordFields { map: new_field_map() };
    assert(fields@ =~= Seq::<RecordEntryView>::empty());
    fields
}

/// The fields with one more.
fn with_record_field(
    fields: RecordFields,
    key: String,
    field: RecordFieldSpec,
) -> (all: RecordFields)
    requires
        !has_key(fields@, key@),
    ensures
        all@ == fields@.push(RecordEntryView { key: key@, field: field@ }),
{
    let mut all = fields;
    proof {
        let raw = field_entries(all.map);
        assert forall|i: int| 0 <= i < raw.len() implies (#[trigger] raw[i]).0 != key@ by {
            assert(fields@[i].key == raw[i].0);
        }
    }
    field_map_insert(&mut all.map, key, field);
    assert(all@ =~= fields@.push(RecordEntryView { key: key@, field: field@ }));
    all
}

/// The error for a default that is no case of an enumeration.
pub open spec fn default_on_non_enum(path: Seq<char>, context: Seq<char>) -> ErrorView {
    crate::wit::directive::directive_failure(
        path,
        context,
        "@nexus.default"@,
        "only enum field defaults are supported"@,
    )
}

/// The error for a default that is no case of an enumeration.
pub fn default_on_non_enum_error(path: &str, context: &str) -> (result: Error)
    ensures
        result@ == default_on_non_enum(path@, context@),
{
    directive_error(path, context, "@nexus.default", "only enum field defaults are supported")
}

/// The first case of an enumeration with a name.
pub open spec fn case_index(cases: Seq<String>, name: Seq<char>) -> int
    decreases cases.len(),
{
    if cases.len() == 0 || cases[0]@ == name {
        0
    } else {
        1 + case_index(cases.drop_first(), name)
    }
}

/// The first case of an enumeration with a name.
fn find_case(cases: &Vec<String>, name: &str) -> (index: usize)
    ensures
        index <= cases.len(),
        index == case_index(cases@, name@),
{
    let mut i: usize = 0;
    assert(cases@.skip(0) =~= cases@);
    while i < cases.len()
        invariant
            i <= cases.len(),
            i + case_index(cases@.skip(i as int), name@) == case_index(cases@, name@),
        decreases cases.len() - i,
    {
        if text_eq(cases[i].as_str(), name) {
            return i;
        }
        assert(cases@.skip(i as int).drop_first() =~= cases@.skip(i + 1));
        i += 1;
    }
    i
}

/// The number of a case of the enumeration that a type, what it is an alias of, or what may be
/// missing, is.
pub open spec fn default_enum_value(
    doc: WitDocument,
    ty: WitType,
    case_name: Seq<char>,
    path: Seq<char>,
    context: Seq<char>,
) -> Result<i32, ErrorView>
    decreases crate::wit::resolve::type_rank(ty),
    when doc.wf() && crate::wit::document::type_below(ty, doc.types@.len() as int)
{
    match ty {
        WitType::Id(id) => {
            let type_def = doc.types@[id as int];

            proof { assert(doc.type_ok(id as int)); }
            match type_def.kind {
                WitTypeKind::Enumeration(cases) => {
                    let index: int = case_index(cases@, case_name);
                    if index < cases@.len() {
                        Ok(index as i32)
                    } else {
                        let full_name = crate::wit::resolve::full_type_name(doc, id);
                        Err(
                            crate::wit::directive::directive_failure(
                                path,
                                context,
                                "@nexus.default"@,
                                (
                                    "unknown enum case `"@ + case_name + "` for `"@ + full_name
                                        + "`"@
                                ),
                            ),
                        )
                    }
                },
                WitTypeKind::Optional(inner) => default_enum_value(
                    doc,
                    inner,
                    case_name,
                    path,
                    context,
                ),
                WitTypeKind::Alias(inner) => default_enum_value(
                    doc,
                    inner,
                    case_name,
                    path,
                    context,
                ),
                _ => Err(default_on_non_enum(path, context)),
            }
        },
        _ => Err(default_on_non_enum(path, context)),
    }
}

/// The number of a case of the enumeration that a type, what it is an alias of, or what may be
/// missing, is.
pub fn resolve_default_enum_value(
    doc: &WitDocument,
    ty: WitType,
    case_name: &str,
    path: &str,
    context: &str,
) -> (result: Result<i32, Error>)
    requires
        doc.wf(),
        crate::wit::document::type_below(ty, doc.types@.len() as int),
    ensures
        crate::error::outcome(result) == default_enum_value(*doc, ty, case_name@, path@, context@),
    decreases crate::wit::resolve::type_rank(ty),
{
    match ty {
        WitType::Id(id) => {
            let type_def = &doc.types[id];
            proof { assert(doc.type_ok(id as int)); }

            match &type_def.kind {
                WitTypeKind::Enumeration(cases) => {
                    let index: usize = find_case(cases, case_name);
                    if index < cases.len() {
                        Ok(index as i32)
                    } else {
                        let full_name = wit_type_full_name(doc, id);
                        Err(
                            directive_error(
                                path,
                                context,
                                "@nexus.default",
                                "unknown enum case `".to_owned().concat(case_name).concat("` for `")
                                    .concat(full_name.as_str()).concat("`").as_str(),
                            ),
                        )
                    }
                },
                WitTypeKind::Optional(inner) => resolve_default_enum_value(
                    doc,
                    *inner,
                    case_name,
                    path,
                    context,
                ),
                WitTypeKind::Alias(inner) => resolve_default_enum_value(
                    doc,
                    *inner,
                    case_name,
                    path,
                    context,
                ),
                _ => Err(default_on_non_enum_error(path, context)),
            }
        },
        _ => Err(default_on_non_enum_error(path, context)),
    }
}

/// The case of an enumeration that a field has where it is given none.
pub open spec fn field_default_outcome(
    doc: WitDocument,
    ty: WitType,
    found: Option<crate::wit::directive::DirectiveView>,
    path: Seq<char>,
    context: Seq<char>,
) -> Result<Option<FieldDefaultView>, ErrorView> {
    match found {
        None => Ok(None),
        Some(found) => match crate::wit::directive::value_of(found, "value"@) {
            None => Err(
                crate::wit::directive::directive_failure(
                    path,
                    context,
                    "@nexus.default"@,
                    "missing required default enum case"@,
                ),
            ),
            Some(case_name) => {
                let enum_value_outcome = default_enum_value(doc, ty, case_name, path, context);
                let enum_value = enum_value_outcome->Ok_0;
                if case_name.len() == 0 {
                    Err(
                        crate::wit::directive::directive_failure(
                            path,
                            context,
                            "@nexus.default"@,
                            "default enum case cannot be empty"@,
                        ),
                    )
                } else if enum_value_outcome is Err {
                    Err(enum_value_outcome->Err_0)
                } else {
                    Ok(Some(FieldDefaultView { enum_case: case_name, enum_value }))
                }
            },
        },
    }
}

/// The case of an enumeration that a field has where it is given none.
pub fn build_field_default(
    doc: &WitDocument,
    ty: WitType,
    found: Option<&Directive>,
    path: &str,
    context: &str,
) -> (result: Result<Option<FieldDefaultSpec>, Error>)
    requires
        doc.wf(),
        crate::wit::document::type_below(ty, doc.types@.len() as int),
    ensures
        crate::error::opt_outcome(result) == field_default_outcome(
            *doc,
            ty,
            crate::wit::directive::directive_ref(found),
            path@,
            context@,
        ),
{
    match found {
        None => Ok(None),
        Some(found) => match found.value("value") {
            None => Err(
                directive_error(
                    path,
                    context,
                    "@nexus.default",
                    "missing required default enum case",
                ),
            ),
            Some(case_name) => {
                if case_name.as_str().is_empty() {
                    return Err(
                        directive_error(
                            path,
                            context,
                            "@nexus.default",
                            "default enum case cannot be empty",
                        ),
                    );
                }
                let enum_value: i32 = match resolve_default_enum_value(
                    doc,
                    ty,
                    case_name.as_str(),
                    path,
                    context,
                ) {
                    Ok(value) => value,
                    Err(error) => return Err(error),
                };
                Ok(Some(FieldDefaultSpec { enum_case: case_name, enum_value }))
            },
        },
    }
}

/// Where the value of a field comes from.
pub open spec fn source_outcome(
    directives: Seq<crate::wit::directive::DirectiveView>,
    path: Seq<char>,
    context: Seq<char>,
    language: Language,
) -> Result<Option<Seq<char>>, ErrorView> {
    let found_outcome = crate::wit::directive::directive_outcome(
        directives,
        "source"@,
        path,
        context,
    );
    let found = found_outcome->Ok_0;
    if found_outcome is Err {
        Err(found_outcome->Err_0)
    } else {
        match found {
            None => Ok(None),
            Some(found) => Ok(crate::wit::strings::directive_own_text(found, language)),
        }
    }
}

/// Where the value of a field comes from.
pub fn build_source_call(
    directives: &Vec<Directive>,
    path: &str,
    context: &str,
    language: Language,
) -> (result: Result<Option<String>, Error>)
    ensures
        crate::error::opt_outcome(result) == source_outcome(
            crate::wit::directive::directive_views(directives@),
            path@,
            context@,
            language,
        ),
{
    let found = match directive(directives, "source", path, context) {
        Ok(value) => value,
        Err(error) => return Err(error),
    };
    match found {
        None => Ok(None),
        Some(found) => Ok(directive_own_value(found, language)),
    }
}

/// The name that a field is generated under.
pub open spec fn generated_name_outcome(
    directives: Seq<crate::wit::directive::DirectiveView>,
    field: WitField,
    path: Seq<char>,
    context: Seq<char>,
    language: Language,
) -> Result<Seq<char>, ErrorView> {
    let found_outcome = crate::wit::directive::directive_outcome(
        directives,
        "name"@,
        path,
        context,
    );
    let found = found_outcome->Ok_0;
    if found_outcome is Err {
        Err(found_outcome->Err_0)
    } else {
        match found {
            None => Ok(field.name@),
            Some(found) => match crate::wit::strings::directive_language_text(found, language) {
                Some(name) => Ok(name),
                None => Ok(field.name@),
            },
        }
    }
}

/// The name that a field is generated under.
pub fn generated_field_name(
    directives: &Vec<Directive>,
    field: &WitField,
    path: &str,
    context: &str,
    language: Language,
) -> (result: Result<String, Error>)
    ensures
        crate::error::outcome(result) == generated_name_outcome(
            crate::wit::directive::directive_views(directives@),
            *field,
            path@,
            context@,
            language,
        ),
{
    let found = match directive(directives, "name", path, context) {
        Ok(value) => value,
        Err(error) => return Err(error),
    };
    match found {
        None => Ok(field.name.clone()),
        Some(found) => match directive_language_value(found, language) {
            Some(name) => Ok(name),
            None => Ok(field.name.clone()),
        },
    }
}

/// What a directive with a name says for each language, where the directive is there.
pub open spec fn optional_strings_outcome(
    directives: Seq<crate::wit::directive::DirectiveView>,
    name: Seq<char>,
    path: Seq<char>,
    context: Seq<char>,
) -> Result<Option<crate::plan::LanguageStringView>, ErrorView> {
    let found_outcome = crate::wit::directive::directive_outcome(directives, name, path, context);
    let found = found_outcome->Ok_0;
    if found_outcome is Err {
        Err(found_outcome->Err_0)
    } else {
        match found {
            None => Ok(None),
            Some(found) => Ok(Some(crate::wit::strings::directive_strings(found))),
        }
    }
}

/// What a directive with a name says for each language, where the directive is there.
pub fn optional_strings(
    directives: &Vec<Directive>,
    name: &str,
    path: &str,
    context: &str,
) -> (result: Result<Option<LanguageStringSpec>, Error>)
    ensures
        crate::error::opt_outcome(result) == optional_strings_outcome(
            crate::wit::directive::directive_views(directives@),
            name@,
            path@,
            context@,
        ),
{
    let found = match directive(directives, name, path, context) {
        Ok(value) => value,
        Err(error) => return Err(error),
    };
    match found {
        None => Ok(None),
        Some(found) => Ok(Some(directive_language_string(found))),
    }
}

/// What is said of a field, where anything is.
pub open spec fn field_doc_outcome(
    directives: Seq<crate::wit::directive::DirectiveView>,
    path: Seq<char>,
    context: Seq<char>,
) -> Result<Option<crate::plan::LanguageStringView>, ErrorView> {
    let doc_outcome = optional_strings_outcome(directives, "doc"@, path, context);
    let doc = doc_outcome->Ok_0;
    if doc_outcome is Err {
        Err(doc_outcome->Err_0)
    } else {
        match doc {
            None => Ok(None),
            Some(doc) => {
                if crate::plan::strings_empty(doc) {
                    Ok(None)
                } else {
                    Ok(Some(doc))
                }
            },
        }
    }
}

/// What is said of a field, where anything is.
pub fn field_doc_strings(
    directives: &Vec<Directive>,
    path: &str,
    context: &str,
) -> (result: Result<Option<LanguageStringSpec>, Error>)
    ensures
        crate::error::opt_outcome(result) == field_doc_outcome(
            crate::wit::directive::directive_views(directives@),
            path@,
            context@,
        ),
{
    let doc = match optional_strings(directives, "doc", path, context) {
        Ok(value) => value,
        Err(error) => return Err(error),
    };
    match doc {
        None => Ok(None),
        Some(doc) => {
            if doc.is_empty() {
                Ok(None)
            } else {
                Ok(Some(doc))
            }
        },
    }
}

/// A directive that an omitted field cannot have.
pub open spec fn beside_omit_outcome(
    directives: Seq<crate::wit::directive::DirectiveView>,
    name: Seq<char>,
    path: Seq<char>,
    context: Seq<char>,
) -> Result<(), ErrorView> {
    let found_outcome = crate::wit::directive::directive_outcome(directives, name, path, context);
    let found = found_outcome->Ok_0;
    if found_outcome is Err {
        Err(found_outcome->Err_0)
    } else {
        match found {
            None => Ok(()),
            Some(_) => Err(
                crate::wit::directive::directive_failure(
                    path,
                    context,
                    "@nexus.omit"@,
                    ("cannot be combined with `@nexus."@ + name + "`"@),
                ),
            ),
        }
    }
}

/// A directive that an omitted field cannot have.
pub fn refuse_beside_omit(
    directives: &Vec<Directive>,
    name: &str,
    path: &str,
    context: &str,
) -> (result: Result<(), Error>)
    ensures
        crate::error::outcome(result) == beside_omit_outcome(
            crate::wit::directive::directive_views(directives@),
            name@,
            path@,
            context@,
        ),
{
    let found = match directive(directives, name, path, context) {
        Ok(value) => value,
        Err(error) => return Err(error),
    };
    match found {
        None => Ok(()),
        Some(_) => Err(
            directive_error(
                path,
                context,
                "@nexus.omit",
                "cannot be combined with `@nexus.".to_owned().concat(name).concat("`").as_str(),
            ),
        ),
    }
}

/// A field that is left out: it takes no arguments and stands beside no other directive.
pub open spec fn omitted_field_outcome(
    doc: WitDocument,
    field: WitField,
    directives: Seq<crate::wit::directive::DirectiveView>,
    omit: crate::wit::directive::DirectiveView,
    name: Seq<char>,
    path: Seq<char>,
    context: Seq<char>,
    language: Language,
) -> Result<RecordFieldView, ErrorView> {
    let checked = beside_omit_outcome(directives, "source"@, path, context);
    let checked_2 = beside_omit_outcome(directives, "type"@, path, context);
    let checked_3 = beside_omit_outcome(directives, "flattened-type"@, path, context);
    let checked_4 = beside_omit_outcome(directives, "function"@, path, context);
    let checked_5 = beside_omit_outcome(directives, "default"@, path, context);
    let field_type_outcome = crate::wit::function::resolved_type_for_language(
        doc,
        field.ty,
        path,
        context,
        language,
    );
    let field_type = field_type_outcome->Ok_0;
    if !crate::wit::directive::is_bare_directive(omit) {
        Err(
            crate::wit::directive::directive_failure(
                path,
                context,
                "@nexus.omit"@,
                "field-level omit does not take arguments"@,
            ),
        )
    } else if checked is Err {
        Err(checked->Err_0)
    } else if checked_2 is Err {
        Err(checked_2->Err_0)
    } else if checked_3 is Err {
        Err(checked_3->Err_0)
    } else if checked_4 is Err {
        Err(checked_4->Err_0)
    } else if checked_5 is Err {
        Err(checked_5->Err_0)
    } else if field_type_outcome is Err {
        Err(field_type_outcome->Err_0)
    } else {
        Ok(RecordFieldView {
                name: name,
                doc: None,
                annotation: None,
                flattened_annotation: None,
                field_type,
                default_value: None,
                required: false,
                visibility: VisibilityView::Omitted,
                function: None,
        })
    }
}

/// A field that is left out: it takes no arguments and stands beside no other directive.
pub fn build_omitted_field(
    doc: &WitDocument,
    field: &WitField,
    directives: &Vec<Directive>,
    omit: &Directive,
    name: &str,
    path: &str,
    context: &str,
    language: Language,
) -> (result: Result<RecordFieldSpec, Error>)
    requires
        doc.wf(),
        crate::wit::document::type_below(field.ty, doc.types@.len() as int),
    ensures
        crate::error::outcome(result) == omitted_field_outcome(
            *doc,
            *field,
            crate::wit::directive::directive_views(directives@),
            omit@,
            name@,
            path@,
            context@,
            language,
        ),
{
    if !omit.is_bare() {
        return Err(
            directive_error(
                path,
                context,
                "@nexus.omit",
                "field-level omit does not take arguments",
            ),
        );
    }
    match refuse_beside_omit(directives, "source", path, context) {
        Ok(_) => {},
        Err(error) => return Err(error),
    }
    match refuse_beside_omit(directives, "type", path, context) {
        Ok(_) => {},
        Err(error) => return Err(error),
    }
    match refuse_beside_omit(directives, "flattened-type", path, context) {
        Ok(_) => {},
        Err(error) => return Err(error),
    }
    match refuse_beside_omit(directives, "function", path, context) {
        Ok(_) => {},
        Err(error) => return Err(error),
    }
    match refuse_beside_omit(directives, "default", path, context) {
        Ok(_) => {},
        Err(error) => return Err(error),
    }
    let field_type = match resolve_type_for_language(doc, field.ty, path, context, language) {
        Ok(value) => value,
        Err(error) => return Err(error),
    };
    Ok(RecordFieldSpec {
        name: name.to_owned(),
        doc: None,
        annotation: None,
        flattened_annotation: None,
        field_type,
        default_value: None,
        required: false,
        visibility: RecordFieldVisibility::Omitted,
        function: None,
    })
}

/// Whether a field is seen, and where its value comes from.
pub open spec fn visibility_of(source: Option<Seq<char>>, api_omitted: bool) -> VisibilityView {
    match source {
        Some(source_expr) => VisibilityView::Sourced { source_expr },
        None => {
            if api_omitted {
                VisibilityView::ApiOmitted
            } else {
                VisibilityView::Public
            }
        },
    }
}

/// Whether a field is seen, and where its value comes from.
pub fn field_visibility(
    source: Option<String>,
    api_omitted: bool,
) -> (result: RecordFieldVisibility)
    ensures
        result@ == visibility_of(crate::text::opt_text(source), api_omitted),
{
    match source {
        Some(source_expr) => RecordFieldVisibility::Sourced { source_expr },
        None => {
            if api_omitted {
                RecordFieldVisibility::ApiOmitted
            } else {
                RecordFieldVisibility::Public
            }
        },
    }
}

/// The error for a field with a source and a function.
pub open spec fn source_and_function(context: Seq<char>, field: Seq<char>) -> ErrorView {
    ErrorView::ConflictingTypeOverrideFieldProperties {
        message: context,
        field: field,
        property: "source"@,
        conflicting_property: "function"@,
    }
}

/// The error for a field with a source and a function.
pub fn source_and_function_error(context: &str, field: &str) -> (result: Error)
    ensures
        result@ == source_and_function(context@, field@),
{
    Error::ConflictingTypeOverrideFieldProperties {
        message: context.to_owned(),
        field: field.to_owned(),
        property: "source".to_owned(),
        conflicting_property: "function".to_owned(),
    }
}

/// A field that is not left out. The function that its type stands for goes before one that a
/// directive gives it.
pub open spec fn kept_field_outcome(
    doc: WitDocument,
    owner: WitOwner,
    field: WitField,
    directives: Seq<crate::wit::directive::DirectiveView>,
    api_omit: Option<crate::wit::directive::DirectiveView>,
    default: Option<crate::wit::directive::DirectiveView>,
    name: Seq<char>,
    proto_name: Seq<char>,
    type_function: Option<crate::wit::function::FunctionFieldView>,
    path: Seq<char>,
    record_context: Seq<char>,
    context: Seq<char>,
    language: Language,
) -> Result<RecordFieldView, ErrorView> {
    let field_doc_outcome = field_doc_outcome(directives, path, context);
    let field_doc = field_doc_outcome->Ok_0;
    let field_type_outcome = crate::wit::function::resolved_type_for_language(
        doc,
        field.ty,
        path,
        context,
        language,
    );
    let field_type = field_type_outcome->Ok_0;
    let default_value_outcome = field_default_outcome(doc, field.ty, default, path, context);
    let default_value = default_value_outcome->Ok_0;
    let required = !crate::wit::resolve::optional_behind(doc, field.ty) && default_value.is_none();
    let source_outcome = source_outcome(directives, path, context, language);
    let source = source_outcome->Ok_0;
    let annotation_outcome = optional_strings_outcome(directives, "type"@, path, context);
    let annotation = annotation_outcome->Ok_0;
    let flattened_annotation_outcome = optional_strings_outcome(
        directives,
        "flattened-type"@,
        path,
        context,
    );
    let flattened_annotation = flattened_annotation_outcome->Ok_0;
    let function_outcome = crate::wit::function::function_field_outcome(
        doc,
        owner,
        directives,
        path,
        context,
        language,
    );
    let function = function_outcome->Ok_0;
    if field_doc_outcome is Err {
        Err(field_doc_outcome->Err_0)
    } else if field_type_outcome is Err {
        Err(field_type_outcome->Err_0)
    } else if default_value_outcome is Err {
        Err(default_value_outcome->Err_0)
    } else if source_outcome is Err {
        Err(source_outcome->Err_0)
    } else if has_arguments_view(api_omit) {
        Err(
            crate::wit::directive::directive_failure(
                path,
                context,
                "@nexus.api-omit"@,
                "field-level api-omit does not take arguments"@,
            ),
        )
    } else if api_omit.is_some() && source.is_some() {
        Err(
            crate::wit::directive::directive_failure(
                path,
                context,
                "@nexus.api-omit"@,
                "cannot be combined with `@nexus.source`"@,
            ),
        )
    } else if annotation_outcome is Err {
        Err(annotation_outcome->Err_0)
    } else if flattened_annotation_outcome is Err {
        Err(flattened_annotation_outcome->Err_0)
    } else if function_outcome is Err {
        Err(function_outcome->Err_0)
    } else if source.is_some() && function.is_some() {
        Err(source_and_function(record_context, proto_name))
    } else {
        Ok(RecordFieldView {
                name: name,
                doc: field_doc,
                annotation,
                flattened_annotation,
                field_type,
                default_value,
                required,
                visibility: visibility_of(source, api_omit.is_some()),
                function: match type_function {
                    Some(function) => Some(function),
                    None => function,
                },
        })
    }
}

/// A field that is not left out. The function that its type stands for goes before one that a
/// directive gives it.
pub fn build_kept_field(
    doc: &WitDocument,
    owner: WitOwner,
    field: &WitField,
    directives: &Vec<Directive>,
    api_omit: Option<&Directive>,
    default: Option<&Directive>,
    name: &str,
    proto_name: &str,
    type_function: Option<FunctionFieldSpec>,
    path: &str,
    record_context: &str,
    context: &str,
    language: Language,
) -> (result: Result<RecordFieldSpec, Error>)
    requires
        doc.wf(),
        doc.owner_ok(owner),
        crate::wit::document::type_below(field.ty, doc.types@.len() as int),
    ensures
        crate::error::outcome(result) == kept_field_outcome(
            *doc,
            owner,
            *field,
            crate::wit::directive::directive_views(directives@),
            crate::wit::directive::directive_ref(api_omit),
            crate::wit::directive::directive_ref(default),
            name@,
            proto_name@,
            crate::wit::function::function_field_spec_opt(type_function),
            path@,
            record_context@,
            context@,
            language,
        ),
{
    let field_doc = match field_doc_strings(directives, path, context) {
        Ok(value) => value,
        Err(error) => return Err(error),
    };
    let field_type = match resolve_type_for_language(doc, field.ty, path, context, language) {
        Ok(value) => value,
        Err(error) => return Err(error),
    };
    let default_value = match build_field_default(doc, field.ty, default, path, context) {
        Ok(value) => value,
        Err(error) => return Err(error),
    };
    let required = !is_optional_type(doc, field.ty) && default_value.is_none();
    let source = match build_source_call(directives, path, context, language) {
        Ok(value) => value,
        Err(error) => return Err(error),
    };
    if has_arguments(api_omit) {
        return Err(
            directive_error(
                path,
                context,
                "@nexus.api-omit",
                "field-level api-omit does not take arguments",
            ),
        );
    }
    if api_omit.is_some() && source.is_some() {
        return Err(
            directive_error(
                path,
                context,
                "@nexus.api-omit",
                "cannot be combined with `@nexus.source`",
            ),
        );
    }
    let annotation = match optional_strings(directives, "type", path, context) {
        Ok(value) => value,
        Err(error) => return Err(error),
    };
    let flattened_annotation = match optional_strings(directives, "flattened-type", path, context) {
        Ok(value) => value,
        Err(error) => return Err(error),
    };
    let function = match build_function_field(doc, owner, directives, path, context, language) {
        Ok(value) => value,
        Err(error) => return Err(error),
    };
    if source.is_some() && function.is_some() {
        return Err(source_and_function_error(record_context, proto_name));
    }
    Ok(RecordFieldSpec {
        name: name.to_owned(),
        doc: field_doc,
        annotation,
        flattened_annotation,
        field_type,
        default_value,
        required,
        visibility: field_visibility(source, api_omit.is_some()),
        function: match type_function {
            Some(function) => Some(function),
            None => function,
        },
    })
}

/// Whether a directive is there and has arguments.
pub open spec fn has_arguments_view(found: Option<crate::wit::directive::DirectiveView>) -> bool {
    match found {
        Some(found) => !crate::wit::directive::is_bare_directive(found),
        None => false,
    }
}

/// Whether a directive is there and has arguments.
pub fn has_arguments(found: Option<&Directive>) -> (result: bool)
    ensures
        result == has_arguments_view(crate::wit::directive::directive_ref(found)),
{
    match found {
        Some(found) => !found.is_bare(),
        None => false,
    }
}

/// The fields with one that holds an argument of a function.
pub open spec fn arg_field_outcome(
    fields: Seq<RecordEntryView>,
    arg_field: crate::wit::function::FlattenedArgView,
    field_name: Seq<char>,
    arg_count: usize,
    path: Seq<char>,
    context: Seq<char>,
    language: Language,
) -> Result<Seq<RecordEntryView>, ErrorView> {
    let made = RecordFieldView {
        name: arg_field.args_name,
        doc: Some(crate::wit::function::function_arg_doc(field_name, arg_field, arg_count)),
        annotation: None,
        flattened_annotation: None,
        field_type: crate::wit::types::type_for_language(arg_field.field_type, language),
        default_value: None,
        required: arg_field.required,
        visibility: VisibilityView::Public,
        function: None,
    };
    if has_key(fields, arg_field.field_name) {
        Err(
            crate::wit::directive::wit_failure(
                path,
                (context + " maps to duplicate proto field `"@ + arg_field.field_name + "`"@),
            ),
        )
    } else {
        Ok(fields.push(RecordEntryView { key: arg_field.field_name, field: made }))
    }
}

/// The fields with one that holds an argument of a function.
pub fn add_arg_field(
    fields: RecordFields,
    arg_field: &FlattenedFunctionArgSpec,
    field_name: &str,
    arg_count: usize,
    path: &str,
    context: &str,
    language: Language,
) -> (result: Result<RecordFields, Error>)
    ensures
        crate::error::outcome(result) == arg_field_outcome(
            fields@,
            arg_field@,
            field_name@,
            arg_count,
            path@,
            context@,
            language,
        ),
{
    if has_record_field(&fields, arg_field.field_name.as_str()) {
        return Err(
            wit_error(
                path,
                context.to_owned().concat(" maps to duplicate proto field `")
                    .concat(arg_field.field_name.as_str()).concat("`").as_str(),
            ),
        );
    }
    let made = RecordFieldSpec {
        name: arg_field.args_name.clone(),
        doc: Some(generated_function_arg_doc(field_name, arg_field, arg_count)),
        annotation: None,
        flattened_annotation: None,
        field_type: authored_field_type_for_language(&arg_field.field_type, language),
        default_value: None,
        required: arg_field.required,
        visibility: RecordFieldVisibility::Public,
        function: None,
    };
    Ok(with_record_field(fields, arg_field.field_name.clone(), made))
}

/// The fields with those that hold the arguments of a function.
pub open spec fn arg_fields_outcome(
    fields: Seq<RecordEntryView>,
    arg_fields: Seq<crate::wit::function::FlattenedArgView>,
    field_name: Seq<char>,
    arg_count: usize,
    path: Seq<char>,
    context: Seq<char>,
    language: Language,
) -> Result<Seq<RecordEntryView>, ErrorView>
    decreases arg_fields.len(),
{
    if arg_fields.len() == 0 {
        Ok(fields)
    } else {
        let arg_field = arg_fields.last();
        match arg_fields_outcome(
            fields,
            arg_fields.drop_last(),
            field_name,
            arg_count,
            path,
            context,
            language,
        ) {
            Err(error) => Err(error),
            Ok(fields) => {
                arg_field_outcome(fields, arg_field, field_name, arg_count, path, context, language)
            },
        }
    }
}

proof fn lemma_arg_fields(
    fields: Seq<RecordEntryView>,
    arg_fields: Seq<crate::wit::function::FlattenedArgView>,
    field_name: Seq<char>,
    arg_count: usize,
    path: Seq<char>,
    context: Seq<char>,
    language: Language,
    count: int,
)
    requires
        0 <= count <= arg_fields.len(),
        arg_fields_outcome(
            fields,
            arg_fields.take(count),
            field_name,
            arg_count,
            path,
            context,
            language,
        ) is Err,
    ensures
        arg_fields_outcome(
            fields,
            arg_fields,
            field_name,
            arg_count,
            path,
            context,
            language,
        ) == arg_fields_outcome(
            fields,
            arg_fields.take(count),
            field_name,
            arg_count,
            path,
            context,
            language,
        ),
    decreases arg_fields.len() - count,
{
    if count == arg_fields.len() {
        assert(arg_fields.take(count) =~= arg_fields);
    } else {
        assert(arg_fields.take(count + 1).drop_last() =~= arg_fields.take(count));
        lemma_arg_fields(
            fields,
            arg_fields,
            field_name,
            arg_count,
            path,
            context,
            language,
            count + 1,
        );
    }
}

/// The fields with those that hold the arguments of a function.
pub fn add_arg_fields(
    fields: RecordFields,
    arg_fields: &Vec<FlattenedFunctionArgSpec>,
    field_name: &str,
    arg_count: usize,
    path: &str,
    context: &str,
    language: Language,
) -> (result: Result<RecordFields, Error>)
    ensures
        crate::error::outcome(result) == arg_fields_outcome(
            fields@,
            crate::wit::function::flattened_function_arg_spec_views(arg_fields@),
            field_name@,
            arg_count,
            path@,
            context@,
            language,
        ),
{
    let mut current = fields;
    let mut i: usize = 0;
    while i < arg_fields.len()
        invariant
            i <= arg_fields.len(),
            arg_fields_outcome(
                fields@,
                crate::wit::function::flattened_function_arg_spec_views(arg_fields@).take(i as int),
                field_name@,
                arg_count,
                path@,
                context@,
                language,
            ) == Ok::<Seq<RecordEntryView>, ErrorView>(current@),
        decreases arg_fields.len() - i,
    {
        assert(
            crate::wit::function::flattened_function_arg_spec_views(arg_fields@).take(i + 1)
                .drop_last()
                =~= crate::wit::function::flattened_function_arg_spec_views(arg_fields@).take(
                    i as int,
                )
        );
        assert(
            crate::wit::function::flattened_function_arg_spec_views(arg_fields@).take(i + 1).last()
                == crate::wit::function::flattened_function_arg_spec_views(arg_fields@)[i as int]
        );
        let arg_field = &arg_fields[i];
        let outcome: Result<RecordFields, Error> = add_arg_field(
            current,
            arg_field,
            field_name,
            arg_count,
            path,
            context,
            language,
        );
        match outcome {
            Ok(made) => {
                current = made;
            },
            Err(error) => {
                proof {
                    lemma_arg_fields(
                        fields@,
                        crate::wit::function::flattened_function_arg_spec_views(arg_fields@),
                        field_name@,
                        arg_count,
                        path@,
                        context@,
                        language,
                        i + 1,
                    );
                }
                return Err(error);
            },
        }
        i += 1;
    }
    assert(
        crate::wit::function::flattened_function_arg_spec_views(arg_fields@).take(i as int)
            =~= crate::wit::function::flattened_function_arg_spec_views(arg_fields@)
    );
    Ok(current)
}

/// The fields with one of the record, and those that hold the arguments of its function.
pub open spec fn record_field_outcome(
    fields: Seq<RecordEntryView>,
    field: WitField,
    doc: WitDocument,
    owner: WitOwner,
    path: Seq<char>,
    record_context: Seq<char>,
    language: Language,
) -> Result<Seq<RecordEntryView>, ErrorView> {
    let context = record_context + " field `"@ + field.name@ + "`"@;
    let directives_outcome = crate::wit::directive::directives_outcome(
        crate::text::opt_text(field.docs),
        path,
        context,
    );
    let directives = directives_outcome->Ok_0;
    let checked = crate::wit::strings::misplaced_type_parameter_outcome(directives, path, context);
    let name_outcome = generated_name_outcome(directives, field, path, context, language);
    let name = name_outcome->Ok_0;
    let omit_outcome = crate::wit::directive::directive_outcome(directives, "omit"@, path, context);
    let omit = omit_outcome->Ok_0;
    let api_omit_outcome = crate::wit::directive::directive_outcome(
        directives,
        "api-omit"@,
        path,
        context,
    );
    let api_omit = api_omit_outcome->Ok_0;
    let proto_name_outcome = proto_field_name_outcome(directives, field, path, context);
    let proto_name = proto_name_outcome->Ok_0;
    let function_outcome = crate::wit::directive::directive_outcome(
        directives,
        "function"@,
        path,
        context,
    );
    let function = function_outcome->Ok_0;
    let default_outcome = crate::wit::directive::directive_outcome(
        directives,
        "default"@,
        path,
        context,
    );
    let default = default_outcome->Ok_0;
    let flattened_outcome = field_function_outcome(
        doc,
        field.ty,
        omit.is_none() && function.is_none(),
        path,
        language,
    );
    let flattened = flattened_outcome->Ok_0;
    if directives_outcome is Err {
        Err(directives_outcome->Err_0)
    } else if checked is Err {
        Err(checked->Err_0)
    } else if name_outcome is Err {
        Err(name_outcome->Err_0)
    } else if omit_outcome is Err {
        Err(omit_outcome->Err_0)
    } else if api_omit_outcome is Err {
        Err(api_omit_outcome->Err_0)
    } else if proto_name_outcome is Err {
        Err(proto_name_outcome->Err_0)
    } else if function_outcome is Err {
        Err(function_outcome->Err_0)
    } else if default_outcome is Err {
        Err(default_outcome->Err_0)
    } else if flattened_outcome is Err {
        Err(flattened_outcome->Err_0)
    } else if has_key(fields, proto_name) {
        Err(
            crate::wit::directive::wit_failure(
                path,
                (context + " maps to duplicate proto field `"@ + proto_name + "`"@),
            ),
        )
    } else if omit.is_some() && api_omit.is_some() {
        Err(
            crate::wit::directive::directive_failure(
                path,
                context,
                "@nexus.api-omit"@,
                "cannot be combined with `@nexus.omit`"@,
            ),
        )
    } else {
        match omit {
            Some(omit) => {
                let made_outcome = omitted_field_outcome(
                    doc,
                    field,
                    directives,
                    omit,
                    name,
                    path,
                    context,
                    language,
                );
                let made = made_outcome->Ok_0;
                if made_outcome is Err {
                    Err(made_outcome->Err_0)
                } else {
                    Ok(fields.push(RecordEntryView { key: proto_name, field: made }))
                }
            },
            None => match flattened {
                None => {
                    let made_outcome = kept_field_outcome(
                        doc,
                        owner,
                        field,
                        directives,
                        api_omit,
                        default,
                        name,
                        proto_name,
                        None,
                        path,
                        record_context,
                        context,
                        language,
                    );
                    let made = made_outcome->Ok_0;
                    if made_outcome is Err {
                        Err(made_outcome->Err_0)
                    } else {
                        Ok(fields.push(RecordEntryView { key: proto_name, field: made }))
                    }
                },
                Some(flattened) => {
                    let count: usize = flattened.arg_fields.len() as usize;
                    let made_outcome = kept_field_outcome(
                        doc,
                        owner,
                        field,
                        directives,
                        api_omit,
                        default,
                        name,
                        proto_name,
                        Some(flattened.function),
                        path,
                        record_context,
                        context,
                        language,
                    );
                    let made = made_outcome->Ok_0;
                    let with_own = fields.push(RecordEntryView { key: proto_name, field: made });
                    if made_outcome is Err {
                        Err(made_outcome->Err_0)
                    } else {
                        arg_fields_outcome(
                            with_own,
                            flattened.arg_fields,
                            field.name@,
                            count,
                            path,
                            context,
                            language,
                        )
                    }
                },
            },
        }
    }
}

/// The fields with one of the record, and those that hold the arguments of its function.
pub fn add_record_field(
    fields: RecordFields,
    field: &WitField,
    doc: &WitDocument,
    owner: WitOwner,
    path: &str,
    record_context: &str,
    language: Language,
) -> (result: Result<RecordFields, Error>)
    requires
        doc.wf(),
        doc.owner_ok(owner),
        crate::wit::document::type_below(field.ty, doc.types@.len() as int),
    ensures
        crate::error::outcome(result) == record_field_outcome(
            fields@,
            *field,
            *doc,
            owner,
            path@,
            record_context@,
            language,
        ),
{
    let context = record_context.to_owned().concat(" field `").concat(field.name.as_str())
        .concat("`");
    let directives = match parse_directives(&field.docs, path, context.as_str()) {
        Ok(value) => value,
        Err(error) => return Err(error),
    };
    match reject_misplaced_type_parameter(&directives, path, context.as_str()) {
        Ok(_) => {},
        Err(error) => return Err(error),
    }
    let name = match generated_field_name(&directives, field, path, context.as_str(), language) {
        Ok(value) => value,
        Err(error) => return Err(error),
    };
    let omit = match directive(&directives, "omit", path, context.as_str()) {
        Ok(value) => value,
        Err(error) => return Err(error),
    };
    let api_omit = match directive(&directives, "api-omit", path, context.as_str()) {
        Ok(value) => value,
        Err(error) => return Err(error),
    };
    let proto_name = match proto_field_name(&directives, field, path, context.as_str()) {
        Ok(value) => value,
        Err(error) => return Err(error),
    };
    let function = match directive(&directives, "function", path, context.as_str()) {
        Ok(value) => value,
        Err(error) => return Err(error),
    };
    let default = match directive(&directives, "default", path, context.as_str()) {
        Ok(value) => value,
        Err(error) => return Err(error),
    };
    let flattened = match field_function_type(
        doc,
        field.ty,
        omit.is_none() && function.is_none(),
        path,
        language,
    ) {
        Ok(value) => value,
        Err(error) => return Err(error),
    };
    if has_record_field(&fields, proto_name.as_str()) {
        return Err(
            wit_error(
                path,
                context.clone().concat(" maps to duplicate proto field `")
                    .concat(proto_name.as_str()).concat("`").as_str(),
            ),
        );
    }
    if omit.is_some() && api_omit.is_some() {
        return Err(
            directive_error(
                path,
                context.as_str(),
                "@nexus.api-omit",
                "cannot be combined with `@nexus.omit`",
            ),
        );
    }
    match omit {
        Some(omit) => {
            let made = match build_omitted_field(
                doc,
                field,
                &directives,
                omit,
                name.as_str(),
                path,
                context.as_str(),
                language,
            ) {
                Ok(value) => value,
                Err(error) => return Err(error),
            };
            Ok(with_record_field(fields, proto_name, made))
        },
        None => match flattened {
            None => {
                let made = match build_kept_field(
                    doc,
                    owner,
                    field,
                    &directives,
                    api_omit,
                    default,
                    name.as_str(),
                    proto_name.as_str(),
                    None,
                    path,
                    record_context,
                    context.as_str(),
                    language,
                ) {
                    Ok(value) => value,
                    Err(error) => return Err(error),
                };
                Ok(with_record_field(fields, proto_name, made))
            },
            Some(flattened) => {
                let count: usize = flattened.arg_fields.len();
                let made = match build_kept_field(
                    doc,
                    owner,
                    field,
                    &directives,
                    api_omit,
                    default,
                    name.as_str(),
                    proto_name.as_str(),
                    Some(flattened.function),
                    path,
                    record_context,
                    context.as_str(),
                    language,
                ) {
                    Ok(value) => value,
                    Err(error) => return Err(error),
                };
                let with_own = with_record_field(fields, proto_name, made);
                add_arg_fields(
                    with_own,
                    &flattened.arg_fields,
                    field.name.as_str(),
                    count,
                    path,
                    context.as_str(),
                    language,
                )
            },
        },
    }
}

/// The protobuf name of a field.
pub open spec fn proto_field_name_outcome(
    directives: Seq<crate::wit::directive::DirectiveView>,
    field: WitField,
    path: Seq<char>,
    context: Seq<char>,
) -> Result<Seq<char>, ErrorView> {
    let found_outcome = crate::wit::strings::directive_text_under(
        directives,
        "proto-field"@,
        path,
        context,
        "value"@,
    );
    let found = found_outcome->Ok_0;
    if found_outcome is Err {
        Err(found_outcome->Err_0)
    } else {
        match found {
            Some(name) => Ok(name),
            None => Ok(crate::naming::snake(field.name@)),
        }
    }
}

/// The protobuf name of a field.
pub fn proto_field_name(
    directives: &Vec<Directive>,
    field: &WitField,
    path: &str,
    context: &str,
) -> (result: Result<String, Error>)
    ensures
        crate::error::outcome(result) == proto_field_name_outcome(
            crate::wit::directive::directive_views(directives@),
            *field,
            path@,
            context@,
        ),
{
    let found = match directive_value(directives, "proto-field", path, context, "value") {
        Ok(value) => value,
        Err(error) => return Err(error),
    };
    match found {
        Some(name) => Ok(name),
        None => Ok(to_snake(field.name.as_str())),
    }
}

/// The function that the type of a field stands for, where it is asked for.
pub open spec fn field_function_outcome(
    doc: WitDocument,
    ty: WitType,
    asked: bool,
    path: Seq<char>,
    language: Language,
) -> Result<Option<crate::wit::function::FlattenedFunctionView>, ErrorView> {
    if asked {
        crate::wit::function::flattened_function_outcome(doc, ty, path, language)
    } else {
        Ok(None)
    }
}

/// The function that the type of a field stands for, where it is asked for.
pub fn field_function_type(
    doc: &WitDocument,
    ty: WitType,
    asked: bool,
    path: &str,
    language: Language,
) -> (result: Result<Option<FlattenedFunctionTypeSpec>, Error>)
    requires
        doc.wf(),
        crate::wit::document::type_below(ty, doc.types@.len() as int),
    ensures
        crate::error::opt_outcome(result) == field_function_outcome(
            *doc,
            ty,
            asked,
            path@,
            language,
        ),
{
    if asked {
        find_flattened_function_type_spec(doc, ty, path, language)
    } else {
        Ok(None)
    }
}

/// Whether every field is of a declared type.
pub open spec fn fields_below(fields: Seq<WitField>, limit: int) -> bool {
    forall|i: int|
        0 <= i < fields.len() ==> crate::wit::document::type_below(
        (#[trigger] fields[i]).ty,
        limit,
    )
}

/// The fields with those of a record.
pub open spec fn record_fields_outcome(
    fields: Seq<RecordEntryView>,
    record_fields: Seq<WitField>,
    doc: WitDocument,
    owner: WitOwner,
    path: Seq<char>,
    context: Seq<char>,
    language: Language,
) -> Result<Seq<RecordEntryView>, ErrorView>
    decreases record_fields.len(),
{
    if record_fields.len() == 0 {
        Ok(fields)
    } else {
        let field = record_fields.last();
        match record_fields_outcome(
            fields,
            record_fields.drop_last(),
            doc,
            owner,
            path,
            context,
            language,
        ) {
            Err(error) => Err(error),
            Ok(fields) => {
                record_field_outcome(fields, field, doc, owner, path, context, language)
            },
        }
    }
}

proof fn lemma_record_fields(
    fields: Seq<RecordEntryView>,
    record_fields: Seq<WitField>,
    doc: WitDocument,
    owner: WitOwner,
    path: Seq<char>,
    context: Seq<char>,
    language: Language,
    count: int,
)
    requires
        0 <= count <= record_fields.len(),
        record_fields_outcome(
            fields,
            record_fields.take(count),
            doc,
            owner,
            path,
            context,
            language,
        ) is Err,
    ensures
        record_fields_outcome(
            fields,
            record_fields,
            doc,
            owner,
            path,
            context,
            language,
        ) == record_fields_outcome(
            fields,
            record_fields.take(count),
            doc,
            owner,
            path,
            context,
            language,
        ),
    decreases record_fields.len() - count,
{
    if count == record_fields.len() {
        assert(record_fields.take(count) =~= record_fields);
    } else {
        assert(record_fields.take(count + 1).drop_last() =~= record_fields.take(count));
        lemma_record_fields(fields, record_fields, doc, owner, path, context, language, count + 1);
    }
}

/// The fields with those of a record.
pub fn add_record_fields(
    fields: RecordFields,
    record_fields: &Vec<WitField>,
    doc: &WitDocument,
    owner: WitOwner,
    path: &str,
    context: &str,
    language: Language,
) -> (result: Result<RecordFields, Error>)
    requires
        doc.wf(),
        doc.owner_ok(owner),
        fields_below(record_fields@, doc.types@.len() as int),
    ensures
        crate::error::outcome(result) == record_fields_outcome(
            fields@,
            record_fields@,
            *doc,
            owner,
            path@,
            context@,
            language,
        ),
{
    let mut current = fields;
    let mut i: usize = 0;
    while i < record_fields.len()
        invariant
            i <= record_fields.len(),
            doc.wf(),
            doc.owner_ok(owner),
            fields_below(record_fields@, doc.types@.len() as int),
            record_fields_outcome(
                fields@,
                record_fields@.take(i as int),
                *doc,
                owner,
                path@,
                context@,
                language,
            ) == Ok::<Seq<RecordEntryView>, ErrorView>(current@),
        decreases record_fields.len() - i,
    {
        assert(record_fields@.take(i + 1).drop_last() =~= record_fields@.take(i as int));
        assert(record_fields@.take(i + 1).last() == record_fields@[i as int]);
        let field = &record_fields[i];
        let outcome: Result<RecordFields, Error> = add_record_field(
            current,
            field,
            doc,
            owner,
            path,
            context,
            language,
        );
        match outcome {
            Ok(made) => {
                current = made;
            },
            Err(error) => {
                proof {
                    lemma_record_fields(
                        fields@,
                        record_fields@,
                        *doc,
                        owner,
                        path@,
                        context@,
                        language,
                        i + 1,
                    );
                }
                return Err(error);
            },
        }
        i += 1;
    }
    assert(record_fields@.take(i as int) =~= record_fields@);
    Ok(current)
}

/// The fields of a record.
pub open spec fn fields_of_record(
    doc: WitDocument,
    owner: WitOwner,
    record_fields: Seq<WitField>,
    path: Seq<char>,
    context: Seq<char>,
    language: Language,
) -> Result<Seq<RecordEntryView>, ErrorView> {
    record_fields_outcome(Seq::empty(), record_fields, doc, owner, path, context, language)
}

/// The fields of a record.
pub fn build_fields_from_record(
    doc: &WitDocument,
    owner: WitOwner,
    record_fields: &Vec<WitField>,
    path: &str,
    context: &str,
    language: Language,
) -> (result: Result<RecordFields, Error>)
    requires
        doc.wf(),
        doc.owner_ok(owner),
        fields_below(record_fields@, doc.types@.len() as int),
    ensures
        crate::error::outcome(result) == fields_of_record(
            *doc,
            owner,
            record_fields@,
            path@,
            context@,
            language,
        ),
{
    add_record_fields(no_record_fields(), record_fields, doc, owner, path, context, language)
}

/// Whether no two fields have one protobuf name.
pub open spec fn keys_distinct(entries: Seq<RecordEntryView>) -> bool {
    forall|i: int, j: int|
        0 <= i < j < entries.len() ==> (#[trigger] entries[i]).key != (#[trigger] entries[j]).key
}

proof fn lemma_arg_fields_distinct(
    fields: Seq<RecordEntryView>,
    arg_fields: Seq<crate::wit::function::FlattenedArgView>,
    field_name: Seq<char>,
    arg_count: usize,
    path: Seq<char>,
    context: Seq<char>,
    language: Language,
)
    requires
        keys_distinct(fields),
    ensures
        arg_fields_outcome(
            fields,
            arg_fields,
            field_name,
            arg_count,
            path,
            context,
            language,
        ) matches Ok(made) ==> keys_distinct(made),
    decreases arg_fields.len(),
{
    if arg_fields.len() > 0 {
        lemma_arg_fields_distinct(
            fields,
            arg_fields.drop_last(),
            field_name,
            arg_count,
            path,
            context,
            language,
        );
    }
}

proof fn lemma_record_field_distinct(
    fields: Seq<RecordEntryView>,
    field: WitField,
    doc: WitDocument,
    owner: WitOwner,
    path: Seq<char>,
    context: Seq<char>,
    language: Language,
)
    requires
        keys_distinct(fields),
    ensures
        record_field_outcome(fields, field, doc, owner, path, context, language) matches Ok(made)
            ==> keys_distinct(made),
{
    assert forall|entry: RecordEntryView| !has_key(fields, entry.key) implies keys_distinct(
        #[trigger] fields.push(entry),
    ) by {}
    assert forall|
        entries: Seq<RecordEntryView>,
        arg_fields: Seq<crate::wit::function::FlattenedArgView>,
        name: Seq<char>,
        count: usize,
        place: Seq<char>,
    | keys_distinct(entries) implies (#[trigger] arg_fields_outcome(
        entries,
        arg_fields,
        name,
        count,
        path,
        place,
        language,
    ) matches Ok(made) ==> keys_distinct(made)) by {
        lemma_arg_fields_distinct(entries, arg_fields, name, count, path, place, language);
    }
}

proof fn lemma_record_fields_distinct(
    fields: Seq<RecordEntryView>,
    record_fields: Seq<WitField>,
    doc: WitDocument,
    owner: WitOwner,
    path: Seq<char>,
    context: Seq<char>,
    language: Language,
)
    requires
        keys_distinct(fields),
    ensures
        record_fields_outcome(
            fields,
            record_fields,
            doc,
            owner,
            path,
            context,
            language,
        ) matches Ok(made) ==> keys_distinct(made),
    decreases record_fields.len(),
{
    if record_fields.len() > 0 {
        let before = record_fields.drop_last();
        lemma_record_fields_distinct(fields, before, doc, owner, path, context, language);
        match record_fields_outcome(fields, before, doc, owner, path, context, language) {
            Ok(made) => {
                lemma_record_field_distinct(
                    made,
                    record_fields.last(),
                    doc,
                    owner,
                    path,
                    context,
                    language,
                );
            },
            Err(_) => {},
        }
    }
}

/// No two fields of a record, with those that hold the arguments of functions, have one protobuf
/// name.
pub proof fn law_record_fields_have_distinct_names(
    doc: WitDocument,
    owner: WitOwner,
    record_fields: Seq<WitField>,
    path: Seq<char>,
    context: Seq<char>,
    language: Language,
)
    ensures
        fields_of_record(doc, owner, record_fields, path, context, language) matches Ok(made)
            ==> keys_distinct(made),
{
    lemma_record_fields_distinct(
        Seq::empty(),
        record_fields,
        doc,
        owner,
        path,
        context,
        language,
    );
}

} // verus!
