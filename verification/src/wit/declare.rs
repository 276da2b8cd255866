//! The types that WIT interfaces declare.

use vstd::prelude::*;

use crate::error::{Error, ErrorView};
use crate::language::Language;
use crate::naming::{to_snake, to_upper_camel};
use crate::paths::{place_texts, Placement};
use crate::plan::{LanguageStringSpec, TypeReplacementSpec};
use crate::text::text_eq;
use crate::wit::directive::{directive, directive_error, parse_directives, wit_error, Directive};
use crate::wit::document::{WitCase, WitDocument, WitInterface, WitName, WitType, WitTypeKind};
use crate::wit::function::{resolve_authored_type_def_kind, resolve_type_for_language};
use crate::wit::record::{build_fields_from_record, RecordFields};
use crate::wit::resolve::{interface_label, no_entries, type_label, wit_type_full_name};
use crate::wit::strings::{
    directive_language_string, directive_prefixed_language_string, experimental_directive,
    language_strings,
};
use crate::wit::types::{opt_authored_type_for_language, TypeSpec};

verus! {

/// A value of an enumeration.
#[derive(Debug)]
pub struct EnumValueSpec {
    pub wire_name: String,
    pub name: String,
    pub number: i32,
}

/// A [`EnumValueSpec`] by its texts.
#[verifier::ext_equal]
pub struct EnumValueView {
    pub wire_name: Seq<char>,
    pub name: Seq<char>,
    pub number: i32,
}

impl View for EnumValueSpec {
    type V = EnumValueView;

    open spec fn view(&self) -> EnumValueView {
        EnumValueView {
            wire_name: self.wire_name@,
            name: self.name@,
            number: self.number,
        }
    }
}

/// The texts of a list of [`EnumValueSpec`].
pub open spec fn enum_value_spec_views(items: Seq<EnumValueSpec>) -> Seq<EnumValueView> {
    items.map_values(|item: EnumValueSpec| item@)
}

/// An enumeration.
#[derive(Debug)]
pub struct EnumSpec {
    pub name: String,
    pub full_name: String,
    pub values: Vec<EnumValueSpec>,
}

/// A [`EnumSpec`] by its texts.
#[verifier::ext_equal]
pub struct EnumView {
    pub name: Seq<char>,
    pub full_name: Seq<char>,
    pub values: Seq<EnumValueView>,
}

impl View for EnumSpec {
    type V = EnumView;

    open spec fn view(&self) -> EnumView {
        EnumView {
            name: self.name@,
            full_name: self.full_name@,
            values: enum_value_spec_views(self.values@),
        }
    }
}

/// The texts of an optional [`EnumSpec`].
pub open spec fn enum_spec_opt(value: Option<EnumSpec>) -> Option<EnumView> {
    match value {
        Some(value) => Some(value@),
        None => None,
    }
}

/// A flag, and the bit that it is.
#[derive(Debug)]
pub struct FlagSpec {
    pub name: String,
    pub bit: usize,
}

/// A [`FlagSpec`] by its texts.
#[verifier::ext_equal]
pub struct FlagView {
    pub name: Seq<char>,
    pub bit: usize,
}

impl View for FlagSpec {
    type V = FlagView;

    open spec fn view(&self) -> FlagView {
        FlagView {
            name: self.name@,
            bit: self.bit,
        }
    }
}

/// The texts of a list of [`FlagSpec`].
pub open spec fn flag_spec_views(items: Seq<FlagSpec>) -> Seq<FlagView> {
    items.map_values(|item: FlagSpec| item@)
}

/// A set of flags.
#[derive(Debug)]
pub struct FlagsSpec {
    pub name: String,
    pub full_name: String,
    pub flags: Vec<FlagSpec>,
}

/// A [`FlagsSpec`] by its texts.
#[verifier::ext_equal]
pub struct FlagsView {
    pub name: Seq<char>,
    pub full_name: Seq<char>,
    pub flags: Seq<FlagView>,
}

impl View for FlagsSpec {
    type V = FlagsView;

    open spec fn view(&self) -> FlagsView {
        FlagsView {
            name: self.name@,
            full_name: self.full_name@,
            flags: flag_spec_views(self.flags@),
        }
    }
}

/// The texts of an optional [`FlagsSpec`].
pub open spec fn flags_spec_opt(value: Option<FlagsSpec>) -> Option<FlagsView> {
    match value {
        Some(value) => Some(value@),
        None => None,
    }
}

/// A case of a variant.
#[derive(Debug)]
pub struct VariantCaseSpec {
    pub name: String,
    pub wire_name: String,
    pub payload: Option<TypeSpec>,
}

/// A [`VariantCaseSpec`] by its texts.
#[verifier::ext_equal]
pub struct VariantCaseView {
    pub name: Seq<char>,
    pub wire_name: Seq<char>,
    pub payload: Option<crate::wit::types::TypeView>,
}

impl View for VariantCaseSpec {
    type V = VariantCaseView;

    open spec fn view(&self) -> VariantCaseView {
        VariantCaseView {
            name: self.name@,
            wire_name: self.wire_name@,
            payload: crate::wit::types::type_spec_opt(self.payload),
        }
    }
}

/// The texts of a list of [`VariantCaseSpec`].
pub open spec fn variant_case_spec_views(items: Seq<VariantCaseSpec>) -> Seq<VariantCaseView> {
    items.map_values(|item: VariantCaseSpec| item@)
}

/// A variant.
#[derive(Debug)]
pub struct VariantSpec {
    pub name: String,
    pub full_name: String,
    pub cases: Vec<VariantCaseSpec>,
}

/// A [`VariantSpec`] by its texts.
#[verifier::ext_equal]
pub struct VariantView {
    pub name: Seq<char>,
    pub full_name: Seq<char>,
    pub cases: Seq<VariantCaseView>,
}

impl View for VariantSpec {
    type V = VariantView;

    open spec fn view(&self) -> VariantView {
        VariantView {
            name: self.name@,
            full_name: self.full_name@,
            cases: variant_case_spec_views(self.cases@),
        }
    }
}

/// A record, and the protobuf type that it is bound to.
#[derive(Debug)]
pub struct RecordSpec {
    pub name: String,
    pub full_name: String,
    pub doc: LanguageStringSpec,
    pub source_type: Option<String>,
    pub experimental: bool,
    pub flatten_in_api: bool,
    pub fields: RecordFields,
}

/// A [`RecordSpec`] by its texts.
#[verifier::ext_equal]
pub struct RecordView {
    pub name: Seq<char>,
    pub full_name: Seq<char>,
    pub doc: crate::plan::LanguageStringView,
    pub source_type: Option<Seq<char>>,
    pub experimental: bool,
    pub flatten_in_api: bool,
    pub fields: Seq<crate::wit::record::RecordEntryView>,
}

impl View for RecordSpec {
    type V = RecordView;

    open spec fn view(&self) -> RecordView {
        RecordView {
            name: self.name@,
            full_name: self.full_name@,
            doc: self.doc@,
            source_type: crate::text::opt_text(self.source_type),
            experimental: self.experimental,
            flatten_in_api: self.flatten_in_api,
            fields: self.fields@,
        }
    }
}

/// A protobuf type that a WIT type is bound to, and what stands for it.
#[derive(Debug)]
pub struct ExternalTypeBindingSpec {
    pub proto_name: String,
    pub reference: LanguageStringSpec,
    pub annotation: LanguageStringSpec,
    pub replacement: Option<TypeReplacementSpec>,
    pub authored_type: Option<TypeSpec>,
}

/// A [`ExternalTypeBindingSpec`] by its texts.
#[verifier::ext_equal]
pub struct ExternalBindingView {
    pub proto_name: Seq<char>,
    pub reference: crate::plan::LanguageStringView,
    pub annotation: crate::plan::LanguageStringView,
    pub replacement: Option<crate::plan::TypeReplacementView>,
    pub authored_type: Option<crate::wit::types::TypeView>,
}

impl View for ExternalTypeBindingSpec {
    type V = ExternalBindingView;

    open spec fn view(&self) -> ExternalBindingView {
        ExternalBindingView {
            proto_name: self.proto_name@,
            reference: self.reference@,
            annotation: self.annotation@,
            replacement: crate::plan::type_replacement_spec_opt(self.replacement),
            authored_type: crate::wit::types::type_spec_opt(self.authored_type),
        }
    }
}

/// A declared type.
#[derive(Debug)]
pub enum TypeDeclSpec {
    Record(RecordSpec),
    Enumeration(EnumSpec),
    Flags(FlagsSpec),
    Variant(VariantSpec),
    External(ExternalTypeBindingSpec),
}

/// A [`TypeDeclSpec`] by its texts.
#[verifier::ext_equal]
pub enum TypeDeclView {
    Record(RecordView),
    Enumeration(EnumView),
    Flags(FlagsView),
    Variant(VariantView),
    External(ExternalBindingView),
}

impl View for TypeDeclSpec {
    type V = TypeDeclView;

    open spec fn view(&self) -> TypeDeclView {
        match *self {
            TypeDeclSpec::Record(decl) => TypeDeclView::Record(decl@),
            TypeDeclSpec::Enumeration(decl) => TypeDeclView::Enumeration(decl@),
            TypeDeclSpec::Flags(decl) => TypeDeclView::Flags(decl@),
            TypeDeclSpec::Variant(decl) => TypeDeclView::Variant(decl@),
            TypeDeclSpec::External(decl) => TypeDeclView::External(decl@),
        }
    }
}

/// Whether a module exports a type by itself.
#[derive(Debug, Clone, Copy, PartialEq, Eq, Structural)]
pub enum ModuleExport {
    Used,
    Owned,
}

/// A declared type under its full name.
#[derive(Debug)]
pub struct TypeDeclEntry {
    pub full_name: String,
    pub decl: TypeDeclSpec,
    pub module_export: ModuleExport,
}

/// A [`TypeDeclEntry`] by its texts.
#[verifier::ext_equal]
pub struct TypeDeclEntryView {
    pub full_name: Seq<char>,
    pub decl: TypeDeclView,
    pub module_export: ModuleExport,
}

impl View for TypeDeclEntry {
    type V = TypeDeclEntryView;

    open spec fn view(&self) -> TypeDeclEntryView {
        TypeDeclEntryView {
            full_name: self.full_name@,
            decl: self.decl@,
            module_export: self.module_export,
        }
    }
}

/// The texts of a list of [`TypeDeclEntry`].
pub open spec fn type_decl_entry_views(items: Seq<TypeDeclEntry>) -> Seq<TypeDeclEntryView> {
    items.map_values(|item: TypeDeclEntry| item@)
}

impl TypeDeclEntry {
    /// Whether a module exports the type by itself.
    pub fn is_module_export(&self) -> (exported: bool)
        ensures
            exported == (self@.module_export == ModuleExport::Owned),
    {
        self.module_export == ModuleExport::Owned
    }
}

/// Declared types, in the order of their full names.
#[derive(Debug)]
pub struct TypeTable {
    pub entries: Vec<TypeDeclEntry>,
}

impl View for TypeTable {
    type V = Seq<TypeDeclEntryView>;

    open spec fn view(&self) -> Seq<TypeDeclEntryView> {
        type_decl_entry_views(self.entries@)
    }
}

/// Whether the types stand in strictly ascending order of their full names.
pub open spec fn types_ascending(entries: Seq<TypeDeclEntryView>) -> bool {
    forall|i: int, j: int|
        0 <= i < j < entries.len() ==> crate::paths::text_before(
        (#[trigger] entries[i]).full_name,
        (#[trigger] entries[j]).full_name,
    )
}

/// Whether a type is declared under a full name.
pub open spec fn has_type(entries: Seq<TypeDeclEntryView>, name: Seq<char>) -> bool {
    exists|i: int| 0 <= i < entries.len() && (#[trigger] entries[i]).full_name == name
}

/// How many of the first types come before a full name.
pub open spec fn type_place(entries: Seq<TypeDeclEntryView>, name: Seq<char>) -> int
    decreases entries.len(),
{
    if entries.len() == 0 || !crate::paths::text_before(entries[0].full_name, name) {
        0
    } else {
        1 + type_place(entries.drop_first(), name)
    }
}

/// The types with one more at its place in the order.
pub open spec fn types_with(
    entries: Seq<TypeDeclEntryView>,
    name: Seq<char>,
    decl: TypeDeclView,
) -> Seq<TypeDeclEntryView> {
    entries.insert(
        type_place(entries, name),
        TypeDeclEntryView { full_name: name, decl, module_export: ModuleExport::Used },
    )
}

proof fn lemma_type_place(entries: Seq<TypeDeclEntryView>, name: Seq<char>)
    ensures
        0 <= type_place(entries, name) <= entries.len(),
        forall|i: int|
            0 <= i < type_place(entries, name) ==> crate::paths::text_before(
                (#[trigger] entries[i]).full_name,
                name,
            ),
        type_place(entries, name) < entries.len() ==> !crate::paths::text_before(
            entries[type_place(entries, name)].full_name,
            name,
        ),
    decreases entries.len(),
{
    if entries.len() > 0 && crate::paths::text_before(entries[0].full_name, name) {
        let rest = entries.drop_first();
        lemma_type_place(rest, name);
        assert forall|i: int| 0 <= i < type_place(entries, name) implies crate::paths::text_before(
            (#[trigger] entries[i]).full_name,
            name,
        ) by {
            if i > 0 {
                assert(rest[i - 1] == entries[i]);
            }
        }
        if type_place(entries, name) < entries.len() {
            assert(rest[type_place(rest, name)] == entries[type_place(entries, name)]);
        }
    }
}

/// Types that stand in order stay in order with one more under a name of its own.
pub proof fn law_types_stay_in_order(
    entries: Seq<TypeDeclEntryView>,
    name: Seq<char>,
    decl: TypeDeclView,
)
    requires
        types_ascending(entries),
        !has_type(entries, name),
    ensures
        types_ascending(types_with(entries, name, decl)),
        has_type(types_with(entries, name, decl), name),
        forall|other: Seq<char>|
            has_type(entries, other) ==> #[trigger] has_type(
                types_with(entries, name, decl),
                other,
            ),
{
    let at = type_place(entries, name);
    let made = types_with(entries, name, decl);
    lemma_type_place(entries, name);
    assert(made[at].full_name == name);
    assert forall|i: int, j: int| 0 <= i < j < made.len() implies crate::paths::text_before(
        (#[trigger] made[i]).full_name,
        (#[trigger] made[j]).full_name,
    ) by {
        if j == at {
            assert(made[i] == entries[i]);
        } else if i == at {
            assert(made[j] == entries[j - 1]);
            crate::paths::lemma_text_before_total(entries[at].full_name, name);
            assert(entries[at].full_name != name);
            if j - 1 > at {
                assert(crate::paths::text_before(
                    entries[at].full_name,
                    entries[j - 1].full_name,
                ));
                crate::paths::lemma_text_before_transitive(
                    name,
                    entries[at].full_name,
                    entries[j - 1].full_name,
                );
            }
        } else {
            let from = if i < at { i } else { i - 1 };
            let to = if j < at { j } else { j - 1 };
            assert(made[i] == entries[from] && made[j] == entries[to]);
        }
    }
    assert forall|other: Seq<char>| has_type(entries, other) implies #[trigger] has_type(
        made,
        other,
    ) by {
        let i = choose|i: int| 0 <= i < entries.len() && (#[trigger] entries[i]).full_name == other;
        if i < at {
            assert(made[i].full_name == other);
        } else {
            assert(made[i + 1].full_name == other);
        }
    }
}

impl TypeTable {
    /// The table without types.
    pub fn new() -> (table: Self)
        ensures
            table@ == Seq::<TypeDeclEntryView>::empty(),
    {
        let table = TypeTable { entries: Vec::new() };
        assert(table@ =~= Seq::<TypeDeclEntryView>::empty());
        table
    }

    /// Where a type is declared under a full name.
    pub fn position(&self, name: &str) -> (index: Option<usize>)
        ensures
            match index {
                Some(i) => i < self@.len() && self@[i as int].full_name == name@,
                None => !has_type(self@, name@),
            },
    {
        let mut i: usize = 0;
        while i < self.entries.len()
            invariant
                i <= self.entries.len(),
                forall|k: int| 0 <= k < i ==> (#[trigger] self@[k]).full_name != name@,
            decreases self.entries.len() - i,
        {
            assert(self@[i as int].full_name == self.entries@[i as int].full_name@);
            if text_eq(self.entries[i].full_name.as_str(), name) {
                return Some(i);
            }
            i += 1;
        }
        None
    }

    /// The type that is declared under a full name.
    pub fn get(&self, name: &str) -> (decl: Option<&TypeDeclEntry>)
        ensures
            match decl {
                Some(entry) => self@.contains(entry@) && entry@.full_name == name@,
                None => !has_type(self@, name@),
            },
    {
        match self.position(name) {
            Some(i) => {
                assert(self@[i as int] == self.entries@[i as int]@);
                Some(&self.entries[i])
            },
            None => None,
        }
    }
}

/// Whether a type is declared under a full name.
pub fn declares(types: &TypeTable, name: &str) -> (found: bool)
    ensures
        found == has_type(types@, name@),
{
    match types.position(name) {
        Some(i) => {
            assert(types@[i as int].full_name == name@);
            true
        },
        None => false,
    }
}

/// The types with one more at its place in the order.
fn insert_type(types: TypeTable, name: String, decl: TypeDeclSpec) -> (all: TypeTable)
    ensures
        all@ == types_with(types@, name@, decl@),
{
    let ghost before = types@;
    let mut entries = types.entries;
    let ghost raw = entries@;
    let mut i: usize = 0;
    assert(before.skip(0) =~= before);
    while i < entries.len() && matches!(
        place_texts(entries[i].full_name.as_str(), name.as_str()),
        Placement::Before
    )
        invariant
            i <= entries.len(),
            entries@ == raw,
            before == type_decl_entry_views(raw),
            i + type_place(before.skip(i as int), name@) == type_place(before, name@),
        decreases entries.len() - i,
    {
        assert(before.skip(i as int)[0] == raw[i as int]@);
        assert(before.skip(i as int).drop_first() =~= before.skip(i + 1));
        i += 1;
    }
    proof {
        if i < entries.len() {
            assert(before.skip(i as int)[0] == raw[i as int]@);
        }
    }
    let entry = TypeDeclEntry { full_name: name, decl, module_export: ModuleExport::Used };
    let ghost made = entry@;
    entries.insert(i, entry);
    assert(type_decl_entry_views(entries@) =~= before.insert(i as int, made));
    TypeTable { entries }
}

/// The types with one more; a full name is not to be used twice.
pub open spec fn added_type(
    types: Seq<TypeDeclEntryView>,
    name: Seq<char>,
    decl: TypeDeclView,
    path: Seq<char>,
    duplicate: Seq<char>,
) -> Result<Seq<TypeDeclEntryView>, ErrorView> {
    if has_type(types, name) {
        Err(crate::wit::directive::wit_failure(path, duplicate))
    } else {
        Ok(types_with(types, name, decl))
    }
}

/// The types with one more; a full name is not to be used twice.
pub fn add_type(
    types: TypeTable,
    name: &str,
    decl: TypeDeclSpec,
    path: &str,
    duplicate: &str,
) -> (result: Result<TypeTable, Error>)
    ensures
        crate::error::outcome(result) == added_type(types@, name@, decl@, path@, duplicate@),
{
    if declares(&types, name) {
        return Err(wit_error(path, duplicate));
    }
    Ok(insert_type(types, name.to_owned(), decl))
}

/// A type parameter is an alias without arguments, and without another meaning.
pub open spec fn type_parameter_outcome(
    doc: WitDocument,
    id: usize,
    path: Seq<char>,
) -> Result<(), ErrorView> {
    let type_def = doc.types@[id as int];
    let full_name = crate::wit::resolve::full_type_name(doc, id);
    let context = "type `"@ + full_name + "`"@;
    let directives_outcome = crate::wit::directive::directives_outcome(
        crate::text::opt_text(type_def.docs),
        path,
        context,
    );
    let directives = directives_outcome->Ok_0;
    let found_outcome = crate::wit::directive::directive_outcome(
        directives,
        "type-parameter"@,
        path,
        context,
    );
    let found = found_outcome->Ok_0;
    if directives_outcome is Err {
        Err(directives_outcome->Err_0)
    } else if found_outcome is Err {
        Err(found_outcome->Err_0)
    } else {
        match found {
            None => Ok(()),
            Some(found) => {
                let checked = beside_type_parameter_outcome(directives, "proto"@, path, context);
                let checked_2 = beside_type_parameter_outcome(directives, "type"@, path, context);
                if !crate::wit::directive::is_bare_directive(found) {
                    Err(
                        crate::wit::directive::directive_failure(
                            path,
                            context,
                            "@nexus.type-parameter"@,
                            "does not take arguments"@,
                        ),
                    )
                } else if !(type_def.kind is Alias) {
                    Err(
                        crate::wit::directive::directive_failure(
                            path,
                            context,
                            "@nexus.type-parameter"@,
                            "is only supported on WIT type aliases"@,
                        ),
                    )
                } else if checked is Err {
                    Err(checked->Err_0)
                } else if checked_2 is Err {
                    Err(checked_2->Err_0)
                } else {
                    beside_type_parameter_outcome(directives, "function"@, path, context)
                }
            },
        }
    }
}

/// A type parameter is an alias without arguments, and without another meaning.
pub fn validate_type_parameter_directive(
    doc: &WitDocument,
    id: usize,
    path: &str,
) -> (result: Result<(), Error>)
    requires
        doc.wf(),
        id < doc.types@.len(),
    ensures
        crate::error::outcome(result) == type_parameter_outcome(*doc, id, path@),
{
    let type_def = &doc.types[id];
    let full_name = wit_type_full_name(doc, id);
    let context = "type `".to_owned().concat(full_name.as_str()).concat("`");
    let directives = match parse_directives(&type_def.docs, path, context.as_str()) {
        Ok(value) => value,
        Err(error) => return Err(error),
    };
    let found = match directive(&directives, "type-parameter", path, context.as_str()) {
        Ok(value) => value,
        Err(error) => return Err(error),
    };
    match found {
        None => Ok(()),
        Some(found) => {
            if !found.is_bare() {
                return Err(
                    directive_error(
                        path,
                        context.as_str(),
                        "@nexus.type-parameter",
                        "does not take arguments",
                    ),
                );
            }
            if !matches!(type_def.kind, WitTypeKind::Alias(_)) {
                return Err(
                    directive_error(
                        path,
                        context.as_str(),
                        "@nexus.type-parameter",
                        "is only supported on WIT type aliases",
                    ),
                );
            }
            match refuse_beside_type_parameter(&directives, "proto", path, context.as_str()) {
                Ok(_) => {},
                Err(error) => return Err(error),
            }
            match refuse_beside_type_parameter(&directives, "type", path, context.as_str()) {
                Ok(_) => {},
                Err(error) => return Err(error),
            }
            refuse_beside_type_parameter(&directives, "function", path, context.as_str())
        },
    }
}

/// A directive that a type parameter cannot have.
pub open spec fn beside_type_parameter_outcome(
    directives: Seq<crate::wit::directive::DirectiveView>,
    name: Seq<char>,
    path: Seq<char>,
    context: Seq<char>,
) -> Result<(), ErrorView> {
    let found_outcome = crate::wit::directive::directive_outcome(directives, name, path, context);
    let found = found_outcome->Ok_0;
    if found_outcome is Err {
        Err(found_outcome->Err_0)
    } else {
        match found {
            None => Ok(()),
            Some(_) => Err(
                crate::wit::directive::directive_failure(
                    path,
                    context,
                    "@nexus.type-parameter"@,
                    ("cannot be combined with `@nexus."@ + name + "`"@),
                ),
            ),
        }
    }
}

/// A directive that a type parameter cannot have.
pub fn refuse_beside_type_parameter(
    directives: &Vec<Directive>,
    name: &str,
    path: &str,
    context: &str,
) -> (result: Result<(), Error>)
    ensures
        crate::error::outcome(result) == beside_type_parameter_outcome(
            crate::wit::directive::directive_views(directives@),
            name@,
            path@,
            context@,
        ),
{
    let found = match directive(directives, name, path, context) {
        Ok(value) => value,
        Err(error) => return Err(error),
    };
    match found {
        None => Ok(()),
        Some(_) => Err(
            directive_error(
                path,
                context,
                "@nexus.type-parameter",
                "cannot be combined with `@nexus.".to_owned().concat(name).concat("`").as_str(),
            ),
        ),
    }
}

/// The values of an enumeration, numbered in their order.
pub open spec fn enum_value_list(cases: Seq<Seq<char>>) -> Seq<EnumValueView> {
    Seq::new(
        cases.len(),
        |i: int|
            {
            let case = cases[i];
            let index = i;
            EnumValueView {
                wire_name: case,
                name: crate::naming::upper_camel(case),
                number: index as i32,
            }
        },
    )
}

/// The values of an enumeration, numbered in their order.
pub fn enum_values(cases: &Vec<String>) -> (result: Vec<EnumValueSpec>)
    requires
        cases@.len() <= i32::MAX,
    ensures
        enum_value_spec_views(result@) == enum_value_list(crate::text::texts(cases@)),
{
    let ghost wanted = enum_value_list(crate::text::texts(cases@));
    let mut list: Vec<EnumValueSpec> = Vec::new();
    let mut i: usize = 0;
    assert(enum_value_spec_views(list@) =~= wanted.take(0));
    while i < cases.len()
        invariant
            i <= cases.len(),
            cases@.len() <= i32::MAX,
            wanted == enum_value_list(crate::text::texts(cases@)),
            enum_value_spec_views(list@) == wanted.take(i as int),
        decreases cases.len() - i,
    {
        let case = cases[i].as_str();
        let index: usize = i;
        let made: EnumValueSpec = EnumValueSpec {
            wire_name: case.to_owned(),
            name: to_upper_camel(case),
            number: index as i32,
        };
        assert(wanted[i as int] =~= made@);
        let ghost before = list@;
        list.push(made);
        assert(enum_value_spec_views(list@) =~= enum_value_spec_views(before).push(made@));
        assert(wanted.take(i + 1) =~= wanted.take(i as int).push(wanted[i as int]));
        i += 1;
    }
    assert(wanted.take(i as int) =~= wanted);
    list
}

/// The enumeration that a type is.
pub open spec fn enum_of_type(doc: WitDocument, id: usize) -> Option<EnumView> {
    let type_def = doc.types@[id as int];

    match type_def.kind {
        WitTypeKind::Enumeration(cases) => {
            let label = crate::wit::resolve::type_label_text(type_def);
            Some(EnumView {
                    name: crate::naming::upper_camel(label),
                    full_name: crate::wit::resolve::full_type_name(doc, id),
                    values: enum_value_list(crate::text::texts(cases@)),
            })
        },
        _ => None,
    }
}

/// The enumeration that a type is.
pub fn build_wit_enum_spec(doc: &WitDocument, id: usize) -> (result: Option<EnumSpec>)
    requires
        doc.wf(),
        id < doc.types@.len(),
    ensures
        enum_spec_opt(result) == enum_of_type(*doc, id),
{
    let type_def = &doc.types[id];
    proof { assert(doc.type_ok(id as int)); }
    match &type_def.kind {
        WitTypeKind::Enumeration(cases) => {
            let label = type_label(type_def);
            Some(EnumSpec {
                name: to_upper_camel(label.as_str()),
                full_name: wit_type_full_name(doc, id),
                values: enum_values(cases),
            })
        },
        _ => None,
    }
}

/// The flags of a set, each a bit of its own.
pub open spec fn flag_views(flags: Seq<Seq<char>>) -> Seq<FlagView> {
    Seq::new(
        flags.len(),
        |i: int|
            {
            let flag = flags[i];
            let index = i;
            FlagView { name: crate::naming::upper_camel(flag), bit: index as usize }
        },
    )
}

/// The flags of a set, each a bit of its own.
pub fn flag_list(flags: &Vec<String>) -> (result: Vec<FlagSpec>)
    ensures
        flag_spec_views(result@) == flag_views(crate::text::texts(flags@)),
{
    let ghost wanted = flag_views(crate::text::texts(flags@));
    let mut list: Vec<FlagSpec> = Vec::new();
    let mut i: usize = 0;
    assert(flag_spec_views(list@) =~= wanted.take(0));
    while i < flags.len()
        invariant
            i <= flags.len(),
            wanted == flag_views(crate::text::texts(flags@)),
            flag_spec_views(list@) == wanted.take(i as int),
        decreases flags.len() - i,
    {
        let flag = flags[i].as_str();
        let index: usize = i;
        let made: FlagSpec = FlagSpec { name: to_upper_camel(flag), bit: index };
        assert(wanted[i as int] =~= made@);
        let ghost before = list@;
        list.push(made);
        assert(flag_spec_views(list@) =~= flag_spec_views(before).push(made@));
        assert(wanted.take(i + 1) =~= wanted.take(i as int).push(wanted[i as int]));
        i += 1;
    }
    assert(wanted.take(i as int) =~= wanted);
    list
}

/// The set of flags that a type is.
pub open spec fn flags_of_type(doc: WitDocument, id: usize) -> Option<FlagsView> {
    let type_def = doc.types@[id as int];
    match type_def.kind {
        WitTypeKind::Flags(flags) => {
            let label = crate::wit::resolve::type_label_text(type_def);
            Some(FlagsView {
                    name: crate::naming::upper_camel(label),
                    full_name: crate::wit::resolve::full_type_name(doc, id),
                    flags: flag_views(crate::text::texts(flags@)),
            })
        },
        _ => None,
    }
}

/// The set of flags that a type is.
pub fn build_wit_flags_spec(doc: &WitDocument, id: usize) -> (result: Option<FlagsSpec>)
    requires
        doc.wf(),
        id < doc.types@.len(),
    ensures
        flags_spec_opt(result) == flags_of_type(*doc, id),
{
    let type_def = &doc.types[id];
    match &type_def.kind {
        WitTypeKind::Flags(flags) => {
            let label = type_label(type_def);
            Some(FlagsSpec {
                name: to_upper_camel(label.as_str()),
                full_name: wit_type_full_name(doc, id),
                flags: flag_list(flags),
            })
        },
        _ => None,
    }
}

/// What a case of a variant carries.
pub open spec fn payload_outcome(
    doc: WitDocument,
    ty: Option<WitType>,
    path: Seq<char>,
    context: Seq<char>,
    language: Language,
) -> Result<Option<crate::wit::types::TypeView>, ErrorView> {
    match ty {
        None => Ok(None),
        Some(ty) => {
            let payload_outcome = crate::wit::function::resolved_type_for_language(
                doc,
                ty,
                path,
                context,
                language,
            );
            let payload = payload_outcome->Ok_0;
            if payload_outcome is Err {
                Err(payload_outcome->Err_0)
            } else {
                Ok(Some(payload))
            }
        },
    }
}

/// What a case of a variant carries.
pub fn variant_payload(
    doc: &WitDocument,
    ty: Option<WitType>,
    path: &str,
    context: &str,
    language: Language,
) -> (result: Result<Option<TypeSpec>, Error>)
    requires
        doc.wf(),
        crate::wit::document::opt_type_below(ty, doc.types@.len() as int),
    ensures
        crate::error::opt_outcome(result) == payload_outcome(*doc, ty, path@, context@, language),
{
    match ty {
        None => Ok(None),
        Some(ty) => {
            let payload = match resolve_type_for_language(doc, ty, path, context, language) {
                Ok(value) => value,
                Err(error) => return Err(error),
            };
            Ok(Some(payload))
        },
    }
}

/// A case of a variant.
pub open spec fn variant_case_outcome(
    case: WitCase,
    doc: WitDocument,
    path: Seq<char>,
    context: Seq<char>,
    language: Language,
) -> Result<VariantCaseView, ErrorView> {
    let case_context = context + " case `"@ + case.name@ + "`"@;
    let payload_outcome = payload_outcome(doc, case.ty, path, case_context, language);
    let payload = payload_outcome->Ok_0;
    if payload_outcome is Err {
        Err(payload_outcome->Err_0)
    } else {
        Ok(VariantCaseView {
                name: case.name@,
                wire_name: crate::naming::snake(case.name@),
                payload,
        })
    }
}

/// A case of a variant.
pub fn build_variant_case(
    case: &WitCase,
    doc: &WitDocument,
    path: &str,
    context: &str,
    language: Language,
) -> (result: Result<VariantCaseSpec, Error>)
    requires
        doc.wf(),
        crate::wit::document::opt_type_below(case.ty, doc.types@.len() as int),
    ensures
        crate::error::outcome(result) == variant_case_outcome(
            *case,
            *doc,
            path@,
            context@,
            language,
        ),
{
    let case_context = context.to_owned().concat(" case `").concat(case.name.as_str()).concat("`");
    let payload = match variant_payload(doc, case.ty, path, case_context.as_str(), language) {
        Ok(value) => value,
        Err(error) => return Err(error),
    };
    Ok(VariantCaseSpec {
        name: case.name.clone(),
        wire_name: to_snake(case.name.as_str()),
        payload,
    })
}

/// Whether every case carries a declared type or nothing.
pub open spec fn cases_below(cases: Seq<WitCase>, limit: int) -> bool {
    forall|i: int|
        0 <= i < cases.len() ==> crate::wit::document::opt_type_below(
        (#[trigger] cases[i]).ty,
        limit,
    )
}

/// The cases of a variant.
pub open spec fn variant_cases_outcome(
    cases: Seq<WitCase>,
    doc: WitDocument,
    path: Seq<char>,
    context: Seq<char>,
    language: Language,
) -> Result<Seq<VariantCaseView>, ErrorView>
    decreases cases.len(),
{
    if cases.len() == 0 {
        Ok(Seq::empty())
    } else {
        let case = cases.last();
        match variant_cases_outcome(cases.drop_last(), doc, path, context, language) {
            Err(error) => Err(error),
            Ok(before) => {
                let outcome: Result<VariantCaseView, ErrorView> = variant_case_outcome(
                    case,
                    doc,
                    path,
                    context,
                    language,
                );
                match outcome {
                    Ok(part) => Ok(before.push(part)),
                    Err(error) => Err(error),
                }
            },
        }
    }
}

proof fn lemma_variant_cases(
    cases: Seq<WitCase>,
    doc: WitDocument,
    path: Seq<char>,
    context: Seq<char>,
    language: Language,
    count: int,
)
    requires
        0 <= count <= cases.len(),
        variant_cases_outcome(cases.take(count), doc, path, context, language) is Err,
    ensures
        variant_cases_outcome(cases, doc, path, context, language) == variant_cases_outcome(
            cases.take(count),
            doc,
            path,
            context,
            language,
        ),
    decreases cases.len() - count,
{
    if count == cases.len() {
        assert(cases.take(count) =~= cases);
    } else {
        assert(cases.take(count + 1).drop_last() =~= cases.take(count));
        lemma_variant_cases(cases, doc, path, context, language, count + 1);
    }
}

/// The cases of a variant.
pub fn build_variant_cases(
    cases: &Vec<WitCase>,
    doc: &WitDocument,
    path: &str,
    context: &str,
    language: Language,
) -> (result: Result<Vec<VariantCaseSpec>, Error>)
    requires
        doc.wf(),
        cases_below(cases@, doc.types@.len() as int),
    ensures
        match (result, variant_cases_outcome(cases@, *doc, path@, context@, language)) {
            (Ok(found), Ok(wanted)) => variant_case_spec_views(found@) == wanted,
            (Err(error), Err(wanted)) => error@ == wanted,
            _ => false,
        },
{
    let mut list: Vec<VariantCaseSpec> = Vec::new();
    let mut i: usize = 0;
    assert(variant_case_spec_views(list@) =~= Seq::empty());
    while i < cases.len()
        invariant
            i <= cases.len(),
            doc.wf(),
            cases_below(cases@, doc.types@.len() as int),
            variant_cases_outcome(
                cases@.take(i as int),
                *doc,
                path@,
                context@,
                language,
            ) == Ok::<Seq<VariantCaseView>, ErrorView>(variant_case_spec_views(list@)),
        decreases cases.len() - i,
    {
        assert(cases@.take(i + 1).drop_last() =~= cases@.take(i as int));
        assert(cases@.take(i + 1).last() == cases@[i as int]);
        let case = &cases[i];
        let outcome: Result<VariantCaseSpec, Error> = build_variant_case(
            case,
            doc,
            path,
            context,
            language,
        );
        match outcome {
            Ok(part) => {
                let ghost before = list@;
                list.push(part);
                assert(
                    variant_case_spec_views(list@) =~= variant_case_spec_views(before).push(part@)
                );
            },
            Err(error) => {
                proof {
                    lemma_variant_cases(cases@, *doc, path@, context@, language, i + 1);
                }
                return Err(error);
            },
        }
        i += 1;
    }
    assert(cases@.take(i as int) =~= cases@);
    Ok(list)
}

/// The variant that a type is.
pub open spec fn variant_outcome(
    doc: WitDocument,
    id: usize,
    path: Seq<char>,
    language: Language,
) -> Result<Option<VariantView>, ErrorView> {
    let type_def = doc.types@[id as int];

    match type_def.kind {
        WitTypeKind::Variant(cases) => {
            let label = crate::wit::resolve::type_label_text(type_def);
            let full_name = crate::wit::resolve::full_type_name(doc, id);
            let context = "type `"@ + full_name + "`"@;
            let cases_outcome = variant_cases_outcome(cases@, doc, path, context, language);
            let cases = cases_outcome->Ok_0;
            if cases_outcome is Err {
                Err(cases_outcome->Err_0)
            } else {
                Ok(Some(VariantView { name: crate::naming::upper_camel(label), full_name, cases }))
            }
        },
        _ => Ok(None),
    }
}

/// The variant that a type is.
pub fn build_wit_variant_spec(
    doc: &WitDocument,
    id: usize,
    path: &str,
    language: Language,
) -> (result: Result<Option<VariantSpec>, Error>)
    requires
        doc.wf(),
        id < doc.types@.len(),
    ensures
        crate::error::opt_outcome(result) == variant_outcome(*doc, id, path@, language),
{
    let type_def = &doc.types[id];
    proof { assert(doc.type_ok(id as int)); }
    match &type_def.kind {
        WitTypeKind::Variant(cases) => {
            let label = type_label(type_def);
            let full_name = wit_type_full_name(doc, id);
            let context = "type `".to_owned().concat(full_name.as_str()).concat("`");
            let cases = match build_variant_cases(cases, doc, path, context.as_str(), language) {
                Ok(value) => value,
                Err(error) => return Err(error),
            };
            Ok(Some(VariantSpec { name: to_upper_camel(label.as_str()), full_name, cases }))
        },
        _ => Ok(None),
    }
}

/// The protobuf type that a directive binds a type to.
pub open spec fn bound_proto_outcome(
    directives: Seq<crate::wit::directive::DirectiveView>,
    path: Seq<char>,
    context: Seq<char>,
) -> Result<Option<Seq<char>>, ErrorView> {
    let found_outcome = crate::wit::directive::directive_outcome(
        directives,
        "proto"@,
        path,
        context,
    );
    let found = found_outcome->Ok_0;
    if found_outcome is Err {
        Err(found_outcome->Err_0)
    } else {
        match found {
            None => Ok(None),
            Some(found) => match crate::wit::directive::value_of(found, "value"@) {
                Some(name) => Ok(Some(name)),
                None => Err(
                    crate::wit::directive::directive_failure(
                        path,
                        context,
                        "@nexus.proto"@,
                        "missing required proto type name"@,
                    ),
                ),
            },
        }
    }
}

/// The protobuf type that a directive binds a type to.
pub fn bound_proto_type(
    directives: &Vec<Directive>,
    path: &str,
    context: &str,
) -> (result: Result<Option<String>, Error>)
    ensures
        crate::error::opt_outcome(result) == bound_proto_outcome(
            crate::wit::directive::directive_views(directives@),
            path@,
            context@,
        ),
{
    let found = match directive(directives, "proto", path, context) {
        Ok(value) => value,
        Err(error) => return Err(error),
    };
    match found {
        None => Ok(None),
        Some(found) => match found.value("value") {
            Some(name) => Ok(Some(name)),
            None => Err(
                directive_error(path, context, "@nexus.proto", "missing required proto type name"),
            ),
        },
    }
}

/// A type is not left out as a whole.
pub open spec fn type_omit_outcome(
    directives: Seq<crate::wit::directive::DirectiveView>,
    path: Seq<char>,
    context: Seq<char>,
) -> Result<(), ErrorView> {
    let found_outcome = crate::wit::directive::directive_outcome(
        directives,
        "omit"@,
        path,
        context,
    );
    let found = found_outcome->Ok_0;
    if found_outcome is Err {
        Err(found_outcome->Err_0)
    } else {
        match found {
            None => Ok(()),
            Some(_) => Err(crate::wit::directive::directive_failure(
                    path,
                    context,
                    "@nexus.omit"@,
                    "mark record fields with `@nexus.omit`; type-level omit is no longer supported"@,
            )),
        }
    }
}

/// A type is not left out as a whole.
pub fn refuse_type_omit(
    directives: &Vec<Directive>,
    path: &str,
    context: &str,
) -> (result: Result<(), Error>)
    ensures
        crate::error::outcome(result) == type_omit_outcome(
            crate::wit::directive::directive_views(directives@),
            path@,
            context@,
        ),
{
    let found = match directive(directives, "omit", path, context) {
        Ok(value) => value,
        Err(error) => return Err(error),
    };
    match found {
        None => Ok(()),
        Some(_) => Err(directive_error(
            path,
            context,
            "@nexus.omit",
            "mark record fields with `@nexus.omit`; type-level omit is no longer supported",
        )),
    }
}

/// What a directive with a name says for each language; nothing where it is not there.
pub open spec fn strings_or_none_outcome(
    directives: Seq<crate::wit::directive::DirectiveView>,
    name: Seq<char>,
    path: Seq<char>,
    context: Seq<char>,
) -> Result<crate::plan::LanguageStringView, ErrorView> {
    let found_outcome = crate::wit::directive::directive_outcome(directives, name, path, context);
    let found = found_outcome->Ok_0;
    if found_outcome is Err {
        Err(found_outcome->Err_0)
    } else {
        match found {
            None => Ok(crate::plan::no_strings()),
            Some(found) => Ok(crate::wit::strings::directive_strings(found)),
        }
    }
}

/// What a directive with a name says for each language; nothing where it is not there.
pub fn strings_or_none(
    directives: &Vec<Directive>,
    name: &str,
    path: &str,
    context: &str,
) -> (result: Result<LanguageStringSpec, Error>)
    ensures
        crate::error::outcome(result) == strings_or_none_outcome(
            crate::wit::directive::directive_views(directives@),
            name@,
            path@,
            context@,
        ),
{
    let found = match directive(directives, name, path, context) {
        Ok(value) => value,
        Err(error) => return Err(error),
    };
    match found {
        None => Ok(LanguageStringSpec::new()),
        Some(found) => Ok(directive_language_string(found)),
    }
}

/// The record that a type is.
pub open spec fn record_outcome(
    doc: WitDocument,
    id: usize,
    path: Seq<char>,
    interface_name: Seq<char>,
    language: Language,
) -> Result<Option<RecordView>, ErrorView> {
    let type_def = doc.types@[id as int];

    match type_def.kind {
        WitTypeKind::Record(fields) => {
            let label = crate::wit::resolve::type_label_text(type_def);
            let context = "type `"@ + interface_name + "."@ + label + "`"@;
            let directives_outcome = crate::wit::directive::directives_outcome(
                crate::text::opt_text(type_def.docs),
                path,
                context,
            );
            let directives = directives_outcome->Ok_0;
            let experimental_outcome = crate::wit::strings::experimental_outcome(
                directives,
                path,
                context,
            );
            let experimental = experimental_outcome->Ok_0;
            let source_type_outcome = bound_proto_outcome(directives, path, context);
            let source_type = source_type_outcome->Ok_0;
            let flatten_outcome = crate::wit::directive::directive_outcome(
                directives,
                "flatten-in-api"@,
                path,
                context,
            );
            let flatten = flatten_outcome->Ok_0;
            let checked = type_omit_outcome(directives, path, context);
            let model_doc_outcome = strings_or_none_outcome(directives, "doc"@, path, context);
            let model_doc = model_doc_outcome->Ok_0;
            let made_outcome = crate::wit::record::fields_of_record(
                doc,
                type_def.owner,
                fields@,
                path,
                context,
                language,
            );
            let made = made_outcome->Ok_0;
            if directives_outcome is Err {
                Err(directives_outcome->Err_0)
            } else if experimental_outcome is Err {
                Err(experimental_outcome->Err_0)
            } else if source_type_outcome is Err {
                Err(source_type_outcome->Err_0)
            } else if flatten_outcome is Err {
                Err(flatten_outcome->Err_0)
            } else if checked is Err {
                Err(checked->Err_0)
            } else if model_doc_outcome is Err {
                Err(model_doc_outcome->Err_0)
            } else if made_outcome is Err {
                Err(made_outcome->Err_0)
            } else {
                Ok(Some(RecordView {
                            name: crate::naming::upper_camel(label),
                            full_name: crate::wit::resolve::full_type_name(doc, id),
                            doc: model_doc,
                            source_type,
                            experimental,
                            flatten_in_api: flatten.is_some(),
                            fields: made,
                }))
            }
        },
        _ => Ok(None),
    }
}

/// The record that a type is.
pub fn build_wit_record_spec(
    doc: &WitDocument,
    id: usize,
    path: &str,
    interface_name: &str,
    language: Language,
) -> (result: Result<Option<RecordSpec>, Error>)
    requires
        doc.wf(),
        id < doc.types@.len(),
    ensures
        crate::error::opt_outcome(result) == record_outcome(
            *doc,
            id,
            path@,
            interface_name@,
            language,
        ),
{
    let type_def = &doc.types[id];
    proof { assert(doc.type_ok(id as int)); }
    match &type_def.kind {
        WitTypeKind::Record(fields) => {
            let label = type_label(type_def);
            let context = "type `".to_owned().concat(interface_name).concat(".")
                .concat(label.as_str()).concat("`");
            let directives = match parse_directives(&type_def.docs, path, context.as_str()) {
                Ok(value) => value,
                Err(error) => return Err(error),
            };
            let experimental = match experimental_directive(&directives, path, context.as_str()) {
                Ok(value) => value,
                Err(error) => return Err(error),
            };
            let source_type = match bound_proto_type(&directives, path, context.as_str()) {
                Ok(value) => value,
                Err(error) => return Err(error),
            };
            let flatten = match directive(&directives, "flatten-in-api", path, context.as_str()) {
                Ok(value) => value,
                Err(error) => return Err(error),
            };
            match refuse_type_omit(&directives, path, context.as_str()) {
                Ok(_) => {},
                Err(error) => return Err(error),
            }
            let model_doc = match strings_or_none(&directives, "doc", path, context.as_str()) {
                Ok(value) => value,
                Err(error) => return Err(error),
            };
            let made = match build_fields_from_record(
                doc,
                type_def.owner,
                fields,
                path,
                context.as_str(),
                language,
            ) {
                Ok(value) => value,
                Err(error) => return Err(error),
            };
            Ok(Some(RecordSpec {
                name: to_upper_camel(label.as_str()),
                full_name: wit_type_full_name(doc, id),
                doc: model_doc,
                source_type,
                experimental,
                flatten_in_api: flatten.is_some(),
                fields: made,
            }))
        },
        _ => Ok(None),
    }
}

/// The error for conversions without a type.
pub open spec fn incomplete_override(named: Seq<char>) -> ErrorView {
    ErrorView::IncompleteTypeOverride { named: named }
}

/// The error for conversions without a type.
pub fn incomplete_override_error(named: &str) -> (result: Error)
    ensures
        result@ == incomplete_override(named@),
{
    Error::IncompleteTypeOverride { named: named.to_owned() }
}

/// The type of a language that stands for a protobuf type, and the functions between the two.
pub open spec fn replacement_outcome(
    directives: Seq<crate::wit::directive::DirectiveView>,
    path: Seq<char>,
    context: Seq<char>,
    named: Seq<char>,
    language: Language,
) -> Result<Option<crate::plan::TypeReplacementView>, ErrorView> {
    let found_outcome = crate::wit::directive::directive_outcome(
        directives,
        "type"@,
        path,
        context,
    );
    let found = found_outcome->Ok_0;
    if found_outcome is Err {
        Err(found_outcome->Err_0)
    } else {
        match found {
            None => Ok(None),
            Some(found) => {
                let annotation = crate::wit::strings::directive_strings(found);
                let from_proto = crate::wit::strings::directive_prefixed_strings(found, "from"@);
                let to_proto = crate::wit::strings::directive_prefixed_strings(found, "to"@);
                if crate::plan::strings_empty(annotation) {
                    if !crate::plan::strings_empty(from_proto)
                        || !crate::plan::strings_empty(to_proto) {
                        Err(incomplete_override(named))
                    } else {
                        Ok(None)
                    }
                } else if crate::plan::view_text_for(annotation, language).is_none() {
                    Ok(None)
                } else {
                    Ok(Some(crate::plan::TypeReplacementView { annotation, from_proto, to_proto }))
                }
            },
        }
    }
}

/// The type of a language that stands for a protobuf type, and the functions between the two.
pub fn build_type_replacement(
    directives: &Vec<Directive>,
    path: &str,
    context: &str,
    named: &str,
    language: Language,
) -> (result: Result<Option<TypeReplacementSpec>, Error>)
    ensures
        crate::error::opt_outcome(result) == replacement_outcome(
            crate::wit::directive::directive_views(directives@),
            path@,
            context@,
            named@,
            language,
        ),
{
    let found = match directive(directives, "type", path, context) {
        Ok(value) => value,
        Err(error) => return Err(error),
    };
    match found {
        None => Ok(None),
        Some(found) => {
            let annotation = directive_language_string(found);
            let from_proto = directive_prefixed_language_string(found, "from");
            let to_proto = directive_prefixed_language_string(found, "to");
            if annotation.is_empty() {
                if !from_proto.is_empty() || !to_proto.is_empty() {
                    Err(incomplete_override_error(named))
                } else {
                    Ok(None)
                }
            } else if annotation.for_language(language).is_none() {
                Ok(None)
            } else {
                Ok(Some(TypeReplacementSpec { annotation, from_proto, to_proto }))
            }
        },
    }
}

/// The protobuf type that a type is bound to, and what stands for it.
pub open spec fn external_binding_outcome(
    doc: WitDocument,
    id: usize,
    path: Seq<char>,
    interface_name: Seq<char>,
    language: Language,
) -> Result<Option<ExternalBindingView>, ErrorView> {
    let type_def = doc.types@[id as int];
    let label = crate::wit::resolve::type_label_text(type_def);
    let context = "type `"@ + interface_name + "."@ + label + "`"@;
    let directives_outcome = crate::wit::directive::directives_outcome(
        crate::text::opt_text(type_def.docs),
        path,
        context,
    );
    let directives = directives_outcome->Ok_0;
    let found_outcome = crate::wit::directive::directive_outcome(
        directives,
        "proto"@,
        path,
        context,
    );
    let found = found_outcome->Ok_0;
    if directives_outcome is Err {
        Err(directives_outcome->Err_0)
    } else if found_outcome is Err {
        Err(found_outcome->Err_0)
    } else {
        match found {
            None => Ok(None),
            Some(found) => match crate::wit::directive::value_of(found, "value"@) {
                None => Err(
                    crate::wit::directive::directive_failure(
                        path,
                        context,
                        "@nexus.proto"@,
                        "missing required proto type name"@,
                    ),
                ),
                Some(proto_name) => {
                    let replacement_outcome = replacement_outcome(
                        directives,
                        path,
                        context,
                        proto_name,
                        language,
                    );
                    let replacement = replacement_outcome->Ok_0;
                    let flatten_outcome = crate::wit::directive::directive_outcome(
                        directives,
                        "flatten-in-api"@,
                        path,
                        context,
                    );
                    let flatten = flatten_outcome->Ok_0;
                    let checked = type_omit_outcome(directives, path, context);
                    let authored_type_outcome = crate::wit::function::type_def_kind_outcome(
                        doc,
                        id,
                        path,
                        context,
                    );
                    let authored_type = authored_type_outcome->Ok_0;
                    if replacement_outcome is Err {
                        Err(replacement_outcome->Err_0)
                    } else if flatten_outcome is Err {
                        Err(flatten_outcome->Err_0)
                    } else if flatten.is_some() && !(type_def.kind is Record) {
                        Err(
                            crate::wit::directive::directive_failure(
                                path,
                                context,
                                "@nexus.flatten-in-api"@,
                                "only supported on record types"@,
                            ),
                        )
                    } else if checked is Err {
                        Err(checked->Err_0)
                    } else if authored_type_outcome is Err {
                        Err(authored_type_outcome->Err_0)
                    } else {
                        Ok(Some(ExternalBindingView {
                                    reference: crate::wit::strings::language_strings_of(
                                        Some(proto_name),
                                        crate::wit::resolve::no_entry_views(),
                                        found,
                                    ),
                                    annotation: crate::wit::strings::directive_prefixed_strings(
                                        found,
                                        "type"@,
                                    ),
                                    replacement,
                                    authored_type: crate::wit::types::opt_authored_for_language(
                                        authored_type,
                                        language,
                                    ),
                                    proto_name,
                        }))
                    }
                },
            },
        }
    }
}

/// The protobuf type that a type is bound to, and what stands for it.
pub fn build_external_type_binding(
    doc: &WitDocument,
    id: usize,
    path: &str,
    interface_name: &str,
    language: Language,
) -> (result: Result<Option<ExternalTypeBindingSpec>, Error>)
    requires
        doc.wf(),
        id < doc.types@.len(),
    ensures
        crate::error::opt_outcome(result) == external_binding_outcome(
            *doc,
            id,
            path@,
            interface_name@,
            language,
        ),
{
    let type_def = &doc.types[id];
    let label = type_label(type_def);
    let context = "type `".to_owned().concat(interface_name).concat(".").concat(label.as_str())
        .concat("`");
    let directives = match parse_directives(&type_def.docs, path, context.as_str()) {
        Ok(value) => value,
        Err(error) => return Err(error),
    };
    let found = match directive(&directives, "proto", path, context.as_str()) {
        Ok(value) => value,
        Err(error) => return Err(error),
    };
    match found {
        None => Ok(None),
        Some(found) => match found.value("value") {
            None => Err(
                directive_error(
                    path,
                    context.as_str(),
                    "@nexus.proto",
                    "missing required proto type name",
                ),
            ),
            Some(proto_name) => {
                let replacement = match build_type_replacement(
                    &directives,
                    path,
                    context.as_str(),
                    proto_name.as_str(),
                    language,
                ) {
                    Ok(value) => value,
                    Err(error) => return Err(error),
                };
                let flatten = match directive(
                    &directives,
                    "flatten-in-api",
                    path,
                    context.as_str(),
                ) {
                    Ok(value) => value,
                    Err(error) => return Err(error),
                };
                if flatten.is_some() && !matches!(type_def.kind, WitTypeKind::Record(_)) {
                    return Err(
                        directive_error(
                            path,
                            context.as_str(),
                            "@nexus.flatten-in-api",
                            "only supported on record types",
                        ),
                    );
                }
                match refuse_type_omit(&directives, path, context.as_str()) {
                    Ok(_) => {},
                    Err(error) => return Err(error),
                }
                let authored_type = match resolve_authored_type_def_kind(
                    doc,
                    id,
                    path,
                    context.as_str(),
                ) {
                    Ok(value) => value,
                    Err(error) => return Err(error),
                };
                Ok(Some(ExternalTypeBindingSpec {
                    reference: language_strings(Some(proto_name.clone()), no_entries(), found),
                    annotation: directive_prefixed_language_string(found, "type"),
                    replacement,
                    authored_type: opt_authored_type_for_language(&authored_type, language),
                    proto_name,
                }))
            },
        },
    }
}

/// The types with the record that a type is.
pub open spec fn with_record(
    types: Seq<TypeDeclEntryView>,
    doc: WitDocument,
    id: usize,
    path: Seq<char>,
    interface_name: Seq<char>,
    language: Language,
) -> Result<Seq<TypeDeclEntryView>, ErrorView> {
    let full_name = crate::wit::resolve::full_type_name(doc, id);
    let record_outcome = record_outcome(doc, id, path, interface_name, language);
    let record = record_outcome->Ok_0;
    if record_outcome is Err {
        Err(record_outcome->Err_0)
    } else {
        match record {
            None => Ok(types),
            Some(record) => added_type(
                types,
                full_name,
                TypeDeclView::Record(record),
                path,
                ("duplicate WIT record mapping for `"@ + full_name + "`"@),
            ),
        }
    }
}

/// The types with the record that a type is.
pub fn add_record(
    types: TypeTable,
    doc: &WitDocument,
    id: usize,
    path: &str,
    interface_name: &str,
    language: Language,
) -> (result: Result<TypeTable, Error>)
    requires
        doc.wf(),
        id < doc.types@.len(),
    ensures
        crate::error::outcome(result) == with_record(
            types@,
            *doc,
            id,
            path@,
            interface_name@,
            language,
        ),
{
    let full_name = wit_type_full_name(doc, id);
    let record = match build_wit_record_spec(doc, id, path, interface_name, language) {
        Ok(value) => value,
        Err(error) => return Err(error),
    };
    match record {
        None => Ok(types),
        Some(record) => add_type(
            types,
            full_name.as_str(),
            TypeDeclSpec::Record(record),
            path,
            "duplicate WIT record mapping for `".to_owned().concat(full_name.as_str())
                .concat("`").as_str(),
        ),
    }
}

/// The types with the enumeration that a type is.
pub open spec fn with_enum(
    types: Seq<TypeDeclEntryView>,
    doc: WitDocument,
    id: usize,
    path: Seq<char>,
) -> Result<Seq<TypeDeclEntryView>, ErrorView> {
    let full_name = crate::wit::resolve::full_type_name(doc, id);
    match enum_of_type(doc, id) {
        None => Ok(types),
        Some(enumeration) => added_type(
            types,
            full_name,
            TypeDeclView::Enumeration(enumeration),
            path,
            ("duplicate WIT enum mapping for `"@ + full_name + "`"@),
        ),
    }
}

/// The types with the enumeration that a type is.
pub fn add_enum(
    types: TypeTable,
    doc: &WitDocument,
    id: usize,
    path: &str,
) -> (result: Result<TypeTable, Error>)
    requires
        doc.wf(),
        id < doc.types@.len(),
    ensures
        crate::error::outcome(result) == with_enum(types@, *doc, id, path@),
{
    let full_name = wit_type_full_name(doc, id);
    match build_wit_enum_spec(doc, id) {
        None => Ok(types),
        Some(enumeration) => add_type(
            types,
            full_name.as_str(),
            TypeDeclSpec::Enumeration(enumeration),
            path,
            "duplicate WIT enum mapping for `".to_owned().concat(full_name.as_str())
                .concat("`").as_str(),
        ),
    }
}

/// The types with the set of flags that a type is.
pub open spec fn with_flags(
    types: Seq<TypeDeclEntryView>,
    doc: WitDocument,
    id: usize,
    path: Seq<char>,
) -> Result<Seq<TypeDeclEntryView>, ErrorView> {
    let full_name = crate::wit::resolve::full_type_name(doc, id);
    match flags_of_type(doc, id) {
        None => Ok(types),
        Some(flags) => added_type(
            types,
            full_name,
            TypeDeclView::Flags(flags),
            path,
            ("duplicate WIT flags mapping for `"@ + full_name + "`"@),
        ),
    }
}

/// The types with the set of flags that a type is.
pub fn add_flags(
    types: TypeTable,
    doc: &WitDocument,
    id: usize,
    path: &str,
) -> (result: Result<TypeTable, Error>)
    requires
        doc.wf(),
        id < doc.types@.len(),
    ensures
        crate::error::outcome(result) == with_flags(types@, *doc, id, path@),
{
    let full_name = wit_type_full_name(doc, id);
    match build_wit_flags_spec(doc, id) {
        None => Ok(types),
        Some(flags) => add_type(
            types,
            full_name.as_str(),
            TypeDeclSpec::Flags(flags),
            path,
            "duplicate WIT flags mapping for `".to_owned().concat(full_name.as_str())
                .concat("`").as_str(),
        ),
    }
}

/// The types with the variant that a type is.
pub open spec fn with_variant(
    types: Seq<TypeDeclEntryView>,
    doc: WitDocument,
    id: usize,
    path: Seq<char>,
    language: Language,
) -> Result<Seq<TypeDeclEntryView>, ErrorView> {
    let full_name = crate::wit::resolve::full_type_name(doc, id);
    let variant_outcome = variant_outcome(doc, id, path, language);
    let variant = variant_outcome->Ok_0;
    if variant_outcome is Err {
        Err(variant_outcome->Err_0)
    } else {
        match variant {
            None => Ok(types),
            Some(variant) => added_type(
                types,
                full_name,
                TypeDeclView::Variant(variant),
                path,
                ("duplicate WIT variant mapping for `"@ + full_name + "`"@),
            ),
        }
    }
}

/// The types with the variant that a type is.
pub fn add_variant(
    types: TypeTable,
    doc: &WitDocument,
    id: usize,
    path: &str,
    language: Language,
) -> (result: Result<TypeTable, Error>)
    requires
        doc.wf(),
        id < doc.types@.len(),
    ensures
        crate::error::outcome(result) == with_variant(types@, *doc, id, path@, language),
{
    let full_name = wit_type_full_name(doc, id);
    let variant = match build_wit_variant_spec(doc, id, path, language) {
        Ok(value) => value,
        Err(error) => return Err(error),
    };
    match variant {
        None => Ok(types),
        Some(variant) => add_type(
            types,
            full_name.as_str(),
            TypeDeclSpec::Variant(variant),
            path,
            "duplicate WIT variant mapping for `".to_owned().concat(full_name.as_str())
                .concat("`").as_str(),
        ),
    }
}

/// The types with the protobuf type that a type is bound to.
pub open spec fn with_external(
    types: Seq<TypeDeclEntryView>,
    doc: WitDocument,
    id: usize,
    path: Seq<char>,
    interface_name: Seq<char>,
    language: Language,
) -> Result<Seq<TypeDeclEntryView>, ErrorView> {
    let external_outcome = external_binding_outcome(doc, id, path, interface_name, language);
    let external = external_outcome->Ok_0;
    if external_outcome is Err {
        Err(external_outcome->Err_0)
    } else {
        match external {
            None => Ok(types),
            Some(external) => {
                let proto_name = external.proto_name;
                added_type(
                    types,
                    proto_name,
                    TypeDeclView::External(external),
                    path,
                    ("duplicate `@nexus.proto` mapping for `"@ + proto_name + "`"@),
                )
            },
        }
    }
}

/// The types with the protobuf type that a type is bound to.
pub fn add_external(
    types: TypeTable,
    doc: &WitDocument,
    id: usize,
    path: &str,
    interface_name: &str,
    language: Language,
) -> (result: Result<TypeTable, Error>)
    requires
        doc.wf(),
        id < doc.types@.len(),
    ensures
        crate::error::outcome(result) == with_external(
            types@,
            *doc,
            id,
            path@,
            interface_name@,
            language,
        ),
{
    let external = match build_external_type_binding(doc, id, path, interface_name, language) {
        Ok(value) => value,
        Err(error) => return Err(error),
    };
    match external {
        None => Ok(types),
        Some(external) => {
            let proto_name = external.proto_name.clone();
            add_type(
                types,
                proto_name.as_str(),
                TypeDeclSpec::External(external),
                path,
                "duplicate `@nexus.proto` mapping for `".to_owned().concat(proto_name.as_str())
                    .concat("`").as_str(),
            )
        },
    }
}

/// The types with what a type declares.
pub open spec fn collected_type(
    types: Seq<TypeDeclEntryView>,
    named: WitName,
    doc: WitDocument,
    path: Seq<char>,
    interface_name: Seq<char>,
    language: Language,
) -> Result<Seq<TypeDeclEntryView>, ErrorView> {
    let id: usize = named.id;
    let checked = type_parameter_outcome(doc, id, path);
    let with_records_outcome = with_record(types, doc, id, path, interface_name, language);
    let with_records = with_records_outcome->Ok_0;
    let with_enums_outcome = with_enum(with_records, doc, id, path);
    let with_enums = with_enums_outcome->Ok_0;
    let with_flag_sets_outcome = with_flags(with_enums, doc, id, path);
    let with_flag_sets = with_flag_sets_outcome->Ok_0;
    let with_variants_outcome = with_variant(with_flag_sets, doc, id, path, language);
    let with_variants = with_variants_outcome->Ok_0;
    if checked is Err {
        Err(checked->Err_0)
    } else if with_records_outcome is Err {
        Err(with_records_outcome->Err_0)
    } else if with_enums_outcome is Err {
        Err(with_enums_outcome->Err_0)
    } else if with_flag_sets_outcome is Err {
        Err(with_flag_sets_outcome->Err_0)
    } else if with_variants_outcome is Err {
        Err(with_variants_outcome->Err_0)
    } else {
        with_external(with_variants, doc, id, path, interface_name, language)
    }
}

/// The types with what a type declares.
pub fn collect_type(
    types: TypeTable,
    named: &WitName,
    doc: &WitDocument,
    path: &str,
    interface_name: &str,
    language: Language,
) -> (result: Result<TypeTable, Error>)
    requires
        doc.wf(),
        named.id < doc.types@.len(),
    ensures
        crate::error::outcome(result) == collected_type(
            types@,
            *named,
            *doc,
            path@,
            interface_name@,
            language,
        ),
{
    let id: usize = named.id;
    match validate_type_parameter_directive(doc, id, path) {
        Ok(_) => {},
        Err(error) => return Err(error),
    }
    let with_records = match add_record(types, doc, id, path, interface_name, language) {
        Ok(value) => value,
        Err(error) => return Err(error),
    };
    let with_enums = match add_enum(with_records, doc, id, path) {
        Ok(value) => value,
        Err(error) => return Err(error),
    };
    let with_flag_sets = match add_flags(with_enums, doc, id, path) {
        Ok(value) => value,
        Err(error) => return Err(error),
    };
    let with_variants = match add_variant(with_flag_sets, doc, id, path, language) {
        Ok(value) => value,
        Err(error) => return Err(error),
    };
    add_external(with_variants, doc, id, path, interface_name, language)
}

/// Whether every name is of a declared type.
pub open spec fn names_below(names: Seq<WitName>, limit: int) -> bool {
    forall|i: int| 0 <= i < names.len() ==> (#[trigger] names[i]).id < limit
}

/// The types with what some types declare.
pub open spec fn collected_types(
    types: Seq<TypeDeclEntryView>,
    names: Seq<WitName>,
    doc: WitDocument,
    path: Seq<char>,
    interface_name: Seq<char>,
    language: Language,
) -> Result<Seq<TypeDeclEntryView>, ErrorView>
    decreases names.len(),
{
    if names.len() == 0 {
        Ok(types)
    } else {
        let named = names.last();
        match collected_types(types, names.drop_last(), doc, path, interface_name, language) {
            Err(error) => Err(error),
            Ok(types) => {
                collected_type(types, named, doc, path, interface_name, language)
            },
        }
    }
}

proof fn lemma_collected_types(
    types: Seq<TypeDeclEntryView>,
    names: Seq<WitName>,
    doc: WitDocument,
    path: Seq<char>,
    interface_name: Seq<char>,
    language: Language,
    count: int,
)
    requires
        0 <= count <= names.len(),
        collected_types(types, names.take(count), doc, path, interface_name, language) is Err,
    ensures
        collected_types(types, names, doc, path, interface_name, language) == collected_types(
            types,
            names.take(count),
            doc,
            path,
            interface_name,
            language,
        ),
    decreases names.len() - count,
{
    if count == names.len() {
        assert(names.take(count) =~= names);
    } else {
        assert(names.take(count + 1).drop_last() =~= names.take(count));
        lemma_collected_types(types, names, doc, path, interface_name, language, count + 1);
    }
}

/// The types with what some types declare.
pub fn collect_types(
    types: TypeTable,
    names: &Vec<WitName>,
    doc: &WitDocument,
    path: &str,
    interface_name: &str,
    language: Language,
) -> (result: Result<TypeTable, Error>)
    requires
        doc.wf(),
        names_below(names@, doc.types@.len() as int),
    ensures
        crate::error::outcome(result) == collected_types(
            types@,
            names@,
            *doc,
            path@,
            interface_name@,
            language,
        ),
{
    let mut current = types;
    let mut i: usize = 0;
    while i < names.len()
        invariant
            i <= names.len(),
            doc.wf(),
            names_below(names@, doc.types@.len() as int),
            collected_types(
                types@,
                names@.take(i as int),
                *doc,
                path@,
                interface_name@,
                language,
            ) == Ok::<Seq<TypeDeclEntryView>, ErrorView>(current@),
        decreases names.len() - i,
    {
        assert(names@.take(i + 1).drop_last() =~= names@.take(i as int));
        assert(names@.take(i + 1).last() == names@[i as int]);
        let named = &names[i];
        let outcome: Result<TypeTable, Error> = collect_type(
            current,
            named,
            doc,
            path,
            interface_name,
            language,
        );
        match outcome {
            Ok(made) => {
                current = made;
            },
            Err(error) => {
                proof {
                    lemma_collected_types(
                        types@,
                        names@,
                        *doc,
                        path@,
                        interface_name@,
                        language,
                        i + 1,
                    );
                }
                return Err(error);
            },
        }
        i += 1;
    }
    assert(names@.take(i as int) =~= names@);
    Ok(current)
}

/// The types with what the types of an interface declare.
pub open spec fn collected_interface(
    types: Seq<TypeDeclEntryView>,
    doc: WitDocument,
    interface: WitInterface,
    path: Seq<char>,
    language: Language,
) -> Result<Seq<TypeDeclEntryView>, ErrorView> {
    let interface_name = crate::wit::resolve::interface_label_text(interface);
    collected_types(types, interface.types@, doc, path, interface_name, language)
}

/// The types with what the types of an interface declare.
pub fn collect_interface_types(
    types: TypeTable,
    doc: &WitDocument,
    interface: &WitInterface,
    path: &str,
    language: Language,
) -> (result: Result<TypeTable, Error>)
    requires
        doc.wf(),
        doc.interface_ok(*interface),
    ensures
        crate::error::outcome(result) == collected_interface(
            types@,
            *doc,
            *interface,
            path@,
            language,
        ),
{
    let interface_name = interface_label(interface);
    collect_types(types, &interface.types, doc, path, interface_name.as_str(), language)
}

/// The types with what the types of some interfaces declare.
pub open spec fn collected_interfaces(
    types: Seq<TypeDeclEntryView>,
    interfaces: Seq<usize>,
    doc: WitDocument,
    path: Seq<char>,
    language: Language,
) -> Result<Seq<TypeDeclEntryView>, ErrorView>
    decreases interfaces.len(),
{
    if interfaces.len() == 0 {
        Ok(types)
    } else {
        let id = interfaces.last();
        match collected_interfaces(types, interfaces.drop_last(), doc, path, language) {
            Err(error) => Err(error),
            Ok(types) => {
                collected_interface(types, doc, doc.interfaces@[id as int], path, language)
            },
        }
    }
}

proof fn lemma_collected_interfaces(
    types: Seq<TypeDeclEntryView>,
    interfaces: Seq<usize>,
    doc: WitDocument,
    path: Seq<char>,
    language: Language,
    count: int,
)
    requires
        0 <= count <= interfaces.len(),
        collected_interfaces(types, interfaces.take(count), doc, path, language) is Err,
    ensures
        collected_interfaces(types, interfaces, doc, path, language) == collected_interfaces(
            types,
            interfaces.take(count),
            doc,
            path,
            language,
        ),
    decreases interfaces.len() - count,
{
    if count == interfaces.len() {
        assert(interfaces.take(count) =~= interfaces);
    } else {
        assert(interfaces.take(count + 1).drop_last() =~= interfaces.take(count));
        lemma_collected_interfaces(types, interfaces, doc, path, language, count + 1);
    }
}

/// The types with what the types of some interfaces declare.
pub fn collect_interfaces(
    types: TypeTable,
    interfaces: &Vec<usize>,
    doc: &WitDocument,
    path: &str,
    language: Language,
) -> (result: Result<TypeTable, Error>)
    requires
        doc.wf(),
        ids_below(interfaces@, doc.interfaces@.len() as int),
    ensures
        crate::error::outcome(result) == collected_interfaces(
            types@,
            interfaces@,
            *doc,
            path@,
            language,
        ),
{
    let mut current = types;
    let mut i: usize = 0;
    while i < interfaces.len()
        invariant
            i <= interfaces.len(),
            doc.wf(),
            ids_below(interfaces@, doc.interfaces@.len() as int),
            collected_interfaces(
                types@,
                interfaces@.take(i as int),
                *doc,
                path@,
                language,
            ) == Ok::<Seq<TypeDeclEntryView>, ErrorView>(current@),
        decreases interfaces.len() - i,
    {
        assert(interfaces@.take(i + 1).drop_last() =~= interfaces@.take(i as int));
        assert(interfaces@.take(i + 1).last() == interfaces@[i as int]);
        let id = &interfaces[i];
        let outcome: Result<TypeTable, Error> = {
            proof { assert(doc.interface_ok(doc.interfaces@[interfaces@[i as int] as int])); }
            collect_interface_types(current, doc, &doc.interfaces[*id], path, language)
        };
        match outcome {
            Ok(made) => {
                current = made;
            },
            Err(error) => {
                proof {
                    lemma_collected_interfaces(types@, interfaces@, *doc, path@, language, i + 1);
                }
                return Err(error);
            },
        }
        i += 1;
    }
    assert(interfaces@.take(i as int) =~= interfaces@);
    Ok(current)
}

/// Whether every index is below a limit.
pub open spec fn ids_below(ids: Seq<usize>, limit: int) -> bool {
    forall|i: int| 0 <= i < ids.len() ==> (#[trigger] ids[i]) < limit
}

/// The types with what the interfaces of some packages declare.
pub open spec fn collected_packages(
    types: Seq<TypeDeclEntryView>,
    packages: Seq<crate::wit::document::WitPackage>,
    doc: WitDocument,
    path: Seq<char>,
    language: Language,
) -> Result<Seq<TypeDeclEntryView>, ErrorView>
    decreases packages.len(),
{
    if packages.len() == 0 {
        Ok(types)
    } else {
        let package = packages.last();
        match collected_packages(types, packages.drop_last(), doc, path, language) {
            Err(error) => Err(error),
            Ok(types) => {
                collected_interfaces(types, package.interfaces@, doc, path, language)
            },
        }
    }
}

proof fn lemma_collected_packages(
    types: Seq<TypeDeclEntryView>,
    packages: Seq<crate::wit::document::WitPackage>,
    doc: WitDocument,
    path: Seq<char>,
    language: Language,
    count: int,
)
    requires
        0 <= count <= packages.len(),
        collected_packages(types, packages.take(count), doc, path, language) is Err,
    ensures
        collected_packages(types, packages, doc, path, language) == collected_packages(
            types,
            packages.take(count),
            doc,
            path,
            language,
        ),
    decreases packages.len() - count,
{
    if count == packages.len() {
        assert(packages.take(count) =~= packages);
    } else {
        assert(packages.take(count + 1).drop_last() =~= packages.take(count));
        lemma_collected_packages(types, packages, doc, path, language, count + 1);
    }
}

/// The types with what the interfaces of some packages declare.
pub fn collect_packages(
    types: TypeTable,
    packages: &Vec<crate::wit::document::WitPackage>,
    doc: &WitDocument,
    path: &str,
    language: Language,
) -> (result: Result<TypeTable, Error>)
    requires
        doc.wf(),
        forall|k: int|
            0 <= k < packages@.len() ==> ids_below(
                (#[trigger] packages@[k]).interfaces@,
                doc.interfaces@.len() as int,
            ),
    ensures
        crate::error::outcome(result) == collected_packages(
            types@,
            packages@,
            *doc,
            path@,
            language,
        ),
{
    let mut current = types;
    let mut i: usize = 0;
    while i < packages.len()
        invariant
            i <= packages.len(),
            doc.wf(),
            forall|k: int|
                0 <= k < packages@.len() ==> ids_below(
                    (#[trigger] packages@[k]).interfaces@,
                    doc.interfaces@.len() as int,
                ),
            collected_packages(
                types@,
                packages@.take(i as int),
                *doc,
                path@,
                language,
            ) == Ok::<Seq<TypeDeclEntryView>, ErrorView>(current@),
        decreases packages.len() - i,
    {
        assert(packages@.take(i + 1).drop_last() =~= packages@.take(i as int));
        assert(packages@.take(i + 1).last() == packages@[i as int]);
        let package = &packages[i];
        let outcome: Result<TypeTable, Error> = collect_interfaces(
            current,
            &package.interfaces,
            doc,
            path,
            language,
        );
        match outcome {
            Ok(made) => {
                current = made;
            },
            Err(error) => {
                proof {
                    lemma_collected_packages(types@, packages@, *doc, path@, language, i + 1);
                }
                return Err(error);
            },
        }
        i += 1;
    }
    assert(packages@.take(i as int) =~= packages@);
    Ok(current)
}

proof fn lemma_added_in_order(
    types: Seq<TypeDeclEntryView>,
    named: WitName,
    doc: WitDocument,
    path: Seq<char>,
    interface_name: Seq<char>,
    language: Language,
)
    requires
        types_ascending(types),
    ensures
        collected_type(types, named, doc, path, interface_name, language) matches Ok(made)
            ==> types_ascending(made),
{
    assert forall|
        before: Seq<TypeDeclEntryView>,
        name: Seq<char>,
        decl: TypeDeclView,
        duplicate: Seq<char>,
    | types_ascending(before) implies (#[trigger] added_type(
        before,
        name,
        decl,
        path,
        duplicate,
    ) matches Ok(made) ==> types_ascending(made)) by {
        if !has_type(before, name) {
            law_types_stay_in_order(before, name, decl);
        }
    }
}

proof fn lemma_collected_in_order(
    types: Seq<TypeDeclEntryView>,
    names: Seq<WitName>,
    doc: WitDocument,
    path: Seq<char>,
    interface_name: Seq<char>,
    language: Language,
)
    requires
        types_ascending(types),
    ensures
        collected_types(types, names, doc, path, interface_name, language) matches Ok(made)
            ==> types_ascending(made),
    decreases names.len(),
{
    if names.len() > 0 {
        let before = names.drop_last();
        lemma_collected_in_order(types, before, doc, path, interface_name, language);
        match collected_types(types, before, doc, path, interface_name, language) {
            Ok(made) => {
                lemma_added_in_order(made, names.last(), doc, path, interface_name, language);
            },
            Err(_) => {},
        }
    }
}

proof fn lemma_interfaces_in_order(
    types: Seq<TypeDeclEntryView>,
    interfaces: Seq<usize>,
    doc: WitDocument,
    path: Seq<char>,
    language: Language,
)
    requires
        types_ascending(types),
    ensures
        collected_interfaces(types, interfaces, doc, path, language) matches Ok(made)
            ==> types_ascending(made),
    decreases interfaces.len(),
{
    if interfaces.len() > 0 {
        let before = interfaces.drop_last();
        let interface = doc.interfaces@[interfaces.last() as int];
        lemma_interfaces_in_order(types, before, doc, path, language);
        match collected_interfaces(types, before, doc, path, language) {
            Ok(made) => {
                lemma_collected_in_order(
                    made,
                    interface.types@,
                    doc,
                    path,
                    crate::wit::resolve::interface_label_text(interface),
                    language,
                );
            },
            Err(_) => {},
        }
    }
}

/// The types that packages declare stand in the order of their full names, each name once.
pub proof fn law_declared_types_are_in_order(
    types: Seq<TypeDeclEntryView>,
    packages: Seq<crate::wit::document::WitPackage>,
    doc: WitDocument,
    path: Seq<char>,
    language: Language,
)
    requires
        types_ascending(types),
    ensures
        collected_packages(types, packages, doc, path, language) matches Ok(made)
            ==> types_ascending(made),
    decreases packages.len(),
{
    if packages.len() > 0 {
        let before = packages.drop_last();
        law_declared_types_are_in_order(types, before, doc, path, language);
        match collected_packages(types, before, doc, path, language) {
            Ok(made) => {
                lemma_interfaces_in_order(made, packages.last().interfaces@, doc, path, language);
            },
            Err(_) => {},
        }
    }
}

} // verus!
