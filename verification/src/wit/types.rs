//! The types of authored models.

use vstd::prelude::*;

use crate::language::Language;
use crate::plan::{LanguageStringSpec, LanguageText};
use crate::text::text_eq;

verus! {

/// A type parameter, by the alias that stands for it.
#[derive(Debug)]
pub struct TypeParameterSpec {
    pub name: String,
    pub full_name: String,
}

/// A [`TypeParameterSpec`] by its texts.
#[verifier::ext_equal]
pub struct TypeParameterView {
    pub name: Seq<char>,
    pub full_name: Seq<char>,
}

impl View for TypeParameterSpec {
    type V = TypeParameterView;

    open spec fn view(&self) -> TypeParameterView {
        TypeParameterView {
            name: self.name@,
            full_name: self.full_name@,
        }
    }
}

/// The texts of a list of [`TypeParameterSpec`].
pub open spec fn type_parameter_spec_views(
    items: Seq<TypeParameterSpec>,
) -> Seq<TypeParameterView> {
    items.map_values(|item: TypeParameterSpec| item@)
}

/// A declared name and where it stands.
#[derive(Debug)]
pub struct DeclaredTypeName {
    pub name: String,
    pub full_name: String,
}

/// A [`DeclaredTypeName`] by its texts.
#[verifier::ext_equal]
pub struct DeclaredNameView {
    pub name: Seq<char>,
    pub full_name: Seq<char>,
}

impl View for DeclaredTypeName {
    type V = DeclaredNameView;

    open spec fn view(&self) -> DeclaredNameView {
        DeclaredNameView {
            name: self.name@,
            full_name: self.full_name@,
        }
    }
}

/// The texts of an optional [`DeclaredTypeName`].
pub open spec fn declared_type_name_opt(
    value: Option<DeclaredTypeName>,
) -> Option<DeclaredNameView> {
    match value {
        Some(value) => Some(value@),
        None => None,
    }
}

/// A resource, the protobuf type that stands for it on the wire, and the alias that names it.
#[derive(Debug)]
pub struct AuthoredResourceType {
    pub name: String,
    pub wire_type: Option<String>,
    pub alias: Option<DeclaredTypeName>,
}

/// A [`AuthoredResourceType`] by its texts.
#[verifier::ext_equal]
pub struct ResourceTypeView {
    pub name: Seq<char>,
    pub wire_type: Option<Seq<char>>,
    pub alias: Option<DeclaredNameView>,
}

impl View for AuthoredResourceType {
    type V = ResourceTypeView;

    open spec fn view(&self) -> ResourceTypeView {
        ResourceTypeView {
            name: self.name@,
            wire_type: crate::text::opt_text(self.wire_type),
            alias: declared_type_name_opt(self.alias),
        }
    }
}

/// A type of an authored model. Records, enumerations, flags and variants are named in full.
#[derive(Debug)]
pub enum TypeSpec {
    Bool,
    Int,
    Float,
    Text,
    Bytes,
    Optional(Box<TypeSpec>),
    List(Box<TypeSpec>),
    Tuple(Vec<TypeSpec>),
    Mapping(Box<TypeSpec>, Box<TypeSpec>),
    Outcome { ok: Option<Box<TypeSpec>>, err: Option<Box<TypeSpec>> },
    Record(String),
    Enumeration(String),
    Flags(String),
    Variant(String),
    Resource(AuthoredResourceType),
    TypeParameter(TypeParameterSpec),
    /// A protobuf type, by its full name.
    Proto(String),
    /// An alias of a type, with the annotations that languages have for it.
    Alias { name: String, target: Box<TypeSpec>, annotation: LanguageStringSpec },
}

/// A [`TypeSpec`] by its texts.
#[verifier::ext_equal]
pub enum TypeView {
    Bool,
    Int,
    Float,
    Text,
    Bytes,
    Optional(Box<TypeView>),
    List(Box<TypeView>),
    Tuple(Seq<TypeView>),
    Mapping(Box<TypeView>, Box<TypeView>),
    Outcome { ok: Option<Box<TypeView>>, err: Option<Box<TypeView>> },
    Record(Seq<char>),
    Enumeration(Seq<char>),
    Flags(Seq<char>),
    Variant(Seq<char>),
    Resource(ResourceTypeView),
    TypeParameter(TypeParameterView),
    Proto(Seq<char>),
    Alias {
        name: Seq<char>,
        target: Box<TypeView>,
        annotation: crate::plan::LanguageStringView,
    },
}

/// A type by its texts.
pub open spec fn type_view(t: TypeSpec) -> TypeView
    decreases t,
{
    match t {
        TypeSpec::Bool => TypeView::Bool,
        TypeSpec::Int => TypeView::Int,
        TypeSpec::Float => TypeView::Float,
        TypeSpec::Text => TypeView::Text,
        TypeSpec::Bytes => TypeView::Bytes,
        TypeSpec::Optional(inner) => TypeView::Optional(Box::new(type_view(*inner))),
        TypeSpec::List(inner) => TypeView::List(Box::new(type_view(*inner))),
        TypeSpec::Tuple(items) => {
            proof {
                assert(decreases_to!(t => t->Tuple_0));
                assert(decreases_to!(t->Tuple_0 => t->Tuple_0@));
            }
            TypeView::Tuple(type_spec_views(items@))
        },
        TypeSpec::Mapping(key, value) => TypeView::Mapping(
            Box::new(type_view(*key)),
            Box::new(type_view(*value)),
        ),
        TypeSpec::Outcome { ok, err } => {
            proof {
                assert(decreases_to!(t => t->ok));
                assert(decreases_to!(t => t->err));
            }
            TypeView::Outcome { ok: opt_type_view(ok), err: opt_type_view(err) }
        },
        TypeSpec::Record(name) => TypeView::Record(name@),
        TypeSpec::Enumeration(name) => TypeView::Enumeration(name@),
        TypeSpec::Flags(name) => TypeView::Flags(name@),
        TypeSpec::Variant(name) => TypeView::Variant(name@),
        TypeSpec::Resource(resource) => TypeView::Resource(resource@),
        TypeSpec::TypeParameter(parameter) => TypeView::TypeParameter(parameter@),
        TypeSpec::Proto(name) => TypeView::Proto(name@),
        TypeSpec::Alias { name, target, annotation } => TypeView::Alias {
            name: name@,
            target: Box::new(type_view(*target)),
            annotation: annotation@,
        },
    }
}

/// A boxed type that may be there, by its texts.
pub open spec fn opt_type_view(t: Option<Box<TypeSpec>>) -> Option<Box<TypeView>>
    decreases t,
{
    match t {
        Some(inner) => Some(Box::new(type_view(*inner))),
        None => None,
    }
}

/// Types by their texts.
pub open spec fn type_spec_views(items: Seq<TypeSpec>) -> Seq<TypeView>
    decreases items,
{
    if items.len() == 0 {
        Seq::empty()
    } else {
        type_spec_views(items.drop_last()).push(type_view(items.last()))
    }
}

pub proof fn lemma_type_views(items: Seq<TypeSpec>)
    ensures
        type_spec_views(items).len() == items.len(),
        forall|i: int|
            0 <= i < items.len() ==> #[trigger] type_spec_views(items)[i] == type_view(items[i]),
    decreases items.len(),
{
    if items.len() > 0 {
        lemma_type_views(items.drop_last());
        assert forall|i: int| 0 <= i < items.len() implies #[trigger] type_spec_views(items)[i]
            == type_view(items[i]) by {
            if i < items.len() - 1 {
                assert(items.drop_last()[i] == items[i]);
            }
        }
    }
}

impl View for TypeSpec {
    type V = TypeView;

    open spec fn view(&self) -> TypeView {
        type_view(*self)
    }
}

/// A type that may be there, by its texts.
pub open spec fn type_spec_opt(t: Option<TypeSpec>) -> Option<TypeView> {
    match t {
        Some(t) => Some(t@),
        None => None,
    }
}

/// A copy of a declared name.
fn copy_declared_name(name: &DeclaredTypeName) -> (copy: DeclaredTypeName)
    ensures
        copy@ == name@,
{
    DeclaredTypeName { name: name.name.clone(), full_name: name.full_name.clone() }
}

/// A copy of a resource type.
fn copy_resource(resource: &AuthoredResourceType) -> (copy: AuthoredResourceType)
    ensures
        copy@ == resource@,
{
    AuthoredResourceType {
        name: resource.name.clone(),
        wire_type: crate::plan::copy_text(&resource.wire_type),
        alias: match &resource.alias {
            Some(alias) => Some(copy_declared_name(alias)),
            None => None,
        },
    }
}

/// A copy of a type that may be there.
fn copy_opt_type(t: &Option<Box<TypeSpec>>) -> (copy: Option<Box<TypeSpec>>)
    ensures
        opt_type_view(copy) == opt_type_view(*t),
    decreases t,
{
    match t {
        Some(inner) => Some(Box::new(copy_type(inner))),
        None => None,
    }
}

/// A copy of a type.
pub fn copy_type(t: &TypeSpec) -> (copy: TypeSpec)
    ensures
        copy@ == t@,
    decreases t,
{
    match t {
        TypeSpec::Bool => TypeSpec::Bool,
        TypeSpec::Int => TypeSpec::Int,
        TypeSpec::Float => TypeSpec::Float,
        TypeSpec::Text => TypeSpec::Text,
        TypeSpec::Bytes => TypeSpec::Bytes,
        TypeSpec::Optional(inner) => TypeSpec::Optional(Box::new(copy_type(inner))),
        TypeSpec::List(inner) => TypeSpec::List(Box::new(copy_type(inner))),
        TypeSpec::Tuple(items) => {
            let mut made: Vec<TypeSpec> = Vec::new();
            let mut i: usize = 0;
            while i < items.len()
                invariant
                    i <= items.len(),
                    *t == TypeSpec::Tuple(*items),
                    type_spec_views(made@) == type_spec_views(items@.take(i as int)),
                decreases items.len() - i,
            {
                proof {
                    lemma_item_smaller(*t, i as int);
                    assert(items@.take(i + 1).drop_last() =~= items@.take(i as int));
                }
                let ghost before = made@;
                made.push(copy_type(&items[i]));
                assert(made@.drop_last() =~= before);
                i += 1;
            }
            assert(items@.take(i as int) =~= items@);
            TypeSpec::Tuple(made)
        },
        TypeSpec::Mapping(key, value) => TypeSpec::Mapping(
            Box::new(copy_type(key)),
            Box::new(copy_type(value)),
        ),
        TypeSpec::Outcome { ok, err } => {
            proof {
                assert(decreases_to!(t => t->ok));
                assert(decreases_to!(t => t->err));
            }
            TypeSpec::Outcome { ok: copy_opt_type(ok), err: copy_opt_type(err) }
        },
        TypeSpec::Record(name) => TypeSpec::Record(name.clone()),
        TypeSpec::Enumeration(name) => TypeSpec::Enumeration(name.clone()),
        TypeSpec::Flags(name) => TypeSpec::Flags(name.clone()),
        TypeSpec::Variant(name) => TypeSpec::Variant(name.clone()),
        TypeSpec::Resource(resource) => TypeSpec::Resource(copy_resource(resource)),
        TypeSpec::TypeParameter(parameter) => TypeSpec::TypeParameter(
            TypeParameterSpec {
                name: parameter.name.clone(),
                full_name: parameter.full_name.clone(),
            },
        ),
        TypeSpec::Proto(name) => TypeSpec::Proto(name.clone()),
        TypeSpec::Alias { name, target, annotation } => TypeSpec::Alias {
            name: name.clone(),
            target: Box::new(copy_type(target)),
            annotation: annotation.copy(),
        },
    }
}

pub proof fn lemma_item_smaller(t: TypeSpec, i: int)
    requires
        t is Tuple,
        0 <= i < t->Tuple_0@.len(),
    ensures
        decreases_to!(t => t->Tuple_0@[i]),
{
    assert(decreases_to!(t => t->Tuple_0));
    assert(decreases_to!(t->Tuple_0 => t->Tuple_0@));
    assert(decreases_to!(t->Tuple_0@ => t->Tuple_0@[i]));
}

/// Whether two optional texts are the same.
fn same_opt_text(left: &Option<String>, right: &Option<String>) -> (same: bool)
    ensures
        same == (crate::text::opt_text(*left) == crate::text::opt_text(*right)),
{
    match (left, right) {
        (Some(left), Some(right)) => text_eq(left.as_str(), right.as_str()),
        (None, None) => true,
        _ => false,
    }
}

/// Whether two lists of texts for languages are the same.
fn same_entries(left: &Vec<LanguageText>, right: &Vec<LanguageText>) -> (same: bool)
    ensures
        same == (crate::plan::language_text_views(left@) == crate::plan::language_text_views(
            right@,
        )),
{
    let ghost lefts = crate::plan::language_text_views(left@);
    let ghost rights = crate::plan::language_text_views(right@);
    if left.len() != right.len() {
        assert(lefts.len() != rights.len());
        return false;
    }
    let mut i: usize = 0;
    while i < left.len()
        invariant
            i <= left.len(),
            left.len() == right.len(),
            lefts == crate::plan::language_text_views(left@),
            rights == crate::plan::language_text_views(right@),
            forall|k: int| 0 <= k < i ==> lefts[k] == rights[k],
        decreases left.len() - i,
    {
        assert(lefts[i as int] == left@[i as int]@);
        assert(rights[i as int] == right@[i as int]@);
        if left[i].language != right[i].language || !text_eq(
            left[i].text.as_str(),
            right[i].text.as_str(),
        ) {
            assert(lefts[i as int] != rights[i as int]);
            return false;
        }
        assert(lefts[i as int] =~= rights[i as int]);
        i += 1;
    }
    assert(lefts =~= rights);
    true
}

/// Whether two texts for languages are the same.
fn same_strings(left: &LanguageStringSpec, right: &LanguageStringSpec) -> (same: bool)
    ensures
        same == (left@ == right@),
{
    same_opt_text(&left.default, &right.default) && same_entries(
        &left.by_language,
        &right.by_language,
    ) && same_opt_text(&left.default_import, &right.default_import) && same_entries(
        &left.imports,
        &right.imports,
    )
}

/// Whether two optional declared names are the same.
fn same_alias(left: &Option<DeclaredTypeName>, right: &Option<DeclaredTypeName>) -> (same: bool)
    ensures
        same == (declared_type_name_opt(*left) == declared_type_name_opt(*right)),
{
    match (left, right) {
        (Some(left), Some(right)) => text_eq(left.name.as_str(), right.name.as_str()) && text_eq(
            left.full_name.as_str(),
            right.full_name.as_str(),
        ),
        (None, None) => true,
        _ => false,
    }
}

/// Whether two optional types are the same.
fn same_opt_type(left: &Option<Box<TypeSpec>>, right: &Option<Box<TypeSpec>>) -> (same: bool)
    ensures
        same == (opt_type_view(*left) == opt_type_view(*right)),
    decreases left,
{
    match (left, right) {
        (Some(left), Some(right)) => same_type(left, right),
        (None, None) => true,
        _ => false,
    }
}

/// Whether two types are the same.
pub fn same_type(left: &TypeSpec, right: &TypeSpec) -> (same: bool)
    ensures
        same == (left@ == right@),
    decreases left,
{
    match (left, right) {
        (TypeSpec::Bool, TypeSpec::Bool) => true,
        (TypeSpec::Int, TypeSpec::Int) => true,
        (TypeSpec::Float, TypeSpec::Float) => true,
        (TypeSpec::Text, TypeSpec::Text) => true,
        (TypeSpec::Bytes, TypeSpec::Bytes) => true,
        (TypeSpec::Optional(left), TypeSpec::Optional(right)) => same_type(left, right),
        (TypeSpec::List(left), TypeSpec::List(right)) => same_type(left, right),
        (TypeSpec::Tuple(lefts), TypeSpec::Tuple(rights)) => {
            proof {
                lemma_type_views(lefts@);
                lemma_type_views(rights@);
            }
            if lefts.len() != rights.len() {
                return false;
            }
            let mut i: usize = 0;
            while i < lefts.len()
                invariant
                    i <= lefts.len(),
                    lefts.len() == rights.len(),
                    *left == TypeSpec::Tuple(*lefts),
                    *right == TypeSpec::Tuple(*rights),
                    type_spec_views(lefts@).len() == lefts.len(),
                    type_spec_views(rights@).len() == rights.len(),
                    forall|k: int|
                        0 <= k < lefts.len() ==> #[trigger] type_spec_views(lefts@)[k]
                            == type_view(lefts@[k]),
                    forall|k: int|
                        0 <= k < rights.len() ==> #[trigger] type_spec_views(rights@)[k]
                            == type_view(rights@[k]),
                    forall|k: int|
                        0 <= k < i ==> type_spec_views(lefts@)[k] == type_spec_views(rights@)[k],
                decreases lefts.len() - i,
            {
                proof {
                    lemma_item_smaller(*left, i as int);
                }
                assert(type_spec_views(lefts@)[i as int] == lefts@[i as int]@);
                assert(type_spec_views(rights@)[i as int] == rights@[i as int]@);
                if !same_type(&lefts[i], &rights[i]) {
                    assert(type_spec_views(lefts@)[i as int] != type_spec_views(rights@)[i as int]);
                    return false;
                }
                i += 1;
            }
            assert(type_spec_views(lefts@) =~= type_spec_views(rights@));
            true
        },
        (TypeSpec::Mapping(left, left_value), TypeSpec::Mapping(right, right_value)) => same_type(
            left,
            right,
        ) && same_type(left_value, right_value),
        (TypeSpec::Outcome { ok: left_ok, err: left_err }, TypeSpec::Outcome { ok, err }) => {
            proof {
                assert(decreases_to!(left => left->ok));
                assert(decreases_to!(left => left->err));
            }
            same_opt_type(left_ok, ok) && same_opt_type(left_err, err)
        },
        (TypeSpec::Record(left), TypeSpec::Record(right)) => text_eq(
            left.as_str(),
            right.as_str(),
        ),
        (TypeSpec::Enumeration(left), TypeSpec::Enumeration(right)) => text_eq(
            left.as_str(),
            right.as_str(),
        ),
        (TypeSpec::Flags(left), TypeSpec::Flags(right)) => text_eq(left.as_str(), right.as_str()),
        (TypeSpec::Variant(left), TypeSpec::Variant(right)) => text_eq(
            left.as_str(),
            right.as_str(),
        ),
        (TypeSpec::Resource(left), TypeSpec::Resource(right)) => text_eq(
            left.name.as_str(),
            right.name.as_str(),
        ) && same_opt_text(&left.wire_type, &right.wire_type) && same_alias(
            &left.alias,
            &right.alias,
        ),
        (TypeSpec::TypeParameter(left), TypeSpec::TypeParameter(right)) => text_eq(
            left.name.as_str(),
            right.name.as_str(),
        ) && text_eq(left.full_name.as_str(), right.full_name.as_str()),
        (TypeSpec::Proto(left), TypeSpec::Proto(right)) => text_eq(left.as_str(), right.as_str()),
        (
            TypeSpec::Alias { name: left, target: left_target, annotation: left_annotation },
            TypeSpec::Alias { name, target, annotation },
        ) => text_eq(left.as_str(), name.as_str()) && same_type(left_target, target)
            && same_strings(left_annotation, annotation),
        _ => false,
    }
}

/// A type as a language has it: without the aliases that the language has no annotation for.
pub open spec fn type_for_language(t: TypeView, language: Language) -> TypeView
    decreases t,
{
    match t {
        TypeView::Optional(inner) => TypeView::Optional(
            Box::new(type_for_language(*inner, language)),
        ),
        TypeView::List(inner) => TypeView::List(Box::new(type_for_language(*inner, language))),
        TypeView::Tuple(items) => TypeView::Tuple(types_for_language(items, language)),
        TypeView::Mapping(key, value) => TypeView::Mapping(
            Box::new(type_for_language(*key, language)),
            Box::new(type_for_language(*value, language)),
        ),
        TypeView::Outcome { ok, err } => {
            proof {
                assert(decreases_to!(t => t->ok));
                assert(decreases_to!(t => t->err));
            }
            TypeView::Outcome {
                ok: opt_type_for_language(ok, language),
                err: opt_type_for_language(err, language),
            }
        },
        TypeView::Alias { name, target, annotation } => {
            let target = type_for_language(*target, language);
            if crate::plan::view_text_for(annotation, language) is Some {
                TypeView::Alias { name, target: Box::new(target), annotation }
            } else {
                target
            }
        },
        _ => t,
    }
}

/// A type that may be there, as a language has it.
pub open spec fn opt_type_for_language(t: Option<Box<TypeView>>, language: Language) -> Option<
    Box<TypeView>,
>
    decreases t,
{
    match t {
        Some(inner) => Some(Box::new(type_for_language(*inner, language))),
        None => None,
    }
}

/// Types as a language has them.
pub open spec fn types_for_language(items: Seq<TypeView>, language: Language) -> Seq<TypeView>
    decreases items,
{
    if items.len() == 0 {
        Seq::empty()
    } else {
        types_for_language(items.drop_last(), language).push(
            type_for_language(items.last(), language),
        )
    }
}

/// What a language has no annotation for stays away: what a type is for a language is that type
/// for the language.
pub proof fn law_type_for_language_is_settled(t: TypeView, language: Language)
    ensures
        type_for_language(type_for_language(t, language), language) == type_for_language(
            t,
            language,
        ),
    decreases t,
{
    reveal_with_fuel(type_for_language, 3);
    reveal_with_fuel(opt_type_for_language, 3);
    reveal_with_fuel(types_for_language, 3);
    match t {
        TypeView::Optional(inner) => {
            law_type_for_language_is_settled(*inner, language);
        },
        TypeView::List(inner) => {
            law_type_for_language_is_settled(*inner, language);
        },
        TypeView::Tuple(items) => {
            lemma_types_settled(items, language);
        },
        TypeView::Mapping(key, value) => {
            law_type_for_language_is_settled(*key, language);
            law_type_for_language_is_settled(*value, language);
        },
        TypeView::Outcome { ok, err } => {
            assert(decreases_to!(t => t->ok));
            assert(decreases_to!(t => t->err));
            match ok {
                Some(inner) => {
                    assert(decreases_to!(t->ok => t->ok->Some_0));
                    law_type_for_language_is_settled(*inner, language);
                },
                None => {},
            }
            match err {
                Some(inner) => {
                    assert(decreases_to!(t->err => t->err->Some_0));
                    law_type_for_language_is_settled(*inner, language);
                },
                None => {},
            }
        },
        TypeView::Alias { name, target, annotation } => {
            law_type_for_language_is_settled(*target, language);
        },
        _ => {},
    }
}

proof fn lemma_types_settled(items: Seq<TypeView>, language: Language)
    ensures
        types_for_language(types_for_language(items, language), language) == types_for_language(
            items,
            language,
        ),
    decreases items,
{
    if items.len() > 0 {
        lemma_types_settled(items.drop_last(), language);
        law_type_for_language_is_settled(items.last(), language);
        assert(types_for_language(items, language).drop_last() =~= types_for_language(
            items.drop_last(),
            language,
        ));
    }
}

/// A type that may be there, as a language has it.
fn opt_field_type_for_language(t: &Option<Box<TypeSpec>>, language: Language) -> (result: Option<
    Box<TypeSpec>,
>)
    ensures
        opt_type_view(result) == opt_type_for_language(opt_type_view(*t), language),
    decreases t,
{
    match t {
        Some(inner) => Some(Box::new(authored_field_type_for_language(inner, language))),
        None => None,
    }
}

/// A type as a language has it: without the aliases that the language has no annotation for.
pub fn authored_field_type_for_language(t: &TypeSpec, language: Language) -> (result: TypeSpec)
    ensures
        result@ == type_for_language(t@, language),
    decreases t,
{
    match t {
        TypeSpec::Optional(inner) => TypeSpec::Optional(
            Box::new(authored_field_type_for_language(inner, language)),
        ),
        TypeSpec::List(inner) => TypeSpec::List(
            Box::new(authored_field_type_for_language(inner, language)),
        ),
        TypeSpec::Tuple(items) => {
            let mut made: Vec<TypeSpec> = Vec::new();
            let mut i: usize = 0;
            while i < items.len()
                invariant
                    i <= items.len(),
                    *t == TypeSpec::Tuple(*items),
                    type_spec_views(made@) == types_for_language(
                        type_spec_views(items@.take(i as int)),
                        language,
                    ),
                decreases items.len() - i,
            {
                proof {
                    lemma_item_smaller(*t, i as int);
                    assert(items@.take(i + 1).drop_last() =~= items@.take(i as int));
                    assert(type_spec_views(items@.take(i + 1)).drop_last() =~= type_spec_views(
                        items@.take(i as int),
                    ));
                }
                let ghost before = made@;
                made.push(authored_field_type_for_language(&items[i], language));
                assert(made@.drop_last() =~= before);
                i += 1;
            }
            assert(items@.take(i as int) =~= items@);
            TypeSpec::Tuple(made)
        },
        TypeSpec::Mapping(key, value) => TypeSpec::Mapping(
            Box::new(authored_field_type_for_language(key, language)),
            Box::new(authored_field_type_for_language(value, language)),
        ),
        TypeSpec::Outcome { ok, err } => {
            proof {
                assert(decreases_to!(t => t->ok));
                assert(decreases_to!(t => t->err));
            }
            TypeSpec::Outcome {
                ok: opt_field_type_for_language(ok, language),
                err: opt_field_type_for_language(err, language),
            }
        },
        TypeSpec::Alias { name, target, annotation } => {
            let target = authored_field_type_for_language(target, language);
            if annotation.for_language(language).is_some() {
                TypeSpec::Alias {
                    name: name.clone(),
                    target: Box::new(target),
                    annotation: annotation.copy(),
                }
            } else {
                target
            }
        },
        _ => copy_type(t),
    }
}

/// A type that may be there, as a language has it.
pub open spec fn opt_authored_for_language(
    t: Option<TypeView>,
    language: Language,
) -> Option<TypeView> {
    match t {
        Some(t) => Some(type_for_language(t, language)),
        None => None,
    }
}

/// A type that may be there, as a language has it.
pub fn opt_authored_type_for_language(
    t: &Option<TypeSpec>,
    language: Language,
) -> (result: Option<TypeSpec>)
    ensures
        type_spec_opt(result) == opt_authored_for_language(type_spec_opt(*t), language),
{
    match t {
        Some(t) => Some(authored_field_type_for_language(t, language)),
        None => None,
    }
}

/// Whether a type is a list, or one that may be missing.
pub open spec fn is_list_type(t: TypeView) -> bool
    decreases t,
{
    match t {
        TypeView::Optional(inner) => is_list_type(*inner),
        TypeView::List(_) => true,
        _ => false,
    }
}

/// Whether a type is a list, or one that may be missing.
pub fn type_is_list(t: &TypeSpec) -> (result: bool)
    ensures
        result == is_list_type(t@),
    decreases t,
{
    match t {
        TypeSpec::Optional(inner) => type_is_list(inner),
        TypeSpec::List(_) => true,
        _ => false,
    }
}

/// The type that a WIT primitive is called by.
pub open spec fn primitive_type(named: Seq<char>) -> Option<TypeView> {
    if (named == "bool"@) {
        Some(TypeView::Bool)
    } else if (named == "u8"@) || (named == "u16"@) || (named == "u32"@) || (named == "u64"@)
        || (named == "s8"@) || (named == "s16"@) || (named == "s32"@) || (named == "s64"@) {
        Some(TypeView::Int)
    } else if (named == "f32"@) || (named == "f64"@) {
        Some(TypeView::Float)
    } else if (named == "char"@) || (named == "string"@) {
        Some(TypeView::Text)
    } else if (named == "bytes"@) {
        Some(TypeView::Bytes)
    } else {
        None
    }
}

/// The type that a WIT primitive is called by.
pub fn primitive_wit_type(named: &str) -> (result: Option<TypeSpec>)
    ensures
        type_spec_opt(result) == primitive_type(named@),
{
    if text_eq(named, "bool") {
        Some(TypeSpec::Bool)
    } else if text_eq(named, "u8") || text_eq(named, "u16") || text_eq(named, "u32") || text_eq(named, "u64")
        || text_eq(named, "s8")
            || text_eq(named, "s16")
            || text_eq(named, "s32")
            || text_eq(named, "s64") {
        Some(TypeSpec::Int)
    } else if text_eq(named, "f32") || text_eq(named, "f64") {
        Some(TypeSpec::Float)
    } else if text_eq(named, "char") || text_eq(named, "string") {
        Some(TypeSpec::Text)
    } else if text_eq(named, "bytes") {
        Some(TypeSpec::Bytes)
    } else {
        None
    }
}

} // verus!
