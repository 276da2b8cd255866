//! The type parameters that generated models have.

use vstd::prelude::*;

use crate::language::Language;
use crate::text::text_eq;
use crate::wit::api::ApiSpec;
use crate::wit::declare::{TypeDeclSpec, TypeTable, VariantCaseSpec};
use crate::wit::record::{
    record_field_at, record_field_count, RecordFieldSpec, RecordFieldVisibility, RecordFields,
};
use crate::wit::types::{TypeParameterSpec, TypeSpec};

verus! {

/// The index of the first type with a full name.
pub open spec fn decl_index(
    types: Seq<crate::wit::declare::TypeDeclEntryView>,
    name: Seq<char>,
) -> int
    decreases types.len(),
{
    if types.len() == 0 || types[0].full_name == name {
        0
    } else {
        1 + decl_index(types.drop_first(), name)
    }
}

/// Whether the type of a field shows in a language: the field is not left out, and the language
/// has no annotation in its place.
pub open spec fn shows_type(
    field: crate::wit::record::RecordFieldView,
    language: Language,
) -> bool {
    &&& field.visibility != crate::wit::record::VisibilityView::Omitted
    &&& match field.annotation {
        Some(annotation) => crate::plan::view_text_for(annotation, language) is None,
        None => true,
    }
}

/// The type parameters in a type, with those of the models that it refers to, down to a depth.
pub open spec fn parameters_in(
    t: crate::wit::types::TypeView,
    types: Seq<crate::wit::declare::TypeDeclEntryView>,
    language: Language,
    depth: nat,
) -> Seq<crate::wit::types::TypeParameterView>
    decreases depth, 1nat, 0nat, t,
{
    match t {
        crate::wit::types::TypeView::TypeParameter(parameter) => seq![parameter],
        crate::wit::types::TypeView::Optional(inner) => parameters_in(
            *inner,
            types,
            language,
            depth,
        ),
        crate::wit::types::TypeView::List(inner) => parameters_in(*inner, types, language, depth),
        crate::wit::types::TypeView::Tuple(items) => parameters_in_all(
            items,
            types,
            language,
            depth,
        ),
        crate::wit::types::TypeView::Mapping(key, value) => parameters_in(
            *key,
            types,
            language,
            depth,
        ) + parameters_in(*value, types, language, depth),
        crate::wit::types::TypeView::Outcome { ok, err } => {
            proof {
                assert(decreases_to!(t => t->ok));
                assert(decreases_to!(t => t->err));
            }
            parameters_in_opt(ok, types, language, depth) + parameters_in_opt(
                err,
                types,
                language,
                depth,
            )
        },
        crate::wit::types::TypeView::Record(name) => if depth == 0 {
            Seq::empty()
        } else {
            parameters_of_model(name, types, language, (depth - 1) as nat)
        },
        crate::wit::types::TypeView::Variant(name) => if depth == 0 {
            Seq::empty()
        } else {
            parameters_of_model(name, types, language, (depth - 1) as nat)
        },
        _ => Seq::empty(),
    }
}

/// The type parameters in a type that may be there.
pub open spec fn parameters_in_opt(
    t: Option<Box<crate::wit::types::TypeView>>,
    types: Seq<crate::wit::declare::TypeDeclEntryView>,
    language: Language,
    depth: nat,
) -> Seq<crate::wit::types::TypeParameterView>
    decreases depth, 1nat, 0nat, t,
{
    match t {
        Some(inner) => parameters_in(*inner, types, language, depth),
        None => Seq::empty(),
    }
}

/// The type parameters in types.
pub open spec fn parameters_in_all(
    items: Seq<crate::wit::types::TypeView>,
    types: Seq<crate::wit::declare::TypeDeclEntryView>,
    language: Language,
    depth: nat,
) -> Seq<crate::wit::types::TypeParameterView>
    decreases depth, 1nat, 0nat, items,
{
    if items.len() == 0 {
        Seq::empty()
    } else {
        parameters_in_all(items.drop_last(), types, language, depth) + parameters_in(
            items.last(),
            types,
            language,
            depth,
        )
    }
}

/// The type parameters in the types of the fields that show.
pub open spec fn parameters_in_fields(
    fields: Seq<crate::wit::record::RecordEntryView>,
    types: Seq<crate::wit::declare::TypeDeclEntryView>,
    language: Language,
    depth: nat,
) -> Seq<crate::wit::types::TypeParameterView>
    decreases depth, 2nat, fields.len(), types,
{
    if fields.len() == 0 {
        Seq::empty()
    } else {
        let before = parameters_in_fields(fields.drop_last(), types, language, depth);
        let field = fields.last().field;
        if shows_type(field, language) {
            before + parameters_in(field.field_type, types, language, depth)
        } else {
            before
        }
    }
}

/// The type parameters in what the cases of a variant carry.
pub open spec fn parameters_in_cases(
    cases: Seq<crate::wit::declare::VariantCaseView>,
    types: Seq<crate::wit::declare::TypeDeclEntryView>,
    language: Language,
    depth: nat,
) -> Seq<crate::wit::types::TypeParameterView>
    decreases depth, 2nat, cases.len(), types,
{
    if cases.len() == 0 {
        Seq::empty()
    } else {
        let before = parameters_in_cases(cases.drop_last(), types, language, depth);
        match cases.last().payload {
            Some(payload) => before + parameters_in(payload, types, language, depth),
            None => before,
        }
    }
}

/// The type parameters of a record or a variant, down to a depth.
pub open spec fn parameters_of_model(
    name: Seq<char>,
    types: Seq<crate::wit::declare::TypeDeclEntryView>,
    language: Language,
    depth: nat,
) -> Seq<crate::wit::types::TypeParameterView>
    decreases depth, 3nat, 0nat, types,
{
    let at = decl_index(types, name);
    if 0 <= at < types.len() {
        match types[at].decl {
            crate::wit::declare::TypeDeclView::Record(record) => parameters_in_fields(
                record.fields,
                types,
                language,
                depth,
            ),
            crate::wit::declare::TypeDeclView::Variant(variant) => parameters_in_cases(
                variant.cases,
                types,
                language,
                depth,
            ),
            _ => Seq::empty(),
        }
    } else {
        Seq::empty()
    }
}

/// Whether a parameter is among some, by the alias that stands for it.
pub open spec fn has_parameter(
    parameters: Seq<crate::wit::types::TypeParameterView>,
    full_name: Seq<char>,
) -> bool {
    exists|i: int| 0 <= i < parameters.len() && (#[trigger] parameters[i]).full_name == full_name
}

/// The parameters without those whose alias came before.
pub open spec fn distinct_parameters(
    parameters: Seq<crate::wit::types::TypeParameterView>,
) -> Seq<crate::wit::types::TypeParameterView>
    decreases parameters.len(),
{
    if parameters.len() == 0 {
        Seq::empty()
    } else {
        let before = distinct_parameters(parameters.drop_last());
        if has_parameter(before, parameters.last().full_name) {
            before
        } else {
            before.push(parameters.last())
        }
    }
}

/// The type parameters of a record or a variant, each once, in the order of their first use.
pub open spec fn model_parameters(
    name: Seq<char>,
    types: Seq<crate::wit::declare::TypeDeclEntryView>,
    language: Language,
) -> Seq<crate::wit::types::TypeParameterView> {
    distinct_parameters(parameters_of_model(name, types, language, types.len()))
}

/// No two type parameters of a model stand for one alias.
pub proof fn law_model_parameters_are_distinct(
    parameters: Seq<crate::wit::types::TypeParameterView>,
)
    ensures
        forall|i: int, j: int|
            0 <= i < j < distinct_parameters(parameters).len() ==> (#[trigger] distinct_parameters(
                parameters,
            )[i]).full_name != (#[trigger] distinct_parameters(parameters)[j]).full_name,
        forall|name: Seq<char>|
            has_parameter(parameters, name) ==> #[trigger] has_parameter(
                distinct_parameters(parameters),
                name,
            ),
    decreases parameters.len(),
{
    if parameters.len() > 0 {
        let rest = parameters.drop_last();
        let before = distinct_parameters(rest);
        law_model_parameters_are_distinct(rest);
        assert forall|name: Seq<char>| has_parameter(parameters, name) implies #[trigger] has_parameter(
            distinct_parameters(parameters),
            name,
        ) by {
            let k = choose|k: int|
                0 <= k < parameters.len() && (#[trigger] parameters[k]).full_name == name;
            if k < rest.len() {
                assert(rest[k].full_name == name);
                assert(has_parameter(before, name));
                let m = choose|m: int|
                    0 <= m < before.len() && (#[trigger] before[m]).full_name == name;
                assert(distinct_parameters(parameters)[m] == before[m]);
            } else if !has_parameter(before, name) {
                assert(distinct_parameters(parameters)[before.len() as int] == parameters.last());
            }
        }
    }
}

/// A copy of a type parameter.
fn copy_parameter(parameter: &TypeParameterSpec) -> (copy: TypeParameterSpec)
    ensures
        copy@ == parameter@,
{
    TypeParameterSpec { name: parameter.name.clone(), full_name: parameter.full_name.clone() }
}

/// Two lists of parameters, one behind the other.
fn with_parameters(head: Vec<TypeParameterSpec>, tail: Vec<TypeParameterSpec>) -> (all: Vec<
    TypeParameterSpec,
>)
    ensures
        crate::wit::types::type_parameter_spec_views(all@)
            == crate::wit::types::type_parameter_spec_views(head@)
            + crate::wit::types::type_parameter_spec_views(tail@),
{
    let ghost start = head@;
    let ghost added = tail@;
    let mut all = head;
    let mut tail = tail;
    all.append(&mut tail);
    assert(crate::wit::types::type_parameter_spec_views(start + added)
        =~= crate::wit::types::type_parameter_spec_views(start)
        + crate::wit::types::type_parameter_spec_views(added));
    all
}

/// No parameters.
fn no_parameters() -> (parameters: Vec<TypeParameterSpec>)
    ensures
        crate::wit::types::type_parameter_spec_views(parameters@) == Seq::<
            crate::wit::types::TypeParameterView,
        >::empty(),
{
    let parameters: Vec<TypeParameterSpec> = Vec::new();
    assert(crate::wit::types::type_parameter_spec_views(parameters@) =~= Seq::empty());
    parameters
}

/// The type parameters in a type, with those of the models that it refers to, down to a depth.
fn collect_in_type(
    t: &TypeSpec,
    types: &TypeTable,
    language: Language,
    depth: usize,
) -> (found: Vec<
    TypeParameterSpec,
>)
    ensures
        crate::wit::types::type_parameter_spec_views(found@) == parameters_in(
            t@,
            types@,
            language,
            depth as nat,
        ),
    decreases depth, 1nat, 0nat, t,
{
    match t {
        TypeSpec::TypeParameter(parameter) => {
            let mut found: Vec<TypeParameterSpec> = Vec::new();
            found.push(copy_parameter(parameter));
            assert(crate::wit::types::type_parameter_spec_views(found@) =~= seq![parameter@]);
            found
        },
        TypeSpec::Optional(inner) => collect_in_type(inner, types, language, depth),
        TypeSpec::List(inner) => collect_in_type(inner, types, language, depth),
        TypeSpec::Tuple(items) => {
            let mut found = no_parameters();
            let mut i: usize = 0;
            while i < items.len()
                invariant
                    i <= items.len(),
                    *t == TypeSpec::Tuple(*items),
                    crate::wit::types::type_parameter_spec_views(found@) == parameters_in_all(
                        crate::wit::types::type_spec_views(items@.take(i as int)),
                        types@,
                        language,
                        depth as nat,
                    ),
                decreases items.len() - i,
            {
                proof {
                    crate::wit::types::lemma_item_smaller(*t, i as int);
                    assert(items@.take(i + 1).drop_last() =~= items@.take(i as int));
                    assert(crate::wit::types::type_spec_views(items@.take(i + 1)).drop_last()
                        =~= crate::wit::types::type_spec_views(items@.take(i as int)));
                }
                let part = collect_in_type(&items[i], types, language, depth);
                found = with_parameters(found, part);
                i += 1;
            }
            assert(items@.take(i as int) =~= items@);
            found
        },
        TypeSpec::Mapping(key, value) => {
            let keys = collect_in_type(key, types, language, depth);
            let values = collect_in_type(value, types, language, depth);
            with_parameters(keys, values)
        },
        TypeSpec::Outcome { ok, err } => {
            proof {
                assert(decreases_to!(t => t->ok));
                assert(decreases_to!(t => t->err));
            }
            let oks = collect_in_opt(ok, types, language, depth);
            let errs = collect_in_opt(err, types, language, depth);
            with_parameters(oks, errs)
        },
        TypeSpec::Record(name) => {
            if depth == 0 {
                no_parameters()
            } else {
                collect_in_model(name.as_str(), types, language, depth - 1)
            }
        },
        TypeSpec::Variant(name) => {
            if depth == 0 {
                no_parameters()
            } else {
                collect_in_model(name.as_str(), types, language, depth - 1)
            }
        },
        _ => no_parameters(),
    }
}

/// The type parameters in a type that may be there.
fn collect_in_opt(
    t: &Option<Box<TypeSpec>>,
    types: &TypeTable,
    language: Language,
    depth: usize,
) -> (found: Vec<TypeParameterSpec>)
    ensures
        crate::wit::types::type_parameter_spec_views(found@) == parameters_in_opt(
            crate::wit::types::opt_type_view(*t),
            types@,
            language,
            depth as nat,
        ),
    decreases depth, 1nat, 0nat, t,
{
    match t {
        Some(inner) => collect_in_type(inner, types, language, depth),
        None => no_parameters(),
    }
}

/// Whether the type of a field shows in a language.
fn field_shows_type(field: &RecordFieldSpec, language: Language) -> (shown: bool)
    ensures
        shown == shows_type(field@, language),
{
    let omitted = matches!(field.visibility, RecordFieldVisibility::Omitted);
    if omitted {
        return false;
    }
    match &field.annotation {
        Some(annotation) => annotation.for_language(language).is_none(),
        None => true,
    }
}

/// The type parameters in the types of the fields that show.
fn collect_in_fields(
    fields: &RecordFields,
    types: &TypeTable,
    language: Language,
    depth: usize,
) -> (found: Vec<TypeParameterSpec>)
    ensures
        crate::wit::types::type_parameter_spec_views(found@) == parameters_in_fields(
            fields@,
            types@,
            language,
            depth as nat,
        ),
    decreases depth, 2nat, 0nat, types,
{
    let count = record_field_count(fields);
    let mut found = no_parameters();
    let mut i: usize = 0;
    while i < count
        invariant
            i <= count,
            count == fields@.len(),
            crate::wit::types::type_parameter_spec_views(found@) == parameters_in_fields(
                fields@.take(i as int),
                types@,
                language,
                depth as nat,
            ),
        decreases count - i,
    {
        assert(fields@.take(i + 1).drop_last() =~= fields@.take(i as int));
        assert(fields@.take(i + 1).last() == fields@[i as int]);
        match record_field_at(fields, i) {
            Some(field) => {
                if field_shows_type(field, language) {
                    let part = collect_in_type(&field.field_type, types, language, depth);
                    found = with_parameters(found, part);
                }
            },
            None => {},
        }
        i += 1;
    }
    assert(fields@.take(i as int) =~= fields@);
    found
}

/// The type parameters in what the cases of a variant carry.
fn collect_in_cases(
    cases: &Vec<VariantCaseSpec>,
    types: &TypeTable,
    language: Language,
    depth: usize,
) -> (found: Vec<TypeParameterSpec>)
    ensures
        crate::wit::types::type_parameter_spec_views(found@) == parameters_in_cases(
            crate::wit::declare::variant_case_spec_views(cases@),
            types@,
            language,
            depth as nat,
        ),
    decreases depth, 2nat, 0nat, types,
{
    let ghost views = crate::wit::declare::variant_case_spec_views(cases@);
    let mut found = no_parameters();
    let mut i: usize = 0;
    while i < cases.len()
        invariant
            i <= cases.len(),
            views == crate::wit::declare::variant_case_spec_views(cases@),
            crate::wit::types::type_parameter_spec_views(found@) == parameters_in_cases(
                views.take(i as int),
                types@,
                language,
                depth as nat,
            ),
        decreases cases.len() - i,
    {
        assert(views.take(i + 1).drop_last() =~= views.take(i as int));
        assert(views.take(i + 1).last() == cases@[i as int]@);
        match &cases[i].payload {
            Some(payload) => {
                let part = collect_in_type(payload, types, language, depth);
                found = with_parameters(found, part);
            },
            None => {},
        }
        i += 1;
    }
    assert(views.take(i as int) =~= views);
    found
}

/// The index of the first type with a full name.
fn find_decl(types: &TypeTable, name: &str) -> (index: usize)
    ensures
        index <= types.entries.len(),
        index == decl_index(types@, name@),
{
    let ghost views = types@;
    let mut i: usize = 0;
    assert(views.skip(0) =~= views);
    while i < types.entries.len()
        invariant
            i <= types.entries.len(),
            views == types@,
            i + decl_index(views.skip(i as int), name@) == decl_index(views, name@),
        decreases types.entries.len() - i,
    {
        assert(views.skip(i as int)[0] == types.entries@[i as int]@);
        if text_eq(types.entries[i].full_name.as_str(), name) {
            return i;
        }
        assert(views.skip(i as int).drop_first() =~= views.skip(i + 1));
        i += 1;
    }
    i
}

/// The type parameters of a record or a variant, down to a depth.
fn collect_in_model(name: &str, types: &TypeTable, language: Language, depth: usize) -> (found: Vec<
    TypeParameterSpec,
>)
    ensures
        crate::wit::types::type_parameter_spec_views(found@) == parameters_of_model(
            name@,
            types@,
            language,
            depth as nat,
        ),
    decreases depth, 3nat, 0nat, types,
{
    let at = find_decl(types, name);
    if at < types.entries.len() {
        assert(types@[at as int] == types.entries@[at as int]@);
        match &types.entries[at].decl {
            TypeDeclSpec::Record(record) => collect_in_fields(
                &record.fields,
                types,
                language,
                depth,
            ),
            TypeDeclSpec::Variant(variant) => collect_in_cases(
                &variant.cases,
                types,
                language,
                depth,
            ),
            _ => no_parameters(),
        }
    } else {
        no_parameters()
    }
}

/// Whether a parameter is among some, by the alias that stands for it.
fn holds_parameter(parameters: &Vec<TypeParameterSpec>, full_name: &str) -> (found: bool)
    ensures
        found == has_parameter(
            crate::wit::types::type_parameter_spec_views(parameters@),
            full_name@,
        ),
{
    let ghost views = crate::wit::types::type_parameter_spec_views(parameters@);
    let mut i: usize = 0;
    while i < parameters.len()
        invariant
            i <= parameters.len(),
            views == crate::wit::types::type_parameter_spec_views(parameters@),
            forall|k: int| 0 <= k < i ==> (#[trigger] views[k]).full_name != full_name@,
        decreases parameters.len() - i,
    {
        assert(views[i as int] == parameters@[i as int]@);
        if text_eq(parameters[i].full_name.as_str(), full_name) {
            return true;
        }
        i += 1;
    }
    false
}

/// The parameters without those whose alias came before.
fn keep_distinct(parameters: &Vec<TypeParameterSpec>) -> (kept: Vec<TypeParameterSpec>)
    ensures
        crate::wit::types::type_parameter_spec_views(kept@) == distinct_parameters(
            crate::wit::types::type_parameter_spec_views(parameters@),
        ),
{
    let ghost views = crate::wit::types::type_parameter_spec_views(parameters@);
    let mut kept = no_parameters();
    let mut i: usize = 0;
    while i < parameters.len()
        invariant
            i <= parameters.len(),
            views == crate::wit::types::type_parameter_spec_views(parameters@),
            crate::wit::types::type_parameter_spec_views(kept@) == distinct_parameters(
                views.take(i as int),
            ),
        decreases parameters.len() - i,
    {
        assert(views.take(i + 1).drop_last() =~= views.take(i as int));
        assert(views.take(i + 1).last() == parameters@[i as int]@);
        if !holds_parameter(&kept, parameters[i].full_name.as_str()) {
            let ghost before = kept@;
            kept.push(copy_parameter(&parameters[i]));
            assert(crate::wit::types::type_parameter_spec_views(kept@)
                =~= crate::wit::types::type_parameter_spec_views(before).push(
                parameters@[i as int]@,
            ));
        }
        i += 1;
    }
    assert(views.take(i as int) =~= views);
    kept
}

impl ApiSpec {
    /// The type parameters of a record, each once, in the order of their first use.
    pub fn record_type_parameters(&self, full_name: &str, language: Language) -> (parameters: Vec<
        TypeParameterSpec,
    >)
        ensures
            crate::wit::types::type_parameter_spec_views(parameters@) == model_parameters(
                full_name@,
                self@.types,
                language,
            ),
    {
        let found = collect_in_model(
            full_name,
            &self.types,
            language,
            self.types.entries.len(),
        );
        keep_distinct(&found)
    }

    /// The type parameters of a variant, each once, in the order of their first use.
    pub fn variant_type_parameters(&self, full_name: &str, language: Language) -> (parameters: Vec<
        TypeParameterSpec,
    >)
        ensures
            crate::wit::types::type_parameter_spec_views(parameters@) == model_parameters(
                full_name@,
                self@.types,
                language,
            ),
    {
        self.record_type_parameters(full_name, language)
    }
}

} // verus!
