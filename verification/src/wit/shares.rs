//! Which type parameters a model has, and which support files a package brings.

use vstd::prelude::*;

use crate::error::ErrorView;
use crate::language::Language;
use crate::wit::document::{WitDocument, WitName};

verus! {

/// A type has the parameters of the types that it is made of, in their order; an optional type and
/// a list have those of the type inside.
pub proof fn law_types_have_the_parameters_of_their_parts(
    inner: crate::wit::types::TypeView,
    other: crate::wit::types::TypeView,
    parameter: crate::wit::types::TypeParameterView,
    types: Seq<crate::wit::declare::TypeDeclEntryView>,
    language: Language,
    depth: nat,
)
    ensures
        ({
            let of = |t: crate::wit::types::TypeView| crate::wit::parameters::parameters_in(t, types, language, depth);
            &&& of(crate::wit::types::TypeView::TypeParameter(parameter)) == seq![parameter]
            &&& of(crate::wit::types::TypeView::Optional(Box::new(inner))) == of(inner)
            &&& of(crate::wit::types::TypeView::List(Box::new(inner))) == of(inner)
            &&& of(crate::wit::types::TypeView::Mapping(Box::new(inner), Box::new(other))) == of(inner) + of(
                other,
            )
            &&& of(
                (crate::wit::types::TypeView::Outcome {
                    ok: Some(Box::new(inner)),
                    err: Some(Box::new(other)),
                }),
            ) == of(inner) + of(other)
            &&& of((crate::wit::types::TypeView::Outcome { ok: Some(Box::new(inner)), err: None })) == of(
                inner,
            )
            &&& of((crate::wit::types::TypeView::Outcome { ok: None, err: Some(Box::new(inner)) })) == of(
                inner,
            )
            &&& of(crate::wit::types::TypeView::Bool).len() == 0
            &&& of(crate::wit::types::TypeView::Int).len() == 0
        }),
{
    reveal_with_fuel(crate::wit::parameters::parameters_in, 2);
    let none = Seq::<crate::wit::types::TypeParameterView>::empty();
    let found = crate::wit::parameters::parameters_in(inner, types, language, depth);
    assert(found + none =~= found);
    assert(none + found =~= found);
}

/// A tuple has the parameters of its items, in their order.
pub proof fn law_tuples_have_the_parameters_of_their_items(
    items: Seq<crate::wit::types::TypeView>,
    item: crate::wit::types::TypeView,
    types: Seq<crate::wit::declare::TypeDeclEntryView>,
    language: Language,
    depth: nat,
)
    ensures
        crate::wit::parameters::parameters_in_all(items.push(item), types, language, depth)
            == crate::wit::parameters::parameters_in_all(items, types, language, depth)
            + crate::wit::parameters::parameters_in(item, types, language, depth),
        crate::wit::parameters::parameters_in(
            crate::wit::types::TypeView::Tuple(items),
            types,
            language,
            depth,
        ) == crate::wit::parameters::parameters_in_all(items, types, language, depth),
{
    assert(items.push(item).drop_last() =~= items);
}

/// A record has the parameters of the fields that show their type: not of one that is left out, nor
/// of one with an annotation for the language.
pub proof fn law_records_have_the_parameters_that_they_show(
    fields: Seq<crate::wit::record::RecordEntryView>,
    entry: crate::wit::record::RecordEntryView,
    types: Seq<crate::wit::declare::TypeDeclEntryView>,
    language: Language,
    depth: nat,
)
    ensures
        ({
            let before = crate::wit::parameters::parameters_in_fields(fields, types, language, depth);
            let all = crate::wit::parameters::parameters_in_fields(
                fields.push(entry),
                types,
                language,
                depth,
            );
            let field = entry.field;
            let annotated = field.annotation matches Some(annotation) && crate::plan::view_text_for(
                annotation,
                language,
            ) is Some;
            &&& field.visibility is Omitted ==> all == before
            &&& annotated ==> all == before
            &&& !(field.visibility is Omitted) && !annotated ==> all == before
                + crate::wit::parameters::parameters_in(field.field_type, types, language, depth)
        }),
{
    assert(fields.push(entry).drop_last() =~= fields);
}

/// A variant has the parameters of the payloads of its cases.
pub proof fn law_variants_have_the_parameters_of_their_payloads(
    cases: Seq<crate::wit::declare::VariantCaseView>,
    case: crate::wit::declare::VariantCaseView,
    types: Seq<crate::wit::declare::TypeDeclEntryView>,
    language: Language,
    depth: nat,
)
    ensures
        ({
            let before = crate::wit::parameters::parameters_in_cases(cases, types, language, depth);
            let all = crate::wit::parameters::parameters_in_cases(cases.push(case), types, language, depth);
            &&& case.payload is None ==> all == before
            &&& case.payload matches Some(payload) ==> all == before
                + crate::wit::parameters::parameters_in(payload, types, language, depth)
        }),
{
    assert(cases.push(case).drop_last() =~= cases);
}

/// A model has the parameters of the first type that is declared under its name.
pub proof fn law_models_have_the_parameters_of_their_declaration(
    types: Seq<crate::wit::declare::TypeDeclEntryView>,
    language: Language,
    depth: nat,
    at: int,
)
    requires
        0 <= at < types.len(),
        forall|i: int| 0 <= i < at ==> (#[trigger] types[i]).full_name != types[at].full_name,
    ensures
        crate::wit::parameters::decl_index(types, types[at].full_name) == at,
        types[at].decl matches crate::wit::declare::TypeDeclView::Record(record)
            ==> crate::wit::parameters::parameters_of_model(types[at].full_name, types, language, depth)
            == crate::wit::parameters::parameters_in_fields(record.fields, types, language, depth),
        types[at].decl matches crate::wit::declare::TypeDeclView::Variant(variant)
            ==> crate::wit::parameters::parameters_of_model(types[at].full_name, types, language, depth)
            == crate::wit::parameters::parameters_in_cases(variant.cases, types, language, depth),
{
    lemma_declaration_is_found(types, at);
}

/// The first declaration under a name is the one that is found.
proof fn lemma_declaration_is_found(types: Seq<crate::wit::declare::TypeDeclEntryView>, at: int)
    requires
        0 <= at < types.len(),
        forall|i: int| 0 <= i < at ==> (#[trigger] types[i]).full_name != types[at].full_name,
    ensures
        crate::wit::parameters::decl_index(types, types[at].full_name) == at,
    decreases types.len(),
{
    if at > 0 {
        let rest = types.drop_first();
        assert(types[0].full_name != types[at].full_name);
        assert forall|i: int| 0 <= i < at - 1 implies (#[trigger] rest[i]).full_name != rest[at
            - 1].full_name by {
            assert(rest[i] == types[i + 1]);
        }
        lemma_declaration_is_found(rest, at - 1);
    }
}

/// A name without a declaration has no parameters.
pub proof fn law_undeclared_models_have_no_parameters(
    name: Seq<char>,
    types: Seq<crate::wit::declare::TypeDeclEntryView>,
    language: Language,
    depth: nat,
)
    requires
        forall|i: int| 0 <= i < types.len() ==> (#[trigger] types[i]).full_name != name,
    ensures
        crate::wit::parameters::parameters_of_model(name, types, language, depth).len() == 0,
{
    lemma_declaration_is_missing(name, types);
}

/// A name without a declaration is looked for past the end.
proof fn lemma_declaration_is_missing(name: Seq<char>, types: Seq<crate::wit::declare::TypeDeclEntryView>)
    requires
        forall|i: int| 0 <= i < types.len() ==> (#[trigger] types[i]).full_name != name,
    ensures
        crate::wit::parameters::decl_index(types, name) == types.len(),
    decreases types.len(),
{
    if types.len() > 0 {
        let rest = types.drop_first();
        assert(types[0].full_name != name);
        assert forall|i: int| 0 <= i < rest.len() implies (#[trigger] rest[i]).full_name
            != name by {
            assert(rest[i] == types[i + 1]);
        }
        lemma_declaration_is_missing(name, rest);
    }
}

/// A support file is planned once for a language, below the directory of its package; a failure
/// stays the first one.
pub proof fn law_support_files_are_planned_once(
    plan: crate::wit::support::SupportPlanView,
    docs: Option<Seq<char>>,
    language: Language,
    origin: Seq<char>,
    context: Seq<char>,
)
    ensures
        ({
            let made = crate::wit::support::planned_docs(plan, docs, language, origin, context);
            let named = crate::wit::support::support_in_docs(docs, language, origin, context);
            &&& plan.failure is Some ==> made == plan
            &&& plan.failure is None ==> (named matches Err(error) ==> made.failure == Some(error)
                && made.fragments == plan.fragments)
            &&& named is Ok ==> made.failure == plan.failure
            &&& docs is None ==> made == plan
            &&& plan.failure is None ==> (named matches Ok(Some(support)) ==> {
                let source = crate::paths::joined_path(origin, support.0);
                let path = crate::text::replaced_char(source, '\\', "/"@);
                &&& crate::wit::support::has_fragment(plan.fragments, language, path) ==> made == plan
                &&& !crate::wit::support::has_fragment(plan.fragments, language, path) ==> made.fragments
                    == plan.fragments.push(
                    (crate::wit::support::PlannedFragmentView {
                        language,
                        source,
                        path,
                        namespace: support.1,
                    }),
                )
            })
        }),
{
    lemma_support_without_docs(language, origin, context);
}

/// Nothing is named where there are no docs.
proof fn lemma_support_without_docs(language: Language, origin: Seq<char>, context: Seq<char>)
    ensures
        crate::wit::support::support_in_docs(None, language, origin, context) == Ok::<
            Option<(Seq<char>, Option<Seq<char>>)>,
            ErrorView,
        >(None),
{
    crate::wit::settings::law_support_is_named_for_the_language(None, language, origin, context);
}

/// A package brings the support that its own docs name, and then that of each of its worlds.
pub proof fn law_packages_bring_the_support_of_their_worlds(
    plan: crate::wit::support::SupportPlanView,
    doc: WitDocument,
    language: Language,
    package: usize,
    origin: Seq<char>,
    worlds: Seq<WitName>,
    world: WitName,
)
    ensures
        ({
            let found = doc.packages@[package as int];
            let label = crate::wit::support::package_label_text(found);
            &&& crate::wit::support::planned_package(plan, doc, language, package, origin)
                == crate::wit::support::planned_worlds(
                crate::wit::support::planned_docs(
                    plan,
                    crate::text::opt_text(found.docs),
                    language,
                    origin,
                    "package `"@ + label + "`"@,
                ),
                found.worlds@,
                doc,
                language,
                origin,
                label,
            )
            &&& crate::wit::support::planned_worlds(
                plan,
                worlds.push(world),
                doc,
                language,
                origin,
                label,
            ) == crate::wit::support::planned_docs(
                crate::wit::support::planned_worlds(plan, worlds, doc, language, origin, label),
                crate::text::opt_text(doc.worlds@[world.id as int].docs),
                language,
                origin,
                "package `"@ + label + "` world `"@ + world.name@ + "`"@,
            )
        }),
{
    assert(worlds.push(world).drop_last() =~= worlds);
}

} // verus!
