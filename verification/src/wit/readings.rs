//! How the types of a WIT document are read: each kind as its own.

use vstd::prelude::*;

use crate::error::ErrorView;
use crate::language::Language;
use crate::wit::document::{WitDocument, WitField, WitOwner, WitType, WitTypeKind};

verus! {

/// A primitive is read as the type of its own kind, wherever it stands; a type that no model can
/// have is refused.
pub proof fn law_primitives_are_read_as_their_kind(
    doc: WitDocument,
    path: Seq<char>,
    context: Seq<char>,
    budget: usize,
)
    requires
        doc.wf(),
    ensures
        crate::wit::resolve::type_outcome(doc, WitType::Bool, path, context, budget) == Ok::<
            crate::wit::types::TypeView,
            ErrorView,
        >(crate::wit::types::TypeView::Bool),
        crate::wit::resolve::type_outcome(doc, WitType::Integer, path, context, budget) == Ok::<
            crate::wit::types::TypeView,
            ErrorView,
        >(crate::wit::types::TypeView::Int),
        crate::wit::resolve::type_outcome(doc, WitType::Float, path, context, budget) == Ok::<
            crate::wit::types::TypeView,
            ErrorView,
        >(crate::wit::types::TypeView::Float),
        crate::wit::resolve::type_outcome(doc, WitType::Text, path, context, budget) == Ok::<
            crate::wit::types::TypeView,
            ErrorView,
        >(crate::wit::types::TypeView::Text),
        crate::wit::resolve::type_outcome(doc, WitType::Unsupported, path, context, budget) is Err,
{
}

/// A primitive that is named is the type of its own kind: `bool`, the eight integers, the two
/// floats, `char` and `string`, and `bytes`. Nothing else is a primitive.
pub proof fn law_named_primitives_are_read_as_their_kind(name: Seq<char>)
    ensures
        crate::wit::types::primitive_type(name) == Some(crate::wit::types::TypeView::Bool) <==> name == "bool"@,
        crate::wit::types::primitive_type(name) == Some(crate::wit::types::TypeView::Int) <==> (name == "u8"@ || name
            == "u16"@ || name == "u32"@ || name == "u64"@ || name == "s8"@ || name == "s16"@ || name
            == "s32"@ || name == "s64"@),
        crate::wit::types::primitive_type(name) == Some(crate::wit::types::TypeView::Float) <==> (name == "f32"@
            || name == "f64"@),
        crate::wit::types::primitive_type(name) == Some(crate::wit::types::TypeView::Text) <==> (name == "char"@
            || name == "string"@),
        crate::wit::types::primitive_type(name) == Some(crate::wit::types::TypeView::Bytes) <==> name == "bytes"@,
        crate::wit::types::primitive_type(name) is None <==> !(name == "bool"@ || name == "u8"@ || name
            == "u16"@ || name == "u32"@ || name == "u64"@ || name == "s8"@ || name == "s16"@ || name
            == "s32"@ || name == "s64"@ || name == "f32"@ || name == "f64"@ || name == "char"@
            || name == "string"@ || name == "bytes"@),
{
    reveal_strlit("bool");
    reveal_strlit("u8");
    reveal_strlit("u16");
    reveal_strlit("u32");
    reveal_strlit("u64");
    reveal_strlit("s8");
    reveal_strlit("s16");
    reveal_strlit("s32");
    reveal_strlit("s64");
    reveal_strlit("f32");
    reveal_strlit("f64");
    reveal_strlit("char");
    reveal_strlit("string");
    reveal_strlit("bytes");
    assert("bool"@[0] == 'b' && "bool"@.len() == 4);
    assert("bytes"@[0] == 'b' && "bytes"@.len() == 5);
    assert("char"@[0] == 'c');
    assert("string"@[0] == 's' && "string"@.len() == 6);
    assert("s8"@.len() == 2 && "s16"@.len() == 3 && "s32"@.len() == 3 && "s64"@.len() == 3);
    assert("u8"@[0] == 'u' && "u16"@[0] == 'u' && "u32"@[0] == 'u' && "u64"@[0] == 'u');
    assert("s8"@[0] == 's' && "s16"@[0] == 's' && "s32"@[0] == 's' && "s64"@[0] == 's');
    assert("f32"@[0] == 'f' && "f64"@[0] == 'f');
}

/// A container keeps what it is made of: an option and a list their element, a map its keys and its
/// values in their places, a result its two sides, a tuple its elements.
pub proof fn law_containers_keep_what_they_hold(
    doc: WitDocument,
    id: usize,
    directives: Seq<crate::wit::directive::DirectiveView>,
    path: Seq<char>,
    context: Seq<char>,
    budget: usize,
)
    requires
        doc.wf(),
        id < doc.types@.len(),
    ensures
        ({
            let outcome = crate::wit::resolve::type_kind_outcome(
                doc,
                id,
                directives,
                path,
                context,
                budget,
            );
            let kind = doc.types@[id as int].kind;
            &&& kind matches WitTypeKind::Optional(inner) ==> outcome == match crate::wit::resolve::type_outcome(
                doc,
                inner,
                path,
                context,
                budget,
            ) {
                Ok(held) => Ok::<crate::wit::types::TypeView, ErrorView>(
                    crate::wit::types::TypeView::Optional(Box::new(held)),
                ),
                Err(error) => Err(error),
            }
            &&& kind matches WitTypeKind::List(inner) ==> outcome == match crate::wit::resolve::type_outcome(
                doc,
                inner,
                path,
                context,
                budget,
            ) {
                Ok(held) => Ok::<crate::wit::types::TypeView, ErrorView>(
                    crate::wit::types::TypeView::List(Box::new(held)),
                ),
                Err(error) => Err(error),
            }
            &&& kind matches WitTypeKind::Mapping(key, value) ==> (outcome matches Ok(found) ==> {
                &&& crate::wit::resolve::type_outcome(doc, key, path, context, budget) is Ok
                &&& crate::wit::resolve::type_outcome(doc, value, path, context, budget) is Ok
                &&& found == crate::wit::types::TypeView::Mapping(
                    Box::new(crate::wit::resolve::type_outcome(doc, key, path, context, budget)->Ok_0),
                    Box::new(crate::wit::resolve::type_outcome(doc, value, path, context, budget)->Ok_0),
                )
            })
            &&& kind matches WitTypeKind::Outcome(ok, err) ==> (outcome matches Ok(found) ==> found
                == (crate::wit::types::TypeView::Outcome {
                ok: match ok {
                    Some(ok) => Some(
                        Box::new(crate::wit::resolve::type_outcome(doc, ok, path, context, budget)->Ok_0),
                    ),
                    None => None,
                },
                err: match err {
                    Some(err) => Some(
                        Box::new(crate::wit::resolve::type_outcome(doc, err, path, context, budget)->Ok_0),
                    ),
                    None => None,
                },
            }))
            &&& kind matches WitTypeKind::Tuple(items) ==> (outcome matches Ok(found)
                ==> (found matches crate::wit::types::TypeView::Tuple(parts) && parts.len() == items@.len()))
            &&& kind is Other ==> outcome is Err
        }),
{
    assert(doc.type_ok(id as int));
    match doc.types@[id as int].kind {
        WitTypeKind::Tuple(items) => {
            lemma_tuple_length(doc, items@, items.len(), id, path, context, budget);
        },
        _ => {},
    }
}

/// A tuple has as many elements as it names, each read as it stands.
proof fn lemma_tuple_length(
    doc: WitDocument,
    items: Seq<WitType>,
    count: usize,
    limit: usize,
    path: Seq<char>,
    context: Seq<char>,
    budget: usize,
)
    requires
        doc.wf(),
        limit < doc.types@.len(),
        count <= items.len(),
        crate::wit::resolve::types_below(items, limit as int),
    ensures
        crate::wit::resolve::types_outcome(doc, items, count, limit, path, context, budget) matches Ok(found)
            ==> found.len() == count,
    decreases count,
{
    if count > 0 {
        lemma_tuple_length(doc, items, (count - 1) as usize, limit, path, context, budget);
    }
}

/// The elements of a tuple are read in their order.
pub proof fn law_tuples_keep_their_order(
    doc: WitDocument,
    items: Seq<WitType>,
    count: usize,
    limit: usize,
    path: Seq<char>,
    context: Seq<char>,
    budget: usize,
    i: int,
)
    requires
        doc.wf(),
        limit < doc.types@.len(),
        count <= items.len(),
        crate::wit::resolve::types_below(items, limit as int),
        0 <= i < count,
    ensures
        crate::wit::resolve::types_outcome(doc, items, count, limit, path, context, budget) matches Ok(found)
            ==> found.len() == count && crate::wit::resolve::type_outcome(
            doc,
            items[i],
            path,
            context,
            budget,
        ) == Ok::<crate::wit::types::TypeView, ErrorView>(found[i]),
    decreases count,
{
    lemma_tuple_length(doc, items, count, limit, path, context, budget);
    lemma_tuple_length(doc, items, (count - 1) as usize, limit, path, context, budget);
    if i < count - 1 {
        law_tuples_keep_their_order(
            doc,
            items,
            (count - 1) as usize,
            limit,
            path,
            context,
            budget,
            i,
        );
    }
}

/// A declared type is read as the type of its own kind, by its full name; a handle is read as its
/// resource.
pub proof fn law_declared_types_are_read_as_their_kind(
    doc: WitDocument,
    id: usize,
    directives: Seq<crate::wit::directive::DirectiveView>,
    path: Seq<char>,
    context: Seq<char>,
    budget: usize,
)
    requires
        doc.wf(),
        id < doc.types@.len(),
    ensures
        ({
            let outcome = crate::wit::resolve::type_kind_outcome(
                doc,
                id,
                directives,
                path,
                context,
                budget,
            );
            let kind = doc.types@[id as int].kind;
            let name = crate::wit::resolve::full_type_name(doc, id);
            &&& kind is Record ==> outcome == Ok::<crate::wit::types::TypeView, ErrorView>(
                crate::wit::types::TypeView::Record(name),
            )
            &&& kind is Enumeration ==> outcome == Ok::<crate::wit::types::TypeView, ErrorView>(
                crate::wit::types::TypeView::Enumeration(name),
            )
            &&& kind is Flags ==> outcome == Ok::<crate::wit::types::TypeView, ErrorView>(
                crate::wit::types::TypeView::Flags(name),
            )
            &&& kind is Variant ==> outcome == Ok::<crate::wit::types::TypeView, ErrorView>(
                crate::wit::types::TypeView::Variant(name),
            )
            &&& kind matches WitTypeKind::Own(resource) ==> (
            doc.types@[resource as int].name matches Some(held) ==> (outcome matches Ok(
                crate::wit::types::TypeView::Resource(found),
            ) && found.name == held@ && found.wire_type is None && found.alias is None))
            &&& kind matches WitTypeKind::Borrow(resource) ==> (
            doc.types@[resource as int].name matches Some(held) ==> (outcome matches Ok(
                crate::wit::types::TypeView::Resource(found),
            ) && found.name == held@ && found.wire_type is None && found.alias is None))
        }),
{
}

/// The full name of a type is its own behind that of its owner.
pub proof fn law_full_names_start_with_the_owner(doc: WitDocument, id: usize)
    requires
        id < doc.types@.len(),
    ensures
        doc.types@[id as int].name matches Some(name) ==> {
            &&& doc.types@[id as int].owner matches WitOwner::Interface(owner) ==> (
            doc.interfaces@[owner as int].name matches Some(interface)
                ==> crate::wit::resolve::full_type_name(doc, id) == interface@ + "."@ + name@)
            &&& doc.types@[id as int].owner matches WitOwner::World(owner)
                ==> crate::wit::resolve::full_type_name(doc, id) == doc.worlds@[owner as int].name@ + "."@
                + name@
            &&& doc.types@[id as int].owner is Unowned ==> crate::wit::resolve::full_type_name(doc, id)
                == name@
        },
{
}

/// A type without documentation has no directives: it is read as its kind says.
pub proof fn law_undocumented_types_are_read_as_they_stand(
    doc: WitDocument,
    id: usize,
    path: Seq<char>,
    context: Seq<char>,
    budget: usize,
)
    requires
        doc.wf(),
        id < doc.types@.len(),
        doc.types@[id as int].docs is None,
        doc.types@[id as int].name is Some,
    ensures
        ({
            let inner = context + " type `"@ + doc.types@[id as int].name->Some_0@ + "`"@;
            &&& crate::wit::resolve::type_outcome(doc, WitType::Id(id), path, context, budget)
                == crate::wit::resolve::type_kind_outcome(doc, id, Seq::empty(), path, inner, budget)
            &&& doc.types@[id as int].kind matches WitTypeKind::Alias(next)
                ==> crate::wit::resolve::type_kind_outcome(doc, id, Seq::empty(), path, inner, budget)
                == crate::wit::resolve::type_outcome(doc, next, path, inner, budget)
        }),
{
    assert(doc.type_ok(id as int));
    let inner = context + " type `"@ + doc.types@[id as int].name->Some_0@ + "`"@;
    assert(crate::wit::resolve::declared_type_outcome(doc, id, path, context, budget)
        == crate::wit::resolve::type_kind_outcome(doc, id, Seq::empty(), path, inner, budget));
}

/// A type that is bound to a protobuf type is read as that type, and as an alias of it where a
/// language has a type of its own for it.
pub proof fn law_bound_types_are_read_as_their_message(
    doc: WitDocument,
    id: usize,
    directives: Seq<crate::wit::directive::DirectiveView>,
    proto_name: Seq<char>,
    path: Seq<char>,
    context: Seq<char>,
)
    requires
        doc.wf(),
        id < doc.types@.len(),
        crate::wit::resolve::owned_resource(doc, WitType::Id(id)) is None,
    ensures
        crate::wit::directive::named_directives(directives, "type"@).len() == 0
            ==> crate::wit::resolve::bound_type_outcome(
            doc,
            id,
            directives,
            proto_name,
            path,
            context,
        ) == Ok::<crate::wit::types::TypeView, ErrorView>(crate::wit::types::TypeView::Proto(proto_name)),
        crate::wit::directive::named_directives(directives, "type"@).len() == 1
            ==> crate::wit::resolve::bound_type_outcome(
            doc,
            id,
            directives,
            proto_name,
            path,
            context,
        ) == Ok::<crate::wit::types::TypeView, ErrorView>(
            crate::wit::types::TypeView::Alias {
                name: crate::wit::resolve::full_type_name(doc, id),
                target: Box::new(crate::wit::types::TypeView::Proto(proto_name)),
                annotation: crate::wit::strings::directive_strings(
                    crate::wit::directive::named_directives(directives, "type"@)[0],
                ),
            },
        ),
{
}

/// An alias is kept for a language that has an annotation for it, and is its target for every
/// other; everything else keeps its shape.
pub proof fn law_types_are_settled_for_a_language(
    name: Seq<char>,
    target: crate::wit::types::TypeView,
    annotation: crate::plan::LanguageStringView,
    other: crate::wit::types::TypeView,
    language: Language,
)
    ensures
        ({
            let alias = crate::wit::types::TypeView::Alias { name, target: Box::new(target), annotation };
            let settled = crate::wit::types::type_for_language(target, language);
            &&& crate::plan::view_text_for(annotation, language) is Some ==> crate::wit::types::type_for_language(
                alias,
                language,
            ) == (crate::wit::types::TypeView::Alias { name, target: Box::new(settled), annotation })
            &&& crate::plan::view_text_for(annotation, language) is None ==> crate::wit::types::type_for_language(
                alias,
                language,
            ) == settled
            &&& crate::wit::types::type_for_language(
                crate::wit::types::TypeView::Optional(Box::new(target)),
                language,
            ) == crate::wit::types::TypeView::Optional(Box::new(settled))
            &&& crate::wit::types::type_for_language(crate::wit::types::TypeView::List(Box::new(target)), language)
                == crate::wit::types::TypeView::List(Box::new(settled))
            &&& crate::wit::types::type_for_language(
                crate::wit::types::TypeView::Mapping(Box::new(target), Box::new(other)),
                language,
            ) == crate::wit::types::TypeView::Mapping(
                Box::new(settled),
                Box::new(crate::wit::types::type_for_language(other, language)),
            )
            &&& crate::wit::types::type_for_language(crate::wit::types::TypeView::Int, language)
                == crate::wit::types::TypeView::Int
            &&& crate::wit::types::type_for_language(crate::wit::types::TypeView::Float, language)
                == crate::wit::types::TypeView::Float
            &&& crate::wit::types::type_for_language(crate::wit::types::TypeView::Bool, language)
                == crate::wit::types::TypeView::Bool
            &&& crate::wit::types::type_for_language(crate::wit::types::TypeView::Text, language)
                == crate::wit::types::TypeView::Text
            &&& crate::wit::types::type_for_language(crate::wit::types::TypeView::Bytes, language)
                == crate::wit::types::TypeView::Bytes
        }),
{
    reveal_with_fuel(crate::wit::types::type_for_language, 2);
}

/// A field may be missing exactly where its type is an option, behind any number of aliases.
pub proof fn law_options_may_be_missing(doc: WitDocument, ty: WitType)
    requires
        doc.wf(),
        crate::wit::document::type_below(ty, doc.types@.len() as int),
    ensures
        !(ty is Id) ==> !crate::wit::resolve::optional_behind(doc, ty),
        ty matches WitType::Id(id) ==> {
            &&& doc.types@[id as int].kind is Optional ==> crate::wit::resolve::optional_behind(doc, ty)
            &&& doc.types@[id as int].kind matches WitTypeKind::Alias(next)
                ==> crate::wit::resolve::optional_behind(doc, ty) == crate::wit::resolve::optional_behind(doc, next)
            &&& !(doc.types@[id as int].kind is Optional) && !(doc.types@[id as int].kind is Alias)
                ==> !crate::wit::resolve::optional_behind(doc, ty)
        },
{
    match ty {
        WitType::Id(id) => {
            assert(doc.type_ok(id as int));
        },
        _ => {},
    }
}

/// A field that is kept is required exactly where it is no option and has no default; its type is
/// the one that is declared, settled for the language, and it shows unless it is hidden or has a
/// source.
pub proof fn law_fields_are_required_unless_they_may_be_missing(
    doc: WitDocument,
    owner: WitOwner,
    field: WitField,
    directives: Seq<crate::wit::directive::DirectiveView>,
    api_omit: Option<crate::wit::directive::DirectiveView>,
    default: Option<crate::wit::directive::DirectiveView>,
    name: Seq<char>,
    proto_name: Seq<char>,
    path: Seq<char>,
    record_context: Seq<char>,
    context: Seq<char>,
    language: Language,
)
    ensures
        crate::wit::record::kept_field_outcome(
            doc,
            owner,
            field,
            directives,
            api_omit,
            default,
            name,
            proto_name,
            None,
            path,
            record_context,
            context,
            language,
        ) matches Ok(made) ==> {
            let declared = crate::wit::resolve::type_outcome(
                doc,
                field.ty,
                path,
                context,
                doc.types.len(),
            );
            &&& made.name == name
            &&& declared is Ok
            &&& made.field_type == crate::wit::types::type_for_language(declared->Ok_0, language)
            &&& made.required <==> (!crate::wit::resolve::optional_behind(doc, field.ty)
                && made.default_value is None)
            &&& made.default_value is Some <==> default is Some
            &&& made.visibility == crate::wit::record::VisibilityView::Public || made.visibility
                == crate::wit::record::VisibilityView::ApiOmitted || made.visibility is Sourced
            &&& made.visibility == crate::wit::record::VisibilityView::ApiOmitted <==> api_omit is Some
        },
{
}

/// A field that is omitted stays in the record, hidden and not required.
pub proof fn law_omitted_fields_are_hidden(
    doc: WitDocument,
    field: WitField,
    directives: Seq<crate::wit::directive::DirectiveView>,
    omit: crate::wit::directive::DirectiveView,
    name: Seq<char>,
    path: Seq<char>,
    context: Seq<char>,
    language: Language,
)
    ensures
        crate::wit::record::omitted_field_outcome(
            doc,
            field,
            directives,
            omit,
            name,
            path,
            context,
            language,
        ) matches Ok(made) ==> made.name == name && made.visibility
            == crate::wit::record::VisibilityView::Omitted && !made.required && made.default_value is None
            && omit.args == Map::<Seq<char>, Seq<char>>::empty(),
{
}

/// A field is bound to the protobuf field that is named for it, else to its own name in snake case;
/// it is called as a language asks, else by its own name.
pub proof fn law_fields_are_named_by_their_directives(
    directives: Seq<crate::wit::directive::DirectiveView>,
    field: WitField,
    path: Seq<char>,
    context: Seq<char>,
    language: Language,
)
    ensures
        crate::wit::directive::named_directives(directives, "proto-field"@).len() == 0
            ==> crate::wit::record::proto_field_name_outcome(directives, field, path, context) == Ok::<
            Seq<char>,
            ErrorView,
        >(crate::naming::snake(field.name@)),
        crate::wit::directive::named_directives(directives, "proto-field"@).len() == 1 ==> (
        crate::wit::directive::value_of(
            crate::wit::directive::named_directives(directives, "proto-field"@)[0],
            "value"@,
        ) matches Some(named) ==> crate::wit::record::proto_field_name_outcome(
            directives,
            field,
            path,
            context,
        ) == Ok::<Seq<char>, ErrorView>(named)),
        crate::wit::directive::named_directives(directives, "name"@).len() == 0
            ==> crate::wit::record::generated_name_outcome(directives, field, path, context, language)
            == Ok::<Seq<char>, ErrorView>(field.name@),
        crate::wit::directive::named_directives(directives, "name"@).len() == 1 ==> (crate::wit::directive::value_of(
            crate::wit::directive::named_directives(directives, "name"@)[0],
            crate::wit::strings::language_key_text(language),
        ) matches Some(named) ==> crate::wit::record::generated_name_outcome(
            directives,
            field,
            path,
            context,
            language,
        ) == Ok::<Seq<char>, ErrorView>(named)),
{
}

/// A default is the number of its case: the place where the case stands in the enumeration.
pub proof fn law_defaults_are_the_place_of_their_case(
    doc: WitDocument,
    id: usize,
    case_name: Seq<char>,
    path: Seq<char>,
    context: Seq<char>,
)
    requires
        doc.wf(),
        id < doc.types@.len(),
    ensures
        doc.types@[id as int].kind matches WitTypeKind::Enumeration(cases) ==> {
            let outcome = crate::wit::record::default_enum_value(
                doc,
                WitType::Id(id),
                case_name,
                path,
                context,
            );
            &&& outcome matches Ok(number) ==> 0 <= number < cases@.len() && cases@[number as int]@
                == case_name && forall|i: int|
                0 <= i < number ==> (#[trigger] cases@[i])@ != case_name
            &&& outcome is Err ==> forall|i: int|
                0 <= i < cases@.len() ==> (#[trigger] cases@[i])@ != case_name
        },
{
    assert(doc.type_ok(id as int));
    match doc.types@[id as int].kind {
        WitTypeKind::Enumeration(cases) => {
            lemma_case_place(cases@, case_name);
        },
        _ => {},
    }
}

/// The place of a case is the first where its name stands.
proof fn lemma_case_place(cases: Seq<String>, name: Seq<char>)
    ensures
        ({
            let at = crate::wit::record::case_index(cases, name);
            &&& 0 <= at <= cases.len()
            &&& at < cases.len() ==> cases[at]@ == name
            &&& forall|i: int| 0 <= i < at ==> (#[trigger] cases[i])@ != name
        }),
    decreases cases.len(),
{
    if cases.len() > 0 && cases[0]@ != name {
        lemma_case_place(cases.drop_first(), name);
        let at = crate::wit::record::case_index(cases.drop_first(), name);
        assert forall|i: int| 0 <= i < at + 1 implies (#[trigger] cases[i])@ != name by {
            if i > 0 {
                assert(cases.drop_first()[i - 1] == cases[i]);
            }
        }
    }
}

/// A case of an enumeration has its place as its number, its own name on the wire and its name in
/// upper camel case; a flag has its place as its bit.
pub proof fn law_cases_and_flags_are_numbered_by_their_place(names: Seq<Seq<char>>, i: int)
    requires
        0 <= i < names.len(),
        names.len() <= i32::MAX,
    ensures
        crate::wit::declare::enum_value_list(names).len() == names.len(),
        crate::wit::declare::enum_value_list(names)[i].wire_name == names[i],
        crate::wit::declare::enum_value_list(names)[i].name == crate::naming::upper_camel(names[i]),
        crate::wit::declare::enum_value_list(names)[i].number == i,
        crate::wit::declare::flag_views(names).len() == names.len(),
        crate::wit::declare::flag_views(names)[i].name == crate::naming::upper_camel(names[i]),
        crate::wit::declare::flag_views(names)[i].bit == i,
{
}

/// A case of a variant has its own name, its name in snake case on the wire, and the type that it
/// declares.
pub proof fn law_variant_cases_keep_their_payload(
    case: crate::wit::document::WitCase,
    doc: WitDocument,
    path: Seq<char>,
    context: Seq<char>,
    language: Language,
)
    ensures
        crate::wit::declare::variant_case_outcome(case, doc, path, context, language) matches Ok(made) ==> {
            &&& made.name == case.name@
            &&& made.wire_name == crate::naming::snake(case.name@)
            &&& made.payload is Some <==> case.ty is Some
            &&& case.ty matches Some(ty) ==> made.payload == Some(
                crate::wit::types::type_for_language(
                    crate::wit::resolve::type_outcome(
                        doc,
                        ty,
                        path,
                        context + " case `"@ + case.name@ + "`"@,
                        doc.types.len(),
                    )->Ok_0,
                    language,
                ),
            )
        },
{
}

} // verus!
