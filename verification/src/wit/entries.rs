//! What the directives of a WIT package settle: which fields a record has, how its types are bound,
//! and what its functions take.

use vstd::prelude::*;

use crate::error::ErrorView;
use crate::language::Language;
use crate::wit::document::{
    WitDocument, WitField, WitFunction, WitFunctionKind, WitInterface, WitOwner, WitType,
    WitTypeKind,
};

verus! {

/// How often a directive is written.
pub open spec fn written(directives: Seq<crate::wit::directive::DirectiveView>, name: Seq<char>) -> nat {
    crate::wit::directive::named_directives(directives, name).len()
}

/// The directive that is written once.
pub open spec fn only(
    directives: Seq<crate::wit::directive::DirectiveView>,
    name: Seq<char>,
) -> crate::wit::directive::DirectiveView {
    crate::wit::directive::named_directives(directives, name)[0]
}

/// A field that is left out is hidden and not required, and nothing else may be said of it.
pub proof fn law_left_out_fields_say_nothing_else(
    doc: WitDocument,
    field: WitField,
    directives: Seq<crate::wit::directive::DirectiveView>,
    omit: crate::wit::directive::DirectiveView,
    name: Seq<char>,
    path: Seq<char>,
    context: Seq<char>,
    language: Language,
)
    ensures
        crate::wit::record::omitted_field_outcome(
            doc,
            field,
            directives,
            omit,
            name,
            path,
            context,
            language,
        ) matches Ok(made) ==> {
            &&& made.name == name
            &&& made.visibility == crate::wit::record::VisibilityView::Omitted
            &&& !made.required
            &&& made.default_value is None
            &&& written(directives, "source"@) == 0
            &&& written(directives, "type"@) == 0
            &&& written(directives, "flattened-type"@) == 0
            &&& written(directives, "function"@) == 0
            &&& written(directives, "default"@) == 0
        },
{
}

/// A field that is kept is what its directives say: documented, typed, flattened and sourced by
/// them; it is required where it is no option and has no default.
pub proof fn law_kept_fields_are_what_their_directives_say(
    doc: WitDocument,
    owner: WitOwner,
    field: WitField,
    directives: Seq<crate::wit::directive::DirectiveView>,
    api_omit: Option<crate::wit::directive::DirectiveView>,
    default: Option<crate::wit::directive::DirectiveView>,
    name: Seq<char>,
    proto_name: Seq<char>,
    path: Seq<char>,
    record_context: Seq<char>,
    context: Seq<char>,
    language: Language,
)
    ensures
        crate::wit::record::kept_field_outcome(
            doc,
            owner,
            field,
            directives,
            api_omit,
            default,
            name,
            proto_name,
            None,
            path,
            record_context,
            context,
            language,
        ) matches Ok(made) ==> {
            &&& made.name == name
            &&& made.required <==> !crate::wit::resolve::optional_behind(doc, field.ty)
                && made.default_value is None
            &&& default is None ==> made.default_value is None
            &&& written(directives, "type"@) == 0 ==> made.annotation is None
            &&& written(directives, "type"@) == 1 ==> made.annotation == Some(
                crate::wit::strings::directive_strings(only(directives, "type"@)),
            )
            &&& written(directives, "flattened-type"@) == 1 ==> made.flattened_annotation == Some(
                crate::wit::strings::directive_strings(only(directives, "flattened-type"@)),
            )
            &&& written(directives, "flattened-type"@) == 0 ==> made.flattened_annotation is None
            &&& written(directives, "doc"@) == 0 ==> made.doc is None
            &&& written(directives, "doc"@) == 1 ==> (crate::plan::strings_empty(
                crate::wit::strings::directive_strings(only(directives, "doc"@)),
            ) || made.doc == Some(crate::wit::strings::directive_strings(only(directives, "doc"@))))
            &&& written(directives, "source"@) == 0 && api_omit is None ==> made.visibility
                == crate::wit::record::VisibilityView::Public
            &&& written(directives, "source"@) == 0 && api_omit is Some ==> made.visibility
                == crate::wit::record::VisibilityView::ApiOmitted
            &&& written(directives, "source"@) == 1 ==> (crate::wit::strings::directive_own_text(
                only(directives, "source"@),
                language,
            ) matches Some(expr) ==> made.visibility == (crate::wit::record::VisibilityView::Sourced {
                source_expr: expr,
            }) && made.function is None && api_omit is None)
        },
{
}

/// A field of a record is entered under its wire name, which no other has; it is left out where it
/// says so, and cannot be left out of the API alone as well.
pub proof fn law_fields_are_entered_under_their_wire_name(
    fields: Seq<crate::wit::record::RecordEntryView>,
    field: WitField,
    doc: WitDocument,
    owner: WitOwner,
    path: Seq<char>,
    record_context: Seq<char>,
    language: Language,
)
    ensures
        ({
            let context = record_context + " field `"@ + field.name@ + "`"@;
            let directives = crate::wit::directive::directives_outcome(
                crate::text::opt_text(field.docs),
                path,
                context,
            )->Ok_0;
            crate::wit::record::record_field_outcome(
                fields,
                field,
                doc,
                owner,
                path,
                record_context,
                language,
            ) matches Ok(made) ==> {
                let wire = crate::wit::record::proto_field_name_outcome(directives, field, path, context)->Ok_0;
                let name = crate::wit::record::generated_name_outcome(
                    directives,
                    field,
                    path,
                    context,
                    language,
                )->Ok_0;
                &&& !crate::wit::record::has_key(fields, wire)
                &&& !(written(directives, "omit"@) > 0 && written(directives, "api-omit"@) > 0)
                &&& written(directives, "omit"@) <= 1
                &&& written(directives, "omit"@) == 1 ==> made.len() == fields.len() + 1
                    && made.last().key == wire && made.last().field.visibility
                    == crate::wit::record::VisibilityView::Omitted && made.last().field.name == name
                    && made.drop_last() == fields
                &&& written(directives, "omit"@) == 0 && written(directives, "function"@) == 1
                    ==> made.len() == fields.len() + 1 && made.last().key == wire
                    && made.last().field.name == name && made.last().field.visibility
                    != crate::wit::record::VisibilityView::Omitted && made.drop_last() == fields
            }
        }),
{
    let context = record_context + " field `"@ + field.name@ + "`"@;
    let directives = crate::wit::directive::directives_outcome(crate::text::opt_text(field.docs), path, context)->Ok_0;
    match crate::wit::record::record_field_outcome(
        fields,
        field,
        doc,
        owner,
        path,
        record_context,
        language,
    ) {
        Ok(made) => {
            if written(directives, "omit"@) == 1 || written(directives, "function"@) == 1 {
                assert(made.drop_last() =~= fields);
            }
        },
        Err(_) => {},
    }
}

/// An argument is a public field of its own, of its own type, which no other field may be.
pub proof fn law_arguments_are_fields_of_their_own(
    fields: Seq<crate::wit::record::RecordEntryView>,
    arg: crate::wit::function::FlattenedArgView,
    field_name: Seq<char>,
    count: usize,
    path: Seq<char>,
    context: Seq<char>,
    language: Language,
)
    ensures
        crate::wit::record::has_key(fields, arg.field_name) ==> crate::wit::record::arg_field_outcome(
            fields,
            arg,
            field_name,
            count,
            path,
            context,
            language,
        ) is Err,
        crate::wit::record::arg_field_outcome(fields, arg, field_name, count, path, context, language)
            matches Ok(made) ==> {
            &&& made.len() == fields.len() + 1
            &&& made.last().key == arg.field_name
            &&& made.last().field.name == arg.args_name
            &&& made.last().field.required == arg.required
            &&& made.last().field.visibility == crate::wit::record::VisibilityView::Public
            &&& made.last().field.field_type == crate::wit::types::type_for_language(
                arg.field_type,
                language,
            )
        },
{
}

/// A list of arguments is taken where it is asked for, by the last parameter; the only parameter
/// needs no name.
pub proof fn law_lists_of_arguments_are_asked_for(
    function: WitFunction,
    path: Seq<char>,
    context: Seq<char>,
    name: Seq<char>,
)
    ensures
        ({
            let place = context + " signature `"@ + name + "`"@;
            let directives = crate::wit::directive::directives_outcome(
                crate::text::opt_text(function.docs),
                path,
                place,
            )->Ok_0;
            let found = only(directives, "function-args"@);
            let outcome = crate::wit::resolve::varargs_outcome(function, path, context, name);
            &&& outcome matches Ok(Some(varargs)) ==> {
                &&& written(directives, "function-args"@) == 1
                &&& crate::wit::strings::directive_flag_outcome(
                    found,
                    "varargs"@,
                    path,
                    place,
                    "@nexus.function-args"@,
                ) == Ok::<bool, ErrorView>(true)
                &&& function.params@.len() > 0
                &&& function.params@.last().name@ == varargs.param
                &&& crate::wit::directive::value_of(found, "param"@) matches Some(param) ==> param
                    == varargs.param
                &&& crate::wit::directive::value_of(found, "param"@) is None ==> function.params@.len() == 1
                &&& crate::wit::strings::directive_flag_outcome(
                    found,
                    "typescript-drop-prefix"@,
                    path,
                    place,
                    "@nexus.function-args"@,
                ) == Ok::<bool, ErrorView>(varargs.typescript_drop_prefix)
            }
            &&& outcome is Ok && written(directives, "function-args"@) == 0 ==> outcome == Ok::<
                Option<crate::wit::resolve::FunctionVarargsView>,
                ErrorView,
            >(None)
        }),
{
}

/// A signature is a function of the interface that stands on its own, takes something and gives
/// something back.
pub proof fn law_signatures_take_and_give(
    doc: WitDocument,
    owner: WitOwner,
    name: Seq<char>,
    path: Seq<char>,
    context: Seq<char>,
    budget: usize,
)
    requires
        doc.wf(),
        doc.owner_ok(owner),
    ensures
        crate::wit::resolve::signature_outcome(doc, owner, name, path, context, budget) matches Ok(made) ==> (
        owner matches WitOwner::Interface(interface) && ({
            let functions = doc.interfaces@[interface as int].functions@;
            let place = crate::wit::resolve::signature_place(doc, owner, name, path, context)->Ok_0;
            let function = functions[place.1 as int];
            &&& function.kind is Freestanding
            &&& function.params@.len() > 0
            &&& function.result is Some
        })),
        !(owner is Interface) ==> crate::wit::resolve::signature_outcome(
            doc,
            owner,
            name,
            path,
            context,
            budget,
        ) is Err,
{
}

/// A type is replaced where it has an annotation for the language; conversions without one are
/// refused.
pub proof fn law_replacements_have_an_annotation(
    directives: Seq<crate::wit::directive::DirectiveView>,
    path: Seq<char>,
    context: Seq<char>,
    named: Seq<char>,
    language: Language,
)
    ensures
        ({
            let found = only(directives, "type"@);
            let outcome = crate::wit::declare::replacement_outcome(
                directives,
                path,
                context,
                named,
                language,
            );
            let annotation = crate::wit::strings::directive_strings(found);
            let from = crate::wit::strings::directive_prefixed_strings(found, "from"@);
            let to = crate::wit::strings::directive_prefixed_strings(found, "to"@);
            &&& written(directives, "type"@) == 0 ==> outcome == Ok::<
                Option<crate::plan::TypeReplacementView>,
                ErrorView,
            >(None)
            &&& written(directives, "type"@) == 1 && !crate::plan::strings_empty(annotation)
                && crate::plan::view_text_for(annotation, language) is Some ==> (outcome matches Ok(Some(
                made,
            )) && made.annotation == annotation && made.from_proto == from && made.to_proto == to)
            &&& written(directives, "type"@) == 1 && crate::plan::strings_empty(annotation) && !(
            crate::plan::strings_empty(from) && crate::plan::strings_empty(to)) ==> outcome is Err
        }),
{
}

/// A record is named by its label, and is what its directives say: bound to its message, flattened,
/// experimental and documented by them.
pub proof fn law_records_are_what_their_directives_say(
    doc: WitDocument,
    id: usize,
    path: Seq<char>,
    interface_name: Seq<char>,
    language: Language,
)
    ensures
        ({
            let type_def = doc.types@[id as int];
            let label = crate::wit::resolve::type_label_text(type_def);
            let context = "type `"@ + interface_name + "."@ + label + "`"@;
            let directives = crate::wit::directive::directives_outcome(
                crate::text::opt_text(type_def.docs),
                path,
                context,
            )->Ok_0;
            crate::wit::declare::record_outcome(doc, id, path, interface_name, language) matches Ok(Some(
                made,
            )) ==> {
                &&& type_def.kind is Record
                &&& made.name == crate::naming::upper_camel(label)
                &&& made.full_name == crate::wit::resolve::full_type_name(doc, id)
                &&& made.flatten_in_api <==> written(directives, "flatten-in-api"@) == 1
                &&& written(directives, "omit"@) == 0
                &&& written(directives, "proto"@) == 0 ==> made.source_type is None
                &&& written(directives, "proto"@) == 1 ==> made.source_type
                    == crate::wit::directive::value_of(only(directives, "proto"@), "value"@)
                    && made.source_type is Some
            }
        }),
        !(doc.types@[id as int].kind is Record) ==> crate::wit::declare::record_outcome(
            doc,
            id,
            path,
            interface_name,
            language,
        ) == Ok::<Option<crate::wit::declare::RecordView>, ErrorView>(None),
{
}

/// A type is bound to the message that its directive names; only a record can be flattened.
pub proof fn law_types_are_bound_to_the_message_that_they_name(
    doc: WitDocument,
    id: usize,
    path: Seq<char>,
    interface_name: Seq<char>,
    language: Language,
)
    ensures
        ({
            let type_def = doc.types@[id as int];
            let label = crate::wit::resolve::type_label_text(type_def);
            let context = "type `"@ + interface_name + "."@ + label + "`"@;
            let directives = crate::wit::directive::directives_outcome(
                crate::text::opt_text(type_def.docs),
                path,
                context,
            )->Ok_0;
            let outcome = crate::wit::declare::external_binding_outcome(
                doc,
                id,
                path,
                interface_name,
                language,
            );
            &&& outcome matches Ok(Some(made)) ==> {
                &&& written(directives, "proto"@) == 1
                &&& crate::wit::directive::value_of(only(directives, "proto"@), "value"@) == Some(
                    made.proto_name,
                )
                &&& made.annotation == crate::wit::strings::directive_prefixed_strings(
                    only(directives, "proto"@),
                    "type"@,
                )
                &&& written(directives, "flatten-in-api"@) == 1 ==> type_def.kind is Record
                &&& written(directives, "omit"@) == 0
            }
            &&& outcome is Ok && written(directives, "proto"@) == 0 ==> outcome == Ok::<
                Option<crate::wit::declare::ExternalBindingView>,
                ErrorView,
            >(None)
        }),
{
}

/// A type parameter is an alias that is bound to nothing else.
pub proof fn law_type_parameters_are_bare_aliases(doc: WitDocument, id: usize, path: Seq<char>)
    ensures
        ({
            let type_def = doc.types@[id as int];
            let context = "type `"@ + crate::wit::resolve::full_type_name(doc, id) + "`"@;
            let directives = crate::wit::directive::directives_outcome(
                crate::text::opt_text(type_def.docs),
                path,
                context,
            )->Ok_0;
            crate::wit::declare::type_parameter_outcome(doc, id, path) is Ok ==> (written(
                directives,
                "type-parameter"@,
            ) == 0 || (type_def.kind is Alias && written(directives, "proto"@) == 0 && written(
                directives,
                "type"@,
            ) == 0 && written(directives, "function"@) == 0))
        }),
{
}

/// An output is transformed where both its type and its expression are given; one without the other
/// is refused, and so is one of an operation without a result.
pub proof fn law_output_transforms_are_complete(
    directives: Seq<crate::wit::directive::DirectiveView>,
    path: Seq<char>,
    context: Seq<char>,
    service: Seq<char>,
    operation: Seq<char>,
    doc: WitDocument,
)
    ensures
        ({
            let found = only(directives, "output-transform"@);
            let annotation = crate::wit::strings::directive_prefixed_strings(found, "type"@);
            let transform = crate::wit::strings::directive_strings(found);
            let outcome = crate::wit::service::output_transform_outcome(
                directives,
                path,
                context,
                service,
                operation,
            );
            &&& written(directives, "output-transform"@) == 0 ==> outcome == Ok::<
                Option<crate::wit::service::OutputTransformView>,
                ErrorView,
            >(None)
            &&& written(directives, "output-transform"@) == 1 && !crate::plan::strings_empty(annotation)
                && !crate::plan::strings_empty(transform) ==> (outcome matches Ok(Some(made))
                && made.annotation == annotation && made.transform == transform)
            &&& written(directives, "output-transform"@) == 1 && crate::plan::strings_empty(annotation)
                != crate::plan::strings_empty(transform) ==> outcome is Err
        }),
        crate::wit::service::operation_output_outcome(doc, None, true, path, context) is Err,
        crate::wit::service::operation_output_outcome(doc, None, false, path, context) == Ok::<
            Option<crate::wit::types::TypeView>,
            ErrorView,
        >(None),
{
}

/// The fields of a resource are the parameters of its constructor; one with static methods is
/// refused.
pub proof fn law_resources_are_made_by_their_constructor(
    doc: WitDocument,
    interface: WitInterface,
    resource: usize,
    path: Seq<char>,
    context: Seq<char>,
    language: Language,
)
    ensures
        crate::wit::service::functions_of_kind(
            interface.functions@,
            WitFunctionKind::Constructor(resource),
        ).len() == 0 ==> (crate::wit::service::constructor_fields_outcome(
            doc,
            interface,
            resource,
            path,
            context,
            language,
        ) matches Ok(made) && made.len() == 0),
        crate::wit::service::functions_of_kind(
            interface.functions@,
            WitFunctionKind::Constructor(resource),
        ).len() > 0 ==> (crate::wit::service::constructor_fields_outcome(
            doc,
            interface,
            resource,
            path,
            context,
            language,
        ) matches Ok(made) ==> ({
            let place = crate::wit::service::functions_of_kind(
                interface.functions@,
                WitFunctionKind::Constructor(resource),
            )[0];
            let constructor = interface.functions@[place as int];
            crate::wit::service::resource_fields_outcome(
                crate::wit::service::all_params(constructor.params@),
                doc,
                constructor,
                path,
                context,
                language,
            ) == Ok::<Seq<crate::wit::service::ResourceFieldView>, ErrorView>(made)
        })),
        crate::wit::service::static_methods_outcome(interface, resource, path, context) is Ok
            <==> crate::wit::service::functions_of_kind(
            interface.functions@,
            WitFunctionKind::Static(resource),
        ).len() == 0,
{
}

/// A method calls the operation that is written for it, in upper camel case.
pub proof fn law_methods_name_their_operation(
    directives: Seq<crate::wit::directive::DirectiveView>,
    path: Seq<char>,
    context: Seq<char>,
    name: Seq<char>,
)
    ensures
        written(directives, "operation"@) == 0 ==> crate::wit::service::method_operation_name(
            directives,
            path,
            context,
        ) == Ok::<Option<Seq<char>>, ErrorView>(None),
        written(directives, "operation"@) == 1 && crate::wit::directive::value_of(
            only(directives, "operation"@),
            "name"@,
        ) == Some(name) && name.len() > 0 ==> crate::wit::service::method_operation_name(
            directives,
            path,
            context,
        ) == Ok::<Option<Seq<char>>, ErrorView>(Some(crate::naming::upper_camel(name))),
{
}

/// The settings of a service are those that its directives give.
pub proof fn law_services_are_set_by_their_directives(
    export: crate::wit::document::WitExport,
    doc: WitDocument,
    path: Seq<char>,
    language: Language,
)
    ensures
        ({
            let interface = doc.interfaces@[export.interface as int];
            let context = "interface `"@ + crate::wit::service::export_name(export, interface) + "`"@;
            let directives = crate::wit::directive::directives_outcome(
                crate::text::opt_text(interface.docs),
                path,
                context,
            )->Ok_0;
            crate::wit::service::service_outcome(export, doc, path, language) matches Ok(made) ==> {
                &&& crate::wit::strings::directive_text_for_language(
                    directives,
                    "endpoint"@,
                    path,
                    context,
                    language,
                ) == Ok::<Option<Seq<char>>, ErrorView>(made.endpoint)
                &&& crate::wit::declare::strings_or_none_outcome(directives, "namespace"@, path, context)
                    == Ok::<crate::plan::LanguageStringView, ErrorView>(made.namespace)
                &&& crate::wit::declare::strings_or_none_outcome(
                    directives,
                    "operations-class"@,
                    path,
                    context,
                ) == Ok::<crate::plan::LanguageStringView, ErrorView>(made.operations_class)
                &&& crate::wit::strings::experimental_outcome(directives, path, context) == Ok::<
                    bool,
                    ErrorView,
                >(made.experimental)
                &&& crate::wit::strings::delay_load_outcome(directives, path, context) == Ok::<
                    bool,
                    ErrorView,
                >(made.delay_load_temporalio_workflow)
            }
        }),
{
}

/// A helper is named by a path of dotted names, for each language and by default.
pub proof fn law_helpers_are_named_by_a_path(
    directives: Seq<crate::wit::directive::DirectiveView>,
    path: Seq<char>,
    context: Seq<char>,
    helper: Seq<char>,
    language: Seq<char>,
)
    ensures
        crate::wit::service::helper_outcome(helper, language, path, context) is Ok
            <==> crate::wit::strings::is_helper_path(helper),
        crate::wit::service::serialization_context_outcome(directives, path, context) matches Ok(made) ==> (
        made.default matches Some(default) ==> crate::wit::strings::is_helper_path(default)),
        crate::wit::service::serialization_context_outcome(directives, path, context) matches Ok(made) ==> (
        crate::wit::declare::strings_or_none_outcome(directives, "serialization-context"@, path, context)
            == Ok::<crate::plan::LanguageStringView, ErrorView>(made)),
{
}

/// An alias with a type of its own is that alias; one without is what it stands for, unless it is a
/// function.
pub proof fn law_aliases_stand_for_their_target(
    doc: WitDocument,
    id: usize,
    target: WitType,
    directives: Seq<crate::wit::directive::DirectiveView>,
    path: Seq<char>,
    context: Seq<char>,
    budget: usize,
)
    requires
        doc.wf(),
        id < doc.types@.len(),
        doc.types@[id as int].kind == WitTypeKind::Alias(target),
    ensures
        crate::wit::resolve::type_kind_outcome(doc, id, directives, path, context, budget) matches Ok(made)
            ==> (crate::wit::resolve::type_outcome(doc, target, path, context, budget) matches Ok(behind) && {
            &&& written(directives, "type"@) == 0 && written(directives, "function"@) == 0 ==> made
                == behind
            &&& written(directives, "type"@) == 1 ==> made == (crate::wit::types::TypeView::Alias {
                name: crate::wit::resolve::full_type_name(doc, id),
                target: Box::new(behind),
                annotation: crate::wit::strings::directive_strings(only(directives, "type"@)),
            })
        }),
{
    assert(doc.type_ok(id as int));
}

/// A resource is named by its type.
pub proof fn law_handled_resources_are_named_by_their_type(doc: WitDocument, resource: usize)
    ensures
        ({
            let made = crate::wit::resolve::handled_resource_type(doc, resource);
            &&& doc.types@[resource as int].name matches Some(name) ==> made.name == name@
            &&& doc.types@[resource as int].name is None ==> made.name == "unnamed-resource"@
            &&& made.wire_type is None
            &&& made.alias is None
        }),
{
}

} // verus!
