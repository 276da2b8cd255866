//! What a WIT package offers: its services, their operations and resources, and the functions that
//! fields stand for.

use vstd::prelude::*;

use crate::error::ErrorView;
use crate::language::Language;
use crate::wit::document::{
    WitDocument, WitExport, WitFunction, WitFunctionKind, WitInterface, WitName, WitParam, WitType,
};

verus! {

/// An operation is made of one function: it is named after it, sends its only parameter and gives
/// back its result; on the wire it has the name that is written for it, else its own.
pub proof fn law_operations_are_made_of_their_function(
    doc: WitDocument,
    function: WitFunction,
    path: Seq<char>,
    service_context: Seq<char>,
    service_name: Seq<char>,
)
    ensures
        crate::wit::service::operation_outcome(doc, function, path, service_context, service_name)
            matches Ok(made) ==> {
            let name = crate::naming::upper_camel(function.name@);
            let context = service_context + " operation `"@ + name + "`"@;
            &&& made.name == name
            &&& function.params@.len() == 1
            &&& crate::wit::service::operation_input_outcome(doc, function.params@[0], path, context) == Ok::<
                crate::wit::types::TypeView,
                ErrorView,
            >(made.input->Some_0)
            &&& made.input is Some
            &&& made.output is Some <==> function.result is Some
            &&& function.docs is None ==> made.wire_name == name && !made.experimental
                && made.output_transform is None
            &&& !made.deprecated
        },
        function.params@.len() != 1 ==> crate::wit::service::operation_outcome(
            doc,
            function,
            path,
            service_context,
            service_name,
        ) is Err,
{
}

/// The wire name of an operation or of a service is the one that its directive has, under `name` or
/// as its value, and not empty; without a directive it is the default.
pub proof fn law_wire_names_are_written_or_default(
    directives: Seq<crate::wit::directive::DirectiveView>,
    path: Seq<char>,
    context: Seq<char>,
    default_name: Seq<char>,
)
    ensures
        crate::wit::directive::named_directives(directives, "operation"@).len() == 0
            ==> crate::wit::service::wire_operation_name(directives, path, context, default_name) == Ok::<
            Seq<char>,
            ErrorView,
        >(default_name),
        crate::wit::directive::named_directives(directives, "service-name"@).len() == 0
            ==> crate::wit::service::wire_service_name(directives, path, context, default_name) == Ok::<
            Seq<char>,
            ErrorView,
        >(default_name),
        crate::wit::directive::named_directives(directives, "operation"@).len() == 1 ==> {
            let found = crate::wit::directive::named_directives(directives, "operation"@)[0];
            let written = match crate::wit::directive::value_of(found, "name"@) {
                Some(name) => Some(name),
                None => crate::wit::directive::value_of(found, "value"@),
            };
            match written {
                Some(name) => if name.len() > 0 {
                    crate::wit::service::wire_operation_name(directives, path, context, default_name) == Ok::<
                        Seq<char>,
                        ErrorView,
                    >(name)
                } else {
                    crate::wit::service::wire_operation_name(directives, path, context, default_name) is Err
                },
                None => crate::wit::service::wire_operation_name(directives, path, context, default_name)
                    is Err,
            }
        },
        crate::wit::directive::named_directives(directives, "service-name"@).len() == 1 ==> {
            let found = crate::wit::directive::named_directives(directives, "service-name"@)[0];
            let written = match crate::wit::directive::value_of(found, "name"@) {
                Some(name) => Some(name),
                None => crate::wit::directive::value_of(found, "value"@),
            };
            match written {
                Some(name) => if name.len() > 0 {
                    crate::wit::service::wire_service_name(directives, path, context, default_name) == Ok::<
                        Seq<char>,
                        ErrorView,
                    >(name)
                } else {
                    crate::wit::service::wire_service_name(directives, path, context, default_name) is Err
                },
                None => crate::wit::service::wire_service_name(directives, path, context, default_name)
                    is Err,
            }
        },
{
}

/// The functions of a kind are found in their order, all of them and no others.
pub proof fn law_functions_are_found_by_their_kind(
    functions: Seq<WitFunction>,
    kind: WitFunctionKind,
    i: int,
)
    requires
        0 <= i < functions.len(),
        functions.len() <= usize::MAX,
    ensures
        crate::wit::service::functions_of_kind(functions, kind).contains(i as usize) <==> functions[i].kind
            == kind,
    decreases functions.len(),
{
    let found = crate::wit::service::functions_of_kind(functions, kind);
    let before = crate::wit::service::functions_of_kind(functions.drop_last(), kind);
    lemma_places_below(functions.drop_last(), kind);
    let last = (functions.len() - 1) as usize;
    if i < functions.len() - 1 {
        law_functions_are_found_by_their_kind(functions.drop_last(), kind, i);
        assert(functions.drop_last()[i] == functions[i]);
        if functions.last().kind == kind {
            assert(found =~= before.push(last));
            if found.contains(i as usize) {
                let k = choose|k: int| 0 <= k < found.len() && found[k] == i as usize;
                assert(k < before.len());
                assert(before[k] == i as usize);
            }
            if before.contains(i as usize) {
                let k = choose|k: int| 0 <= k < before.len() && before[k] == i as usize;
                assert(found[k] == i as usize);
            }
        }
    } else {
        if functions.last().kind == kind {
            assert(found =~= before.push(last));
            assert(found[found.len() - 1] == last);
        } else if before.contains(last) {
            let k = choose|k: int| 0 <= k < before.len() && before[k] == last;
            assert(false);
        }
    }
}

/// The places of the functions of a kind are places.
proof fn lemma_places_below(functions: Seq<WitFunction>, kind: WitFunctionKind)
    requires
        functions.len() <= usize::MAX,
    ensures
        forall|k: int|
            0 <= k < crate::wit::service::functions_of_kind(functions, kind).len()
                ==> (#[trigger] crate::wit::service::functions_of_kind(functions, kind)[k])
                < functions.len(),
    decreases functions.len(),
{
    if functions.len() > 0 {
        lemma_places_below(functions.drop_last(), kind);
        let before = crate::wit::service::functions_of_kind(functions.drop_last(), kind);
        let found = crate::wit::service::functions_of_kind(functions, kind);
        assert forall|k: int| 0 <= k < found.len() implies (#[trigger] found[k])
            < functions.len() by {
            if k < before.len() {
                assert(found[k] == before[k]);
            }
        }
    }
}

/// The parameters of a method are those behind `self`; a constructor has all of its parameters.
pub proof fn law_methods_leave_out_self(params: Seq<WitParam>)
    requires
        params.len() > 0,
        params.len() <= usize::MAX,
        params[0].name@ == "self"@,
        forall|i: int| 1 <= i < params.len() ==> (#[trigger] params[i]).name@ != "self"@,
    ensures
        crate::wit::service::own_params(params).len() == params.len() - 1,
        forall|i: int|
            0 <= i < params.len() - 1 ==> (#[trigger] crate::wit::service::own_params(params)[i]) == i + 1,
        crate::wit::service::all_params(params).len() == params.len(),
        forall|i: int|
            0 <= i < params.len() ==> (#[trigger] crate::wit::service::all_params(params)[i]) == i,
{
    reveal_with_fuel(crate::wit::service::self_count, 3);
    if params.len() > 1 {
        assert(params.drop_first()[0] == params[1]);
    }
    assert(crate::wit::service::self_count(params) == 1);
}

/// A parameter is a field of its resource under its own name, missing where it is an option, of the
/// type that it declares for the language.
pub proof fn law_parameters_are_fields_of_their_resource(
    doc: WitDocument,
    param: WitParam,
    path: Seq<char>,
    context: Seq<char>,
    language: Language,
)
    ensures
        crate::wit::service::resource_field_outcome(doc, param, path, context, language) matches Ok(made)
            ==> {
            &&& made.name == param.name@
            &&& made.optional == crate::wit::resolve::optional_behind(doc, param.ty)
            &&& made.field_type == crate::wit::types::type_for_language(
                crate::wit::resolve::type_outcome(doc, param.ty, path, context, doc.types.len())->Ok_0,
                language,
            )
        },
{
}

/// A method is named by the last part of its function's name, and calls the operation that is
/// written for it, in upper camel case.
pub proof fn law_methods_call_the_operation_that_is_written(
    doc: WitDocument,
    function: WitFunction,
    path: Seq<char>,
    resource_context: Seq<char>,
    language: Language,
)
    ensures
        crate::wit::service::resource_method_outcome(doc, function, path, resource_context, language)
            matches Ok(made) ==> {
            &&& made.name == crate::text::last_segment(function.name@, '.')
            &&& made.result is Some <==> function.result is Some
            &&& function.docs is None ==> made.operation_name is None
        },
{
}

/// A resource has the name of its type, and no static methods.
pub proof fn law_resources_are_named_by_their_type(
    doc: WitDocument,
    interface: WitInterface,
    id: usize,
    path: Seq<char>,
    service_context: Seq<char>,
    language: Language,
)
    ensures
        crate::wit::service::resource_outcome(doc, interface, id, path, service_context, language)
            matches Ok(made) ==> {
            &&& doc.types@[id as int].name matches Some(name) && made.name == name@
            &&& crate::wit::service::functions_of_kind(interface.functions@, WitFunctionKind::Static(id)).len()
                == 0
        },
        doc.types@[id as int].name is None ==> crate::wit::service::resource_outcome(
            doc,
            interface,
            id,
            path,
            service_context,
            language,
        ) is Err,
{
}

/// A service is made of one exported interface: it is named after the export, else after the
/// interface, has an operation for each function that stands on its own, and is neither
/// experimental nor delayed unless it says so.
pub proof fn law_services_are_made_of_their_interface(
    export: WitExport,
    doc: WitDocument,
    path: Seq<char>,
    language: Language,
)
    ensures
        crate::wit::service::service_outcome(export, doc, path, language) matches Ok(made) ==> {
            let interface = doc.interfaces@[export.interface as int];
            &&& export.name matches Some(name) ==> made.name == crate::naming::upper_camel(name@)
            &&& export.name is None ==> (interface.name matches Some(name) ==> made.name
                == crate::naming::upper_camel(name@))
            &&& interface.docs is None ==> made.wire_name == made.name && !made.experimental
                && !made.delay_load_temporalio_workflow && made.endpoint is None
            &&& made.operations.len() == crate::wit::service::functions_of_kind(
                interface.functions@,
                WitFunctionKind::Freestanding,
            ).len()
            &&& !made.deprecated
        },
{
    match crate::wit::service::service_outcome(export, doc, path, language) {
        Ok(made) => {
            let interface = doc.interfaces@[export.interface as int];
            let name = crate::wit::service::export_name(export, interface);
            lemma_operation_count(
                crate::wit::service::functions_of_kind(interface.functions@, WitFunctionKind::Freestanding),
                doc,
                interface,
                path,
                "interface `"@ + name + "`"@,
                crate::naming::upper_camel(name),
            );
        },
        Err(_) => {},
    }
}

/// There is an operation for each function.
proof fn lemma_operation_count(
    ids: Seq<usize>,
    doc: WitDocument,
    interface: WitInterface,
    path: Seq<char>,
    context: Seq<char>,
    service_name: Seq<char>,
)
    ensures
        crate::wit::service::operations_outcome(ids, doc, interface, path, context, service_name)
            matches Ok(made) ==> made.len() == ids.len(),
    decreases ids.len(),
{
    if ids.len() > 0 {
        lemma_operation_count(ids.drop_last(), doc, interface, path, context, service_name);
    }
}

/// An input is the resource, the message or the record behind its type, and nothing else.
pub proof fn law_operations_exchange_resources_messages_or_records(
    doc: WitDocument,
    ty: WitType,
    path: Seq<char>,
    context: Seq<char>,
)
    ensures
        crate::wit::service::operation_type_outcome(doc, ty, path, context) matches Ok(Some(found)) ==> {
            &&& crate::wit::resolve::owned_resource(doc, ty) matches Some(name) ==> (
            found matches crate::wit::types::TypeView::Resource(resource) && resource.name == name)
            &&& crate::wit::resolve::owned_resource(doc, ty) is None ==> (crate::wit::resolve::proto_name_behind(
                doc,
                ty,
                path,
                context,
            ) matches Ok(Some(name)) ==> found == crate::wit::types::TypeView::Proto(name))
            &&& crate::wit::resolve::owned_resource(doc, ty) is None ==> (crate::wit::resolve::proto_name_behind(
                doc,
                ty,
                path,
                context,
            ) == Ok::<Option<Seq<char>>, ErrorView>(None) ==> (crate::wit::resolve::record_behind(doc, ty)
                matches Some(name) && found == crate::wit::types::TypeView::Record(name)))
        },
{
}

/// A package has exactly one world, and the version that it declares, else `0.0.0`.
pub proof fn law_packages_have_one_world(doc: WitDocument, package: usize, path: Seq<char>)
    ensures
        doc.packages@[package as int].worlds@.len() == 1 ==> crate::wit::api::selected_world(
            doc,
            package,
            path,
        ) == Ok::<usize, ErrorView>(doc.packages@[package as int].worlds@[0].id),
        doc.packages@[package as int].worlds@.len() != 1 ==> crate::wit::api::selected_world(
            doc,
            package,
            path,
        ) is Err,
        doc.packages@[package as int].version matches Some(version) ==> crate::wit::api::package_version_text(
            doc.packages@[package as int],
        ) == version@,
        doc.packages@[package as int].version is None ==> crate::wit::api::package_version_text(
            doc.packages@[package as int],
        ) == "0.0.0"@,
{
}

/// A type is the module's own where the interface that declares it is exported without offering
/// anything else; every other type is only used.
pub proof fn law_bare_interfaces_own_their_types(
    types: Seq<crate::wit::declare::TypeDeclEntryView>,
    doc: WitDocument,
    names: Seq<WitName>,
    i: int,
)
    requires
        0 <= i < types.len(),
    ensures
        ({
            let owned = crate::wit::api::types_owned(types, doc, names);
            &&& owned.len() == types.len()
            &&& owned[i].full_name == types[i].full_name
            &&& owned[i].decl == types[i].decl
            &&& (exists|k: int|
                0 <= k < names.len() && crate::wit::resolve::full_type_name(doc, (#[trigger] names[k]).id)
                    == types[i].full_name) ==> owned[i].module_export
                == crate::wit::declare::ModuleExport::Owned
            &&& !(exists|k: int|
                0 <= k < names.len() && crate::wit::resolve::full_type_name(doc, (#[trigger] names[k]).id)
                    == types[i].full_name) ==> owned[i].module_export == types[i].module_export
        }),
{
}

/// The arguments of a function that takes a list are its last parameter, with those before it; the
/// arguments of any other are all of its parameters, of one type together or each of its own.
pub proof fn law_arguments_are_the_parameters(args: Seq<crate::wit::resolve::FunctionArgView>)
    requires
        args.len() > 0,
    ensures
        ({
            let fixed = crate::wit::resolve::signature_args(args, None);
            &&& fixed.function_args == crate::wit::resolve::FunctionArgsView::Fixed(args)
            &&& args.len() == 1 ==> fixed.name == args[0].name
            &&& args.len() != 1 ==> fixed.name == "args"@
            &&& (forall|i: int|
                0 <= i < args.len() ==> (#[trigger] args[i]).field_type == args[0].field_type)
                ==> fixed.field_type == crate::wit::types::TypeView::List(Box::new(args[0].field_type))
            &&& !(forall|i: int|
                0 <= i < args.len() ==> (#[trigger] args[i]).field_type == args[0].field_type)
                ==> (fixed.field_type matches crate::wit::types::TypeView::Tuple(parts) && parts.len()
                == args.len() && forall|i: int|
                0 <= i < args.len() ==> #[trigger] parts[i] == args[i].field_type)
        }),
{
}

/// A function that takes a list takes it as its last parameter: that one names the arguments and has
/// their type, and the others stand before it.
pub proof fn law_lists_of_arguments_come_last(
    args: Seq<crate::wit::resolve::FunctionArgView>,
    varargs: crate::wit::resolve::FunctionVarargsView,
)
    requires
        args.len() > 0,
        args.last().name == varargs.param,
        forall|i: int| 0 <= i < args.len() - 1 ==> (#[trigger] args[i]).name != varargs.param,
    ensures
        ({
            let made = crate::wit::resolve::signature_args(args, Some(varargs));
            &&& made.name == varargs.param
            &&& made.field_type == args.last().field_type
            &&& made.function_args == (crate::wit::resolve::FunctionArgsView::Varargs {
                prefix: args.drop_last(),
                typescript_drop_prefix: varargs.typescript_drop_prefix,
            })
        }),
{
    lemma_last_named(args, varargs.param);
    assert(args.take(args.len() - 1) =~= args.drop_last());
}

/// A name that only the last argument has is the place of the last.
proof fn lemma_last_named(args: Seq<crate::wit::resolve::FunctionArgView>, name: Seq<char>)
    requires
        args.len() > 0,
        args.last().name == name,
        forall|i: int| 0 <= i < args.len() - 1 ==> (#[trigger] args[i]).name != name,
    ensures
        crate::wit::resolve::arg_index(args, name) == args.len() - 1,
    decreases args.len(),
{
    if args.len() == 1 {
    } else {
        let rest = args.drop_first();
        assert(args[0].name != name);
        assert(rest.last() == args.last());
        assert forall|i: int| 0 <= i < rest.len() - 1 implies (#[trigger] rest[i]).name != name by {
            assert(rest[i] == args[i + 1]);
        }
        lemma_last_named(rest, name);
    }
}

/// What a function gives back can also be called: by its name, or as a function of anything that
/// gives it back.
pub proof fn law_callables_give_back_their_result(
    result_type: crate::plan::LanguageStringView,
)
    ensures
        crate::wit::resolve::callable_strings(result_type) matches Some(made) ==> {
            &&& crate::plan::view_text_for(result_type, Language::Python) matches Some(text)
                ==> crate::plan::view_text_for(made, Language::Python) == Some(
                "str | collections.abc.Callable[..., "@ + text + "]"@,
            )
            &&& crate::plan::view_text_for(result_type, Language::TypeScript) matches Some(text)
                ==> crate::plan::view_text_for(made, Language::TypeScript) == Some(
                "string | ((...args: any[]) => "@ + text + ")"@,
            )
        },
        crate::wit::resolve::callable_strings(result_type) is None <==> (crate::plan::view_text_for(
            result_type,
            Language::Python,
        ) is None && crate::plan::view_text_for(result_type, Language::TypeScript) is None),
{
    reveal_with_fuel(crate::plan::own_text, 3);
    match crate::wit::resolve::callable_strings(result_type) {
        Some(made) => {
            if made.by_language.len() == 2 {
                assert(made.by_language.drop_first()[0] == made.by_language[1]);
            }
        },
        None => {},
    }
}

/// The arguments of a function are flattened into fields: each under its own name in snake case and
/// required, or all of them under one field that may be missing where they are a list.
pub proof fn law_arguments_are_flattened_into_fields(
    function: crate::wit::function::FunctionFieldView,
    args_name: Seq<char>,
    args_type: crate::wit::types::TypeView,
)
    ensures
        ({
            let fields = crate::wit::function::flattened_args(function, args_name, args_type);
            &&& function.args is Varargs ==> fields.len() == 1 && fields[0].args_name == args_name
                && fields[0].field_name == function.args_field && fields[0].field_type == args_type
                && !fields[0].required
            &&& function.args matches crate::wit::resolve::FunctionArgsView::Fixed(args) ==> fields.len()
                == args.len() && forall|i: int|
                0 <= i < args.len() ==> (#[trigger] fields[i]).args_name == args[i].name
                    && fields[i].field_name == crate::naming::snake(args[i].name) && fields[i].field_type
                    == args[i].field_type && fields[i].required
        }),
{
}

} // verus!
