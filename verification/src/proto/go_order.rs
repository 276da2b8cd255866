//! How models, operations and services are taken up one after another, with what they import.

use vstd::prelude::*;

use crate::error::ErrorView;
use crate::language::Language;
use crate::plan::PlannedProtoTypeInfo;
use crate::proto::go::{
    GoModel, PlannedEnumType, PlannedMessageSource, PlannedMessageType, PlannedOperation,
    PlannedOperationOutput, PlannedOperationResourceReturn, PlannedResource, PlannedService,
    PlannedValueType,
};
use crate::proto::go_imports::ImportEntries;

verus! {

/// A message is kept as it is on the wire where nothing replaces it, nothing annotates it, and it
/// comes from a descriptor with a Go package.
pub proof fn law_kept_messages_come_from_a_descriptor(message: PlannedMessageType)
    ensures
        message.replacement is Some ==> !crate::proto::go::proto_backed(message),
        message.authored_annotation is Some ==> !crate::proto::go::proto_backed(message),
        message.source != PlannedMessageSource::Proto ==> !crate::proto::go::proto_backed(message),
        message.info.go_package is None ==> !crate::proto::go::proto_backed(message),
        message.replacement is None && message.authored_annotation is None && message.source
            == PlannedMessageSource::Proto && message.info.go_package is Some ==> crate::proto::go::proto_backed(
            message,
        ),
{
}

/// A message is held behind a pointer and an enumeration is not; neither has a type without a Go
/// package.
pub proof fn law_messages_are_held_behind_pointers(
    imports: ImportEntries,
    message: PlannedMessageType,
    enum_type: PlannedEnumType,
    info: PlannedProtoTypeInfo,
)
    ensures
        info.go_package is None ==> crate::proto::go::proto_type_step(imports, info) == (None::<Seq<char>>, imports),
        info.go_package is Some ==> crate::proto::go::proto_type_step(imports, info).0 is Some,
        crate::proto::go::proto_type_step(imports, message.info).0 matches Some(name) ==> {
            &&& crate::proto::go::message_type_step(imports, message).0 == Some("*"@ + name)
            &&& crate::proto::go::value_type_step(imports, PlannedValueType::Message(message)).0 == Ok::<Seq<char>, Seq<char>>(
                "*"@ + name,
            )
        },
        crate::proto::go::proto_type_step(imports, message.info).0 is None ==> crate::proto::go::value_type_step(
            imports,
            PlannedValueType::Message(message),
        ).0 is Err && crate::proto::go::message_type_step(imports, message).0 is None,
        enum_type.info is None ==> crate::proto::go::value_type_step(
            imports,
            PlannedValueType::Enum(enum_type),
        ).0 is Err,
        enum_type.info == Some(info) ==> (crate::proto::go::proto_type_step(imports, info).0 matches Some(name)
            ==> crate::proto::go::value_type_step(imports, PlannedValueType::Enum(enum_type)).0 == Ok::<Seq<char>, Seq<char>>(
            name,
        )),
{
}

/// A response is transformed where both the type and the function are given for Go.
pub proof fn law_responses_are_transformed_where_both_are_given(operation: PlannedOperation)
    ensures
        operation.output_transform is None ==> !crate::proto::go::transforms_output(operation),
        operation.output_transform matches Some(transform) ==> {
            &&& crate::plan::text_for(transform.annotation, Language::Go) is None
                ==> !crate::proto::go::transforms_output(operation)
            &&& crate::plan::text_for(transform.transform, Language::Go) is None
                ==> !crate::proto::go::transforms_output(operation)
            &&& crate::plan::text_for(transform.annotation, Language::Go) is Some && crate::plan::text_for(
                transform.transform,
                Language::Go,
            ) is Some ==> crate::proto::go::transforms_output(operation)
        },
{
}

/// A response of nothing is bound as nothing, a resource is not bound, and a message has its type:
/// with its conversion, unless a resource or a transform makes something else of it.
pub proof fn law_responses_are_bound_by_what_they_are(
    imports: ImportEntries,
    operation: PlannedOperation,
)
    ensures
        ({
            let step = crate::proto::go::output_step(imports, operation);
            &&& operation.output is Nothing ==> step.0 == Ok::<
                Option<(Option<Seq<char>>, Option<Seq<char>>, bool)>,
                ErrorView,
            >(Some((None, None, false))) && step.1 == imports
            &&& operation.output is Resource ==> step.0 == Ok::<
                Option<(Option<Seq<char>>, Option<Seq<char>>, bool)>,
                ErrorView,
            >(None)
            &&& operation.output matches PlannedOperationOutput::Message(message) ==> {
                let name = crate::proto::go::message_type_step(imports, message).0;
                &&& operation.resource_return is Some && name is Some ==> step.0 == Ok::<
                    Option<(Option<Seq<char>>, Option<Seq<char>>, bool)>,
                    ErrorView,
                >(Some((name, None, false)))
                &&& operation.resource_return is Some && name is None ==> step.0 == Ok::<
                    Option<(Option<Seq<char>>, Option<Seq<char>>, bool)>,
                    ErrorView,
                >(None)
                &&& operation.resource_return is None && crate::proto::go::transforms_output(operation) ==> step.0
                    == Ok::<Option<(Option<Seq<char>>, Option<Seq<char>>, bool)>, ErrorView>(
                    Some((name, None, false)),
                )
                &&& operation.resource_return is None && !crate::proto::go::transforms_output(operation)
                    && name is Some ==> (crate::proto::go::message_conversion_of(message) matches Ok(conversion)
                    ==> step.0 == Ok::<Option<(Option<Seq<char>>, Option<Seq<char>>, bool)>, ErrorView>(
                    Some(
                        (
                            name,
                            Some(conversion.from_before + "&result"@ + conversion.from_after),
                            conversion.from_proto_returns_pointer,
                        ),
                    ),
                ))
                &&& operation.resource_return is None && !crate::proto::go::transforms_output(operation)
                    && name is Some ==> (crate::proto::go::message_conversion_of(message) matches Err(reason)
                    ==> step.0 == Err::<Option<(Option<Seq<char>>, Option<Seq<char>>, bool)>, ErrorView>(
                    ErrorView::UnsupportedGoProtoConversion {
                        context: "operation `"@ + operation.name@ + "` "@ + "output"@,
                        reason,
                    },
                ))
            }
        }),
{
}

/// A request with a message and a conversion is bound whatever is given back, unless that fails.
pub proof fn law_requests_with_a_conversion_are_bound(
    imports: ImportEntries,
    service: Seq<char>,
    resources: Seq<PlannedResource>,
    operation: PlannedOperation,
    input: PlannedMessageType,
)
    requires
        operation.input == Some(input),
        crate::proto::go::message_type_step(imports, input).0 is Some,
    ensures
        ({
            let after = crate::proto::go::message_type_step(imports, input).1;
            let returned = crate::proto::go::returned_step(after, service, resources, operation.resource_return);
            let given = crate::proto::go::output_step(returned.1, operation);
            let step = crate::proto::go::operation_step(imports, service, resources, operation);
            &&& crate::proto::go::message_conversion_of(input) matches Err(reason) ==> step.0 == Err::<
                Option<crate::proto::go::OperationBindingView>,
                ErrorView,
            >(
                ErrorView::UnsupportedGoProtoConversion {
                    context: "operation `"@ + operation.name@ + "` "@ + "input"@,
                    reason,
                },
            )
            &&& crate::proto::go::message_conversion_of(input) is Ok ==> {
                &&& returned.0 matches Err(error) ==> step.0 == Err::<
                    Option<crate::proto::go::OperationBindingView>,
                    ErrorView,
                >(error)
                &&& returned.0 is Ok ==> (given.0 matches Err(error) ==> step.0 == Err::<
                    Option<crate::proto::go::OperationBindingView>,
                    ErrorView,
                >(error))
                &&& returned.0 matches Ok(resource_return) ==> (given.0 matches Ok(Some(output))
                    ==> step.1 == given.1 && (step.0 matches Ok(Some(bound)) && bound.resource_return
                    == resource_return && bound.output_proto_type == output.0
                    && bound.output_from_proto == output.1 && bound.output_returns_pointer
                    == output.2))
            }
        }),
{
}

/// The resource that is given back is the first of its class; there is none without a resource to
/// give back, and an unknown class is refused.
pub proof fn law_resources_are_found_by_their_class(
    imports: ImportEntries,
    service: Seq<char>,
    resources: Seq<PlannedResource>,
    planned: PlannedOperationResourceReturn,
    i: int,
)
    requires
        0 <= i < resources.len(),
    ensures
        crate::proto::go::returned_step(imports, service, resources, None) == (
            Ok::<Option<crate::proto::go::ResourceReturnView>, ErrorView>(None),
            imports,
        ),
        crate::proto::go::resource_index(resources, resources[i].class_name@) matches Some(k) && 0 <= k <= i
            && resources[k].class_name@ == resources[i].class_name@,
        crate::proto::go::resource_index(resources, planned.resource_class@) is None ==> crate::proto::go::returned_step(
            imports,
            service,
            resources,
            Some(planned),
        ).0 is Err,
    decreases resources.len(),
{
    let rest = resources.drop_last();
    if i < rest.len() {
        law_resources_are_found_by_their_class(imports, service, rest, planned, i);
    } else {
        lemma_found_class_is_there(rest, resources[i].class_name@);
    }
}

/// A class that is found is one of those that are there.
proof fn lemma_found_class_is_there(resources: Seq<PlannedResource>, name: Seq<char>)
    ensures
        crate::proto::go::resource_index(resources, name) matches Some(k) ==> 0 <= k < resources.len()
            && resources[k].class_name@ == name,
    decreases resources.len(),
{
    if resources.len() > 0 {
        lemma_found_class_is_there(resources.drop_last(), name);
    }
}

/// Models are taken up in their order, each with what those before it import; the first that fails
/// is what fails.
pub proof fn law_models_follow_each_other(
    imports: ImportEntries,
    models: Seq<GoModel>,
    model: GoModel,
)
    ensures
        ({
            let before = crate::proto::go::models_step(imports, models);
            let own = crate::proto::go::model_wire_step(before.1, model);
            let all = crate::proto::go::models_step(imports, models.push(model));
            &&& before.0 is Err ==> all == before
            &&& before.0 matches Ok(made) ==> all.1 == own.1 && match own.0 {
                Ok(wire) => all.0 == Ok::<Seq<(Seq<char>, Option<crate::proto::go::ModelWireView>)>, ErrorView>(
                    made.push(wire),
                ),
                Err(error) => all.0 == Err::<Seq<(Seq<char>, Option<crate::proto::go::ModelWireView>)>, ErrorView>(
                    error,
                ),
            }
        }),
{
    assert(models.push(model).drop_last() =~= models);
}

/// Operations are taken up in their order, each with what those before it import.
pub proof fn law_operations_follow_each_other(
    imports: ImportEntries,
    operations: Seq<PlannedOperation>,
    operation: PlannedOperation,
    service: PlannedService,
)
    ensures
        ({
            let before = crate::proto::go::operations_step(imports, operations, service);
            let own = crate::proto::go::operation_step(
                before.1,
                service.name@,
                service.resources@,
                operation,
            );
            let all = crate::proto::go::operations_step(imports, operations.push(operation), service);
            &&& before.0 is Err ==> all == before
            &&& before.0 matches Ok(made) ==> all.1 == own.1 && match own.0 {
                Ok(bound) => all.0 == Ok::<Seq<Option<crate::proto::go::OperationBindingView>>, ErrorView>(
                    made.push(bound),
                ),
                Err(error) => all.0 == Err::<Seq<Option<crate::proto::go::OperationBindingView>>, ErrorView>(
                    error,
                ),
            }
        }),
{
    assert(operations.push(operation).drop_last() =~= operations);
}

/// Services are taken up in their order, each with what those before it import.
pub proof fn law_services_follow_each_other(
    imports: ImportEntries,
    services: Seq<PlannedService>,
    service: PlannedService,
)
    ensures
        ({
            let before = crate::proto::go::services_step(imports, services);
            let own = crate::proto::go::operations_step(before.1, service.operations@, service);
            let all = crate::proto::go::services_step(imports, services.push(service));
            &&& before.0 is Err ==> all == before
            &&& before.0 matches Ok(made) ==> all.1 == own.1 && match own.0 {
                Ok(bound) => all.0 == Ok::<Seq<Seq<Option<crate::proto::go::OperationBindingView>>>, ErrorView>(
                    made.push(bound),
                ),
                Err(error) => all.0 == Err::<
                    Seq<Seq<Option<crate::proto::go::OperationBindingView>>>,
                    ErrorView,
                >(error),
            }
        }),
{
    assert(services.push(service).drop_last() =~= services);
}

} // verus!
