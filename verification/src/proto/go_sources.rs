//! Where generated Go takes its values from: what a resource is bound to, what a field is sourced
//! from, and what an operation gives back.

use vstd::prelude::*;

use crate::error::ErrorView;
use crate::proto::go::{
    FutureAdapter, GoModel, GoPackageContext, OperationBinding, PlannedEnumType, PlannedField,
    PlannedFieldKind, PlannedMessageSource, PlannedMessageType, PlannedOperation,
    PlannedOperationOutput, PlannedResource, PlannedResourceBinding, PlannedResourceField,
    PlannedSourcedField, PlannedValueType, RenderedOperation, RenderedService,
    ResolvedResourceBindingSource,
};
use crate::proto::go_imports::ImportEntries;

verus! {

/// A value that can fail is bound beside its error, which is given back; any other is bound alone.
pub proof fn law_errors_of_bound_values_are_given_back(
    conversion: crate::proto::go::GoConversionView,
    converted: Seq<char>,
    local: Seq<char>,
    error_return: Seq<char>,
)
    ensures
        ({
            let lines = crate::proto::go::bound_local(conversion, converted, local, error_return);
            &&& conversion.fallible ==> lines == seq![
                local + ", err := "@ + converted,
                "if err != nil {"@,
                "\t"@ + error_return,
                "}"@,
            ]
            &&& !conversion.fallible ==> lines == seq![local + " := "@ + converted]
        }),
{
}

/// A value is bound as a pointer where the resource holds one, and as itself where it does not,
/// whichever the conversion gives.
pub proof fn law_bound_values_are_pointers_where_they_are_held(
    conversion: crate::proto::go::GoConversionView,
    converted: Seq<char>,
    local: Seq<char>,
    native_type: Seq<char>,
    uses_pointer: bool,
    error_return: Seq<char>,
)
    ensures
        ({
            let lines = crate::proto::go::override_resource_lines(
                conversion,
                converted,
                local,
                native_type,
                uses_pointer,
                error_return,
            );
            let gives_pointer = conversion.from_proto_returns_pointer;
            &&& gives_pointer == uses_pointer ==> lines == crate::proto::go::bound_local(
                conversion,
                converted,
                local,
                error_return,
            )
            &&& uses_pointer && !gives_pointer ==> lines.last() == local + " := &converted"@
            &&& !uses_pointer && gives_pointer ==> lines[0] == "var "@ + local + " "@ + native_type
                && lines[lines.len() - 2] == "\t"@ + local + " = *converted"@
            &&& gives_pointer != uses_pointer && conversion.fallible ==> exists|k: int|
                0 <= k && k + 3 < lines.len() && #[trigger] lines[k] == "converted, err := "@
                    + converted && lines[k + 1] == "if err != nil {"@ && lines[k + 2] == "\t"@
                    + error_return && lines[k + 3] == "}"@
        }),
{
    let lines = crate::proto::go::override_resource_lines(
        conversion,
        converted,
        local,
        native_type,
        uses_pointer,
        error_return,
    );
    let gives_pointer = conversion.from_proto_returns_pointer;
    if gives_pointer != uses_pointer && conversion.fallible {
        if uses_pointer {
            assert(lines[0] == "converted, err := "@ + converted);
            assert(lines[1] == "if err != nil {"@);
        } else {
            assert(lines[1] == "converted, err := "@ + converted);
            assert(lines[2] == "if err != nil {"@);
        }
    }
}

/// A plain value of a resource is read in place; a model that may be missing is converted only where
/// it is there, and a plain one that may be missing is set where it is not the zero value.
pub proof fn law_resource_values_are_read_by_their_kind(
    field: PlannedResourceField,
    value: PlannedValueType,
    conversion: crate::proto::go::GoConversionView,
    getter: Seq<char>,
    local: Seq<char>,
    native_type: Seq<char>,
    error_return: Seq<char>,
)
    ensures
        ({
            let read = crate::proto::go::singular_source(
                field,
                value,
                conversion,
                getter,
                local,
                native_type,
                error_return,
            );
            let converted = conversion.from_before + getter + conversion.from_after;
            let pointer = field.optional && crate::text::has_prefix(native_type, "*"@);
            let plain = conversion.kind is Scalar || conversion.kind is Enum;
            &&& plain && !pointer && !conversion.fallible ==> read.0.len() == 0 && read.1
                == converted
            &&& plain && pointer ==> read.1 == local && read.0 == seq![
                local + "Value"@ + " := "@ + converted,
                "var "@ + local + " "@ + native_type,
                "if "@ + (local + "Value"@) + " != "@ + crate::proto::go::zero_value_text(value) + " {"@,
                "\t"@ + local + " = &"@ + (local + "Value"@),
                "}"@,
            ]
            &&& conversion.kind is ModelConverter && pointer ==> read.1 == local && read.0[0]
                == "var "@ + local + " "@ + native_type && read.0[1] == "if "@ + getter
                + " != nil {"@ && read.0[read.0.len() - 2] == "\t"@ + local + " = &converted"@
            &&& conversion.kind is ModelConverter && !pointer ==> read == (crate::proto::go::bound_local(
                conversion,
                converted,
                local,
                error_return,
            ), local)
            &&& conversion.kind is OverrideConverter ==> read == (crate::proto::go::override_resource_lines(
                conversion,
                converted,
                local,
                native_type,
                pointer,
                error_return,
            ), local)
        }),
{
}

/// A list of a resource is read element by element, each appended.
pub proof fn law_resource_lists_are_read_element_by_element(
    conversion: crate::proto::go::GoConversionView,
    getter: Seq<char>,
    local: Seq<char>,
    native_type: Seq<char>,
)
    ensures
        ({
            let lines = crate::proto::go::repeated_source(conversion, getter, local, native_type);
            let converted = conversion.from_before + "item"@ + conversion.from_after;
            let pointer = conversion.kind is OverrideConverter
                && conversion.from_proto_returns_pointer;
            &&& lines[0] == "var "@ + local + " "@ + native_type
            &&& lines[1] == "for _, item := range "@ + getter + " {"@
            &&& lines.last() == "}"@
            &&& !pointer && !conversion.fallible ==> lines[2] == "\t"@ + local + " = append("@
                + local + ", "@ + converted + ")"@
            &&& !pointer && conversion.fallible ==> lines[2] == "\tconverted, err := "@ + converted
                && lines[3] == "\tif err != nil {"@ && lines[4] == "\t\treturn nil, err"@
                && lines[lines.len() - 2] == "\t"@ + local + " = append("@ + local
                + ", converted)"@
            &&& pointer ==> lines[lines.len() - 3] == "\t\t"@ + local + " = append("@ + local
                + ", *converted)"@
        }),
{
}

/// A field of a resource is read from its own getter of the message it is bound to.
pub proof fn law_resource_fields_are_read_from_their_getter(
    imports: ImportEntries,
    field: PlannedResourceField,
    source: Seq<char>,
    proto_field_name: Seq<char>,
)
    ensures
        ({
            let getter = source + ".Get"@ + crate::naming::upper_camel(proto_field_name) + "()"@;
            let local = crate::proto::go::local_name_text(field.name@);
            let (read, after) = crate::proto::go::proto_source_step(imports, field, source, proto_field_name);
            &&& field.kind matches PlannedFieldKind::Singular(value) ==> (crate::proto::go::value_step(
                imports,
                value,
            ).0 matches Ok(conversion) ==> read == Ok::<(Seq<Seq<char>>, Seq<char>), Seq<char>>(
                crate::proto::go::singular_source(
                    field,
                    value,
                    conversion,
                    getter,
                    local,
                    crate::proto::go::source_native_text(field),
                    "return nil, err"@,
                ),
            ))
            &&& field.kind matches PlannedFieldKind::Repeated(value) ==> (crate::proto::go::value_step(
                imports,
                value,
            ).0 matches Ok(conversion) ==> read == Ok::<(Seq<Seq<char>>, Seq<char>), Seq<char>>(
                (
                    crate::proto::go::repeated_source(conversion, getter, local, crate::proto::go::source_native_text(field)),
                    local,
                ),
            ))
        }),
{
}

/// A field of a resource is bound to a field of the request as it was given, to one of the message
/// of the request where it is hidden, or to one of the message of the response.
pub proof fn law_resource_fields_are_bound_to_their_source(
    imports: ImportEntries,
    service: Seq<char>,
    resource_class: Seq<char>,
    fields: Seq<PlannedResourceField>,
    binding: PlannedResourceBinding,
    i: int,
)
    requires
        crate::proto::go::field_index(fields, binding.field_name@) == Some(i),
    ensures
        ({
            let field = fields[i];
            let bound = crate::proto::go::binding_step(imports, service, resource_class, fields, binding);
            &&& binding.source matches ResolvedResourceBindingSource::RequestField {
                field_name,
                hidden,
                ..
            } ==> (!hidden && !(field.optional && field.puns_zero) ==> bound.0 == Ok::<
                (Seq<Seq<char>>, Seq<char>),
                ErrorView,
            >((Seq::empty(), "request."@ + crate::naming::upper_camel(field_name@))))
            &&& binding.source matches ResolvedResourceBindingSource::RequestField {
                field_name,
                hidden,
                ..
            } ==> (!hidden && field.optional && field.puns_zero ==> (bound.0 matches Ok(made) && ({
                let expr = "request."@ + crate::naming::upper_camel(field_name@);
                &&& made.0[1] == "if "@ + expr + " != nil {"@
                &&& made.0[2] == "\t"@ + made.1 + " = *"@ + expr
            })))
            &&& binding.source matches ResolvedResourceBindingSource::RequestField {
                proto_field_name,
                hidden,
                ..
            } ==> (hidden ==> (crate::proto::go::proto_source_step(
                imports,
                field,
                "requestProto"@,
                proto_field_name@,
            ).0 matches Ok(made) ==> bound.0 == Ok::<(Seq<Seq<char>>, Seq<char>), ErrorView>(made)))
            &&& binding.source matches ResolvedResourceBindingSource::ResultField {
                proto_field_name,
            } ==> (crate::proto::go::proto_source_step(imports, field, "result"@, proto_field_name@).0 matches Ok(
                made,
            ) ==> bound.0 == Ok::<(Seq<Seq<char>>, Seq<char>), ErrorView>(made))
        }),
{
}

/// A binding to a field that the resource does not have is refused; a field is the first one of its
/// name.
pub proof fn law_bindings_name_fields_of_the_resource(
    imports: ImportEntries,
    service: Seq<char>,
    resource_class: Seq<char>,
    fields: Seq<PlannedResourceField>,
    binding: PlannedResourceBinding,
    i: int,
)
    ensures
        0 <= i < fields.len() && fields[i].name@ == binding.field_name@ && (forall|k: int|
            0 <= k < i ==> (#[trigger] fields[k]).name@ != binding.field_name@) ==> crate::proto::go::field_index(
            fields,
            binding.field_name@,
        ) == Some(i),
        (forall|k: int|
            0 <= k < fields.len() ==> (#[trigger] fields[k]).name@ != binding.field_name@)
            ==> crate::proto::go::binding_step(imports, service, resource_class, fields, binding).0 is Err,
{
    lemma_field_index(fields, binding.field_name@, i);
}

/// A field is the first one of its name.
proof fn lemma_field_index(fields: Seq<PlannedResourceField>, name: Seq<char>, i: int)
    ensures
        0 <= i < fields.len() && fields[i].name@ == name && (forall|k: int|
            0 <= k < i ==> (#[trigger] fields[k]).name@ != name) ==> crate::proto::go::field_index(fields, name)
            == Some(i),
        (forall|k: int| 0 <= k < fields.len() ==> (#[trigger] fields[k]).name@ != name)
            ==> crate::proto::go::field_index(fields, name) is None,
    decreases fields.len(),
{
    if fields.len() > 0 {
        let before = fields.drop_last();
        lemma_field_index(before, name, i);
        assert forall|k: int| 0 <= k < before.len() implies #[trigger] before[k] == fields[k] by {}
        assert(fields[fields.len() - 1] == fields.last());
        if i == fields.len() - 1 && (forall|k: int|
            0 <= k < i ==> (#[trigger] fields[k]).name@ != name) {
            assert forall|k: int| 0 <= k < before.len() implies (#[trigger] before[k]).name@
                != name by {
                assert(before[k] == fields[k]);
            }
        }
    }
}

/// A resource is made of one value for each binding, in their order.
pub proof fn law_resources_are_made_of_their_bindings(
    imports: ImportEntries,
    service: Seq<char>,
    resource_class: Seq<char>,
    fields: Seq<PlannedResourceField>,
    bindings: Seq<PlannedResourceBinding>,
)
    ensures
        crate::proto::go::bindings_step(imports, service, resource_class, fields, bindings).0 matches Ok(made)
            ==> made.1.len() == bindings.len() && (bindings.len() > 0 ==> ({
            let (before, middle) = crate::proto::go::bindings_step(
                imports,
                service,
                resource_class,
                fields,
                bindings.drop_last(),
            );
            let last = crate::proto::go::binding_step(middle, service, resource_class, fields, bindings.last()).0;
            &&& last matches Ok(bound) && made.1.last() == bound.1 && made.0 == before->Ok_0.0
                + bound.0
            &&& made.1.drop_last() == before->Ok_0.1
        })),
    decreases bindings.len(),
{
    if bindings.len() > 0 {
        law_resources_are_made_of_their_bindings(
            imports,
            service,
            resource_class,
            fields,
            bindings.drop_last(),
        );
        match crate::proto::go::bindings_step(imports, service, resource_class, fields, bindings).0 {
            Ok(made) => {
                let before = crate::proto::go::bindings_step(
                    imports,
                    service,
                    resource_class,
                    fields,
                    bindings.drop_last(),
                ).0->Ok_0;
                assert(made.1.drop_last() =~= before.1);
            },
            Err(_) => {},
        }
    }
}

/// A field of its own type is read only where it is there, and only as that type.
pub proof fn law_typed_fields_are_read_as_their_type(
    conversion: crate::proto::go::GoConversionView,
    proto_field: Seq<char>,
    go_field: Seq<char>,
    native: Seq<char>,
)
    ensures
        ({
            let lines = crate::proto::go::typed_from_proto(conversion, proto_field, go_field, native);
            let getter = "proto.Get"@ + proto_field + "()"@;
            &&& lines[0] == "if "@ + getter + " != nil {"@
            &&& lines[1] == "\tconverted, err := "@ + (conversion.from_before + getter
                + conversion.from_after)
            &&& lines[2] == "\tif err != nil {"@
            &&& lines[3] == "\t\treturn value, err"@
            &&& lines[5] == "\ttyped, ok := converted.("@ + native + ")"@
            &&& lines[6] == "\tif !ok {"@
            &&& lines[9] == "\tvalue."@ + go_field + " = typed"@
        }),
{
}

/// A field that is sourced is written from its expression: as it stands, or converted with its error
/// given back.
pub proof fn law_sourced_fields_are_written_from_their_expression(
    conversion: crate::proto::go::GoConversionView,
    proto_field: Seq<char>,
    source_expr: Seq<char>,
)
    ensures
        ({
            let lines = crate::proto::go::sourced_singular(conversion, proto_field, source_expr);
            let written = conversion.to_before + source_expr + conversion.to_after;
            &&& !(conversion.kind is OverrideConverter) && !conversion.fallible ==> lines == seq![
                "message."@ + proto_field + " = "@ + written,
            ]
            &&& !(conversion.kind is OverrideConverter) && conversion.fallible ==> lines == seq![
                "converted, err := "@ + written,
                "if err != nil {"@,
                "\treturn nil, err"@,
                "}"@,
                "message."@ + proto_field + " = converted"@,
            ]
            &&& conversion.kind is OverrideConverter ==> lines[0] == "sourced := "@ + source_expr
            &&& conversion.kind is OverrideConverter && conversion.fallible ==> lines.last()
                == "message."@ + proto_field + " = converted"@ && lines[2] == "if err != nil {"@
                && lines[3] == "\treturn nil, err"@
        }),
{
}

/// A sourced field is written into its own field, from its own expression.
pub proof fn law_sourced_fields_are_written_into_their_field(
    imports: ImportEntries,
    field: PlannedSourcedField,
)
    ensures
        ({
            let proto_field = crate::naming::upper_camel(field.proto_name@);
            let (made, after) = crate::proto::go::sourced_step(imports, field);
            &&& field.kind matches PlannedFieldKind::Singular(value) ==> (crate::proto::go::value_step(
                imports,
                value,
            ).0 matches Ok(conversion) ==> made == Ok::<Seq<Seq<char>>, Seq<char>>(
                crate::proto::go::sourced_singular(conversion, proto_field, field.source_expr@),
            ))
            &&& field.kind matches PlannedFieldKind::Repeated(value) ==> (crate::proto::go::value_step(
                imports,
                value,
            ).0 matches Ok(conversion) ==> made == Ok::<Seq<Seq<char>>, Seq<char>>(
                crate::proto::go::repeated_to_proto(
                    conversion,
                    field.source_expr@,
                    proto_field,
                    "return nil, err"@,
                ),
            ))
            &&& field.kind matches PlannedFieldKind::Mapping { .. } ==> (made matches Ok(lines)
                ==> lines[0] == "sourced"@ + proto_field + " := "@ + field.source_expr@)
        }),
{
}

/// A model without a message has no wire form; one with a message has its type as a pointer.
pub proof fn law_models_have_the_type_of_their_message(imports: ImportEntries, model: GoModel)
    ensures
        model.proto is None ==> crate::proto::go::model_wire_step(imports, model).0 == Ok::<
            (Seq<char>, Option<crate::proto::go::ModelWireView>),
            ErrorView,
        >((model.key@, None)),
        model.proto matches Some(proto) ==> (crate::proto::go::model_wire_step(imports, model).0 matches Ok(made)
            ==> made.0 == model.key@ && (made.1 matches Some(wire) && (crate::proto::go::proto_type_step(
            imports,
            proto,
        ).0 matches Some(name) && wire.proto_type == "*"@ + name))),
{
}

/// An operation is bound where it has a request with a message; its request is written, and its
/// response read as the operation says.
pub proof fn law_operations_are_bound_by_their_messages(
    imports: ImportEntries,
    service: Seq<char>,
    resources: Seq<PlannedResource>,
    operation: PlannedOperation,
)
    ensures
        operation.input is None ==> crate::proto::go::operation_step(imports, service, resources, operation).0
            == Ok::<Option<crate::proto::go::OperationBindingView>, ErrorView>(None),
        operation.output is Resource && operation.resource_return is None
            ==> !(crate::proto::go::operation_step(imports, service, resources, operation).0 matches Ok(Some(_))),
        crate::proto::go::operation_step(imports, service, resources, operation).0 matches Ok(Some(bound)) ==> {
            &&& operation.input matches Some(input) && (crate::proto::go::message_conversion_of(input) matches Ok(
                conversion,
            ) && bound.input_to_proto == crate::proto::go::request_to_proto_text(conversion))
            &&& operation.resource_return is None ==> bound.resource_return is None
            &&& operation.output is Nothing ==> bound.output_proto_type is None
                && bound.output_from_proto is None && !bound.output_returns_pointer
            &&& operation.output matches PlannedOperationOutput::Message(message) ==> (
            operation.resource_return is None && !crate::proto::go::transforms_output(operation) ==> (
            crate::proto::go::message_conversion_of(message) matches Ok(conversion) && bound.output_from_proto
                == Some(conversion.from_before + "&result"@ + conversion.from_after)
                && bound.output_returns_pointer == conversion.from_proto_returns_pointer))
            &&& operation.output is Message && operation.resource_return is Some
                ==> bound.output_from_proto is None && bound.output_proto_type is Some
        },
{
}

/// A message without a conversion of its own is converted by the functions that are generated for
/// its model; a record that is not a message has none.
pub proof fn law_messages_have_a_conversion(message: PlannedMessageType)
    requires
        message.replacement is None,
        message.authored_annotation is None,
    ensures
        message.source == PlannedMessageSource::Proto ==> (crate::proto::go::message_conversion_of(message)
            matches Ok(conversion) && conversion.kind is ModelConverter && conversion.from_before
            == crate::proto::go::unexported_name_text(message.model_name@) + "FromProto"@ + "(ctx, "@
            && conversion.from_after == ")"@ && conversion.to_before == ""@ && conversion.to_after
            == ".toProto(ctx)"@ && conversion.fallible),
        message.source == PlannedMessageSource::Wit ==> crate::proto::go::message_conversion_of(message) is Err,
{
}

/// An enumeration has its own name as its type, unless it is replaced.
pub proof fn law_enumerations_have_their_own_type(enum_type: PlannedEnumType)
    requires
        enum_type.replacement is None,
    ensures
        enum_type.name matches Some(name) ==> crate::proto::go::enum_native_type_of(enum_type) == Ok::<Seq<char>, Seq<char>>(
            name@,
        ),
        enum_type.name is None ==> crate::proto::go::enum_native_type_of(enum_type) is Err,
{
}

/// What a conversion gives is set as a pointer where the field is one, and as itself where it is
/// not.
pub proof fn law_converted_fields_are_pointers_where_they_are_declared(
    conversion: crate::proto::go::GoConversionView,
    converted: Seq<char>,
    go_field: Seq<char>,
    field_is_pointer: bool,
    error_return: Seq<char>,
)
    ensures
        ({
            let lines = crate::proto::go::override_from_proto(
                conversion,
                converted,
                go_field,
                field_is_pointer,
                error_return,
            );
            let gives_pointer = conversion.from_proto_returns_pointer;
            &&& gives_pointer == field_is_pointer && !conversion.fallible ==> lines == seq![
                "value."@ + go_field + " = "@ + converted,
            ]
            &&& gives_pointer == field_is_pointer && conversion.fallible ==> lines[1]
                == "\tconverted, err := "@ + converted && lines[5] == "\t"@ + ("value."@ + go_field
                + " = converted"@)
            &&& field_is_pointer && !gives_pointer && conversion.fallible ==> lines[5] == "\t"@ + (
            "value."@ + go_field + " = &converted"@)
            &&& field_is_pointer && !gives_pointer && !conversion.fallible ==> lines[2]
                == "\tvalue."@ + go_field + " = &converted"@
            &&& !field_is_pointer && gives_pointer && conversion.fallible ==> lines[5]
                == "\tif converted != nil {"@ && lines[6] == "\t\tvalue."@ + go_field
                + " = *converted"@
            &&& !field_is_pointer && gives_pointer && !conversion.fallible ==> lines[0]
                == "if converted := "@ + converted + "; converted != nil {"@ && lines[1]
                == "\tvalue."@ + go_field + " = *converted"@
            &&& conversion.fallible ==> lines[2] == "\tif err != nil {"@ && lines[3] == "\t\t"@
                + error_return
        }),
{
}

/// What an operation gives back: what its transform makes of the response where it has one, else the
/// native response, else a resource made of it, else what the client yields.
pub proof fn law_operations_give_back_what_they_declare(
    operation: RenderedOperation,
    binding: OperationBinding,
)
    ensures
        ({
            let transformed = operation.output_transform_expr is Some
                && operation.output_transform_type is Some;
            let converted = operation.output_type is Some && binding.output_proto_type is Some
                && binding.output_from_proto is Some;
            let made = binding.resource_return is Some && binding.output_proto_type is Some;
            let result = crate::proto::go::operation_result_of(operation, binding);
            let body = crate::proto::go::operation_body_text(operation, binding);
            let settled = "\t\t"@ + "\tresultSettable.SetError(err)\n"@ + "\t\t"@
                + "\treturn\n"@ + "\t\t"@ + "}\n"@;
            &&& transformed ==> result == crate::proto::go::FutureResultView::Transformed(
                operation.output_transform_type->Some_0@,
            ) && crate::text::has_suffix(
                body,
                "\t\tvalue, err := "@ + operation.output_transform_expr->Some_0@
                    + "\n\t\tif err != nil {\n"@ + settled,
            )
            &&& !transformed && converted ==> result == crate::proto::go::FutureResultView::Converted(
                operation.output_type->Some_0@,
                binding.output_returns_pointer,
            ) && body == "\t\tvar result "@ + crate::proto::go::without_stars(binding.output_proto_type->Some_0@)
                + "\n\t\tif err := fut.Get(ctx, &result); err != nil {\n"@ + settled + (
            "\t\tvalue, err := "@ + binding.output_from_proto->Some_0@ + "\n\t\tif err != nil {\n"@
                + settled)
            &&& !transformed && !converted && made ==> result == crate::proto::go::FutureResultView::Resource(
                binding.resource_return->Some_0.resource_class@,
            ) && crate::text::has_suffix(
                body,
                "\t\tvalue := New"@ + binding.resource_return->Some_0.resource_class@ + "("@
                    + crate::text::join(
                    crate::text::texts(binding.resource_return->Some_0.field_initializers@),
                    ", "@,
                ) + ")\n"@,
            )
            &&& !transformed && !converted && !made ==> result == crate::proto::go::FutureResultView::Raw
                && body.len() == 0
        }),
{
    let transformed = operation.output_transform_expr is Some && operation.output_transform_type
        is Some;
    let converted = operation.output_type is Some && binding.output_proto_type is Some
        && binding.output_from_proto is Some;
    let made = binding.resource_return is Some && binding.output_proto_type is Some;
    let body = crate::proto::go::operation_body_text(operation, binding);
    let settled = "\t\t"@ + "\tresultSettable.SetError(err)\n"@ + "\t\t"@ + "\treturn\n"@ + "\t\t"@
        + "}\n"@;
    if transformed {
        let last = "\t\tvalue, err := "@ + operation.output_transform_expr->Some_0@
            + "\n\t\tif err != nil {\n"@ + settled;
        let start = crate::proto::go::await_transformed_text(operation, binding) + settled;
        assert(body == start + last);
        assert((start + last).skip((start + last).len() - last.len()) =~= last);
    } else if !converted && made {
        let returned = binding.resource_return->Some_0;
        let start = crate::proto::go::await_text(crate::proto::go::without_stars(binding.output_proto_type->Some_0@)) + settled
            + crate::proto::go::local_block_text(crate::text::texts(returned.local_lines@));
        let last = "\t\tvalue := New"@ + returned.resource_class@ + "("@ + crate::text::join(
            crate::text::texts(returned.field_initializers@),
            ", "@,
        ) + ")\n"@;
        assert(body =~= start + last);
        assert((start + last).skip((start + last).len() - last.len()) =~= last);
    }
}

/// What a transform makes is made of the response in the form in which it comes: the message where
/// there is one, else the raw type, else nothing.
pub proof fn law_transforms_await_the_response(
    operation: RenderedOperation,
    binding: OperationBinding,
)
    ensures
        binding.output_proto_type matches Some(wire) ==> crate::proto::go::await_transformed_text(
            operation,
            binding,
        ) == "\t\tvar result "@ + crate::proto::go::without_stars(wire@)
            + "\n\t\tif err := fut.Get(ctx, &result); err != nil {\n"@,
        binding.output_proto_type is None ==> (operation.raw_output_type matches Some(raw)
            ==> crate::proto::go::await_transformed_text(operation, binding) == "\t\tvar result "@ + raw@
            + "\n\t\tif err := fut.Get(ctx, &result); err != nil {\n"@),
        binding.output_proto_type is None && operation.raw_output_type is None
            ==> crate::proto::go::await_transformed_text(operation, binding)
            == "\t\tif err := fut.Get(ctx, nil); err != nil {\n"@,
{
}

/// The function of an operation gives back the future itself where it declares nothing else, and
/// else one that its adapter fills.
pub proof fn law_functions_give_back_a_future(
    service: RenderedService,
    operation: RenderedOperation,
    binding: OperationBinding,
    package: GoPackageContext,
    adapter: FutureAdapter,
)
    ensures
        ({
            let text = crate::proto::go::operation_function_text(service, operation, binding, package, adapter);
            let result = crate::proto::go::operation_result_of(operation, binding);
            &&& result is Raw ==> crate::text::has_suffix(text, "\treturn fut\n}\n"@)
            &&& !(result is Raw) ==> crate::text::has_suffix(
                text,
                adapter.before@ + crate::proto::go::operation_body_text(operation, binding) + adapter.after@
                    + "}\n"@,
            )
        }),
{
    let text = crate::proto::go::operation_function_text(service, operation, binding, package, adapter);
    let head = "func "@ + operation.func_name@ + "(ctx "@ + package.workflow_context_type@
        + ", request "@ + operation.input_type@ + ") "@ + package.operation_future_type@
        + " {\n\trequestProto, err := "@ + binding.input_to_proto@
        + "\n\tif err != nil {\n\t\tresult, resultSettable := "@ + package.new_future@
        + "(ctx)\n\t\tresultSettable.SetError(err)\n\t\treturn result\n\t}\n\tc := "@
        + service.client_expr@ + "\n\tfut := c.ExecuteOperation(ctx, "@
        + crate::json_text::json_quoted(operation.wire_name@) + ", requestProto, "@
        + package.nexus_operation_options@ + ")\n"@;
    let body = crate::proto::go::operation_body_text(operation, binding);
    if crate::proto::go::operation_result_of(operation, binding) is Raw {
        let last = "\treturn fut\n}\n"@;
        assert(text == head + last);
        assert((head + last).skip((head + last).len() - last.len()) =~= last);
    } else {
        let last = adapter.before@ + body + adapter.after@ + "}\n"@;
        assert(text == head + adapter.before@ + body + adapter.after@ + "}\n"@);
        lemma_last_four(head, adapter.before@, body, adapter.after@, "}\n"@);
    }
}

/// The end of a text is what was written last.
proof fn lemma_last_four(head: Seq<char>, a: Seq<char>, b: Seq<char>, c: Seq<char>, d: Seq<char>)
    ensures
        crate::text::has_suffix(head + a + b + c + d, a + b + c + d),
{
    let last = a + b + c + d;
    assert(head + a + b + c + d =~= head + last);
    assert((head + last).skip((head + last).len() - last.len()) =~= last);
}

/// A field of its own flattened type is read as that type; any other by its conversion.
pub proof fn law_flattened_fields_are_read_as_their_type(
    field: PlannedField,
    conversion: crate::proto::go::GoConversionView,
    proto_field: Seq<char>,
    go_field: Seq<char>,
    native: Seq<char>,
)
    ensures
        crate::proto::go::flattened_type(field) && !conversion.from_proto_returns_pointer ==> crate::proto::go::field_from_proto(
            field,
            conversion,
            proto_field,
            go_field,
            native,
        ) == crate::proto::go::typed_from_proto(conversion, proto_field, go_field, native),
        !crate::proto::go::flattened_type(field) ==> crate::proto::go::field_from_proto(
            field,
            conversion,
            proto_field,
            go_field,
            native,
        ) == crate::proto::go::singular_from_proto(
            conversion,
            proto_field,
            go_field,
            crate::text::has_prefix(native, "*"@),
            "return value, err"@,
        ),
{
}

/// What has no conversion is refused by what it is.
pub proof fn law_values_without_conversion_are_refused(imports: ImportEntries, value: PlannedValueType)
    ensures
        value is Flags ==> crate::proto::go::no_conversion_text(value)
            == "flags values have no Go proto conversion"@,
        value is Variant ==> crate::proto::go::no_conversion_text(value)
            == "variant values have no Go proto conversion"@,
        value is Tuple ==> crate::proto::go::no_conversion_text(value)
            == "tuple values have no Go proto conversion"@,
        value is Outcome ==> crate::proto::go::no_conversion_text(value)
            == "result values have no Go proto conversion"@,
        value is External ==> crate::proto::go::no_conversion_text(value)
            == "externally-typed values (via `@nexus.type`) have no Go proto conversion"@,
        value is Unknown ==> crate::proto::go::no_conversion_text(value)
            == "the proto type could not be resolved from the provided descriptors"@,
        !(value is Scalar || value is Enum || value is Message) ==> crate::proto::go::value_type_step(
            imports,
            value,
        ).0 is Err,
{
}

} // verus!
