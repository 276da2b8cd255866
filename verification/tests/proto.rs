//! Conversions between generated models and protobuf messages.

use nexgen::error::Error;
use nexgen::language::Language;
use nexgen::plan::{
    LanguageStringSpec, LanguageText, PlannedProtoEnum, PlannedProtoMessage, PlannedProtoTypeInfo,
    PlannedRecord, PlannedRecordField, PlannedType, PlannedWireFieldBinding,
    PlannedWireVariantMember, RecordFieldVisibility, TypeReplacementSpec,
};
use nexgen::proto::go;
use nexgen::proto::go_imports::{go_proto_ref, parse_go_package_option, GoImportCollector};
use nexgen::proto::python;
use nexgen::proto::typescript;
use nexgen::proto::validation::validate_record_conversion;

fn proto(full_name: &str, go_package: Option<&str>) -> PlannedProtoTypeInfo {
    PlannedProtoTypeInfo {
        full_name: full_name.to_string(),
        package: "temporal.api.common.v1".to_string(),
        file_name: Some("temporal/api/common/v1/message.proto".to_string()),
        go_package: go_package.map(str::to_string),
    }
}

const GO_PACKAGE: Option<&str> = Some("go.temporal.io/api/common/v1;common");

fn strings(text: Option<&str>) -> LanguageStringSpec {
    LanguageStringSpec {
        default: text.map(str::to_string),
        by_language: Vec::new(),
        default_import: None,
        imports: Vec::new(),
    }
}

fn for_go(text: &str) -> LanguageStringSpec {
    LanguageStringSpec {
        default: None,
        by_language: vec![LanguageText {
            language: Language::Go,
            text: text.to_string(),
        }],
        default_import: None,
        imports: Vec::new(),
    }
}

fn field(name: &str, field_type: PlannedType) -> PlannedRecordField {
    PlannedRecordField {
        name: name.to_string(),
        visibility: RecordFieldVisibility::Public,
        field_type,
        required: false,
        function_converter: None,
        has_default: false,
        wire_binding: None,
        has_presence: None,
    }
}

fn record(fields: Vec<PlannedRecordField>) -> PlannedRecord {
    PlannedRecord {
        name: "Task".to_string(),
        full_name: "tasks.task".to_string(),
        fields,
        proto: Some(proto("temporal.api.common.v1.Task", GO_PACKAGE)),
    }
}

fn payload(name: &str) -> PlannedType {
    PlannedType::Message(PlannedProtoMessage {
        proto: proto(&format!("temporal.api.common.v1.{name}"), GO_PACKAGE),
        model_name: name.to_string(),
        replacement: None,
        authored_annotation: None,
    })
}

#[test]
fn go_package_option_gives_path_and_alias() {
    let owned = |path: &str, alias: &str| (path.to_string(), alias.to_string());
    assert_eq!(
        parse_go_package_option("go.temporal.io/api/common/v1;common"),
        owned("go.temporal.io/api/common/v1", "common")
    );
    assert_eq!(
        parse_go_package_option("example.com/tasks"),
        owned("example.com/tasks", "tasks")
    );
    assert_eq!(parse_go_package_option("tasks"), owned("tasks", "tasks"));
}

#[test]
fn go_imports_get_distinct_aliases_once() {
    let mut imports = GoImportCollector::new();
    let at = |package: &str| {
        go_proto_ref(&proto("temporal.api.common.v1.Task.Kind", Some(package))).unwrap()
    };
    assert_eq!(at("a/enums").local_name, "Task_Kind");
    assert_eq!(imports.register(&at("a/enums")), "enums");
    assert_eq!(imports.register(&at("b/enums")), "enums2");
    assert_eq!(imports.register(&at("c/enums")), "enums3");
    assert_eq!(imports.register(&at("b/enums")), "enums2");
    let text = |path: &str, alias: &str| (path.to_string(), alias.to_string());
    assert_eq!(
        imports.paths(),
        vec![
            text("a/enums", "enums"),
            text("b/enums", "enums2"),
            text("c/enums", "enums3"),
        ]
    );
    assert!(go_proto_ref(&proto("temporal.api.common.v1.Task", None)).is_none());
}

fn go_message(name: &str) -> go::PlannedMessageType {
    go::PlannedMessageType {
        info: proto(&format!("temporal.api.common.v1.{name}"), GO_PACKAGE),
        model_name: name.to_string(),
        replacement: None,
        replacement_is_nilable: false,
        authored_annotation: None,
        source: go::PlannedMessageSource::Proto,
    }
}

fn replaced_go_message(name: &str, annotation: LanguageStringSpec) -> go::PlannedMessageType {
    go::PlannedMessageType {
        replacement: Some(TypeReplacementSpec {
            annotation,
            from_proto: strings(None),
            to_proto: strings(None),
        }),
        ..go_message(name)
    }
}

#[test]
fn go_values_are_converted_by_their_kind() {
    let mut imports = GoImportCollector::new();
    let scalar = go::go_value_conversion(
        &go::PlannedValueType::Scalar(go::PlannedScalarType::String),
        &mut imports,
    )
    .unwrap();
    assert_eq!(go::to_proto(&scalar, "x"), "x");
    assert!(!scalar.fallible);

    let enumeration = go::go_value_conversion(
        &go::PlannedValueType::Enum(go::PlannedEnumType {
            name: Some("Policy".to_string()),
            info: Some(proto("temporal.api.common.v1.Policy", GO_PACKAGE)),
            replacement: None,
        }),
        &mut imports,
    )
    .unwrap();
    assert_eq!(go::from_proto(&enumeration, "x"), "Policy(int32(x))");
    assert_eq!(go::to_proto(&enumeration, "x"), "common.Policy(x)");

    let message = go::go_value_conversion(
        &go::PlannedValueType::Message(go_message("RetryPolicy")),
        &mut imports,
    )
    .unwrap();
    assert_eq!(go::from_proto(&message, "x"), "retryPolicyFromProto(ctx, x)");
    assert_eq!(go::to_proto(&message, "x"), "x.toProto(ctx)");
    assert!(message.fallible);

    let replaced = go::go_value_conversion(
        &go::PlannedValueType::Message(replaced_go_message("RetryPolicy", for_go("temporal.Retry"))),
        &mut imports,
    )
    .unwrap();
    assert_eq!(go::to_proto(&replaced, "x"), "retryPolicyToProto(ctx, x)");
    assert!(replaced.to_proto_takes_pointer && replaced.from_proto_returns_pointer);
}

#[test]
fn go_values_without_a_conversion_say_why() {
    let mut imports = GoImportCollector::new();
    let mut reason = |value: go::PlannedValueType| {
        go::go_value_conversion(&value, &mut imports).unwrap_err()
    };
    assert_eq!(
        reason(go::PlannedValueType::Flags),
        "flags values have no Go proto conversion"
    );
    assert_eq!(
        reason(go::PlannedValueType::Unknown),
        "the proto type could not be resolved from the provided descriptors"
    );
    assert_eq!(
        reason(go::PlannedValueType::Message(replaced_go_message(
            "Task",
            strings(None)
        ))),
        "type-replaced message `temporal.api.common.v1.Task` has no `go=` annotation in its \
         `@nexus.type` directive"
    );
    assert_eq!(
        reason(go::PlannedValueType::Message(go::PlannedMessageType {
            source: go::PlannedMessageSource::Wit,
            ..go_message("Task")
        })),
        "WIT-native record `Task` has no proto conversion"
    );
    assert_eq!(
        reason(go::PlannedValueType::Enum(go::PlannedEnumType {
            name: Some("Policy".to_string()),
            info: Some(proto("temporal.api.common.v1.Policy", None)),
            replacement: None,
        })),
        "proto enum `temporal.api.common.v1.Policy` has no `go_package` option in its descriptor"
    );
}

fn go_field(kind: go::PlannedFieldKind) -> go::PlannedField {
    go::PlannedField {
        proto_name: "task_queue".to_string(),
        authored_name: "task-queue".to_string(),
        kind,
        flattened_annotation: None,
    }
}

#[test]
fn go_singular_fields_are_assigned() {
    let mut imports = GoImportCollector::new();
    let text = go::PlannedFieldKind::Singular(go::PlannedValueType::Scalar(
        go::PlannedScalarType::String,
    ));
    let plain = go::build_field_conversion(&go_field(text), "string", &mut imports).unwrap();
    assert_eq!(plain.to_proto_lines, ["message.TaskQueue = m.TaskQueue"]);
    assert_eq!(
        plain.from_proto_lines,
        ["value.TaskQueue = proto.GetTaskQueue()"]
    );

    let text = go::PlannedFieldKind::Singular(go::PlannedValueType::Scalar(
        go::PlannedScalarType::String,
    ));
    let pointer = go::build_field_conversion(&go_field(text), "*string", &mut imports).unwrap();
    assert_eq!(
        pointer.to_proto_lines,
        [
            "if m.TaskQueue != nil {",
            "\tmessage.TaskQueue = (*m.TaskQueue)",
            "}"
        ]
    );
    assert_eq!(
        pointer.from_proto_lines,
        [
            "{",
            "\tconverted := proto.GetTaskQueue()",
            "\tvalue.TaskQueue = &converted",
            "}"
        ]
    );

    let model = go::PlannedFieldKind::Singular(go::PlannedValueType::Message(go_message("Queue")));
    let model = go::build_field_conversion(&go_field(model), "*Queue", &mut imports).unwrap();
    assert_eq!(
        model.to_proto_lines,
        [
            "if m.TaskQueue != nil {",
            "\tconverted, err := (*m.TaskQueue).toProto(ctx)",
            "\tif err != nil {",
            "\t\treturn nil, err",
            "\t}",
            "\tmessage.TaskQueue = converted",
            "}"
        ]
    );
    assert_eq!(
        model.from_proto_lines,
        [
            "if proto.GetTaskQueue() != nil {",
            "\tconverted, err := queueFromProto(ctx, proto.GetTaskQueue())",
            "\tif err != nil {",
            "\t\treturn value, err",
            "\t}",
            "\tvalue.TaskQueue = &converted",
            "}"
        ]
    );
}

#[test]
fn go_lists_and_maps_are_converted_element_by_element() {
    let mut imports = GoImportCollector::new();
    let replaced = || {
        go::PlannedValueType::Message(replaced_go_message("RetryPolicy", for_go("temporal.Retry")))
    };
    let list = go::build_field_conversion(
        &go_field(go::PlannedFieldKind::Repeated(replaced())),
        "[]temporal.Retry",
        &mut imports,
    )
    .unwrap();
    assert_eq!(
        list.to_proto_lines,
        [
            "for _, item := range m.TaskQueue {",
            "\tconverted, err := retryPolicyToProto(ctx, &item)",
            "\tif err != nil {",
            "\t\treturn nil, err",
            "\t}",
            "\tmessage.TaskQueue = append(message.TaskQueue, converted)",
            "}"
        ]
    );
    assert_eq!(
        list.from_proto_lines,
        [
            "for _, item := range proto.GetTaskQueue() {",
            "\tconverted, err := retryPolicyFromProto(ctx, item)",
            "\tif err != nil {",
            "\t\treturn value, err",
            "\t}",
            "\tif converted != nil {",
            "\t\tvalue.TaskQueue = append(value.TaskQueue, *converted)",
            "\t}",
            "}"
        ]
    );
    let map = go::build_field_conversion(
        &go_field(go::PlannedFieldKind::Mapping {
            key: go::PlannedValueType::Scalar(go::PlannedScalarType::String),
            value: go::PlannedValueType::Scalar(go::PlannedScalarType::Int64),
        }),
        "map[string]int64",
        &mut imports,
    )
    .unwrap();
    assert_eq!(
        map.to_proto_lines,
        [
            "if len(m.TaskQueue) > 0 {",
            "\tmessage.TaskQueue = make(map[string]int64, len(m.TaskQueue))",
            "\tfor k, v := range m.TaskQueue {",
            "\t\tmessage.TaskQueue[k] = v",
            "\t}",
            "}"
        ]
    );
    let bad_key = go::build_field_conversion(
        &go_field(go::PlannedFieldKind::Mapping {
            key: go::PlannedValueType::Tuple,
            value: go::PlannedValueType::Scalar(go::PlannedScalarType::Int64),
        }),
        "",
        &mut imports,
    );
    assert_eq!(
        bad_key.unwrap_err(),
        "map key: the value has no proto-side Go type"
    );
}

fn go_context() -> go::GoPackageContext {
    go::GoPackageContext {
        workflow_context_type: "workflow.Context".to_string(),
        new_future: "workflow.NewFuture".to_string(),
        nexus_operation_options: "workflow.NexusOperationOptions{}".to_string(),
        operation_future_type: "workflow.Future".to_string(),
    }
}

#[test]
fn go_model_methods_hold_every_field() {
    let mut output = String::new();
    go::render_model_wire_methods(
        &mut output,
        "RetryPolicy",
        &go::RenderedModelWire {
            proto_type: "*common.RetryPolicy".to_string(),
            field_conversions: vec![go::RenderedFieldConversion {
                to_proto_lines: vec!["message.A = m.A".to_string()],
                from_proto_lines: vec!["value.A = proto.GetA()".to_string()],
            }],
            sourced_fields: vec![go::RenderedSourcedField {
                to_proto_lines: vec!["message.B = source".to_string()],
            }],
        },
        &go_context(),
    );
    assert_eq!(
        output,
        "\nfunc (m RetryPolicy) toProto(ctx workflow.Context) (*common.RetryPolicy, error) {\n\
         \tmessage := &common.RetryPolicy{}\n\
         \tmessage.A = m.A\n\
         \tmessage.B = source\n\
         \treturn message, nil\n\
         }\n\
         \nfunc retryPolicyFromProto(ctx workflow.Context, proto *common.RetryPolicy) \
         (RetryPolicy, error) {\n\
         \tvalue := RetryPolicy{}\n\
         \tvalue.A = proto.GetA()\n\
         \treturn value, nil\n\
         }\n"
    );
}

#[test]
fn go_operation_without_a_result_returns_its_future() {
    let mut output = String::new();
    go::render_operation_function_proto(
        &mut output,
        &go::RenderedService {
            client_expr: "workflow.NewNexusClient(\"e\", \"S\")".to_string(),
        },
        &go::RenderedOperation {
            func_name: "Start".to_string(),
            wire_name: "Start\"Op".to_string(),
            input_type: "StartRequest".to_string(),
            output_type: None,
            raw_output_type: None,
            output_transform_expr: None,
            output_transform_type: None,
        },
        &go::OperationBinding {
            input_to_proto: "request.toProto(ctx)".to_string(),
            output_proto_type: None,
            output_from_proto: None,
            output_returns_pointer: false,
            resource_return: None,
        },
        &go_context(),
        &go::FutureAdapter {
            before: "<".to_string(),
            after: ">".to_string(),
        },
    );
    assert_eq!(
        output,
        "func Start(ctx workflow.Context, request StartRequest) workflow.Future {\n\
         \trequestProto, err := request.toProto(ctx)\n\
         \tif err != nil {\n\
         \t\tresult, resultSettable := workflow.NewFuture(ctx)\n\
         \t\tresultSettable.SetError(err)\n\
         \t\treturn result\n\
         \t}\n\
         \tc := workflow.NewNexusClient(\"e\", \"S\")\n\
         \tfut := c.ExecuteOperation(ctx, \"Start\\\"Op\", requestProto, \
         workflow.NexusOperationOptions{})\n\
         \treturn fut\n\
         }\n"
    );
}

#[test]
fn go_resource_is_made_of_the_request_and_the_result() {
    let resource_field = |name: &str, optional: bool| go::PlannedResourceField {
        name: name.to_string(),
        optional,
        kind: go::PlannedFieldKind::Singular(go::PlannedValueType::Scalar(
            go::PlannedScalarType::String,
        )),
        internal_type: if optional { "*string" } else { "string" }.to_string(),
        puns_zero: optional,
    };
    let resource = go::PlannedResource {
        class_name: "Handle".to_string(),
        fields: vec![resource_field("run-id", false), resource_field("name", true)],
    };
    let made = go::build_rendered_resource_return(
        "Service",
        &go::PlannedOperationResourceReturn {
            resource_class: "Handle".to_string(),
            bindings: vec![
                go::PlannedResourceBinding {
                    field_name: "run-id".to_string(),
                    source: go::ResolvedResourceBindingSource::ResultField {
                        proto_field_name: "run_id".to_string(),
                    },
                },
                go::PlannedResourceBinding {
                    field_name: "name".to_string(),
                    source: go::ResolvedResourceBindingSource::RequestField {
                        field_name: "name".to_string(),
                        proto_field_name: "name".to_string(),
                        hidden: false,
                    },
                },
            ],
        },
        &resource,
        &mut GoImportCollector::new(),
    )
    .unwrap();
    assert_eq!(
        made.field_initializers,
        ["result.GetRunId()", "nameConstructorValue"]
    );
    assert_eq!(
        made.local_lines,
        [
            "var nameConstructorValue string",
            "if request.Name != nil {",
            "\tnameConstructorValue = *request.Name",
            "}"
        ]
    );
    let error = go::build_rendered_resource_return(
        "Service",
        &go::PlannedOperationResourceReturn {
            resource_class: "Handle".to_string(),
            bindings: vec![go::PlannedResourceBinding {
                field_name: "missing".to_string(),
                source: go::ResolvedResourceBindingSource::ResultField {
                    proto_field_name: "missing".to_string(),
                },
            }],
        },
        &resource,
        &mut GoImportCollector::new(),
    )
    .unwrap_err();
    let Error::InvalidResource {
        service,
        resource,
        reason,
    } = error
    else {
        panic!("expected an invalid resource");
    };
    assert_eq!(service, "Service");
    assert_eq!(resource, "Handle");
    assert_eq!(
        reason,
        "resource-returning operation references unknown field `missing`"
    );
}

#[test]
fn records_with_oneofs_or_generic_carriers_are_refused() {
    let mut choice = field("choice", PlannedType::Variant("tasks.choice".to_string()));
    choice.wire_binding = Some(PlannedWireFieldBinding::VariantMembers {
        wire_name: "kind".to_string(),
        members: Vec::new(),
    });
    let refused = record(vec![choice]);
    let error = validate_record_conversion(Language::Go, &refused).unwrap_err();
    let Error::UnsupportedProtoOneofConversion {
        language,
        message,
        oneof,
    } = error
    else {
        panic!("expected an unsupported oneof");
    };
    assert_eq!(language, Language::Go);
    assert_eq!(message, "temporal.api.common.v1.Task");
    assert_eq!(oneof, "kind");

    let mut omitted = refused;
    omitted.fields[0].visibility = RecordFieldVisibility::Omitted;
    assert!(validate_record_conversion(Language::Go, &omitted).is_ok());

    let mut generic = field("input", PlannedType::TypeParameter("T".to_string()));
    generic.wire_binding = Some(PlannedWireFieldBinding::Value {
        wire_type: payload("Payloads"),
    });
    let error = typescript::prepare(&vec![record(vec![generic])]).unwrap_err();
    let Error::UnsupportedProtoGenericCarrierConversion {
        language, field, ..
    } = error
    else {
        panic!("expected an unsupported generic carrier");
    };
    assert_eq!(language, Language::TypeScript);
    assert_eq!(field, "input");
}

#[test]
fn typescript_functions_convert_a_model() {
    let mut output = String::new();
    let rendered = typescript::render_model_wire_functions(
        &mut output,
        &typescript::RenderedModel {
            name: "Task".to_string(),
            type_parameters: String::new(),
            type_arguments: String::new(),
            wire_function_names: Some(typescript::WireFunctionNames {
                from_wire: "taskFromProto".to_string(),
                to_wire: "taskToProto".to_string(),
            }),
            fields: vec![typescript::RenderedField {
                name: "name".to_string(),
                wire_name: "taskName".to_string(),
                to_wire_expr: "model.name".to_string(),
                from_wire_expr: "{wire}.taskName".to_string(),
                flattened_fields: Vec::new(),
            }],
            sourced_fields: vec![typescript::SourcedField {
                name: "source".to_string(),
                to_wire_expr: "here()".to_string(),
            }],
        },
        &record(Vec::new()),
    );
    assert!(rendered);
    assert_eq!(
        output,
        r#"export function taskFromProto(
  proto: temporal.api.common.v1.ITask | null | undefined,
): Task | undefined {
  if (proto == null) {
    return undefined;
  }
  return {
    name: proto.taskName,
  };
}

export function taskToProto(
  model: Task | null | undefined,
): temporal.api.common.v1.ITask | undefined {
  if (model == null) {
    return undefined;
  }
  return {
    taskName: model.name,
    source: here(),
  };
}

export const taskTransferTypeConverter = {
  fromTransferType(value: temporal.api.common.v1.ITask): Task {
    return taskFromProto(value)!;
  },

  toTransferType(value: Task): temporal.api.common.v1.ITask {
    return taskToProto(value) ?? {};
  },
};"#
    );
}

#[test]
fn typescript_names_follow_the_descriptor() {
    assert_eq!(
        typescript::message_typescript_interface_ref(&proto(
            "temporal.api.common.v1.Task.Kind",
            None
        )),
        "temporal.api.common.v1.Task.IKind"
    );
    assert_eq!(
        typescript::typescript_default_from_proto_name("a.b.RetryPolicy"),
        "retryPolicyFromProto"
    );
    let enumeration = PlannedType::Enum(PlannedProtoEnum {
        name: "Policy".to_string(),
        proto: proto("temporal.api.common.v1.Policy", None),
        replacement: Some(TypeReplacementSpec {
            annotation: strings(Some("common.Policy")),
            from_proto: strings(None),
            to_proto: strings(Some("encodePolicy")),
        }),
    });
    let conversion = typescript::enum_wire_conversion(&enumeration).unwrap();
    assert_eq!(conversion.annotation, "common.Policy");
    assert_eq!(conversion.from_wire, "policyFromProto({wire})");
    assert_eq!(conversion.to_wire, "encodePolicy({value})");
    assert!(typescript::enum_wire_conversion(&PlannedType::Bool).is_none());
}

fn resolved(annotation: &str, kind: python::ResolvedFieldKind) -> python::ResolvedFieldType {
    python::ResolvedFieldType {
        annotation: annotation.to_string(),
        imports: python::PythonImports::new(),
        kind,
        wire_conversion: None,
    }
}

#[test]
fn python_modules_follow_the_descriptor() {
    let path = |file: Option<&str>, package: &str| {
        python::python_module_path_for_file_name(&file.map(str::to_string), package)
    };
    assert_eq!(
        path(Some("temporal/api/common/v1/message.proto"), "x").as_deref(),
        Some("temporalio.api.common.v1.message_pb2")
    );
    assert_eq!(
        path(Some("acme/task.txt"), "x").as_deref(),
        Some("acme.task.txt")
    );
    assert_eq!(
        path(None, "temporal.api").as_deref(),
        Some("temporalio.api")
    );
    assert_eq!(path(None, "acme").as_deref(), Some("acme"));
    assert_eq!(path(None, ""), None);
    let reference =
        python::enum_python_ref(&proto("temporal.api.common.v1.Policy", None)).unwrap();
    assert_eq!(
        reference.type_ref,
        "temporalio.api.common.v1.message_pb2.Policy.ValueType"
    );
}

#[test]
fn python_type_hints_name_the_runtime_arguments() {
    let arguments = vec![python::TypeArgument {
        parameter: "InputT".to_string(),
        argument: "input_type".to_string(),
    }];
    assert_eq!(
        python::concrete_type_hint("dict[str, InputT]", &arguments),
        "dict[str, input_type]"
    );
    assert_eq!(
        python::concrete_type_hint("MyInputT | None", &arguments),
        "MyInputT | None"
    );
}

#[test]
fn python_type_variables_are_distinct() {
    let rendered = |attr_name: &str| python::RenderedField {
        attr_name: attr_name.to_string(),
        wire_value_type: resolved("str", python::ResolvedFieldKind::Scalar),
        default_kind: python::PythonFieldDefaultKind::Missing,
    };
    let arguments = python::runtime_type_arguments(&python::RenderedModel {
        name: "Model".to_string(),
        type_parameters: ["InputT", "Input", "T"].map(str::to_string).to_vec(),
        fields: vec![rendered("t_type")],
    });
    let names: Vec<&str> = arguments
        .iter()
        .map(|argument| argument.argument.as_str())
        .collect();
    assert_eq!(names, ["input_type", "input_type_2", "t_type_2"]);
}

#[test]
fn python_converter_reads_and_writes_each_field() {
    let mut name = field("task_name", PlannedType::String);
    name.required = true;
    name.has_presence = Some(false);
    let mut tags = field("tags", PlannedType::List(Box::new(PlannedType::String)));
    tags.has_presence = Some(false);
    let note = field("note", PlannedType::Optional(Box::new(PlannedType::String)));
    let scalar = || resolved("str", python::ResolvedFieldKind::Scalar);
    let block = python::render_record_wire_block(
        &Vec::new(),
        &python::RenderedModel {
            name: "Task".to_string(),
            type_parameters: Vec::new(),
            fields: vec![
                python::RenderedField {
                    attr_name: "name".to_string(),
                    wire_value_type: scalar(),
                    default_kind: python::PythonFieldDefaultKind::Required,
                },
                python::RenderedField {
                    attr_name: "tags".to_string(),
                    wire_value_type: scalar(),
                    default_kind: python::PythonFieldDefaultKind::EmptyList,
                },
                python::RenderedField {
                    attr_name: "note".to_string(),
                    wire_value_type: scalar(),
                    default_kind: python::PythonFieldDefaultKind::Missing,
                },
            ],
        },
        &record(vec![name, tags, note]),
    )
    .unwrap()
    .unwrap();
    assert_eq!(
        block.imports.module_imports,
        ["temporalio.api.common.v1.message_pb2", "temporalio.converter"]
    );
    assert_eq!(
        block.decorator.as_deref(),
        Some("@temporalio.converter.transfer_type_convertible(_TaskTransferTypeConverter)")
    );
    assert!(block.class_body_lines.is_empty());
    assert_eq!(
        block.pre_class_lines.join("\n"),
        r#"class _TaskTransferTypeConverter(temporalio.converter.TransferTypeConverter["Task", temporalio.api.common.v1.message_pb2.Task]):
    transfer_type: type[temporalio.api.common.v1.message_pb2.Task] | None = temporalio.api.common.v1.message_pb2.Task


    @typing_extensions.override
    def from_transfer_type(
        self,
        value: temporalio.api.common.v1.message_pb2.Task,
        type_hint: type["Task"],
    ) -> "Task":
        if not value.task_name:
            raise ValueError("missing required field Task.name")
        name = value.task_name
        return Task(
            name=name,
            tags=list(value.tags),
            note=value.note if value.HasField("note") else None,
        )


    @typing_extensions.override
    def to_transfer_type(
        self,
        value: "Task",
    ) -> temporalio.api.common.v1.message_pb2.Task:
        message = temporalio.api.common.v1.message_pb2.Task()
        message.task_name = value.name
        if value.tags:
            message.tags.extend(value.tags)
        if value.note is not None:
            message.note = value.note
        return message"#
    );
}

#[test]
fn python_oneof_is_read_and_written_case_by_case() {
    let oneof = python::ProtoOneof {
        name: "kind".to_string(),
        cases: vec![
            python::ProtoOneofCase {
                class_name: "KindText".to_string(),
                proto_name: "text".to_string(),
                payload_type: resolved("str", python::ResolvedFieldKind::Scalar),
                generic_carrier: None,
            },
            python::ProtoOneofCase {
                class_name: "KindInput".to_string(),
                proto_name: "input".to_string(),
                payload_type: resolved("InputT", python::ResolvedFieldKind::Other),
                generic_carrier: Some(python::ProtoGenericCarrier::Payloads),
            },
        ],
    };
    let arguments = vec![python::TypeArgument {
        parameter: "InputT".to_string(),
        argument: "input_type".to_string(),
    }];
    let read = python::oneof_field_read("Task", "kind", &oneof, &arguments, false);
    assert_eq!(read.expr, "_oneof_kind");
    assert_eq!(
        read.setup_lines.join("\n"),
        r#"_oneof_kind_case = value.WhichOneof("kind")
if _oneof_kind_case is None:
    _oneof_kind = None
elif _oneof_kind_case == "text":
    _oneof_kind = KindText(value.text)
elif _oneof_kind_case == "input":
    _oneof_kind = KindInput(payloads_from_proto(value.input, [input_type])[0])
else:
    raise ValueError(f"unknown protobuf oneof case Task.kind: {_oneof_kind_case}")"#
    );
    let write = python::oneof_field_write("Task", "kind", &oneof, "value.kind", true, false);
    assert_eq!(
        write.join("\n"),
        r#"if value.kind is None:
    raise ValueError("missing required field Task.kind")
_oneof_kind_value = typing.cast(typing.Any, value.kind)
if isinstance(_oneof_kind_value, KindText):
    message.text = _oneof_kind_value.value
elif isinstance(_oneof_kind_value, KindInput):
    message.input.CopyFrom(payloads_to_proto([_oneof_kind_value.value]))
else:
    raise TypeError(f"unsupported variant case Task.kind: {_oneof_kind_value!r}")"#
    );
}

#[test]
fn python_oneof_needs_a_payload_for_every_member() {
    let choice = field("choice", PlannedType::Variant("tasks.choice".to_string()));
    let members = vec![PlannedWireVariantMember {
        wire_name: "text".to_string(),
        wire_type: PlannedType::String,
    }];
    let variant = |cases: Vec<python::PlannedVariantCase>| {
        vec![python::PlannedVariant {
            full_name: "tasks.choice".to_string(),
            name: "Choice".to_string(),
            cases,
        }]
    };
    let reason = |result: Result<python::ProtoOneof, Error>| {
        let Error::InvalidTypeOverrideField {
            message,
            field,
            property,
            reason,
        } = result.unwrap_err()
        else {
            panic!("expected an invalid field");
        };
        assert_eq!((message.as_str(), field.as_str()), ("Message", "kind"));
        assert_eq!(property, "type");
        reason
    };
    let build = |variants: &Vec<python::PlannedVariant>, choice: &PlannedRecordField| {
        python::build_oneof(variants, "Message", choice, "kind", &members)
    };
    assert_eq!(
        reason(build(&Vec::new(), &field("choice", PlannedType::Bool))),
        "wire variant members do not resolve to a planned variant"
    );
    assert_eq!(
        reason(build(&Vec::new(), &choice)),
        "planned variant `tasks.choice` is unavailable"
    );
    assert_eq!(
        reason(build(&variant(Vec::new()), &choice)),
        "planned variant `Choice` is missing wire case `text`"
    );
    assert_eq!(
        reason(build(
            &variant(vec![python::PlannedVariantCase {
                name: "a-text".to_string(),
                wire_name: "text".to_string(),
                class_name: "ChoiceAText".to_string(),
                payload: None,
            }]),
            &choice
        )),
        "planned variant case `a-text` has no payload"
    );
}

#[test]
fn python_literals_are_quoted() {
    assert_eq!(
        python::python_string_literal("a\"b\\c\nd\u{1}"),
        "\"a\\\"b\\\\c\\nd\\u0001\""
    );
    assert_eq!(
        python::python_default_to_proto_name("a.b.RetryPolicy"),
        "retry_policy_to_proto"
    );
}
