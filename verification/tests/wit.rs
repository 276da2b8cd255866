//! WIT inputs and what is read from them.

use nexgen::error::Error;
use nexgen::language::Language;
use nexgen::plan::{LanguageStringSpec, LanguageText};
use nexgen::wit::api::{api_spec_from_wit, ApiSpec};
use nexgen::wit::declare::{
    ExternalTypeBindingSpec, RecordSpec, TypeDeclSpec, VariantSpec,
};
use nexgen::wit::directive::{directive, parse_directives};
use nexgen::wit::document::{
    WitCase, WitDocument, WitExport, WitField, WitFunction, WitFunctionKind, WitInterface, WitName,
    WitOwner, WitPackage, WitParam, WitType, WitTypeDef, WitTypeKind, WitWorld,
};
use nexgen::wit::function::FunctionFieldSpec;
use nexgen::wit::record::{FieldDefaultSpec, RecordFieldSpec, RecordFieldVisibility};
use nexgen::wit::resolve::FunctionArgsSpec;
use nexgen::wit::service::{OperationSpec, ResourceSpec, ServiceSpec};
use nexgen::wit::support::{assemble_support, collect_support_spec, PackageOrigin};
use nexgen::wit::types::{
    authored_field_type_for_language, same_type, AuthoredResourceType, DeclaredTypeName, TypeSpec,
};
use wit_parser::{
    FunctionKind, Handle, Resolve, Type, TypeDefKind, TypeOwner, WorldItem, WorldKey,
};

fn wit_type(ty: &Type) -> WitType {
    match ty {
        Type::Bool => WitType::Bool,
        Type::U8 | Type::U16 | Type::U32 | Type::U64 => WitType::Integer,
        Type::S8 | Type::S16 | Type::S32 | Type::S64 => WitType::Integer,
        Type::F32 | Type::F64 => WitType::Float,
        Type::Char | Type::String => WitType::Text,
        Type::ErrorContext => WitType::Unsupported,
        Type::Id(id) => WitType::Id(id.index()),
    }
}

fn wit_kind(kind: &TypeDefKind) -> WitTypeKind {
    match kind {
        TypeDefKind::Record(record) => WitTypeKind::Record(
            record
                .fields
                .iter()
                .map(|field| WitField {
                    name: field.name.clone(),
                    docs: field.docs.contents.clone(),
                    ty: wit_type(&field.ty),
                })
                .collect(),
        ),
        TypeDefKind::Resource => WitTypeKind::Resource,
        TypeDefKind::Handle(Handle::Own(id)) => WitTypeKind::Own(id.index()),
        TypeDefKind::Handle(Handle::Borrow(id)) => WitTypeKind::Borrow(id.index()),
        TypeDefKind::Flags(flags) => {
            WitTypeKind::Flags(flags.flags.iter().map(|flag| flag.name.clone()).collect())
        }
        TypeDefKind::Tuple(tuple) => WitTypeKind::Tuple(tuple.types.iter().map(wit_type).collect()),
        TypeDefKind::Variant(variant) => WitTypeKind::Variant(
            variant
                .cases
                .iter()
                .map(|case| WitCase {
                    name: case.name.clone(),
                    ty: case.ty.as_ref().map(wit_type),
                })
                .collect(),
        ),
        TypeDefKind::Enum(enumeration) => WitTypeKind::Enumeration(
            enumeration
                .cases
                .iter()
                .map(|case| case.name.clone())
                .collect(),
        ),
        TypeDefKind::Option(inner) => WitTypeKind::Optional(wit_type(inner)),
        TypeDefKind::Result(result) => WitTypeKind::Outcome(
            result.ok.as_ref().map(wit_type),
            result.err.as_ref().map(wit_type),
        ),
        TypeDefKind::List(inner) => WitTypeKind::List(wit_type(inner)),
        TypeDefKind::Map(key, value) => WitTypeKind::Mapping(wit_type(key), wit_type(value)),
        TypeDefKind::Type(next) => WitTypeKind::Alias(wit_type(next)),
        other => WitTypeKind::Other(other.as_str().to_string()),
    }
}

fn wit_function_kind(kind: &FunctionKind) -> WitFunctionKind {
    match kind {
        FunctionKind::Freestanding | FunctionKind::AsyncFreestanding => {
            WitFunctionKind::Freestanding
        }
        FunctionKind::Method(id) | FunctionKind::AsyncMethod(id) => {
            WitFunctionKind::Method(id.index())
        }
        FunctionKind::Static(id) | FunctionKind::AsyncStatic(id) => {
            WitFunctionKind::Static(id.index())
        }
        FunctionKind::Constructor(id) => WitFunctionKind::Constructor(id.index()),
        _ => WitFunctionKind::Other,
    }
}

fn wit_document(resolve: &Resolve) -> WitDocument {
    WitDocument {
        types: resolve
            .types
            .iter()
            .map(|(_, type_def)| WitTypeDef {
                name: type_def.name.clone(),
                docs: type_def.docs.contents.clone(),
                owner: match type_def.owner {
                    TypeOwner::Interface(id) => WitOwner::Interface(id.index()),
                    TypeOwner::World(id) => WitOwner::World(id.index()),
                    TypeOwner::None => WitOwner::Unowned,
                },
                kind: wit_kind(&type_def.kind),
            })
            .collect(),
        interfaces: resolve
            .interfaces
            .iter()
            .map(|(_, interface)| WitInterface {
                name: interface.name.clone(),
                docs: interface.docs.contents.clone(),
                types: interface
                    .types
                    .iter()
                    .map(|(name, id)| WitName {
                        name: name.clone(),
                        id: id.index(),
                    })
                    .collect(),
                functions: interface
                    .functions
                    .values()
                    .map(|function| WitFunction {
                        name: function.name.clone(),
                        docs: function.docs.contents.clone(),
                        kind: wit_function_kind(&function.kind),
                        params: function
                            .params
                            .iter()
                            .map(|param| WitParam {
                                name: param.name.clone(),
                                ty: wit_type(&param.ty),
                            })
                            .collect(),
                        result: function.result.as_ref().map(wit_type),
                    })
                    .collect(),
            })
            .collect(),
        worlds: resolve
            .worlds
            .iter()
            .map(|(_, world)| WitWorld {
                name: world.name.clone(),
                docs: world.docs.contents.clone(),
                exports: world
                    .exports
                    .iter()
                    .filter_map(|(key, item)| match item {
                        WorldItem::Interface { id, .. } => Some(WitExport {
                            name: match key {
                                WorldKey::Name(name) => Some(name.clone()),
                                WorldKey::Interface(_) => None,
                            },
                            interface: id.index(),
                        }),
                        _ => None,
                    })
                    .collect(),
            })
            .collect(),
        packages: resolve
            .packages
            .iter()
            .map(|(_, package)| WitPackage {
                namespace: package.name.namespace.clone(),
                name: package.name.name.clone(),
                version: package.name.version.as_ref().map(|version| version.to_string()),
                docs: package.docs.contents.clone(),
                worlds: package
                    .worlds
                    .iter()
                    .map(|(name, id)| WitName {
                        name: name.clone(),
                        id: id.index(),
                    })
                    .collect(),
                interfaces: package.interfaces.values().map(|id| id.index()).collect(),
            })
            .collect(),
    }
}

const TEMPORAL_TYPES: &str = r#"
/// @nexus.support
///   python="python/temporal_model_converters.py"
///   typescript="typescript/temporal_model_converters.ts"
///   dotnet="dotnet/TemporalModelConverters.cs"
/// @nexus.support-namespace dotnet="Nexgen.Support"
package nexus:temporal-types@1.0.0;

interface model {
  type placeholder = string;

  enum workflow-id-reuse-policy {
    allow-duplicate,
    allow-duplicate-failed-only,
    reject-duplicate,
  }

  /// @nexus.proto "temporal.api.common.v1.RetryPolicy"
  record retry-policy {
    maximum-attempts: option<s32>,
  }

  /// @nexus.proto "temporal.api.taskqueue.v1.TaskQueue"
  record task-queue {
    name: string,
  }

  /// @nexus.proto "temporal.api.common.v1.Payloads"
  /// @nexus.type dotnet="object[]" dotnet-to="ProtoExtensions.ToPayloads"
  type payloads = list<string>;

  /// @nexus.proto "temporal.api.sdk.v1.UserMetadata"
  /// @nexus.flatten-in-api
  record user-metadata {
    summary: option<string>,
  }

  record workflow-type {
    name: string,
  }

  /// @nexus.function-args varargs=true
  workflow-call: func(args: payloads) -> string;

  /// @nexus.function-args varargs=true
  signal-call: func(signal-args: payloads) -> string;

  /// @nexus.function
  ///   primary=true
  ///   signature="workflow-call"
  ///   args-field="input"
  ///   alternate-type="workflow-type"
  ///   result-type-parameter="WorkflowResult"
  ///   dotnet-call-extractor="TemporalFunctionNames.ExtractCall"
  type workflow-function = string;

  /// @nexus.function
  ///   signature="signal-call"
  ///   args-field="signal-input"
  ///   alternate-type="string"
  ///   python-converter="signal_function_to_proto"
  ///   typescript-name-extractor="signalFunctionName"
  ///   dotnet-call-extractor="TemporalFunctionNames.ExtractCall"
  ///   typescript-value-type="workflow.SignalDefinition<any[]>"
  ///   typescript-args-type="any[]"
  type signal-function = string;
}
"#;

fn resolve_wit(wit: &str) -> Result<(WitDocument, usize), Error> {
    let mut resolve = Resolve::default();
    resolve
        .push_str("deps/nexus-temporal-types/model.wit", TEMPORAL_TYPES)
        .unwrap();
    let package = resolve
        .push_str("inline.wit", wit)
        .map_err(|error| Error::WitParse {
            path: "inline.wit".to_string(),
            message: format!("{error:#}"),
        })?;
    let document = wit_document(&resolve);
    assert!(document.is_well_formed());
    Ok((document, package.index()))
}

fn parse_result(language: Language, wit: &str) -> Result<ApiSpec, Error> {
    let (document, package) = resolve_wit(wit)?;
    let origins = vec![
        PackageOrigin {
            package: 0,
            path: "deps/nexus-temporal-types".to_string(),
        },
        PackageOrigin {
            package,
            path: ".".to_string(),
        },
    ];
    let plan = collect_support_spec(&document, package, &origins);
    if let Some(failure) = plan.failure {
        return Err(failure);
    }
    let contents: Vec<String> = plan
        .fragments
        .iter()
        .map(|fragment| match fragment.language {
            Language::Python => "def retry_policy_from_proto(value): ...".to_string(),
            Language::TypeScript => "export function retryPolicyFromProto(value) {}".to_string(),
            _ => String::new(),
        })
        .collect();
    let support = assemble_support(&plan.fragments, &contents);
    api_spec_from_wit(&document, package, support, "inline.wit", language)
}

fn parse(language: Language, wit: &str) -> ApiSpec {
    parse_result(language, wit).unwrap()
}

/// What the tests ask of a parsed input.
trait SpecQueries {
    fn record(&self, name: &str) -> Option<&RecordSpec>;
    fn variant(&self, name: &str) -> Option<&VariantSpec>;
    fn records(&self) -> Vec<&RecordSpec>;
    fn record_for_proto(&self, proto_name: &str) -> Option<&RecordSpec>;
    fn external_type_binding(&self, proto_name: &str) -> Option<&ExternalTypeBindingSpec>;
}

impl SpecQueries for ApiSpec {
    fn record(&self, name: &str) -> Option<&RecordSpec> {
        match &self.types.get(name)?.decl {
            TypeDeclSpec::Record(record) => Some(record),
            _ => None,
        }
    }

    fn variant(&self, name: &str) -> Option<&VariantSpec> {
        match &self.types.get(name)?.decl {
            TypeDeclSpec::Variant(variant) => Some(variant),
            _ => None,
        }
    }

    fn records(&self) -> Vec<&RecordSpec> {
        self.types
            .entries
            .iter()
            .filter_map(|entry| match &entry.decl {
                TypeDeclSpec::Record(record) => Some(record),
                _ => None,
            })
            .collect()
    }

    fn record_for_proto(&self, proto_name: &str) -> Option<&RecordSpec> {
        self.records()
            .into_iter()
            .find(|record| record.source_type.as_deref() == Some(proto_name))
    }

    fn external_type_binding(&self, proto_name: &str) -> Option<&ExternalTypeBindingSpec> {
        match &self.types.get(proto_name)?.decl {
            TypeDeclSpec::External(binding) => Some(binding),
            _ => None,
        }
    }
}

/// What the tests ask of a record.
trait RecordQueries {
    fn field(&self, name: &str) -> Option<&RecordFieldSpec>;
    fn field_required(&self, name: &str) -> bool;
    fn field_omitted(&self, name: &str) -> bool;
    fn field_default(&self, name: &str) -> Option<&FieldDefaultSpec>;
    fn field_name_override(&self, name: &str) -> Option<&str>;
    fn field_source(&self, name: &str) -> Option<&str>;
    fn field_doc(&self, name: &str) -> Option<&LanguageStringSpec>;
    fn field_type(&self, name: &str) -> Option<&TypeSpec>;
    fn function(&self, name: &str) -> Option<&FunctionFieldSpec>;
}

impl RecordQueries for RecordSpec {
    fn field(&self, name: &str) -> Option<&RecordFieldSpec> {
        self.fields.map.get(name)
    }

    fn field_required(&self, name: &str) -> bool {
        self.field(name).is_some_and(|field| field.required)
    }

    fn field_omitted(&self, name: &str) -> bool {
        self.field(name)
            .is_some_and(|field| matches!(field.visibility, RecordFieldVisibility::Omitted))
    }

    fn field_default(&self, name: &str) -> Option<&FieldDefaultSpec> {
        self.field(name)?.default_value.as_ref()
    }

    fn field_name_override(&self, name: &str) -> Option<&str> {
        Some(self.field(name)?.name.as_str())
    }

    fn field_source(&self, name: &str) -> Option<&str> {
        match &self.field(name)?.visibility {
            RecordFieldVisibility::Sourced { source_expr } => Some(source_expr.as_str()),
            _ => None,
        }
    }

    fn field_doc(&self, name: &str) -> Option<&LanguageStringSpec> {
        self.field(name)?.doc.as_ref()
    }

    fn field_type(&self, name: &str) -> Option<&TypeSpec> {
        Some(&self.field(name)?.field_type)
    }

    fn function(&self, name: &str) -> Option<&FunctionFieldSpec> {
        self.field(name)?.function.as_ref()
    }
}

/// What the tests ask of a service.
trait ServiceQueries {
    fn operation(&self, name: &str) -> Option<&OperationSpec>;
    fn resource(&self, name: &str) -> Option<&ResourceSpec>;
}

impl ServiceQueries for ServiceSpec {
    fn operation(&self, name: &str) -> Option<&OperationSpec> {
        self.operations
            .iter()
            .find(|operation| operation.name == name)
    }

    fn resource(&self, name: &str) -> Option<&ResourceSpec> {
        self.resources.iter().find(|resource| resource.name == name)
    }
}

/// What the tests ask of a type.
trait TypeQueries {
    fn reference(&self) -> Option<&str>;
    fn to_type_string(&self) -> String;
}

impl TypeQueries for TypeSpec {
    fn reference(&self) -> Option<&str> {
        match self {
            TypeSpec::Proto(name) | TypeSpec::Record(name) => Some(name.as_str()),
            _ => None,
        }
    }

    fn to_type_string(&self) -> String {
        match self {
            TypeSpec::Bool => "bool".to_string(),
            TypeSpec::Text => "string".to_string(),
            TypeSpec::Optional(inner) => format!("option<{}>", inner.to_type_string()),
            TypeSpec::List(inner) => format!("list<{}>", inner.to_type_string()),
            TypeSpec::Record(name) | TypeSpec::Proto(name) => name.clone(),
            other => format!("{other:?}"),
        }
    }
}

const GENERIC_WIT: &str = r#"
package temporal:nexus@1.0.0;

world system { export generic-service; }

interface generic-service {
  use nexus:temporal-types/model@1.0.0.{placeholder};

  /// @nexus.type-parameter
  type context-t = placeholder;

  /// @nexus.type-parameter
  type output-t = placeholder;

  record inner { value: context-t, }

  record request {
    nested: inner,
    values: list<context-t>,
  }

  record response {
    context: context-t,
    output: output-t,
  }

  complete: func(request: request) -> response;
}
"#;

#[test]
fn records_public_variant_tags_wire_names_and_operation_free_exports() {
    let spec = parse(
        Language::Python,
        r#"
package test:exports@1.0.0;
world system { export types; }
interface types {
  variant choice {
    some-value(string),
    %type(string),
  }
}
"#,
    );
    let variant = spec.variant("types.choice").expect("variant should parse");
    assert_eq!(variant.cases[0].name, "some-value");
    assert_eq!(variant.cases[0].wire_name, "some_value");
    assert_eq!(variant.cases[1].name, "type");
    assert_eq!(variant.cases[1].wire_name, "type");
    assert!(spec.types.get("types.choice").unwrap().is_module_export());

    let service = parse(
        Language::Python,
        r#"
package test:exports@1.0.0;
world system { export api; }
interface api {
  record request { value: string, }
  call: func(request: request);
}
"#,
    );
    assert!(
        service
            .types
            .entries
            .iter()
            .all(|entry| !entry.is_module_export())
    );
}

#[test]
fn parses_and_inferrs_generic_record_parameters_by_alias_identity() {
    let spec = parse(Language::TypeScript, GENERIC_WIT);
    let request = spec.record("generic-service.request").unwrap();
    let request_parameters =
        spec.record_type_parameters(&request.full_name, Language::TypeScript);
    assert_eq!(request_parameters.len(), 1);
    assert_eq!(request_parameters[0].name, "ContextT");
    assert_eq!(
        request_parameters[0].full_name,
        "generic-service.context-t"
    );

    let response = spec.record("generic-service.response").unwrap();
    let response_parameters =
        spec.record_type_parameters(&response.full_name, Language::TypeScript);
    assert_eq!(
        response_parameters
            .iter()
            .map(|usage| usage.name.as_str())
            .collect::<Vec<_>>(),
        ["ContextT", "OutputT"]
    );
}

#[test]
fn rejects_type_parameter_directive_on_records_and_fields() {
    let record = GENERIC_WIT.replace(
        "record inner { value: context-t, }",
        "/// @nexus.type-parameter\n  record inner { value: context-t, }",
    );
    assert!(parse_result(Language::Python, &record).is_err());

    let field = GENERIC_WIT.replace(
        "nested: inner,",
        "/// @nexus.type-parameter\n    nested: inner,",
    );
    assert!(parse_result(Language::Python, &field).is_err());
}

#[test]
fn rejects_generic_map_key_parameters() {
    let wit = GENERIC_WIT.replace(
        "/// @nexus.type-parameter\n  type output-t = placeholder;",
        "/// @nexus.type-parameter\n  type output-t = placeholder;\n\n  /// @nexus.type-parameter\n  type key-t = string;\n\n  type keyed-values = map<key-t, string>;",
    ).replace(
        "values: list<context-t>,",
        "values: list<context-t>,\n    by-key: keyed-values,",
    );
    assert!(parse_result(Language::Go, &wit).is_err());
}

#[test]
fn language_type_overrides_and_omitted_fields_do_not_infer_parameters() {
    let wit = GENERIC_WIT.replace(
        "record inner { value: context-t, }",
        r#"record inner { value: context-t, }

  record overridden {
    /// @nexus.type typescript="string"
    value: context-t,
    /// @nexus.omit
    hidden: output-t,
  }"#,
    );
    let typescript = parse(Language::TypeScript, &wit);
    assert!(
        typescript
            .record_type_parameters("generic-service.overridden", Language::TypeScript)
            .is_empty()
    );

    let python = parse(Language::Python, &wit);
    let parameters =
        python.record_type_parameters("generic-service.overridden", Language::Python);
    assert_eq!(parameters.len(), 1);
    assert_eq!(parameters[0].name, "ContextT");
}

#[test]
fn infers_type_parameters_through_nested_variants() {
    let variant = GENERIC_WIT
        .replace(
            "/// @nexus.type-parameter\n  type output-t = placeholder;",
            "/// @nexus.type-parameter\n  type output-t = placeholder;\n\n  /// @nexus.type-parameter\n  type key-t = string;",
        )
        .replace(
            "record inner { value: context-t, }",
            "variant inner-result { value(context-t), }\n\n  variant outer-result {\n    nested(inner-result),\n    keyed(map<string, key-t>),\n    output(output-t),\n  }\n\n  record inner { value: context-t, }",
        )
        .replace(
            "context: context-t,\n    output: output-t,",
            "result-value: outer-result,\n    repeated: context-t,",
        );
    let spec = parse(Language::Go, &variant);
    let inner = spec.variant_type_parameters("generic-service.inner-result", Language::Go);
    assert_eq!(inner[0].name, "ContextT");
    let outer = spec.variant_type_parameters("generic-service.outer-result", Language::Go);
    assert_eq!(
        outer
            .iter()
            .map(|usage| usage.name.as_str())
            .collect::<Vec<_>>(),
        ["ContextT", "KeyT", "OutputT"]
    );
    let response = spec.record_type_parameters("generic-service.response", Language::Go);
    assert_eq!(
        response
            .iter()
            .map(|usage| usage.name.as_str())
            .collect::<Vec<_>>(),
        ["ContextT", "KeyT", "OutputT"]
    );
}

#[test]
fn rejects_type_parameter_arguments_and_conflicting_directives() {
    let arguments = GENERIC_WIT.replace(
        "@nexus.type-parameter\n  type context-t",
        "@nexus.type-parameter name=\"T\"\n  type context-t",
    );
    assert!(parse_result(Language::Go, &arguments).is_err());

    let conflict = GENERIC_WIT.replace(
        "@nexus.type-parameter\n  type context-t",
        "@nexus.type-parameter\n  /// @nexus.type typescript=\"string\"\n  type context-t",
    );
    assert!(parse_result(Language::TypeScript, &conflict).is_err());
}

#[test]
fn parses_enum_field_defaults() {
    let wit = r#"
package temporal:nexus@1.0.0;

world system {
  export workflow-service;
}

interface workflow-service {
  use nexus:temporal-types/model@1.0.0.{workflow-id-reuse-policy};

  /// @nexus.proto "temporal.api.workflowservice.v1.SignalWithStartWorkflowExecutionRequest"
  record request {
    /// @nexus.proto-field "workflow_id_reuse_policy"
    /// @nexus.default "allow-duplicate"
    id-reuse-policy: workflow-id-reuse-policy,
  }
}
"#;

    let spec = parse(Language::Python, wit);
    let request = spec
        .record_for_proto(
            "temporal.api.workflowservice.v1.SignalWithStartWorkflowExecutionRequest",
        )
        .unwrap();
    assert!(!request.field_required("workflow_id_reuse_policy"));
    assert_eq!(
        request
            .field_default("workflow_id_reuse_policy")
            .map(|default| default.enum_value),
        Some(0)
    );
}

#[test]
fn rejects_unknown_enum_field_default() {
    let wit = r#"
package temporal:nexus@1.0.0;

world system {
  export workflow-service;
}

interface workflow-service {
  use nexus:temporal-types/model@1.0.0.{workflow-id-reuse-policy};

  /// @nexus.proto "temporal.api.workflowservice.v1.SignalWithStartWorkflowExecutionRequest"
  record request {
    /// @nexus.proto-field "workflow_id_reuse_policy"
    /// @nexus.default "missing-case"
    id-reuse-policy: workflow-id-reuse-policy,
  }
}
"#;

    let error = parse_result(Language::Python, wit).unwrap_err();
    assert!(
        error.message()
            .contains("unknown enum case `missing-case`")
    );
}

#[test]
fn rejects_non_enum_field_default() {
    let wit = r#"
package temporal:nexus@1.0.0;

world system {
  export workflow-service;
}

interface workflow-service {
  /// @nexus.proto "temporal.api.workflowservice.v1.SignalWithStartWorkflowExecutionRequest"
  record request {
    /// @nexus.proto-field "request_id"
    /// @nexus.default "request-id"
    request-id: string,
  }
}
"#;

    let error = parse_result(Language::Python, wit).unwrap_err();
    assert!(
        error.message()
            .contains("only enum field defaults are supported")
    );
}

#[test]
fn ignores_language_specific_source_for_other_languages() {
    let wit = r#"
package temporal:nexus@1.0.0;

world system {
  export workflow-service;
}

interface workflow-service {
  use nexus:temporal-types/model@1.0.0.{workflow-id-reuse-policy};

  /// @nexus.proto "temporal.api.workflowservice.v1.SignalWithStartWorkflowExecutionRequest"
  record request {
    /// @nexus.proto-field "workflow_id_reuse_policy"
    /// @nexus.default "allow-duplicate"
    /// @nexus.source go="workflowIDReusePolicy(ctx)"
    id-reuse-policy: workflow-id-reuse-policy,
  }
}
"#;

    let go = parse_result(Language::Go, wit).unwrap();
    let go_record = go
        .records()
        .into_iter()
        .find(|record| record.name == "Request")
        .unwrap();
    assert!(matches!(
        go_record.fields.map["workflow_id_reuse_policy"].visibility,
        RecordFieldVisibility::Sourced { ref source_expr } if source_expr == "workflowIDReusePolicy(ctx)"
    ));

    let python = parse_result(Language::Python, wit).unwrap();
    let python_record = python
        .records()
        .into_iter()
        .find(|record| record.name == "Request")
        .unwrap();
    let field = &python_record.fields.map["workflow_id_reuse_policy"];
    assert!(matches!(
        field.visibility,
        RecordFieldVisibility::Public
    ));
    assert_eq!(
        field.default_value.as_ref().unwrap().enum_case,
        "allow-duplicate"
    );
}

#[test]
fn parses_wit_into_selected_language_spec() {
    let wit = r#"
package temporal:nexus@1.0.0;

world system {
  export workflow-service;
}

/// @nexus.endpoint "__temporal_system"
/// @nexus.service-name "temporal.api.workflowservice.v1.WorkflowService"
interface workflow-service {
  use nexus:temporal-types/model@1.0.0.{placeholder, retry-policy, signal-function, workflow-function};

  /// @nexus.proto "temporal.api.workflowservice.v1.SignalWithStartWorkflowExecutionRequest"
  record signal-with-start-workflow-request {
    /// @nexus.proto-field "workflow_type"
    workflow: workflow-function,
    workflow-id: string,
    task-queue: string,
    /// @nexus.proto-field "signal_name"
    signal: signal-function,
    /// @nexus.name go="WorkflowExecutionTimeout"
    workflow-execution-timeout: placeholder,
    /// @nexus.source "workflow_namespace"
    namespace: option<string>,
    /// @nexus.omit
    header: placeholder,
    /// @nexus.omit
    time-skipping-config: placeholder,
  }

  /// @nexus.proto "temporal.api.workflowservice.v1.SignalWithStartWorkflowExecutionResponse"
  record signal-with-start-workflow-response {
    run-id: option<string>,
    started: option<bool>,
    /// @nexus.omit
    signal-link: placeholder,
  }

  /// @nexus.output-transform
  ///   python-type="temporalio.workflow.ExternalWorkflowHandle[WorkflowResult]"
  ///   python="temporalio.workflow.get_external_workflow_handle(request.workflow_id, run_id=result.run_id)"
  ///   typescript-type="workflow.ExternalWorkflowHandle"
  ///   typescript="workflow.getExternalWorkflowHandle(request.workflowId, result.runId ?? undefined)"
  ///   typescript-import="@temporalio/workflow"
  signal-with-start-workflow-execution: func(
    request: signal-with-start-workflow-request
  ) -> signal-with-start-workflow-response;
}
"#;

    let python = parse(Language::Python, wit);
    let typescript = parse(Language::TypeScript, wit);
    let dotnet = parse(Language::Dotnet, wit);
    let go = parse(Language::Go, wit);
    assert_eq!(python.services[0].name, "WorkflowService");
    assert_eq!(
        python.services[0].wire_name,
        "temporal.api.workflowservice.v1.WorkflowService"
    );
    assert_eq!(
        typescript.services[0].wire_name,
        "temporal.api.workflowservice.v1.WorkflowService"
    );
    let python_support = python.support.fragments_for_language(Language::Python);
    let typescript_support = typescript
        .support
        .fragments_for_language(Language::TypeScript);
    let dotnet_support = dotnet.support.fragments_for_language(Language::Dotnet);
    assert_eq!(python_support.len(), 1);
    assert_eq!(typescript_support.len(), 1);
    assert_eq!(dotnet_support.len(), 1);
    assert!(
        python_support[0]
            .path
            .ends_with("deps/nexus-temporal-types/python/temporal_model_converters.py")
    );
    assert!(
        typescript_support[0]
            .path
            .ends_with("deps/nexus-temporal-types/typescript/temporal_model_converters.ts")
    );
    assert!(
        python_support[0]
            .contents
            .contains("def retry_policy_from_proto(")
    );
    assert!(
        typescript_support[0]
            .contents
            .contains("export function retryPolicyFromProto(")
    );
    assert_eq!(
        dotnet_support[0].namespace.as_deref(),
        Some("Nexgen.Support")
    );
    assert!(
        python
            .external_type_binding("temporal.api.common.v1.Payloads")
            .unwrap()
            .replacement
            .is_none()
    );
    assert_eq!(
        dotnet
            .external_type_binding("temporal.api.common.v1.Payloads")
            .unwrap()
            .replacement
            .as_ref()
            .and_then(|replacement| replacement.to_proto.for_language(Language::Dotnet))
            .as_deref(),
        Some("ProtoExtensions.ToPayloads")
    );

    let request = python
        .record_for_proto(
            "temporal.api.workflowservice.v1.SignalWithStartWorkflowExecutionRequest",
        )
        .unwrap();
    assert_eq!(
        python.services[0].operations[0]
            .input
            .as_ref()
            .and_then(|t| t.reference()),
        Some("temporal.api.workflowservice.v1.SignalWithStartWorkflowExecutionRequest")
    );
    assert_eq!(
        python.services[0].operations[0]
            .output
            .as_ref()
            .and_then(|t| t.reference()),
        Some("temporal.api.workflowservice.v1.SignalWithStartWorkflowExecutionResponse")
    );
    assert!(request.field_required("workflow_type"));
    assert!(request.field_omitted("header"));
    let model = request;
    assert!(model.field_source("header").is_none());
    assert_eq!(model.field_name_override("workflow_type"), Some("workflow"));
    assert_eq!(
        model.field_name_override("workflow_execution_timeout"),
        Some("workflow-execution-timeout")
    );
    assert_eq!(
        go.record_for_proto(
            "temporal.api.workflowservice.v1.SignalWithStartWorkflowExecutionRequest",
        )
        .unwrap()
        .field_name_override("workflow_execution_timeout"),
        Some("WorkflowExecutionTimeout")
    );
    assert_eq!(model.field_name_override("input"), Some("args"));
    assert_eq!(
        model.field_name_override("workflow_id"),
        Some("workflow-id")
    );
    assert!(model.function("workflow_type").unwrap().primary);
    assert_eq!(model.function("workflow_type").unwrap().converter, None);
    assert_eq!(model.function("workflow_type").unwrap().args_field, "input");
    assert_eq!(
        model
            .function("workflow_type")
            .unwrap()
            .result_type_parameter
            .as_deref(),
        Some("WorkflowResult")
    );
    assert_eq!(
        model
            .function("workflow_type")
            .unwrap()
            .alternate_type
            .as_ref()
            .unwrap()
            .to_type_string(),
        "model.workflow-type"
    );
    assert_eq!(
        model.function("signal_name").unwrap().converter.as_deref(),
        Some("signal_function_to_proto")
    );
    assert_eq!(
        model
            .function("signal_name")
            .unwrap()
            .alternate_type
            .as_ref()
            .unwrap()
            .to_type_string(),
        "string"
    );
    assert_eq!(model.field_source("namespace"), Some("workflow_namespace"));

    let dotnet_model = dotnet
        .record_for_proto(
            "temporal.api.workflowservice.v1.SignalWithStartWorkflowExecutionRequest",
        )
        .unwrap();
    assert_eq!(
        dotnet_model
            .function("workflow_type")
            .unwrap()
            .call_extractor
            .as_deref(),
        Some("TemporalFunctionNames.ExtractCall")
    );
    assert_eq!(
        dotnet_model
            .function("signal_name")
            .unwrap()
            .call_extractor
            .as_deref(),
        Some("TemporalFunctionNames.ExtractCall")
    );

    let typescript_model = typescript
        .record_for_proto(
            "temporal.api.workflowservice.v1.SignalWithStartWorkflowExecutionRequest",
        )
        .unwrap();
    assert!(
        python
            .record_for_proto("temporal.api.sdk.v1.UserMetadata")
            .unwrap()
            .flatten_in_api
    );
    assert!(typescript_model.function("workflow_type").is_some());
    assert!(typescript_model.function("signal_name").is_some());
    assert_eq!(
        typescript_model
            .function("workflow_type")
            .unwrap()
            .converter,
        None
    );
    assert_eq!(
        typescript_model
            .function("signal_name")
            .unwrap()
            .converter
            .as_deref(),
        None
    );
    assert_eq!(
        typescript_model
            .function("signal_name")
            .unwrap()
            .name_extractor
            .as_deref(),
        Some("signalFunctionName")
    );
    assert_eq!(
        typescript_model
            .function("signal_name")
            .unwrap()
            .type_descriptor
            .as_ref()
            .and_then(|descriptor| descriptor.value_type.for_language(Language::TypeScript))
            .as_deref(),
        Some("workflow.SignalDefinition<any[]>")
    );
}

#[test]
fn accepts_language_specific_source_helpers() {
    let wit = r#"
package temporal:nexus@1.0.0;

world system {
  export workflow-service;
}

interface workflow-service {
  /// @nexus.proto "temporal.api.workflowservice.v1.SignalWithStartWorkflowExecutionRequest"
  record request {
    /// @nexus.source python="workflow_namespace" typescript="workflowNamespace" dotnet="TemporalWorkflowContext.WorkflowNamespace"
    namespace: option<string>,
  }

  request-op: func(request: request) -> request;
}
"#;

    let python = parse_result(Language::Python, wit).unwrap();
    let typescript = parse_result(Language::TypeScript, wit).unwrap();
    let dotnet = parse_result(Language::Dotnet, wit).unwrap();
    assert_eq!(
        python
            .record_for_proto(
                "temporal.api.workflowservice.v1.SignalWithStartWorkflowExecutionRequest"
            )
            .unwrap()
            .field_source("namespace"),
        Some("workflow_namespace")
    );
    assert_eq!(
        typescript
            .record_for_proto(
                "temporal.api.workflowservice.v1.SignalWithStartWorkflowExecutionRequest"
            )
            .unwrap()
            .field_source("namespace"),
        Some("workflowNamespace")
    );
    assert_eq!(
        dotnet
            .record_for_proto(
                "temporal.api.workflowservice.v1.SignalWithStartWorkflowExecutionRequest"
            )
            .unwrap()
            .field_source("namespace"),
        Some("TemporalWorkflowContext.WorkflowNamespace")
    );
}

#[test]
fn parses_language_specific_api_docs() {
    let wit = r#"
package temporal:nexus@1.0.0;

world system {
  export workflow-service;
}

interface workflow-service {
  /// @nexus.proto "temporal.api.workflowservice.v1.SignalWithStartWorkflowExecutionRequest"
  record request {
    /// @nexus.doc "Default field doc" python="Python field doc" typescript="TypeScript field doc"
    id: string,
  }

  /// @nexus.doc
  ///   "Default operation doc"
  ///   python="Python operation doc"
  ///   typescript="TypeScript operation doc"
  ///   returns="Default return doc"
  ///   python-returns="Python return doc"
  ///   typescript-returns="TypeScript return doc"
  request-op: func(request: request) -> request;
}
"#;

    let python = parse(Language::Python, wit);
    let typescript = parse(Language::TypeScript, wit);
    assert_eq!(
        python.services[0]
            .operation("RequestOp")
            .unwrap()
            .doc
            .for_language(Language::Python).as_deref(),
        Some("Python operation doc")
    );
    assert_eq!(
        python.services[0]
            .operation("RequestOp")
            .unwrap()
            .return_doc
            .for_language(Language::Python).as_deref(),
        Some("Python return doc")
    );
    assert_eq!(
        typescript.services[0]
            .operation("RequestOp")
            .unwrap()
            .doc
            .for_language(Language::TypeScript).as_deref(),
        Some("TypeScript operation doc")
    );
    assert_eq!(
        typescript.services[0]
            .operation("RequestOp")
            .unwrap()
            .return_doc
            .for_language(Language::TypeScript).as_deref(),
        Some("TypeScript return doc")
    );
    assert_eq!(
        python
            .record_for_proto(
                "temporal.api.workflowservice.v1.SignalWithStartWorkflowExecutionRequest"
            )
            .unwrap()
            .field_doc("id")
            .and_then(|doc| doc.for_language(Language::Python))
            .as_deref(),
        Some("Python field doc")
    );
}

#[test]
fn parses_experimental_annotations() {
    let wit = r#"
package temporal:nexus@1.0.0;

world system {
  export workflow-service;
}

/// @nexus.endpoint "__temporal_system"
/// @nexus.experimental
interface workflow-service {
  /// @nexus.experimental
  /// @nexus.proto "temporal.api.workflowservice.v1.SignalWithStartWorkflowExecutionRequest"
  record request {
    id: string,
  }

  /// @nexus.experimental
  request-op: func(request: request) -> request;
}
"#;

    let spec = parse(Language::Python, wit);
    assert!(spec.services[0].experimental);
    assert!(
        spec.services[0]
            .operation("RequestOp")
            .unwrap()
            .experimental
    );
    assert!(
        spec.record_for_proto(
            "temporal.api.workflowservice.v1.SignalWithStartWorkflowExecutionRequest"
        )
        .unwrap()
        .experimental
    );
    assert!(
        spec.record("workflow-service.request")
            .unwrap()
            .experimental
    );
}

#[test]
fn operation_specs_use_single_input_and_output_types() {
    let wit = r#"
package temporal:users@1.0.0;

world system {
  export user-service;
}

/// @nexus.endpoint "__user_service"
interface user-service {
  resource user {
    get: func() -> user-result;
  }

  /// @nexus.proto "acme.users.v1.ProtoRequest"
  record proto-request {
  }

  record json-request {
  }

  /// @nexus.proto "acme.users.v1.UserResult"
  type user-result = own<user>;
  type user-input = own<user>;

  proto-to-resource: func(request: proto-request) -> user-result;
  json-echo: func(request: json-request) -> json-request;
  resource-input: func(request: user-input) -> json-request;
}
"#;

    let spec = parse_result(Language::Python, wit).unwrap();
    let service = &spec.services[0];
    assert_eq!(
        spec.record("user-service.proto-request")
            .unwrap()
            .source_type
            .as_deref(),
        Some("acme.users.v1.ProtoRequest")
    );
    assert_eq!(
        spec.record("user-service.json-request")
            .unwrap()
            .source_type
            .as_ref(),
        None
    );

    let proto_to_resource = service.operation("ProtoToResource").unwrap();
    assert!(same_type(
        proto_to_resource.input.as_ref().unwrap(),
        &TypeSpec::Proto("acme.users.v1.ProtoRequest".to_string())
    ));
    assert!(same_type(
        proto_to_resource.output.as_ref().unwrap(),
        &TypeSpec::Resource(AuthoredResourceType {
            name: "user".to_string(),
            wire_type: Some("acme.users.v1.UserResult".to_string()),
            alias: Some(DeclaredTypeName {
                name: "UserResult".to_string(),
                full_name: "user-service.user-result".to_string(),
            }),
        })
    ));
    assert!(same_type(
        &service.resource("user").unwrap().methods[0]
            .result
            .as_ref()
            .unwrap()
            .result_type,
        &TypeSpec::Resource(AuthoredResourceType {
            name: "user".to_string(),
            wire_type: None,
            alias: None,
        })
    ));

    let json_echo = service.operation("JsonEcho").unwrap();
    assert!(same_type(
        json_echo.input.as_ref().unwrap(),
        &TypeSpec::Record("user-service.json-request".to_string())
    ));
    assert!(same_type(
        json_echo.output.as_ref().unwrap(),
        &TypeSpec::Record("user-service.json-request".to_string())
    ));

    let resource_input = service.operation("ResourceInput").unwrap();
    assert!(same_type(
        resource_input.input.as_ref().unwrap(),
        &TypeSpec::Resource(AuthoredResourceType {
            name: "user".to_string(),
            wire_type: None,
            alias: Some(DeclaredTypeName {
                name: "UserInput".to_string(),
                full_name: "user-service.user-input".to_string(),
            }),
        })
    ));
}

#[test]
fn parses_delay_load_temporalio_workflow_annotation() {
    let wit = r#"
package temporal:nexus@1.0.0;

world system {
  export workflow-service;
}

/// @nexus.endpoint "__temporal_system"
/// @nexus.delay-load-temporalio-workflow
interface workflow-service {
  record request {
    id: string,
  }

  request-op: func(request: request) -> request;
}
"#;

    let spec = parse(Language::Python, wit);
    assert!(spec.services[0].delay_load_temporalio_workflow);
}

#[test]
fn rejects_experimental_annotation_arguments() {
    let wit = r#"
package temporal:nexus@1.0.0;

world system {
  export workflow-service;
}

/// @nexus.endpoint "__temporal_system"
/// @nexus.experimental reason="preview"
interface workflow-service {
  record request {
    id: string,
  }

  request-op: func(request: request) -> request;
}
"#;

    let error = parse_result(Language::Python, wit).unwrap_err();
    assert!(error.message().contains("@nexus.experimental"));
    assert!(error.message().contains("does not take arguments"));
}

#[test]
fn infers_python_sequence_annotation_for_wit_lists() {
    let wit = r#"
package temporal:nexus@1.0.0;

world system {
  export workflow-service;
}

/// @nexus.endpoint "__temporal_system"
interface workflow-service {
  resource started-workflow {
    get-result: func() -> list<string>;
  }
}
"#;

    let python = parse(Language::Python, wit);
    let resource = python.services[0].resource("started-workflow").unwrap();
    let method = resource
        .methods
        .iter()
        .find(|method| method.name == "get-result")
        .unwrap();
    assert_eq!(
        method.result.as_ref().unwrap().result_type.to_type_string(),
        "list<string>"
    );
}

#[test]
fn records_fixed_function_signature_args_as_fields() {
    let wit = r#"
package temporal:function-execution@1.0.0;

world system {
  export function-execution;
}

interface functions {
  function-call: func(name: string, enabled: bool) -> string;

  /// @nexus.function
  ///   primary=true
  ///   signature="function-call"
  type executable-function = string;
}

/// @nexus.endpoint "function-execution"
interface function-execution {
  use functions.{executable-function};

  record execute-function-request {
    function: executable-function,
  }

  record execute-function-result {
    value: string,
  }

  execute-function: func(request: execute-function-request) -> execute-function-result;
}
"#;

    let spec = parse(Language::Python, wit);
    let request = spec
        .record("function-execution.execute-function-request")
        .unwrap();
    let model = request;
    assert_eq!(model.field_name_override("name"), Some("name"));
    assert_eq!(model.field_name_override("enabled"), Some("enabled"));
    assert_eq!(model.field_type("name").unwrap().to_type_string(), "string");
    assert_eq!(
        model
            .field_doc("name")
            .unwrap()
            .for_language(Language::Python).as_deref(),
        Some("The name argument for the function.")
    );
    assert_eq!(
        model.field_type("enabled").unwrap().to_type_string(),
        "bool"
    );
    assert_eq!(
        model.function("function").unwrap().arg_fields,
        vec!["name".to_string(), "enabled".to_string()]
    );
    assert_ne!(
        model.field_type("name").unwrap().to_type_string(),
        "list<string>"
    );
    assert!(model.function("function").unwrap().primary);
    assert_eq!(model.function("function").unwrap().args_field, "args");
    let FunctionArgsSpec::Fixed(args) = &model.function("function").unwrap().args else {
        panic!("expected fixed arguments");
    };
    assert_eq!(args.len(), 2);
    assert_eq!(args[0].name, "name");
    assert!(matches!(args[0].field_type, TypeSpec::Text));
    assert_eq!(args[1].name, "enabled");
    assert!(matches!(args[1].field_type, TypeSpec::Bool));
}

#[test]
fn records_varargs_function_args_from_signature_annotation() {
    let wit = r#"
package temporal:function-execution@1.0.0;

world system {
  export function-execution;
}

interface functions {
  type function-args = list<string>;

  /// @nexus.function-args varargs=true
  function-call: func(args: function-args) -> string;

  /// @nexus.function
  ///   primary=true
  ///   signature="function-call"
  ///   args-field="args"
  type executable-function = string;
}

/// @nexus.endpoint "function-execution"
interface function-execution {
  use functions.{executable-function};

  record execute-function-request {
    function: executable-function,
  }

  record execute-function-result {
    value: string,
  }

  execute-function: func(request: execute-function-request) -> execute-function-result;
}
"#;

    let spec = parse(Language::Python, wit);
    let request = spec
        .record("function-execution.execute-function-request")
        .unwrap();
    let model = request;
    assert_eq!(
        model.field_type("args").unwrap().to_type_string(),
        "list<string>"
    );
    assert_eq!(
        model
            .field_doc("args")
            .unwrap()
            .for_language(Language::Python).as_deref(),
        Some("Arguments for the function.")
    );
    let FunctionArgsSpec::Varargs {
        prefix,
        typescript_drop_prefix,
    } = &model.function("function").unwrap().args
    else {
        panic!("expected as many arguments as are given");
    };
    assert!(prefix.is_empty());
    assert!(!typescript_drop_prefix);
}

#[test]
fn rejects_type_level_omit_directive() {
    let wit = r#"
package temporal:nexus@1.0.0;

world system {
  export workflow-service;
}

/// @nexus.endpoint "__temporal_system"
interface workflow-service {
  use nexus:temporal-types/model@1.0.0.{retry-policy, task-queue};

  /// @nexus.proto "temporal.api.activity.v1.ActivityOptions"
  /// @nexus.omit
  record activity-options {
    task-queue: option<task-queue>,
    retry-policy: retry-policy,
  }

  activity-options-operation: func(request: activity-options) -> activity-options;
}
"#;

    let error = parse_result(Language::Python, wit).unwrap_err();
    assert!(
        error.message()
            .contains("type-level omit is no longer supported")
    );
}

#[test]
fn wit_parse_errors_include_parser_diagnostics() {
    let wit = r#"
package temporal:nexus@1.0.0;

world system {
  export example;
}

interface example {
  record request {
    include: string,
  }
}
"#;

    let error = parse_result(Language::Python, wit).unwrap_err();
    let message = error.message();
    assert!(message.contains("expected an identifier or string"));
    assert!(message.contains("found keyword `include`"));
    assert!(message.contains("include: string"));
}

#[test]
fn parses_multiline_directive_arguments() {
    let directives = parse_directives(
        &Some(
            r#"@nexus.type
  python="temporalio.common.RetryPolicy"
  typescript="common.RetryPolicy""#
                .to_string(),
        ),
        "inline.wit",
        "type `example`",
    ).unwrap();

    let directive = directive(
        &directives,
        "type",
        "inline.wit",
        "type `example`",
    )
    .unwrap().unwrap();
    assert_eq!(
        directive.value("python").as_deref(),
        Some("temporalio.common.RetryPolicy")
    );
    assert_eq!(
        directive.value("typescript").as_deref(),
        Some("common.RetryPolicy")
    );
}

#[test]
fn rejects_duplicate_proto_field_mappings() {
    let wit = r#"
package temporal:nexus@1.0.0;

world system {
  export workflow-service;
}

interface workflow-service {
  /// @nexus.proto "temporal.api.workflowservice.v1.SignalWithStartWorkflowExecutionRequest"
  record signal-with-start-workflow-request {
    /// @nexus.proto-field "workflow_id"
    workflow-id: string,
    /// @nexus.proto-field "workflow_id"
    workflow-id-alias: string,
  }
}
"#;

    let err = parse_result(Language::Python, wit).unwrap_err();
    assert!(matches!(err, Error::InvalidWit { .. }));
}


#[test]
fn wire_operation_names_are_distinct() {
    let wit = r#"
package test:names@1.0.0;
world system { export api; }
interface api {
  record request { value: string, }
  /// @nexus.operation "Run"
  first: func(request: request);
  /// @nexus.operation name="Run"
  second: func(request: request);
}
"#;
    match parse_result(Language::Go, wit).unwrap_err() {
        Error::InvalidWit { path, reason } => {
            assert_eq!(path, "inline.wit");
            assert!(
                reason.ends_with("both use Nexus operation name `Run`"),
                "{reason}"
            );
        }
        other => panic!("unexpected {other:?}"),
    }
    let renamed = wit.replace("name=\"Run\"", "name=\"Stop\"");
    let spec = parse(Language::Go, &renamed);
    let names: Vec<&str> = spec.services[0]
        .operations
        .iter()
        .map(|operation| operation.wire_name.as_str())
        .collect();
    assert_eq!(names, vec!["Run", "Stop"]);
}

#[test]
fn wire_operation_name_is_not_empty() {
    let named = |text: &str| {
        format!(
            "package test:names@1.0.0;\nworld system {{ export api; }}\ninterface api {{\n  \
             record request {{ value: string, }}\n  /// @nexus.operation{text}\n  \
             run: func(request: request);\n}}\n"
        )
    };
    let reason = |text: &str| match parse_result(Language::Go, &named(text)).unwrap_err() {
        Error::InvalidWitDirective { directive, reason, .. } => {
            assert_eq!(directive, "@nexus.operation");
            reason
        }
        other => panic!("unexpected {other:?}"),
    };
    assert_eq!(reason(""), "missing required `name`");
    assert_eq!(reason(" \"\""), "`name` cannot be empty");
}

#[test]
fn declared_types_stand_in_the_order_of_their_names() {
    let spec = parse(
        Language::Python,
        r#"
package test:order@1.0.0;
world system { export zoo; export ark; }
interface zoo {
  record zebra { value: string, }
  record ape { value: string, }
}
interface ark {
  enum mood { good, bad }
}
"#,
    );
    let names: Vec<&str> = spec
        .types
        .entries
        .iter()
        .map(|entry| entry.full_name.as_str())
        .collect();
    let mut sorted = names.clone();
    sorted.sort();
    assert_eq!(names, sorted);
    for wanted in ["ark.mood", "zoo.ape", "zoo.zebra"] {
        assert!(names.contains(&wanted), "{wanted}");
    }
}

#[test]
fn support_files_are_read_once() {
    let (document, package) = resolve_wit(
        r#"
/// @nexus.support python="helpers.py" go="helpers.go"
package test:support@1.0.0;
/// @nexus.support "helpers.py"
/// @nexus.support-namespace dotnet="Support"
world system { }
"#,
    )
    .unwrap();
    let origins = vec![PackageOrigin {
        package,
        path: "root".to_string(),
    }];
    let plan = collect_support_spec(&document, package, &origins);
    assert!(plan.failure.is_none());
    let planned: Vec<(Language, &str, Option<&str>)> = plan
        .fragments
        .iter()
        .map(|fragment| {
            (
                fragment.language,
                fragment.path.as_str(),
                fragment.namespace.as_deref(),
            )
        })
        .collect();
    assert_eq!(
        planned,
        vec![
            (Language::Dotnet, "root/helpers.py", Some("Support")),
            (Language::Go, "root/helpers.go", None),
            (Language::Go, "root/helpers.py", None),
            (Language::Java, "root/helpers.py", None),
            (Language::Python, "root/helpers.py", None),
            (Language::Ruby, "root/helpers.py", None),
            (Language::TypeScript, "root/helpers.py", None),
        ]
    );
}

#[test]
fn type_for_a_language_is_settled() {
    let aliased = || TypeSpec::List(Box::new(TypeSpec::Alias {
        name: "api.id".to_string(),
        target: Box::new(TypeSpec::Text),
        annotation: LanguageStringSpec {
            by_language: vec![LanguageText {
                language: Language::Go,
                text: "ID".to_string(),
            }],
            ..LanguageStringSpec::new()
        },
    }));
    let in_go = authored_field_type_for_language(&aliased(), Language::Go);
    assert!(same_type(&in_go, &aliased()));
    let in_java = authored_field_type_for_language(&aliased(), Language::Java);
    assert!(same_type(&in_java, &TypeSpec::List(Box::new(TypeSpec::Text))));
    let again = authored_field_type_for_language(&in_java, Language::Java);
    assert!(same_type(&again, &in_java));
}

#[test]
fn flattened_types_stay_apart_from_field_types() {
    let wit = r#"
package temporal:nexus@1.0.0;

world system {
  export workflow-service;
}

/// @nexus.endpoint "__temporal_system"
interface workflow-service {
  record payload {
    data: string,
  }

  /// @nexus.proto "temporal.api.workflowservice.v1.SignalWithStartWorkflowExecutionRequest"
  record request {
    /// @nexus.proto-field "memo"
    /// @nexus.flattened-type python="str" typescript="string"
    metadata: option<payload>,
  }

  run: func(request: request) -> request;
}
"#;
    let python = parse(Language::Python, wit);
    let model = python
        .record_for_proto("temporal.api.workflowservice.v1.SignalWithStartWorkflowExecutionRequest")
        .unwrap();
    let memo = &model.fields.map["memo"];
    assert!(same_type(
        &memo.field_type,
        &TypeSpec::Optional(Box::new(TypeSpec::Record("workflow-service.payload".to_string())))
    ));
    assert!(memo.annotation.is_none());
    assert_eq!(
        memo.flattened_annotation
            .as_ref()
            .and_then(|annotation| annotation.for_language(Language::Python)),
        Some("str".to_string())
    );
    assert!(!memo.required);
    assert_eq!(python.services[0].endpoint, Some("__temporal_system".to_string()));
}
