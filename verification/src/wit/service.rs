//! The services that WIT interfaces are: their operations and resources.

use vstd::prelude::*;

use crate::error::{Error, ErrorView};
use crate::language::Language;
use crate::naming::to_upper_camel;
use crate::plan::{LanguageStringSpec, LanguageText};
use crate::text::{last_segment_of, text_eq};
use crate::wit::declare::strings_or_none;
use crate::wit::directive::{directive, directive_error, parse_directives, wit_error, Directive};
use crate::wit::document::{
    WitDocument, WitExport, WitFunction, WitFunctionKind, WitInterface, WitName, WitParam, WitType,
    WitTypeKind,
};
use crate::wit::function::{
    find_flattened_function_type_spec, resolve_type_for_language, FunctionFieldSpec,
};
use crate::wit::resolve::{
    find_owned_resource_name_for_type, find_proto_name_for_type, find_wit_record_name_for_type,
    interface_label, is_optional_type, proto_type, wit_type_full_name,
};
use crate::wit::strings::{
    delay_load_temporalio_workflow_directive, directive_language_string,
    directive_prefixed_language_string, directive_returns_language_string,
    directive_value_for_language, experimental_directive, is_valid_support_helper_path,
    language_key, reject_misplaced_type_parameter,
};
use crate::wit::types::{AuthoredResourceType, DeclaredTypeName, TypeSpec};

verus! {

/// What is made of the output of an operation.
#[derive(Debug)]
pub struct OperationOutputTransformSpec {
    pub annotation: LanguageStringSpec,
    pub transform: LanguageStringSpec,
}

/// A [`OperationOutputTransformSpec`] by its texts.
#[verifier::ext_equal]
pub struct OutputTransformView {
    pub annotation: crate::plan::LanguageStringView,
    pub transform: crate::plan::LanguageStringView,
}

impl View for OperationOutputTransformSpec {
    type V = OutputTransformView;

    open spec fn view(&self) -> OutputTransformView {
        OutputTransformView {
            annotation: self.annotation@,
            transform: self.transform@,
        }
    }
}

/// The texts of an optional [`OperationOutputTransformSpec`].
pub open spec fn operation_output_transform_spec_opt(
    value: Option<OperationOutputTransformSpec>,
) -> Option<OutputTransformView> {
    match value {
        Some(value) => Some(value@),
        None => None,
    }
}

/// An operation of a service.
#[derive(Debug)]
pub struct OperationSpec {
    pub name: String,
    pub code_name: LanguageStringSpec,
    pub wire_name: String,
    pub experimental: bool,
    pub deprecated: bool,
    pub doc: LanguageStringSpec,
    pub return_doc: LanguageStringSpec,
    pub input: Option<TypeSpec>,
    pub output: Option<TypeSpec>,
    pub output_transform: Option<OperationOutputTransformSpec>,
    pub serialization_context: LanguageStringSpec,
}

/// A [`OperationSpec`] by its texts.
#[verifier::ext_equal]
pub struct OperationView {
    pub name: Seq<char>,
    pub code_name: crate::plan::LanguageStringView,
    pub wire_name: Seq<char>,
    pub experimental: bool,
    pub deprecated: bool,
    pub doc: crate::plan::LanguageStringView,
    pub return_doc: crate::plan::LanguageStringView,
    pub input: Option<crate::wit::types::TypeView>,
    pub output: Option<crate::wit::types::TypeView>,
    pub output_transform: Option<OutputTransformView>,
    pub serialization_context: crate::plan::LanguageStringView,
}

impl View for OperationSpec {
    type V = OperationView;

    open spec fn view(&self) -> OperationView {
        OperationView {
            name: self.name@,
            code_name: self.code_name@,
            wire_name: self.wire_name@,
            experimental: self.experimental,
            deprecated: self.deprecated,
            doc: self.doc@,
            return_doc: self.return_doc@,
            input: crate::wit::types::type_spec_opt(self.input),
            output: crate::wit::types::type_spec_opt(self.output),
            output_transform: operation_output_transform_spec_opt(self.output_transform),
            serialization_context: self.serialization_context@,
        }
    }
}

/// The texts of a list of [`OperationSpec`].
pub open spec fn operation_spec_views(items: Seq<OperationSpec>) -> Seq<OperationView> {
    items.map_values(|item: OperationSpec| item@)
}

/// A field of a resource, or a parameter of one of its methods.
#[derive(Debug)]
pub struct ResourceFieldSpec {
    pub name: String,
    pub optional: bool,
    pub field_type: TypeSpec,
    pub function: Option<FunctionFieldSpec>,
}

/// A [`ResourceFieldSpec`] by its texts.
#[verifier::ext_equal]
pub struct ResourceFieldView {
    pub name: Seq<char>,
    pub optional: bool,
    pub field_type: crate::wit::types::TypeView,
    pub function: Option<crate::wit::function::FunctionFieldView>,
}

impl View for ResourceFieldSpec {
    type V = ResourceFieldView;

    open spec fn view(&self) -> ResourceFieldView {
        ResourceFieldView {
            name: self.name@,
            optional: self.optional,
            field_type: self.field_type@,
            function: crate::wit::function::function_field_spec_opt(self.function),
        }
    }
}

/// The texts of a list of [`ResourceFieldSpec`].
pub open spec fn resource_field_spec_views(
    items: Seq<ResourceFieldSpec>,
) -> Seq<ResourceFieldView> {
    items.map_values(|item: ResourceFieldSpec| item@)
}

/// What a method of a resource gives back.
#[derive(Debug)]
pub struct ResourceResultSpec {
    pub result_type: TypeSpec,
}

/// A [`ResourceResultSpec`] by its texts.
#[verifier::ext_equal]
pub struct ResourceResultView {
    pub result_type: crate::wit::types::TypeView,
}

impl View for ResourceResultSpec {
    type V = ResourceResultView;

    open spec fn view(&self) -> ResourceResultView {
        ResourceResultView {
            result_type: self.result_type@,
        }
    }
}

/// The texts of an optional [`ResourceResultSpec`].
pub open spec fn resource_result_spec_opt(
    value: Option<ResourceResultSpec>,
) -> Option<ResourceResultView> {
    match value {
        Some(value) => Some(value@),
        None => None,
    }
}

/// A method of a resource.
#[derive(Debug)]
pub struct ResourceMethodSpec {
    pub name: String,
    pub params: Vec<ResourceFieldSpec>,
    pub result: Option<ResourceResultSpec>,
    pub operation_name: Option<String>,
}

/// A [`ResourceMethodSpec`] by its texts.
#[verifier::ext_equal]
pub struct ResourceMethodView {
    pub name: Seq<char>,
    pub params: Seq<ResourceFieldView>,
    pub result: Option<ResourceResultView>,
    pub operation_name: Option<Seq<char>>,
}

impl View for ResourceMethodSpec {
    type V = ResourceMethodView;

    open spec fn view(&self) -> ResourceMethodView {
        ResourceMethodView {
            name: self.name@,
            params: resource_field_spec_views(self.params@),
            result: resource_result_spec_opt(self.result),
            operation_name: crate::text::opt_text(self.operation_name),
        }
    }
}

/// The texts of a list of [`ResourceMethodSpec`].
pub open spec fn resource_method_spec_views(
    items: Seq<ResourceMethodSpec>,
) -> Seq<ResourceMethodView> {
    items.map_values(|item: ResourceMethodSpec| item@)
}

/// A resource of a service.
#[derive(Debug)]
pub struct ResourceSpec {
    pub name: String,
    pub fields: Vec<ResourceFieldSpec>,
    pub methods: Vec<ResourceMethodSpec>,
}

/// A [`ResourceSpec`] by its texts.
#[verifier::ext_equal]
pub struct ResourceView {
    pub name: Seq<char>,
    pub fields: Seq<ResourceFieldView>,
    pub methods: Seq<ResourceMethodView>,
}

impl View for ResourceSpec {
    type V = ResourceView;

    open spec fn view(&self) -> ResourceView {
        ResourceView {
            name: self.name@,
            fields: resource_field_spec_views(self.fields@),
            methods: resource_method_spec_views(self.methods@),
        }
    }
}

/// The texts of a list of [`ResourceSpec`].
pub open spec fn resource_spec_views(items: Seq<ResourceSpec>) -> Seq<ResourceView> {
    items.map_values(|item: ResourceSpec| item@)
}

/// A service.
#[derive(Debug)]
pub struct ServiceSpec {
    pub name: String,
    pub code_name: LanguageStringSpec,
    pub wire_name: String,
    pub doc: LanguageStringSpec,
    pub namespace: LanguageStringSpec,
    pub operations_class: LanguageStringSpec,
    pub endpoint: Option<String>,
    pub experimental: bool,
    pub deprecated: bool,
    pub delay_load_temporalio_workflow: bool,
    pub operations: Vec<OperationSpec>,
    pub resources: Vec<ResourceSpec>,
}

/// A [`ServiceSpec`] by its texts.
#[verifier::ext_equal]
pub struct ServiceView {
    pub name: Seq<char>,
    pub code_name: crate::plan::LanguageStringView,
    pub wire_name: Seq<char>,
    pub doc: crate::plan::LanguageStringView,
    pub namespace: crate::plan::LanguageStringView,
    pub operations_class: crate::plan::LanguageStringView,
    pub endpoint: Option<Seq<char>>,
    pub experimental: bool,
    pub deprecated: bool,
    pub delay_load_temporalio_workflow: bool,
    pub operations: Seq<OperationView>,
    pub resources: Seq<ResourceView>,
}

impl View for ServiceSpec {
    type V = ServiceView;

    open spec fn view(&self) -> ServiceView {
        ServiceView {
            name: self.name@,
            code_name: self.code_name@,
            wire_name: self.wire_name@,
            doc: self.doc@,
            namespace: self.namespace@,
            operations_class: self.operations_class@,
            endpoint: crate::text::opt_text(self.endpoint),
            experimental: self.experimental,
            deprecated: self.deprecated,
            delay_load_temporalio_workflow: self.delay_load_temporalio_workflow,
            operations: operation_spec_views(self.operations@),
            resources: resource_spec_views(self.resources@),
        }
    }
}

/// The texts of a list of [`ServiceSpec`].
pub open spec fn service_spec_views(items: Seq<ServiceSpec>) -> Seq<ServiceView> {
    items.map_values(|item: ServiceSpec| item@)
}

/// The functions of a kind, by their indices.
pub open spec fn functions_of_kind(functions: Seq<WitFunction>, kind: WitFunctionKind) -> Seq<usize>
    decreases functions.len(),
{
    if functions.len() == 0 {
        Seq::empty()
    } else if functions.last().kind == kind {
        functions_of_kind(functions.drop_last(), kind).push((functions.len() - 1) as usize)
    } else {
        functions_of_kind(functions.drop_last(), kind)
    }
}

/// The functions of a kind, by their indices.
pub fn select_functions(functions: &Vec<WitFunction>, kind: WitFunctionKind) -> (ids: Vec<usize>)
    ensures
        ids@ == functions_of_kind(functions@, kind),
        crate::wit::declare::ids_below(ids@, functions@.len() as int),
{
    let mut ids: Vec<usize> = Vec::new();
    let mut i: usize = 0;
    while i < functions.len()
        invariant
            i <= functions.len(),
            ids@ == functions_of_kind(functions@.take(i as int), kind),
            crate::wit::declare::ids_below(ids@, i as int),
        decreases functions.len() - i,
    {
        assert(functions@.take(i + 1).drop_last() =~= functions@.take(i as int));
        if functions[i].kind == kind {
            ids.push(i);
        }
        i += 1;
    }
    assert(functions@.take(i as int) =~= functions@);
    ids
}

/// The resources among some types, by the indices of the types.
pub open spec fn resource_ids(doc: WitDocument, names: Seq<WitName>) -> Seq<usize>
    decreases names.len(),
{
    if names.len() == 0 {
        Seq::empty()
    } else if doc.types@[names.last().id as int].kind is Resource {
        resource_ids(doc, names.drop_last()).push(names.last().id)
    } else {
        resource_ids(doc, names.drop_last())
    }
}

/// The resources among some types, by the indices of the types.
fn select_resources(doc: &WitDocument, names: &Vec<WitName>) -> (ids: Vec<usize>)
    requires
        crate::wit::declare::names_below(names@, doc.types@.len() as int),
    ensures
        ids@ == resource_ids(*doc, names@),
        crate::wit::declare::ids_below(ids@, doc.types@.len() as int),
{
    let mut ids: Vec<usize> = Vec::new();
    let mut i: usize = 0;
    while i < names.len()
        invariant
            i <= names.len(),
            crate::wit::declare::names_below(names@, doc.types@.len() as int),
            ids@ == resource_ids(*doc, names@.take(i as int)),
            crate::wit::declare::ids_below(ids@, doc.types@.len() as int),
        decreases names.len() - i,
    {
        assert(names@.take(i + 1).drop_last() =~= names@.take(i as int));
        let id: usize = names[i].id;
        if matches!(doc.types[id].kind, WitTypeKind::Resource) {
            ids.push(id);
        }
        i += 1;
    }
    assert(names@.take(i as int) =~= names@);
    ids
}

/// How many parameters called `self` come first.
pub open spec fn self_count(params: Seq<WitParam>) -> int
    decreases params.len(),
{
    if params.len() == 0 || params[0].name@ != "self"@ {
        0
    } else {
        1 + self_count(params.drop_first())
    }
}

/// The parameters behind those called `self` at the front, by their indices.
pub open spec fn own_params(params: Seq<WitParam>) -> Seq<usize> {
    let skipped = self_count(params);
    Seq::new((params.len() - skipped) as nat, |i: int| (skipped + i) as usize)
}

/// All parameters, by their indices.
pub open spec fn all_params(params: Seq<WitParam>) -> Seq<usize> {
    Seq::new(params.len(), |i: int| i as usize)
}

/// The indices from one up to another.
fn indices_between(from: usize, to: usize) -> (ids: Vec<usize>)
    requires
        from <= to,
    ensures
        ids@ == Seq::new((to - from) as nat, |i: int| (from + i) as usize),
        crate::wit::declare::ids_below(ids@, to as int),
{
    let mut ids: Vec<usize> = Vec::new();
    let mut i: usize = from;
    while i < to
        invariant
            from <= i <= to,
            ids@ == Seq::new((i - from) as nat, |k: int| (from + k) as usize),
            crate::wit::declare::ids_below(ids@, to as int),
        decreases to - i,
    {
        ids.push(i);
        i += 1;
        assert(ids@ =~= Seq::new((i - from) as nat, |k: int| (from + k) as usize));
    }
    ids
}

/// The parameters behind those called `self` at the front, by their indices.
fn select_own_params(params: &Vec<WitParam>) -> (ids: Vec<usize>)
    ensures
        ids@ == own_params(params@),
        crate::wit::declare::ids_below(ids@, params@.len() as int),
{
    let mut i: usize = 0;
    assert(params@.skip(0) =~= params@);
    while i < params.len() && text_eq(params[i].name.as_str(), "self")
        invariant
            i <= params.len(),
            i + self_count(params@.skip(i as int)) == self_count(params@),
        decreases params.len() - i,
    {
        assert(params@.skip(i as int).drop_first() =~= params@.skip(i + 1));
        i += 1;
    }
    let ids = indices_between(i, params.len());
    assert(ids@ =~= own_params(params@));
    ids
}

/// All parameters, by their indices.
fn select_all_params(params: &Vec<WitParam>) -> (ids: Vec<usize>)
    ensures
        ids@ == all_params(params@),
        crate::wit::declare::ids_below(ids@, params@.len() as int),
{
    let ids = indices_between(0, params.len());
    assert(ids@ =~= all_params(params@));
    ids
}

/// The name on the wire that a directive gives, under `name` or as its value.
pub open spec fn wire_name_outcome(
    found: crate::wit::directive::DirectiveView,
    directive_name: Seq<char>,
    path: Seq<char>,
    context: Seq<char>,
) -> Result<Seq<char>, ErrorView> {
    match wire_name_text(found) {
        None => Err(
            crate::wit::directive::directive_failure(
                path,
                context,
                directive_name,
                "missing required `name`"@,
            ),
        ),
        Some(name) => {
            if name.len() == 0 {
                Err(
                    crate::wit::directive::directive_failure(
                        path,
                        context,
                        directive_name,
                        "`name` cannot be empty"@,
                    ),
                )
            } else {
                Ok(name)
            }
        },
    }
}

/// The name on the wire that a directive gives, under `name` or as its value.
pub fn directive_wire_name(
    found: &Directive,
    directive_name: &str,
    path: &str,
    context: &str,
) -> (result: Result<String, Error>)
    ensures
        crate::error::outcome(result) == wire_name_outcome(
            found@,
            directive_name@,
            path@,
            context@,
        ),
{
    match wire_name_value(found) {
        None => Err(directive_error(path, context, directive_name, "missing required `name`")),
        Some(name) => {
            if name.as_str().is_empty() {
                Err(directive_error(path, context, directive_name, "`name` cannot be empty"))
            } else {
                Ok(name)
            }
        },
    }
}

/// What a directive gives under `name`, else its value.
pub open spec fn wire_name_text(
    found: crate::wit::directive::DirectiveView,
) -> Option<Seq<char>> {
    match crate::wit::directive::value_of(found, "name"@) {
        Some(name) => Some(name),
        None => crate::wit::directive::value_of(found, "value"@),
    }
}

/// What a directive gives under `name`, else its value.
pub fn wire_name_value(found: &Directive) -> (result: Option<String>)
    ensures
        crate::text::opt_text(result) == wire_name_text(found@),
{
    match found.value("name") {
        Some(name) => Some(name),
        None => found.value("value"),
    }
}

/// The name of a service on the wire.
pub open spec fn wire_service_name(
    directives: Seq<crate::wit::directive::DirectiveView>,
    path: Seq<char>,
    context: Seq<char>,
    default_name: Seq<char>,
) -> Result<Seq<char>, ErrorView> {
    let found_outcome = crate::wit::directive::directive_outcome(
        directives,
        "service-name"@,
        path,
        context,
    );
    let found = found_outcome->Ok_0;
    if found_outcome is Err {
        Err(found_outcome->Err_0)
    } else {
        match found {
            None => Ok(default_name),
            Some(found) => wire_name_outcome(found, "@nexus.service-name"@, path, context),
        }
    }
}

/// The name of a service on the wire.
pub fn build_wire_service_name(
    directives: &Vec<Directive>,
    path: &str,
    context: &str,
    default_name: &str,
) -> (result: Result<String, Error>)
    ensures
        crate::error::outcome(result) == wire_service_name(
            crate::wit::directive::directive_views(directives@),
            path@,
            context@,
            default_name@,
        ),
{
    let found = match directive(directives, "service-name", path, context) {
        Ok(value) => value,
        Err(error) => return Err(error),
    };
    match found {
        None => Ok(default_name.to_owned()),
        Some(found) => directive_wire_name(found, "@nexus.service-name", path, context),
    }
}

/// The name of an operation on the wire.
pub open spec fn wire_operation_name(
    directives: Seq<crate::wit::directive::DirectiveView>,
    path: Seq<char>,
    context: Seq<char>,
    default_name: Seq<char>,
) -> Result<Seq<char>, ErrorView> {
    let found_outcome = crate::wit::directive::directive_outcome(
        directives,
        "operation"@,
        path,
        context,
    );
    let found = found_outcome->Ok_0;
    if found_outcome is Err {
        Err(found_outcome->Err_0)
    } else {
        match found {
            None => Ok(default_name),
            Some(found) => wire_name_outcome(found, "@nexus.operation"@, path, context),
        }
    }
}

/// The name of an operation on the wire.
pub fn build_wire_operation_name(
    directives: &Vec<Directive>,
    path: &str,
    context: &str,
    default_name: &str,
) -> (result: Result<String, Error>)
    ensures
        crate::error::outcome(result) == wire_operation_name(
            crate::wit::directive::directive_views(directives@),
            path@,
            context@,
            default_name@,
        ),
{
    let found = match directive(directives, "operation", path, context) {
        Ok(value) => value,
        Err(error) => return Err(error),
    };
    match found {
        None => Ok(default_name.to_owned()),
        Some(found) => directive_wire_name(found, "@nexus.operation", path, context),
    }
}

/// The name on the wire of an operation with a documentation.
pub open spec fn wire_operation_name_of_docs(
    docs: Option<Seq<char>>,
    path: Seq<char>,
    context: Seq<char>,
    default_name: Seq<char>,
) -> Result<Seq<char>, ErrorView> {
    let directives_outcome = crate::wit::directive::directives_outcome(docs, path, context);
    let directives = directives_outcome->Ok_0;
    if directives_outcome is Err {
        Err(directives_outcome->Err_0)
    } else {
        wire_operation_name(directives, path, context, default_name)
    }
}

/// The name on the wire of an operation with a documentation.
pub fn wire_operation_name_from_docs(
    docs: &Option<String>,
    path: &str,
    context: &str,
    default_name: &str,
) -> (result: Result<String, Error>)
    ensures
        crate::error::outcome(result) == wire_operation_name_of_docs(
            crate::text::opt_text(*docs),
            path@,
            context@,
            default_name@,
        ),
{
    let directives = match parse_directives(docs, path, context) {
        Ok(value) => value,
        Err(error) => return Err(error),
    };
    build_wire_operation_name(&directives, path, context, default_name)
}

/// The operation that a method of a resource stands for.
pub open spec fn method_operation_name(
    directives: Seq<crate::wit::directive::DirectiveView>,
    path: Seq<char>,
    context: Seq<char>,
) -> Result<Option<Seq<char>>, ErrorView> {
    let found_outcome = crate::wit::directive::directive_outcome(
        directives,
        "operation"@,
        path,
        context,
    );
    let found = found_outcome->Ok_0;
    if found_outcome is Err {
        Err(found_outcome->Err_0)
    } else {
        match found {
            None => Ok(None),
            Some(found) => {
                let name_outcome = wire_name_outcome(found, "@nexus.operation"@, path, context);
                let name = name_outcome->Ok_0;
                if name_outcome is Err {
                    Err(name_outcome->Err_0)
                } else {
                    Ok(Some(crate::naming::upper_camel(name)))
                }
            },
        }
    }
}

/// The operation that a method of a resource stands for.
pub fn build_resource_method_operation_name(
    directives: &Vec<Directive>,
    path: &str,
    context: &str,
) -> (result: Result<Option<String>, Error>)
    ensures
        crate::error::opt_outcome(result) == method_operation_name(
            crate::wit::directive::directive_views(directives@),
            path@,
            context@,
        ),
{
    let found = match directive(directives, "operation", path, context) {
        Ok(value) => value,
        Err(error) => return Err(error),
    };
    match found {
        None => Ok(None),
        Some(found) => {
            let name = match directive_wire_name(found, "@nexus.operation", path, context) {
                Ok(value) => value,
                Err(error) => return Err(error),
            };
            Ok(Some(to_upper_camel(name.as_str())))
        },
    }
}

/// The first operation with a name on the wire.
pub open spec fn wire_index(operations: Seq<OperationView>, wire_name: Seq<char>) -> int
    decreases operations.len(),
{
    if operations.len() == 0 || operations[0].wire_name == wire_name {
        0
    } else {
        1 + wire_index(operations.drop_first(), wire_name)
    }
}

/// No two operations are to have one name on the wire.
pub open spec fn unique_wire_names_outcome(
    path: Seq<char>,
    context: Seq<char>,
    operations: Seq<OperationView>,
) -> Result<(), ErrorView>
    decreases operations.len(),
{
    if operations.len() == 0 {
        Ok(())
    } else {
        match unique_wire_names_outcome(path, context, operations.drop_last()) {
            Err(error) => Err(error),
            Ok(_) => {
                let before = operations.drop_last();
                let last = operations.last();
                let at = wire_index(before, last.wire_name);
                if at < before.len() {
                    Err(
                        crate::wit::directive::wit_failure(
                            path,
                            context + " operations `"@ + before[at].name + "` and `"@ + last.name
                                + "` both use Nexus operation name `"@ + last.wire_name + "`"@,
                        ),
                    )
                } else {
                    Ok(())
                }
            },
        }
    }
}

proof fn lemma_unique_error_stays(
    path: Seq<char>,
    context: Seq<char>,
    operations: Seq<OperationView>,
    count: int,
)
    requires
        0 <= count <= operations.len(),
        unique_wire_names_outcome(path, context, operations.take(count)) is Err,
    ensures
        unique_wire_names_outcome(path, context, operations) == unique_wire_names_outcome(
            path,
            context,
            operations.take(count),
        ),
    decreases operations.len() - count,
{
    if count == operations.len() {
        assert(operations.take(count) =~= operations);
    } else {
        assert(operations.take(count + 1).drop_last() =~= operations.take(count));
        lemma_unique_error_stays(path, context, operations, count + 1);
    }
}

proof fn lemma_wire_index(operations: Seq<OperationView>, wire_name: Seq<char>)
    ensures
        0 <= wire_index(operations, wire_name) <= operations.len(),
        forall|i: int|
            0 <= i < wire_index(operations, wire_name) ==> (#[trigger] operations[i]).wire_name
                != wire_name,
    decreases operations.len(),
{
    if operations.len() > 0 && operations[0].wire_name != wire_name {
        lemma_wire_index(operations.drop_first(), wire_name);
        assert forall|i: int| 0 <= i < wire_index(operations, wire_name) implies (
        #[trigger] operations[i]).wire_name != wire_name by {
            if i > 0 {
                assert(operations.drop_first()[i - 1] == operations[i]);
            }
        }
    }
}

/// Operations that are accepted have names of their own on the wire.
pub proof fn law_wire_operation_names_are_distinct(
    path: Seq<char>,
    context: Seq<char>,
    operations: Seq<OperationView>,
)
    requires
        unique_wire_names_outcome(path, context, operations) is Ok,
    ensures
        forall|i: int, j: int|
            0 <= i < j < operations.len() ==> (#[trigger] operations[i]).wire_name != (
            #[trigger] operations[j]).wire_name,
    decreases operations.len(),
{
    if operations.len() > 0 {
        let before = operations.drop_last();
        law_wire_operation_names_are_distinct(path, context, before);
        lemma_wire_index(before, operations.last().wire_name);
        assert forall|i: int, j: int| 0 <= i < j < operations.len() implies (
        #[trigger] operations[i]).wire_name != (#[trigger] operations[j]).wire_name by {
            assert(before[i] == operations[i]);
            if j < before.len() {
                assert(before[j] == operations[j]);
            }
        }
    }
}

/// The first of the operations before an index with a name on the wire.
fn find_wire_name(operations: &Vec<OperationSpec>, count: usize, wire_name: &str) -> (index: usize)
    requires
        count <= operations.len(),
    ensures
        index <= count,
        index == wire_index(operation_spec_views(operations@).take(count as int), wire_name@),
{
    let ghost views = operation_spec_views(operations@).take(count as int);
    let mut i: usize = 0;
    assert(views.skip(0) =~= views);
    while i < count
        invariant
            i <= count <= operations.len(),
            views == operation_spec_views(operations@).take(count as int),
            i + wire_index(views.skip(i as int), wire_name@) == wire_index(views, wire_name@),
        decreases count - i,
    {
        assert(views.skip(i as int)[0] == operations@[i as int]@);
        if text_eq(operations[i].wire_name.as_str(), wire_name) {
            return i;
        }
        assert(views.skip(i as int).drop_first() =~= views.skip(i + 1));
        i += 1;
    }
    i
}

/// No two operations are to have one name on the wire.
pub fn ensure_unique_wire_operation_names(
    path: &str,
    context: &str,
    operations: &Vec<OperationSpec>,
) -> (result: Result<(), Error>)
    ensures
        crate::error::outcome(result) == unique_wire_names_outcome(
            path@,
            context@,
            operation_spec_views(operations@),
        ),
{
    let ghost views = operation_spec_views(operations@);
    let mut i: usize = 0;
    while i < operations.len()
        invariant
            i <= operations.len(),
            views == operation_spec_views(operations@),
            unique_wire_names_outcome(path@, context@, views.take(i as int)) is Ok,
        decreases operations.len() - i,
    {
        assert(views.take(i + 1).drop_last() =~= views.take(i as int));
        assert(views.take(i + 1).last() == operations@[i as int]@);
        let operation = &operations[i];
        let at = find_wire_name(operations, i, operation.wire_name.as_str());
        if at < i {
            assert(views.take(i as int)[at as int] == operations@[at as int]@);
            let reason = context.to_owned().concat(" operations `").concat(
                operations[at].name.as_str(),
            ).concat("` and `").concat(operation.name.as_str()).concat(
                "` both use Nexus operation name `",
            ).concat(operation.wire_name.as_str()).concat("`");
            proof {
                lemma_unique_error_stays(path@, context@, views, i + 1);
            }
            return Err(wit_error(path, reason.as_str()));
        }
        i += 1;
    }
    assert(views.take(i as int) =~= views);
    Ok(())
}

/// The error for an output transform that is not complete.
pub open spec fn incomplete_transform(service: Seq<char>, operation: Seq<char>) -> ErrorView {
    ErrorView::IncompleteOperationOutputTransform { service: service, operation: operation }
}

/// The error for an output transform that is not complete.
pub fn incomplete_transform_error(service: &str, operation: &str) -> (result: Error)
    ensures
        result@ == incomplete_transform(service@, operation@),
{
    Error::IncompleteOperationOutputTransform {
        service: service.to_owned(),
        operation: operation.to_owned(),
    }
}

/// What is made of the output of an operation: a type and an expression, or neither.
pub open spec fn output_transform_outcome(
    directives: Seq<crate::wit::directive::DirectiveView>,
    path: Seq<char>,
    context: Seq<char>,
    service_name: Seq<char>,
    operation_name: Seq<char>,
) -> Result<Option<OutputTransformView>, ErrorView> {
    let found_outcome = crate::wit::directive::directive_outcome(
        directives,
        "output-transform"@,
        path,
        context,
    );
    let found = found_outcome->Ok_0;
    if found_outcome is Err {
        Err(found_outcome->Err_0)
    } else {
        match found {
            None => Ok(None),
            Some(found) => {
                let annotation = crate::wit::strings::directive_prefixed_strings(found, "type"@);
                let transform = crate::wit::strings::directive_strings(found);
                if crate::plan::strings_empty(annotation) && crate::plan::strings_empty(transform) {
                    Ok(None)
                } else if !crate::plan::strings_empty(annotation) && !crate::plan::strings_empty(transform) {
                    Ok(Some(OutputTransformView { annotation, transform }))
                } else {
                    Err(incomplete_transform(service_name, operation_name))
                }
            },
        }
    }
}

/// What is made of the output of an operation: a type and an expression, or neither.
pub fn build_operation_output_transform(
    directives: &Vec<Directive>,
    path: &str,
    context: &str,
    service_name: &str,
    operation_name: &str,
) -> (result: Result<Option<OperationOutputTransformSpec>, Error>)
    ensures
        crate::error::opt_outcome(result) == output_transform_outcome(
            crate::wit::directive::directive_views(directives@),
            path@,
            context@,
            service_name@,
            operation_name@,
        ),
{
    let found = match directive(directives, "output-transform", path, context) {
        Ok(value) => value,
        Err(error) => return Err(error),
    };
    match found {
        None => Ok(None),
        Some(found) => {
            let annotation = directive_prefixed_language_string(found, "type");
            let transform = directive_language_string(found);
            if annotation.is_empty() && transform.is_empty() {
                Ok(None)
            } else if !annotation.is_empty() && !transform.is_empty() {
                Ok(Some(OperationOutputTransformSpec { annotation, transform }))
            } else {
                Err(incomplete_transform_error(service_name, operation_name))
            }
        },
    }
}

/// A helper that support code is called by has to be a path of names.
pub open spec fn helper_outcome(
    helper: Seq<char>,
    language: Seq<char>,
    path: Seq<char>,
    context: Seq<char>,
) -> Result<(), ErrorView> {
    if crate::wit::strings::is_helper_path(helper) {
        Ok(())
    } else {
        Err(crate::wit::directive::directive_failure(
                path,
                context,
                "@nexus.serialization-context"@,
                ("invalid `"@ + language + "` support helper `"@ + helper + "`"@),
        ))
    }
}

/// A helper that support code is called by has to be a path of names.
pub fn check_helper(
    helper: &str,
    language: &str,
    path: &str,
    context: &str,
) -> (result: Result<(), Error>)
    ensures
        crate::error::outcome(result) == helper_outcome(helper@, language@, path@, context@),
{
    if is_valid_support_helper_path(helper) {
        Ok(())
    } else {
        Err(directive_error(
            path,
            context,
            "@nexus.serialization-context",
            "invalid `".to_owned().concat(language).concat("` support helper `").concat(helper)
                .concat("`").as_str(),
        ))
    }
}

/// Every helper of a language has to be a path of names.
pub open spec fn helpers_outcome(
    entries: Seq<crate::plan::LanguageTextView>,
    path: Seq<char>,
    context: Seq<char>,
) -> Result<(), ErrorView>
    decreases entries.len(),
{
    if entries.len() == 0 {
        Ok(())
    } else {
        let entry = entries.last();
        match helpers_outcome(entries.drop_last(), path, context) {
            Err(error) => Err(error),
            Ok(_) => helper_outcome(
                entry.text,
                crate::wit::strings::language_key_text(entry.language),
                path,
                context,
            ),
        }
    }
}

proof fn lemma_helpers(
    entries: Seq<crate::plan::LanguageTextView>,
    path: Seq<char>,
    context: Seq<char>,
    count: int,
)
    requires
        0 <= count <= entries.len(),
        helpers_outcome(entries.take(count), path, context) is Err,
    ensures
        helpers_outcome(entries, path, context) == helpers_outcome(
            entries.take(count),
            path,
            context,
        ),
    decreases entries.len() - count,
{
    if count == entries.len() {
        assert(entries.take(count) =~= entries);
    } else {
        assert(entries.take(count + 1).drop_last() =~= entries.take(count));
        lemma_helpers(entries, path, context, count + 1);
    }
}

/// Every helper of a language has to be a path of names.
pub fn check_helpers(entries: &Vec<LanguageText>, path: &str, context: &str) -> (result: Result<
    (),
    Error,
>)
    ensures
        crate::error::outcome(result) == helpers_outcome(
            crate::plan::language_text_views(entries@),
            path@,
            context@,
        ),
{
    let ghost views = crate::plan::language_text_views(entries@);
    let mut i: usize = 0;
    while i < entries.len()
        invariant
            i <= entries.len(),
            views == crate::plan::language_text_views(entries@),
            helpers_outcome(views.take(i as int), path@, context@) is Ok,
        decreases entries.len() - i,
    {
        let entry = &entries[i];
        assert(views.take(i + 1).drop_last() =~= views.take(i as int));
        assert(views.take(i + 1).last() == entry@);
        match check_helper(entry.text.as_str(), language_key(entry.language), path, context) {
            Ok(_) => {},
            Err(error) => {
                proof {
                    lemma_helpers(views, path@, context@, i + 1);
                }
                return Err(error);
            },
        }
        i += 1;
    }
    assert(views.take(i as int) =~= views);
    Ok(())
}

/// The helpers that give the serialization context of an operation.
pub open spec fn serialization_context_outcome(
    directives: Seq<crate::wit::directive::DirectiveView>,
    path: Seq<char>,
    context: Seq<char>,
) -> Result<crate::plan::LanguageStringView, ErrorView> {
    let strings_outcome = crate::wit::declare::strings_or_none_outcome(
        directives,
        "serialization-context"@,
        path,
        context,
    );
    let strings = strings_outcome->Ok_0;
    let checked = default_helper_outcome(strings, path, context);
    let checked_2 = helpers_outcome(strings.by_language, path, context);
    if strings_outcome is Err {
        Err(strings_outcome->Err_0)
    } else if checked is Err {
        Err(checked->Err_0)
    } else if checked_2 is Err {
        Err(checked_2->Err_0)
    } else {
        Ok(strings)
    }
}

/// The helpers that give the serialization context of an operation.
pub fn build_operation_serialization_context(
    directives: &Vec<Directive>,
    path: &str,
    context: &str,
) -> (result: Result<LanguageStringSpec, Error>)
    ensures
        crate::error::outcome(result) == serialization_context_outcome(
            crate::wit::directive::directive_views(directives@),
            path@,
            context@,
        ),
{
    let strings = match strings_or_none(directives, "serialization-context", path, context) {
        Ok(value) => value,
        Err(error) => return Err(error),
    };
    match check_default_helper(&strings, path, context) {
        Ok(_) => {},
        Err(error) => return Err(error),
    }
    match check_helpers(&strings.by_language, path, context) {
        Ok(_) => {},
        Err(error) => return Err(error),
    }
    Ok(strings)
}

/// The helper for every language has to be a path of names.
pub open spec fn default_helper_outcome(
    strings: crate::plan::LanguageStringView,
    path: Seq<char>,
    context: Seq<char>,
) -> Result<(), ErrorView> {
    match strings.default {
        None => Ok(()),
        Some(helper) => helper_outcome(helper, "default"@, path, context),
    }
}

/// The helper for every language has to be a path of names.
pub fn check_default_helper(
    strings: &LanguageStringSpec,
    path: &str,
    context: &str,
) -> (result: Result<(), Error>)
    ensures
        crate::error::outcome(result) == default_helper_outcome(strings@, path@, context@),
{
    match &strings.default {
        None => Ok(()),
        Some(helper) => check_helper(helper.as_str(), "default", path, context),
    }
}

/// The name that an alias gives a resource.
pub open spec fn resource_alias_name(
    doc: WitDocument,
    ty: WitType,
) -> Option<crate::wit::types::DeclaredNameView> {
    match ty {
        WitType::Id(id) => {
            let type_def = doc.types@[id as int];
            match (type_def.name, type_def.kind) {
                (Some(_), WitTypeKind::Resource) => None,
                (Some(name), _) => Some(crate::wit::types::DeclaredNameView {
                        name: crate::naming::upper_camel(name@),
                        full_name: crate::wit::resolve::full_type_name(doc, id),
                }),
                _ => None,
            }
        },
        _ => None,
    }
}

/// The name that an alias gives a resource.
pub fn resource_alias(doc: &WitDocument, ty: WitType) -> (result: Option<DeclaredTypeName>)
    requires
        doc.wf(),
        crate::wit::document::type_below(ty, doc.types@.len() as int),
    ensures
        crate::wit::types::declared_type_name_opt(result) == resource_alias_name(*doc, ty),
{
    match ty {
        WitType::Id(id) => {
            let type_def = &doc.types[id];
            match (&type_def.name, &type_def.kind) {
                (Some(_), WitTypeKind::Resource) => None,
                (Some(name), _) => Some(DeclaredTypeName {
                    name: to_upper_camel(name.as_str()),
                    full_name: wit_type_full_name(doc, id),
                }),
                _ => None,
            }
        },
        _ => None,
    }
}

/// The type that an operation takes or gives: a resource, a protobuf type or a record.
pub open spec fn operation_type_outcome(
    doc: WitDocument,
    ty: WitType,
    path: Seq<char>,
    context: Seq<char>,
) -> Result<Option<crate::wit::types::TypeView>, ErrorView> {
    match crate::wit::resolve::owned_resource(doc, ty) {
        Some(resource_name) => {
            let wire_type_outcome = crate::wit::resolve::proto_name_behind(doc, ty, path, context);
            let wire_type = wire_type_outcome->Ok_0;
            if wire_type_outcome is Err {
                Err(wire_type_outcome->Err_0)
            } else {
                Ok(Some(crate::wit::types::TypeView::Resource(crate::wit::types::ResourceTypeView {
                                name: resource_name,
                                wire_type,
                                alias: resource_alias_name(doc, ty),
                })))
            }
        },
        None => {
            let proto_name_outcome = crate::wit::resolve::proto_name_behind(doc, ty, path, context);
            let proto_name = proto_name_outcome->Ok_0;
            if proto_name_outcome is Err {
                Err(proto_name_outcome->Err_0)
            } else {
                match proto_name {
                    Some(proto_name) => Ok(Some(crate::wit::resolve::proto_type_view(proto_name))),
                    None => match crate::wit::resolve::record_behind(doc, ty) {
                        Some(record_name) => Ok(
                            Some(crate::wit::types::TypeView::Record(record_name)),
                        ),
                        None => Ok(None),
                    },
                }
            }
        },
    }
}

/// The type that an operation takes or gives: a resource, a protobuf type or a record.
pub fn find_operation_type_spec(
    doc: &WitDocument,
    ty: WitType,
    path: &str,
    context: &str,
) -> (result: Result<Option<TypeSpec>, Error>)
    requires
        doc.wf(),
        crate::wit::document::type_below(ty, doc.types@.len() as int),
    ensures
        crate::error::opt_outcome(result) == operation_type_outcome(*doc, ty, path@, context@),
{
    match find_owned_resource_name_for_type(doc, ty) {
        Some(resource_name) => {
            let wire_type = match find_proto_name_for_type(doc, ty, path, context) {
                Ok(value) => value,
                Err(error) => return Err(error),
            };
            Ok(Some(TypeSpec::Resource(AuthoredResourceType {
                name: resource_name,
                wire_type,
                alias: resource_alias(doc, ty),
            })))
        },
        None => {
            let proto_name = match find_proto_name_for_type(doc, ty, path, context) {
                Ok(value) => value,
                Err(error) => return Err(error),
            };
            match proto_name {
                Some(proto_name) => Ok(Some(proto_type(proto_name.as_str()))),
                None => match find_wit_record_name_for_type(doc, ty) {
                    Some(record_name) => Ok(Some(TypeSpec::Record(record_name))),
                    None => Ok(None),
                },
            }
        },
    }
}

/// The type that an operation takes.
pub open spec fn operation_input_outcome(
    doc: WitDocument,
    param: WitParam,
    path: Seq<char>,
    context: Seq<char>,
) -> Result<crate::wit::types::TypeView, ErrorView> {
    let found_outcome = operation_type_outcome(doc, param.ty, path, context);
    let found = found_outcome->Ok_0;
    if found_outcome is Err {
        Err(found_outcome->Err_0)
    } else {
        match found {
            Some(found) => Ok(found),
            None => Err(
                crate::wit::directive::wit_failure(
                    path,
                    (
                        context + " parameter `"@ + param.name@
                            + "` type must resolve to a record, resource, or type annotated with `@nexus.proto`"@
                    ),
                ),
            ),
        }
    }
}

/// The type that an operation takes.
pub fn operation_input(
    doc: &WitDocument,
    param: &WitParam,
    path: &str,
    context: &str,
) -> (result: Result<TypeSpec, Error>)
    requires
        doc.wf(),
        crate::wit::document::type_below(param.ty, doc.types@.len() as int),
    ensures
        crate::error::outcome(result) == operation_input_outcome(*doc, *param, path@, context@),
{
    let found = match find_operation_type_spec(doc, param.ty, path, context) {
        Ok(value) => value,
        Err(error) => return Err(error),
    };
    match found {
        Some(found) => Ok(found),
        None => Err(
            wit_error(
                path,
                context.to_owned().concat(" parameter `").concat(param.name.as_str())
                    .concat(
                        "` type must resolve to a record, resource, or type annotated with `@nexus.proto`",
                    ).as_str(),
            ),
        ),
    }
}

/// The type that an operation gives; one that gives none has nothing to be made of it.
pub open spec fn operation_output_outcome(
    doc: WitDocument,
    ty: Option<WitType>,
    transformed: bool,
    path: Seq<char>,
    context: Seq<char>,
) -> Result<Option<crate::wit::types::TypeView>, ErrorView> {
    match ty {
        None => {
            if transformed {
                Err(
                    crate::wit::directive::directive_failure(
                        path,
                        context,
                        "@nexus.output-transform"@,
                        "operation does not declare a result type"@,
                    ),
                )
            } else {
                Ok(None)
            }
        },
        Some(ty) => {
            let found_outcome = operation_type_outcome(doc, ty, path, context);
            let found = found_outcome->Ok_0;
            if found_outcome is Err {
                Err(found_outcome->Err_0)
            } else {
                match found {
                    Some(found) => Ok(Some(found)),
                    None => Err(
                        crate::wit::directive::wit_failure(
                            path,
                            (
                                context
                                    + " result type must resolve to a record, resource, or type annotated with `@nexus.proto`"@
                            ),
                        ),
                    ),
                }
            }
        },
    }
}

/// The type that an operation gives; one that gives none has nothing to be made of it.
pub fn operation_output(
    doc: &WitDocument,
    ty: Option<WitType>,
    transformed: bool,
    path: &str,
    context: &str,
) -> (result: Result<Option<TypeSpec>, Error>)
    requires
        doc.wf(),
        crate::wit::document::opt_type_below(ty, doc.types@.len() as int),
    ensures
        crate::error::opt_outcome(result) == operation_output_outcome(
            *doc,
            ty,
            transformed,
            path@,
            context@,
        ),
{
    match ty {
        None => {
            if transformed {
                Err(
                    directive_error(
                        path,
                        context,
                        "@nexus.output-transform",
                        "operation does not declare a result type",
                    ),
                )
            } else {
                Ok(None)
            }
        },
        Some(ty) => {
            let found = match find_operation_type_spec(doc, ty, path, context) {
                Ok(value) => value,
                Err(error) => return Err(error),
            };
            match found {
                Some(found) => Ok(Some(found)),
                None => Err(
                    wit_error(
                        path,
                        context.to_owned().concat(
                            " result type must resolve to a record, resource, or type annotated with `@nexus.proto`",
                        ).as_str(),
                    ),
                ),
            }
        },
    }
}

/// What is said of what an operation gives back.
pub open spec fn return_doc_outcome(
    directives: Seq<crate::wit::directive::DirectiveView>,
    path: Seq<char>,
    context: Seq<char>,
) -> Result<crate::plan::LanguageStringView, ErrorView> {
    let found_outcome = crate::wit::directive::directive_outcome(directives, "doc"@, path, context);
    let found = found_outcome->Ok_0;
    if found_outcome is Err {
        Err(found_outcome->Err_0)
    } else {
        match found {
            None => Ok(crate::plan::no_strings()),
            Some(found) => Ok(crate::wit::strings::directive_returns_strings(found)),
        }
    }
}

/// What is said of what an operation gives back.
pub fn operation_return_doc(
    directives: &Vec<Directive>,
    path: &str,
    context: &str,
) -> (result: Result<LanguageStringSpec, Error>)
    ensures
        crate::error::outcome(result) == return_doc_outcome(
            crate::wit::directive::directive_views(directives@),
            path@,
            context@,
        ),
{
    let found = match directive(directives, "doc", path, context) {
        Ok(value) => value,
        Err(error) => return Err(error),
    };
    match found {
        None => Ok(LanguageStringSpec::new()),
        Some(found) => Ok(directive_returns_language_string(found)),
    }
}

/// The operation that a function is.
pub open spec fn operation_outcome(
    doc: WitDocument,
    function: WitFunction,
    path: Seq<char>,
    service_context: Seq<char>,
    service_name: Seq<char>,
) -> Result<OperationView, ErrorView> {
    let name = crate::naming::upper_camel(function.name@);
    let context = service_context + " operation `"@ + name + "`"@;
    let directives_outcome = crate::wit::directive::directives_outcome(
        crate::text::opt_text(function.docs),
        path,
        context,
    );
    let directives = directives_outcome->Ok_0;
    let checked = crate::wit::strings::misplaced_type_parameter_outcome(directives, path, context);
    let wire_name_outcome = wire_operation_name(directives, path, context, name);
    let wire_name = wire_name_outcome->Ok_0;
    let experimental_outcome = crate::wit::strings::experimental_outcome(directives, path, context);
    let experimental = experimental_outcome->Ok_0;
    let input_outcome = operation_input_outcome(doc, function.params@[0], path, context);
    let input = input_outcome->Ok_0;
    let output_transform_outcome = output_transform_outcome(
        directives,
        path,
        context,
        service_name,
        name,
    );
    let output_transform = output_transform_outcome->Ok_0;
    let serialization_context_outcome = serialization_context_outcome(directives, path, context);
    let serialization_context = serialization_context_outcome->Ok_0;
    let output_outcome = operation_output_outcome(
        doc,
        function.result,
        output_transform.is_some(),
        path,
        context,
    );
    let output = output_outcome->Ok_0;
    let description_outcome = crate::wit::declare::strings_or_none_outcome(
        directives,
        "doc"@,
        path,
        context,
    );
    let description = description_outcome->Ok_0;
    let return_doc_outcome = return_doc_outcome(directives, path, context);
    let return_doc = return_doc_outcome->Ok_0;
    if directives_outcome is Err {
        Err(directives_outcome->Err_0)
    } else if checked is Err {
        Err(checked->Err_0)
    } else if wire_name_outcome is Err {
        Err(wire_name_outcome->Err_0)
    } else if experimental_outcome is Err {
        Err(experimental_outcome->Err_0)
    } else if function.params@.len() != 1 {
        Err(
            crate::wit::directive::wit_failure(
                path,
                (context + " must declare exactly one input parameter"@),
            ),
        )
    } else if input_outcome is Err {
        Err(input_outcome->Err_0)
    } else if output_transform_outcome is Err {
        Err(output_transform_outcome->Err_0)
    } else if serialization_context_outcome is Err {
        Err(serialization_context_outcome->Err_0)
    } else if output_outcome is Err {
        Err(output_outcome->Err_0)
    } else if description_outcome is Err {
        Err(description_outcome->Err_0)
    } else if return_doc_outcome is Err {
        Err(return_doc_outcome->Err_0)
    } else {
        Ok(OperationView {
                name,
                code_name: crate::plan::no_strings(),
                wire_name,
                experimental,
                deprecated: false,
                doc: description,
                return_doc,
                input: Some(input),
                output,
                output_transform,
                serialization_context,
        })
    }
}

/// The operation that a function is.
pub fn build_operation(
    doc: &WitDocument,
    function: &WitFunction,
    path: &str,
    service_context: &str,
    service_name: &str,
) -> (result: Result<OperationSpec, Error>)
    requires
        doc.wf(),
        doc.function_ok(*function),
    ensures
        crate::error::outcome(result) == operation_outcome(
            *doc,
            *function,
            path@,
            service_context@,
            service_name@,
        ),
{
    let name = to_upper_camel(function.name.as_str());
    let context = service_context.to_owned().concat(" operation `").concat(name.as_str())
        .concat("`");
    let directives = match parse_directives(&function.docs, path, context.as_str()) {
        Ok(value) => value,
        Err(error) => return Err(error),
    };
    match reject_misplaced_type_parameter(&directives, path, context.as_str()) {
        Ok(_) => {},
        Err(error) => return Err(error),
    }
    let wire_name = match build_wire_operation_name(
        &directives,
        path,
        context.as_str(),
        name.as_str(),
    ) {
        Ok(value) => value,
        Err(error) => return Err(error),
    };
    let experimental = match experimental_directive(&directives, path, context.as_str()) {
        Ok(value) => value,
        Err(error) => return Err(error),
    };
    if function.params.len() != 1 {
        return Err(
            wit_error(
                path,
                context.clone().concat(" must declare exactly one input parameter").as_str(),
            ),
        );
    }
    let input = match operation_input(doc, &function.params[0], path, context.as_str()) {
        Ok(value) => value,
        Err(error) => return Err(error),
    };
    let output_transform = match build_operation_output_transform(
        &directives,
        path,
        context.as_str(),
        service_name,
        name.as_str(),
    ) {
        Ok(value) => value,
        Err(error) => return Err(error),
    };
    let serialization_context = match build_operation_serialization_context(
        &directives,
        path,
        context.as_str(),
    ) {
        Ok(value) => value,
        Err(error) => return Err(error),
    };
    let output = match operation_output(
        doc,
        function.result,
        output_transform.is_some(),
        path,
        context.as_str(),
    ) {
        Ok(value) => value,
        Err(error) => return Err(error),
    };
    let description = match strings_or_none(&directives, "doc", path, context.as_str()) {
        Ok(value) => value,
        Err(error) => return Err(error),
    };
    let return_doc = match operation_return_doc(&directives, path, context.as_str()) {
        Ok(value) => value,
        Err(error) => return Err(error),
    };
    Ok(OperationSpec {
        name,
        code_name: LanguageStringSpec::new(),
        wire_name,
        experimental,
        deprecated: false,
        doc: description,
        return_doc,
        input: Some(input),
        output,
        output_transform,
        serialization_context,
    })
}

/// The operations that some functions of an interface are.
pub open spec fn operations_outcome(
    ids: Seq<usize>,
    doc: WitDocument,
    interface: WitInterface,
    path: Seq<char>,
    context: Seq<char>,
    service_name: Seq<char>,
) -> Result<Seq<OperationView>, ErrorView>
    decreases ids.len(),
{
    if ids.len() == 0 {
        Ok(Seq::empty())
    } else {
        let id = ids.last();
        match operations_outcome(ids.drop_last(), doc, interface, path, context, service_name) {
            Err(error) => Err(error),
            Ok(before) => {
                let outcome: Result<OperationView, ErrorView> = operation_outcome(
                    doc,
                    interface.functions@[id as int],
                    path,
                    context,
                    service_name,
                );
                match outcome {
                    Ok(part) => Ok(before.push(part)),
                    Err(error) => Err(error),
                }
            },
        }
    }
}

proof fn lemma_operations(
    ids: Seq<usize>,
    doc: WitDocument,
    interface: WitInterface,
    path: Seq<char>,
    context: Seq<char>,
    service_name: Seq<char>,
    count: int,
)
    requires
        0 <= count <= ids.len(),
        operations_outcome(ids.take(count), doc, interface, path, context, service_name) is Err,
    ensures
        operations_outcome(ids, doc, interface, path, context, service_name) == operations_outcome(
            ids.take(count),
            doc,
            interface,
            path,
            context,
            service_name,
        ),
    decreases ids.len() - count,
{
    if count == ids.len() {
        assert(ids.take(count) =~= ids);
    } else {
        assert(ids.take(count + 1).drop_last() =~= ids.take(count));
        lemma_operations(ids, doc, interface, path, context, service_name, count + 1);
    }
}

/// The operations that some functions of an interface are.
pub fn build_operations(
    ids: &Vec<usize>,
    doc: &WitDocument,
    interface: &WitInterface,
    path: &str,
    context: &str,
    service_name: &str,
) -> (result: Result<Vec<OperationSpec>, Error>)
    requires
        doc.wf(),
        doc.interface_ok(*interface),
        crate::wit::declare::ids_below(ids@, interface.functions@.len() as int),
    ensures
        match (result, operations_outcome(ids@, *doc, *interface, path@, context@, service_name@)) {
            (Ok(found), Ok(wanted)) => operation_spec_views(found@) == wanted,
            (Err(error), Err(wanted)) => error@ == wanted,
            _ => false,
        },
{
    let mut list: Vec<OperationSpec> = Vec::new();
    let mut i: usize = 0;
    assert(operation_spec_views(list@) =~= Seq::empty());
    while i < ids.len()
        invariant
            i <= ids.len(),
            doc.wf(),
            doc.interface_ok(*interface),
            crate::wit::declare::ids_below(ids@, interface.functions@.len() as int),
            operations_outcome(
                ids@.take(i as int),
                *doc,
                *interface,
                path@,
                context@,
                service_name@,
            ) == Ok::<Seq<OperationView>, ErrorView>(operation_spec_views(list@)),
        decreases ids.len() - i,
    {
        assert(ids@.take(i + 1).drop_last() =~= ids@.take(i as int));
        assert(ids@.take(i + 1).last() == ids@[i as int]);
        let id = &ids[i];
        let outcome: Result<OperationSpec, Error> = build_operation(
            doc,
            &interface.functions[*id],
            path,
            context,
            service_name,
        );
        match outcome {
            Ok(part) => {
                let ghost before = list@;
                list.push(part);
                assert(operation_spec_views(list@) =~= operation_spec_views(before).push(part@));
            },
            Err(error) => {
                proof {
                    lemma_operations(ids@, *doc, *interface, path@, context@, service_name@, i + 1);
                }
                return Err(error);
            },
        }
        i += 1;
    }
    assert(ids@.take(i as int) =~= ids@);
    Ok(list)
}

/// A field of a resource, or a parameter of one of its methods.
pub open spec fn resource_field_outcome(
    doc: WitDocument,
    param: WitParam,
    path: Seq<char>,
    context: Seq<char>,
    language: Language,
) -> Result<ResourceFieldView, ErrorView> {
    let field_type_outcome = crate::wit::function::resolved_type_for_language(
        doc,
        param.ty,
        path,
        context,
        language,
    );
    let field_type = field_type_outcome->Ok_0;
    let found_outcome = crate::wit::function::flattened_function_outcome(
        doc,
        param.ty,
        path,
        language,
    );
    let found = found_outcome->Ok_0;
    if field_type_outcome is Err {
        Err(field_type_outcome->Err_0)
    } else if found_outcome is Err {
        Err(found_outcome->Err_0)
    } else {
        Ok(ResourceFieldView {
                name: param.name@,
                optional: crate::wit::resolve::optional_behind(doc, param.ty),
                field_type,
                function: match found {
                    Some(found) => Some(found.function),
                    None => None,
                },
        })
    }
}

/// A field of a resource, or a parameter of one of its methods.
pub fn build_resource_field(
    doc: &WitDocument,
    param: &WitParam,
    path: &str,
    context: &str,
    language: Language,
) -> (result: Result<ResourceFieldSpec, Error>)
    requires
        doc.wf(),
        crate::wit::document::type_below(param.ty, doc.types@.len() as int),
    ensures
        crate::error::outcome(result) == resource_field_outcome(
            *doc,
            *param,
            path@,
            context@,
            language,
        ),
{
    let field_type = match resolve_type_for_language(doc, param.ty, path, context, language) {
        Ok(value) => value,
        Err(error) => return Err(error),
    };
    let found = match find_flattened_function_type_spec(doc, param.ty, path, language) {
        Ok(value) => value,
        Err(error) => return Err(error),
    };
    Ok(ResourceFieldSpec {
        name: param.name.clone(),
        optional: is_optional_type(doc, param.ty),
        field_type,
        function: match found {
            Some(found) => Some(found.function),
            None => None,
        },
    })
}

/// The fields that some parameters of a function are.
pub open spec fn resource_fields_outcome(
    ids: Seq<usize>,
    doc: WitDocument,
    function: WitFunction,
    path: Seq<char>,
    context: Seq<char>,
    language: Language,
) -> Result<Seq<ResourceFieldView>, ErrorView>
    decreases ids.len(),
{
    if ids.len() == 0 {
        Ok(Seq::empty())
    } else {
        let id = ids.last();
        match resource_fields_outcome(ids.drop_last(), doc, function, path, context, language) {
            Err(error) => Err(error),
            Ok(before) => {
                let outcome: Result<ResourceFieldView, ErrorView> = resource_field_outcome(
                    doc,
                    function.params@[id as int],
                    path,
                    context,
                    language,
                );
                match outcome {
                    Ok(part) => Ok(before.push(part)),
                    Err(error) => Err(error),
                }
            },
        }
    }
}

proof fn lemma_resource_fields(
    ids: Seq<usize>,
    doc: WitDocument,
    function: WitFunction,
    path: Seq<char>,
    context: Seq<char>,
    language: Language,
    count: int,
)
    requires
        0 <= count <= ids.len(),
        resource_fields_outcome(ids.take(count), doc, function, path, context, language) is Err,
    ensures
        resource_fields_outcome(
            ids,
            doc,
            function,
            path,
            context,
            language,
        ) == resource_fields_outcome(
            ids.take(count),
            doc,
            function,
            path,
            context,
            language,
        ),
    decreases ids.len() - count,
{
    if count == ids.len() {
        assert(ids.take(count) =~= ids);
    } else {
        assert(ids.take(count + 1).drop_last() =~= ids.take(count));
        lemma_resource_fields(ids, doc, function, path, context, language, count + 1);
    }
}

/// The fields that some parameters of a function are.
pub fn build_resource_fields(
    ids: &Vec<usize>,
    doc: &WitDocument,
    function: &WitFunction,
    path: &str,
    context: &str,
    language: Language,
) -> (result: Result<Vec<ResourceFieldSpec>, Error>)
    requires
        doc.wf(),
        doc.function_ok(*function),
        crate::wit::declare::ids_below(ids@, function.params@.len() as int),
    ensures
        match (result, resource_fields_outcome(ids@, *doc, *function, path@, context@, language)) {
            (Ok(found), Ok(wanted)) => resource_field_spec_views(found@) == wanted,
            (Err(error), Err(wanted)) => error@ == wanted,
            _ => false,
        },
{
    let mut list: Vec<ResourceFieldSpec> = Vec::new();
    let mut i: usize = 0;
    assert(resource_field_spec_views(list@) =~= Seq::empty());
    while i < ids.len()
        invariant
            i <= ids.len(),
            doc.wf(),
            doc.function_ok(*function),
            crate::wit::declare::ids_below(ids@, function.params@.len() as int),
            resource_fields_outcome(
                ids@.take(i as int),
                *doc,
                *function,
                path@,
                context@,
                language,
            ) == Ok::<Seq<ResourceFieldView>, ErrorView>(resource_field_spec_views(list@)),
        decreases ids.len() - i,
    {
        assert(ids@.take(i + 1).drop_last() =~= ids@.take(i as int));
        assert(ids@.take(i + 1).last() == ids@[i as int]);
        let id = &ids[i];
        let outcome: Result<ResourceFieldSpec, Error> = build_resource_field(
            doc,
            &function.params[*id],
            path,
            context,
            language,
        );
        match outcome {
            Ok(part) => {
                let ghost before = list@;
                list.push(part);
                assert(
                    resource_field_spec_views(list@)
                        =~= resource_field_spec_views(before).push(part@)
                );
            },
            Err(error) => {
                proof {
                    lemma_resource_fields(ids@, *doc, *function, path@, context@, language, i + 1);
                }
                return Err(error);
            },
        }
        i += 1;
    }
    assert(ids@.take(i as int) =~= ids@);
    Ok(list)
}

/// What a method of a resource gives back.
pub open spec fn resource_result_outcome(
    doc: WitDocument,
    ty: Option<WitType>,
    path: Seq<char>,
    context: Seq<char>,
    language: Language,
) -> Result<Option<ResourceResultView>, ErrorView> {
    match ty {
        None => Ok(None),
        Some(ty) => {
            let result_type_outcome = crate::wit::function::resolved_type_for_language(
                doc,
                ty,
                path,
                context,
                language,
            );
            let result_type = result_type_outcome->Ok_0;
            if result_type_outcome is Err {
                Err(result_type_outcome->Err_0)
            } else {
                Ok(Some(ResourceResultView { result_type }))
            }
        },
    }
}

/// What a method of a resource gives back.
pub fn build_resource_result(
    doc: &WitDocument,
    ty: Option<WitType>,
    path: &str,
    context: &str,
    language: Language,
) -> (result: Result<Option<ResourceResultSpec>, Error>)
    requires
        doc.wf(),
        crate::wit::document::opt_type_below(ty, doc.types@.len() as int),
    ensures
        crate::error::opt_outcome(result) == resource_result_outcome(
            *doc,
            ty,
            path@,
            context@,
            language,
        ),
{
    match ty {
        None => Ok(None),
        Some(ty) => {
            let result_type = match resolve_type_for_language(doc, ty, path, context, language) {
                Ok(value) => value,
                Err(error) => return Err(error),
            };
            Ok(Some(ResourceResultSpec { result_type }))
        },
    }
}

/// The method of a resource that a function is.
pub open spec fn resource_method_outcome(
    doc: WitDocument,
    function: WitFunction,
    path: Seq<char>,
    resource_context: Seq<char>,
    language: Language,
) -> Result<ResourceMethodView, ErrorView> {
    let name = crate::text::last_segment(function.name@, '.');
    let label = crate::naming::upper_camel(name);
    let context = resource_context + " method `"@ + label + "`"@;
    let directives_outcome = crate::wit::directive::directives_outcome(
        crate::text::opt_text(function.docs),
        path,
        context,
    );
    let directives = directives_outcome->Ok_0;
    let checked = crate::wit::strings::misplaced_type_parameter_outcome(directives, path, context);
    let params_outcome = resource_fields_outcome(
        own_params(function.params@),
        doc,
        function,
        path,
        context,
        language,
    );
    let params = params_outcome->Ok_0;
    let result_outcome = resource_result_outcome(doc, function.result, path, context, language);
    let result = result_outcome->Ok_0;
    let operation_name_outcome = method_operation_name(directives, path, context);
    let operation_name = operation_name_outcome->Ok_0;
    if directives_outcome is Err {
        Err(directives_outcome->Err_0)
    } else if checked is Err {
        Err(checked->Err_0)
    } else if params_outcome is Err {
        Err(params_outcome->Err_0)
    } else if result_outcome is Err {
        Err(result_outcome->Err_0)
    } else if operation_name_outcome is Err {
        Err(operation_name_outcome->Err_0)
    } else {
        Ok(ResourceMethodView { name, params, result, operation_name })
    }
}

/// The method of a resource that a function is.
pub fn build_resource_method(
    doc: &WitDocument,
    function: &WitFunction,
    path: &str,
    resource_context: &str,
    language: Language,
) -> (result: Result<ResourceMethodSpec, Error>)
    requires
        doc.wf(),
        doc.function_ok(*function),
    ensures
        crate::error::outcome(result) == resource_method_outcome(
            *doc,
            *function,
            path@,
            resource_context@,
            language,
        ),
{
    let name = last_segment_of(function.name.as_str(), '.');
    let label = to_upper_camel(name.as_str());
    let context = resource_context.to_owned().concat(" method `").concat(label.as_str())
        .concat("`");
    let directives = match parse_directives(&function.docs, path, context.as_str()) {
        Ok(value) => value,
        Err(error) => return Err(error),
    };
    match reject_misplaced_type_parameter(&directives, path, context.as_str()) {
        Ok(_) => {},
        Err(error) => return Err(error),
    }
    let params = match build_resource_fields(
        &select_own_params(&function.params),
        doc,
        function,
        path,
        context.as_str(),
        language,
    ) {
        Ok(value) => value,
        Err(error) => return Err(error),
    };
    let result = match build_resource_result(
        doc,
        function.result,
        path,
        context.as_str(),
        language,
    ) {
        Ok(value) => value,
        Err(error) => return Err(error),
    };
    let operation_name = match build_resource_method_operation_name(
        &directives,
        path,
        context.as_str(),
    ) {
        Ok(value) => value,
        Err(error) => return Err(error),
    };
    Ok(ResourceMethodSpec { name, params, result, operation_name })
}

/// The methods of a resource that some functions of an interface are.
pub open spec fn resource_methods_outcome(
    ids: Seq<usize>,
    doc: WitDocument,
    interface: WitInterface,
    path: Seq<char>,
    context: Seq<char>,
    language: Language,
) -> Result<Seq<ResourceMethodView>, ErrorView>
    decreases ids.len(),
{
    if ids.len() == 0 {
        Ok(Seq::empty())
    } else {
        let id = ids.last();
        match resource_methods_outcome(ids.drop_last(), doc, interface, path, context, language) {
            Err(error) => Err(error),
            Ok(before) => {
                let outcome: Result<ResourceMethodView, ErrorView> = resource_method_outcome(
                    doc,
                    interface.functions@[id as int],
                    path,
                    context,
                    language,
                );
                match outcome {
                    Ok(part) => Ok(before.push(part)),
                    Err(error) => Err(error),
                }
            },
        }
    }
}

proof fn lemma_resource_methods(
    ids: Seq<usize>,
    doc: WitDocument,
    interface: WitInterface,
    path: Seq<char>,
    context: Seq<char>,
    language: Language,
    count: int,
)
    requires
        0 <= count <= ids.len(),
        resource_methods_outcome(ids.take(count), doc, interface, path, context, language) is Err,
    ensures
        resource_methods_outcome(
            ids,
            doc,
            interface,
            path,
            context,
            language,
        ) == resource_methods_outcome(
            ids.take(count),
            doc,
            interface,
            path,
            context,
            language,
        ),
    decreases ids.len() - count,
{
    if count == ids.len() {
        assert(ids.take(count) =~= ids);
    } else {
        assert(ids.take(count + 1).drop_last() =~= ids.take(count));
        lemma_resource_methods(ids, doc, interface, path, context, language, count + 1);
    }
}

/// The methods of a resource that some functions of an interface are.
pub fn build_resource_methods(
    ids: &Vec<usize>,
    doc: &WitDocument,
    interface: &WitInterface,
    path: &str,
    context: &str,
    language: Language,
) -> (result: Result<Vec<ResourceMethodSpec>, Error>)
    requires
        doc.wf(),
        doc.interface_ok(*interface),
        crate::wit::declare::ids_below(ids@, interface.functions@.len() as int),
    ensures
        match (
            result,
            resource_methods_outcome(ids@, *doc, *interface, path@, context@, language)
        ) {
            (Ok(found), Ok(wanted)) => resource_method_spec_views(found@) == wanted,
            (Err(error), Err(wanted)) => error@ == wanted,
            _ => false,
        },
{
    let mut list: Vec<ResourceMethodSpec> = Vec::new();
    let mut i: usize = 0;
    assert(resource_method_spec_views(list@) =~= Seq::empty());
    while i < ids.len()
        invariant
            i <= ids.len(),
            doc.wf(),
            doc.interface_ok(*interface),
            crate::wit::declare::ids_below(ids@, interface.functions@.len() as int),
            resource_methods_outcome(
                ids@.take(i as int),
                *doc,
                *interface,
                path@,
                context@,
                language,
            ) == Ok::<Seq<ResourceMethodView>, ErrorView>(resource_method_spec_views(list@)),
        decreases ids.len() - i,
    {
        assert(ids@.take(i + 1).drop_last() =~= ids@.take(i as int));
        assert(ids@.take(i + 1).last() == ids@[i as int]);
        let id = &ids[i];
        let outcome: Result<ResourceMethodSpec, Error> = build_resource_method(
            doc,
            &interface.functions[*id],
            path,
            context,
            language,
        );
        match outcome {
            Ok(part) => {
                let ghost before = list@;
                list.push(part);
                assert(
                    resource_method_spec_views(list@)
                        =~= resource_method_spec_views(before).push(part@)
                );
            },
            Err(error) => {
                proof {
                    lemma_resource_methods(
                        ids@,
                        *doc,
                        *interface,
                        path@,
                        context@,
                        language,
                        i + 1,
                    );
                }
                return Err(error);
            },
        }
        i += 1;
    }
    assert(ids@.take(i as int) =~= ids@);
    Ok(list)
}

/// Fields, or an error, by what they show.
pub open spec fn fields_result(result: Result<Vec<ResourceFieldSpec>, Error>) -> Result<
    Seq<ResourceFieldView>,
    ErrorView,
> {
    match result {
        Ok(fields) => Ok(resource_field_spec_views(fields@)),
        Err(error) => Err(error@),
    }
}

/// No fields.
fn no_fields() -> (fields: Vec<ResourceFieldSpec>)
    ensures
        resource_field_spec_views(fields@) == Seq::<ResourceFieldView>::empty(),
{
    let fields: Vec<ResourceFieldSpec> = Vec::new();
    assert(resource_field_spec_views(fields@) =~= Seq::<ResourceFieldView>::empty());
    fields
}

/// The fields of a resource: the parameters of its constructor.
pub open spec fn constructor_fields_outcome(
    doc: WitDocument,
    interface: WitInterface,
    resource: usize,
    path: Seq<char>,
    context: Seq<char>,
    language: Language,
) -> Result<Seq<ResourceFieldView>, ErrorView> {
    let constructors = functions_of_kind(
        interface.functions@,
        WitFunctionKind::Constructor(resource),
    );
    if constructors.len() == 0 {
        Ok(Seq::empty())
    } else {
        let constructor = interface.functions@[constructors[0] as int];
        let constructor_context = context + " constructor"@;
        let directives_outcome = crate::wit::directive::directives_outcome(
            crate::text::opt_text(constructor.docs),
            path,
            constructor_context,
        );
        let directives = directives_outcome->Ok_0;
        let checked = crate::wit::strings::misplaced_type_parameter_outcome(
            directives,
            path,
            constructor_context,
        );
        if directives_outcome is Err {
            Err(directives_outcome->Err_0)
        } else if checked is Err {
            Err(checked->Err_0)
        } else {
            resource_fields_outcome(
                all_params(constructor.params@),
                doc,
                constructor,
                path,
                context,
                language,
            )
        }
    }
}

/// The fields of a resource: the parameters of its constructor.
pub fn build_constructor_fields(
    doc: &WitDocument,
    interface: &WitInterface,
    resource: usize,
    path: &str,
    context: &str,
    language: Language,
) -> (result: Result<Vec<ResourceFieldSpec>, Error>)
    requires
        doc.wf(),
        doc.interface_ok(*interface),
    ensures
        fields_result(result) == constructor_fields_outcome(
            *doc,
            *interface,
            resource,
            path@,
            context@,
            language,
        ),
{
    let constructors = select_functions(
        &interface.functions,
        WitFunctionKind::Constructor(resource),
    );
    if constructors.len() == 0 {
        Ok(no_fields())
    } else {
        let constructor = &interface.functions[constructors[0]];
        let constructor_context = context.to_owned().concat(" constructor");
        let directives = match parse_directives(
            &constructor.docs,
            path,
            constructor_context.as_str(),
        ) {
            Ok(value) => value,
            Err(error) => return Err(error),
        };
        match reject_misplaced_type_parameter(&directives, path, constructor_context.as_str()) {
            Ok(_) => {},
            Err(error) => return Err(error),
        }
        build_resource_fields(
            &select_all_params(&constructor.params),
            doc,
            constructor,
            path,
            context,
            language,
        )
    }
}

/// A resource has no static methods.
pub open spec fn static_methods_outcome(
    interface: WitInterface,
    resource: usize,
    path: Seq<char>,
    context: Seq<char>,
) -> Result<(), ErrorView> {
    let statics = functions_of_kind(interface.functions@, WitFunctionKind::Static(resource));
    if statics.len() == 0 {
        Ok(())
    } else {
        let function = interface.functions@[statics[0] as int];
        Err(
            crate::wit::directive::wit_failure(
                path,
                (context + " static methods are not supported yet (`"@ + function.name@ + "`)"@),
            ),
        )
    }
}

/// A resource has no static methods.
pub fn refuse_static_methods(
    interface: &WitInterface,
    resource: usize,
    path: &str,
    context: &str,
) -> (result: Result<(), Error>)
    ensures
        crate::error::outcome(result) == static_methods_outcome(
            *interface,
            resource,
            path@,
            context@,
        ),
{
    let statics = select_functions(&interface.functions, WitFunctionKind::Static(resource));
    if statics.len() == 0 {
        Ok(())
    } else {
        let function = &interface.functions[statics[0]];
        Err(
            wit_error(
                path,
                context.to_owned().concat(" static methods are not supported yet (`")
                    .concat(function.name.as_str()).concat("`)").as_str(),
            ),
        )
    }
}

/// The resource that a type is.
pub open spec fn resource_outcome(
    doc: WitDocument,
    interface: WitInterface,
    id: usize,
    path: Seq<char>,
    service_context: Seq<char>,
    language: Language,
) -> Result<ResourceView, ErrorView> {
    match doc.types@[id as int].name {
        None => Err(
            crate::wit::directive::wit_failure(
                path,
                (service_context + " declares an unnamed resource"@),
            ),
        ),
        Some(name) => {
            let label = crate::naming::upper_camel(name@);
            let context = service_context + " resource `"@ + label + "`"@;
            let fields_outcome = constructor_fields_outcome(
                doc,
                interface,
                id,
                path,
                context,
                language,
            );
            let fields = fields_outcome->Ok_0;
            let methods_outcome = resource_methods_outcome(
                functions_of_kind(interface.functions@, WitFunctionKind::Method(id)),
                doc,
                interface,
                path,
                context,
                language,
            );
            let methods = methods_outcome->Ok_0;
            let checked = static_methods_outcome(interface, id, path, context);
            if fields_outcome is Err {
                Err(fields_outcome->Err_0)
            } else if methods_outcome is Err {
                Err(methods_outcome->Err_0)
            } else if checked is Err {
                Err(checked->Err_0)
            } else {
                Ok(ResourceView { name: name@, fields, methods })
            }
        },
    }
}

/// The resource that a type is.
pub fn build_resource(
    doc: &WitDocument,
    interface: &WitInterface,
    id: usize,
    path: &str,
    service_context: &str,
    language: Language,
) -> (result: Result<ResourceSpec, Error>)
    requires
        doc.wf(),
        doc.interface_ok(*interface),
        id < doc.types@.len(),
    ensures
        crate::error::outcome(result) == resource_outcome(
            *doc,
            *interface,
            id,
            path@,
            service_context@,
            language,
        ),
{
    match &doc.types[id].name {
        None => Err(
            wit_error(
                path,
                service_context.to_owned().concat(" declares an unnamed resource").as_str(),
            ),
        ),
        Some(name) => {
            let label = to_upper_camel(name.as_str());
            let context = service_context.to_owned().concat(" resource `").concat(label.as_str())
                .concat("`");
            let fields = match build_constructor_fields(
                doc,
                interface,
                id,
                path,
                context.as_str(),
                language,
            ) {
                Ok(value) => value,
                Err(error) => return Err(error),
            };
            let methods = match build_resource_methods(
                &select_functions(&interface.functions, WitFunctionKind::Method(id)),
                doc,
                interface,
                path,
                context.as_str(),
                language,
            ) {
                Ok(value) => value,
                Err(error) => return Err(error),
            };
            match refuse_static_methods(interface, id, path, context.as_str()) {
                Ok(_) => {},
                Err(error) => return Err(error),
            }
            Ok(ResourceSpec { name: name.clone(), fields, methods })
        },
    }
}

/// The resources that some types are.
pub open spec fn resources_outcome(
    ids: Seq<usize>,
    doc: WitDocument,
    interface: WitInterface,
    path: Seq<char>,
    context: Seq<char>,
    language: Language,
) -> Result<Seq<ResourceView>, ErrorView>
    decreases ids.len(),
{
    if ids.len() == 0 {
        Ok(Seq::empty())
    } else {
        let id = ids.last();
        match resources_outcome(ids.drop_last(), doc, interface, path, context, language) {
            Err(error) => Err(error),
            Ok(before) => {
                let outcome: Result<ResourceView, ErrorView> = resource_outcome(
                    doc,
                    interface,
                    id,
                    path,
                    context,
                    language,
                );
                match outcome {
                    Ok(part) => Ok(before.push(part)),
                    Err(error) => Err(error),
                }
            },
        }
    }
}

proof fn lemma_resources(
    ids: Seq<usize>,
    doc: WitDocument,
    interface: WitInterface,
    path: Seq<char>,
    context: Seq<char>,
    language: Language,
    count: int,
)
    requires
        0 <= count <= ids.len(),
        resources_outcome(ids.take(count), doc, interface, path, context, language) is Err,
    ensures
        resources_outcome(ids, doc, interface, path, context, language) == resources_outcome(
            ids.take(count),
            doc,
            interface,
            path,
            context,
            language,
        ),
    decreases ids.len() - count,
{
    if count == ids.len() {
        assert(ids.take(count) =~= ids);
    } else {
        assert(ids.take(count + 1).drop_last() =~= ids.take(count));
        lemma_resources(ids, doc, interface, path, context, language, count + 1);
    }
}

/// The resources that some types are.
pub fn build_resources(
    ids: &Vec<usize>,
    doc: &WitDocument,
    interface: &WitInterface,
    path: &str,
    context: &str,
    language: Language,
) -> (result: Result<Vec<ResourceSpec>, Error>)
    requires
        doc.wf(),
        doc.interface_ok(*interface),
        crate::wit::declare::ids_below(ids@, doc.types@.len() as int),
    ensures
        match (result, resources_outcome(ids@, *doc, *interface, path@, context@, language)) {
            (Ok(found), Ok(wanted)) => resource_spec_views(found@) == wanted,
            (Err(error), Err(wanted)) => error@ == wanted,
            _ => false,
        },
{
    let mut list: Vec<ResourceSpec> = Vec::new();
    let mut i: usize = 0;
    assert(resource_spec_views(list@) =~= Seq::empty());
    while i < ids.len()
        invariant
            i <= ids.len(),
            doc.wf(),
            doc.interface_ok(*interface),
            crate::wit::declare::ids_below(ids@, doc.types@.len() as int),
            resources_outcome(
                ids@.take(i as int),
                *doc,
                *interface,
                path@,
                context@,
                language,
            ) == Ok::<Seq<ResourceView>, ErrorView>(resource_spec_views(list@)),
        decreases ids.len() - i,
    {
        assert(ids@.take(i + 1).drop_last() =~= ids@.take(i as int));
        assert(ids@.take(i + 1).last() == ids@[i as int]);
        let id = &ids[i];
        let outcome: Result<ResourceSpec, Error> = build_resource(
            doc,
            interface,
            *id,
            path,
            context,
            language,
        );
        match outcome {
            Ok(part) => {
                let ghost before = list@;
                list.push(part);
                assert(resource_spec_views(list@) =~= resource_spec_views(before).push(part@));
            },
            Err(error) => {
                proof {
                    lemma_resources(ids@, *doc, *interface, path@, context@, language, i + 1);
                }
                return Err(error);
            },
        }
        i += 1;
    }
    assert(ids@.take(i as int) =~= ids@);
    Ok(list)
}

/// The name under which an interface is exported.
pub open spec fn export_name(export: WitExport, interface: WitInterface) -> Seq<char> {
    match export.name {
        Some(name) => name@,
        None => crate::wit::resolve::interface_label_text(interface),
    }
}

/// The name under which an interface is exported.
pub fn interface_export_name(export: &WitExport, interface: &WitInterface) -> (result: String)
    ensures
        result@ == export_name(*export, *interface),
{
    match &export.name {
        Some(name) => name.clone(),
        None => interface_label(interface),
    }
}

/// The service that an exported interface is.
pub open spec fn service_outcome(
    export: WitExport,
    doc: WitDocument,
    path: Seq<char>,
    language: Language,
) -> Result<ServiceView, ErrorView> {
    let interface = doc.interfaces@[export.interface as int];

    let interface_name = export_name(export, interface);
    let context = "interface `"@ + interface_name + "`"@;
    let directives_outcome = crate::wit::directive::directives_outcome(
        crate::text::opt_text(interface.docs),
        path,
        context,
    );
    let directives = directives_outcome->Ok_0;
    let checked = crate::wit::strings::misplaced_type_parameter_outcome(directives, path, context);
    let endpoint_outcome = crate::wit::strings::directive_text_for_language(
        directives,
        "endpoint"@,
        path,
        context,
        language,
    );
    let endpoint = endpoint_outcome->Ok_0;
    let name = crate::naming::upper_camel(interface_name);
    let wire_name_outcome = wire_service_name(directives, path, context, name);
    let wire_name = wire_name_outcome->Ok_0;
    let namespace_outcome = crate::wit::declare::strings_or_none_outcome(
        directives,
        "namespace"@,
        path,
        context,
    );
    let namespace = namespace_outcome->Ok_0;
    let operations_class_outcome = crate::wit::declare::strings_or_none_outcome(
        directives,
        "operations-class"@,
        path,
        context,
    );
    let operations_class = operations_class_outcome->Ok_0;
    let experimental_outcome = crate::wit::strings::experimental_outcome(directives, path, context);
    let experimental = experimental_outcome->Ok_0;
    let delayed_outcome = crate::wit::strings::delay_load_outcome(directives, path, context);
    let delayed = delayed_outcome->Ok_0;
    let operations_outcome = operations_outcome(
        functions_of_kind(interface.functions@, WitFunctionKind::Freestanding),
        doc,
        interface,
        path,
        context,
        name,
    );
    let operations = operations_outcome->Ok_0;
    let checked_2 = unique_wire_names_outcome(path, context, operations);
    let resources_outcome = resources_outcome(
        resource_ids(doc, interface.types@),
        doc,
        interface,
        path,
        context,
        language,
    );
    let resources = resources_outcome->Ok_0;
    if directives_outcome is Err {
        Err(directives_outcome->Err_0)
    } else if checked is Err {
        Err(checked->Err_0)
    } else if endpoint_outcome is Err {
        Err(endpoint_outcome->Err_0)
    } else if wire_name_outcome is Err {
        Err(wire_name_outcome->Err_0)
    } else if namespace_outcome is Err {
        Err(namespace_outcome->Err_0)
    } else if operations_class_outcome is Err {
        Err(operations_class_outcome->Err_0)
    } else if experimental_outcome is Err {
        Err(experimental_outcome->Err_0)
    } else if delayed_outcome is Err {
        Err(delayed_outcome->Err_0)
    } else if operations_outcome is Err {
        Err(operations_outcome->Err_0)
    } else if checked_2 is Err {
        Err(checked_2->Err_0)
    } else if resources_outcome is Err {
        Err(resources_outcome->Err_0)
    } else {
        Ok(ServiceView {
                name,
                code_name: crate::plan::no_strings(),
                wire_name,
                doc: crate::plan::no_strings(),
                namespace,
                operations_class,
                endpoint,
                experimental,
                deprecated: false,
                delay_load_temporalio_workflow: delayed,
                operations,
                resources,
        })
    }
}

/// The service that an exported interface is.
pub fn build_service(
    export: &WitExport,
    doc: &WitDocument,
    path: &str,
    language: Language,
) -> (result: Result<ServiceSpec, Error>)
    requires
        doc.wf(),
        export.interface < doc.interfaces@.len(),
    ensures
        crate::error::outcome(result) == service_outcome(*export, *doc, path@, language),
{
    let interface = &doc.interfaces[export.interface];
    proof { assert(doc.interface_ok(doc.interfaces@[export.interface as int])); }
    let interface_name = interface_export_name(export, interface);
    let context = "interface `".to_owned().concat(interface_name.as_str()).concat("`");
    let directives = match parse_directives(&interface.docs, path, context.as_str()) {
        Ok(value) => value,
        Err(error) => return Err(error),
    };
    match reject_misplaced_type_parameter(&directives, path, context.as_str()) {
        Ok(_) => {},
        Err(error) => return Err(error),
    }
    let endpoint = match directive_value_for_language(
        &directives,
        "endpoint",
        path,
        context.as_str(),
        language,
    ) {
        Ok(value) => value,
        Err(error) => return Err(error),
    };
    let name = to_upper_camel(interface_name.as_str());
    let wire_name = match build_wire_service_name(
        &directives,
        path,
        context.as_str(),
        name.as_str(),
    ) {
        Ok(value) => value,
        Err(error) => return Err(error),
    };
    let namespace = match strings_or_none(&directives, "namespace", path, context.as_str()) {
        Ok(value) => value,
        Err(error) => return Err(error),
    };
    let operations_class = match strings_or_none(
        &directives,
        "operations-class",
        path,
        context.as_str(),
    ) {
        Ok(value) => value,
        Err(error) => return Err(error),
    };
    let experimental = match experimental_directive(&directives, path, context.as_str()) {
        Ok(value) => value,
        Err(error) => return Err(error),
    };
    let delayed = match delay_load_temporalio_workflow_directive(
        &directives,
        path,
        context.as_str(),
    ) {
        Ok(value) => value,
        Err(error) => return Err(error),
    };
    let operations = match build_operations(
        &select_functions(&interface.functions, WitFunctionKind::Freestanding),
        doc,
        interface,
        path,
        context.as_str(),
        name.as_str(),
    ) {
        Ok(value) => value,
        Err(error) => return Err(error),
    };
    match ensure_unique_wire_operation_names(path, context.as_str(), &operations) {
        Ok(_) => {},
        Err(error) => return Err(error),
    }
    let resources = match build_resources(
        &select_resources(doc, &interface.types),
        doc,
        interface,
        path,
        context.as_str(),
        language,
    ) {
        Ok(value) => value,
        Err(error) => return Err(error),
    };
    Ok(ServiceSpec {
        name,
        code_name: LanguageStringSpec::new(),
        wire_name,
        doc: LanguageStringSpec::new(),
        namespace,
        operations_class,
        endpoint,
        experimental,
        deprecated: false,
        delay_load_temporalio_workflow: delayed,
        operations,
        resources,
    })
}

/// Whether every export is of a declared interface.
pub open spec fn exports_below(exports: Seq<WitExport>, limit: int) -> bool {
    forall|i: int| 0 <= i < exports.len() ==> (#[trigger] exports[i]).interface < limit
}

/// The services that exported interfaces are.
pub open spec fn services_outcome(
    exports: Seq<WitExport>,
    doc: WitDocument,
    path: Seq<char>,
    language: Language,
) -> Result<Seq<ServiceView>, ErrorView>
    decreases exports.len(),
{
    if exports.len() == 0 {
        Ok(Seq::empty())
    } else {
        let export = exports.last();
        match services_outcome(exports.drop_last(), doc, path, language) {
            Err(error) => Err(error),
            Ok(before) => {
                let outcome: Result<ServiceView, ErrorView> = service_outcome(
                    export,
                    doc,
                    path,
                    language,
                );
                match outcome {
                    Ok(part) => Ok(before.push(part)),
                    Err(error) => Err(error),
                }
            },
        }
    }
}

proof fn lemma_services(
    exports: Seq<WitExport>,
    doc: WitDocument,
    path: Seq<char>,
    language: Language,
    count: int,
)
    requires
        0 <= count <= exports.len(),
        services_outcome(exports.take(count), doc, path, language) is Err,
    ensures
        services_outcome(exports, doc, path, language) == services_outcome(
            exports.take(count),
            doc,
            path,
            language,
        ),
    decreases exports.len() - count,
{
    if count == exports.len() {
        assert(exports.take(count) =~= exports);
    } else {
        assert(exports.take(count + 1).drop_last() =~= exports.take(count));
        lemma_services(exports, doc, path, language, count + 1);
    }
}

/// The services that exported interfaces are.
pub fn build_services(
    exports: &Vec<WitExport>,
    doc: &WitDocument,
    path: &str,
    language: Language,
) -> (result: Result<Vec<ServiceSpec>, Error>)
    requires
        doc.wf(),
        exports_below(exports@, doc.interfaces@.len() as int),
    ensures
        match (result, services_outcome(exports@, *doc, path@, language)) {
            (Ok(found), Ok(wanted)) => service_spec_views(found@) == wanted,
            (Err(error), Err(wanted)) => error@ == wanted,
            _ => false,
        },
{
    let mut list: Vec<ServiceSpec> = Vec::new();
    let mut i: usize = 0;
    assert(service_spec_views(list@) =~= Seq::empty());
    while i < exports.len()
        invariant
            i <= exports.len(),
            doc.wf(),
            exports_below(exports@, doc.interfaces@.len() as int),
            services_outcome(
                exports@.take(i as int),
                *doc,
                path@,
                language,
            ) == Ok::<Seq<ServiceView>, ErrorView>(service_spec_views(list@)),
        decreases exports.len() - i,
    {
        assert(exports@.take(i + 1).drop_last() =~= exports@.take(i as int));
        assert(exports@.take(i + 1).last() == exports@[i as int]);
        let export = &exports[i];
        let outcome: Result<ServiceSpec, Error> = build_service(export, doc, path, language);
        match outcome {
            Ok(part) => {
                let ghost before = list@;
                list.push(part);
                assert(service_spec_views(list@) =~= service_spec_views(before).push(part@));
            },
            Err(error) => {
                proof {
                    lemma_services(exports@, *doc, path@, language, i + 1);
                }
                return Err(error);
            },
        }
        i += 1;
    }
    assert(exports@.take(i as int) =~= exports@);
    Ok(list)
}

} // verus!
