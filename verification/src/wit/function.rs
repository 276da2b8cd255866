//! The functions that fields of authored models hold.

use vstd::prelude::*;

use crate::error::{Error, ErrorView};
use crate::language::Language;
use crate::naming::to_snake;
use crate::plan::LanguageStringSpec;
use crate::text::{ends_with, replace_char, text_eq};
use crate::wit::directive::{directive, directive_error, parse_directives, Directive};
use crate::wit::document::{WitDocument, WitName, WitOwner, WitType, WitTypeKind};
use crate::wit::resolve::{
    find_signature, resolve_authored_field_type_spec, resolve_function_signature,
    resolve_function_signature_args_for_function, resolve_opt_type, resolve_types, type_label,
    FunctionArgSpec, FunctionArgsSpec, ResolvedFunctionSignature,
};
use crate::wit::strings::{
    directive_converter, directive_flag, directive_function_call_extractor,
    directive_function_name_extractor, directive_language_string_for_key,
    directive_result_language_string, directive_result_type_parameter,
};
use crate::wit::types::{
    authored_field_type_for_language, copy_type, opt_authored_type_for_language, primitive_wit_type,
    type_is_list, TypeSpec,
};

verus! {

/// The result of a function: as it is written for each language, or an authored type.
#[derive(Debug)]
pub enum FunctionResultSpec {
    Annotation(LanguageStringSpec),
    Authored(TypeSpec),
}

/// A [`FunctionResultSpec`] by its texts.
#[verifier::ext_equal]
pub enum FunctionResultView {
    Annotation(crate::plan::LanguageStringView),
    Authored(crate::wit::types::TypeView),
}

impl View for FunctionResultSpec {
    type V = FunctionResultView;

    open spec fn view(&self) -> FunctionResultView {
        match *self {
            FunctionResultSpec::Annotation(strings) => FunctionResultView::Annotation(strings@),
            FunctionResultSpec::Authored(t) => FunctionResultView::Authored(t@),
        }
    }
}

/// How the types of a function value and of its arguments are written.
#[derive(Debug)]
pub struct FunctionTypeDescriptorSpec {
    pub value_type: LanguageStringSpec,
    pub args_type: LanguageStringSpec,
}

/// A [`FunctionTypeDescriptorSpec`] by its texts.
#[verifier::ext_equal]
pub struct TypeDescriptorView {
    pub value_type: crate::plan::LanguageStringView,
    pub args_type: crate::plan::LanguageStringView,
}

impl View for FunctionTypeDescriptorSpec {
    type V = TypeDescriptorView;

    open spec fn view(&self) -> TypeDescriptorView {
        TypeDescriptorView {
            value_type: self.value_type@,
            args_type: self.args_type@,
        }
    }
}

/// The texts of an optional [`FunctionTypeDescriptorSpec`].
pub open spec fn function_type_descriptor_spec_opt(
    value: Option<FunctionTypeDescriptorSpec>,
) -> Option<TypeDescriptorView> {
    match value {
        Some(value) => Some(value@),
        None => None,
    }
}

/// A function that a field holds, and the fields that hold its arguments.
#[derive(Debug)]
pub struct FunctionFieldSpec {
    pub primary: bool,
    pub result: FunctionResultSpec,
    pub args_field: String,
    pub arg_fields: Vec<String>,
    pub args: FunctionArgsSpec,
    pub alternate_type: Option<TypeSpec>,
    pub converter: Option<String>,
    pub name_extractor: Option<String>,
    pub call_extractor: Option<String>,
    pub result_type_parameter: Option<String>,
    pub type_descriptor: Option<FunctionTypeDescriptorSpec>,
}

/// A [`FunctionFieldSpec`] by its texts.
#[verifier::ext_equal]
pub struct FunctionFieldView {
    pub primary: bool,
    pub result: FunctionResultView,
    pub args_field: Seq<char>,
    pub arg_fields: Seq<Seq<char>>,
    pub args: crate::wit::resolve::FunctionArgsView,
    pub alternate_type: Option<crate::wit::types::TypeView>,
    pub converter: Option<Seq<char>>,
    pub name_extractor: Option<Seq<char>>,
    pub call_extractor: Option<Seq<char>>,
    pub result_type_parameter: Option<Seq<char>>,
    pub type_descriptor: Option<TypeDescriptorView>,
}

impl View for FunctionFieldSpec {
    type V = FunctionFieldView;

    open spec fn view(&self) -> FunctionFieldView {
        FunctionFieldView {
            primary: self.primary,
            result: self.result@,
            args_field: self.args_field@,
            arg_fields: crate::text::texts(self.arg_fields@),
            args: self.args@,
            alternate_type: crate::wit::types::type_spec_opt(self.alternate_type),
            converter: crate::text::opt_text(self.converter),
            name_extractor: crate::text::opt_text(self.name_extractor),
            call_extractor: crate::text::opt_text(self.call_extractor),
            result_type_parameter: crate::text::opt_text(self.result_type_parameter),
            type_descriptor: function_type_descriptor_spec_opt(self.type_descriptor),
        }
    }
}

/// The texts of an optional [`FunctionFieldSpec`].
pub open spec fn function_field_spec_opt(
    value: Option<FunctionFieldSpec>,
) -> Option<FunctionFieldView> {
    match value {
        Some(value) => Some(value@),
        None => None,
    }
}

/// A function that an alias stands for, and the field that holds its arguments.
#[derive(Debug)]
pub struct AliasFunctionSpec {
    pub args_name: String,
    pub args_type: TypeSpec,
    pub function: FunctionFieldSpec,
}

/// A [`AliasFunctionSpec`] by its texts.
#[verifier::ext_equal]
pub struct AliasFunctionView {
    pub args_name: Seq<char>,
    pub args_type: crate::wit::types::TypeView,
    pub function: FunctionFieldView,
}

impl View for AliasFunctionSpec {
    type V = AliasFunctionView;

    open spec fn view(&self) -> AliasFunctionView {
        AliasFunctionView {
            args_name: self.args_name@,
            args_type: self.args_type@,
            function: self.function@,
        }
    }
}

/// A field that holds an argument of a function.
#[derive(Debug)]
pub struct FlattenedFunctionArgSpec {
    pub args_name: String,
    pub field_name: String,
    pub field_type: TypeSpec,
    pub required: bool,
}

/// A [`FlattenedFunctionArgSpec`] by its texts.
#[verifier::ext_equal]
pub struct FlattenedArgView {
    pub args_name: Seq<char>,
    pub field_name: Seq<char>,
    pub field_type: crate::wit::types::TypeView,
    pub required: bool,
}

impl View for FlattenedFunctionArgSpec {
    type V = FlattenedArgView;

    open spec fn view(&self) -> FlattenedArgView {
        FlattenedArgView {
            args_name: self.args_name@,
            field_name: self.field_name@,
            field_type: self.field_type@,
            required: self.required,
        }
    }
}

/// The texts of a list of [`FlattenedFunctionArgSpec`].
pub open spec fn flattened_function_arg_spec_views(
    items: Seq<FlattenedFunctionArgSpec>,
) -> Seq<FlattenedArgView> {
    items.map_values(|item: FlattenedFunctionArgSpec| item@)
}

/// A function that the type of a field stands for, and the fields that hold its arguments.
#[derive(Debug)]
pub struct FlattenedFunctionTypeSpec {
    pub arg_fields: Vec<FlattenedFunctionArgSpec>,
    pub function: FunctionFieldSpec,
}

/// A [`FlattenedFunctionTypeSpec`] by its texts.
#[verifier::ext_equal]
pub struct FlattenedFunctionView {
    pub arg_fields: Seq<FlattenedArgView>,
    pub function: FunctionFieldView,
}

impl View for FlattenedFunctionTypeSpec {
    type V = FlattenedFunctionView;

    open spec fn view(&self) -> FlattenedFunctionView {
        FlattenedFunctionView {
            arg_fields: flattened_function_arg_spec_views(self.arg_fields@),
            function: self.function@,
        }
    }
}

/// The authored type that a WIT type stands for.
pub open spec fn resolved_type(
    doc: WitDocument,
    ty: WitType,
    path: Seq<char>,
    context: Seq<char>,
) -> Result<crate::wit::types::TypeView, ErrorView> {
    crate::wit::resolve::type_outcome(doc, ty, path, context, doc.types.len())
}

/// The authored type that a WIT type stands for.
pub fn resolve_type(
    doc: &WitDocument,
    ty: WitType,
    path: &str,
    context: &str,
) -> (result: Result<TypeSpec, Error>)
    requires
        doc.wf(),
        crate::wit::document::type_below(ty, doc.types@.len() as int),
    ensures
        crate::error::outcome(result) == resolved_type(*doc, ty, path@, context@),
{
    resolve_authored_field_type_spec(doc, ty, path, context, doc.types.len())
}

/// The authored type that a WIT type stands for, as a language has it.
pub open spec fn resolved_type_for_language(
    doc: WitDocument,
    ty: WitType,
    path: Seq<char>,
    context: Seq<char>,
    language: Language,
) -> Result<crate::wit::types::TypeView, ErrorView> {
    let resolved_outcome = resolved_type(doc, ty, path, context);
    let resolved = resolved_outcome->Ok_0;
    if resolved_outcome is Err {
        Err(resolved_outcome->Err_0)
    } else {
        Ok(crate::wit::types::type_for_language(resolved, language))
    }
}

/// The authored type that a WIT type stands for, as a language has it.
pub fn resolve_type_for_language(
    doc: &WitDocument,
    ty: WitType,
    path: &str,
    context: &str,
    language: Language,
) -> (result: Result<TypeSpec, Error>)
    requires
        doc.wf(),
        crate::wit::document::type_below(ty, doc.types@.len() as int),
    ensures
        crate::error::outcome(result) == resolved_type_for_language(
            *doc,
            ty,
            path@,
            context@,
            language,
        ),
{
    let resolved = match resolve_type(doc, ty, path, context) {
        Ok(value) => value,
        Err(error) => return Err(error),
    };
    Ok(authored_field_type_for_language(&resolved, language))
}

/// The authored type that a declared WIT type is made of, where it is made of others.
pub open spec fn type_def_kind_outcome(
    doc: WitDocument,
    id: usize,
    path: Seq<char>,
    context: Seq<char>,
) -> Result<Option<crate::wit::types::TypeView>, ErrorView> {
    let type_def = doc.types@[id as int];

    match type_def.kind {
        WitTypeKind::Alias(next) => {
            let next_outcome = resolved_type(doc, next, path, context);
            let next = next_outcome->Ok_0;
            if next_outcome is Err {
                Err(next_outcome->Err_0)
            } else {
                Ok(Some(next))
            }
        },
        WitTypeKind::Optional(inner) => {
            let inner_outcome = resolved_type(doc, inner, path, context);
            let inner = inner_outcome->Ok_0;
            if inner_outcome is Err {
                Err(inner_outcome->Err_0)
            } else {
                Ok(Some(crate::wit::types::TypeView::Optional(Box::new(inner))))
            }
        },
        WitTypeKind::List(inner) => {
            let inner_outcome = resolved_type(doc, inner, path, context);
            let inner = inner_outcome->Ok_0;
            if inner_outcome is Err {
                Err(inner_outcome->Err_0)
            } else {
                Ok(Some(crate::wit::types::TypeView::List(Box::new(inner))))
            }
        },
        WitTypeKind::Tuple(items) => {
            let items_outcome = crate::wit::resolve::types_outcome(
                doc,
                items@,
                items.len(),
                id,
                path,
                context,
                doc.types.len(),
            );
            let items = items_outcome->Ok_0;
            if items_outcome is Err {
                Err(items_outcome->Err_0)
            } else {
                Ok(Some(crate::wit::types::TypeView::Tuple(items)))
            }
        },
        WitTypeKind::Mapping(key, value) => {
            let key_outcome = resolved_type(doc, key, path, context);
            let key = key_outcome->Ok_0;
            let value_outcome = resolved_type(doc, value, path, context);
            let value = value_outcome->Ok_0;
            if key_outcome is Err {
                Err(key_outcome->Err_0)
            } else if value_outcome is Err {
                Err(value_outcome->Err_0)
            } else {
                Ok(Some(crate::wit::types::TypeView::Mapping(Box::new(key), Box::new(value))))
            }
        },
        WitTypeKind::Outcome(ok, err) => {
            let ok_outcome = crate::wit::resolve::opt_type_outcome(
                doc,
                ok,
                id,
                path,
                context,
                doc.types.len(),
            );
            let ok = ok_outcome->Ok_0;
            let err_outcome = crate::wit::resolve::opt_type_outcome(
                doc,
                err,
                id,
                path,
                context,
                doc.types.len(),
            );
            let err = err_outcome->Ok_0;
            if ok_outcome is Err {
                Err(ok_outcome->Err_0)
            } else if err_outcome is Err {
                Err(err_outcome->Err_0)
            } else {
                Ok(Some(crate::wit::types::TypeView::Outcome { ok, err }))
            }
        },
        _ => Ok(None),
    }
}

/// The authored type that a declared WIT type is made of, where it is made of others.
pub fn resolve_authored_type_def_kind(
    doc: &WitDocument,
    id: usize,
    path: &str,
    context: &str,
) -> (result: Result<Option<TypeSpec>, Error>)
    requires
        doc.wf(),
        id < doc.types@.len(),
    ensures
        crate::error::opt_outcome(result) == type_def_kind_outcome(*doc, id, path@, context@),
{
    let type_def = &doc.types[id];
    proof { assert(doc.type_ok(id as int)); }
    match &type_def.kind {
        WitTypeKind::Alias(next) => {
            let next = match resolve_type(doc, *next, path, context) {
                Ok(value) => value,
                Err(error) => return Err(error),
            };
            Ok(Some(next))
        },
        WitTypeKind::Optional(inner) => {
            let inner = match resolve_type(doc, *inner, path, context) {
                Ok(value) => value,
                Err(error) => return Err(error),
            };
            Ok(Some(TypeSpec::Optional(Box::new(inner))))
        },
        WitTypeKind::List(inner) => {
            let inner = match resolve_type(doc, *inner, path, context) {
                Ok(value) => value,
                Err(error) => return Err(error),
            };
            Ok(Some(TypeSpec::List(Box::new(inner))))
        },
        WitTypeKind::Tuple(items) => {
            let items = match resolve_types(
                doc,
                items,
                items.len(),
                id,
                path,
                context,
                doc.types.len(),
            ) {
                Ok(value) => value,
                Err(error) => return Err(error),
            };
            Ok(Some(TypeSpec::Tuple(items)))
        },
        WitTypeKind::Mapping(key, value) => {
            let key = match resolve_type(doc, *key, path, context) {
                Ok(value) => value,
                Err(error) => return Err(error),
            };
            let value = match resolve_type(doc, *value, path, context) {
                Ok(value) => value,
                Err(error) => return Err(error),
            };
            Ok(Some(TypeSpec::Mapping(Box::new(key), Box::new(value))))
        },
        WitTypeKind::Outcome(ok, err) => {
            let ok = match resolve_opt_type(doc, *ok, id, path, context, doc.types.len()) {
                Ok(value) => value,
                Err(error) => return Err(error),
            };
            let err = match resolve_opt_type(doc, *err, id, path, context, doc.types.len()) {
                Ok(value) => value,
                Err(error) => return Err(error),
            };
            Ok(Some(TypeSpec::Outcome { ok, err }))
        },
        _ => Ok(None),
    }
}

/// The index of the first of some names that is a given one.
pub open spec fn name_index(names: Seq<WitName>, name: Seq<char>) -> int
    decreases names.len(),
{
    if names.len() == 0 || names[0].name@ == name {
        0
    } else {
        1 + name_index(names.drop_first(), name)
    }
}

/// The index of the first of some names that is a given one.
pub fn find_name(names: &Vec<WitName>, name: &str) -> (index: usize)
    ensures
        index <= names.len(),
        index == name_index(names@, name@),
{
    let mut i: usize = 0;
    assert(names@.skip(0) =~= names@);
    while i < names.len()
        invariant
            i <= names.len(),
            i + name_index(names@.skip(i as int), name@) == name_index(names@, name@),
        decreases names.len() - i,
    {
        if text_eq(names[i].name.as_str(), name) {
            return i;
        }
        assert(names@.skip(i as int).drop_first() =~= names@.skip(i + 1));
        i += 1;
    }
    i
}

/// The authored type that a name stands for beside a declaration: a primitive, or a type of the
/// same interface.
pub open spec fn named_type_outcome(
    doc: WitDocument,
    owner: WitOwner,
    named: Seq<char>,
    path: Seq<char>,
    context: Seq<char>,
    directive_name: Seq<char>,
) -> Result<crate::wit::types::TypeView, ErrorView> {
    match crate::wit::types::primitive_type(named) {
        Some(primitive) => Ok(primitive),
        None => match owner {
            WitOwner::Interface(interface) => {
                let names = doc.interfaces@[interface as int].types@;
                let index: usize = name_index(names, named) as usize;

                if index < names.len() {
                    resolved_type(doc, WitType::Id(names[index as int].id), path, context)
                } else {
                    Err(
                        crate::wit::directive::directive_failure(
                            path,
                            context,
                            directive_name,
                            ("unknown alternate type `"@ + named + "`"@),
                        ),
                    )
                }
            },
            _ => Err(crate::wit::directive::directive_failure(
                    path,
                    context,
                    directive_name,
                    "`alternate-type` is only supported for interface-owned types"@,
            )),
        },
    }
}

/// The authored type that a name stands for beside a declaration: a primitive, or a type of the
/// same interface.
pub fn resolve_named_wit_type(
    doc: &WitDocument,
    owner: WitOwner,
    named: &str,
    path: &str,
    context: &str,
    directive_name: &str,
) -> (result: Result<TypeSpec, Error>)
    requires
        doc.wf(),
        doc.owner_ok(owner),
    ensures
        crate::error::outcome(result) == named_type_outcome(
            *doc,
            owner,
            named@,
            path@,
            context@,
            directive_name@,
        ),
{
    match primitive_wit_type(named) {
        Some(primitive) => Ok(primitive),
        None => match owner {
            WitOwner::Interface(interface) => {
                let names = &doc.interfaces[interface].types;
                let index: usize = find_name(names, named);
                proof { assert(doc.interface_ok(doc.interfaces@[interface as int])); }
                if index < names.len() {
                    resolve_type(doc, WitType::Id(names[index].id), path, context)
                } else {
                    Err(
                        directive_error(
                            path,
                            context,
                            directive_name,
                            "unknown alternate type `".to_owned().concat(named)
                                .concat("`").as_str(),
                        ),
                    )
                }
            },
            _ => Err(directive_error(
                path,
                context,
                directive_name,
                "`alternate-type` is only supported for interface-owned types",
            )),
        },
    }
}

/// The other type that a function field can have.
pub open spec fn alternate_type_outcome(
    doc: WitDocument,
    owner: WitOwner,
    found: crate::wit::directive::DirectiveView,
    path: Seq<char>,
    context: Seq<char>,
) -> Result<Option<crate::wit::types::TypeView>, ErrorView> {
    match crate::wit::directive::value_of(found, "alternate-type"@) {
        None => Ok(None),
        Some(named) => {
            let resolved_outcome = named_type_outcome(
                doc,
                owner,
                named,
                path,
                context,
                "@nexus.function"@,
            );
            let resolved = resolved_outcome->Ok_0;
            if resolved_outcome is Err {
                Err(resolved_outcome->Err_0)
            } else {
                Ok(Some(resolved))
            }
        },
    }
}

/// The other type that a function field can have.
pub fn function_alternate_type(
    doc: &WitDocument,
    owner: WitOwner,
    found: &Directive,
    path: &str,
    context: &str,
) -> (result: Result<Option<TypeSpec>, Error>)
    requires
        doc.wf(),
        doc.owner_ok(owner),
    ensures
        crate::error::opt_outcome(result) == alternate_type_outcome(
            *doc,
            owner,
            found@,
            path@,
            context@,
        ),
{
    match found.value("alternate-type") {
        None => Ok(None),
        Some(named) => {
            let resolved = match resolve_named_wit_type(
                doc,
                owner,
                named.as_str(),
                path,
                context,
                "@nexus.function",
            ) {
                Ok(value) => value,
                Err(error) => return Err(error),
            };
            Ok(Some(resolved))
        },
    }
}

/// How the types of a function value and of its arguments are written: both or neither.
pub open spec fn type_descriptor_outcome(
    found: crate::wit::directive::DirectiveView,
    path: Seq<char>,
    context: Seq<char>,
) -> Result<Option<TypeDescriptorView>, ErrorView> {
    let value_type = crate::wit::strings::directive_key_strings(found, "value-type"@);
    let args_type = crate::wit::strings::directive_key_strings(found, "args-type"@);
    if crate::plan::strings_empty(value_type) != crate::plan::strings_empty(args_type) {
        Err(crate::wit::directive::directive_failure(
                path,
                context,
                "@nexus.function"@,
                "`value-type` and `args-type` must be specified together"@,
        ))
    } else if crate::plan::strings_empty(value_type) {
        Ok(None)
    } else {
        Ok(Some(TypeDescriptorView { value_type, args_type }))
    }
}

/// How the types of a function value and of its arguments are written: both or neither.
pub fn function_type_descriptor(
    found: &Directive,
    path: &str,
    context: &str,
) -> (result: Result<Option<FunctionTypeDescriptorSpec>, Error>)
    ensures
        crate::error::opt_outcome(result) == type_descriptor_outcome(found@, path@, context@),
{
    let value_type = directive_language_string_for_key(found, "value-type");
    let args_type = directive_language_string_for_key(found, "args-type");
    if value_type.is_empty() != args_type.is_empty() {
        Err(directive_error(
            path,
            context,
            "@nexus.function",
            "`value-type` and `args-type` must be specified together",
        ))
    } else if value_type.is_empty() {
        Ok(None)
    } else {
        Ok(Some(FunctionTypeDescriptorSpec { value_type, args_type }))
    }
}

/// An argument as a language has it.
pub open spec fn arg_for_language(
    arg: crate::wit::resolve::FunctionArgView,
    language: Language,
) -> crate::wit::resolve::FunctionArgView {
    crate::wit::resolve::FunctionArgView {
        name: arg.name,
        field_type: crate::wit::types::type_for_language(arg.field_type, language),
    }
}

/// An argument as a language has it.
pub fn function_arg_for_language(
    arg: &FunctionArgSpec,
    language: Language,
) -> (result: FunctionArgSpec)
    ensures
        result@ == arg_for_language(arg@, language),
{
    FunctionArgSpec {
        name: arg.name.clone(),
        field_type: authored_field_type_for_language(&arg.field_type, language),
    }
}

/// Arguments as a language has them.
pub open spec fn arg_list_for_language(
    args: Seq<crate::wit::resolve::FunctionArgView>,
    language: Language,
) -> Seq<crate::wit::resolve::FunctionArgView> {
    Seq::new(
        args.len(),
        |i: int|
            {
            let arg = args[i];
            arg_for_language(arg, language)
        },
    )
}

/// Arguments as a language has them.
pub fn function_arg_list_for_language(
    args: &Vec<FunctionArgSpec>,
    language: Language,
) -> (result: Vec<FunctionArgSpec>)
    ensures
        crate::wit::resolve::function_arg_spec_views(result@) == arg_list_for_language(
            crate::wit::resolve::function_arg_spec_views(args@),
            language,
        ),
{
    let ghost wanted = arg_list_for_language(
        crate::wit::resolve::function_arg_spec_views(args@),
        language,
    );
    let mut list: Vec<FunctionArgSpec> = Vec::new();
    let mut i: usize = 0;
    assert(crate::wit::resolve::function_arg_spec_views(list@) =~= wanted.take(0));
    while i < args.len()
        invariant
            i <= args.len(),
            wanted == arg_list_for_language(
                crate::wit::resolve::function_arg_spec_views(args@),
                language,
            ),
            crate::wit::resolve::function_arg_spec_views(list@) == wanted.take(i as int),
        decreases args.len() - i,
    {
        let arg = &args[i];
        let made: FunctionArgSpec = function_arg_for_language(arg, language);
        assert(wanted[i as int] =~= made@);
        let ghost before = list@;
        list.push(made);
        assert(
            crate::wit::resolve::function_arg_spec_views(list@)
                =~= crate::wit::resolve::function_arg_spec_views(before).push(made@)
        );
        assert(wanted.take(i + 1) =~= wanted.take(i as int).push(wanted[i as int]));
        i += 1;
    }
    assert(wanted.take(i as int) =~= wanted);
    list
}

/// The arguments of a function as a language has them.
pub open spec fn args_for_language(
    args: crate::wit::resolve::FunctionArgsView,
    language: Language,
) -> crate::wit::resolve::FunctionArgsView {
    match args {
        crate::wit::resolve::FunctionArgsView::Varargs {
            prefix,
            typescript_drop_prefix,
        } => crate::wit::resolve::FunctionArgsView::Varargs {
            prefix: arg_list_for_language(prefix, language),
            typescript_drop_prefix: typescript_drop_prefix,
        },
        crate::wit::resolve::FunctionArgsView::Fixed(args) => crate::wit::resolve::FunctionArgsView::Fixed(
            arg_list_for_language(args, language),
        ),
    }
}

/// The arguments of a function as a language has them.
pub fn function_args_for_language(
    args: &FunctionArgsSpec,
    language: Language,
) -> (result: FunctionArgsSpec)
    ensures
        result@ == args_for_language(args@, language),
{
    match args {
        FunctionArgsSpec::Varargs { prefix, typescript_drop_prefix } => FunctionArgsSpec::Varargs {
            prefix: function_arg_list_for_language(prefix, language),
            typescript_drop_prefix: *typescript_drop_prefix,
        },
        FunctionArgsSpec::Fixed(args) => FunctionArgsSpec::Fixed(
            function_arg_list_for_language(args, language),
        ),
    }
}

/// The fields of fixed arguments.
pub open spec fn fixed_arg_field_names(
    args: Seq<crate::wit::resolve::FunctionArgView>,
) -> Seq<Seq<char>> {
    Seq::new(
        args.len(),
        |i: int|
            {
            let arg = args[i];
            crate::naming::snake(arg.name)
        },
    )
}

/// The fields of fixed arguments.
pub fn fixed_arg_fields(args: &Vec<FunctionArgSpec>) -> (result: Vec<String>)
    ensures
        crate::text::texts(result@) == fixed_arg_field_names(
            crate::wit::resolve::function_arg_spec_views(args@),
        ),
{
    let ghost wanted = fixed_arg_field_names(crate::wit::resolve::function_arg_spec_views(args@));
    let mut list: Vec<String> = Vec::new();
    let mut i: usize = 0;
    assert(crate::text::texts(list@) =~= wanted.take(0));
    while i < args.len()
        invariant
            i <= args.len(),
            wanted == fixed_arg_field_names(crate::wit::resolve::function_arg_spec_views(args@)),
            crate::text::texts(list@) == wanted.take(i as int),
        decreases args.len() - i,
    {
        let arg = &args[i];
        let made: String = to_snake(arg.name.as_str());
        assert(wanted[i as int] =~= made@);
        let ghost before = list@;
        list.push(made);
        assert(crate::text::texts(list@) =~= crate::text::texts(before).push(made@));
        assert(wanted.take(i + 1) =~= wanted.take(i as int).push(wanted[i as int]));
        i += 1;
    }
    assert(wanted.take(i as int) =~= wanted);
    list
}

/// The fields that hold the arguments of a function.
pub open spec fn arg_field_names(
    args: crate::wit::resolve::FunctionArgsView,
    args_field: Seq<char>,
) -> Seq<Seq<char>> {
    match args {
        crate::wit::resolve::FunctionArgsView::Varargs {
            prefix: _,
            typescript_drop_prefix: _,
        } => seq![args_field],
        crate::wit::resolve::FunctionArgsView::Fixed(args) => fixed_arg_field_names(args),
    }
}

/// The fields that hold the arguments of a function.
pub fn function_arg_fields(args: &FunctionArgsSpec, args_field: &str) -> (result: Vec<String>)
    ensures
        crate::text::texts(result@) == arg_field_names(args@, args_field@),
{
    broadcast use crate::text::group_texts;
    match args {
        FunctionArgsSpec::Varargs { prefix: _, typescript_drop_prefix: _ } => one_text(args_field),
        FunctionArgsSpec::Fixed(args) => fixed_arg_fields(args),
    }
}

/// One text.
fn one_text(text: &str) -> (list: Vec<String>)
    ensures
        crate::text::texts(list@) == seq![text@],
{
    broadcast use crate::text::group_texts;

    let list = vec![text.to_owned()];
    assert(crate::text::texts(list@) =~= seq![text@]);
    list
}

/// The fields that hold fixed arguments.
pub open spec fn flattened_fixed(
    args: Seq<crate::wit::resolve::FunctionArgView>,
) -> Seq<FlattenedArgView> {
    Seq::new(
        args.len(),
        |i: int|
            {
            let arg = args[i];
            FlattenedArgView {
                args_name: arg.name,
                field_name: crate::naming::snake(arg.name),
                field_type: arg.field_type,
                required: true,
            }
        },
    )
}

/// The fields that hold fixed arguments.
pub fn flattened_fixed_args(
    args: &Vec<FunctionArgSpec>,
) -> (result: Vec<FlattenedFunctionArgSpec>)
    ensures
        flattened_function_arg_spec_views(result@) == flattened_fixed(
            crate::wit::resolve::function_arg_spec_views(args@),
        ),
{
    let ghost wanted = flattened_fixed(crate::wit::resolve::function_arg_spec_views(args@));
    let mut list: Vec<FlattenedFunctionArgSpec> = Vec::new();
    let mut i: usize = 0;
    assert(flattened_function_arg_spec_views(list@) =~= wanted.take(0));
    while i < args.len()
        invariant
            i <= args.len(),
            wanted == flattened_fixed(crate::wit::resolve::function_arg_spec_views(args@)),
            flattened_function_arg_spec_views(list@) == wanted.take(i as int),
        decreases args.len() - i,
    {
        let arg = &args[i];
        let made: FlattenedFunctionArgSpec = FlattenedFunctionArgSpec {
            args_name: arg.name.clone(),
            field_name: to_snake(arg.name.as_str()),
            field_type: copy_type(&arg.field_type),
            required: true,
        };
        assert(wanted[i as int] =~= made@);
        let ghost before = list@;
        list.push(made);
        assert(
            flattened_function_arg_spec_views(list@)
                =~= flattened_function_arg_spec_views(before).push(made@)
        );
        assert(wanted.take(i + 1) =~= wanted.take(i as int).push(wanted[i as int]));
        i += 1;
    }
    assert(wanted.take(i as int) =~= wanted);
    list
}

/// The fields that hold the arguments of a function.
pub open spec fn flattened_args(
    function: FunctionFieldView,
    args_name: Seq<char>,
    args_type: crate::wit::types::TypeView,
) -> Seq<FlattenedArgView> {
    match function.args {
        crate::wit::resolve::FunctionArgsView::Varargs { prefix: _, typescript_drop_prefix: _ } => {
            let field = FlattenedArgView {
                args_name: args_name,
                field_name: function.args_field,
                field_type: args_type,
                required: false,
            };
            seq![field]
        },
        crate::wit::resolve::FunctionArgsView::Fixed(args) => flattened_fixed(args),
    }
}

/// The fields that hold the arguments of a function.
pub fn flattened_function_arg_fields(
    function: &FunctionFieldSpec,
    args_name: &str,
    args_type: &TypeSpec,
) -> (result: Vec<FlattenedFunctionArgSpec>)
    ensures
        flattened_function_arg_spec_views(result@) == flattened_args(
            function@,
            args_name@,
            args_type@,
        ),
{
    match &function.args {
        FunctionArgsSpec::Varargs { prefix: _, typescript_drop_prefix: _ } => {
            let field = FlattenedFunctionArgSpec {
                args_name: args_name.to_owned(),
                field_name: function.args_field.clone(),
                field_type: copy_type(args_type),
                required: false,
            };
            one_arg_field(field)
        },
        FunctionArgsSpec::Fixed(args) => flattened_fixed_args(args),
    }
}

/// One field.
fn one_arg_field(field: FlattenedFunctionArgSpec) -> (list: Vec<FlattenedFunctionArgSpec>)
    ensures
        flattened_function_arg_spec_views(list@) == seq![field@],
{
    let mut list: Vec<FlattenedFunctionArgSpec> = Vec::new();
    list.push(field);
    assert(flattened_function_arg_spec_views(list@) =~= seq![field@]);
    list
}

/// The function that a directive gives a field.
pub open spec fn function_field_outcome(
    doc: WitDocument,
    owner: WitOwner,
    directives: Seq<crate::wit::directive::DirectiveView>,
    path: Seq<char>,
    context: Seq<char>,
    language: Language,
) -> Result<Option<FunctionFieldView>, ErrorView> {
    let found_outcome = crate::wit::directive::directive_outcome(
        directives,
        "function"@,
        path,
        context,
    );
    let found = found_outcome->Ok_0;
    if found_outcome is Err {
        Err(found_outcome->Err_0)
    } else {
        match found {
            None => Ok(None),
            Some(found) => {
                let result = crate::wit::strings::directive_result_strings(found);
                if crate::plan::strings_empty(result) {
                    Ok(None)
                } else {
                    match crate::wit::directive::value_of(found, "args-field"@) {
                        None => Err(
                            crate::wit::directive::directive_failure(
                                path,
                                context,
                                "@nexus.function"@,
                                "missing required `args-field`"@,
                            ),
                        ),
                        Some(args_field) => {
                            let primary_outcome = crate::wit::strings::directive_flag_outcome(
                                found,
                                "primary"@,
                                path,
                                context,
                                "@nexus.function"@,
                            );
                            let primary = primary_outcome->Ok_0;
                            let alternate_outcome = alternate_type_outcome(
                                doc,
                                owner,
                                found,
                                path,
                                context,
                            );
                            let alternate = alternate_outcome->Ok_0;
                            let name_extractor_outcome = crate::wit::strings::name_extractor_outcome(
                                found,
                                language,
                                path,
                                context,
                            );
                            let name_extractor = name_extractor_outcome->Ok_0;
                            let call_extractor_outcome = crate::wit::strings::call_extractor_outcome(
                                found,
                                language,
                                path,
                                context,
                            );
                            let call_extractor = call_extractor_outcome->Ok_0;
                            let type_descriptor_outcome = type_descriptor_outcome(
                                found,
                                path,
                                context,
                            );
                            let type_descriptor = type_descriptor_outcome->Ok_0;
                            let args_field = crate::naming::snake(args_field);
                            if primary_outcome is Err {
                                Err(primary_outcome->Err_0)
                            } else if alternate_outcome is Err {
                                Err(alternate_outcome->Err_0)
                            } else if name_extractor_outcome is Err {
                                Err(name_extractor_outcome->Err_0)
                            } else if call_extractor_outcome is Err {
                                Err(call_extractor_outcome->Err_0)
                            } else if type_descriptor_outcome is Err {
                                Err(type_descriptor_outcome->Err_0)
                            } else {
                                Ok(Some(FunctionFieldView {
                                            primary,
                                            result: FunctionResultView::Annotation(result),
                                            arg_fields: seq![args_field],
                                            args_field,
                                            args: crate::wit::resolve::FunctionArgsView::Varargs {
                                                prefix: Seq::empty(),
                                                typescript_drop_prefix: false,
                                            },
                                            alternate_type: crate::wit::types::opt_authored_for_language(
                                                alternate,
                                                language,
                                            ),
                                            converter: crate::wit::strings::converter_text(
                                                found,
                                                language,
                                            ),
                                            name_extractor,
                                            call_extractor,
                                            result_type_parameter: crate::wit::strings::result_type_parameter_text(
                                                found,
                                            ),
                                            type_descriptor,
                                }))
                            }
                        },
                    }
                }
            },
        }
    }
}

/// The function that a directive gives a field.
pub fn build_function_field(
    doc: &WitDocument,
    owner: WitOwner,
    directives: &Vec<Directive>,
    path: &str,
    context: &str,
    language: Language,
) -> (result: Result<Option<FunctionFieldSpec>, Error>)
    requires
        doc.wf(),
        doc.owner_ok(owner),
    ensures
        crate::error::opt_outcome(result) == function_field_outcome(
            *doc,
            owner,
            crate::wit::directive::directive_views(directives@),
            path@,
            context@,
            language,
        ),
{
    let found = match directive(directives, "function", path, context) {
        Ok(value) => value,
        Err(error) => return Err(error),
    };
    match found {
        None => Ok(None),
        Some(found) => {
            let result = directive_result_language_string(found);
            if result.is_empty() {
                Ok(None)
            } else {
                match found.value("args-field") {
                    None => Err(
                        directive_error(
                            path,
                            context,
                            "@nexus.function",
                            "missing required `args-field`",
                        ),
                    ),
                    Some(args_field) => {
                        let primary = match directive_flag(
                            found,
                            "primary",
                            path,
                            context,
                            "@nexus.function",
                        ) {
                            Ok(value) => value,
                            Err(error) => return Err(error),
                        };
                        let alternate = match function_alternate_type(
                            doc,
                            owner,
                            found,
                            path,
                            context,
                        ) {
                            Ok(value) => value,
                            Err(error) => return Err(error),
                        };
                        let name_extractor = match directive_function_name_extractor(
                            found,
                            language,
                            path,
                            context,
                        ) {
                            Ok(value) => value,
                            Err(error) => return Err(error),
                        };
                        let call_extractor = match directive_function_call_extractor(
                            found,
                            language,
                            path,
                            context,
                        ) {
                            Ok(value) => value,
                            Err(error) => return Err(error),
                        };
                        let type_descriptor = match function_type_descriptor(found, path, context) {
                            Ok(value) => value,
                            Err(error) => return Err(error),
                        };
                        let args_field = to_snake(args_field.as_str());
                        Ok(Some(FunctionFieldSpec {
                            primary,
                            result: FunctionResultSpec::Annotation(result),
                            arg_fields: one_text(args_field.as_str()),
                            args_field,
                            args: no_prefix(),
                            alternate_type: opt_authored_type_for_language(&alternate, language),
                            converter: directive_converter(found, language),
                            name_extractor,
                            call_extractor,
                            result_type_parameter: directive_result_type_parameter(found),
                            type_descriptor,
                        }))
                    },
                }
            }
        },
    }
}

/// As many arguments as are given, without fixed ones before them.
fn no_prefix() -> (args: FunctionArgsSpec)
    ensures
        args@ == (crate::wit::resolve::FunctionArgsView::Varargs {
            prefix: Seq::empty(),
            typescript_drop_prefix: false,
        }),
{
    let prefix: Vec<FunctionArgSpec> = Vec::new();
    assert(crate::wit::resolve::function_arg_spec_views(prefix@) =~= Seq::empty());
    FunctionArgsSpec::Varargs { prefix, typescript_drop_prefix: false }
}

/// What a signature that a type names says.
pub open spec fn resolved_signature(
    doc: WitDocument,
    owner: WitOwner,
    name: Seq<char>,
    path: Seq<char>,
    context: Seq<char>,
) -> Result<crate::wit::resolve::SignatureView, ErrorView> {
    crate::wit::resolve::signature_outcome(doc, owner, name, path, context, doc.types.len())
}

/// What a signature that a type names says.
pub fn resolve_signature(
    doc: &WitDocument,
    owner: WitOwner,
    name: &str,
    path: &str,
    context: &str,
) -> (result: Result<ResolvedFunctionSignature, Error>)
    requires
        doc.wf(),
        doc.owner_ok(owner),
    ensures
        crate::error::outcome(result) == resolved_signature(*doc, owner, name@, path@, context@),
{
    resolve_function_signature(doc, owner, name, path, context, doc.types.len())
}

/// The name and the type of the field that holds the arguments of a signature.
pub open spec fn signature_field_outcome(
    doc: WitDocument,
    owner: WitOwner,
    name: Seq<char>,
    path: Seq<char>,
    context: Seq<char>,
) -> Result<(Seq<char>, crate::wit::types::TypeView), ErrorView> {
    let place_outcome = crate::wit::resolve::signature_place(doc, owner, name, path, context);
    let place = place_outcome->Ok_0;

    let function = doc.interfaces@[place.0 as int].functions@[place.1 as int];
    let args_outcome = crate::wit::resolve::signature_args_outcome(
        doc,
        function,
        path,
        context,
        name,
        doc.types.len(),
    );
    let args = args_outcome->Ok_0;
    if place_outcome is Err {
        Err(place_outcome->Err_0)
    } else if args_outcome is Err {
        Err(args_outcome->Err_0)
    } else {
        Ok((args.name, args.field_type))
    }
}

/// The name and the type of the field that holds the arguments of a signature.
pub fn resolve_function_signature_args(
    doc: &WitDocument,
    owner: WitOwner,
    name: &str,
    path: &str,
    context: &str,
) -> (result: Result<(String, TypeSpec), Error>)
    requires
        doc.wf(),
        doc.owner_ok(owner),
    ensures
        crate::error::outcome(result) == signature_field_outcome(
            *doc,
            owner,
            name@,
            path@,
            context@,
        ),
{
    let place = match find_signature(doc, owner, name, path, context) {
        Ok(value) => value,
        Err(error) => return Err(error),
    };
    proof { crate::wit::resolve::lemma_signature_function(*doc, owner, name@, path@, context@); }
    let function = &doc.interfaces[place.0].functions[place.1];
    let args = match resolve_function_signature_args_for_function(
        doc,
        function,
        path,
        context,
        name,
        doc.types.len(),
    ) {
        Ok(value) => value,
        Err(error) => return Err(error),
    };
    Ok((args.name, args.field_type))
}

/// The function that an alias stands for.
pub open spec fn alias_function_outcome(
    doc: WitDocument,
    owner: WitOwner,
    directives: Seq<crate::wit::directive::DirectiveView>,
    path: Seq<char>,
    context: Seq<char>,
    language: Language,
) -> Result<Option<AliasFunctionView>, ErrorView> {
    let found_outcome = crate::wit::directive::directive_outcome(
        directives,
        "function"@,
        path,
        context,
    );
    let found = found_outcome->Ok_0;
    if found_outcome is Err {
        Err(found_outcome->Err_0)
    } else {
        match found {
            None => Ok(None),
            Some(found) => {
                let primary_outcome = crate::wit::strings::directive_flag_outcome(
                    found,
                    "primary"@,
                    path,
                    context,
                    "@nexus.function"@,
                );
                let primary = primary_outcome->Ok_0;
                if primary_outcome is Err {
                    Err(primary_outcome->Err_0)
                } else {
                    match crate::wit::directive::value_of(found, "signature"@) {
                        Some(signature_name) => signature_function_outcome(
                            doc,
                            owner,
                            found,
                            signature_name,
                            primary,
                            path,
                            context,
                            language,
                        ),
                        None => {
                            let result = crate::wit::strings::directive_result_strings(found);
                            if crate::plan::strings_empty(result) {
                                Ok(None)
                            } else {
                                Err(crate::wit::directive::directive_failure(
                                        path,
                                        context,
                                        "@nexus.function"@,
                                        "type-level function annotations must use `signature`"@,
                                ))
                            }
                        },
                    }
                }
            },
        }
    }
}

/// The function that an alias stands for.
pub fn build_function_field_for_type_alias(
    doc: &WitDocument,
    owner: WitOwner,
    directives: &Vec<Directive>,
    path: &str,
    context: &str,
    language: Language,
) -> (result: Result<Option<AliasFunctionSpec>, Error>)
    requires
        doc.wf(),
        doc.owner_ok(owner),
    ensures
        crate::error::opt_outcome(result) == alias_function_outcome(
            *doc,
            owner,
            crate::wit::directive::directive_views(directives@),
            path@,
            context@,
            language,
        ),
{
    let found = match directive(directives, "function", path, context) {
        Ok(value) => value,
        Err(error) => return Err(error),
    };
    match found {
        None => Ok(None),
        Some(found) => {
            let primary = match directive_flag(found, "primary", path, context, "@nexus.function") {
                Ok(value) => value,
                Err(error) => return Err(error),
            };
            match found.value("signature") {
                Some(signature_name) => build_signature_function(
                    doc,
                    owner,
                    found,
                    signature_name.as_str(),
                    primary,
                    path,
                    context,
                    language,
                ),
                None => {
                    let result = directive_result_language_string(found);
                    if result.is_empty() {
                        Ok(None)
                    } else {
                        Err(directive_error(
                            path,
                            context,
                            "@nexus.function",
                            "type-level function annotations must use `signature`",
                        ))
                    }
                },
            }
        },
    }
}

/// The function that an alias stands for by a signature.
pub open spec fn signature_function_outcome(
    doc: WitDocument,
    owner: WitOwner,
    found: crate::wit::directive::DirectiveView,
    signature_name: Seq<char>,
    primary: bool,
    path: Seq<char>,
    context: Seq<char>,
    language: Language,
) -> Result<Option<AliasFunctionView>, ErrorView> {
    let written = crate::wit::strings::directive_result_strings(found);
    let signature_outcome = resolved_signature(doc, owner, signature_name, path, context);
    let signature = signature_outcome->Ok_0;
    let alternate_outcome = alternate_type_outcome(doc, owner, found, path, context);
    let alternate = alternate_outcome->Ok_0;
    let name_extractor_outcome = crate::wit::strings::name_extractor_outcome(
        found,
        language,
        path,
        context,
    );
    let name_extractor = name_extractor_outcome->Ok_0;
    let call_extractor_outcome = crate::wit::strings::call_extractor_outcome(
        found,
        language,
        path,
        context,
    );
    let call_extractor = call_extractor_outcome->Ok_0;
    let type_descriptor_outcome = type_descriptor_outcome(found, path, context);
    let type_descriptor = type_descriptor_outcome->Ok_0;
    let function_args = args_for_language(signature.args.function_args, language);
    let args_field = signature_args_field_name(found, signature.args.name);
    if crate::wit::directive::value_of(found, "args-name"@).is_some()
        || !crate::plan::strings_empty(written) {
        Err(
            crate::wit::directive::directive_failure(
                path,
                context,
                "@nexus.function"@,
                "signature cannot be combined with args-name or result overrides"@,
            ),
        )
    } else if signature_outcome is Err {
        Err(signature_outcome->Err_0)
    } else if alternate_outcome is Err {
        Err(alternate_outcome->Err_0)
    } else if name_extractor_outcome is Err {
        Err(name_extractor_outcome->Err_0)
    } else if call_extractor_outcome is Err {
        Err(call_extractor_outcome->Err_0)
    } else if type_descriptor_outcome is Err {
        Err(type_descriptor_outcome->Err_0)
    } else {
        Ok(Some(AliasFunctionView {
                    args_type: crate::wit::types::type_for_language(
                        signature.args.field_type,
                        language,
                    ),
                    function: FunctionFieldView {
                        primary,
                        result: FunctionResultView::Authored(
                            crate::wit::types::type_for_language(signature.result, language),
                        ),
                        arg_fields: arg_field_names(function_args, args_field),
                        args_field,
                        args: function_args,
                        alternate_type: crate::wit::types::opt_authored_for_language(
                            alternate,
                            language,
                        ),
                        converter: crate::wit::strings::converter_text(found, language),
                        name_extractor,
                        call_extractor,
                        result_type_parameter: crate::wit::strings::result_type_parameter_text(
                            found,
                        ),
                        type_descriptor,
                    },
                    args_name: signature.args.name,
        }))
    }
}

/// The function that an alias stands for by a signature.
pub fn build_signature_function(
    doc: &WitDocument,
    owner: WitOwner,
    found: &Directive,
    signature_name: &str,
    primary: bool,
    path: &str,
    context: &str,
    language: Language,
) -> (result: Result<Option<AliasFunctionSpec>, Error>)
    requires
        doc.wf(),
        doc.owner_ok(owner),
    ensures
        crate::error::opt_outcome(result) == signature_function_outcome(
            *doc,
            owner,
            found@,
            signature_name@,
            primary,
            path@,
            context@,
            language,
        ),
{
    let written = directive_result_language_string(found);
    if found.value("args-name").is_some() || !written.is_empty() {
        return Err(
            directive_error(
                path,
                context,
                "@nexus.function",
                "signature cannot be combined with args-name or result overrides",
            ),
        );
    }
    let signature = match resolve_signature(doc, owner, signature_name, path, context) {
        Ok(value) => value,
        Err(error) => return Err(error),
    };
    let alternate = match function_alternate_type(doc, owner, found, path, context) {
        Ok(value) => value,
        Err(error) => return Err(error),
    };
    let name_extractor = match directive_function_name_extractor(found, language, path, context) {
        Ok(value) => value,
        Err(error) => return Err(error),
    };
    let call_extractor = match directive_function_call_extractor(found, language, path, context) {
        Ok(value) => value,
        Err(error) => return Err(error),
    };
    let type_descriptor = match function_type_descriptor(found, path, context) {
        Ok(value) => value,
        Err(error) => return Err(error),
    };
    let function_args = function_args_for_language(&signature.args.function_args, language);
    let args_field = signature_args_field(found, signature.args.name.as_str());
    Ok(Some(AliasFunctionSpec {
        args_type: authored_field_type_for_language(&signature.args.field_type, language),
        function: FunctionFieldSpec {
            primary,
            result: FunctionResultSpec::Authored(
                authored_field_type_for_language(&signature.result, language),
            ),
            arg_fields: function_arg_fields(&function_args, args_field.as_str()),
            args_field,
            args: function_args,
            alternate_type: opt_authored_type_for_language(&alternate, language),
            converter: directive_converter(found, language),
            name_extractor,
            call_extractor,
            result_type_parameter: directive_result_type_parameter(found),
            type_descriptor,
        },
        args_name: signature.args.name,
    }))
}

/// The field that holds the arguments of a signature.
pub open spec fn signature_args_field_name(
    found: crate::wit::directive::DirectiveView,
    args_name: Seq<char>,
) -> Seq<char> {
    match crate::wit::directive::value_of(found, "args-field"@) {
        Some(args_field) => crate::naming::snake(args_field),
        None => crate::naming::snake(args_name),
    }
}

/// The field that holds the arguments of a signature.
pub fn signature_args_field(found: &Directive, args_name: &str) -> (result: String)
    ensures
        result@ == signature_args_field_name(found@, args_name@),
{
    match found.value("args-field") {
        Some(args_field) => to_snake(args_field.as_str()),
        None => to_snake(args_name),
    }
}

/// The function that a type, or what it is an alias of, stands for.
pub open spec fn flattened_function_outcome(
    doc: WitDocument,
    ty: WitType,
    path: Seq<char>,
    language: Language,
) -> Result<Option<FlattenedFunctionView>, ErrorView>
    decreases crate::wit::resolve::type_rank(ty),
    when doc.wf() && crate::wit::document::type_below(ty, doc.types@.len() as int)
{
    match ty {
        WitType::Id(id) => {
            let type_def = doc.types@[id as int];

            proof { assert(doc.type_ok(id as int)); }
            let label = crate::wit::resolve::type_label_text(type_def);
            let context = "type `"@ + label + "`"@;
            let directives_outcome = crate::wit::directive::directives_outcome(
                crate::text::opt_text(type_def.docs),
                path,
                context,
            );
            let directives = directives_outcome->Ok_0;
            let found_outcome = alias_function_outcome(
                doc,
                type_def.owner,
                directives,
                path,
                context,
                language,
            );
            let found = found_outcome->Ok_0;
            if directives_outcome is Err {
                Err(directives_outcome->Err_0)
            } else if found_outcome is Err {
                Err(found_outcome->Err_0)
            } else {
                match found {
                    Some(found) => Ok(Some(FlattenedFunctionView {
                                arg_fields: flattened_args(
                                    found.function,
                                    found.args_name,
                                    found.args_type,
                                ),
                                function: found.function,
                    })),
                    None => match type_def.kind {
                        WitTypeKind::Alias(next) => flattened_function_outcome(
                            doc,
                            next,
                            path,
                            language,
                        ),
                        _ => Ok(None),
                    },
                }
            }
        },
        _ => Ok(None),
    }
}

/// The function that a type, or what it is an alias of, stands for.
pub fn find_flattened_function_type_spec(
    doc: &WitDocument,
    ty: WitType,
    path: &str,
    language: Language,
) -> (result: Result<Option<FlattenedFunctionTypeSpec>, Error>)
    requires
        doc.wf(),
        crate::wit::document::type_below(ty, doc.types@.len() as int),
    ensures
        crate::error::opt_outcome(result) == flattened_function_outcome(*doc, ty, path@, language),
    decreases crate::wit::resolve::type_rank(ty),
{
    match ty {
        WitType::Id(id) => {
            let type_def = &doc.types[id];
            proof { assert(doc.type_ok(id as int)); }

            let label = type_label(type_def);
            let context = "type `".to_owned().concat(label.as_str()).concat("`");
            let directives = match parse_directives(&type_def.docs, path, context.as_str()) {
                Ok(value) => value,
                Err(error) => return Err(error),
            };
            let found = match build_function_field_for_type_alias(
                doc,
                type_def.owner,
                &directives,
                path,
                context.as_str(),
                language,
            ) {
                Ok(value) => value,
                Err(error) => return Err(error),
            };
            match found {
                Some(found) => Ok(Some(FlattenedFunctionTypeSpec {
                    arg_fields: flattened_function_arg_fields(
                        &found.function,
                        found.args_name.as_str(),
                        &found.args_type,
                    ),
                    function: found.function,
                })),
                None => match &type_def.kind {
                    WitTypeKind::Alias(next) => find_flattened_function_type_spec(
                        doc,
                        *next,
                        path,
                        language,
                    ),
                    _ => Ok(None),
                },
            }
        },
        _ => Ok(None),
    }
}

/// A field name as it is said: with spaces between its words.
pub open spec fn human_name(name: Seq<char>) -> Seq<char> {
    let first = crate::text::replaced_char(name, '-', " "@);
    crate::text::replaced_char(first, '_', " "@)
}

/// A field name as it is said: with spaces between its words.
pub fn human_field_name(name: &str) -> (result: String)
    ensures
        result@ == human_name(name@),
{
    let first = replace_char(name, '-', " ");
    replace_char(first.as_str(), '_', " ")
}

/// What is said of a field that holds an argument of a function.
pub open spec fn function_arg_doc(
    function_field_name: Seq<char>,
    arg_field: FlattenedArgView,
    arg_field_count: usize,
) -> crate::plan::LanguageStringView {
    let function_name = human_name(function_field_name);
    let arg_name = human_name(arg_field.args_name);
    let text = if arg_field_count == 1 && (crate::wit::types::is_list_type(arg_field.field_type)
            || crate::text::has_suffix(arg_name, "args"@) || crate::text::has_suffix(
            arg_name,
            "arguments"@,
    )) {
        "Arguments for the "@ + function_name + "."@
    } else {
        "The "@ + arg_name + " argument for the "@ + function_name + "."@
    };
    crate::plan::LanguageStringView { default: Some(text), ..crate::plan::no_strings() }
}

/// What is said of a field that holds an argument of a function.
pub fn generated_function_arg_doc(
    function_field_name: &str,
    arg_field: &FlattenedFunctionArgSpec,
    arg_field_count: usize,
) -> (result: LanguageStringSpec)
    ensures
        result@ == function_arg_doc(function_field_name@, arg_field@, arg_field_count),
{
    let function_name = human_field_name(function_field_name);
    let arg_name = human_field_name(arg_field.args_name.as_str());
    let text = if arg_field_count == 1 && (type_is_list(&arg_field.field_type)
        || ends_with(arg_name.as_str(), "args") || ends_with(arg_name.as_str(), "arguments")) {
        "Arguments for the ".to_owned().concat(function_name.as_str()).concat(".")
    } else {
        "The ".to_owned().concat(arg_name.as_str()).concat(" argument for the ")
            .concat(function_name.as_str()).concat(".")
    };
    LanguageStringSpec { default: Some(text), ..LanguageStringSpec::new() }
}

} // verus!
