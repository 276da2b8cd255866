//! The authored types that WIT types stand for.

use vstd::prelude::*;

use crate::error::{Error, ErrorView};
use crate::language::Language;
use crate::naming::to_upper_camel;
use crate::plan::{LanguageStringSpec, LanguageText};
use crate::text::{replace_text, text_eq};
use crate::wit::directive::{directive, directive_error, parse_directives, wit_error, Directive};
use crate::wit::document::{
    WitDocument, WitFunction, WitFunctionKind, WitInterface, WitOwner, WitParam, WitType,
    WitTypeDef, WitTypeKind,
};
use crate::wit::strings::{
    directive_flag, directive_language_string, directive_result_language_string,
    directive_result_type_parameter, directive_value,
};
use crate::wit::types::{copy_type, same_type, AuthoredResourceType, TypeParameterSpec, TypeSpec};

verus! {

/// The name of a type, or what it is called by without one.
pub open spec fn type_label_text(type_def: WitTypeDef) -> Seq<char> {
    match type_def.name {
        Some(name) => name@,
        None => "unnamed-type"@,
    }
}

/// The name of a type, or what it is called by without one.
pub fn type_label(type_def: &WitTypeDef) -> (result: String)
    ensures
        result@ == type_label_text(*type_def),
{
    match &type_def.name {
        Some(name) => name.clone(),
        None => "unnamed-type".to_owned(),
    }
}

/// The name of an interface, or what it is called by without one.
pub open spec fn interface_label_text(interface: WitInterface) -> Seq<char> {
    match interface.name {
        Some(name) => name@,
        None => "unnamed-interface"@,
    }
}

/// The name of an interface, or what it is called by without one.
pub fn interface_label(interface: &WitInterface) -> (result: String)
    ensures
        result@ == interface_label_text(*interface),
{
    match &interface.name {
        Some(name) => name.clone(),
        None => "unnamed-interface".to_owned(),
    }
}

/// The name of a type behind the name of what it is declared in.
pub open spec fn full_type_name(doc: WitDocument, id: usize) -> Seq<char> {
    let type_def = doc.types@[id as int];
    let label = type_label_text(type_def);

    match type_def.owner {
        WitOwner::Interface(interface) => {
            let owner = interface_label_text(doc.interfaces@[interface as int]);
            (owner + "."@ + label)
        },
        WitOwner::World(world) => {
            doc.worlds@[world as int].name@ + "."@ + label
        },
        WitOwner::Unowned => label,
    }
}

/// The name of a type behind the name of what it is declared in.
pub fn wit_type_full_name(doc: &WitDocument, id: usize) -> (result: String)
    requires
        doc.wf(),
        id < doc.types@.len(),
    ensures
        result@ == full_type_name(*doc, id),
{
    let type_def = &doc.types[id];
    let label = type_label(type_def);
    proof { assert(doc.type_ok(id as int)); }
    match type_def.owner {
        WitOwner::Interface(interface) => {
            let owner = interface_label(&doc.interfaces[interface]);
            owner.clone().concat(".").concat(label.as_str())
        },
        WitOwner::World(world) => {
            doc.worlds[world].name.clone().concat(".").concat(label.as_str())
        },
        WitOwner::Unowned => label,
    }
}

/// The protobuf type that a declared type is bound to.
pub open spec fn bound_proto_name(
    type_def: WitTypeDef,
    path: Seq<char>,
    context: Seq<char>,
) -> Result<Option<Seq<char>>, ErrorView> {
    let directives_outcome = crate::wit::directive::directives_outcome(
        crate::text::opt_text(type_def.docs),
        path,
        context,
    );
    let directives = directives_outcome->Ok_0;
    if directives_outcome is Err {
        Err(directives_outcome->Err_0)
    } else {
        crate::wit::strings::directive_text_under(directives, "proto"@, path, context, "value"@)
    }
}

/// The protobuf type that a declared type is bound to.
pub fn find_proto_name_for_type_def(
    type_def: &WitTypeDef,
    path: &str,
    context: &str,
) -> (result: Result<Option<String>, Error>)
    ensures
        crate::error::opt_outcome(result) == bound_proto_name(*type_def, path@, context@),
{
    let directives = match parse_directives(&type_def.docs, path, context) {
        Ok(value) => value,
        Err(error) => return Err(error),
    };
    directive_value(&directives, "proto", path, context, "value")
}

/// How far a type is from the first declared one.
pub open spec fn type_rank(ty: WitType) -> int {
    match ty {
        WitType::Id(id) => id + 1,
        _ => 0,
    }
}

/// The protobuf type that a type, or what it is an alias of, is bound to.
pub open spec fn proto_name_behind(
    doc: WitDocument,
    ty: WitType,
    path: Seq<char>,
    context: Seq<char>,
) -> Result<Option<Seq<char>>, ErrorView>
    decreases type_rank(ty),
    when doc.wf() && crate::wit::document::type_below(ty, doc.types@.len() as int)
{
    match ty {
        WitType::Id(id) => {
            let type_def = doc.types@[id as int];

            proof { assert(doc.type_ok(id as int)); }
            let label = type_label_text(type_def);
            let type_context = context + " type `"@ + label + "`"@;
            let found_outcome = bound_proto_name(type_def, path, type_context);
            let found = found_outcome->Ok_0;
            if found_outcome is Err {
                Err(found_outcome->Err_0)
            } else {
                match found {
                    Some(name) => Ok(Some(name)),
                    None => match type_def.kind {
                        WitTypeKind::Alias(next) => proto_name_behind(doc, next, path, context),
                        _ => Ok(None),
                    },
                }
            }
        },
        _ => Ok(None),
    }
}

/// The protobuf type that a type, or what it is an alias of, is bound to.
pub fn find_proto_name_for_type(
    doc: &WitDocument,
    ty: WitType,
    path: &str,
    context: &str,
) -> (result: Result<Option<String>, Error>)
    requires
        doc.wf(),
        crate::wit::document::type_below(ty, doc.types@.len() as int),
    ensures
        crate::error::opt_outcome(result) == proto_name_behind(*doc, ty, path@, context@),
    decreases type_rank(ty),
{
    match ty {
        WitType::Id(id) => {
            let type_def = &doc.types[id];
            proof { assert(doc.type_ok(id as int)); }

            let label = type_label(type_def);
            let type_context = context.to_owned().concat(" type `").concat(label.as_str())
                .concat("`");
            let found = match find_proto_name_for_type_def(type_def, path, type_context.as_str()) {
                Ok(value) => value,
                Err(error) => return Err(error),
            };
            match found {
                Some(name) => Ok(Some(name)),
                None => match &type_def.kind {
                    WitTypeKind::Alias(next) => find_proto_name_for_type(doc, *next, path, context),
                    _ => Ok(None),
                },
            }
        },
        _ => Ok(None),
    }
}

/// The resource that a type, or what it is an alias of, owns.
pub open spec fn owned_resource(doc: WitDocument, ty: WitType) -> Option<Seq<char>>
    decreases type_rank(ty),
    when doc.wf() && crate::wit::document::type_below(ty, doc.types@.len() as int)
{
    match ty {
        WitType::Id(id) => {
            let type_def = doc.types@[id as int];

            proof { assert(doc.type_ok(id as int)); }
            match type_def.kind {
                WitTypeKind::Own(resource) => {
                    let resource_id: usize = resource;
                    match doc.types@[resource_id as int].name {
                        Some(name) => Some(name@),
                        None => None,
                    }
                },
                WitTypeKind::Alias(next) => owned_resource(doc, next),
                _ => None,
            }
        },
        _ => None,
    }
}

/// The resource that a type, or what it is an alias of, owns.
pub fn find_owned_resource_name_for_type(
    doc: &WitDocument,
    ty: WitType,
) -> (result: Option<String>)
    requires
        doc.wf(),
        crate::wit::document::type_below(ty, doc.types@.len() as int),
    ensures
        crate::text::opt_text(result) == owned_resource(*doc, ty),
    decreases type_rank(ty),
{
    match ty {
        WitType::Id(id) => {
            let type_def = &doc.types[id];
            proof { assert(doc.type_ok(id as int)); }

            match &type_def.kind {
                WitTypeKind::Own(resource) => {
                    let resource_id: usize = *resource;
                    match &doc.types[resource_id].name {
                        Some(name) => Some(name.clone()),
                        None => None,
                    }
                },
                WitTypeKind::Alias(next) => find_owned_resource_name_for_type(doc, *next),
                _ => None,
            }
        },
        _ => None,
    }
}

/// The record that a type, or what it is an alias of, is.
pub open spec fn record_behind(doc: WitDocument, ty: WitType) -> Option<Seq<char>>
    decreases type_rank(ty),
    when doc.wf() && crate::wit::document::type_below(ty, doc.types@.len() as int)
{
    match ty {
        WitType::Id(id) => {
            let type_def = doc.types@[id as int];

            proof { assert(doc.type_ok(id as int)); }
            match type_def.kind {
                WitTypeKind::Record(_) => Some(full_type_name(doc, id)),
                WitTypeKind::Alias(next) => record_behind(doc, next),
                _ => None,
            }
        },
        _ => None,
    }
}

/// The record that a type, or what it is an alias of, is.
pub fn find_wit_record_name_for_type(doc: &WitDocument, ty: WitType) -> (result: Option<String>)
    requires
        doc.wf(),
        crate::wit::document::type_below(ty, doc.types@.len() as int),
    ensures
        crate::text::opt_text(result) == record_behind(*doc, ty),
    decreases type_rank(ty),
{
    match ty {
        WitType::Id(id) => {
            let type_def = &doc.types[id];
            proof { assert(doc.type_ok(id as int)); }

            match &type_def.kind {
                WitTypeKind::Record(_) => Some(wit_type_full_name(doc, id)),
                WitTypeKind::Alias(next) => find_wit_record_name_for_type(doc, *next),
                _ => None,
            }
        },
        _ => None,
    }
}

/// Whether a type, or what it is an alias of, may be missing.
pub open spec fn optional_behind(doc: WitDocument, ty: WitType) -> bool
    decreases type_rank(ty),
    when doc.wf() && crate::wit::document::type_below(ty, doc.types@.len() as int)
{
    match ty {
        WitType::Id(id) => {
            let type_def = doc.types@[id as int];

            proof { assert(doc.type_ok(id as int)); }
            match type_def.kind {
                WitTypeKind::Optional(_) => true,
                WitTypeKind::Alias(next) => optional_behind(doc, next),
                _ => false,
            }
        },
        _ => false,
    }
}

/// Whether a type, or what it is an alias of, may be missing.
pub fn is_optional_type(doc: &WitDocument, ty: WitType) -> (result: bool)
    requires
        doc.wf(),
        crate::wit::document::type_below(ty, doc.types@.len() as int),
    ensures
        result == optional_behind(*doc, ty),
    decreases type_rank(ty),
{
    match ty {
        WitType::Id(id) => {
            let type_def = &doc.types[id];
            proof { assert(doc.type_ok(id as int)); }

            match &type_def.kind {
                WitTypeKind::Optional(_) => true,
                WitTypeKind::Alias(next) => is_optional_type(doc, *next),
                _ => false,
            }
        },
        _ => false,
    }
}

/// A named argument of a function.
#[derive(Debug)]
pub struct FunctionArgSpec {
    pub name: String,
    pub field_type: TypeSpec,
}

/// A [`FunctionArgSpec`] by its texts.
#[verifier::ext_equal]
pub struct FunctionArgView {
    pub name: Seq<char>,
    pub field_type: crate::wit::types::TypeView,
}

impl View for FunctionArgSpec {
    type V = FunctionArgView;

    open spec fn view(&self) -> FunctionArgView {
        FunctionArgView {
            name: self.name@,
            field_type: self.field_type@,
        }
    }
}

/// The texts of a list of [`FunctionArgSpec`].
pub open spec fn function_arg_spec_views(items: Seq<FunctionArgSpec>) -> Seq<FunctionArgView> {
    items.map_values(|item: FunctionArgSpec| item@)
}

/// The arguments of a function: as many as are given, behind some fixed ones, or fixed ones.
#[derive(Debug)]
pub enum FunctionArgsSpec {
    Varargs { prefix: Vec<FunctionArgSpec>, typescript_drop_prefix: bool },
    Fixed(Vec<FunctionArgSpec>),
}

/// A [`FunctionArgsSpec`] by its texts.
#[verifier::ext_equal]
pub enum FunctionArgsView {
    Varargs { prefix: Seq<FunctionArgView>, typescript_drop_prefix: bool },
    Fixed(Seq<FunctionArgView>),
}

impl View for FunctionArgsSpec {
    type V = FunctionArgsView;

    open spec fn view(&self) -> FunctionArgsView {
        match *self {
            FunctionArgsSpec::Varargs {
                prefix,
                typescript_drop_prefix,
            } => FunctionArgsView::Varargs {
                prefix: function_arg_spec_views(prefix@),
                typescript_drop_prefix,
            },
            FunctionArgsSpec::Fixed(args) => FunctionArgsView::Fixed(
                function_arg_spec_views(args@),
            ),
        }
    }
}

/// What a function signature says of its arguments: the name and the type of the field that holds
/// them, and each of them.
#[derive(Debug)]
pub struct ResolvedFunctionSignatureArgs {
    pub name: String,
    pub field_type: TypeSpec,
    pub function_args: FunctionArgsSpec,
}

/// A [`ResolvedFunctionSignatureArgs`] by its texts.
#[verifier::ext_equal]
pub struct SignatureArgsView {
    pub name: Seq<char>,
    pub field_type: crate::wit::types::TypeView,
    pub function_args: FunctionArgsView,
}

impl View for ResolvedFunctionSignatureArgs {
    type V = SignatureArgsView;

    open spec fn view(&self) -> SignatureArgsView {
        SignatureArgsView {
            name: self.name@,
            field_type: self.field_type@,
            function_args: self.function_args@,
        }
    }
}

/// What a function signature says.
#[derive(Debug)]
pub struct ResolvedFunctionSignature {
    pub args: ResolvedFunctionSignatureArgs,
    pub result: TypeSpec,
}

/// A [`ResolvedFunctionSignature`] by its texts.
#[verifier::ext_equal]
pub struct SignatureView {
    pub args: SignatureArgsView,
    pub result: crate::wit::types::TypeView,
}

impl View for ResolvedFunctionSignature {
    type V = SignatureView;

    open spec fn view(&self) -> SignatureView {
        SignatureView {
            args: self.args@,
            result: self.result@,
        }
    }
}

/// The parameter of a function that takes as many arguments as are given.
#[derive(Debug)]
pub struct FunctionVarargsSpec {
    pub param: String,
    pub typescript_drop_prefix: bool,
}

/// A [`FunctionVarargsSpec`] by its texts.
#[verifier::ext_equal]
pub struct FunctionVarargsView {
    pub param: Seq<char>,
    pub typescript_drop_prefix: bool,
}

impl View for FunctionVarargsSpec {
    type V = FunctionVarargsView;

    open spec fn view(&self) -> FunctionVarargsView {
        FunctionVarargsView {
            param: self.param@,
            typescript_drop_prefix: self.typescript_drop_prefix,
        }
    }
}

/// The texts of an optional [`FunctionVarargsSpec`].
pub open spec fn function_varargs_spec_opt(
    value: Option<FunctionVarargsSpec>,
) -> Option<FunctionVarargsView> {
    match value {
        Some(value) => Some(value@),
        None => None,
    }
}

/// Whether one of the parameters has a name.
pub open spec fn has_param(params: Seq<WitParam>, name: Seq<char>) -> bool {
    exists|i: int| 0 <= i < params.len() && (#[trigger] params[i]).name@ == name
}

/// Whether one of the parameters has a name.
pub fn any_param(params: &Vec<WitParam>, name: &str) -> (found: bool)
    ensures
        found == has_param(params@, name@),
{
    let mut i: usize = 0;
    while i < params.len()
        invariant
            i <= params.len(),
            forall|k: int| 0 <= k < i ==> (#[trigger] params@[k]).name@ != name@,
        decreases params.len() - i,
    {
        if text_eq(params[i].name.as_str(), name) {
            return true;
        }
        i += 1;
    }
    false
}

/// The parameter of a signature that takes as many arguments as are given, where its
/// documentation says that one does: it has to be the last one.
pub open spec fn varargs_outcome(
    function: WitFunction,
    path: Seq<char>,
    context: Seq<char>,
    signature_name: Seq<char>,
) -> Result<Option<FunctionVarargsView>, ErrorView> {
    let function_context = context + " signature `"@ + signature_name + "`"@;
    let directives_outcome = crate::wit::directive::directives_outcome(
        crate::text::opt_text(function.docs),
        path,
        function_context,
    );
    let directives = directives_outcome->Ok_0;
    let found_outcome = crate::wit::directive::directive_outcome(
        directives,
        "function-args"@,
        path,
        function_context,
    );
    let found = found_outcome->Ok_0;
    if directives_outcome is Err {
        Err(directives_outcome->Err_0)
    } else if found_outcome is Err {
        Err(found_outcome->Err_0)
    } else {
        match found {
            None => Ok(None),
            Some(found) => {
                let varargs_outcome = crate::wit::strings::directive_flag_outcome(
                    found,
                    "varargs"@,
                    path,
                    function_context,
                    "@nexus.function-args"@,
                );
                let varargs = varargs_outcome->Ok_0;
                if varargs_outcome is Err {
                    Err(varargs_outcome->Err_0)
                } else {
                    if !varargs {
                        Ok(None)
                    } else {
                        let drop_prefix_outcome = crate::wit::strings::directive_flag_outcome(
                            found,
                            "typescript-drop-prefix"@,
                            path,
                            function_context,
                            "@nexus.function-args"@,
                        );
                        let drop_prefix = drop_prefix_outcome->Ok_0;
                        let param_outcome = varargs_param_outcome(
                            found,
                            function,
                            path,
                            function_context,
                        );
                        let param = param_outcome->Ok_0;
                        if drop_prefix_outcome is Err {
                            Err(drop_prefix_outcome->Err_0)
                        } else if param_outcome is Err {
                            Err(param_outcome->Err_0)
                        } else if !has_param(function.params@, param) {
                            Err(
                                crate::wit::directive::directive_failure(
                                    path,
                                    function_context,
                                    "@nexus.function-args"@,
                                    ("unknown varargs parameter `"@ + param + "`"@),
                                ),
                            )
                        } else if !last_param_named(function.params@, param) {
                            Err(
                                crate::wit::directive::directive_failure(
                                    path,
                                    function_context,
                                    "@nexus.function-args"@,
                                    (
                                        "varargs parameter `"@ + param
                                            + "` must be the final parameter"@
                                    ),
                                ),
                            )
                        } else {
                            Ok(
                                Some(
                                    FunctionVarargsView {
                                        param,
                                        typescript_drop_prefix: drop_prefix,
                                    }
                                ),
                            )
                        }
                    }
                }
            },
        }
    }
}

/// The parameter of a signature that takes as many arguments as are given, where its
/// documentation says that one does: it has to be the last one.
pub fn function_varargs(
    function: &WitFunction,
    path: &str,
    context: &str,
    signature_name: &str,
) -> (result: Result<Option<FunctionVarargsSpec>, Error>)
    ensures
        crate::error::opt_outcome(result) == varargs_outcome(
            *function,
            path@,
            context@,
            signature_name@,
        ),
{
    let function_context = context.to_owned().concat(" signature `").concat(signature_name)
        .concat("`");
    let directives = match parse_directives(&function.docs, path, function_context.as_str()) {
        Ok(value) => value,
        Err(error) => return Err(error),
    };
    let found = match directive(&directives, "function-args", path, function_context.as_str()) {
        Ok(value) => value,
        Err(error) => return Err(error),
    };
    match found {
        None => Ok(None),
        Some(found) => {
            let varargs = match directive_flag(
                found,
                "varargs",
                path,
                function_context.as_str(),
                "@nexus.function-args",
            ) {
                Ok(value) => value,
                Err(error) => return Err(error),
            };
            if !varargs {
                Ok(None)
            } else {
                let drop_prefix = match directive_flag(
                    found,
                    "typescript-drop-prefix",
                    path,
                    function_context.as_str(),
                    "@nexus.function-args",
                ) {
                    Ok(value) => value,
                    Err(error) => return Err(error),
                };
                let param = match varargs_param(found, function, path, function_context.as_str()) {
                    Ok(value) => value,
                    Err(error) => return Err(error),
                };
                if !any_param(&function.params, param.as_str()) {
                    return Err(
                        directive_error(
                            path,
                            function_context.as_str(),
                            "@nexus.function-args",
                            "unknown varargs parameter `".to_owned().concat(param.as_str())
                                .concat("`").as_str(),
                        ),
                    );
                }
                if !last_param_is(&function.params, param.as_str()) {
                    return Err(
                        directive_error(
                            path,
                            function_context.as_str(),
                            "@nexus.function-args",
                            "varargs parameter `".to_owned().concat(param.as_str())
                                .concat("` must be the final parameter").as_str(),
                        ),
                    );
                }
                Ok(Some(FunctionVarargsSpec { param, typescript_drop_prefix: drop_prefix }))
            }
        },
    }
}

/// Whether the last of the parameters has a name.
pub open spec fn last_param_named(params: Seq<WitParam>, name: Seq<char>) -> bool {
    params.len() > 0 && (params[params.len() - 1].name@ == name)
}

/// Whether the last of the parameters has a name.
pub fn last_param_is(params: &Vec<WitParam>, name: &str) -> (result: bool)
    ensures
        result == last_param_named(params@, name@),
{
    params.len() > 0 && text_eq(params[params.len() - 1].name.as_str(), name)
}

/// The parameter that a directive means: the one that it names, else the only one.
pub open spec fn varargs_param_outcome(
    found: crate::wit::directive::DirectiveView,
    function: WitFunction,
    path: Seq<char>,
    function_context: Seq<char>,
) -> Result<Seq<char>, ErrorView> {
    match crate::wit::directive::value_of(found, "param"@) {
        Some(param) => Ok(param),
        None => {
            if function.params@.len() == 1 {
                Ok(function.params@[0].name@)
            } else {
                Err(crate::wit::directive::directive_failure(
                        path,
                        function_context,
                        "@nexus.function-args"@,
                        "`param` is required when varargs is used on a signature with multiple parameters"@,
                ))
            }
        },
    }
}

/// The parameter that a directive means: the one that it names, else the only one.
pub fn varargs_param(
    found: &Directive,
    function: &WitFunction,
    path: &str,
    function_context: &str,
) -> (result: Result<String, Error>)
    ensures
        crate::error::outcome(result) == varargs_param_outcome(
            found@,
            *function,
            path@,
            function_context@,
        ),
{
    match found.value("param") {
        Some(param) => Ok(param),
        None => {
            if function.params.len() == 1 {
                Ok(function.params[0].name.clone())
            } else {
                Err(directive_error(
                    path,
                    function_context,
                    "@nexus.function-args",
                    "`param` is required when varargs is used on a signature with multiple parameters",
                ))
            }
        },
    }
}

/// The type of a field that holds arguments: a list where all have one type, else a tuple.
pub open spec fn args_field_type(args: Seq<FunctionArgView>) -> crate::wit::types::TypeView {
    if args.len() > 0 && forall|i: int|
        0 <= i < args.len() ==> (#[trigger] args[i]).field_type == args[0].field_type {
        crate::wit::types::TypeView::List(Box::new(args[0].field_type))
    } else {
        crate::wit::types::TypeView::Tuple(
            args.map_values(|arg: FunctionArgView| arg.field_type),
        )
    }
}

/// Whether all arguments have one type.
fn args_have_one_type(args: &Vec<FunctionArgSpec>) -> (same: bool)
    requires
        args.len() > 0,
    ensures
        same == forall|i: int|
            0 <= i < args@.len() ==> (#[trigger] function_arg_spec_views(args@)[i]).field_type
                == function_arg_spec_views(args@)[0].field_type,
{
    let ghost views = function_arg_spec_views(args@);
    let mut i: usize = 0;
    while i < args.len()
        invariant
            0 < args.len(),
            i <= args.len(),
            views == function_arg_spec_views(args@),
            forall|k: int| 0 <= k < i ==> (#[trigger] views[k]).field_type == views[0].field_type,
        decreases args.len() - i,
    {
        assert(views[i as int] == args@[i as int]@);
        assert(views[0] == args@[0]@);
        if !same_type(&args[i].field_type, &args[0].field_type) {
            assert(views[i as int].field_type != views[0].field_type);
            return false;
        }
        i += 1;
    }
    true
}

/// The type of a field that holds arguments: a list where all have one type, else a tuple.
pub fn function_args_field_type(args: &Vec<FunctionArgSpec>) -> (result: TypeSpec)
    ensures
        result@ == args_field_type(function_arg_spec_views(args@)),
{
    let ghost views = function_arg_spec_views(args@);
    if args.len() > 0 && args_have_one_type(args) {
        assert(views[0] == args@[0]@);
        return TypeSpec::List(Box::new(copy_type(&args[0].field_type)));
    }
    let ghost wanted = views.map_values(|arg: FunctionArgView| arg.field_type);
    let mut items: Vec<TypeSpec> = Vec::new();
    let mut i: usize = 0;
    assert(crate::wit::types::type_spec_views(items@) =~= wanted.take(0));
    while i < args.len()
        invariant
            i <= args.len(),
            views == function_arg_spec_views(args@),
            wanted == views.map_values(|arg: FunctionArgView| arg.field_type),
            crate::wit::types::type_spec_views(items@) == wanted.take(i as int),
        decreases args.len() - i,
    {
        let ghost before = items@;
        items.push(copy_type(&args[i].field_type));
        assert(items@.drop_last() =~= before);
        assert(wanted[i as int] == args@[i as int]@.field_type);
        assert(wanted.take(i + 1) =~= wanted.take(i as int).push(wanted[i as int]));
        i += 1;
    }
    assert(wanted.take(i as int) =~= wanted);
    TypeSpec::Tuple(items)
}

/// The first argument with a name.
pub open spec fn arg_index(args: Seq<FunctionArgView>, name: Seq<char>) -> int
    decreases args.len(),
{
    if args.len() == 0 || args[0].name == name {
        0
    } else {
        1 + arg_index(args.drop_first(), name)
    }
}

/// The first argument with a name.
fn find_arg(args: &Vec<FunctionArgSpec>, name: &str) -> (index: usize)
    ensures
        index <= args.len(),
        index == arg_index(function_arg_spec_views(args@), name@),
{
    let ghost views = function_arg_spec_views(args@);
    let mut i: usize = 0;
    assert(views.skip(0) =~= views);
    while i < args.len()
        invariant
            i <= args.len(),
            views == function_arg_spec_views(args@),
            i + arg_index(views.skip(i as int), name@) == arg_index(views, name@),
        decreases args.len() - i,
    {
        assert(views.skip(i as int)[0] == args@[i as int]@);
        if text_eq(args[i].name.as_str(), name) {
            return i;
        }
        assert(views.skip(i as int).drop_first() =~= views.skip(i + 1));
        i += 1;
    }
    i
}

/// What a signature says of its arguments, once their types are known.
pub open spec fn signature_args(
    args: Seq<FunctionArgView>,
    varargs: Option<FunctionVarargsView>,
) -> SignatureArgsView {
    match varargs {
        Some(varargs) => {
            let index = arg_index(args, varargs.param);
            SignatureArgsView {
                name: varargs.param,
                field_type: args[index].field_type,
                function_args: FunctionArgsView::Varargs {
                    prefix: args.take(index),
                    typescript_drop_prefix: varargs.typescript_drop_prefix,
                },
            }
        },
        None => SignatureArgsView {
            name: if args.len() == 1 {
                args[0].name
            } else {
                "args"@
            },
            field_type: args_field_type(args),
            function_args: FunctionArgsView::Fixed(args),
        },
    }
}

/// A copy of the first arguments.
fn first_args(args: &Vec<FunctionArgSpec>, count: usize) -> (first: Vec<FunctionArgSpec>)
    requires
        count <= args.len(),
    ensures
        function_arg_spec_views(first@) == function_arg_spec_views(args@).take(count as int),
{
    let ghost views = function_arg_spec_views(args@);
    let mut first: Vec<FunctionArgSpec> = Vec::new();
    let mut i: usize = 0;
    assert(function_arg_spec_views(first@) =~= views.take(0));
    while i < count
        invariant
            i <= count <= args.len(),
            views == function_arg_spec_views(args@),
            function_arg_spec_views(first@) == views.take(i as int),
        decreases count - i,
    {
        let ghost before = first@;
        first.push(
            FunctionArgSpec {
                name: args[i].name.clone(),
                field_type: copy_type(&args[i].field_type),
            },
        );
        assert(function_arg_spec_views(first@) =~= function_arg_spec_views(before).push(
            args@[i as int]@,
        ));
        assert(views.take(i + 1) =~= views.take(i as int).push(args@[i as int]@));
        i += 1;
    }
    first
}

/// What a signature says of its arguments, once their types are known.
fn signature_args_of(args: Vec<FunctionArgSpec>, varargs: Option<FunctionVarargsSpec>) -> (result:
    ResolvedFunctionSignatureArgs)
    requires
        varargs matches Some(varargs) ==> arg_index(
            function_arg_spec_views(args@),
            varargs@.param,
        ) < args.len(),
    ensures
        result@ == signature_args(
            function_arg_spec_views(args@),
            function_varargs_spec_opt(varargs),
        ),
{
    let ghost views = function_arg_spec_views(args@);
    match varargs {
        Some(varargs) => {
            let index = find_arg(&args, varargs.param.as_str());
            assert(views[index as int] == args@[index as int]@);
            ResolvedFunctionSignatureArgs {
                field_type: copy_type(&args[index].field_type),
                function_args: FunctionArgsSpec::Varargs {
                    prefix: first_args(&args, index),
                    typescript_drop_prefix: varargs.typescript_drop_prefix,
                },
                name: varargs.param,
            }
        },
        None => {
            let name = if args.len() == 1 {
                assert(views[0] == args@[0]@);
                args[0].name.clone()
            } else {
                "args".to_owned()
            };
            ResolvedFunctionSignatureArgs {
                name,
                field_type: function_args_field_type(&args),
                function_args: FunctionArgsSpec::Fixed(args),
            }
        },
    }
}

/// The annotations of an alias; of an alias without any, those of what it is an alias of.
pub open spec fn annotation_behind(
    t: crate::wit::types::TypeView,
) -> crate::plan::LanguageStringView
    decreases t,
{
    match t {
        crate::wit::types::TypeView::Alias {
            name,
            target,
            annotation,
        } => if crate::plan::strings_empty(
            annotation,
        ) {
            annotation_behind(*target)
        } else {
            annotation
        },
        _ => crate::plan::no_strings(),
    }
}

/// The annotations of an alias; of an alias without any, those of what it is an alias of.
pub fn authored_type_language_string(t: &TypeSpec) -> (strings: LanguageStringSpec)
    ensures
        strings@ == annotation_behind(t@),
    decreases t,
{
    match t {
        TypeSpec::Alias { name: _, target, annotation } => {
            if annotation.is_empty() {
                authored_type_language_string(target)
            } else {
                annotation.copy()
            }
        },
        _ => LanguageStringSpec::new(),
    }
}

/// The texts with the type parameter of one language replaced in its own text.
pub open spec fn parameter_replaced(
    strings: crate::plan::LanguageStringView,
    language: Language,
    parameter: Seq<char>,
    by: Seq<char>,
) -> crate::plan::LanguageStringView {
    crate::plan::LanguageStringView {
        by_language: strings.by_language.map_values(
            |entry: crate::plan::LanguageTextView|
                if entry.language == language {
                crate::plan::LanguageTextView {
                    language,
                    text: crate::text::replaced_text(entry.text, parameter, by),
                }
            } else {
                entry
            },
        ),
        ..strings
    }
}

/// The texts with the type parameter of one language replaced in its own text.
pub fn replace_type_parameter_for_language(
    strings: LanguageStringSpec,
    language: Language,
    parameter: &str,
    by: &str,
) -> (result: LanguageStringSpec)
    ensures
        result@ == parameter_replaced(strings@, language, parameter@, by@),
{
    let ghost wanted = parameter_replaced(strings@, language, parameter@, by@).by_language;
    let ghost all = strings.by_language@;
    let mut by_language: Vec<LanguageText> = Vec::new();
    let mut i: usize = 0;
    assert(crate::plan::language_text_views(by_language@) =~= wanted.take(0));
    while i < strings.by_language.len()
        invariant
            i <= strings.by_language.len(),
            all == strings.by_language@,
            wanted == parameter_replaced(strings@, language, parameter@, by@).by_language,
            crate::plan::language_text_views(by_language@) == wanted.take(i as int),
        decreases strings.by_language.len() - i,
    {
        let ghost before = by_language@;
        let entry = &strings.by_language[i];
        let text = if entry.language == language {
            replace_text(entry.text.as_str(), parameter, by)
        } else {
            entry.text.clone()
        };
        let made = LanguageText { language: entry.language, text };
        assert(crate::plan::language_text_views(all)[i as int] == all[i as int]@);
        assert(wanted[i as int] =~= made@);
        by_language.push(made);
        assert(crate::plan::language_text_views(by_language@)
            =~= crate::plan::language_text_views(before).push(made@));
        assert(wanted.take(i + 1) =~= wanted.take(i as int).push(wanted[i as int]));
        i += 1;
    }
    assert(wanted.take(i as int) =~= wanted);
    LanguageStringSpec { by_language, ..strings }
}

/// A text for one language alone.
pub open spec fn one_language_entry(
    language: Language,
    text: Seq<char>,
) -> Seq<crate::plan::LanguageTextView> {
    seq![(crate::plan::LanguageTextView { language, text })]
}

/// A text for one language alone.
pub fn one_language(language: Language, text: &str) -> (result: Vec<LanguageText>)
    ensures
        crate::plan::language_text_views(result@) == one_language_entry(language, text@),
{
    let entries = vec![LanguageText { language, text: text.to_owned() }];
    assert(crate::plan::language_text_views(entries@) =~= one_language_entry(language, text@));
    entries
}

/// The annotations of a function that has a result: a name, or a function with that result.
pub open spec fn callable_strings(
    result_type: crate::plan::LanguageStringView,
) -> Option<crate::plan::LanguageStringView> {
    let python = match crate::plan::view_text_for(result_type, Language::Python) {
        Some(text) => one_language_entry(
            Language::Python,
            ("str | collections.abc.Callable[..., "@ + text + "]"@),
        ),
        None => Seq::empty(),
    };
    let typescript = match crate::plan::view_text_for(result_type, Language::TypeScript) {
        Some(text) => one_language_entry(
            Language::TypeScript,
            ("string | ((...args: any[]) => "@ + text + ")"@),
        ),
        None => Seq::empty(),
    };
    let by_language = python + typescript;
    if by_language.len() == 0 {
        None
    } else {
        Some(crate::plan::LanguageStringView { by_language, ..crate::plan::no_strings() })
    }
}

/// The annotations of a function that has a result: a name, or a function with that result.
pub fn callable_annotation(
    result_type: &LanguageStringSpec,
) -> (result: Option<LanguageStringSpec>)
    ensures
        crate::plan::language_string_spec_opt(result) == callable_strings(result_type@),
{
    let python = match result_type.for_language(Language::Python) {
        Some(text) => one_language(
            Language::Python,
            "str | collections.abc.Callable[..., ".to_owned().concat(text.as_str())
                .concat("]").as_str(),
        ),
        None => no_entries(),
    };
    let typescript = match result_type.for_language(Language::TypeScript) {
        Some(text) => one_language(
            Language::TypeScript,
            "string | ((...args: any[]) => ".to_owned().concat(text.as_str()).concat(")").as_str(),
        ),
        None => no_entries(),
    };
    let by_language = with_entries(python, typescript);
    if by_language.len() == 0 {
        None
    } else {
        Some(LanguageStringSpec { by_language, ..LanguageStringSpec::new() })
    }
}

/// No texts for languages.
pub open spec fn no_entry_views() -> Seq<crate::plan::LanguageTextView> {
    Seq::empty()
}

/// No texts for languages.
pub fn no_entries() -> (entries: Vec<LanguageText>)
    ensures
        crate::plan::language_text_views(entries@) == no_entry_views(),
{
    let entries: Vec<LanguageText> = Vec::new();
    assert(crate::plan::language_text_views(entries@) =~= Seq::empty());
    entries
}

/// Two lists of texts for languages, one behind the other.
fn with_entries(head: Vec<LanguageText>, tail: Vec<LanguageText>) -> (all: Vec<LanguageText>)
    ensures
        crate::plan::language_text_views(all@) == crate::plan::language_text_views(head@)
            + crate::plan::language_text_views(tail@),
{
    let ghost start = head@;
    let ghost added = tail@;
    let mut all = head;
    let mut tail = tail;
    all.append(&mut tail);
    assert(crate::plan::language_text_views(start + added) =~= crate::plan::language_text_views(
        start,
    ) + crate::plan::language_text_views(added));
    all
}

/// The type of texts.
pub open spec fn text_type_view() -> crate::wit::types::TypeView {
    crate::wit::types::TypeView::Text
}

/// The type of texts.
pub fn text_type() -> (result: TypeSpec)
    ensures
        result@ == text_type_view(),
{
    TypeSpec::Text
}

/// A protobuf type.
pub open spec fn proto_type_view(name: Seq<char>) -> crate::wit::types::TypeView {
    crate::wit::types::TypeView::Proto(name)
}

/// A protobuf type.
pub fn proto_type(name: &str) -> (result: TypeSpec)
    ensures
        result@ == proto_type_view(name@),
{
    TypeSpec::Proto(name.to_owned())
}

/// The result that a directive gives a function by hand, as an alias without a name.
pub open spec fn written_result_type(
    found: crate::wit::directive::DirectiveView,
) -> Option<crate::wit::types::TypeView> {
    let annotation = crate::wit::strings::directive_result_strings(found);
    if crate::plan::strings_empty(annotation) {
        None
    } else {
        Some(
            crate::wit::types::TypeView::Alias {
                name: Seq::<char>::empty(),
                target: Box::new(text_type_view()),
                annotation,
            }
        )
    }
}

/// The result that a directive gives a function by hand, as an alias without a name.
pub fn written_result(found: &Directive) -> (result: Option<TypeSpec>)
    ensures
        crate::wit::types::type_spec_opt(result) == written_result_type(found@),
{
    let annotation = directive_result_language_string(found);
    if annotation.is_empty() {
        None
    } else {
        Some(TypeSpec::Alias { name: String::new(), target: Box::new(text_type()), annotation })
    }
}

/// The annotations of an alias of a function with a result, where the result has any.
pub open spec fn callable_strings_for(
    result_type: crate::wit::types::TypeView,
    found: crate::wit::directive::DirectiveView,
) -> Option<crate::plan::LanguageStringView> {
    let strings = annotation_behind(result_type);
    if crate::plan::strings_empty(strings) {
        None
    } else {
        match crate::wit::strings::result_type_parameter_text(found) {
            None => callable_strings(strings),
            Some(parameter) => {
                let python = parameter_replaced(
                    strings,
                    Language::Python,
                    parameter,
                    "typing.Any"@,
                );
                let both = parameter_replaced(python, Language::TypeScript, parameter, "any"@);
                callable_strings(both)
            },
        }
    }
}

/// The annotations of an alias of a function with a result, where the result has any.
pub fn callable_annotation_for(
    result_type: &TypeSpec,
    found: &Directive,
) -> (result: Option<LanguageStringSpec>)
    ensures
        crate::plan::language_string_spec_opt(result) == callable_strings_for(result_type@, found@),
{
    let strings = authored_type_language_string(result_type);
    if strings.is_empty() {
        None
    } else {
        match directive_result_type_parameter(found) {
            None => callable_annotation(&strings),
            Some(parameter) => {
                let python = replace_type_parameter_for_language(
                    strings,
                    Language::Python,
                    parameter.as_str(),
                    "typing.Any",
                );
                let both = replace_type_parameter_for_language(
                    python,
                    Language::TypeScript,
                    parameter.as_str(),
                    "any",
                );
                callable_annotation(&both)
            },
        }
    }
}

/// A function of an interface, by its name.
pub open spec fn function_index(functions: Seq<WitFunction>, name: Seq<char>) -> int
    decreases functions.len(),
{
    if functions.len() == 0 || functions[0].name@ == name {
        0
    } else {
        1 + function_index(functions.drop_first(), name)
    }
}

/// The index of a function of an interface, by its name.
pub fn find_function(functions: &Vec<WitFunction>, name: &str) -> (index: usize)
    ensures
        index <= functions.len(),
        index == function_index(functions@, name@),
{
    let mut i: usize = 0;
    assert(functions@.skip(0) =~= functions@);
    while i < functions.len()
        invariant
            i <= functions.len(),
            i + function_index(functions@.skip(i as int), name@) == function_index(
                functions@,
                name@,
            ),
        decreases functions.len() - i,
    {
        if text_eq(functions[i].name.as_str(), name) {
            return i;
        }
        assert(functions@.skip(i as int).drop_first() =~= functions@.skip(i + 1));
        i += 1;
    }
    i
}

pub proof fn lemma_function_index(functions: Seq<WitFunction>, name: Seq<char>)
    ensures
        0 <= function_index(functions, name) <= functions.len(),
    decreases functions.len(),
{
    if functions.len() > 0 && functions[0].name@ != name {
        lemma_function_index(functions.drop_first(), name);
    }
}

/// More than the number of items of any list.
pub open spec fn above_all() -> nat {
    (usize::MAX + 1) as nat
}

/// Whether every parameter of a function is of a declared type.
pub open spec fn params_below(params: Seq<WitParam>, limit: int) -> bool {
    forall|i: int|
        0 <= i < params.len() ==> crate::wit::document::type_below(
        (#[trigger] params[i]).ty,
        limit,
    )
}

/// Whether every type of a list is declared before an index.
pub open spec fn types_below(items: Seq<WitType>, limit: int) -> bool {
    forall|i: int|
        0 <= i < items.len() ==> crate::wit::document::type_below(#[trigger] items[i], limit)
}

/// Types, or an error, by what they show.
pub open spec fn types_result(result: Result<Vec<TypeSpec>, Error>) -> Result<
    Seq<crate::wit::types::TypeView>,
    ErrorView,
> {
    match result {
        Ok(items) => Ok(crate::wit::types::type_spec_views(items@)),
        Err(error) => Err(error@),
    }
}

/// Arguments, or an error, by what they show.
pub open spec fn args_result(result: Result<Vec<FunctionArgSpec>, Error>) -> Result<
    Seq<FunctionArgView>,
    ErrorView,
> {
    match result {
        Ok(items) => Ok(function_arg_spec_views(items@)),
        Err(error) => Err(error@),
    }
}

/// A type that may be there, or an error, by what is shown of it.
pub open spec fn opt_type_result(result: Result<Option<Box<TypeSpec>>, Error>) -> Result<
    Option<Box<crate::wit::types::TypeView>>,
    ErrorView,
> {
    match result {
        Ok(t) => Ok(crate::wit::types::opt_type_view(t)),
        Err(error) => Err(error@),
    }
}

/// The authored type that a WIT type stands for. Signatures are followed up to a depth.
pub open spec fn type_outcome(
    doc: WitDocument,
    ty: WitType,
    path: Seq<char>,
    context: Seq<char>,
    budget: usize,
) -> Result<crate::wit::types::TypeView, ErrorView>
    decreases budget, type_rank(ty), 0nat,
    when doc.wf() && crate::wit::document::type_below(ty, doc.types@.len() as int)
{
    match ty {
        WitType::Bool => Ok(crate::wit::types::TypeView::Bool),
        WitType::Integer => Ok(crate::wit::types::TypeView::Int),
        WitType::Float => Ok(crate::wit::types::TypeView::Float),
        WitType::Text => Ok(crate::wit::types::TypeView::Text),
        WitType::Id(id) => declared_type_outcome(doc, id, path, context, budget),
        WitType::Unsupported => Err(crate::wit::directive::wit_failure(
                path,
                (context + " uses unsupported WIT type for generated model fields"@),
        )),
    }
}

/// The authored type that a WIT type stands for. Signatures are followed up to a depth.
pub fn resolve_authored_field_type_spec(
    doc: &WitDocument,
    ty: WitType,
    path: &str,
    context: &str,
    budget: usize,
) -> (result: Result<TypeSpec, Error>)
    requires
        doc.wf(),
        crate::wit::document::type_below(ty, doc.types@.len() as int),
    ensures
        crate::error::outcome(result) == type_outcome(*doc, ty, path@, context@, budget),
    decreases budget, type_rank(ty), 0nat,
{
    match ty {
        WitType::Bool => Ok(TypeSpec::Bool),
        WitType::Integer => Ok(TypeSpec::Int),
        WitType::Float => Ok(TypeSpec::Float),
        WitType::Text => Ok(TypeSpec::Text),
        WitType::Id(id) => resolve_declared_type(doc, id, path, context, budget),
        WitType::Unsupported => Err(wit_error(
            path,
            context.to_owned().concat(
                " uses unsupported WIT type for generated model fields",
            ).as_str(),
        )),
    }
}

/// The authored type that a declared WIT type stands for.
pub open spec fn declared_type_outcome(
    doc: WitDocument,
    id: usize,
    path: Seq<char>,
    context: Seq<char>,
    budget: usize,
) -> Result<crate::wit::types::TypeView, ErrorView>
    decreases budget, id, above_all() + 1,
    when doc.wf() && id < doc.types@.len()
{
    let type_def = doc.types@[id as int];
    let label = type_label_text(type_def);
    let type_context = context + " type `"@ + label + "`"@;
    let directives_outcome = crate::wit::directive::directives_outcome(
        crate::text::opt_text(type_def.docs),
        path,
        type_context,
    );
    let directives = directives_outcome->Ok_0;
    let parameter_outcome = crate::wit::directive::directive_outcome(
        directives,
        "type-parameter"@,
        path,
        type_context,
    );
    let parameter = parameter_outcome->Ok_0;
    let proto_name_outcome = bound_proto_name(type_def, path, type_context);
    let proto_name = proto_name_outcome->Ok_0;
    if directives_outcome is Err {
        Err(directives_outcome->Err_0)
    } else if parameter_outcome is Err {
        Err(parameter_outcome->Err_0)
    } else if parameter.is_some() {
        Ok(crate::wit::types::TypeView::TypeParameter(crate::wit::types::TypeParameterView {
                    name: crate::naming::upper_camel(label),
                    full_name: full_type_name(doc, id),
        }))
    } else if proto_name_outcome is Err {
        Err(proto_name_outcome->Err_0)
    } else {
        match proto_name {
            Some(proto_name) => bound_type_outcome(
                doc,
                id,
                directives,
                proto_name,
                path,
                type_context,
            ),
            None => type_kind_outcome(doc, id, directives, path, type_context, budget),
        }
    }
}

/// The authored type that a declared WIT type stands for.
pub fn resolve_declared_type(
    doc: &WitDocument,
    id: usize,
    path: &str,
    context: &str,
    budget: usize,
) -> (result: Result<TypeSpec, Error>)
    requires
        doc.wf(),
        id < doc.types@.len(),
    ensures
        crate::error::outcome(result) == declared_type_outcome(*doc, id, path@, context@, budget),
    decreases budget, id, above_all() + 1,
{
    let type_def = &doc.types[id];
    let label = type_label(type_def);
    let type_context = context.to_owned().concat(" type `").concat(label.as_str()).concat("`");
    let directives = match parse_directives(&type_def.docs, path, type_context.as_str()) {
        Ok(value) => value,
        Err(error) => return Err(error),
    };
    let parameter = match directive(&directives, "type-parameter", path, type_context.as_str()) {
        Ok(value) => value,
        Err(error) => return Err(error),
    };
    if parameter.is_some() {
        return Ok(TypeSpec::TypeParameter(TypeParameterSpec {
            name: to_upper_camel(label.as_str()),
            full_name: wit_type_full_name(doc, id),
        }));
    }
    let proto_name = match find_proto_name_for_type_def(type_def, path, type_context.as_str()) {
        Ok(value) => value,
        Err(error) => return Err(error),
    };
    match proto_name {
        Some(proto_name) => resolve_bound_type(
            doc,
            id,
            &directives,
            proto_name.as_str(),
            path,
            type_context.as_str(),
        ),
        None => resolve_type_kind(doc, id, &directives, path, type_context.as_str(), budget),
    }
}

/// The authored type that a WIT type stands for that is bound to a protobuf type.
pub open spec fn bound_type_outcome(
    doc: WitDocument,
    id: usize,
    directives: Seq<crate::wit::directive::DirectiveView>,
    proto_name: Seq<char>,
    path: Seq<char>,
    type_context: Seq<char>,
) -> Result<crate::wit::types::TypeView, ErrorView> {
    let resource_name = owned_resource(doc, WitType::Id(id));
    match resource_name {
        Some(resource_name) => {
            let found_outcome = crate::wit::directive::directive_outcome(
                directives,
                "type"@,
                path,
                type_context,
            );
            let found = found_outcome->Ok_0;
            if found_outcome is Err {
                Err(found_outcome->Err_0)
            } else {
                match found {
                    None => Ok(crate::wit::types::TypeView::Resource(crate::wit::types::ResourceTypeView {
                                name: resource_name,
                                wire_type: None,
                                alias: None,
                    })),
                    Some(found) => Ok(crate::wit::types::TypeView::Alias {
                            name: full_type_name(doc, id),
                            target: Box::new(proto_type_view(proto_name)),
                            annotation: crate::wit::strings::directive_strings(found),
                    }),
                }
            }
        },
        None => {
            let found_outcome = crate::wit::directive::directive_outcome(
                directives,
                "type"@,
                path,
                type_context,
            );
            let found = found_outcome->Ok_0;
            if found_outcome is Err {
                Err(found_outcome->Err_0)
            } else {
                match found {
                    None => Ok(crate::wit::types::TypeView::Proto(proto_name)),
                    Some(found) => Ok(crate::wit::types::TypeView::Alias {
                            name: full_type_name(doc, id),
                            target: Box::new(proto_type_view(proto_name)),
                            annotation: crate::wit::strings::directive_strings(found),
                    }),
                }
            }
        },
    }
}

/// The authored type that a WIT type stands for that is bound to a protobuf type.
pub fn resolve_bound_type(
    doc: &WitDocument,
    id: usize,
    directives: &Vec<Directive>,
    proto_name: &str,
    path: &str,
    type_context: &str,
) -> (result: Result<TypeSpec, Error>)
    requires
        doc.wf(),
        id < doc.types@.len(),
    ensures
        crate::error::outcome(result) == bound_type_outcome(
            *doc,
            id,
            crate::wit::directive::directive_views(directives@),
            proto_name@,
            path@,
            type_context@,
        ),
{
    let resource_name = find_owned_resource_name_for_type(doc, WitType::Id(id));
    match resource_name {
        Some(resource_name) => {
            let found = match directive(directives, "type", path, type_context) {
                Ok(value) => value,
                Err(error) => return Err(error),
            };
            match found {
                None => Ok(TypeSpec::Resource(AuthoredResourceType {
                    name: resource_name,
                    wire_type: None,
                    alias: None,
                })),
                Some(found) => Ok(TypeSpec::Alias {
                    name: wit_type_full_name(doc, id),
                    target: Box::new(proto_type(proto_name)),
                    annotation: directive_language_string(found),
                }),
            }
        },
        None => {
            let found = match directive(directives, "type", path, type_context) {
                Ok(value) => value,
                Err(error) => return Err(error),
            };
            match found {
                None => Ok(TypeSpec::Proto(proto_name.to_owned())),
                Some(found) => Ok(TypeSpec::Alias {
                    name: wit_type_full_name(doc, id),
                    target: Box::new(proto_type(proto_name)),
                    annotation: directive_language_string(found),
                }),
            }
        },
    }
}

/// The authored type that a WIT type stands for by what it is made of.
pub open spec fn type_kind_outcome(
    doc: WitDocument,
    id: usize,
    directives: Seq<crate::wit::directive::DirectiveView>,
    path: Seq<char>,
    type_context: Seq<char>,
    budget: usize,
) -> Result<crate::wit::types::TypeView, ErrorView>
    decreases budget, id, above_all(),
    when doc.wf() && id < doc.types@.len()
{
    let type_def = doc.types@[id as int];

    proof { assert(doc.type_ok(id as int)); }
    match type_def.kind {
        WitTypeKind::Optional(inner) => {
            let inner_outcome = type_outcome(doc, inner, path, type_context, budget);
            let inner = inner_outcome->Ok_0;
            if inner_outcome is Err {
                Err(inner_outcome->Err_0)
            } else {
                Ok(crate::wit::types::TypeView::Optional(Box::new(inner)))
            }
        },
        WitTypeKind::List(inner) => {
            let inner_outcome = type_outcome(doc, inner, path, type_context, budget);
            let inner = inner_outcome->Ok_0;
            if inner_outcome is Err {
                Err(inner_outcome->Err_0)
            } else {
                Ok(crate::wit::types::TypeView::List(Box::new(inner)))
            }
        },
        WitTypeKind::Tuple(items) => {
            let items_outcome = types_outcome(
                doc,
                items@,
                items.len(),
                id,
                path,
                type_context,
                budget,
            );
            let items = items_outcome->Ok_0;
            if items_outcome is Err {
                Err(items_outcome->Err_0)
            } else {
                Ok(crate::wit::types::TypeView::Tuple(items))
            }
        },
        WitTypeKind::Mapping(key, value) => {
            let key_outcome = type_outcome(doc, key, path, type_context, budget);
            let key = key_outcome->Ok_0;
            let value_outcome = type_outcome(doc, value, path, type_context, budget);
            let value = value_outcome->Ok_0;
            if key_outcome is Err {
                Err(key_outcome->Err_0)
            } else if value_outcome is Err {
                Err(value_outcome->Err_0)
            } else {
                Ok(crate::wit::types::TypeView::Mapping(Box::new(key), Box::new(value)))
            }
        },
        WitTypeKind::Outcome(ok, err) => {
            let ok_outcome = opt_type_outcome(doc, ok, id, path, type_context, budget);
            let ok = ok_outcome->Ok_0;
            let err_outcome = opt_type_outcome(doc, err, id, path, type_context, budget);
            let err = err_outcome->Ok_0;
            if ok_outcome is Err {
                Err(ok_outcome->Err_0)
            } else if err_outcome is Err {
                Err(err_outcome->Err_0)
            } else {
                Ok(crate::wit::types::TypeView::Outcome { ok, err })
            }
        },
        WitTypeKind::Alias(next) => {
            let target_outcome = type_outcome(doc, next, path, type_context, budget);
            let target = target_outcome->Ok_0;
            let found_outcome = crate::wit::directive::directive_outcome(
                directives,
                "type"@,
                path,
                type_context,
            );
            let found = found_outcome->Ok_0;
            if target_outcome is Err {
                Err(target_outcome->Err_0)
            } else if found_outcome is Err {
                Err(found_outcome->Err_0)
            } else {
                match found {
                    Some(found) => Ok(crate::wit::types::TypeView::Alias {
                            name: full_type_name(doc, id),
                            target: Box::new(target),
                            annotation: crate::wit::strings::directive_strings(found),
                    }),
                    None => {
                        let function_outcome = crate::wit::directive::directive_outcome(
                            directives,
                            "function"@,
                            path,
                            type_context,
                        );
                        let function = function_outcome->Ok_0;
                        if function_outcome is Err {
                            Err(function_outcome->Err_0)
                        } else {
                            match function {
                                None => Ok(target),
                                Some(function) => {
                                    let annotation_outcome = alias_annotation_outcome(
                                        doc,
                                        type_def.owner,
                                        function,
                                        path,
                                        type_context,
                                        budget,
                                    );
                                    let annotation = annotation_outcome->Ok_0;
                                    if annotation_outcome is Err {
                                        Err(annotation_outcome->Err_0)
                                    } else {
                                        match annotation {
                                            Some(annotation) => Ok(crate::wit::types::TypeView::Alias {
                                                    name: full_type_name(doc, id),
                                                    target: Box::new(target),
                                                    annotation,
                                            }),
                                            None => Ok(target),
                                        }
                                    }
                                },
                            }
                        }
                    },
                }
            }
        },
        WitTypeKind::Record(_) => Ok(crate::wit::types::TypeView::Record(full_type_name(doc, id))),
        WitTypeKind::Enumeration(_) => Ok(
            crate::wit::types::TypeView::Enumeration(full_type_name(doc, id)),
        ),
        WitTypeKind::Flags(_) => Ok(crate::wit::types::TypeView::Flags(full_type_name(doc, id))),
        WitTypeKind::Variant(_) => Ok(
            crate::wit::types::TypeView::Variant(full_type_name(doc, id)),
        ),
        WitTypeKind::Own(resource) => Ok(
            crate::wit::types::TypeView::Resource(handled_resource_type(doc, resource)),
        ),
        WitTypeKind::Borrow(resource) => Ok(
            crate::wit::types::TypeView::Resource(handled_resource_type(doc, resource)),
        ),
        WitTypeKind::Resource => Ok(crate::wit::types::TypeView::Resource(crate::wit::types::ResourceTypeView {
                    name: type_label_text(type_def),
                    wire_type: None,
                    alias: None,
        })),
        WitTypeKind::Other(kind) => Err(crate::wit::directive::wit_failure(
                path,
                (
                    type_context + " uses unsupported WIT type `"@ + kind@
                        + "` for generated model fields"@
                ),
        )),
    }
}

/// The authored type that a WIT type stands for by what it is made of.
pub fn resolve_type_kind(
    doc: &WitDocument,
    id: usize,
    directives: &Vec<Directive>,
    path: &str,
    type_context: &str,
    budget: usize,
) -> (result: Result<TypeSpec, Error>)
    requires
        doc.wf(),
        id < doc.types@.len(),
    ensures
        crate::error::outcome(result) == type_kind_outcome(
            *doc,
            id,
            crate::wit::directive::directive_views(directives@),
            path@,
            type_context@,
            budget,
        ),
    decreases budget, id, above_all(),
{
    let type_def = &doc.types[id];
    proof { assert(doc.type_ok(id as int)); }

    match &type_def.kind {
        WitTypeKind::Optional(inner) => {
            let inner = match resolve_authored_field_type_spec(
                doc,
                *inner,
                path,
                type_context,
                budget,
            ) {
                Ok(value) => value,
                Err(error) => return Err(error),
            };
            Ok(TypeSpec::Optional(Box::new(inner)))
        },
        WitTypeKind::List(inner) => {
            let inner = match resolve_authored_field_type_spec(
                doc,
                *inner,
                path,
                type_context,
                budget,
            ) {
                Ok(value) => value,
                Err(error) => return Err(error),
            };
            Ok(TypeSpec::List(Box::new(inner)))
        },
        WitTypeKind::Tuple(items) => {
            let items = match resolve_types(
                doc,
                items,
                items.len(),
                id,
                path,
                type_context,
                budget,
            ) {
                Ok(value) => value,
                Err(error) => return Err(error),
            };
            Ok(TypeSpec::Tuple(items))
        },
        WitTypeKind::Mapping(key, value) => {
            let key = match resolve_authored_field_type_spec(
                doc,
                *key,
                path,
                type_context,
                budget,
            ) {
                Ok(value) => value,
                Err(error) => return Err(error),
            };
            let value = match resolve_authored_field_type_spec(
                doc,
                *value,
                path,
                type_context,
                budget,
            ) {
                Ok(value) => value,
                Err(error) => return Err(error),
            };
            Ok(TypeSpec::Mapping(Box::new(key), Box::new(value)))
        },
        WitTypeKind::Outcome(ok, err) => {
            let ok = match resolve_opt_type(doc, *ok, id, path, type_context, budget) {
                Ok(value) => value,
                Err(error) => return Err(error),
            };
            let err = match resolve_opt_type(doc, *err, id, path, type_context, budget) {
                Ok(value) => value,
                Err(error) => return Err(error),
            };
            Ok(TypeSpec::Outcome { ok, err })
        },
        WitTypeKind::Alias(next) => {
            let target = match resolve_authored_field_type_spec(
                doc,
                *next,
                path,
                type_context,
                budget,
            ) {
                Ok(value) => value,
                Err(error) => return Err(error),
            };
            let found = match directive(directives, "type", path, type_context) {
                Ok(value) => value,
                Err(error) => return Err(error),
            };
            match found {
                Some(found) => Ok(TypeSpec::Alias {
                    name: wit_type_full_name(doc, id),
                    target: Box::new(target),
                    annotation: directive_language_string(found),
                }),
                None => {
                    let function = match directive(directives, "function", path, type_context) {
                        Ok(value) => value,
                        Err(error) => return Err(error),
                    };
                    match function {
                        None => Ok(target),
                        Some(function) => {
                            let annotation = match function_alias_type_name(
                                doc,
                                type_def.owner,
                                function,
                                path,
                                type_context,
                                budget,
                            ) {
                                Ok(value) => value,
                                Err(error) => return Err(error),
                            };
                            match annotation {
                                Some(annotation) => Ok(TypeSpec::Alias {
                                    name: wit_type_full_name(doc, id),
                                    target: Box::new(target),
                                    annotation,
                                }),
                                None => Ok(target),
                            }
                        },
                    }
                },
            }
        },
        WitTypeKind::Record(_) => Ok(TypeSpec::Record(wit_type_full_name(doc, id))),
        WitTypeKind::Enumeration(_) => Ok(TypeSpec::Enumeration(wit_type_full_name(doc, id))),
        WitTypeKind::Flags(_) => Ok(TypeSpec::Flags(wit_type_full_name(doc, id))),
        WitTypeKind::Variant(_) => Ok(TypeSpec::Variant(wit_type_full_name(doc, id))),
        WitTypeKind::Own(resource) => Ok(TypeSpec::Resource(handled_resource(doc, *resource))),
        WitTypeKind::Borrow(resource) => Ok(TypeSpec::Resource(handled_resource(doc, *resource))),
        WitTypeKind::Resource => Ok(TypeSpec::Resource(AuthoredResourceType {
            name: type_label(type_def),
            wire_type: None,
            alias: None,
        })),
        WitTypeKind::Other(kind) => Err(wit_error(
            path,
            type_context.to_owned().concat(" uses unsupported WIT type `").concat(kind.as_str())
                .concat("` for generated model fields").as_str(),
        )),
    }
}

/// The resource that a handle is of.
pub open spec fn handled_resource_type(
    doc: WitDocument,
    resource: usize,
) -> crate::wit::types::ResourceTypeView {
    crate::wit::types::ResourceTypeView {
        name: match doc.types@[resource as int].name {
            Some(name) => name@,
            None => "unnamed-resource"@,
        },
        wire_type: None,
        alias: None,
    }
}

/// The resource that a handle is of.
pub fn handled_resource(doc: &WitDocument, resource: usize) -> (result: AuthoredResourceType)
    requires
        resource < doc.types@.len(),
    ensures
        result@ == handled_resource_type(*doc, resource),
{
    AuthoredResourceType {
        name: match &doc.types[resource].name {
            Some(name) => name.clone(),
            None => "unnamed-resource".to_owned(),
        },
        wire_type: None,
        alias: None,
    }
}

/// The authored type that an optional WIT type stands for.
pub open spec fn opt_type_outcome(
    doc: WitDocument,
    ty: Option<WitType>,
    limit: usize,
    path: Seq<char>,
    context: Seq<char>,
    budget: usize,
) -> Result<Option<Box<crate::wit::types::TypeView>>, ErrorView>
    decreases budget, limit, 1nat,
    when doc.wf()
        && limit < doc.types@.len()
        && crate::wit::document::opt_type_below(ty, limit as int)
{
    match ty {
        None => Ok(None),
        Some(ty) => {
            let resolved_outcome = type_outcome(doc, ty, path, context, budget);
            let resolved = resolved_outcome->Ok_0;
            if resolved_outcome is Err {
                Err(resolved_outcome->Err_0)
            } else {
                Ok(Some(Box::new(resolved)))
            }
        },
    }
}

/// The authored type that an optional WIT type stands for.
pub fn resolve_opt_type(
    doc: &WitDocument,
    ty: Option<WitType>,
    limit: usize,
    path: &str,
    context: &str,
    budget: usize,
) -> (result: Result<Option<Box<TypeSpec>>, Error>)
    requires
        doc.wf(),
        limit < doc.types@.len(),
        crate::wit::document::opt_type_below(ty, limit as int),
    ensures
        opt_type_result(result) == opt_type_outcome(*doc, ty, limit, path@, context@, budget),
    decreases budget, limit, 1nat,
{
    match ty {
        None => Ok(None),
        Some(ty) => {
            let resolved = match resolve_authored_field_type_spec(doc, ty, path, context, budget) {
                Ok(value) => value,
                Err(error) => return Err(error),
            };
            Ok(Some(Box::new(resolved)))
        },
    }
}

/// The authored types that the first of some WIT types stand for.
pub open spec fn types_outcome(
    doc: WitDocument,
    items: Seq<WitType>,
    count: usize,
    limit: usize,
    path: Seq<char>,
    context: Seq<char>,
    budget: usize,
) -> Result<Seq<crate::wit::types::TypeView>, ErrorView>
    decreases budget, limit, count as nat,
    when doc.wf()
        && limit < doc.types@.len()
        && count <= items.len()
        && types_below(items, limit as int)
{
    if count == 0 {
        Ok(Seq::empty())
    } else {
        let before_outcome = types_outcome(
            doc,
            items,
            (count - 1) as usize,
            limit,
            path,
            context,
            budget,
        );
        let before = before_outcome->Ok_0;
        let item_outcome = type_outcome(doc, items[count - 1], path, context, budget);
        let item = item_outcome->Ok_0;
        if before_outcome is Err {
            Err(before_outcome->Err_0)
        } else if item_outcome is Err {
            Err(item_outcome->Err_0)
        } else {
            Ok(before.push(item))
        }
    }
}

/// The authored types that the first of some WIT types stand for.
pub fn resolve_types(
    doc: &WitDocument,
    items: &Vec<WitType>,
    count: usize,
    limit: usize,
    path: &str,
    context: &str,
    budget: usize,
) -> (result: Result<Vec<TypeSpec>, Error>)
    requires
        doc.wf(),
        limit < doc.types@.len(),
        count <= items@.len(),
        types_below(items@, limit as int),
    ensures
        types_result(result) == types_outcome(*doc, items@, count, limit, path@, context@, budget),
    decreases budget, limit, count as nat,
{
    if count == 0 {
        Ok(Vec::new())
    } else {
        let before = match resolve_types(doc, items, count - 1, limit, path, context, budget) {
            Ok(value) => value,
            Err(error) => return Err(error),
        };
        let item = match resolve_authored_field_type_spec(
            doc,
            items[count - 1],
            path,
            context,
            budget,
        ) {
            Ok(value) => value,
            Err(error) => return Err(error),
        };
        Ok(with_type(before, item))
    }
}

/// Types with one more.
fn with_type(items: Vec<TypeSpec>, item: TypeSpec) -> (all: Vec<TypeSpec>)
    ensures
        crate::wit::types::type_spec_views(all@) == crate::wit::types::type_spec_views(items@).push(
            item@,
        ),
{
    let mut all = items;
    all.push(item);
    assert(all@.drop_last() =~= items@);
    all
}

/// The annotations of an alias of a function, where its result has any.
pub open spec fn alias_annotation_outcome(
    doc: WitDocument,
    owner: WitOwner,
    found: crate::wit::directive::DirectiveView,
    path: Seq<char>,
    context: Seq<char>,
    budget: usize,
) -> Result<Option<crate::plan::LanguageStringView>, ErrorView>
    decreases budget, 0nat, 0nat,
    when doc.wf() && doc.owner_ok(owner)
{
    match crate::wit::directive::value_of(found, "signature"@) {
        Some(name) => {
            if budget == 0 {
                Err(
                    crate::wit::directive::directive_failure(
                        path,
                        context,
                        "@nexus.function"@,
                        ("signature `"@ + name + "` refers to itself"@),
                    ),
                )
            } else {
                let signature_outcome = signature_outcome(
                    doc,
                    owner,
                    name,
                    path,
                    context,
                    (budget - 1) as usize,
                );
                let signature = signature_outcome->Ok_0;
                if signature_outcome is Err {
                    Err(signature_outcome->Err_0)
                } else {
                    Ok(callable_strings_for(signature.result, found))
                }
            }
        },
        None => match written_result_type(found) {
            Some(result) => Ok(callable_strings_for(result, found)),
            None => Ok(None),
        },
    }
}

/// The annotations of an alias of a function, where its result has any.
pub fn function_alias_type_name(
    doc: &WitDocument,
    owner: WitOwner,
    found: &Directive,
    path: &str,
    context: &str,
    budget: usize,
) -> (result: Result<Option<LanguageStringSpec>, Error>)
    requires
        doc.wf(),
        doc.owner_ok(owner),
    ensures
        crate::error::opt_outcome(result) == alias_annotation_outcome(
            *doc,
            owner,
            found@,
            path@,
            context@,
            budget,
        ),
    decreases budget, 0nat, 0nat,
{
    match found.value("signature") {
        Some(name) => {
            if budget == 0 {
                Err(
                    directive_error(
                        path,
                        context,
                        "@nexus.function",
                        "signature `".to_owned().concat(name.as_str())
                            .concat("` refers to itself").as_str(),
                    ),
                )
            } else {
                let signature = match resolve_function_signature(
                    doc,
                    owner,
                    name.as_str(),
                    path,
                    context,
                    budget - 1,
                ) {
                    Ok(value) => value,
                    Err(error) => return Err(error),
                };
                Ok(callable_annotation_for(&signature.result, found))
            }
        },
        None => match written_result(found) {
            Some(result) => Ok(callable_annotation_for(&result, found)),
            None => Ok(None),
        },
    }
}

/// The function that a signature is called by, of the interface that owns a type.
pub open spec fn signature_place(
    doc: WitDocument,
    owner: WitOwner,
    name: Seq<char>,
    path: Seq<char>,
    context: Seq<char>,
) -> Result<(usize, usize), ErrorView> {
    match owner {
        WitOwner::Interface(interface) => {
            let index: usize = function_index(
                doc.interfaces@[interface as int].functions@,
                name,
            ) as usize;
            if index < doc.interfaces@[interface as int].functions@.len() {
                Ok((interface, index))
            } else {
                Err(
                    crate::wit::directive::directive_failure(
                        path,
                        context,
                        "@nexus.function"@,
                        ("unknown signature `"@ + name + "`"@),
                    ),
                )
            }
        },
        _ => Err(crate::wit::directive::directive_failure(
                path,
                context,
                "@nexus.function"@,
                "signature is only supported on interface-owned types"@,
        )),
    }
}

/// The function that a signature is called by, of the interface that owns a type.
pub fn find_signature(
    doc: &WitDocument,
    owner: WitOwner,
    name: &str,
    path: &str,
    context: &str,
) -> (result: Result<(usize, usize), Error>)
    requires
        doc.wf(),
        doc.owner_ok(owner),
    ensures
        crate::error::outcome(result) == signature_place(*doc, owner, name@, path@, context@),
{
    match owner {
        WitOwner::Interface(interface) => {
            let index: usize = find_function(&doc.interfaces[interface].functions, name);
            if index < doc.interfaces[interface].functions.len() {
                Ok((interface, index))
            } else {
                Err(
                    directive_error(
                        path,
                        context,
                        "@nexus.function",
                        "unknown signature `".to_owned().concat(name).concat("`").as_str(),
                    ),
                )
            }
        },
        _ => Err(directive_error(
            path,
            context,
            "@nexus.function",
            "signature is only supported on interface-owned types",
        )),
    }
}

/// What a signature that a type names says.
pub open spec fn signature_outcome(
    doc: WitDocument,
    owner: WitOwner,
    name: Seq<char>,
    path: Seq<char>,
    context: Seq<char>,
    budget: usize,
) -> Result<SignatureView, ErrorView>
    decreases budget, doc.types@.len() + 2, 0nat,
    when doc.wf() && doc.owner_ok(owner)
{
    match signature_place(doc, owner, name, path, context) {
        Err(error) => Err(error),
        Ok(place) => {
            let function = doc.interfaces@[place.0 as int].functions@[place.1 as int];

            proof { lemma_signature_function(doc, owner, name, path, context); }
            let args_outcome = signature_args_outcome(doc, function, path, context, name, budget);
            let args = args_outcome->Ok_0;
            if args_outcome is Err {
                Err(args_outcome->Err_0)
            } else {
                match function.result {
                    None => Err(
                        crate::wit::directive::directive_failure(
                            path,
                            context,
                            "@nexus.function"@,
                            ("signature `"@ + name + "` must declare a result type"@),
                        ),
                    ),
                    Some(result_type) => {
                        let function_context = context + " signature `"@ + name + "`"@;
                        let result_outcome = type_outcome(
                            doc,
                            result_type,
                            path,
                            function_context,
                            budget,
                        );
                        let result = result_outcome->Ok_0;
                        if result_outcome is Err {
                            Err(result_outcome->Err_0)
                        } else {
                            Ok(SignatureView { args, result })
                        }
                    },
                }
            }
        },
    }
}

/// What a signature that a type names says.
pub fn resolve_function_signature(
    doc: &WitDocument,
    owner: WitOwner,
    name: &str,
    path: &str,
    context: &str,
    budget: usize,
) -> (result: Result<ResolvedFunctionSignature, Error>)
    requires
        doc.wf(),
        doc.owner_ok(owner),
    ensures
        crate::error::outcome(result) == signature_outcome(
            *doc,
            owner,
            name@,
            path@,
            context@,
            budget,
        ),
    decreases budget, doc.types@.len() + 2, 0nat,
{
    let place = match find_signature(doc, owner, name, path, context) {
        Ok(value) => value,
        Err(error) => return Err(error),
    };
    let function = &doc.interfaces[place.0].functions[place.1];
    proof { lemma_signature_function(*doc, owner, name@, path@, context@); }

    let args = match resolve_function_signature_args_for_function(
        doc,
        function,
        path,
        context,
        name,
        budget,
    ) {
        Ok(value) => value,
        Err(error) => return Err(error),
    };
    match function.result {
        None => Err(
            directive_error(
                path,
                context,
                "@nexus.function",
                "signature `".to_owned().concat(name)
                    .concat("` must declare a result type").as_str(),
            ),
        ),
        Some(result_type) => {
            let function_context = context.to_owned().concat(" signature `").concat(name)
                .concat("`");
            let result = match resolve_authored_field_type_spec(
                doc,
                result_type,
                path,
                function_context.as_str(),
                budget,
            ) {
                Ok(value) => value,
                Err(error) => return Err(error),
            };
            Ok(ResolvedFunctionSignature { args, result })
        },
    }
}

pub proof fn lemma_signature_function(
    doc: WitDocument,
    owner: WitOwner,
    name: Seq<char>,
    path: Seq<char>,
    context: Seq<char>,
)
    requires
        doc.wf(),
        doc.owner_ok(owner),
    ensures
        signature_place(doc, owner, name, path, context) matches Ok((interface, index))
            ==> interface < doc.interfaces@.len() && index
            < doc.interfaces@[interface as int].functions@.len() && doc.function_ok(
            doc.interfaces@[interface as int].functions@[index as int],
        ),
{
    match owner {
        WitOwner::Interface(interface) => {
            assert(doc.interface_ok(doc.interfaces@[interface as int]));
            lemma_function_index(doc.interfaces@[interface as int].functions@, name);
        },
        _ => {},
    }
}

/// What a function says of its arguments as a signature.
pub open spec fn signature_args_outcome(
    doc: WitDocument,
    function: WitFunction,
    path: Seq<char>,
    context: Seq<char>,
    name: Seq<char>,
    budget: usize,
) -> Result<SignatureArgsView, ErrorView>
    decreases budget, doc.types@.len() + 1, above_all(),
    when doc.wf() && doc.function_ok(function)
{
    let args_outcome = params_outcome(
        doc,
        function.params@,
        function.params.len(),
        path,
        context,
        name,
        budget,
    );
    let args = args_outcome->Ok_0;
    let varargs_outcome = varargs_outcome(function, path, context, name);
    let varargs = varargs_outcome->Ok_0;

    if !(function.kind is Freestanding) {
        Err(
            crate::wit::directive::directive_failure(
                path,
                context,
                "@nexus.function"@,
                ("signature `"@ + name + "` must be a freestanding interface function"@),
            ),
        )
    } else if function.params@.len() == 0 {
        Err(
            crate::wit::directive::directive_failure(
                path,
                context,
                "@nexus.function"@,
                ("signature `"@ + name + "` must have at least one parameter"@),
            ),
        )
    } else if args_outcome is Err {
        Err(args_outcome->Err_0)
    } else if varargs_outcome is Err {
        Err(varargs_outcome->Err_0)
    } else {
        Ok(signature_args(args, varargs))
    }
}

/// What a function says of its arguments as a signature.
pub fn resolve_function_signature_args_for_function(
    doc: &WitDocument,
    function: &WitFunction,
    path: &str,
    context: &str,
    name: &str,
    budget: usize,
) -> (result: Result<ResolvedFunctionSignatureArgs, Error>)
    requires
        doc.wf(),
        doc.function_ok(*function),
    ensures
        crate::error::outcome(result) == signature_args_outcome(
            *doc,
            *function,
            path@,
            context@,
            name@,
            budget,
        ),
    decreases budget, doc.types@.len() + 1, above_all(),
{
    if !matches!(function.kind, WitFunctionKind::Freestanding) {
        return Err(
            directive_error(
                path,
                context,
                "@nexus.function",
                "signature `".to_owned().concat(name)
                    .concat("` must be a freestanding interface function").as_str(),
            ),
        );
    }
    if function.params.len() == 0 {
        return Err(
            directive_error(
                path,
                context,
                "@nexus.function",
                "signature `".to_owned().concat(name)
                    .concat("` must have at least one parameter").as_str(),
            ),
        );
    }
    let args = match resolve_params(
        doc,
        &function.params,
        function.params.len(),
        path,
        context,
        name,
        budget,
    ) {
        Ok(value) => value,
        Err(error) => return Err(error),
    };
    let varargs = match function_varargs(function, path, context, name) {
        Ok(value) => value,
        Err(error) => return Err(error),
    };
    proof { lemma_varargs_among_args(*doc, *function, path@, context@, name@, budget); }
    Ok(signature_args_of(args, varargs))
}

/// The arguments that the first parameters of a signature are.
pub open spec fn params_outcome(
    doc: WitDocument,
    params: Seq<WitParam>,
    count: usize,
    path: Seq<char>,
    context: Seq<char>,
    name: Seq<char>,
    budget: usize,
) -> Result<Seq<FunctionArgView>, ErrorView>
    decreases budget, doc.types@.len() + 1, count as nat,
    when doc.wf() && count <= params.len() && params_below(params, doc.types@.len() as int)
{
    if count == 0 {
        Ok(Seq::empty())
    } else {
        let before_outcome = params_outcome(
            doc,
            params,
            (count - 1) as usize,
            path,
            context,
            name,
            budget,
        );
        let before = before_outcome->Ok_0;
        let param = params[count - 1];
        let param_context = context + " signature `"@ + name + "` parameter `"@ + param.name@ + "`"@;
        let field_type_outcome = type_outcome(doc, param.ty, path, param_context, budget);
        let field_type = field_type_outcome->Ok_0;
        let arg = FunctionArgView { name: param.name@, field_type };
        if before_outcome is Err {
            Err(before_outcome->Err_0)
        } else if field_type_outcome is Err {
            Err(field_type_outcome->Err_0)
        } else {
            Ok(before.push(arg))
        }
    }
}

/// The arguments that the first parameters of a signature are.
pub fn resolve_params(
    doc: &WitDocument,
    params: &Vec<WitParam>,
    count: usize,
    path: &str,
    context: &str,
    name: &str,
    budget: usize,
) -> (result: Result<Vec<FunctionArgSpec>, Error>)
    requires
        doc.wf(),
        count <= params@.len(),
        params_below(params@, doc.types@.len() as int),
    ensures
        args_result(result) == params_outcome(*doc, params@, count, path@, context@, name@, budget),
    decreases budget, doc.types@.len() + 1, count as nat,
{
    if count == 0 {
        Ok(no_args())
    } else {
        let before = match resolve_params(doc, params, count - 1, path, context, name, budget) {
            Ok(value) => value,
            Err(error) => return Err(error),
        };
        let param = &params[count - 1];
        let param_context = context.to_owned().concat(" signature `").concat(name)
            .concat("` parameter `").concat(param.name.as_str()).concat("`");
        let field_type = match resolve_authored_field_type_spec(
            doc,
            param.ty,
            path,
            param_context.as_str(),
            budget,
        ) {
            Ok(value) => value,
            Err(error) => return Err(error),
        };
        let arg = FunctionArgSpec { name: param.name.clone(), field_type };
        Ok(with_arg(before, arg))
    }
}

/// No arguments.
fn no_args() -> (args: Vec<FunctionArgSpec>)
    ensures
        function_arg_spec_views(args@) == Seq::<FunctionArgView>::empty(),
{
    let args: Vec<FunctionArgSpec> = Vec::new();
    assert(function_arg_spec_views(args@) =~= Seq::<FunctionArgView>::empty());
    args
}

/// Arguments with one more.
fn with_arg(args: Vec<FunctionArgSpec>, arg: FunctionArgSpec) -> (all: Vec<FunctionArgSpec>)
    ensures
        function_arg_spec_views(all@) == function_arg_spec_views(args@).push(arg@),
{
    let mut all = args;
    all.push(arg);
    assert(function_arg_spec_views(all@) =~= function_arg_spec_views(args@).push(arg@));
    all
}

/// Each argument of a signature has the name of its parameter.
pub proof fn lemma_params_named(
    doc: WitDocument,
    params: Seq<WitParam>,
    count: usize,
    path: Seq<char>,
    context: Seq<char>,
    name: Seq<char>,
    budget: usize,
)
    requires
        doc.wf(),
        count <= params.len(),
        params_below(params, doc.types@.len() as int),
    ensures
        params_outcome(doc, params, count, path, context, name, budget) matches Ok(args)
            ==> args.len() == count && forall|i: int|
            0 <= i < count ==> (#[trigger] args[i]).name == params[i].name@,
    decreases count,
{
    if count > 0 {
        lemma_params_named(doc, params, (count - 1) as usize, path, context, name, budget);
    }
}

proof fn lemma_arg_index_below(args: Seq<FunctionArgView>, name: Seq<char>, k: int)
    requires
        0 <= k < args.len(),
        args[k].name == name,
    ensures
        0 <= arg_index(args, name) <= k,
    decreases args.len(),
{
    if args[0].name != name {
        assert(args.drop_first()[k - 1] == args[k]);
        lemma_arg_index_below(args.drop_first(), name, k - 1);
    }
}

/// The parameter that takes as many arguments as are given is one of the arguments.
pub proof fn lemma_varargs_among_args(
    doc: WitDocument,
    function: WitFunction,
    path: Seq<char>,
    context: Seq<char>,
    name: Seq<char>,
    budget: usize,
)
    requires
        doc.wf(),
        doc.function_ok(function),
    ensures
        params_outcome(
            doc,
            function.params@,
            function.params.len(),
            path,
            context,
            name,
            budget,
        ) matches Ok(args) ==> varargs_outcome(function, path, context, name) matches Ok(
            Some(varargs),
        ) ==> 0 <= arg_index(args, varargs.param) < args.len(),
{
    let count = function.params.len();
    lemma_params_named(doc, function.params@, count, path, context, name, budget);
    match params_outcome(doc, function.params@, count, path, context, name, budget) {
        Ok(args) => match varargs_outcome(function, path, context, name) {
            Ok(Some(varargs)) => {
                assert(has_param(function.params@, varargs.param));
                let k = choose|k: int|
                    0 <= k < function.params@.len() && (#[trigger] function.params@[k]).name@
                        == varargs.param;
                assert(args[k].name == function.params@[k].name@);
                lemma_arg_index_below(args, varargs.param, k);
            },
            _ => {},
        },
        Err(_) => {},
    }
}

} // verus!
