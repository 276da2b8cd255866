//! What functions of a WIT package are given by their directives, and how the files of packages are
//! gathered.

use vstd::prelude::*;

use crate::error::ErrorView;
use crate::language::Language;
use crate::wit::document::{WitDocument, WitOwner};
use crate::wit::gather::{CopyRule, LinkedInput, Listing};
use crate::wit::workspace::EntryAction;

verus! {

/// A descriptor has both of its types, or there is none.
pub proof fn law_descriptors_have_both_types(
    found: crate::wit::directive::DirectiveView,
    path: Seq<char>,
    context: Seq<char>,
)
    ensures
        ({
            let value = crate::wit::strings::directive_key_strings(found, "value-type"@);
            let args = crate::wit::strings::directive_key_strings(found, "args-type"@);
            let outcome = crate::wit::function::type_descriptor_outcome(found, path, context);
            &&& crate::plan::strings_empty(value) && crate::plan::strings_empty(args) ==> outcome == Ok::<
                Option<crate::wit::function::TypeDescriptorView>,
                ErrorView,
            >(None)
            &&& !crate::plan::strings_empty(value) && !crate::plan::strings_empty(args) ==> (outcome matches Ok(Some(
                made,
            )) && made.value_type == value && made.args_type == args)
            &&& crate::plan::strings_empty(value) != crate::plan::strings_empty(args) ==> outcome is Err
        }),
{
}

/// An alternate type is the primitive or the type of the interface that is named.
pub proof fn law_alternate_types_are_named(
    doc: WitDocument,
    owner: WitOwner,
    found: crate::wit::directive::DirectiveView,
    path: Seq<char>,
    context: Seq<char>,
    named: Seq<char>,
)
    ensures
        crate::wit::directive::value_of(found, "alternate-type"@) is None
            ==> crate::wit::function::alternate_type_outcome(doc, owner, found, path, context) == Ok::<
            Option<crate::wit::types::TypeView>,
            ErrorView,
        >(None),
        crate::wit::directive::value_of(found, "alternate-type"@) == Some(named) ==> (
        crate::wit::types::primitive_type(named) matches Some(primitive)
            ==> crate::wit::function::alternate_type_outcome(doc, owner, found, path, context) == Ok::<
            Option<crate::wit::types::TypeView>,
            ErrorView,
        >(Some(primitive))),
        crate::wit::directive::value_of(found, "alternate-type"@) == Some(named) && crate::wit::types::primitive_type(
            named,
        ) is None && !(owner is Interface) ==> crate::wit::function::alternate_type_outcome(
            doc,
            owner,
            found,
            path,
            context,
        ) is Err,
{
}

/// A field is a function where its directive gives a result; its arguments are then a list in the
/// field that it names.
pub proof fn law_functions_name_the_field_of_their_arguments(
    doc: WitDocument,
    owner: WitOwner,
    directives: Seq<crate::wit::directive::DirectiveView>,
    path: Seq<char>,
    context: Seq<char>,
    language: Language,
)
    ensures
        ({
            let found = crate::wit::entries::only(directives, "function"@);
            let result = crate::wit::strings::directive_key_strings(found, "result"@);
            let outcome = crate::wit::function::function_field_outcome(
                doc,
                owner,
                directives,
                path,
                context,
                language,
            );
            &&& crate::wit::entries::written(directives, "function"@) == 0 ==> outcome == Ok::<
                Option<crate::wit::function::FunctionFieldView>,
                ErrorView,
            >(None)
            &&& crate::wit::entries::written(directives, "function"@) == 1 && crate::plan::strings_empty(result)
                ==> outcome == Ok::<Option<crate::wit::function::FunctionFieldView>, ErrorView>(None)
            &&& crate::wit::entries::written(directives, "function"@) == 1 && !crate::plan::strings_empty(result)
                && crate::wit::directive::value_of(found, "args-field"@) is None ==> outcome is Err
            &&& outcome matches Ok(Some(made)) ==> {
                &&& crate::wit::directive::value_of(found, "args-field"@) matches Some(field)
                    && made.args_field == crate::naming::snake(field) && made.arg_fields == seq![
                    crate::naming::snake(field),
                ]
                &&& made.args is Varargs
                &&& crate::wit::strings::directive_flag_outcome(
                    found,
                    "primary"@,
                    path,
                    context,
                    "@nexus.function"@,
                ) == Ok::<bool, ErrorView>(made.primary)
                &&& made.converter == crate::plan::view_text_for(
                    crate::wit::strings::directive_key_strings(found, "converter"@),
                    language,
                )
                &&& made.result_type_parameter == crate::wit::directive::value_of(
                    found,
                    "result-type-parameter"@,
                )
                &&& made.name_extractor matches Some(name) ==> crate::wit::strings::is_helper_path(name)
                    && crate::plan::view_text_for(
                    crate::wit::strings::directive_key_strings(found, "name-extractor"@),
                    language,
                ) == Some(name)
                &&& made.call_extractor matches Some(call) ==> crate::wit::strings::is_helper_path(call)
                    && crate::plan::view_text_for(
                    crate::wit::strings::directive_key_strings(found, "call-extractor"@),
                    language,
                ) == Some(call)
            }
        }),
{
}

/// A type is a function by the signature that it names, without a result or arguments of its own;
/// its arguments are in the field that it names, or in one named after them.
pub proof fn law_function_types_have_a_signature(
    doc: WitDocument,
    owner: WitOwner,
    directives: Seq<crate::wit::directive::DirectiveView>,
    path: Seq<char>,
    context: Seq<char>,
    language: Language,
)
    ensures
        ({
            let found = crate::wit::entries::only(directives, "function"@);
            let outcome = crate::wit::function::alias_function_outcome(
                doc,
                owner,
                directives,
                path,
                context,
                language,
            );
            &&& crate::wit::entries::written(directives, "function"@) == 0 ==> outcome == Ok::<
                Option<crate::wit::function::AliasFunctionView>,
                ErrorView,
            >(None)
            &&& outcome matches Ok(Some(made)) ==> (crate::wit::directive::value_of(found, "signature"@)
                matches Some(name) && (crate::wit::function::resolved_signature(
                doc,
                owner,
                name,
                path,
                context,
            ) matches Ok(signature) && {
                &&& crate::wit::directive::value_of(found, "args-name"@) is None
                &&& crate::plan::strings_empty(crate::wit::strings::directive_key_strings(found, "result"@))
                &&& made.args_name == signature.args.name
                &&& made.args_type == crate::wit::types::type_for_language(
                    signature.args.field_type,
                    language,
                )
                &&& made.function.result == crate::wit::function::FunctionResultView::Authored(
                    crate::wit::types::type_for_language(signature.result, language),
                )
                &&& crate::wit::directive::value_of(found, "args-field"@) matches Some(field)
                    ==> made.function.args_field == crate::naming::snake(field)
                &&& crate::wit::directive::value_of(found, "args-field"@) is None
                    ==> made.function.args_field == crate::naming::snake(signature.args.name)
            }))
        }),
{
}

/// An argument is documented as one of its function, and the only one that is a list as all of
/// them.
pub proof fn law_arguments_are_documented_by_their_function(
    function: Seq<char>,
    arg: crate::wit::function::FlattenedArgView,
    count: usize,
)
    ensures
        ({
            let made = crate::wit::function::function_arg_doc(function, arg, count);
            let name = crate::wit::function::human_name(function);
            let own = crate::wit::function::human_name(arg.args_name);
            &&& count == 1 && crate::wit::types::is_list_type(arg.field_type) ==> made.default == Some(
                "Arguments for the "@ + name + "."@,
            )
            &&& count != 1 ==> made.default == Some(
                "The "@ + own + " argument for the "@ + name + "."@,
            )
            &&& made.by_language.len() == 0
            &&& name == crate::text::replaced_char(crate::text::replaced_char(function, '-', " "@), '_', " "@)
        }),
{
}

/// An import belongs to the text beside it: one for every language, and one for each.
pub proof fn law_imports_belong_to_their_text(
    default: Option<Seq<char>>,
    entries: Seq<crate::plan::LanguageTextView>,
    found: crate::wit::directive::DirectiveView,
)
    ensures
        ({
            let made = crate::wit::strings::language_strings_of(default, entries, found);
            &&& made.default == default
            &&& made.by_language == entries
            &&& made.default_import == crate::wit::directive::value_of(found, "import"@)
            &&& made.imports == crate::wit::strings::language_entries(found, "-import"@)
        }),
        crate::wit::strings::directive_returns_strings(found) == crate::wit::strings::directive_key_strings(
            found,
            "returns"@,
        ),
        crate::wit::strings::directive_result_strings(found) == crate::wit::strings::directive_key_strings(
            found,
            "result"@,
        ),
{
}

/// A type parameter stands on an alias alone: anywhere else it is refused.
pub proof fn law_type_parameters_stand_on_aliases(
    directives: Seq<crate::wit::directive::DirectiveView>,
    path: Seq<char>,
    context: Seq<char>,
)
    ensures
        crate::wit::strings::misplaced_type_parameter_outcome(directives, path, context) is Ok
            <==> crate::wit::entries::written(directives, "type-parameter"@) == 0,
{
}

/// The support of a package is the file that its directive names for the language, with the
/// namespace that another gives it.
pub proof fn law_support_is_named_for_the_language(
    docs: Option<Seq<char>>,
    language: Language,
    origin: Seq<char>,
    context: Seq<char>,
)
    ensures
        ({
            let directives = crate::wit::directive::directives_outcome(docs, origin, context)->Ok_0;
            crate::wit::support::support_in_docs(docs, language, origin, context) matches Ok(Some(made)) ==> {
                &&& crate::wit::strings::directive_text_for_language(
                    directives,
                    "support"@,
                    origin,
                    context,
                    language,
                ) == Ok::<Option<Seq<char>>, ErrorView>(Some(made.0))
                &&& crate::wit::strings::directive_text_for_language(
                    directives,
                    "support-namespace"@,
                    origin,
                    context,
                    language,
                ) == Ok::<Option<Seq<char>>, ErrorView>(made.1)
            }
        }),
        docs is None ==> crate::wit::support::support_in_docs(docs, language, origin, context) == Ok::<
            Option<(Seq<char>, Option<Seq<char>>)>,
            ErrorView,
        >(None),
{
}

/// The support of the package itself comes behind that of the others.
pub proof fn law_own_support_comes_last(
    plan: crate::wit::support::SupportPlanView,
    origins: Seq<crate::wit::support::PackageOriginView>,
    origin: crate::wit::support::PackageOriginView,
    doc: WitDocument,
    language: Language,
    current: usize,
)
    ensures
        crate::wit::support::planned_language(plan, origins, doc, language, current)
            == crate::wit::support::planned_own(
            crate::wit::support::planned_others(plan, origins, doc, language, current),
            origins,
            doc,
            language,
            current,
        ),
        origin.package == current ==> crate::wit::support::planned_others(
            plan,
            origins.push(origin),
            doc,
            language,
            current,
        ) == crate::wit::support::planned_others(plan, origins, doc, language, current),
        origin.package != current ==> crate::wit::support::planned_others(
            plan,
            origins.push(origin),
            doc,
            language,
            current,
        ) == crate::wit::support::planned_package(
            crate::wit::support::planned_others(plan, origins, doc, language, current),
            doc,
            language,
            origin.package,
            origin.path,
        ),
        origin.package != current ==> crate::wit::support::planned_own(
            plan,
            origins.push(origin),
            doc,
            language,
            current,
        ) == crate::wit::support::planned_own(plan, origins, doc, language, current),
        origin.package == current ==> crate::wit::support::planned_own(
            plan,
            origins.push(origin),
            doc,
            language,
            current,
        ) == crate::wit::support::planned_package(
            crate::wit::support::planned_own(plan, origins, doc, language, current),
            doc,
            language,
            origin.package,
            origin.path,
        ),
{
    assert(origins.push(origin).drop_last() =~= origins);
}

/// A package comes from the file that no other of its files comes before.
pub proof fn law_packages_come_from_their_first_file(paths: Seq<Seq<char>>, i: int)
    requires
        0 <= i < paths.len(),
    ensures
        0 <= crate::wit::support::least_path(paths) < paths.len(),
        !crate::paths::path_before(
            crate::paths::path_parts(paths[i]),
            crate::paths::path_parts(paths[crate::wit::support::least_path(paths)]),
        ),
    decreases paths.len(),
{
    let parts = |k: int| crate::paths::path_parts(paths[k]);
    let last: int = paths.len() - 1;
    if paths.len() == 1 {
        crate::paths::lemma_path_before_total(parts(0), parts(0));
    } else {
        let shorter = paths.drop_last();
        let before: int = crate::wit::support::least_path(shorter);
        law_packages_come_from_their_first_file(shorter, 0);
        crate::paths::lemma_path_before_total(parts(last), parts(last));
        if i < last {
            law_packages_come_from_their_first_file(shorter, i);
            if crate::paths::path_before(parts(last), parts(before)) && crate::paths::path_before(
                parts(i),
                parts(last),
            ) {
                crate::paths::lemma_path_before_transitive(parts(i), parts(last), parts(before));
            }
        }
    }
}

/// An entry is copied to its own name below the destination: a file as it is, a directory with what
/// it holds, and neither where the rule leaves it out.
pub proof fn law_entries_are_copied_to_their_own_name(
    rule: CopyRule,
    listing: Listing,
    count: nat,
    source: Seq<char>,
    destination: Seq<char>,
    input_path: Seq<char>,
)
    requires
        0 < count <= listing.entries@.len(),
    ensures
        ({
            let entry = listing.entries@[count - 1];
            let name = crate::wit::gather::entry_name(entry);
            let from = crate::paths::joined_path(source, name);
            let to = crate::paths::joined_path(destination, name);
            let before = crate::wit::gather::copied_entries(
                rule,
                listing,
                (count - 1) as nat,
                source,
                destination,
                input_path,
            );
            let all = crate::wit::gather::copied_entries(
                rule,
                listing,
                count,
                source,
                destination,
                input_path,
            );
            let action = crate::wit::gather::ruled_entry(rule, from, input_path, entry is Directory);
            &&& action == EntryAction::Skip ==> all == before
            &&& action == EntryAction::Copy ==> all == before.push(
                (crate::wit::gather::GatherStepView::CopyFile { source: from, destination: to }),
            )
            &&& action == EntryAction::Descend ==> all == before + (crate::wit::gather::made_directory(
                rule,
                to,
            ) + crate::wit::gather::copied_directory(rule, entry, from, to, input_path))
        }),
{
    let before = crate::wit::gather::copied_entries(
        rule,
        listing,
        (count - 1) as nat,
        source,
        destination,
        input_path,
    );
    let entry = listing.entries@[count - 1];
    let name = crate::wit::gather::entry_name(entry);
    let from = crate::paths::joined_path(source, name);
    let to = crate::paths::joined_path(destination, name);
    let step = crate::wit::gather::GatherStepView::CopyFile { source: from, destination: to };
    assert(before + Seq::<crate::wit::gather::GatherStepView>::empty() =~= before);
    assert(before + seq![step] =~= before.push(step));
}

/// Everything is copied where nothing is left out; a package and a single file are copied by their
/// own rules.
pub proof fn law_rules_say_what_is_copied(path: Seq<char>, input_path: Seq<char>, is_dir: bool)
    ensures
        crate::wit::gather::ruled_entry(CopyRule::Everything, path, input_path, is_dir) == if is_dir {
            EntryAction::Descend
        } else {
            EntryAction::Copy
        },
        crate::wit::gather::ruled_entry(CopyRule::Package, path, input_path, is_dir)
            == crate::wit::workspace::package_entry(path, input_path, is_dir),
        crate::wit::gather::ruled_entry(CopyRule::Standalone, path, input_path, is_dir)
            == crate::wit::workspace::standalone_entry(path, input_path, is_dir),
{
}

/// A linked file is a package of its own; a linked directory is one where it has WIT files, and else
/// a collection of what it holds.
pub proof fn law_linked_inputs_are_packages_or_collections(root: Seq<char>, input: LinkedInput)
    ensures
        input.listing is None ==> crate::wit::gather::linked_input_outcome(root, input)
            == crate::wit::gather::linked_file_outcome(root, input.path@),
        input.listing matches Some(listing) ==> (crate::wit::gather::is_package_dir(input.path@, listing)
            ==> crate::wit::gather::linked_input_outcome(root, input) == crate::wit::gather::linked_dir_outcome(
            root,
            input.path@,
            listing,
        )),
        input.listing matches Some(listing) ==> (!crate::wit::gather::is_package_dir(input.path@, listing)
            ==> crate::wit::gather::linked_input_outcome(root, input) == crate::wit::gather::collection_outcome(
            root,
            input.path@,
            listing,
            listing.entries@.len(),
        )),
        input.listing matches Some(listing) ==> (crate::wit::gather::is_package_dir(input.path@, listing)
            <==> exists|i: int|
            0 <= i < listing.entries@.len() && crate::wit::workspace::is_wit_path(
                crate::paths::joined_path(
                    input.path@,
                    crate::wit::gather::entry_name(#[trigger] listing.entries@[i]),
                ),
            )),
{
}

/// What surrounds an input is gathered as a package where the input is one, and as what stands
/// beside it where it is a single file.
pub proof fn law_surroundings_are_gathered(
    path: Seq<char>,
    is_dir: bool,
    parent_exists: bool,
    listing: Listing,
    root: Seq<char>,
)
    ensures
        crate::wit::workspace::package_source_dir(path, is_dir, parent_exists) matches Some(dir)
            ==> crate::wit::gather::source_steps(path, is_dir, parent_exists, listing, root)
            == crate::wit::gather::copied_listing(CopyRule::Package, listing, dir, root, path),
        crate::wit::workspace::package_source_dir(path, is_dir, parent_exists) is None ==> (
        crate::wit::workspace::support_source_dir(path, is_dir, parent_exists) matches Some(dir)
            ==> crate::wit::gather::source_steps(path, is_dir, parent_exists, listing, root)
            == crate::wit::gather::copied_listing(CopyRule::Standalone, listing, dir, root, path)),
{
}

/// An input without a name is written as `input.wit`; a file without a parent stands here.
pub proof fn law_nameless_inputs_have_a_name(path: Seq<char>)
    ensures
        crate::wit::workspace::name_of_path(path) is None ==> crate::wit::workspace::target_name(path)
            == "input.wit"@,
        crate::wit::workspace::name_of_path(path) matches Some(name) ==> crate::wit::workspace::target_name(path)
            == name,
        crate::wit::workspace::parent_path(path) is None ==> crate::wit::workspace::parent_or_here_text(path)
            == "."@,
        crate::wit::workspace::parent_path(path) matches Some(parent)
            ==> crate::wit::workspace::parent_or_here_text(path) == parent,
{
}

} // verus!
