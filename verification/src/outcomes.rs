//! What a run of the generator comes to: which files are written where, what is warned of, and what
//! is refused and why.

use vstd::prelude::*;

use crate::error::ErrorView;
use crate::files::{GeneratedFileOrigin, GeneratedFiles, GeneratedOutputLayout};
use crate::generation::{
    ApiSpecNode, PlannedResourceMethod, PlannedResourceSpec, PlannedServiceSpec, PlannedSpec,
};
use crate::language::Language;
use crate::output::{GenerateRequest, LanguageFragments, SupportSpec};
use crate::paths::PartView;

verus! {

/// Languages have their own names.
pub proof fn law_languages_have_their_own_names(language: Language, other: Language)
    ensures
        crate::language::display_name(language) == crate::language::display_name(other) ==> language
            == other,
        crate::language::display_name(language) == (match language {
            Language::Dotnet => ".NET"@,
            Language::Go => "Go"@,
            Language::Java => "Java"@,
            Language::Python => "Python"@,
            Language::Ruby => "Ruby"@,
            Language::TypeScript => "TypeScript"@,
        }),
{
    reveal_strlit(".NET");
    reveal_strlit("Go");
    reveal_strlit("Java");
    reveal_strlit("Python");
    reveal_strlit("Ruby");
    reveal_strlit("TypeScript");
    assert(".NET"@[0] == '.');
    assert("Go"@[0] == 'G');
    assert("Java"@[0] == 'J');
    assert("Python"@[0] == 'P');
    assert("Ruby"@[0] == 'R');
    assert("TypeScript"@[0] == 'T');
}

/// A file is refused where its path leaves the output directory or is taken, and only there.
pub proof fn law_files_are_refused_outside_or_twice(
    entries: crate::files::FileEntries,
    path: Seq<char>,
    origin: GeneratedFileOrigin,
)
    ensures
        crate::files::insert_error(entries, path, origin) is None <==> !(path.len() > 0 && path[0]
            == '/') && !crate::paths::path_parts(path).contains(PartView::Parent) && !(exists|
            i: int,
        |
            0 <= i < entries.len() && crate::paths::path_parts(#[trigger] entries[i].0)
                == crate::paths::path_parts(path)),
        (path.len() > 0 && path[0] == '/') || crate::paths::path_parts(path).contains(
            PartView::Parent,
        ) ==> (crate::files::insert_error(entries, path, origin) matches Some(
            ErrorView::InvalidGeneratedPath { path: refused, .. },
        ) && refused == path),
        crate::files::insert_error(entries, path, origin) matches Some(
            ErrorView::GeneratedFileSourceConflict { path: refused, first_source, second_source, .. },
        ) ==> refused == path && second_source == crate::files::origin_description(origin)
            && exists|i: int|
            0 <= i < entries.len() && crate::paths::path_parts(#[trigger] entries[i].0)
                == crate::paths::path_parts(path) && first_source
                == crate::files::origin_description(entries[i].1.origin),
{
    let parts = crate::paths::path_parts(path);
    if crate::paths::has_path(entries, parts) {
        let i = crate::files::entry_index(entries, parts);
        assert(0 <= i < entries.len() && crate::paths::path_parts(entries[i].0) == parts);
    }
}

/// A conflict is solved by changing either source that can be changed.
pub proof fn law_conflicts_name_what_can_be_changed(
    first: GeneratedFileOrigin,
    second: GeneratedFileOrigin,
)
    ensures
        ({
            let remedy = crate::files::conflict_remedy(first, second);
            &&& crate::files::origin_action(first) matches Some(one) ==> crate::text::has_prefix(remedy, one)
            &&& crate::files::origin_action(second) matches Some(other) ==> crate::text::has_suffix(
                remedy,
                other,
            )
            &&& crate::files::origin_action(first) is Some <==> !(first is FixedArtifact)
        }),
{
    match (crate::files::origin_action(first), crate::files::origin_action(second)) {
        (Some(one), Some(other)) => {
            let remedy = one + "; or "@ + other;
            assert(remedy.take(one.len() as int) =~= one);
            assert(remedy.skip(remedy.len() - other.len()) =~= other);
        },
        (Some(one), None) => {
            assert(one.take(one.len() as int) =~= one);
        },
        (None, Some(other)) => {
            assert(other.skip(0) =~= other);
        },
        (None, None) => {},
    }
}

/// A source is described by the language and by what it is, with its name, and changed by giving it
/// another.
pub proof fn law_sources_are_described_by_what_they_are(origin: GeneratedFileOrigin)
    ensures
        origin matches GeneratedFileOrigin::InputModule { language, source } ==> {
            &&& crate::files::origin_description(origin) == crate::language::display_name(language)
                + " input module `"@ + source@ + "`"@
            &&& crate::files::origin_action(origin) == Some(
                "rename input file or directory `"@ + source@ + "` so it generates a different "@
                    + crate::language::display_name(language) + " path"@,
            )
        },
        origin matches GeneratedFileOrigin::OutputDirectoryNamedModule { language, output_dir_name }
            ==> {
            &&& crate::files::origin_description(origin) == crate::language::display_name(language)
                + " module derived from output directory `"@ + output_dir_name@ + "`"@
            &&& crate::files::origin_action(origin) == Some(
                "point `--output` at a directory whose name generates a different "@
                    + crate::language::display_name(language) + " file path"@,
            )
        },
        origin matches GeneratedFileOrigin::SupportFragment { language, source } ==> {
            &&& crate::files::origin_description(origin) == crate::language::display_name(language)
                + " support file `"@ + source@ + "`"@
            &&& crate::files::origin_action(origin) == Some(
                "rename support file `"@ + source@ + "` so it generates a different "@
                    + crate::language::display_name(language) + " path"@,
            )
        },
        origin matches GeneratedFileOrigin::Operation { language, service, operation } ==> {
            &&& crate::files::origin_description(origin) == crate::language::display_name(language)
                + " operation `"@ + service@ + "."@ + operation@ + "`"@
            &&& crate::files::origin_action(origin) == Some(
                "rename operation `"@ + operation@ + "` in service `"@ + service@
                    + "` so it generates a different "@ + crate::language::display_name(language)
                    + " path"@,
            )
        },
        origin matches GeneratedFileOrigin::Resource { language, service, resource } ==> {
            &&& crate::files::origin_description(origin) == crate::language::display_name(language)
                + " resource `"@ + service@ + "."@ + resource@ + "`"@
            &&& crate::files::origin_action(origin) == Some(
                "rename resource `"@ + resource@ + "` in service `"@ + service@
                    + "` so it generates a different "@ + crate::language::display_name(language)
                    + " path"@,
            )
        },
        origin matches GeneratedFileOrigin::TypeDeclaration { language, source, declaration } ==> {
            &&& crate::files::origin_description(origin) == crate::language::display_name(language)
                + " type declaration `"@ + declaration@ + "` in `"@ + source@ + "`"@
            &&& crate::files::origin_action(origin) == Some(
                "rename type declaration `"@ + declaration@ + "` in `"@ + source@
                    + "` so it generates a different "@ + crate::language::display_name(language)
                    + " path"@,
            )
        },
        origin matches GeneratedFileOrigin::ServiceDeclaration { language, source, service } ==> {
            &&& crate::files::origin_description(origin) == crate::language::display_name(language)
                + " service declaration `"@ + service@ + "` in `"@ + source@ + "`"@
            &&& crate::files::origin_action(origin) == Some(
                "rename service `"@ + service@ + "` in `"@ + source@
                    + "` so it generates a different "@ + crate::language::display_name(language)
                    + " path"@,
            )
        },
        origin matches GeneratedFileOrigin::FixedArtifact { description } ==>
            crate::files::origin_description(origin) == description@,
{
}

/// One file is written to the output path itself; the files of a directory each below it, with their
/// own contents.
pub proof fn law_files_are_written_below_the_output(
    output_path: Seq<char>,
    generated: GeneratedFiles,
    i: int,
)
    ensures
        ({
            let writes = crate::generation::planned_writes(output_path, generated);
            let files = generated.files@;
            &&& generated.layout == GeneratedOutputLayout::SingleFile ==> writes.len() == 1
                && writes[0] == (output_path, files[0].1@) && crate::generation::planned_directory(
                output_path,
                generated,
            ) is None
            &&& generated.layout == GeneratedOutputLayout::Directory ==> writes.len() == files.len()
                && (0 <= i < files.len() ==> writes[i].0 == crate::paths::joined_path(
                output_path,
                files[i].0,
            ) && writes[i].1 == files[i].1@) && crate::generation::planned_directory(
                output_path,
                generated,
            ) == Some(output_path)
        }),
{
}

/// As one text, the files of a directory are sections, each under its path.
pub proof fn law_sections_stand_under_their_path(generated: GeneratedFiles, i: int)
    ensures
        generated.layout == GeneratedOutputLayout::SingleFile ==> crate::generation::source_text(
            generated,
        ) == generated.files@[0].1@,
        generated.layout == GeneratedOutputLayout::Directory ==> crate::generation::source_text(
            generated,
        ) == crate::text::join(crate::generation::section_texts(generated.files@), "\n\n"@),
        0 <= i < generated.files@.len() ==> crate::generation::section_texts(generated.files@)[i]
            == "### "@ + generated.files@[i].0 + "\n"@ + generated.files@[i].1@,
{
}

/// There is a generator for each language but one, which is refused before anything is written.
pub proof fn law_requests_are_refused_by_what_is_wrong(
    request: GenerateRequest,
    current_dir: Seq<char>,
    output_is_file: bool,
    rendered: Result<GeneratedFiles, crate::error::Error>,
)
    ensures
        ({
            let refused = crate::generation::request_error(
                request,
                current_dir,
                output_is_file,
                rendered,
            );
            let options = crate::generation::options_outcome(request, current_dir);
            &&& options matches Err(error) ==> refused == Some(error)
            &&& options is Ok && request.language == Language::Ruby ==> refused == Some(
                ErrorView::UnsupportedLanguage { language: request.language },
            )
            &&& options is Ok && request.language != Language::Ruby ==> (rendered matches Err(error)
                ==> refused == Some(error@))
            &&& options is Ok && request.language != Language::Ruby ==> (rendered matches Ok(files)
                ==> (refused is None <==> !(output_is_file && files.layout
                == GeneratedOutputLayout::Directory)))
            &&& options is Ok && request.language != Language::Ruby ==> (rendered matches Ok(files)
                ==> (output_is_file && files.layout == GeneratedOutputLayout::Directory
                ==> refused == Some(ErrorView::OutputPathExists { path: request.output_path@ })))
        }),
{
}

/// The output directory gives its name to the Go package alone, and the Java package is asked for
/// only where Java is generated.
pub proof fn law_options_belong_to_their_language(request: GenerateRequest, current_dir: Seq<char>)
    ensures
        crate::generation::options_outcome(request, current_dir) matches Ok(options) ==> {
            &&& request.language == Language::Go ==> crate::output::resolved_dir_name(
                request.output_path@,
                current_dir,
            ) == Some(options.go_output_dir_name) && options.java_package_root is None
            &&& request.language == Language::Java ==> (request.java_package_name matches Some(
                package,
            ) && options.java_package_root == Some(package@) && crate::output::resolved_dir_name(
                request.output_path@,
                current_dir,
            ) == Some(crate::text::last_segment(package@, '.')))
            &&& request.language != Language::Go ==> options.go_output_dir_name == ""@
            &&& request.language != Language::Java ==> options.java_package_root is None
        },
        crate::output::resolved_dir_name(request.output_path@, current_dir) is None
            ==> crate::generation::options_outcome(request, current_dir) == Err::<
            crate::generation::OptionsView,
            ErrorView,
        >(ErrorView::OutputPathIsRoot { path: request.output_path@ }),
        request.language != Language::Java && crate::output::resolved_dir_name(
            request.output_path@,
            current_dir,
        ) is Some ==> crate::generation::options_outcome(request, current_dir) is Ok,
{
}

/// A Java package is taken where its last segment is the name of the output directory; else it is
/// refused with both, and a missing one as missing.
pub proof fn law_java_packages_end_in_the_directory(
    package: Seq<char>,
    output_path: Seq<char>,
    current_dir: Seq<char>,
    name: Seq<char>,
)
    requires
        crate::output::resolved_dir_name(output_path, current_dir) == Some(name),
    ensures
        crate::text::last_segment(package, '.') == name ==> crate::output::java_package_outcome(
            Some(package),
            output_path,
            current_dir,
        ) == Ok::<Seq<char>, ErrorView>(package),
        crate::text::last_segment(package, '.') != name ==> crate::output::java_package_outcome(
            Some(package),
            output_path,
            current_dir,
        ) == Err::<Seq<char>, ErrorView>(
            ErrorView::JavaPackageNameMismatch {
                package_name: package,
                last_segment: crate::text::last_segment(package, '.'),
                output_dir_name: name,
            },
        ),
        crate::output::java_package_outcome(None, output_path, current_dir) == Err::<
            Seq<char>,
            ErrorView,
        >(ErrorView::JavaPackageNameMissing),
{
}

/// The output is formatted only where that is asked for, by the formatter of its language and on the
/// output path.
pub proof fn law_outputs_are_formatted_by_their_language(request: GenerateRequest)
    ensures
        ({
            let formatter = crate::generation::formatter_outcome(request);
            let path = request.output_path@;
            &&& !request.format ==> formatter == Ok::<Option<(Seq<char>, Seq<Seq<char>>)>, ErrorView>(None)
            &&& request.language == Language::Java ==> formatter == Ok::<
                Option<(Seq<char>, Seq<Seq<char>>)>,
                ErrorView,
            >(None)
            &&& request.format && request.language == Language::Go ==> formatter == Ok::<
                Option<(Seq<char>, Seq<Seq<char>>)>,
                ErrorView,
            >(Some(("gofmt"@, seq!["-w"@, path])))
            &&& request.format && request.language == Language::Python ==> formatter == Ok::<
                Option<(Seq<char>, Seq<Seq<char>>)>,
                ErrorView,
            >(Some(("ruff"@, seq!["format"@, "--line-length"@, "88"@, path])))
            &&& request.format && request.language == Language::TypeScript ==> formatter == Ok::<
                Option<(Seq<char>, Seq<Seq<char>>)>,
                ErrorView,
            >(Some(("prettier"@, seq!["--write"@, path])))
            &&& request.format && (request.language == Language::Dotnet || request.language
                == Language::Ruby) ==> formatter == Err::<Option<(Seq<char>, Seq<Seq<char>>)>, ErrorView>(
                ErrorView::UnsupportedLanguage { language: request.language },
            )
        }),
{
}

/// What is warned of a method that is a stub.
pub open spec fn stub_warning(class_name: Seq<char>, method: Seq<char>) -> Seq<char> {
    "resource method `"@ + class_name + "."@ + method
        + "` generated as a stub because no operation could be bound"@
}

/// Each method that is a stub is warned of, and no other.
pub proof fn law_stubs_are_warned_of(methods: Seq<PlannedResourceMethod>, class_name: Seq<char>, i: int)
    requires
        0 <= i < methods.len(),
    ensures
        methods[i].binding is Stub ==> crate::generation::method_warning_lines(
            methods,
            class_name,
        ).contains(stub_warning(class_name, methods[i].name@)),
        (forall|k: int|
            0 <= k < methods.len() ==> (#[trigger] methods[k]).binding is Operation)
            ==> crate::generation::method_warning_lines(methods, class_name).len() == 0,
    decreases methods.len(),
{
    let before = crate::generation::method_warning_lines(methods.drop_last(), class_name);
    let all = crate::generation::method_warning_lines(methods, class_name);
    let wanted = stub_warning(class_name, methods[i].name@);
    if methods.len() > 1 {
        if i < methods.len() - 1 {
            law_stubs_are_warned_of(methods.drop_last(), class_name, i);
            if methods[i].binding is Stub {
                let k = choose|k: int| 0 <= k < before.len() && before[k] == wanted;
                assert(all[k] == wanted);
            }
        } else {
            law_stubs_are_warned_of(methods.drop_last(), class_name, 0);
        }
        if forall|k: int| 0 <= k < methods.len() ==> (#[trigger] methods[k]).binding is Operation {
            assert forall|k: int| 0 <= k < methods.len() - 1 implies (
            #[trigger] methods.drop_last()[k]).binding is Operation by {
                assert(methods.drop_last()[k] == methods[k]);
            }
            assert(methods[methods.len() - 1].binding is Operation);
        }
    } else {
        assert(before =~= Seq::empty());
        assert(methods[0] == methods.last());
    }
    if i == methods.len() - 1 && methods[i].binding is Stub {
        assert(all[all.len() - 1] == wanted);
    }
}

/// The warnings of a plan are those of its services, of their resources, in their order.
pub proof fn law_warnings_are_those_of_the_resources(
    resources: Seq<PlannedResourceSpec>,
    resource: PlannedResourceSpec,
    services: Seq<PlannedServiceSpec>,
    service: PlannedServiceSpec,
    plan: PlannedSpec,
)
    ensures
        crate::generation::resource_warning_lines(resources.push(resource))
            == crate::generation::resource_warning_lines(resources)
            + crate::generation::method_warning_lines(resource.methods@, resource.class_name@),
        crate::generation::service_warning_lines(services.push(service))
            == crate::generation::service_warning_lines(services)
            + crate::generation::resource_warning_lines(service.resources@),
        crate::generation::tree_warning_lines(ApiSpecNode::Leaf(plan))
            == crate::generation::service_warning_lines(plan.services@),
{
    assert(resources.push(resource).drop_last() =~= resources);
    assert(services.push(service).drop_last() =~= services);
}

/// The support files of a language are those of its group, and of nothing else.
pub proof fn law_support_files_belong_to_their_language(
    groups: Seq<LanguageFragments>,
    language: Language,
    i: int,
)
    ensures
        0 <= i < groups.len() && groups[i].language == language && (forall|k: int|
            0 <= k < i ==> (#[trigger] groups[k]).language != language)
            ==> crate::generation::fragments_of_language(groups, language)
            == groups[i].fragments@,
        (forall|k: int| 0 <= k < groups.len() ==> (#[trigger] groups[k]).language != language)
            ==> crate::generation::fragments_of_language(groups, language).len() == 0,
    decreases groups.len(),
{
    if groups.len() > 0 {
        let rest = groups.drop_first();
        law_support_files_belong_to_their_language(rest, language, i - 1);
        assert forall|k: int| 0 <= k < rest.len() implies #[trigger] rest[k] == groups[k + 1] by {}
        if 0 <= i < groups.len() && groups[i].language == language && (forall|k: int|
            0 <= k < i ==> (#[trigger] groups[k]).language != language) {
            if i > 0 {
                assert(groups[0].language != language);
                assert(rest[i - 1] == groups[i]);
            }
        }
        if forall|k: int| 0 <= k < groups.len() ==> (#[trigger] groups[k]).language != language {
            assert(groups[0].language != language);
        }
    }
}

/// A leaf has the support files of its own language.
pub proof fn law_leaves_have_their_support_files(support: SupportSpec, language: Language)
    ensures
        crate::generation::tree_fragments(ApiSpecNode::Leaf(support), language)
            == crate::generation::fragments_of_language(support.fragments@, language),
{
}

/// A support file has a namespace only in .NET: that of its first line that declares one, and none
/// of a line that is a comment.
pub proof fn law_namespaces_are_declared(language: Language, contents: Seq<char>, line: Seq<char>, rest: Seq<Seq<char>>)
    ensures
        language != Language::Dotnet ==> crate::output::support_namespace(language, contents)
            is None,
        crate::output::support_namespace(Language::Dotnet, contents)
            == crate::output::first_namespace(crate::text::lines_of(contents)),
        crate::text::has_prefix(crate::text::trimmed_start(line), "//"@) ==> crate::output::line_namespace(line)
            is None,
        crate::output::line_namespace(line) matches Some(found) ==> found.len() > 0 && found.last()
            != '{' && found.last() != ';' && crate::text::words_of(crate::text::trimmed_start(line))[0]
            == "namespace"@ && crate::text::has_prefix(crate::text::words_of(crate::text::trimmed_start(line))[1], found),
        crate::output::line_namespace(line) is Some ==> crate::output::first_namespace(
            seq![line] + rest,
        ) == crate::output::line_namespace(line),
        crate::output::line_namespace(line) is None ==> crate::output::first_namespace(
            seq![line] + rest,
        ) == crate::output::first_namespace(rest),
{
    assert((seq![line] + rest).drop_first() =~= rest);
    let words = crate::text::words_of(crate::text::trimmed_start(line));
    if crate::output::line_namespace(line) is Some {
        lemma_bare(words[1]);
    }
}

/// A bare name is the start of the name, without braces and semicolons at its end.
proof fn lemma_bare(name: Seq<char>)
    ensures
        crate::text::has_prefix(name, crate::output::bare_namespace(name)),
        crate::output::bare_namespace(name).len() > 0 ==> crate::output::bare_namespace(name).last()
            != '{' && crate::output::bare_namespace(name).last() != ';',
    decreases name.len(),
{
    if name.len() > 0 && (name.last() == '{' || name.last() == ';') {
        lemma_bare(name.drop_last());
        let bare = crate::output::bare_namespace(name.drop_last());
        assert(name.take(bare.len() as int) =~= name.drop_last().take(bare.len() as int));
    } else {
        assert(name.take(name.len() as int) =~= name);
    }
}

/// A message says what is refused and why.
pub proof fn law_messages_say_what_is_refused(
    path: Seq<char>,
    reason: Seq<char>,
    one: Seq<char>,
    other: Seq<char>,
    more: Seq<char>,
    language: Language,
)
    ensures
        crate::error::error_message(ErrorView::InvalidGeneratedPath { path, reason })
            == "invalid generated path `"@ + path + "`: "@ + reason,
        crate::error::error_message(
            ErrorView::GeneratedFileSourceConflict {
                path,
                first_source: one,
                second_source: other,
                remedy: more,
            },
        ) == "generated file `"@ + path + "` has two sources, "@ + one + " and "@ + other + "; "@
            + more,
        crate::error::error_message(ErrorView::UnsupportedLanguage { language })
            == crate::language::display_name(language) + " is not a supported language"@,
        crate::error::error_message(ErrorView::OutputPathIsRoot { path }) == "output path `"@ + path
            + "` has no directory name"@,
        crate::error::error_message(ErrorView::OutputPathExists { path }) == "output path `"@ + path
            + "` already exists"@,
        crate::error::error_message(
            ErrorView::JavaPackageNameMismatch {
                package_name: path,
                last_segment: one,
                output_dir_name: other,
            },
        ) == "the last segment `"@ + one + "` of the Java package `"@ + path
            + "` is not the name of the output directory `"@ + other + "`"@,
        crate::error::error_message(ErrorView::WitParse { path, message: reason })
            == "failed to parse WIT `"@ + path + "`: "@ + reason,
        crate::error::error_message(ErrorView::InvalidWit { path, reason }) == "invalid WIT `"@
            + path + "`: "@ + reason,
        crate::error::error_message(
            ErrorView::InvalidWitDirective { path, context: one, directive: other, reason },
        ) == "invalid WIT directive "@ + other + " on "@ + one + " in `"@ + path + "`: "@ + reason,
        crate::error::error_message(
            ErrorView::ConflictingTypeOverrideFieldProperties {
                message: path,
                field: one,
                property: other,
                conflicting_property: more,
            },
        ) == "field `"@ + one + "` of "@ + path + " cannot have both `"@ + other + "` and `"@ + more
            + "`"@,
        crate::error::error_message(
            ErrorView::InvalidTypeOverrideField { message: path, field: one, property: other, reason },
        ) == "invalid `"@ + other + "` of field `"@ + one + "` of "@ + path + ": "@ + reason,
        crate::error::error_message(
            ErrorView::UnsupportedProtoOneofConversion { language, message: path, oneof: one },
        ) == crate::language::display_name(language) + " has no conversion of the oneof `"@ + one
            + "` of `"@ + path + "`"@,
        crate::error::error_message(
            ErrorView::UnsupportedProtoGenericCarrierConversion {
                language,
                message: path,
                field: one,
            },
        ) == crate::language::display_name(language) + " has no conversion of the generic field `"@
            + one + "` of `"@ + path + "`"@,
        crate::error::error_message(
            ErrorView::UnsupportedGoProtoConversion { context: one, reason },
        ) == one + " has no Go protobuf conversion: "@ + reason,
        crate::error::error_message(
            ErrorView::InvalidResource { service: one, resource: other, reason },
        ) == "invalid resource `"@ + other + "` of service `"@ + one + "`: "@ + reason,
        crate::error::error_message(ErrorView::InvalidJsonSchema { path, reason })
            == "invalid JSON schema `"@ + path + "`: "@ + reason,
{
}

} // verus!
