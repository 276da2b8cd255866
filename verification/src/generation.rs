//! From a planned tree of services to generated files: warnings, support files, the source text
//! of a generation and the files that it writes.

use vstd::prelude::*;

use crate::error::{Error, ErrorView};
use crate::files::{GeneratedFiles, GeneratedOutputLayout};
use crate::language::Language;
use crate::output::{
    formatter_command, output_dir_name, infer_support_namespace, resolve_java_package,
    GenerateFilesOptions, GenerateRequest, GenerationMode, LanguageFragments, SupportFiles,
    SupportFragmentSpec, SupportSpec,
};
use crate::paths::join_path;
use crate::text::{join_texts, replace_char, with_lines};

verus! {

/// How a method of a resource is carried out.
#[derive(Debug, Clone, Copy, PartialEq, Eq, Structural)]
pub enum PlannedResourceMethodBindingSpec {
    /// By an operation of the service.
    Operation,
    /// Not at all: no operation could be bound.
    Stub,
}

/// A method of a planned resource.
#[derive(Debug, Clone)]
pub struct PlannedResourceMethod {
    pub name: String,
    pub binding: PlannedResourceMethodBindingSpec,
}

/// A planned resource.
#[derive(Debug, Clone)]
pub struct PlannedResourceSpec {
    pub class_name: String,
    pub methods: Vec<PlannedResourceMethod>,
}

/// A planned service.
#[derive(Debug, Clone)]
pub struct PlannedServiceSpec {
    pub resources: Vec<PlannedResourceSpec>,
}

/// What is planned for one input.
#[derive(Debug, Clone)]
pub struct PlannedSpec {
    pub services: Vec<PlannedServiceSpec>,
}

/// A tree of inputs; the children of a branch stand in the order of their names.
#[derive(Debug)]
pub enum ApiSpecNode<T> {
    Leaf(T),
    Branch(Vec<ApiSpecNode<T>>),
}

/// The warnings about the methods of one resource.
pub open spec fn method_warning_lines(
    methods: Seq<PlannedResourceMethod>,
    class_name: Seq<char>,
) -> Seq<Seq<char>>
    decreases methods.len(),
{
    if methods.len() == 0 {
        Seq::empty()
    } else {
        let method = methods.last();
        method_warning_lines(methods.drop_last(), class_name) + (
            match method.binding {
                PlannedResourceMethodBindingSpec::Stub => seq![
                    (
                        "resource method `"@ + class_name + "."@ + method.name@
                            + "` generated as a stub because no operation could be bound"@
                    ),
                ],
                PlannedResourceMethodBindingSpec::Operation => Seq::<Seq<char>>::empty(),
            }
        )
    }
}

/// The warnings about the methods of one resource.
pub fn method_warnings(
    methods: &Vec<PlannedResourceMethod>,
    class_name: &str,
) -> (result: Vec<String>)
    ensures
        crate::text::texts(result@) == method_warning_lines(methods@, class_name@),
{
    broadcast use crate::text::group_texts;

    let mut result: Vec<String> = Vec::new();
    let mut i: usize = 0;
    while i < methods.len()
        invariant
            i <= methods.len(),
            crate::text::texts(result@) == method_warning_lines(
                methods@.take(i as int),
                class_name@,
            ),
        decreases methods.len() - i,
    {
        proof {
            assert(methods@.take(i + 1).drop_last() =~= methods@.take(i as int));
            assert(methods@.take(i + 1).last() == methods@[i as int]);
        }
        let method = &methods[i];
        let part = match method.binding {
            PlannedResourceMethodBindingSpec::Stub => vec![
                "resource method `".to_owned().concat(class_name).concat(".")
                    .concat(method.name.as_str())
                    .concat("` generated as a stub because no operation could be bound"),
            ],
            PlannedResourceMethodBindingSpec::Operation => Vec::new(),
        };
        result = with_lines(result, part);
        i += 1;
    }
    proof {
        crate::text::lemma_take_all(methods@);
    }
    result
}

/// The warnings about the resources of one service.
pub open spec fn resource_warning_lines(resources: Seq<PlannedResourceSpec>) -> Seq<Seq<char>>
    decreases resources.len(),
{
    if resources.len() == 0 {
        Seq::empty()
    } else {
        let resource = resources.last();
        resource_warning_lines(resources.drop_last()) + (
            method_warning_lines(resource.methods@, resource.class_name@)
        )
    }
}

/// The warnings about the resources of one service.
pub fn resource_warnings(resources: &Vec<PlannedResourceSpec>) -> (result: Vec<String>)
    ensures
        crate::text::texts(result@) == resource_warning_lines(resources@),
{
    broadcast use crate::text::group_texts;

    let mut result: Vec<String> = Vec::new();
    let mut i: usize = 0;
    while i < resources.len()
        invariant
            i <= resources.len(),
            crate::text::texts(result@) == resource_warning_lines(resources@.take(i as int)),
        decreases resources.len() - i,
    {
        proof {
            assert(resources@.take(i + 1).drop_last() =~= resources@.take(i as int));
            assert(resources@.take(i + 1).last() == resources@[i as int]);
        }
        let resource = &resources[i];
        let part = method_warnings(&resource.methods, resource.class_name.as_str());
        result = with_lines(result, part);
        i += 1;
    }
    proof {
        crate::text::lemma_take_all(resources@);
    }
    result
}

/// The warnings about the services of one input.
pub open spec fn service_warning_lines(services: Seq<PlannedServiceSpec>) -> Seq<Seq<char>>
    decreases services.len(),
{
    if services.len() == 0 {
        Seq::empty()
    } else {
        let service = services.last();
        service_warning_lines(services.drop_last()) + (
            resource_warning_lines(service.resources@)
        )
    }
}

/// The warnings about the services of one input.
pub fn service_warnings(services: &Vec<PlannedServiceSpec>) -> (result: Vec<String>)
    ensures
        crate::text::texts(result@) == service_warning_lines(services@),
{
    broadcast use crate::text::group_texts;

    let mut result: Vec<String> = Vec::new();
    let mut i: usize = 0;
    while i < services.len()
        invariant
            i <= services.len(),
            crate::text::texts(result@) == service_warning_lines(services@.take(i as int)),
        decreases services.len() - i,
    {
        proof {
            assert(services@.take(i + 1).drop_last() =~= services@.take(i as int));
            assert(services@.take(i + 1).last() == services@[i as int]);
        }
        let service = &services[i];
        let part = resource_warnings(&service.resources);
        result = with_lines(result, part);
        i += 1;
    }
    proof {
        crate::text::lemma_take_all(services@);
    }
    result
}

/// The warnings about one input: each resource method that no operation could be bound to.
pub fn generation_warnings(plan: &PlannedSpec) -> (warnings: Vec<String>)
    ensures
        crate::text::texts(warnings@) == service_warning_lines(plan.services@),
{
    service_warnings(&plan.services)
}

/// The warnings about a tree of inputs, in the order of the tree.
pub open spec fn tree_warning_lines(node: ApiSpecNode<PlannedSpec>) -> Seq<Seq<char>>
    decreases node, 1nat, 0nat,
{
    match node {
        ApiSpecNode::Leaf(plan) => service_warning_lines(plan.services@),
        ApiSpecNode::Branch(children) => branch_warning_lines(node, children@.len()),
    }
}

/// The warnings about the first `count` children of a branch.
pub open spec fn branch_warning_lines(node: ApiSpecNode<PlannedSpec>, count: nat) -> Seq<Seq<char>>
    decreases node, 0nat, count,
    when node matches ApiSpecNode::Branch(children) && count <= children@.len()
{
    if count == 0 {
        Seq::empty()
    } else {
        branch_warning_lines(node, (count - 1) as nat) + tree_warning_lines(
            node->Branch_0@[count - 1],
        )
    }
}

/// The warnings about a tree of inputs, in the order of the tree.
pub fn generation_warnings_for_tree(node: &ApiSpecNode<PlannedSpec>) -> (warnings: Vec<String>)
    ensures
        crate::text::texts(warnings@) == tree_warning_lines(*node),
    decreases node,
{
    broadcast use crate::text::group_texts;

    match node {
        ApiSpecNode::Leaf(plan) => generation_warnings(plan),
        ApiSpecNode::Branch(children) => {
            let mut warnings: Vec<String> = Vec::new();
            let mut i: usize = 0;
            while i < children.len()
                invariant
                    i <= children.len(),
                    *node == ApiSpecNode::Branch(*children),
                    crate::text::texts(warnings@) == branch_warning_lines(*node, i as nat),
                decreases children.len() - i,
            {
                let more = generation_warnings_for_tree(&children[i]);
                warnings = with_lines(warnings, more);
                i += 1;
            }
            warnings
        },
    }
}

/// The support files that the input names for the language.
pub open spec fn fragments_of_language(
    groups: Seq<LanguageFragments>,
    language: Language,
) -> Seq<SupportFragmentSpec>
    decreases groups.len(),
{
    if groups.len() == 0 {
        Seq::empty()
    } else if groups[0].language == language {
        groups[0].fragments@
    } else {
        fragments_of_language(groups.drop_first(), language)
    }
}

impl SupportFragmentSpec {
    /// A copy of the support file.
    pub fn copied(&self) -> (fragment: Self)
        ensures
            fragment == *self,
    {
        SupportFragmentSpec {
            path: self.path.clone(),
            contents: self.contents.clone(),
            namespace: match &self.namespace {
                Some(namespace) => Some(namespace.clone()),
                None => None,
            },
        }
    }
}

/// The fragments `head` followed by copies of `tail`.
fn append_fragments(head: &mut Vec<SupportFragmentSpec>, tail: &Vec<SupportFragmentSpec>)
    ensures
        final(head)@ == old(head)@ + tail@,
{
    let ghost before = head@;
    let mut i: usize = 0;
    assert(head@ =~= before + tail@.take(0));
    while i < tail.len()
        invariant
            i <= tail.len(),
            before == old(head)@,
            head@ == before + tail@.take(i as int),
        decreases tail.len() - i,
    {
        head.push(tail[i].copied());
        assert(tail@.take(i + 1) =~= tail@.take(i as int).push(tail@[i as int]));
        assert(head@ =~= before + tail@.take(i + 1));
        i += 1;
    }
    assert(tail@.take(i as int) =~= tail@);
}

impl SupportSpec {
    /// The support files for the language.
    pub fn fragments_for_language(&self, language: Language) -> (
        fragments: Vec<SupportFragmentSpec>
    )
        ensures
            fragments@ == fragments_of_language(self.fragments@, language),
    {
        let ghost groups = self.fragments@;
        let mut i: usize = 0;
        assert(groups.skip(0) =~= groups);
        while i < self.fragments.len()
            invariant
                i <= self.fragments.len(),
                groups == self.fragments@,
                fragments_of_language(groups.skip(i as int), language) == fragments_of_language(
                    groups,
                    language,
                ),
            decreases self.fragments.len() - i,
        {
            if self.fragments[i].language == language {
                let mut fragments: Vec<SupportFragmentSpec> = Vec::new();
                append_fragments(&mut fragments, &self.fragments[i].fragments);
                assert(fragments@ =~= groups.skip(i as int)[0].fragments@);
                return fragments;
            }
            assert(groups.skip(i as int).drop_first() =~= groups.skip(i + 1));
            i += 1;
        }
        Vec::new()
    }
}

/// The support files that a tree of inputs names for the language, in the order of the tree.
pub open spec fn tree_fragments(node: ApiSpecNode<SupportSpec>, language: Language) -> Seq<
    SupportFragmentSpec,
>
    decreases node, 1nat, 0nat,
{
    match node {
        ApiSpecNode::Leaf(support) => fragments_of_language(support.fragments@, language),
        ApiSpecNode::Branch(children) => branch_fragments(node, language, children@.len()),
    }
}

/// The support files that the first `count` children of a branch name for the language.
pub open spec fn branch_fragments(
    node: ApiSpecNode<SupportSpec>,
    language: Language,
    count: nat,
) -> Seq<SupportFragmentSpec>
    decreases node, 0nat, count,
    when node matches ApiSpecNode::Branch(children) && count <= children@.len()
{
    if count == 0 {
        Seq::empty()
    } else {
        branch_fragments(node, language, (count - 1) as nat) + tree_fragments(
            node->Branch_0@[count - 1],
            language,
        )
    }
}

/// Appends the support files that the tree names for the language.
pub fn collect_tree_support_fragments(
    language: Language,
    node: &ApiSpecNode<SupportSpec>,
    fragments: &mut Vec<SupportFragmentSpec>,
)
    ensures
        final(fragments)@ == old(fragments)@ + tree_fragments(*node, language),
    decreases node,
{
    match node {
        ApiSpecNode::Leaf(support) => {
            let own = support.fragments_for_language(language);
            append_fragments(fragments, &own);
        },
        ApiSpecNode::Branch(children) => {
            let ghost before = fragments@;
            let mut i: usize = 0;
            assert(fragments@ =~= before + branch_fragments(*node, language, 0));
            while i < children.len()
                invariant
                    i <= children.len(),
                    *node == ApiSpecNode::Branch(*children),
                    before == old(fragments)@,
                    fragments@ == before + branch_fragments(*node, language, i as nat),
                decreases children.len() - i,
            {
                collect_tree_support_fragments(language, &children[i], fragments);
                assert(fragments@ =~= before + (branch_fragments(*node, language, i as nat)
                    + tree_fragments(children@[i as int], language)));
                i += 1;
            }
        },
    }
}

/// The support files of a generation: those of the request where it names any, else those that
/// the inputs name for the language. `loaded` holds the files of the request, as they were read.
pub fn load_support_files_for_tree(
    language: Language,
    tree: &ApiSpecNode<SupportSpec>,
    support_paths: &Vec<String>,
    loaded: Vec<SupportFragmentSpec>,
) -> (support: SupportFiles)
    ensures
        support.fragments@ == if support_paths@.len() > 0 {
            loaded@
        } else {
            tree_fragments(*tree, language)
        },
{
    if support_paths.len() > 0 {
        return SupportFiles { fragments: loaded };
    }
    let mut fragments: Vec<SupportFragmentSpec> = Vec::new();
    collect_tree_support_fragments(language, tree, &mut fragments);
    assert(fragments@ =~= tree_fragments(*tree, language));
    SupportFiles { fragments }
}

/// A support file of the request as it was read: its path with forward slashes, its contents
/// and the namespace that they declare.
pub fn support_fragment(language: Language, path: &str, contents: String) -> (fragment:
    SupportFragmentSpec)
    ensures
        fragment.path@ == crate::text::replaced_char(path@, '\\', "/"@),
        fragment.contents == contents,
        crate::text::opt_text(fragment.namespace)
            == crate::output::support_namespace(language, contents@),
{
    let namespace = infer_support_namespace(language, contents.as_str());
    SupportFragmentSpec { path: replace_char(path, '\\', "/"), contents, namespace }
}

/// Whether a generator exists for the language.
pub open spec fn has_generator(language: Language) -> bool {
    language != Language::Ruby
}

/// Completes what the generator of the language rendered with the warnings about the tree. A
/// language without a generator is refused, an error of the generator is handed on, and only
/// the native API is warned about.
pub fn generate_files_from_planned_tree(
    language: Language,
    tree: &ApiSpecNode<PlannedSpec>,
    mode: GenerationMode,
    rendered: Result<GeneratedFiles, Error>,
) -> (result: Result<GeneratedFiles, Error>)
    ensures
        !has_generator(language) ==> (result matches Err(error) && error@
            == ErrorView::UnsupportedLanguage { language }),
        has_generator(language) ==> match rendered {
            Err(error) => result == Err::<GeneratedFiles, Error>(error),
            Ok(files) => result matches Ok(generated) && generated.layout == files.layout
                && generated.files == files.files
                    && crate::text::texts(generated.warnings@) == if mode
                == GenerationMode::NativeApi {
                tree_warning_lines(*tree)
            } else {
                Seq::empty()
            },
        },
{
    broadcast use crate::text::group_texts;

    if language == Language::Ruby {
        return Err(Error::UnsupportedLanguage { language });
    }
    match rendered {
        Err(error) => Err(error),
        Ok(files) => {
            let mut generated = files;
            generated.warnings = if mode == GenerationMode::NativeApi {
                generation_warnings_for_tree(tree)
            } else {
                Vec::new()
            };
            Ok(generated)
        },
    }
}

/// The files of a directory output as sections, each headed by its path.
pub open spec fn section_texts(entries: Seq<(Seq<char>, String)>) -> Seq<Seq<char>> {
    entries.map_values(
        |entry: (Seq<char>, String)| "### "@ + entry.0 + "\n"@ + entry.1@,
    )
}

/// The source text of a generation: the one file of a single-file output, or the files of a
/// directory output as sections with an empty line between them.
pub open spec fn source_text(generated: GeneratedFiles) -> Seq<char> {
    match generated.layout {
        GeneratedOutputLayout::SingleFile => generated.files@[0].1@,
        GeneratedOutputLayout::Directory => crate::text::join(
            section_texts(generated.files@),
            "\n\n"@,
        ),
    }
}

/// The source text of what the generator of the language rendered. A single-file output holds
/// a file.
pub fn generate_source_with_mode(
    language: Language,
    tree: &ApiSpecNode<PlannedSpec>,
    mode: GenerationMode,
    rendered: Result<GeneratedFiles, Error>,
) -> (result: Result<String, Error>)
    requires
        rendered matches Ok(files) ==> files.layout == GeneratedOutputLayout::SingleFile
            ==> files.files@.len() > 0,
    ensures
        !has_generator(language) ==> (result matches Err(error) && error@
            == ErrorView::UnsupportedLanguage { language }),
        has_generator(language) ==> match rendered {
            Err(error) => result == Err::<String, Error>(error),
            Ok(files) => result matches Ok(source) && source@ == source_text(files),
        },
{
    broadcast use crate::text::group_texts;

    match generate_files_from_planned_tree(language, tree, mode, rendered) {
        Err(error) => Err(error),
        Ok(generated) => {
            match generated.layout {
                GeneratedOutputLayout::SingleFile => Ok(generated.files.value_at(0).clone()),
                GeneratedOutputLayout::Directory => {
                    let ghost entries = generated.files@;
                    let mut sections: Vec<String> = Vec::new();
                    let mut i: usize = 0;
                    assert(crate::text::texts(sections@) =~= section_texts(entries).take(0));
                    while i < generated.files.len()
                        invariant
                            i <= entries.len(),
                            entries == generated.files@,
                            crate::text::texts(sections@) == section_texts(entries).take(i as int),
                        decreases entries.len() - i,
                    {
                        let section = "### ".to_owned().concat(
                            generated.files.path_at(i).as_str(),
                        ).concat("\n").concat(generated.files.value_at(i).as_str());
                        sections.push(section);
                        assert(section_texts(entries).take(i + 1) =~= section_texts(entries).take(
                            i as int,
                        ).push(section@));
                        i += 1;
                    }
                    assert(section_texts(entries).take(i as int) =~= section_texts(entries));
                    Ok(join_texts(&sections, "\n\n"))
                },
            }
        },
    }
}

/// The source text of a native API.
pub fn generate_source(
    language: Language,
    tree: &ApiSpecNode<PlannedSpec>,
    rendered: Result<GeneratedFiles, Error>,
) -> (result: Result<String, Error>)
    requires
        rendered matches Ok(files) ==> files.layout == GeneratedOutputLayout::SingleFile
            ==> files.files@.len() > 0,
    ensures
        !has_generator(language) ==> (result matches Err(error) && error@
            == ErrorView::UnsupportedLanguage { language }),
        has_generator(language) ==> match rendered {
            Err(error) => result == Err::<String, Error>(error),
            Ok(files) => result matches Ok(source) && source@ == source_text(files),
        },
{
    generate_source_with_mode(language, tree, GenerationMode::NativeApi, rendered)
}

/// What the renderers are told, by the views of the texts.
pub struct OptionsView {
    pub go_output_dir_name: Seq<char>,
    pub java_package_root: Option<Seq<char>>,
}

/// What the renderers are told for a request, or why the request is refused: its output path
/// resolves to a path without a name, or its Java package does not fit the output directory.
pub open spec fn options_outcome(request: GenerateRequest, current_dir: Seq<char>) -> Result<
    OptionsView,
    ErrorView,
> {
    match crate::output::dir_name_outcome(request.output_path@, current_dir) {
        Err(error) => Err(error),
        Ok(name) => if request.language == Language::Java {
            match crate::output::java_package_outcome(
                crate::text::opt_text(request.java_package_name),
                request.output_path@,
                current_dir,
            ) {
                Err(error) => Err(error),
                Ok(package) => Ok(
                    OptionsView { go_output_dir_name: ""@, java_package_root: Some(package) },
                ),
            }
        } else if request.language == Language::Go {
            Ok(OptionsView { go_output_dir_name: name, java_package_root: None })
        } else {
            Ok(OptionsView { go_output_dir_name: ""@, java_package_root: None })
        },
    }
}

/// What the renderers are told for the request.
pub fn generate_options(request: &GenerateRequest, current_dir: &str) -> (result: Result<
    GenerateFilesOptions,
    Error,
>)
    ensures
        match (result, options_outcome(*request, current_dir@)) {
            (Ok(options), Ok(view)) => options.go_output_dir_name@ == view.go_output_dir_name
                && crate::text::opt_text(options.java_package_root) == view.java_package_root
                && options.ts_date_time_types == request.ts_date_time_types,
            (Err(error), Err(view)) => error@ == view,
            _ => false,
        },
{
    match output_dir_name(request.output_path.as_str(), current_dir) {
        Err(error) => Err(error),
        Ok(name) => {
            if request.language == Language::Java {
                match resolve_java_package(request, current_dir) {
                    Err(error) => Err(error),
                    Ok(package) => Ok(
                        GenerateFilesOptions {
                            go_output_dir_name: "".to_owned(),
                            java_package_root: Some(package),
                            ts_date_time_types: request.ts_date_time_types,
                        },
                    ),
                }
            } else if request.language == Language::Go {
                Ok(
                    GenerateFilesOptions {
                        go_output_dir_name: name,
                        java_package_root: None,
                        ts_date_time_types: request.ts_date_time_types,
                    },
                )
            } else {
                Ok(
                    GenerateFilesOptions {
                        go_output_dir_name: "".to_owned(),
                        java_package_root: None,
                        ts_date_time_types: request.ts_date_time_types,
                    },
                )
            }
        },
    }
}

/// A file that a generation writes.
#[derive(Debug, Clone)]
pub struct FileWrite {
    pub path: String,
    pub contents: String,
}

/// What a generation does to the disk: the directory that it makes first where its output is one,
/// the files that it writes, in order, and the formatter that it runs behind them, or the error
/// that it ends in there. It removes nothing.
#[derive(Debug)]
pub struct WritePlan {
    pub warnings: Vec<String>,
    pub directory: Option<String>,
    pub writes: Vec<FileWrite>,
    pub formatter: Result<Option<(&'static str, Vec<String>)>, Error>,
}

/// The paths and contents of a list of writes.
pub open spec fn write_views(writes: Seq<FileWrite>) -> Seq<(Seq<char>, Seq<char>)> {
    writes.map_values(|write: FileWrite| (write.path@, write.contents@))
}

/// The files that a generation writes: the one file at the output path itself, or each file
/// below it.
pub open spec fn planned_writes(output_path: Seq<char>, generated: GeneratedFiles) -> Seq<
    (Seq<char>, Seq<char>),
> {
    match generated.layout {
        GeneratedOutputLayout::SingleFile => seq![(output_path, generated.files@[0].1@)],
        GeneratedOutputLayout::Directory => generated.files@.map_values(
            |entry: (Seq<char>, String)| (
                crate::paths::joined_path(output_path, entry.0),
                entry.1@
            ),
        ),
    }
}

/// The directory that a generation makes before it writes: the output path where its output is a
/// directory, though it holds no files.
pub open spec fn planned_directory(output_path: Seq<char>, generated: GeneratedFiles) -> Option<
    Seq<char>,
> {
    match generated.layout {
        GeneratedOutputLayout::SingleFile => None,
        GeneratedOutputLayout::Directory => Some(output_path),
    }
}

/// The files that a generation writes. A directory output is refused where a file stands at
/// the output path.
pub fn write_generated_files(
    output_path: &str,
    output_is_file: bool,
    generated: &GeneratedFiles,
) -> (result: Result<Vec<FileWrite>, Error>)
    requires
        generated.layout == GeneratedOutputLayout::SingleFile ==> generated.files@.len() > 0,
    ensures
        if generated.layout == GeneratedOutputLayout::Directory && output_is_file {
            result matches Err(error) && error@ == ErrorView::OutputPathExists {
                path: output_path@,
            }
        } else {
            result matches Ok(writes) && write_views(writes@) == planned_writes(
                output_path@,
                *generated,
            )
        },
{
    match generated.layout {
        GeneratedOutputLayout::SingleFile => {
            let writes = vec![
                FileWrite {
                    path: output_path.to_owned(),
                    contents: generated.files.value_at(0).clone(),
                },
            ];
            assert(write_views(writes@) =~= planned_writes(output_path@, *generated));
            Ok(writes)
        },
        GeneratedOutputLayout::Directory => {
            if output_is_file {
                return Err(Error::OutputPathExists { path: output_path.to_owned() });
            }
            let ghost entries = generated.files@;
            let ghost planned = planned_writes(output_path@, *generated);
            let mut writes: Vec<FileWrite> = Vec::new();
            let mut i: usize = 0;
            assert(write_views(writes@) =~= planned.take(0));
            while i < generated.files.len()
                invariant
                    i <= entries.len(),
                    entries == generated.files@,
                    generated.layout == GeneratedOutputLayout::Directory,
                    planned == planned_writes(output_path@, *generated),
                    write_views(writes@) == planned.take(i as int),
                decreases entries.len() - i,
            {
                let ghost before = writes@;
                let write = FileWrite {
                    path: join_path(output_path, generated.files.path_at(i).as_str()),
                    contents: generated.files.value_at(i).clone(),
                };
                writes.push(write);
                proof {
                    assert(write_views(writes@) =~= write_views(before).push(
                        (write.path@, write.contents@),
                    ));
                    assert(planned.take(i + 1) =~= planned.take(i as int).push(planned[i as int]));
                }
                i += 1;
            }
            assert(planned.take(i as int) =~= planned);
            Ok(writes)
        },
    }
}

/// The formatter that the request runs behind a generation: none where it asks for none, and
/// none for Java.
pub open spec fn formatter_outcome(request: GenerateRequest) -> Result<
    Option<(Seq<char>, Seq<Seq<char>>)>,
    ErrorView,
> {
    if !request.format || request.language == Language::Java {
        Ok(None)
    } else {
        match crate::output::formatter_of(request.language, request.output_path@) {
            Ok(command) => Ok(Some(command)),
            Err(error) => Err(error),
        }
    }
}

/// Why a request with the given rendering writes nothing, if so: its output path or its Java
/// package is refused, the rendering failed, or a file stands where its directory should be.
pub open spec fn request_error(
    request: GenerateRequest,
    current_dir: Seq<char>,
    output_is_file: bool,
    rendered: Result<GeneratedFiles, Error>,
) -> Option<ErrorView> {
    match options_outcome(request, current_dir) {
        Err(error) => Some(error),
        Ok(_) => if !has_generator(request.language) {
            Some(ErrorView::UnsupportedLanguage { language: request.language })
        } else {
            match rendered {
                Err(error) => Some(error@),
                Ok(files) => if files.layout == GeneratedOutputLayout::Directory && output_is_file {
                    Some(ErrorView::OutputPathExists { path: request.output_path@ })
                } else {
                    None
                },
            }
        },
    }
}

/// What is meant for another language than that of a request changes nothing about it: two
/// requests that differ in their date-time types, or in their Java package where the language is
/// not Java, are refused alike, tell the renderers the same apart from the date-time types, and
/// write and format the same where the same was rendered.
pub proof fn law_options_of_other_languages_change_nothing(
    one: GenerateRequest,
    other: GenerateRequest,
    current_dir: Seq<char>,
    output_is_file: bool,
    rendered: Result<GeneratedFiles, Error>,
)
    requires
        one.language == other.language,
        one.output_path@ == other.output_path@,
        one.format == other.format,
        one.language == Language::Java ==> crate::text::opt_text(one.java_package_name)
            == crate::text::opt_text(other.java_package_name),
    ensures
        options_outcome(one, current_dir) == options_outcome(other, current_dir),
        request_error(one, current_dir, output_is_file, rendered) == request_error(
            other,
            current_dir,
            output_is_file,
            rendered,
        ),
        rendered matches Ok(files) ==> planned_writes(one.output_path@, files) == planned_writes(
            other.output_path@,
            files,
        ),
        formatter_outcome(one) == formatter_outcome(other),
{
}

/// What a generation does to the disk for a request, given what the generator of its language
/// rendered. A language without a formatter fails behind the writes.
pub fn generate_to_file(
    request: &GenerateRequest,
    current_dir: &str,
    tree: &ApiSpecNode<PlannedSpec>,
    output_is_file: bool,
    rendered: Result<GeneratedFiles, Error>,
) -> (result: Result<WritePlan, Error>)
    requires
        rendered matches Ok(files) ==> files.layout == GeneratedOutputLayout::SingleFile
            ==> files.files@.len() > 0,
    ensures
        match request_error(*request, current_dir@, output_is_file, rendered) {
            Some(view) => result matches Err(error) && error@ == view,
            None => result matches Ok(plan) && crate::text::opt_text(plan.directory)
                == planned_directory(request.output_path@, rendered->Ok_0) && write_views(
                plan.writes@,
            ) == planned_writes(request.output_path@, rendered->Ok_0) && crate::text::texts(plan.warnings@) == (if request.config.mode
                == GenerationMode::NativeApi {
                tree_warning_lines(*tree)
            } else {
                Seq::empty()
            }) && match (plan.formatter, formatter_outcome(*request)) {
                (
                    Ok(Some(command)),
                    Ok(Some(view))
                ) => command.0@ == view.0 && crate::text::texts(command.1@)
                    == view.1,
                (Ok(None), Ok(None)) => true,
                (Err(error), Err(view)) => error@ == view,
                _ => false,
            },
        },
{
    match generate_options(request, current_dir) {
        Err(error) => {
            return Err(error);
        },
        Ok(_) => {},
    }
    match generate_files_from_planned_tree(request.language, tree, request.config.mode, rendered) {
        Err(error) => Err(error),
        Ok(generated) => {
            match write_generated_files(request.output_path.as_str(), output_is_file, &generated) {
                Err(error) => Err(error),
                Ok(writes) => {
                    let formatter = if !request.format || request.language == Language::Java {
                        Ok(None)
                    } else {
                        match formatter_command(request.language, request.output_path.as_str()) {
                            Ok(command) => Ok(Some(command)),
                            Err(error) => Err(error),
                        }
                    };
                    let directory = match generated.layout {
                        GeneratedOutputLayout::SingleFile => None,
                        GeneratedOutputLayout::Directory => Some(request.output_path.clone()),
                    };
                    Ok(WritePlan { warnings: generated.warnings, directory, writes, formatter })
                },
            }
        },
    }
}

} // verus!
