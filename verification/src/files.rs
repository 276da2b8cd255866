//! Generated files, the sources that decide their paths, and collisions between them.

use vstd::prelude::*;

use crate::error::{Error, ErrorView};
use crate::language::{language_display_name, Language};
use crate::paths::{join_path, parts_of_path, path_is_absolute, PartView, PathMap, PathPart};

verus! {

/// How the generated files are laid out.
#[derive(Debug, Clone, Copy, PartialEq, Eq, Structural)]
pub enum GeneratedOutputLayout {
    SingleFile,
    Directory,
}

/// What a generation produced.
#[derive(Debug, Clone)]
pub struct GeneratedFiles {
    pub layout: GeneratedOutputLayout,
    pub files: PathMap<String>,
    pub warnings: Vec<String>,
}

impl GeneratedFiles {
    /// The files stand under distinct paths, in the order of the paths.
    pub open spec fn wf(&self) -> bool {
        self.files.wf()
    }

    /// One file with the given contents, under the path `output`.
    pub fn single_file(contents: String) -> (generated: Self)
        ensures
            generated.wf(),
            generated.layout == GeneratedOutputLayout::SingleFile,
            generated.files@ == seq![("output"@, contents)],
            generated.warnings@.len() == 0,
    {
        let mut files: PathMap<String> = PathMap::new();
        let at = files.insert_new("output".to_owned(), contents);
        assert(files@ =~= seq![("output"@, contents)]);
        GeneratedFiles { layout: GeneratedOutputLayout::SingleFile, files, warnings: Vec::new() }
    }

    /// The given files, to be written below a directory.
    pub fn directory(files: PathMap<String>) -> (generated: Self)
        ensures
            generated.layout == GeneratedOutputLayout::Directory,
            generated.files == files,
            generated.warnings@.len() == 0,
    {
        GeneratedFiles { layout: GeneratedOutputLayout::Directory, files, warnings: Vec::new() }
    }

    /// The contents of the first file of a single-file output.
    pub open spec fn single_contents(&self) -> Option<Seq<char>> {
        if self.layout == GeneratedOutputLayout::SingleFile && self.files@.len() > 0 {
            Some(self.files@[0].1@)
        } else {
            None
        }
    }

    /// The contents of the first file of a single-file output.
    pub fn single_file_contents(&self) -> (contents: Option<&str>)
        ensures
            crate::text::opt_str(contents) == self.single_contents(),
    {
        if self.layout == GeneratedOutputLayout::SingleFile && self.files.len() > 0 {
            Some(self.files.value_at(0).as_str())
        } else {
            None
        }
    }
}

/// What decided the path of a generated file.
#[derive(Debug, Clone)]
pub enum GeneratedFileOrigin {
    InputModule { language: Language, source: String },
    OutputDirectoryNamedModule { language: Language, output_dir_name: String },
    SupportFragment { language: Language, source: String },
    Operation { language: Language, service: String, operation: String },
    Resource { language: Language, service: String, resource: String },
    TypeDeclaration { language: Language, source: String, declaration: String },
    ServiceDeclaration { language: Language, source: String, service: String },
    FixedArtifact { description: String },
}

/// How an origin is named in messages.
pub open spec fn origin_description(origin: GeneratedFileOrigin) -> Seq<char> {
    match origin {
        GeneratedFileOrigin::InputModule { language, source } => crate::language::display_name(language)
            + " input module `"@ + source@ + "`"@,
        GeneratedFileOrigin::OutputDirectoryNamedModule { language, output_dir_name } =>
        crate::language::display_name(language) + " module derived from output directory `"@
            + output_dir_name@
            + "`"@,
        GeneratedFileOrigin::SupportFragment { language, source } => crate::language::display_name(language)
            + " support file `"@ + source@ + "`"@,
        GeneratedFileOrigin::Operation {
            language,
            service,
            operation,
        } => crate::language::display_name(language)
            + " operation `"@ + service@ + "."@ + operation@ + "`"@,
        GeneratedFileOrigin::Resource {
            language,
            service,
            resource,
        } => crate::language::display_name(language)
            + " resource `"@ + service@ + "."@ + resource@ + "`"@,
        GeneratedFileOrigin::TypeDeclaration {
            language,
            source,
            declaration,
        } => crate::language::display_name(
            language,
        ) + " type declaration `"@ + declaration@ + "` in `"@ + source@ + "`"@,
        GeneratedFileOrigin::ServiceDeclaration {
            language,
            source,
            service,
        } => crate::language::display_name(
            language,
        ) + " service declaration `"@ + service@ + "` in `"@ + source@ + "`"@,
        GeneratedFileOrigin::FixedArtifact { description } => description@,
    }
}

/// What a user can do so that an origin gives another path; nothing for a fixed artifact.
pub open spec fn origin_action(origin: GeneratedFileOrigin) -> Option<Seq<char>> {
    match origin {
        GeneratedFileOrigin::InputModule { language, source } => Some(
            "rename input file or directory `"@ + source@ + "` so it generates a different "@
                + crate::language::display_name(language) + " path"@,
        ),
        GeneratedFileOrigin::OutputDirectoryNamedModule { language, .. } => Some(
            "point `--output` at a directory whose name generates a different "@
                + crate::language::display_name(
                language,
            ) + " file path"@,
        ),
        GeneratedFileOrigin::SupportFragment { language, source } => Some(
            "rename support file `"@ + source@ + "` so it generates a different "@
                + crate::language::display_name(
                language,
            ) + " path"@,
        ),
        GeneratedFileOrigin::Operation { language, service, operation } => Some(
            "rename operation `"@ + operation@ + "` in service `"@ + service@
                + "` so it generates a different "@ + crate::language::display_name(language)
                + " path"@,
        ),
        GeneratedFileOrigin::Resource { language, service, resource } => Some(
            "rename resource `"@ + resource@ + "` in service `"@ + service@
                + "` so it generates a different "@ + crate::language::display_name(language)
                + " path"@,
        ),
        GeneratedFileOrigin::TypeDeclaration { language, source, declaration } => Some(
            "rename type declaration `"@ + declaration@ + "` in `"@ + source@
                + "` so it generates a different "@ + crate::language::display_name(language)
                + " path"@,
        ),
        GeneratedFileOrigin::ServiceDeclaration { language, source, service } => Some(
            "rename service `"@ + service@ + "` in `"@ + source@
                + "` so it generates a different "@ + crate::language::display_name(language)
                + " path"@,
        ),
        GeneratedFileOrigin::FixedArtifact { .. } => None,
    }
}

impl GeneratedFileOrigin {
    /// A module of the input.
    pub fn input_module(language: Language, source: &str) -> (origin: Self)
        ensures
            origin matches GeneratedFileOrigin::InputModule { language: l, source: s } && l
                == language && s@ == source@,
    {
        GeneratedFileOrigin::InputModule { language, source: source.to_owned() }
    }

    /// A module that is named after the output directory.
    pub fn output_directory_named_module(language: Language, output_dir_name: &str) -> (origin:
        Self)
        ensures
            origin matches GeneratedFileOrigin::OutputDirectoryNamedModule {
                language: l,
                output_dir_name: n,
            } && l == language && n@ == output_dir_name@,
    {
        GeneratedFileOrigin::OutputDirectoryNamedModule {
            language,
            output_dir_name: output_dir_name.to_owned(),
        }
    }

    /// A support file.
    pub fn support_fragment(language: Language, source: &str) -> (origin: Self)
        ensures
            origin matches GeneratedFileOrigin::SupportFragment { language: l, source: s } && l
                == language && s@ == source@,
    {
        GeneratedFileOrigin::SupportFragment { language, source: source.to_owned() }
    }

    /// An operation of a service.
    pub fn operation(language: Language, service: &str, operation: &str) -> (origin: Self)
        ensures
            origin matches GeneratedFileOrigin::Operation { language: l, service: s, operation: o }
                && l == language && s@ == service@ && o@ == operation@,
    {
        GeneratedFileOrigin::Operation {
            language,
            service: service.to_owned(),
            operation: operation.to_owned(),
        }
    }

    /// A resource of a service.
    pub fn resource(language: Language, service: &str, resource: &str) -> (origin: Self)
        ensures
            origin matches GeneratedFileOrigin::Resource { language: l, service: s, resource: r }
                && l == language && s@ == service@ && r@ == resource@,
    {
        GeneratedFileOrigin::Resource {
            language,
            service: service.to_owned(),
            resource: resource.to_owned(),
        }
    }

    /// A type declaration.
    pub fn type_declaration(language: Language, source: &str, declaration: &str) -> (origin: Self)
        ensures
            origin matches GeneratedFileOrigin::TypeDeclaration {
                language: l,
                source: s,
                declaration: d,
            } && l == language && s@ == source@ && d@ == declaration@,
    {
        GeneratedFileOrigin::TypeDeclaration {
            language,
            source: source.to_owned(),
            declaration: declaration.to_owned(),
        }
    }

    /// A service declaration.
    pub fn service_declaration(language: Language, source: &str, service: &str) -> (origin: Self)
        ensures
            origin matches GeneratedFileOrigin::ServiceDeclaration {
                language: l,
                source: s,
                service: v,
            } && l == language && s@ == source@ && v@ == service@,
    {
        GeneratedFileOrigin::ServiceDeclaration {
            language,
            source: source.to_owned(),
            service: service.to_owned(),
        }
    }

    /// A file whose path nothing in the input changes.
    pub fn fixed(description: &str) -> (origin: Self)
        ensures
            origin matches GeneratedFileOrigin::FixedArtifact { description: d } && d@
                == description@,
    {
        GeneratedFileOrigin::FixedArtifact { description: description.to_owned() }
    }

    /// How the origin is named in messages.
    pub fn description(&self) -> (result: String)
        ensures
            result@ == origin_description(*self),
    {
        match self {
            GeneratedFileOrigin::InputModule { language, source } => language_display_name(
                *language,
            ).to_owned().concat(" input module `").concat(source.as_str()).concat("`"),
            GeneratedFileOrigin::OutputDirectoryNamedModule { language, output_dir_name } =>
                language_display_name(*language).to_owned().concat(
                " module derived from output directory `",
            ).concat(output_dir_name.as_str()).concat("`"),
            GeneratedFileOrigin::SupportFragment { language, source } => language_display_name(
                *language,
            ).to_owned().concat(" support file `").concat(source.as_str()).concat("`"),
            GeneratedFileOrigin::Operation { language, service, operation } =>
                language_display_name(*language).to_owned().concat(" operation `").concat(
                service.as_str(),
            ).concat(".").concat(operation.as_str()).concat("`"),
            GeneratedFileOrigin::Resource { language, service, resource } => language_display_name(
                *language,
            ).to_owned().concat(" resource `").concat(service.as_str()).concat(".").concat(
                resource.as_str(),
            ).concat("`"),
            GeneratedFileOrigin::TypeDeclaration { language, source, declaration } =>
                language_display_name(*language).to_owned().concat(" type declaration `").concat(
                declaration.as_str(),
            ).concat("` in `").concat(source.as_str()).concat("`"),
            GeneratedFileOrigin::ServiceDeclaration { language, source, service } =>
                language_display_name(*language).to_owned().concat(" service declaration `").concat(
                service.as_str(),
            ).concat("` in `").concat(source.as_str()).concat("`"),
            GeneratedFileOrigin::FixedArtifact { description } => description.clone(),
        }
    }

    /// What a user can do so that the origin gives another path.
    pub fn path_changing_action(&self) -> (action: Option<String>)
        ensures
            crate::text::opt_text(action) == origin_action(*self),
    {
        match self {
            GeneratedFileOrigin::InputModule { language, source } => Some(
                "rename input file or directory `".to_owned().concat(source.as_str()).concat(
                    "` so it generates a different ",
                ).concat(language_display_name(*language)).concat(" path"),
            ),
            GeneratedFileOrigin::OutputDirectoryNamedModule { language, .. } => Some(
                "point `--output` at a directory whose name generates a different ".to_owned()
                    .concat(language_display_name(*language)).concat(" file path"),
            ),
            GeneratedFileOrigin::SupportFragment { language, source } => Some(
                "rename support file `".to_owned().concat(source.as_str()).concat(
                    "` so it generates a different ",
                ).concat(language_display_name(*language)).concat(" path"),
            ),
            GeneratedFileOrigin::Operation { language, service, operation } => Some(
                "rename operation `".to_owned().concat(operation.as_str()).concat(
                    "` in service `",
                ).concat(service.as_str()).concat("` so it generates a different ").concat(
                    language_display_name(*language),
                ).concat(" path"),
            ),
            GeneratedFileOrigin::Resource { language, service, resource } => Some(
                "rename resource `".to_owned().concat(resource.as_str()).concat(
                    "` in service `",
                ).concat(service.as_str()).concat("` so it generates a different ").concat(
                    language_display_name(*language),
                ).concat(" path"),
            ),
            GeneratedFileOrigin::TypeDeclaration { language, source, declaration } => Some(
                "rename type declaration `".to_owned().concat(declaration.as_str()).concat(
                    "` in `",
                ).concat(source.as_str()).concat("` so it generates a different ").concat(
                    language_display_name(*language),
                ).concat(" path"),
            ),
            GeneratedFileOrigin::ServiceDeclaration { language, source, service } => Some(
                "rename service `".to_owned().concat(service.as_str()).concat("` in `").concat(
                    source.as_str(),
                ).concat("` so it generates a different ").concat(
                    language_display_name(*language),
                ).concat(" path"),
            ),
            GeneratedFileOrigin::FixedArtifact { .. } => None,
        }
    }

    /// A copy of the origin.
    pub fn copied(&self) -> (origin: Self)
        ensures
            origin == *self,
    {
        match self {
            GeneratedFileOrigin::InputModule { language, source } =>
                GeneratedFileOrigin::InputModule { language: *language, source: source.clone() },
            GeneratedFileOrigin::OutputDirectoryNamedModule { language, output_dir_name } =>
                GeneratedFileOrigin::OutputDirectoryNamedModule {
                language: *language,
                output_dir_name: output_dir_name.clone(),
            },
            GeneratedFileOrigin::SupportFragment { language, source } =>
                GeneratedFileOrigin::SupportFragment {
                    language: *language,
                    source: source.clone(),
                },
            GeneratedFileOrigin::Operation { language, service, operation } =>
                GeneratedFileOrigin::Operation {
                language: *language,
                service: service.clone(),
                operation: operation.clone(),
            },
            GeneratedFileOrigin::Resource { language, service, resource } =>
                GeneratedFileOrigin::Resource {
                language: *language,
                service: service.clone(),
                resource: resource.clone(),
            },
            GeneratedFileOrigin::TypeDeclaration { language, source, declaration } =>
                GeneratedFileOrigin::TypeDeclaration {
                language: *language,
                source: source.clone(),
                declaration: declaration.clone(),
            },
            GeneratedFileOrigin::ServiceDeclaration { language, source, service } =>
                GeneratedFileOrigin::ServiceDeclaration {
                language: *language,
                source: source.clone(),
                service: service.clone(),
            },
            GeneratedFileOrigin::FixedArtifact { description } =>
                GeneratedFileOrigin::FixedArtifact { description: description.clone() },
        }
    }
}

/// A generated file and what decided its path.
#[derive(Debug, Clone)]
pub struct GeneratedFile {
    pub contents: String,
    pub origin: GeneratedFileOrigin,
}

/// What can be done about two origins that generate the same path: the actions of the two
/// that have one; where neither has, a note on the defect.
pub open spec fn conflict_remedy(
    first: GeneratedFileOrigin,
    second: GeneratedFileOrigin,
) -> Seq<char> {
    match (origin_action(first), origin_action(second)) {
        (Some(one), Some(other)) => one + "; or "@ + other,
        (Some(one), None) => one,
        (None, Some(other)) => other,
        (None, None) => "this is an internal generator defect: fixed artifacts "@
            + origin_description(first) + " and "@ + origin_description(second)
            + " produce the same path"@,
    }
}

/// Whether a generated file may stand under the path: it is relative and holds no `..`.
pub open spec fn stays_inside(path: Seq<char>) -> bool {
    !crate::paths::is_absolute_path(path)
        && !crate::paths::path_parts(path).contains(PartView::Parent)
}

/// The entries of a file map: the path and the file, in the order of the paths.
pub type FileEntries = Seq<(Seq<char>, GeneratedFile)>;

/// The first entry with the path that has the given parts.
pub open spec fn entry_index(entries: FileEntries, parts: Seq<PartView>) -> int {
    choose|i: int| 0 <= i < entries.len() && crate::paths::path_parts(
        #[trigger] entries[i].0,
    ) == parts
}

/// What stops a file from being added: a path that leaves the output directory, or one that is
/// taken.
pub open spec fn insert_error(
    entries: FileEntries,
    path: Seq<char>,
    origin: GeneratedFileOrigin,
) -> Option<ErrorView> {
    if !stays_inside(path) {
        Some(
            ErrorView::InvalidGeneratedPath {
                path,
                reason: "generated file paths must be relative and stay within the output directory"@,
            },
        )
    } else if crate::paths::has_path(entries, crate::paths::path_parts(path)) {
        let first = entries[entry_index(entries, crate::paths::path_parts(path))].1.origin;
        Some(
            ErrorView::GeneratedFileSourceConflict {
                path,
                first_source: origin_description(first),
                second_source: origin_description(origin),
                remedy: conflict_remedy(first, origin),
            },
        )
    } else {
        None
    }
}

/// Whether `after` holds the entries of `before` and one more with the path and the file, all
/// in the order of the paths.
pub open spec fn entry_added(
    before: FileEntries,
    after: FileEntries,
    path: Seq<char>,
    file: GeneratedFile,
) -> bool {
    &&& crate::paths::paths_ascending(after)
    &&& exists|at: int|
        0 <= at <= before.len() && after == #[trigger] before.insert(at, (path, file))
}

/// Whether adding the items to `before`, one after the other, gives `after` without an error.
pub open spec fn entries_added(before: FileEntries, after: FileEntries, items: FileEntries) -> bool
    decreases items.len(),
{
    if items.len() == 0 {
        after == before
    } else {
        exists|middle: FileEntries|
            entries_added(before, middle, items.drop_last()) && insert_error(
            middle,
            items.last().0,
            items.last().1.origin,
        ) is None && #[trigger] entry_added(middle, after, items.last().0, items.last().1)
    }
}

/// The outcome of adding the items one after the other: all of them are added, or those before
/// the first that is refused, whose error is reported.
pub open spec fn insertion_outcome(
    before: FileEntries,
    after: FileEntries,
    items: FileEntries,
    result: Result<(), Error>,
) -> bool {
    match result {
        Ok(_) => entries_added(before, after, items),
        Err(error) => exists|k: int|
            0 <= k < items.len() && #[trigger] entries_added(before, after, items.take(k))
            && insert_error(after, items[k].0, items[k].1.origin) == Some(error@),
    }
}

/// The files with the contents of `files`, all of the one origin.
pub open spec fn with_origin(
    files: Seq<(Seq<char>, String)>,
    origin: GeneratedFileOrigin,
) -> FileEntries {
    files.map_values(
        |entry: (Seq<char>, String)| (entry.0, GeneratedFile { contents: entry.1, origin }),
    )
}

/// The entries with `base` before each path.
pub open spec fn prefixed_entries(entries: FileEntries, base: Seq<char>) -> FileEntries {
    entries.map_values(
        |entry: (Seq<char>, GeneratedFile)| (crate::paths::joined_path(base, entry.0), entry.1),
    )
}

/// Whether the paths of the entries are plain.
pub open spec fn plain_entries(entries: FileEntries) -> bool {
    forall|i: int| 0 <= i < entries.len() ==> crate::paths::plain_path(#[trigger] entries[i].0)
}

/// Whether items can be added to no entries one after the other: their paths are in order, and
/// they stay inside the output directory.
pub open spec fn addable(items: FileEntries) -> bool {
    &&& crate::paths::paths_ascending(items)
    &&& forall|i: int| 0 <= i < items.len() ==> stays_inside(#[trigger] items[i].0)
}

/// Items that can be added are all added, and are then the entries.
proof fn lemma_addable_items(after: FileEntries, items: FileEntries)
    requires
        addable(items),
        entries_added(FileEntries::empty(), after, items),
    ensures
        after == items,
    decreases items.len(),
{
    if items.len() == 0 {
        assert(after =~= items);
    } else {
        let front = items.drop_last();
        let last = items.last();
        let middle = choose|middle: FileEntries|
            entries_added(FileEntries::empty(), middle, front) && insert_error(
                middle,
                last.0,
                last.1.origin,
            ) is None && #[trigger] entry_added(middle, after, last.0, last.1);
        assert(addable(front));
        lemma_addable_items(middle, front);
        let at = choose|at: int|
            0 <= at <= middle.len() && after == #[trigger] middle.insert(at, (last.0, last.1));
        if at < middle.len() {
            assert(after[at] == last);
            assert(after[at + 1] == middle[at]);
            assert(items[at] == middle[at]);
            crate::paths::lemma_path_before_total(
                crate::paths::path_parts(items[at].0),
                crate::paths::path_parts(last.0),
            );
        }
        assert(after =~= items);
    }
}

/// The next of the items that can be added is not refused.
proof fn lemma_addable_next(items: FileEntries, index: int, origin: GeneratedFileOrigin)
    requires
        addable(items),
        0 <= index < items.len(),
    ensures
        insert_error(items.take(index), items[index].0, origin) is None,
{
    let parts = crate::paths::path_parts(items[index].0);
    assert forall|j: int| 0 <= j < index implies crate::paths::path_parts(
        #[trigger] items.take(index)[j].0,
    ) != parts by {
        assert(items.take(index)[j] == items[j]);
        crate::paths::lemma_path_before_total(crate::paths::path_parts(items[j].0), parts);
    }
}

/// Plain paths below a plain directory stay in order and inside the output directory.
proof fn lemma_prefixed_addable(entries: FileEntries, base: Seq<char>)
    requires
        crate::paths::paths_ascending(entries),
        plain_entries(entries),
        crate::paths::plain_path(base),
    ensures
        addable(prefixed_entries(entries, base)),
        plain_entries(prefixed_entries(entries, base)),
{
    let items = prefixed_entries(entries, base);
    assert forall|i: int| 0 <= i < items.len() implies crate::paths::plain_path(
        #[trigger] items[i].0,
    ) by {
        assert(crate::paths::plain_path(entries[i].0));
        crate::paths::law_joined_is_plain(base, entries[i].0);
    }
    assert forall|i: int, j: int| 0 <= i < j < items.len() implies crate::paths::path_before(
        crate::paths::path_parts(#[trigger] items[i].0),
        crate::paths::path_parts(#[trigger] items[j].0),
    ) by {
        assert(crate::paths::plain_path(entries[i].0));
        assert(crate::paths::plain_path(entries[j].0));
        crate::paths::law_joined_parts(base, entries[i].0);
        crate::paths::law_joined_parts(base, entries[j].0);
        crate::paths::law_directory_keeps_the_order(
            crate::paths::path_parts(base),
            crate::paths::path_parts(entries[i].0),
            crate::paths::path_parts(entries[j].0),
        );
    }
}

/// Plain paths can be put below a plain directory, and that below another: the paths stay plain
/// and in order, and the two directories can as well be put before them at once.
pub proof fn law_prefixes_compose(entries: FileEntries, inner: Seq<char>, outer: Seq<char>)
    requires
        crate::paths::paths_ascending(entries),
        plain_entries(entries),
        crate::paths::plain_path(inner),
        crate::paths::plain_path(outer),
    ensures
        crate::paths::paths_ascending(prefixed_entries(entries, inner)),
        plain_entries(prefixed_entries(entries, inner)),
        crate::paths::plain_path(crate::paths::joined_path(outer, inner)),
        prefixed_entries(prefixed_entries(entries, inner), outer) == prefixed_entries(
            entries,
            crate::paths::joined_path(outer, inner),
        ),
{
    lemma_prefixed_addable(entries, inner);
    crate::paths::law_joined_is_plain(outer, inner);
    let twice = prefixed_entries(prefixed_entries(entries, inner), outer);
    let once = prefixed_entries(entries, crate::paths::joined_path(outer, inner));
    assert forall|i: int| 0 <= i < entries.len() implies twice[i] == once[i] by {
        assert(crate::paths::plain_path(entries[i].0));
        crate::paths::law_joining_twice(outer, inner, entries[i].0);
    }
    assert(twice =~= once);
}

/// The entries, each under `path`.
pub open spec fn rekeyed_entries(entries: FileEntries, path: Seq<char>) -> FileEntries {
    entries.map_values(|entry: (Seq<char>, GeneratedFile)| (path, entry.1))
}

/// Generated files with the origins that decided their paths.
#[derive(Debug, Clone)]
pub struct GeneratedFileMap {
    files: PathMap<GeneratedFile>,
}

impl View for GeneratedFileMap {
    type V = FileEntries;

    closed spec fn view(&self) -> FileEntries {
        self.files@
    }
}

/// Whether the path holds a `..`.
fn has_parent_part(path: &str) -> (found: bool)
    ensures
        found == crate::paths::path_parts(path@).contains(PartView::Parent),
{
    let parts = parts_of_path(path);
    let mut i: usize = 0;
    while i < parts.len()
        invariant
            i <= parts.len(),
            crate::paths::part_views(parts@) == crate::paths::path_parts(path@),
            forall|j: int| 0 <= j < i ==> crate::paths::path_parts(path@)[j] != PartView::Parent,
        decreases parts.len() - i,
    {
        assert(crate::paths::path_parts(path@)[i as int] == parts@[i as int]@);
        match &parts[i] {
            PathPart::Parent => {
                return true;
            },
            _ => {},
        }
        i += 1;
    }
    false
}

impl GeneratedFileMap {
    /// The paths are distinct, in order, and stay inside the output directory.
    pub open spec fn wf(&self) -> bool {
        &&& crate::paths::paths_ascending(self@)
        &&& forall|i: int| 0 <= i < self@.len() ==> stays_inside(#[trigger] self@[i].0)
    }

    /// The map without files.
    pub fn new() -> (map: Self)
        ensures
            map.wf(),
            map@ == FileEntries::empty(),
    {
        GeneratedFileMap { files: PathMap::new() }
    }

    /// Whether a file stands under the path.
    pub fn contains(&self, path: &str) -> (found: bool)
        ensures
            found == crate::paths::has_path(self@, crate::paths::path_parts(path@)),
    {
        self.files.position(path).is_some()
    }

    /// Adds a file. A path that is absolute or holds a `..`, and a path that is taken, is
    /// refused, and the map stays as it was.
    pub fn insert(
        &mut self,
        path: &str,
        contents: String,
        origin: GeneratedFileOrigin,
    ) -> (result: Result<(), Error>)
        requires
            old(self).wf(),
        ensures
            final(self).wf(),
            match insert_error(old(self)@, path@, origin) {
                Some(error) => result matches Err(e) && e@ == error && final(self)@ == old(self)@,
                None => result is Ok && entry_added(
                    old(self)@,
                    final(self)@,
                    path@,
                    GeneratedFile { contents, origin },
                ),
            },
    {
        if path_is_absolute(path) || has_parent_part(path) {
            return Err(
                Error::InvalidGeneratedPath {
                    path: path.to_owned(),
                    reason: "generated file paths must be relative and stay within the output directory".to_owned(),
                },
            );
        }
        if let Some(index) = self.files.position(path) {
            let first = &self.files.value_at(index).origin;
            proof {
                let k = entry_index(self@, crate::paths::path_parts(path@));
                if k < index {
                    crate::paths::lemma_path_before_total(
                        crate::paths::path_parts(self@[k].0),
                        crate::paths::path_parts(self@[index as int].0),
                    );
                } else if index < k {
                    crate::paths::lemma_path_before_total(
                        crate::paths::path_parts(self@[index as int].0),
                        crate::paths::path_parts(self@[k].0),
                    );
                }
                assert(k == index);
            }
            let first_source = first.description();
            let second_source = origin.description();
            let remedy = match (first.path_changing_action(), origin.path_changing_action()) {
                (Some(one), Some(other)) => one.concat("; or ").concat(other.as_str()),
                (Some(one), None) => one,
                (None, Some(other)) => other,
                (None, None) => "this is an internal generator defect: fixed artifacts ".to_owned()
                    .concat(first_source.as_str()).concat(" and ").concat(second_source.as_str())
                    .concat(" produce the same path"),
            };
            return Err(
                Error::GeneratedFileSourceConflict {
                    path: path.to_owned(),
                    first_source,
                    second_source,
                    remedy,
                },
            );
        }
        let ghost before = self@;
        let file = GeneratedFile { contents, origin };
        let at = self.files.insert_new(path.to_owned(), file);
        proof {
            assert(self@ == before.insert(at@, (path@, file)));
            assert(file == GeneratedFile { contents, origin });
            assert forall|i: int| 0 <= i < self@.len() implies stays_inside(
                #[trigger] self@[i].0,
            ) by {
                if i < at@ {
                    assert(self@[i] == before[i]);
                } else if i > at@ {
                    assert(self@[i] == before[i - 1]);
                }
            }
        }
        Ok(())
    }

    /// Adds one item of a run of items, after those before it were added.
    fn insert_next(
        &mut self,
        path: &str,
        contents: &String,
        origin: &GeneratedFileOrigin,
        Ghost(before): Ghost<FileEntries>,
        Ghost(items): Ghost<FileEntries>,
        index: usize,
    ) -> (result: Result<(), Error>)
        requires
            old(self).wf(),
            index < items.len(),
            items[index as int] == (path@, GeneratedFile { contents: *contents, origin: *origin }),
            entries_added(before, old(self)@, items.take(index as int)),
        ensures
            final(self).wf(),
            match result {
                Ok(_) => entries_added(before, final(self)@, items.take(index + 1)),
                Err(error) => entries_added(before, final(self)@, items.take(index as int))
                    && insert_error(final(self)@, items[index as int].0, *origin) == Some(error@),
            },
    {
        let ghost middle = self@;
        let result = self.insert(path, contents.clone(), origin.copied());
        proof {
            let run = items.take(index + 1);
            assert(run.drop_last() =~= items.take(index as int));
            assert(run.last() == items[index as int]);
            if result is Ok {
                assert(entries_added(before, middle, run.drop_last()));
                assert(entry_added(middle, self@, run.last().0, run.last().1));
            }
        }
        result
    }

    /// Adds all the files under the one origin, in the order of their paths, up to the first
    /// that is refused.
    pub fn insert_multi(&mut self, files: PathMap<String>, origin: GeneratedFileOrigin) -> (result:
        Result<(), Error>)
        requires
            old(self).wf(),
        ensures
            final(self).wf(),
            insertion_outcome(old(self)@, final(self)@, with_origin(files@, origin), result),
    {
        let ghost before = self@;
        let ghost items = with_origin(files@, origin);
        let mut i: usize = 0;
        assert(items.take(0) =~= FileEntries::empty());
        while i < files.len()
            invariant
                i <= files@.len(),
                self.wf(),
                items == with_origin(files@, origin),
                before == old(self)@,
                entries_added(before, self@, items.take(i as int)),
            decreases files@.len() - i,
        {
            match self.insert_next(
                files.path_at(i).as_str(),
                files.value_at(i),
                &origin,
                Ghost(before),
                Ghost(items),
                i,
            ) {
                Ok(_) => {},
                Err(error) => {
                    return Err(error);
                },
            }
            i += 1;
        }
        assert(items.take(i as int) =~= items);
        Ok(())
    }

    /// Adds all the files of `other`, in the order of their paths, up to the first that is
    /// refused.
    pub fn extend(&mut self, other: GeneratedFileMap) -> (result: Result<(), Error>)
        requires
            old(self).wf(),
        ensures
            final(self).wf(),
            insertion_outcome(old(self)@, final(self)@, other@, result),
    {
        let ghost before = self@;
        let ghost items = other@;
        let mut i: usize = 0;
        assert(items.take(0) =~= FileEntries::empty());
        while i < other.files.len()
            invariant
                i <= other.files@.len(),
                self.wf(),
                items == other@,
                items == other.files@,
                before == old(self)@,
                entries_added(before, self@, items.take(i as int)),
            decreases other.files@.len() - i,
        {
            let file = other.files.value_at(i);
            match self.insert_next(
                other.files.path_at(i).as_str(),
                &file.contents,
                &file.origin,
                Ghost(before),
                Ghost(items),
                i,
            ) {
                Ok(_) => {},
                Err(error) => {
                    return Err(error);
                },
            }
            i += 1;
        }
        assert(items.take(i as int) =~= items);
        Ok(())
    }

    /// The files with `base` before each path. Plain paths and a plain base are never refused.
    pub fn prefix(self, base: &str) -> (result: Result<GeneratedFileMap, Error>)
        requires
            self.wf(),
        ensures
            match result {
                Ok(map) => map.wf() && entries_added(
                    FileEntries::empty(),
                    map@,
                    prefixed_entries(self@, base@),
                ),
                Err(error) => exists|k: int, middle: FileEntries|
                    0 <= k < self@.len() && #[trigger] entries_added(
                        FileEntries::empty(),
                        middle,
                        prefixed_entries(self@, base@).take(k),
                    ) && insert_error(
                        middle,
                        crate::paths::joined_path(base@, self@[k].0),
                        self@[k].1.origin,
                    ) == Some(error@),
            },
            crate::paths::plain_path(base@) && plain_entries(self@) ==> (result matches Ok(map)
                && map@ == prefixed_entries(self@, base@)),
    {
        let mut map = GeneratedFileMap::new();
        let ghost items = prefixed_entries(self@, base@);
        let ghost plain = crate::paths::plain_path(base@) && plain_entries(self@);
        proof {
            if plain {
                lemma_prefixed_addable(self@, base@);
            }
        }
        let mut i: usize = 0;
        assert(items.take(0) =~= FileEntries::empty());
        while i < self.files.len()
            invariant
                i <= self.files@.len(),
                map.wf(),
                self.files@ == self@,
                items == prefixed_entries(self@, base@),
                plain == (crate::paths::plain_path(base@) && plain_entries(self@)),
                plain ==> addable(items),
                entries_added(FileEntries::empty(), map@, items.take(i as int)),
            decreases self.files@.len() - i,
        {
            let file = self.files.value_at(i);
            let path = join_path(base, self.files.path_at(i).as_str());
            match map.insert_next(
                path.as_str(),
                &file.contents,
                &file.origin,
                Ghost(FileEntries::empty()),
                Ghost(items),
                i,
            ) {
                Ok(_) => {},
                Err(error) => {
                    proof {
                        if plain {
                            assert(addable(items.take(i as int)));
                            lemma_addable_items(map@, items.take(i as int));
                            lemma_addable_next(items, i as int, file.origin);
                        }
                    }
                    return Err(error);
                },
            }
            i += 1;
        }
        assert(items.take(i as int) =~= items);
        proof {
            if plain {
                lemma_addable_items(map@, items);
            }
        }
        Ok(map)
    }

    /// The files, each under `path`: two files or more collide.
    pub fn rekey_all(self, path: &str) -> (result: Result<GeneratedFileMap, Error>)
        requires
            self.wf(),
        ensures
            match result {
                Ok(map) => map.wf() && entries_added(
                    FileEntries::empty(),
                    map@,
                    rekeyed_entries(self@, path@),
                ),
                Err(error) => exists|k: int, middle: FileEntries|
                    0 <= k < self@.len() && #[trigger] entries_added(
                        FileEntries::empty(),
                        middle,
                        rekeyed_entries(self@, path@).take(k),
                    ) && insert_error(middle, path@, self@[k].1.origin) == Some(error@),
            },
    {
        let mut map = GeneratedFileMap::new();
        let ghost items = rekeyed_entries(self@, path@);
        let mut i: usize = 0;
        assert(items.take(0) =~= FileEntries::empty());
        while i < self.files.len()
            invariant
                i <= self.files@.len(),
                map.wf(),
                self.files@ == self@,
                items == rekeyed_entries(self@, path@),
                entries_added(FileEntries::empty(), map@, items.take(i as int)),
            decreases self.files@.len() - i,
        {
            let file = self.files.value_at(i);
            match map.insert_next(
                path,
                &file.contents,
                &file.origin,
                Ghost(FileEntries::empty()),
                Ghost(items),
                i,
            ) {
                Ok(_) => {},
                Err(error) => {
                    return Err(error);
                },
            }
            i += 1;
        }
        assert(items.take(i as int) =~= items);
        Ok(map)
    }

    /// The contents of the file under the path, to be changed in place.
    pub fn contents_mut(&mut self, path: &str) -> (contents: Option<&mut String>)
        requires
            old(self).wf(),
        ensures
            match contents {
                Some(slot) => exists|i: int|
                    {
                        &&& 0 <= i < old(self)@.len()
                        &&& crate::paths::path_parts(
                            (#[trigger] old(self)@[i]).0,
                        ) == crate::paths::path_parts(path@)
                        &&& *slot == old(self)@[i].1.contents
                        &&& final(self)@ == old(self)@.update(
                            i,
                            (
                                old(self)@[i].0,
                                GeneratedFile {
                                    contents: *final(slot),
                                    origin: old(self)@[i].1.origin,
                                },
                            ),
                        )
                    },
                None => !crate::paths::has_path(
                    old(self)@,
                    crate::paths::path_parts(path@),
                ) && final(self)@ == old(self)@,
            },
    {
        match self.files.position(path) {
            Some(index) => {
                let file = self.files.value_at_mut(index);
                Some(&mut file.contents)
            },
            None => None,
        }
    }

    /// The contents of the files under their paths.
    pub fn into_files(self) -> (files: PathMap<String>)
        requires
            self.wf(),
        ensures
            files.wf(),
            files@.len() == self@.len(),
            forall|i: int|
                0 <= i < self@.len() ==> (#[trigger] files@[i]).0 == self@[i].0 && files@[i].1
                    == self@[i].1.contents,
    {
        let mut files: PathMap<String> = PathMap::new();
        let mut i: usize = 0;
        while i < self.files.len()
            invariant
                i <= self@.len(),
                self.wf(),
                self.files@ == self@,
                files.wf(),
                files@.len() == i,
                forall|j: int|
                    0 <= j < i ==> (#[trigger] files@[j]).0 == self@[j].0 && files@[j].1
                        == self@[j].1.contents,
            decreases self@.len() - i,
        {
            let path = self.files.path_at(i).clone();
            let contents = self.files.value_at(i).contents.clone();
            let ghost before = files@;
            proof {
                assert forall|j: int| 0 <= j < before.len() implies crate::paths::path_parts(
                    #[trigger] before[j].0,
                ) != crate::paths::path_parts(path@) by {
                    crate::paths::lemma_path_before_total(
                        crate::paths::path_parts(self@[j].0),
                        crate::paths::path_parts(self@[i as int].0),
                    );
                }
            }
            let at = files.insert_new(path, contents);
            proof {
                if at@ < before.len() {
                    assert(files@[at@ + 1] == before[at@]);
                    assert(before[at@].0 == self@[at@].0);
                    crate::paths::lemma_path_before_total(
                        crate::paths::path_parts(self@[at@].0),
                        crate::paths::path_parts(self@[i as int].0),
                    );
                    assert(path_before_holds(files@, at@));
                }
                assert(at@ == before.len());
                assert(files@ =~= before.push((path@, contents)));
            }
            i += 1;
        }
        files
    }
}

spec fn path_before_holds(files: Seq<(Seq<char>, String)>, at: int) -> bool {
    crate::paths::path_before(
        crate::paths::path_parts(files[at].0),
        crate::paths::path_parts(files[at + 1].0),
    )
}

/// Adding a file keeps every file that was there, adds just the one, and leaves none twice.
pub proof fn law_insert_keeps(
    before: FileEntries,
    after: FileEntries,
    path: Seq<char>,
    file: GeneratedFile,
)
    requires
        entry_added(before, after, path, file),
    ensures
        after.len() == before.len() + 1,
        after.contains((path, file)),
        forall|i: int| 0 <= i < before.len() ==> after.contains(#[trigger] before[i]),
        forall|i: int|
            0 <= i < after.len()
                ==> #[trigger] after[i] == (path, file) || before.contains(after[i]),
{
    let at = choose|at: int|
        0 <= at <= before.len() && after == #[trigger] before.insert(at, (path, file));
    assert(after[at] == (path, file));
    assert forall|i: int| 0 <= i < before.len() implies after.contains(#[trigger] before[i]) by {
        if i < at {
            assert(after[i] == before[i]);
        } else {
            assert(after[i + 1] == before[i]);
        }
    }
    assert forall|i: int| 0 <= i < after.len() implies #[trigger] after[i] == (path, file)
        || before.contains(after[i]) by {
        if i < at {
            assert(after[i] == before[i]);
        } else if i > at {
            assert(after[i] == before[i - 1]);
        }
    }
}

/// Adding a run of files keeps every file that was there and loses none of the run: no file is
/// renamed or dropped to make room.
pub proof fn law_run_keeps(before: FileEntries, after: FileEntries, items: FileEntries)
    requires
        entries_added(before, after, items),
    ensures
        after.len() == before.len() + items.len(),
        forall|i: int| 0 <= i < before.len() ==> after.contains(#[trigger] before[i]),
        forall|i: int| 0 <= i < items.len() ==> after.contains(#[trigger] items[i]),
    decreases items.len(),
{
    if items.len() > 0 {
        let middle = choose|middle: FileEntries|
            entries_added(before, middle, items.drop_last()) && insert_error(
                middle,
                items.last().0,
                items.last().1.origin,
            ) is None && #[trigger] entry_added(middle, after, items.last().0, items.last().1);
        law_run_keeps(before, middle, items.drop_last());
        law_insert_keeps(middle, after, items.last().0, items.last().1);
        assert forall|i: int| 0 <= i < before.len() implies after.contains(
            #[trigger] before[i],
        ) by {
            let j = choose|j: int| 0 <= j < middle.len() && middle[j] == before[i];
            assert(middle[j] == before[i]);
        }
        assert forall|i: int| 0 <= i < items.len() implies after.contains(#[trigger] items[i]) by {
            if i < items.len() - 1 {
                assert(items.drop_last()[i] == items[i]);
                let j = choose|j: int| 0 <= j < middle.len() && middle[j] == items[i];
                assert(middle[j] == items[i]);
            }
        }
    } else {
        assert forall|i: int| 0 <= i < before.len() implies after.contains(
            #[trigger] before[i],
        ) by {
            assert(after[i] == before[i]);
        }
    }
}

/// Two files or more can never be put under one path: the second one collides.
pub proof fn law_rekey_collides(entries: FileEntries, path: Seq<char>, after: FileEntries)
    requires
        entries.len() >= 2,
    ensures
        !entries_added(FileEntries::empty(), after, rekeyed_entries(entries, path)),
{
    let items = rekeyed_entries(entries, path);
    if entries_added(FileEntries::empty(), after, items) {
        let middle = choose|middle: FileEntries|
            entries_added(FileEntries::empty(), middle, items.drop_last()) && insert_error(
                middle,
                items.last().0,
                items.last().1.origin,
            ) is None && #[trigger] entry_added(middle, after, items.last().0, items.last().1);
        law_run_keeps(FileEntries::empty(), middle, items.drop_last());
        assert(middle.contains(items.drop_last()[0]));
        let j = choose|j: int| 0 <= j < middle.len() && middle[j] == items.drop_last()[0];
        assert(crate::paths::path_parts(middle[j].0) == crate::paths::path_parts(path));
        assert(crate::paths::has_path(middle, crate::paths::path_parts(path)));
        assert(false);
    }
}

/// Entries in ascending order are determined by what they are: two ascending lists with the
/// same entries are the same list.
pub proof fn lemma_ascending_unique(left: FileEntries, right: FileEntries)
    requires
        crate::paths::paths_ascending(left),
        crate::paths::paths_ascending(right),
        left.len() == right.len(),
        forall|i: int| 0 <= i < left.len() ==> right.contains(#[trigger] left[i]),
        forall|i: int| 0 <= i < right.len() ==> left.contains(#[trigger] right[i]),
    ensures
        left == right,
    decreases left.len(),
{
    if left.len() == 0 {
        assert(left =~= right);
    } else {
        let n = left.len() - 1;
        let a = left[n];
        let b = right[n];
        let i = choose|i: int| 0 <= i < right.len() && right[i] == a;
        let j = choose|j: int| 0 <= j < left.len() && left[j] == b;
        assert(right.contains(left[n]));
        assert(left.contains(right[n]));
        if i < n && j < n {
            crate::paths::lemma_path_before_total(
                crate::paths::path_parts(a.0),
                crate::paths::path_parts(b.0),
            );
            assert(
                crate::paths::path_before(
                    crate::paths::path_parts(right[i].0),
                    crate::paths::path_parts(right[n].0),
                )
            );
            assert(
                crate::paths::path_before(
                    crate::paths::path_parts(left[j].0),
                    crate::paths::path_parts(left[n].0),
                )
            );
        }
        assert(a == b);
        let l = left.drop_last();
        let r = right.drop_last();
        assert forall|k: int| 0 <= k < l.len() implies r.contains(#[trigger] l[k]) by {
            assert(right.contains(left[k]));
            let m = choose|m: int| 0 <= m < right.len() && right[m] == left[k];
            if m == n {
                crate::paths::lemma_path_before_total(
                    crate::paths::path_parts(left[k].0),
                    crate::paths::path_parts(left[n].0),
                );
            }
            assert(r[m] == l[k]);
        }
        assert forall|k: int| 0 <= k < r.len() implies l.contains(#[trigger] r[k]) by {
            assert(left.contains(right[k]));
            let m = choose|m: int| 0 <= m < left.len() && left[m] == right[k];
            if m == n {
                crate::paths::lemma_path_before_total(
                    crate::paths::path_parts(right[k].0),
                    crate::paths::path_parts(right[n].0),
                );
            }
            assert(l[m] == r[k]);
        }
        lemma_ascending_unique(l, r);
        assert(left =~= l.push(a));
        assert(right =~= r.push(b));
    }
}

/// The order in which two files are added does not matter: the map holds them in the order of
/// their paths either way.
pub proof fn law_insert_order_is_immaterial(
    before: FileEntries,
    one: FileEntries,
    one_other: FileEntries,
    other: FileEntries,
    other_one: FileEntries,
    path: Seq<char>,
    file: GeneratedFile,
    other_path: Seq<char>,
    other_file: GeneratedFile,
)
    requires
        entry_added(before, one, path, file),
        entry_added(one, one_other, other_path, other_file),
        entry_added(before, other, other_path, other_file),
        entry_added(other, other_one, path, file),
    ensures
        one_other == other_one,
{
    law_insert_keeps(before, one, path, file);
    law_insert_keeps(one, one_other, other_path, other_file);
    law_insert_keeps(before, other, other_path, other_file);
    law_insert_keeps(other, other_one, path, file);
    assert forall|i: int| 0 <= i < one_other.len() implies other_one.contains(
        #[trigger] one_other[i],
    ) by {
        let entry = one_other[i];
        lemma_reaches(
            before,
            other,
            other_one,
            one,
            one_other,
            entry,
            path,
            file,
            other_path,
            other_file,
        );
    }
    assert forall|i: int| 0 <= i < other_one.len() implies one_other.contains(
        #[trigger] other_one[i],
    ) by {
        let entry = other_one[i];
        lemma_reaches(
            before,
            one,
            one_other,
            other,
            other_one,
            entry,
            other_path,
            other_file,
            path,
            file,
        );
    }
    lemma_ascending_unique(one_other, other_one);
}

proof fn lemma_reaches(
    before: FileEntries,
    through: FileEntries,
    end: FileEntries,
    from: FileEntries,
    source: FileEntries,
    entry: (Seq<char>, GeneratedFile),
    path: Seq<char>,
    file: GeneratedFile,
    other_path: Seq<char>,
    other_file: GeneratedFile,
)
    requires
        source.contains(entry),
        forall|i: int|
            0 <= i < source.len() ==> #[trigger] source[i] == (other_path, other_file)
                || from.contains(source[i]),
        forall|i: int|
            0 <= i < from.len() ==> #[trigger] from[i] == (path, file) || before.contains(from[i]),
        forall|i: int| 0 <= i < before.len() ==> through.contains(#[trigger] before[i]),
        through.contains((other_path, other_file)),
        forall|i: int| 0 <= i < through.len() ==> end.contains(#[trigger] through[i]),
        end.contains((path, file)),
    ensures
        end.contains(entry),
{
    let i = choose|i: int| 0 <= i < source.len() && source[i] == entry;
    if entry == (other_path, other_file) {
        let k = choose|k: int| 0 <= k < through.len() && through[k] == entry;
        assert(end.contains(through[k]));
    } else {
        assert(from.contains(source[i]));
        let j = choose|j: int| 0 <= j < from.len() && from[j] == entry;
        if entry != (path, file) {
            assert(before.contains(from[j]));
            let m = choose|m: int| 0 <= m < before.len() && before[m] == entry;
            assert(through.contains(before[m]));
            let k = choose|k: int| 0 <= k < through.len() && through[k] == entry;
            assert(end.contains(through[k]));
        }
    }
}

} // verus!
