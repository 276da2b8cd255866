//! The support files that WIT packages name.

use vstd::prelude::*;

use crate::error::{Error, ErrorView};
use crate::language::Language;
use crate::output::{LanguageFragments, SupportFragmentSpec, SupportSpec};
use crate::paths::{join_path, place_paths, Placement};
use crate::text::{replace_char, text_eq};
use crate::wit::directive::{parse_directives, wit_error};
use crate::wit::document::{WitDocument, WitName, WitPackage};
use crate::wit::strings::directive_value_for_language;
use crate::wit::workspace::parent_or_here;

verus! {

/// The directory that a package comes from.
#[derive(Debug)]
pub struct PackageOrigin {
    pub package: usize,
    pub path: String,
}

/// A [`PackageOrigin`] by its texts.
#[verifier::ext_equal]
pub struct PackageOriginView {
    pub package: usize,
    pub path: Seq<char>,
}

impl View for PackageOrigin {
    type V = PackageOriginView;

    open spec fn view(&self) -> PackageOriginView {
        PackageOriginView {
            package: self.package,
            path: self.path@,
        }
    }
}

/// The texts of a list of [`PackageOrigin`].
pub open spec fn package_origin_views(items: Seq<PackageOrigin>) -> Seq<PackageOriginView> {
    items.map_values(|item: PackageOrigin| item@)
}

/// The files that a package comes from.
#[derive(Debug)]
pub struct PackageFiles {
    pub package: usize,
    pub paths: Vec<String>,
}

/// A [`PackageFiles`] by its texts.
#[verifier::ext_equal]
pub struct PackageFilesView {
    pub package: usize,
    pub paths: Seq<Seq<char>>,
}

impl View for PackageFiles {
    type V = PackageFilesView;

    open spec fn view(&self) -> PackageFilesView {
        PackageFilesView {
            package: self.package,
            paths: crate::text::texts(self.paths@),
        }
    }
}

/// The texts of a list of [`PackageFiles`].
pub open spec fn package_files_views(items: Seq<PackageFiles>) -> Seq<PackageFilesView> {
    items.map_values(|item: PackageFiles| item@)
}

/// A support file that is to be read.
#[derive(Debug)]
pub struct PlannedFragment {
    pub language: Language,
    /// Where the file is read from.
    pub source: String,
    /// The path with `/` between its parts.
    pub path: String,
    pub namespace: Option<String>,
}

/// A [`PlannedFragment`] by its texts.
#[verifier::ext_equal]
pub struct PlannedFragmentView {
    pub language: Language,
    pub source: Seq<char>,
    pub path: Seq<char>,
    pub namespace: Option<Seq<char>>,
}

impl View for PlannedFragment {
    type V = PlannedFragmentView;

    open spec fn view(&self) -> PlannedFragmentView {
        PlannedFragmentView {
            language: self.language,
            source: self.source@,
            path: self.path@,
            namespace: crate::text::opt_text(self.namespace),
        }
    }
}

/// The texts of a list of [`PlannedFragment`].
pub open spec fn planned_fragment_views(items: Seq<PlannedFragment>) -> Seq<PlannedFragmentView> {
    items.map_values(|item: PlannedFragment| item@)
}

/// The support files that are to be read in their order, and what keeps others from being found.
#[derive(Debug)]
pub struct SupportPlan {
    pub fragments: Vec<PlannedFragment>,
    pub failure: Option<Error>,
}

/// A [`SupportPlan`] by its texts.
#[verifier::ext_equal]
pub struct SupportPlanView {
    pub fragments: Seq<PlannedFragmentView>,
    pub failure: Option<ErrorView>,
}

impl View for SupportPlan {
    type V = SupportPlanView;

    open spec fn view(&self) -> SupportPlanView {
        SupportPlanView {
            fragments: planned_fragment_views(self.fragments@),
            failure: match self.failure {
                Some(error) => Some(error@),
                None => None,
            },
        }
    }
}

/// Whether a file is among those that are to be read for a language.
pub open spec fn has_fragment(
    fragments: Seq<PlannedFragmentView>,
    language: Language,
    path: Seq<char>,
) -> bool {
    exists|i: int|
        0 <= i < fragments.len() && (#[trigger] fragments[i]).language == language
        && fragments[i].path == path
}

/// Whether a file is among those that are to be read for a language.
fn plans_fragment(fragments: &Vec<PlannedFragment>, language: Language, path: &str) -> (found: bool)
    ensures
        found == has_fragment(planned_fragment_views(fragments@), language, path@),
{
    let ghost views = planned_fragment_views(fragments@);
    let mut i: usize = 0;
    while i < fragments.len()
        invariant
            i <= fragments.len(),
            views == planned_fragment_views(fragments@),
            forall|k: int|
                0 <= k < i ==> !((#[trigger] views[k]).language == language && views[k].path
                    == path@),
        decreases fragments.len() - i,
    {
        assert(views[i as int] == fragments@[i as int]@);
        if fragments[i].language == language && text_eq(fragments[i].path.as_str(), path) {
            return true;
        }
        i += 1;
    }
    false
}

/// The path of a support file: beside where its package comes from, unless it is absolute.
pub open spec fn support_file_path(base_dir: Seq<char>, support_path: Seq<char>) -> Seq<char> {
    crate::paths::joined_path(base_dir, support_path)
}

/// The path of a support file: beside where its package comes from, unless it is absolute.
pub fn resolve_support_path(base_dir: &str, support_path: &str) -> (result: String)
    ensures
        result@ == support_file_path(base_dir@, support_path@),
{
    join_path(base_dir, support_path)
}

/// The plan with a failure.
pub open spec fn failed_plan_view(plan: SupportPlanView, error: ErrorView) -> SupportPlanView {
    SupportPlanView { failure: Some(error), ..plan }
}

/// The plan with a failure.
pub fn failed_plan(plan: SupportPlan, error: Error) -> (result: SupportPlan)
    ensures
        result@ == failed_plan_view(plan@, error@),
{
    SupportPlan { failure: Some(error), ..plan }
}

/// The plan with one more file, unless the language has it already.
pub open spec fn planned_file(
    plan: SupportPlanView,
    language: Language,
    origin: Seq<char>,
    relative: Seq<char>,
    namespace: Option<Seq<char>>,
) -> SupportPlanView {
    let source = support_file_path(origin, relative);
    let path = crate::text::replaced_char(source, '\\', "/"@);
    if has_fragment(plan.fragments, language, path) {
        plan
    } else {
        let fragment = PlannedFragmentView { language, source, path, namespace };
        SupportPlanView { fragments: plan.fragments.push(fragment), ..plan }
    }
}

/// The plan with one more file, unless the language has it already.
pub fn plan_file(
    plan: SupportPlan,
    language: Language,
    origin: &str,
    relative: &str,
    namespace: Option<String>,
) -> (result: SupportPlan)
    ensures
        result@ == planned_file(
            plan@,
            language,
            origin@,
            relative@,
            crate::text::opt_text(namespace),
        ),
{
    let source = resolve_support_path(origin, relative);
    let path = replace_char(source.as_str(), '\\', "/");
    if plans_fragment(&plan.fragments, language, path.as_str()) {
        plan
    } else {
        let fragment = PlannedFragment { language, source, path, namespace };
        with_fragment(plan, fragment)
    }
}

/// The plan with one more file.
fn with_fragment(plan: SupportPlan, fragment: PlannedFragment) -> (result: SupportPlan)
    ensures
        result@ == (SupportPlanView { fragments: plan@.fragments.push(fragment@), ..plan@ }),
{
    let ghost before = plan.fragments@;
    let mut fragments = plan.fragments;
    fragments.push(fragment);
    assert(planned_fragment_views(fragments@) =~= planned_fragment_views(before).push(fragment@));
    SupportPlan { fragments, failure: plan.failure }
}

/// The file and the namespace that a documentation names for a language.
pub open spec fn support_in_docs(
    docs: Option<Seq<char>>,
    language: Language,
    origin: Seq<char>,
    context: Seq<char>,
) -> Result<Option<(Seq<char>, Option<Seq<char>>)>, ErrorView> {
    let directives_outcome = crate::wit::directive::directives_outcome(docs, origin, context);
    let directives = directives_outcome->Ok_0;
    let relative_outcome = crate::wit::strings::directive_text_for_language(
        directives,
        "support"@,
        origin,
        context,
        language,
    );
    let relative = relative_outcome->Ok_0;
    if directives_outcome is Err {
        Err(directives_outcome->Err_0)
    } else if relative_outcome is Err {
        Err(relative_outcome->Err_0)
    } else {
        match relative {
            None => Ok(None),
            Some(relative) => {
                let namespace_outcome = crate::wit::strings::directive_text_for_language(
                    directives,
                    "support-namespace"@,
                    origin,
                    context,
                    language,
                );
                let namespace = namespace_outcome->Ok_0;
                if namespace_outcome is Err {
                    Err(namespace_outcome->Err_0)
                } else {
                    Ok(Some((relative, namespace)))
                }
            },
        }
    }
}

/// The file and the namespace that a documentation names for a language.
pub fn support_of_docs(
    docs: &Option<String>,
    language: Language,
    origin: &str,
    context: &str,
) -> (result: Result<Option<(String, Option<String>)>, Error>)
    ensures
        named_support(result) == support_in_docs(
            crate::text::opt_text(*docs),
            language,
            origin@,
            context@,
        ),
{
    let directives = match parse_directives(docs, origin, context) {
        Ok(value) => value,
        Err(error) => return Err(error),
    };
    let relative = match directive_value_for_language(
        &directives,
        "support",
        origin,
        context,
        language,
    ) {
        Ok(value) => value,
        Err(error) => return Err(error),
    };
    match relative {
        None => Ok(None),
        Some(relative) => {
            let namespace = match directive_value_for_language(
                &directives,
                "support-namespace",
                origin,
                context,
                language,
            ) {
                Ok(value) => value,
                Err(error) => return Err(error),
            };
            Ok(Some((relative, namespace)))
        },
    }
}

/// A file and a namespace that may be named, or an error, by their texts.
pub open spec fn named_support(result: Result<Option<(String, Option<String>)>, Error>) -> Result<
    Option<(Seq<char>, Option<Seq<char>>)>,
    ErrorView,
> {
    match result {
        Ok(Some((path, namespace))) => Ok(Some((path@, crate::text::opt_text(namespace)))),
        Ok(None) => Ok(None),
        Err(error) => Err(error@),
    }
}

/// The plan with the file that a documentation names for a language.
pub open spec fn planned_docs(
    plan: SupportPlanView,
    docs: Option<Seq<char>>,
    language: Language,
    origin: Seq<char>,
    context: Seq<char>,
) -> SupportPlanView {
    if plan.failure.is_some() {
        plan
    } else {
        match support_in_docs(docs, language, origin, context) {
            Err(error) => failed_plan_view(plan, error),
            Ok(None) => plan,
            Ok(Some((relative, namespace))) => planned_file(
                plan,
                language,
                origin,
                relative,
                namespace,
            ),
        }
    }
}

/// The plan with the file that a documentation names for a language.
pub fn collect_support_fragment_from_docs(
    plan: SupportPlan,
    docs: &Option<String>,
    language: Language,
    origin: &str,
    context: &str,
) -> (result: SupportPlan)
    ensures
        result@ == planned_docs(plan@, crate::text::opt_text(*docs), language, origin@, context@),
{
    if plan.failure.is_some() {
        plan
    } else {
        match support_of_docs(docs, language, origin, context) {
            Err(error) => failed_plan(plan, error),
            Ok(None) => plan,
            Ok(Some((relative, namespace))) => plan_file(
                plan,
                language,
                origin,
                relative.as_str(),
                namespace,
            ),
        }
    }
}

/// A package by its names and its version.
pub open spec fn package_label_text(package: WitPackage) -> Seq<char> {
    match package.version {
        Some(version) => package.namespace@ + ":"@ + package.name@ + "@"@ + version@,
        None => package.namespace@ + ":"@ + package.name@,
    }
}

/// A package by its names and its version.
pub fn package_label(package: &WitPackage) -> (result: String)
    ensures
        result@ == package_label_text(*package),
{
    match &package.version {
        Some(version) => package.namespace.clone().concat(":").concat(package.name.as_str())
            .concat("@").concat(version.as_str()),
        None => package.namespace.clone().concat(":").concat(package.name.as_str()),
    }
}

/// The plan with the files that the documentations of worlds name for a language.
pub open spec fn planned_worlds(
    plan: SupportPlanView,
    worlds: Seq<WitName>,
    doc: WitDocument,
    language: Language,
    origin: Seq<char>,
    label: Seq<char>,
) -> SupportPlanView
    decreases worlds.len(),
{
    if worlds.len() == 0 {
        plan
    } else {
        let world = worlds.last();
        let plan = planned_worlds(plan, worlds.drop_last(), doc, language, origin, label);
        planned_docs(
            plan,
            crate::text::opt_text(doc.worlds@[world.id as int].docs),
            language,
            origin,
            ("package `"@ + label + "` world `"@ + world.name@ + "`"@),
        )
    }
}

/// The plan with the files that the documentations of worlds name for a language.
pub fn collect_world_fragments(
    plan: SupportPlan,
    worlds: &Vec<WitName>,
    doc: &WitDocument,
    language: Language,
    origin: &str,
    label: &str,
) -> (result: SupportPlan)
    requires
        crate::wit::declare::names_below(worlds@, doc.worlds@.len() as int),
    ensures
        result@ == planned_worlds(plan@, worlds@, *doc, language, origin@, label@),
{
    let mut current = plan;
    let mut i: usize = 0;
    while i < worlds.len()
        invariant
            i <= worlds.len(),
            crate::wit::declare::names_below(worlds@, doc.worlds@.len() as int),
            planned_worlds(
                plan@,
                worlds@.take(i as int),
                *doc,
                language,
                origin@,
                label@,
            ) == current@,
        decreases worlds.len() - i,
    {
        assert(worlds@.take(i + 1).drop_last() =~= worlds@.take(i as int));
        assert(worlds@.take(i + 1).last() == worlds@[i as int]);
        let world = &worlds[i];
        current = collect_support_fragment_from_docs(
            current,
            &doc.worlds[world.id].docs,
            language,
            origin,
            "package `".to_owned().concat(label).concat("` world `").concat(world.name.as_str())
                .concat("`").as_str(),
        );
        i += 1;
    }
    assert(worlds@.take(i as int) =~= worlds@);
    current
}

/// The plan with the files that the documentation of a package, and then those of its worlds,
/// name for a language.
pub open spec fn planned_package(
    plan: SupportPlanView,
    doc: WitDocument,
    language: Language,
    package: usize,
    origin: Seq<char>,
) -> SupportPlanView {
    let found = doc.packages@[package as int];

    let label = package_label_text(found);
    let with_docs = planned_docs(
        plan,
        crate::text::opt_text(found.docs),
        language,
        origin,
        ("package `"@ + label + "`"@),
    );
    planned_worlds(with_docs, found.worlds@, doc, language, origin, label)
}

/// The plan with the files that the documentation of a package, and then those of its worlds,
/// name for a language.
pub fn collect_package_support_fragments(
    plan: SupportPlan,
    doc: &WitDocument,
    language: Language,
    package: usize,
    origin: &str,
) -> (result: SupportPlan)
    requires
        doc.wf(),
        package < doc.packages@.len(),
    ensures
        result@ == planned_package(plan@, *doc, language, package, origin@),
{
    let found = &doc.packages[package];
    proof { assert(doc.package_ok(doc.packages@[package as int])); }
    let label = package_label(found);
    let with_docs = collect_support_fragment_from_docs(
        plan,
        &found.docs,
        language,
        origin,
        "package `".to_owned().concat(label.as_str()).concat("`").as_str(),
    );
    collect_world_fragments(with_docs, &found.worlds, doc, language, origin, label.as_str())
}

/// The plan with the files of the packages other than one, for a language.
pub open spec fn planned_others(
    plan: SupportPlanView,
    origins: Seq<PackageOriginView>,
    doc: WitDocument,
    language: Language,
    current_package: usize,
) -> SupportPlanView
    decreases origins.len(),
{
    if origins.len() == 0 {
        plan
    } else {
        let origin = origins.last();
        let plan = planned_others(plan, origins.drop_last(), doc, language, current_package);
        if origin.package == current_package {
            plan
        } else {
            planned_package(plan, doc, language, origin.package, origin.path)
        }
    }
}

/// The plan with the files of the packages other than one, for a language.
pub fn collect_other_packages(
    plan: SupportPlan,
    origins: &Vec<PackageOrigin>,
    doc: &WitDocument,
    language: Language,
    current_package: usize,
) -> (result: SupportPlan)
    requires
        doc.wf(),
        origins_below(package_origin_views(origins@), doc.packages@.len() as int),
    ensures
        result@ == planned_others(
            plan@,
            package_origin_views(origins@),
            *doc,
            language,
            current_package,
        ),
{
    let mut current = plan;
    let mut i: usize = 0;
    while i < origins.len()
        invariant
            i <= origins.len(),
            doc.wf(),
            origins_below(package_origin_views(origins@), doc.packages@.len() as int),
            planned_others(
                plan@,
                package_origin_views(origins@).take(i as int),
                *doc,
                language,
                current_package,
            ) == current@,
        decreases origins.len() - i,
    {
        assert(
            package_origin_views(origins@).take(i + 1).drop_last()
                =~= package_origin_views(origins@).take(i as int)
        );
        assert(
            package_origin_views(origins@).take(i + 1).last()
                == package_origin_views(origins@)[i as int]
        );
        let origin = &origins[i];
        current = if origin.package == current_package {
            current
        } else {
            collect_package_support_fragments(
                current,
                doc,
                language,
                origin.package,
                origin.path.as_str(),
            )
        };
        i += 1;
    }
    assert(package_origin_views(origins@).take(i as int) =~= package_origin_views(origins@));
    current
}

/// The plan with the files of one package, for a language.
pub open spec fn planned_own(
    plan: SupportPlanView,
    origins: Seq<PackageOriginView>,
    doc: WitDocument,
    language: Language,
    current_package: usize,
) -> SupportPlanView
    decreases origins.len(),
{
    if origins.len() == 0 {
        plan
    } else {
        let origin = origins.last();
        let plan = planned_own(plan, origins.drop_last(), doc, language, current_package);
        if origin.package == current_package {
            planned_package(plan, doc, language, origin.package, origin.path)
        } else {
            plan
        }
    }
}

/// The plan with the files of one package, for a language.
pub fn collect_own_package(
    plan: SupportPlan,
    origins: &Vec<PackageOrigin>,
    doc: &WitDocument,
    language: Language,
    current_package: usize,
) -> (result: SupportPlan)
    requires
        doc.wf(),
        origins_below(package_origin_views(origins@), doc.packages@.len() as int),
    ensures
        result@ == planned_own(
            plan@,
            package_origin_views(origins@),
            *doc,
            language,
            current_package,
        ),
{
    let mut current = plan;
    let mut i: usize = 0;
    while i < origins.len()
        invariant
            i <= origins.len(),
            doc.wf(),
            origins_below(package_origin_views(origins@), doc.packages@.len() as int),
            planned_own(
                plan@,
                package_origin_views(origins@).take(i as int),
                *doc,
                language,
                current_package,
            ) == current@,
        decreases origins.len() - i,
    {
        assert(
            package_origin_views(origins@).take(i + 1).drop_last()
                =~= package_origin_views(origins@).take(i as int)
        );
        assert(
            package_origin_views(origins@).take(i + 1).last()
                == package_origin_views(origins@)[i as int]
        );
        let origin = &origins[i];
        current = if origin.package == current_package {
            collect_package_support_fragments(
                current,
                doc,
                language,
                origin.package,
                origin.path.as_str(),
            )
        } else {
            current
        };
        i += 1;
    }
    assert(package_origin_views(origins@).take(i as int) =~= package_origin_views(origins@));
    current
}

/// Whether every origin is of a declared package.
pub open spec fn origins_below(origins: Seq<PackageOriginView>, limit: int) -> bool {
    forall|i: int| 0 <= i < origins.len() ==> (#[trigger] origins[i]).package < limit
}

/// The plan with the files for a language: those of other packages before those of the package
/// itself.
pub open spec fn planned_language(
    plan: SupportPlanView,
    origins: Seq<PackageOriginView>,
    doc: WitDocument,
    language: Language,
    current_package: usize,
) -> SupportPlanView {
    let others = planned_others(plan, origins, doc, language, current_package);
    planned_own(others, origins, doc, language, current_package)
}

/// The plan with the files for a language: those of other packages before those of the package
/// itself.
pub fn collect_language_support(
    plan: SupportPlan,
    origins: &Vec<PackageOrigin>,
    doc: &WitDocument,
    language: Language,
    current_package: usize,
) -> (result: SupportPlan)
    requires
        doc.wf(),
        origins_below(package_origin_views(origins@), doc.packages@.len() as int),
    ensures
        result@ == planned_language(
            plan@,
            package_origin_views(origins@),
            *doc,
            language,
            current_package,
        ),
{
    let others = collect_other_packages(plan, origins, doc, language, current_package);
    collect_own_package(others, origins, doc, language, current_package)
}

/// No support files.
fn empty_plan() -> (plan: SupportPlan)
    ensures
        plan@ == (SupportPlanView { fragments: Seq::empty(), failure: None }),
{
    let fragments: Vec<PlannedFragment> = Vec::new();
    assert(planned_fragment_views(fragments@) =~= Seq::<PlannedFragmentView>::empty());
    SupportPlan { fragments, failure: None }
}

/// The support files that the packages name for each language.
pub open spec fn support_plan(
    doc: WitDocument,
    current_package: usize,
    origins: Seq<PackageOriginView>,
) -> SupportPlanView {
    let start = SupportPlanView { fragments: Seq::empty(), failure: None };
    let dotnet = planned_language(start, origins, doc, Language::Dotnet, current_package);
    let go = planned_language(dotnet, origins, doc, Language::Go, current_package);
    let java = planned_language(go, origins, doc, Language::Java, current_package);
    let python = planned_language(java, origins, doc, Language::Python, current_package);
    let ruby = planned_language(python, origins, doc, Language::Ruby, current_package);
    planned_language(ruby, origins, doc, Language::TypeScript, current_package)
}

/// The support files that the packages name for each language.
pub fn collect_support_spec(
    doc: &WitDocument,
    current_package: usize,
    origins: &Vec<PackageOrigin>,
) -> (result: SupportPlan)
    requires
        doc.wf(),
        origins_below(package_origin_views(origins@), doc.packages@.len() as int),
    ensures
        result@ == support_plan(*doc, current_package, package_origin_views(origins@)),
{
    let start = empty_plan();
    let dotnet = collect_language_support(start, origins, doc, Language::Dotnet, current_package);
    let go = collect_language_support(dotnet, origins, doc, Language::Go, current_package);
    let java = collect_language_support(go, origins, doc, Language::Java, current_package);
    let python = collect_language_support(java, origins, doc, Language::Python, current_package);
    let ruby = collect_language_support(python, origins, doc, Language::Ruby, current_package);
    collect_language_support(ruby, origins, doc, Language::TypeScript, current_package)
}

/// Whether no language has a file twice.
pub open spec fn fragments_distinct(fragments: Seq<PlannedFragmentView>) -> bool {
    forall|i: int, j: int|
        0 <= i < j < fragments.len() ==> !((#[trigger] fragments[i]).language == (
            #[trigger] fragments[j]).language && fragments[i].path == fragments[j].path)
}

proof fn lemma_docs_distinct(
    plan: SupportPlanView,
    docs: Option<Seq<char>>,
    language: Language,
    origin: Seq<char>,
    context: Seq<char>,
)
    requires
        fragments_distinct(plan.fragments),
    ensures
        fragments_distinct(planned_docs(plan, docs, language, origin, context).fragments),
{
}

proof fn lemma_worlds_distinct(
    plan: SupportPlanView,
    worlds: Seq<WitName>,
    doc: WitDocument,
    language: Language,
    origin: Seq<char>,
    label: Seq<char>,
)
    requires
        fragments_distinct(plan.fragments),
    ensures
        fragments_distinct(planned_worlds(plan, worlds, doc, language, origin, label).fragments),
    decreases worlds.len(),
{
    if worlds.len() > 0 {
        let before = worlds.drop_last();
        lemma_worlds_distinct(plan, before, doc, language, origin, label);
        let world = worlds.last();
        lemma_docs_distinct(
            planned_worlds(plan, before, doc, language, origin, label),
            crate::text::opt_text(doc.worlds@[world.id as int].docs),
            language,
            origin,
            "package `"@ + label + "` world `"@ + world.name@ + "`"@,
        );
    }
}

proof fn lemma_package_distinct(
    plan: SupportPlanView,
    doc: WitDocument,
    language: Language,
    package: usize,
    origin: Seq<char>,
)
    requires
        fragments_distinct(plan.fragments),
    ensures
        fragments_distinct(planned_package(plan, doc, language, package, origin).fragments),
{
    let found = doc.packages@[package as int];
    let label = package_label_text(found);
    let context = "package `"@ + label + "`"@;
    let docs = crate::text::opt_text(found.docs);
    lemma_docs_distinct(plan, docs, language, origin, context);
    lemma_worlds_distinct(
        planned_docs(plan, docs, language, origin, context),
        found.worlds@,
        doc,
        language,
        origin,
        label,
    );
}

proof fn lemma_packages_distinct(
    plan: SupportPlanView,
    origins: Seq<PackageOriginView>,
    doc: WitDocument,
    language: Language,
    current_package: usize,
)
    requires
        fragments_distinct(plan.fragments),
    ensures
        fragments_distinct(
            planned_others(plan, origins, doc, language, current_package).fragments,
        ),
        fragments_distinct(planned_own(plan, origins, doc, language, current_package).fragments),
    decreases origins.len(),
{
    if origins.len() > 0 {
        let before = origins.drop_last();
        let origin = origins.last();
        lemma_packages_distinct(plan, before, doc, language, current_package);
        lemma_package_distinct(
            planned_others(plan, before, doc, language, current_package),
            doc,
            language,
            origin.package,
            origin.path,
        );
        lemma_package_distinct(
            planned_own(plan, before, doc, language, current_package),
            doc,
            language,
            origin.package,
            origin.path,
        );
    }
}

proof fn lemma_language_distinct(
    plan: SupportPlanView,
    origins: Seq<PackageOriginView>,
    doc: WitDocument,
    language: Language,
    current_package: usize,
)
    requires
        fragments_distinct(plan.fragments),
    ensures
        fragments_distinct(
            planned_language(plan, origins, doc, language, current_package).fragments,
        ),
{
    lemma_packages_distinct(plan, origins, doc, language, current_package);
    lemma_packages_distinct(
        planned_others(plan, origins, doc, language, current_package),
        origins,
        doc,
        language,
        current_package,
    );
}

/// No support file is read twice for one language.
pub proof fn law_support_files_are_read_once(
    doc: WitDocument,
    current_package: usize,
    origins: Seq<PackageOriginView>,
)
    ensures
        fragments_distinct(support_plan(doc, current_package, origins).fragments),
{
    let start = SupportPlanView { fragments: Seq::empty(), failure: None };
    let dotnet = planned_language(start, origins, doc, Language::Dotnet, current_package);
    let go = planned_language(dotnet, origins, doc, Language::Go, current_package);
    let java = planned_language(go, origins, doc, Language::Java, current_package);
    let python = planned_language(java, origins, doc, Language::Python, current_package);
    let ruby = planned_language(python, origins, doc, Language::Ruby, current_package);
    lemma_language_distinct(start, origins, doc, Language::Dotnet, current_package);
    lemma_language_distinct(dotnet, origins, doc, Language::Go, current_package);
    lemma_language_distinct(go, origins, doc, Language::Java, current_package);
    lemma_language_distinct(java, origins, doc, Language::Python, current_package);
    lemma_language_distinct(python, origins, doc, Language::Ruby, current_package);
    lemma_language_distinct(ruby, origins, doc, Language::TypeScript, current_package);
}

/// A support file with its contents, by its texts.
#[verifier::ext_equal]
pub struct FragmentView {
    pub path: Seq<char>,
    pub contents: Seq<char>,
    pub namespace: Option<Seq<char>>,
}

/// Support files with their contents, by their texts.
pub open spec fn fragment_views(fragments: Seq<SupportFragmentSpec>) -> Seq<FragmentView> {
    fragments.map_values(
        |fragment: SupportFragmentSpec|
            FragmentView {
            path: fragment.path@,
            contents: fragment.contents@,
            namespace: crate::text::opt_text(fragment.namespace),
        },
    )
}

/// The files of a language among those that were read.
pub open spec fn fragments_of_language(
    planned: Seq<PlannedFragmentView>,
    contents: Seq<Seq<char>>,
    language: Language,
) -> Seq<FragmentView>
    decreases planned.len(),
{
    if planned.len() == 0 {
        Seq::empty()
    } else {
        let before = fragments_of_language(planned.drop_last(), contents, language);
        if planned.last().language == language {
            before.push(
                FragmentView {
                    path: planned.last().path,
                    contents: contents[planned.len() - 1],
                    namespace: planned.last().namespace,
                },
            )
        } else {
            before
        }
    }
}

/// The files of a language among those that were read.
fn read_fragments(
    planned: &Vec<PlannedFragment>,
    contents: &Vec<String>,
    language: Language,
) -> (made: Vec<SupportFragmentSpec>)
    requires
        planned.len() == contents.len(),
    ensures
        fragment_views(made@) == fragments_of_language(
            planned_fragment_views(planned@),
            crate::text::texts(contents@),
            language,
        ),
{
    broadcast use crate::text::group_texts;

    let ghost views = planned_fragment_views(planned@);
    let ghost all = crate::text::texts(contents@);
    let mut made: Vec<SupportFragmentSpec> = Vec::new();
    let mut i: usize = 0;
    assert(fragment_views(made@) =~= Seq::empty());
    while i < planned.len()
        invariant
            i <= planned.len(),
            planned.len() == contents.len(),
            views == planned_fragment_views(planned@),
            all == crate::text::texts(contents@),
            fragment_views(made@) == fragments_of_language(views.take(i as int), all, language),
        decreases planned.len() - i,
    {
        assert(views.take(i + 1).drop_last() =~= views.take(i as int));
        assert(views.take(i + 1).last() == planned@[i as int]@);
        assert(all[i as int] == contents@[i as int]@);
        if planned[i].language == language {
            let ghost before = made@;
            let fragment = SupportFragmentSpec {
                path: planned[i].path.clone(),
                contents: contents[i].clone(),
                namespace: crate::plan::copy_text(&planned[i].namespace),
            };
            made.push(fragment);
            assert(fragment_views(made@) =~= fragment_views(before).push(
                FragmentView {
                    path: fragment.path@,
                    contents: fragment.contents@,
                    namespace: crate::text::opt_text(fragment.namespace),
                },
            ));
        }
        i += 1;
    }
    assert(views.take(i as int) =~= views);
    made
}

/// The support files of one language, by their texts.
#[verifier::ext_equal]
pub struct LanguageFragmentsView {
    pub language: Language,
    pub fragments: Seq<FragmentView>,
}

/// The support files by language, by their texts.
pub open spec fn support_views(support: SupportSpec) -> Seq<LanguageFragmentsView> {
    support.fragments@.map_values(
        |entry: LanguageFragments|
            LanguageFragmentsView {
            language: entry.language,
            fragments: fragment_views(entry.fragments@),
        },
    )
}

/// The files of a language where it has any.
pub open spec fn language_support(
    planned: Seq<PlannedFragmentView>,
    contents: Seq<Seq<char>>,
    language: Language,
) -> Seq<LanguageFragmentsView> {
    let fragments = fragments_of_language(planned, contents, language);
    if fragments.len() == 0 {
        Seq::empty()
    } else {
        seq![(LanguageFragmentsView { language, fragments })]
    }
}

/// The files that were read, by language.
pub open spec fn support_of(planned: Seq<PlannedFragmentView>, contents: Seq<Seq<char>>) -> Seq<
    LanguageFragmentsView,
> {
    language_support(planned, contents, Language::Dotnet) + language_support(
        planned,
        contents,
        Language::Go,
    ) + language_support(planned, contents, Language::Java) + language_support(
        planned,
        contents,
        Language::Python,
    ) + language_support(planned, contents, Language::Ruby) + language_support(
        planned,
        contents,
        Language::TypeScript,
    )
}

/// Adds the files of a language where it has any.
fn add_language_support(
    support: &mut SupportSpec,
    planned: &Vec<PlannedFragment>,
    contents: &Vec<String>,
    language: Language,
)
    requires
        planned.len() == contents.len(),
    ensures
        support_views(*final(support)) == support_views(*old(support)) + language_support(
            planned_fragment_views(planned@),
            crate::text::texts(contents@),
            language,
        ),
{
    let ghost before = *support;
    let fragments = read_fragments(planned, contents, language);
    let ghost added = language_support(
        planned_fragment_views(planned@),
        crate::text::texts(contents@),
        language,
    );
    assert(fragment_views(fragments@).len() == fragments.len());
    if fragments.len() > 0 {
        support.fragments.push(LanguageFragments { language, fragments });
    }
    assert(support_views(*support) =~= support_views(before) + added);
}

/// The files that were read, by language.
pub fn assemble_support(planned: &Vec<PlannedFragment>, contents: &Vec<String>) -> (support:
    SupportSpec)
    requires
        planned.len() == contents.len(),
    ensures
        support_views(support) == support_of(
            planned_fragment_views(planned@),
            crate::text::texts(contents@),
        ),
{
    let mut support = SupportSpec { fragments: Vec::new() };
    assert(support_views(support) =~= Seq::empty());
    add_language_support(&mut support, planned, contents, Language::Dotnet);
    add_language_support(&mut support, planned, contents, Language::Go);
    add_language_support(&mut support, planned, contents, Language::Java);
    add_language_support(&mut support, planned, contents, Language::Python);
    add_language_support(&mut support, planned, contents, Language::Ruby);
    add_language_support(&mut support, planned, contents, Language::TypeScript);
    assert(support_views(support) =~= support_of(
        planned_fragment_views(planned@),
        crate::text::texts(contents@),
    ));
    support
}

/// The index of the path that comes first; of equal ones the first.
pub open spec fn least_path(paths: Seq<Seq<char>>) -> int
    decreases paths.len(),
{
    if paths.len() <= 1 {
        0
    } else {
        let before = least_path(paths.drop_last());
        if crate::paths::path_before(
            crate::paths::path_parts(paths.last()),
            crate::paths::path_parts(paths[before]),
        ) {
            paths.len() - 1
        } else {
            before
        }
    }
}

/// The index of the path that comes first; of equal ones the first.
fn find_least_path(paths: &Vec<String>) -> (index: usize)
    requires
        paths.len() > 0,
    ensures
        index < paths.len(),
        index == least_path(crate::text::texts(paths@)),
{
    broadcast use crate::text::group_texts;

    let ghost all = crate::text::texts(paths@);
    let mut least: usize = 0;
    let mut i: usize = 1;
    while i < paths.len()
        invariant
            1 <= i <= paths.len(),
            all == crate::text::texts(paths@),
            least < i,
            least == least_path(all.take(i as int)),
        decreases paths.len() - i,
    {
        assert(all.take(i + 1).drop_last() =~= all.take(i as int));
        assert(all.take(i + 1).last() == paths@[i as int]@);
        assert(all.take(i + 1)[least as int] == paths@[least as int]@);
        if matches!(place_paths(paths[i].as_str(), paths[least].as_str()), Placement::Before) {
            least = i;
        }
        i += 1;
    }
    assert(all.take(i as int) =~= all);
    least
}

/// The directory that a package comes from: that of its first file.
pub open spec fn package_origin_of(files: PackageFilesView) -> PackageOriginView {
    let index: int = least_path(files.paths);
    PackageOriginView {
        package: files.package,
        path: crate::wit::workspace::parent_or_here_text(files.paths[index]),
    }
}

/// The directory that a package comes from: that of its first file.
pub fn package_origin(files: &PackageFiles) -> (result: PackageOrigin)
    requires
        files.paths@.len() > 0,
    ensures
        result@ == package_origin_of(files@),
{
    broadcast use crate::text::group_texts;
    let index: usize = find_least_path(&files.paths);
    PackageOrigin {
        package: files.package,
        path: parent_or_here(files.paths[index].as_str()),
    }
}

/// The directories that packages come from; a package without files comes from none.
pub open spec fn origins_of(files: Seq<PackageFilesView>) -> Seq<PackageOriginView>
    decreases files.len(),
{
    if files.len() == 0 {
        Seq::empty()
    } else if files.last().paths.len() == 0 {
        origins_of(files.drop_last())
    } else {
        origins_of(files.drop_last()).push(package_origin_of(files.last()))
    }
}

/// The directories that packages come from, of which there has to be one.
pub open spec fn origins_outcome(files: Seq<PackageFilesView>) -> Result<
    Seq<PackageOriginView>,
    ErrorView,
> {
    if origins_of(files).len() == 0 {
        Err(
            crate::wit::directive::wit_failure(
                "<workspace>"@,
                "resolved WIT package graph had no source origins"@,
            ),
        )
    } else {
        Ok(origins_of(files))
    }
}

/// The directories that packages come from, of which there has to be one.
pub fn collect_package_origins(files: &Vec<PackageFiles>) -> (result: Result<
    Vec<PackageOrigin>,
    Error,
>)
    ensures
        match (result, origins_outcome(package_files_views(files@))) {
            (Ok(made), Ok(wanted)) => package_origin_views(made@) == wanted,
            (Err(error), Err(wanted)) => error@ == wanted,
            _ => false,
        },
{
    let ghost views = package_files_views(files@);
    let mut made: Vec<PackageOrigin> = Vec::new();
    let mut i: usize = 0;
    assert(package_origin_views(made@) =~= Seq::empty());
    while i < files.len()
        invariant
            i <= files.len(),
            views == package_files_views(files@),
            package_origin_views(made@) == origins_of(views.take(i as int)),
        decreases files.len() - i,
    {
        assert(views.take(i + 1).drop_last() =~= views.take(i as int));
        assert(views.take(i + 1).last() == files@[i as int]@);
        assert(files@[i as int]@.paths.len() == files@[i as int].paths@.len());
        if files[i].paths.len() > 0 {
            let ghost before = made@;
            let origin = package_origin(&files[i]);
            made.push(origin);
            assert(package_origin_views(made@) =~= package_origin_views(before).push(origin@));
        }
        i += 1;
    }
    assert(views.take(i as int) =~= views);
    assert(package_origin_views(made@).len() == made.len());
    if made.len() == 0 {
        return Err(
            wit_error("<workspace>", "resolved WIT package graph had no source origins"),
        );
    }
    Ok(made)
}

} // verus!
