//! Where the files of a WIT package come from and go to.

use vstd::prelude::*;

use crate::error::ErrorView;
use crate::language::Language;
use crate::wit::document::WitPackage;
use crate::wit::workspace::EntryAction;

verus! {

/// A file is a WIT file where its name ends in `.wit` behind something.
pub proof fn law_wit_files_end_in_wit(stem: Seq<char>, name: Seq<char>)
    requires
        stem.len() > 0,
        name == stem + ".wit"@,
        forall|i: int| 0 <= i < stem.len() ==> #[trigger] stem[i] != '/' && stem[i] != '.',
    ensures
        crate::wit::workspace::extension_start(name) == Some(stem.len() as int + 1),
        name.skip(stem.len() as int + 1) == "wit"@,
        crate::wit::workspace::stem_of_name(name) == stem,
{
    reveal_strlit(".wit");
    reveal_strlit("wit");
    lemma_last_dot(stem);
    assert(name =~= stem + seq!['.', 'w', 'i', 't']);
    assert(name.skip(stem.len() as int + 1) =~= "wit"@);
    assert(name.take(stem.len() as int) =~= stem);
}

/// The last dot of a WIT file stands before `wit`.
proof fn lemma_last_dot(stem: Seq<char>)
    ensures
        crate::text::after_last_index(stem + seq!['.', 'w', 'i', 't'], '.') == stem.len() + 1,
{
    let all = stem + seq!['.', 'w', 'i', 't'];
    assert(all.drop_last() =~= stem + seq!['.', 'w', 'i']);
    assert(all.drop_last().drop_last() =~= stem + seq!['.', 'w']);
    assert(all.drop_last().drop_last().drop_last() =~= stem + seq!['.']);
    reveal_with_fuel(crate::text::after_last_index, 5);
}

/// In a package directory everything is taken but the input itself; beside an input that stands
/// alone, other WIT files and the dependencies are left out too; of what is linked, only WIT files
/// are taken.
pub proof fn law_entries_are_taken_by_their_place(
    path: Seq<char>,
    input_path: Seq<char>,
    is_dir: bool,
)
    ensures
        crate::wit::workspace::is_same_path(path, input_path) ==> crate::wit::workspace::package_entry(
            path,
            input_path,
            is_dir,
        ) == EntryAction::Skip && crate::wit::workspace::standalone_entry(path, input_path, is_dir)
            == EntryAction::Skip,
        !crate::wit::workspace::is_same_path(path, input_path) ==> crate::wit::workspace::package_entry(
            path,
            input_path,
            is_dir,
        ) == if is_dir {
            EntryAction::Descend
        } else {
            EntryAction::Copy
        },
        !crate::wit::workspace::is_same_path(path, input_path) && is_dir ==> (
        crate::wit::workspace::standalone_entry(path, input_path, is_dir) == EntryAction::Skip
            <==> crate::wit::workspace::name_of_path(path) == Some("deps"@)),
        !crate::wit::workspace::is_same_path(path, input_path) && is_dir ==> crate::wit::workspace::standalone_entry(
            path,
            input_path,
            is_dir,
        ) != EntryAction::Copy,
        !crate::wit::workspace::is_same_path(path, input_path) && !is_dir ==> (
        crate::wit::workspace::standalone_entry(path, input_path, is_dir) == EntryAction::Copy
            <==> !crate::wit::workspace::is_wit_path(path)),
        !is_dir ==> (crate::wit::workspace::linked_entry(path, is_dir) == EntryAction::Copy
            <==> crate::wit::workspace::is_wit_path(path)),
        is_dir ==> crate::wit::workspace::linked_entry(path, is_dir) == EntryAction::Descend,
{
}

/// The first input is the package, and the others are linked to it; without any there is nothing to
/// read.
pub proof fn law_first_input_is_the_package(paths: Seq<Seq<char>>)
    ensures
        paths.len() == 0 ==> crate::wit::workspace::split_inputs(paths) is Err,
        paths.len() > 0 ==> crate::wit::workspace::split_inputs(paths) == Ok::<(Seq<char>, Seq<Seq<char>>), ErrorView>(
            (paths[0], paths.skip(1)),
        ),
{
}

/// The package around an input is the input itself where that is a directory, and its parent where
/// it is a `main.wit`.
pub proof fn law_main_files_stand_for_their_directory(
    path: Seq<char>,
    is_dir: bool,
    parent_exists: bool,
)
    ensures
        is_dir ==> crate::wit::workspace::package_source_dir(path, is_dir, parent_exists) == Some(path)
            && crate::wit::workspace::support_source_dir(path, is_dir, parent_exists) is None,
        !is_dir && crate::wit::workspace::name_of_path(path) != Some("main.wit"@)
            ==> crate::wit::workspace::package_source_dir(path, is_dir, parent_exists) is None,
        !is_dir && crate::wit::workspace::name_of_path(path) == Some("main.wit"@)
            ==> crate::wit::workspace::package_source_dir(path, is_dir, parent_exists)
            == crate::wit::workspace::support_source_dir(path, is_dir, parent_exists),
        !is_dir && parent_exists ==> (crate::wit::workspace::parent_path(path) matches Some(parent)
            ==> parent.len() > 0 ==> crate::wit::workspace::support_source_dir(path, is_dir, parent_exists)
            == Some(parent)),
        !is_dir && !parent_exists ==> crate::wit::workspace::support_source_dir(path, is_dir, parent_exists)
            is None,
{
}

/// Nothing is written over: an output that is there is refused, and one that is not is free.
pub proof fn law_outputs_are_not_written_over(path: Seq<char>)
    ensures
        crate::wit::workspace::output_absent_outcome(path, true) == Err::<(), ErrorView>(
            ErrorView::OutputPathExists { path },
        ),
        crate::wit::workspace::output_absent_outcome(path, false) == Ok::<(), ErrorView>(()),
{
}

/// A linked package is put below `deps`, under the name of its directory or of its file.
pub proof fn law_linked_packages_stand_below_deps(root: Seq<char>, path: Seq<char>)
    ensures
        crate::wit::workspace::name_of_path(path) matches Some(name) ==> {
            let place = crate::paths::joined_path(root, "deps"@);
            &&& !crate::wit::workspace::is_wit_path(path) ==> crate::wit::gather::linked_package_outcome(root, path)
                == Ok::<Seq<char>, ErrorView>(crate::paths::joined_path(place, name))
            &&& crate::wit::workspace::is_wit_path(path) ==> crate::wit::gather::linked_package_outcome(root, path)
                == Ok::<Seq<char>, ErrorView>(
                crate::paths::joined_path(place, crate::wit::workspace::stem_of_name(name)),
            )
        },
        crate::wit::workspace::name_of_path(path) is None ==> crate::wit::gather::linked_package_outcome(root, path)
            is Err,
{
}

/// A linked file is copied into its package under its own name.
pub proof fn law_linked_files_keep_their_name(root: Seq<char>, path: Seq<char>)
    ensures
        crate::wit::gather::linked_package_outcome(root, path) matches Ok(package) ==> (
        crate::wit::workspace::name_of_path(path) matches Some(name) ==> crate::wit::gather::linked_file_outcome(
            root,
            path,
        ) == Ok::<Seq<crate::wit::gather::GatherStepView>, ErrorView>(
            seq![
                crate::wit::gather::GatherStepView::CopyFile {
                    source: path,
                    destination: crate::paths::joined_path(package, name),
                },
            ],
        )),
{
}

/// The input is written into the workspace under its own name, before what is linked.
pub proof fn law_inputs_are_written_under_their_name(
    input: Seq<char>,
    path: Seq<char>,
    is_dir: bool,
    parent_exists: bool,
    listing: crate::wit::gather::Listing,
    root: Seq<char>,
    linked: Seq<crate::wit::gather::LinkedInput>,
    name: Seq<char>,
)
    requires
        crate::wit::workspace::name_of_path(path) == Some(name),
    ensures
        crate::wit::gather::workspace_outcome(input, path, is_dir, parent_exists, listing, root, linked)
            matches Ok(steps) ==> {
            let before = crate::wit::gather::source_steps(path, is_dir, parent_exists, listing, root);
            &&& steps.len() > before.len()
            &&& steps[before.len() as int] == (crate::wit::gather::GatherStepView::WriteFile {
                path: crate::paths::joined_path(root, name),
                contents: input,
            })
            &&& steps.take(before.len() as int) == before
            &&& crate::wit::gather::linked_inputs_outcome(root, linked) == Ok::<
                Seq<crate::wit::gather::GatherStepView>,
                ErrorView,
            >(steps.skip(before.len() as int + 1))
        },
{
    match crate::wit::gather::workspace_outcome(input, path, is_dir, parent_exists, listing, root, linked) {
        Ok(steps) => {
            let before = crate::wit::gather::source_steps(path, is_dir, parent_exists, listing, root);
            let more = crate::wit::gather::linked_inputs_outcome(root, linked)->Ok_0;
            assert(steps.take(before.len() as int) =~= before);
            assert(steps.skip(before.len() as int + 1) =~= more);
        },
        Err(_) => {},
    }
}

/// A support file is read from beside the package that names it, and kept under the same path with
/// slashes.
pub proof fn law_support_files_stand_beside_their_package(
    plan: crate::wit::support::SupportPlanView,
    language: Language,
    origin: Seq<char>,
    relative: Seq<char>,
    namespace: Option<Seq<char>>,
)
    ensures
        ({
            let source = crate::paths::joined_path(origin, relative);
            let path = crate::text::replaced_char(source, '\\', "/"@);
            let made = crate::wit::support::planned_file(plan, language, origin, relative, namespace);
            &&& crate::wit::support::has_fragment(plan.fragments, language, path) ==> made == plan
            &&& !crate::wit::support::has_fragment(plan.fragments, language, path) ==> made.failure
                == plan.failure && made.fragments == plan.fragments.push(
                (crate::wit::support::PlannedFragmentView { language, source, path, namespace }),
            )
        }),
{
}

/// A package is called by its namespace, its name and its version.
pub proof fn law_packages_are_called_by_their_version(package: WitPackage)
    ensures
        package.version matches Some(version) ==> crate::wit::support::package_label_text(package)
            == package.namespace@ + ":"@ + package.name@ + "@"@ + version@,
        package.version is None ==> crate::wit::support::package_label_text(package) == package.namespace@
            + ":"@ + package.name@,
{
}

/// The fragments of a language are those that were planned for it, in their order, each with the
/// contents of its own file.
pub proof fn law_fragments_keep_their_contents(
    planned: Seq<crate::wit::support::PlannedFragmentView>,
    contents: Seq<Seq<char>>,
    language: Language,
    i: int,
)
    requires
        0 <= i < planned.len(),
        planned[i].language == language,
    ensures
        crate::wit::support::fragments_of_language(planned, contents, language).contains(
            (crate::wit::support::FragmentView {
                path: planned[i].path,
                contents: contents[i],
                namespace: planned[i].namespace,
            }),
        ),
    decreases planned.len(),
{
    let wanted = crate::wit::support::FragmentView {
        path: planned[i].path,
        contents: contents[i],
        namespace: planned[i].namespace,
    };
    let before = crate::wit::support::fragments_of_language(planned.drop_last(), contents, language);
    let all = crate::wit::support::fragments_of_language(planned, contents, language);
    if i < planned.len() - 1 {
        law_fragments_keep_their_contents(planned.drop_last(), contents, language, i);
        assert(planned.drop_last()[i] == planned[i]);
        let k = choose|k: int| 0 <= k < before.len() && before[k] == wanted;
        assert(all[k] == wanted);
    } else {
        assert(all[all.len() - 1] == wanted);
    }
}

} // verus!
