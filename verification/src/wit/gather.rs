//! What is written and copied where when the inputs are gathered into one WIT package.

use vstd::prelude::*;

use crate::error::{Error, ErrorView};
use crate::paths::join_path;
use crate::wit::workspace::{
    has_wit_extension, input_package_source_dir, input_support_source_dir, input_target_name,
    linked_entry_action, linked_input_package_dir_name, package_entry_action,
    standalone_entry_action, EntryAction,
};

verus! {

/// A directory with what stands in it, as it was read.
#[derive(Debug)]
pub struct Listing {
    pub entries: Vec<ListedEntry>,
}

/// An entry of a directory, with its name.
#[derive(Debug)]
pub enum ListedEntry {
    File(String),
    Directory(String, Listing),
}

/// The name of an entry.
pub open spec fn entry_name(entry: ListedEntry) -> Seq<char> {
    match entry {
        ListedEntry::File(name) => name@,
        ListedEntry::Directory(name, _) => name@,
    }
}

/// The name of an entry.
fn name_of_entry(entry: &ListedEntry) -> (name: &str)
    ensures
        name@ == entry_name(*entry),
{
    match entry {
        ListedEntry::File(name) => name.as_str(),
        ListedEntry::Directory(name, _) => name.as_str(),
    }
}

/// Something done on the disk. The directories that a file stands in are made before it.
#[derive(Debug, PartialEq, Eq)]
pub enum GatherStep {
    MakeDirectory { path: String },
    CopyFile { source: String, destination: String },
    WriteFile { path: String, contents: String },
}

/// What is done on the disk, by its texts.
#[verifier::ext_equal]
pub enum GatherStepView {
    MakeDirectory { path: Seq<char> },
    CopyFile { source: Seq<char>, destination: Seq<char> },
    WriteFile { path: Seq<char>, contents: Seq<char> },
}

impl View for GatherStep {
    type V = GatherStepView;

    open spec fn view(&self) -> GatherStepView {
        match *self {
            GatherStep::MakeDirectory { path } => GatherStepView::MakeDirectory { path: path@ },
            GatherStep::CopyFile { source, destination } => GatherStepView::CopyFile {
                source: source@,
                destination: destination@,
            },
            GatherStep::WriteFile { path, contents } => GatherStepView::WriteFile {
                path: path@,
                contents: contents@,
            },
        }
    }
}

/// The steps of a list, by their texts.
pub open spec fn step_views(steps: Seq<GatherStep>) -> Seq<GatherStepView> {
    steps.map_values(|step: GatherStep| step@)
}

/// Appends the steps `tail` to `head`.
fn append_steps(head: &mut Vec<GatherStep>, tail: Vec<GatherStep>)
    ensures
        step_views(final(head)@) == step_views(old(head)@) + step_views(tail@),
{
    let ghost before = head@;
    let mut tail = tail;
    head.append(&mut tail);
    assert(step_views(head@) =~= step_views(before) + step_views(head@.skip(before.len() as int)));
}

/// Appends one step.
fn push_step(head: &mut Vec<GatherStep>, step: GatherStep)
    ensures
        step_views(final(head)@) == step_views(old(head)@).push(step@),
{
    let ghost before = head@;
    head.push(step);
    assert(step_views(head@) =~= step_views(before).push(step@));
}

/// Which entries of a directory are copied: all, all but the input, or neither the input nor
/// WIT files nor the dependencies.
#[derive(Debug, Clone, Copy, PartialEq, Eq, Structural)]
pub enum CopyRule {
    Everything,
    Package,
    Standalone,
}

/// What is done with the entry at a path.
pub open spec fn ruled_entry(
    rule: CopyRule,
    path: Seq<char>,
    input_path: Seq<char>,
    is_dir: bool,
) -> EntryAction {
    match rule {
        CopyRule::Everything => if is_dir {
            EntryAction::Descend
        } else {
            EntryAction::Copy
        },
        CopyRule::Package => crate::wit::workspace::package_entry(path, input_path, is_dir),
        CopyRule::Standalone => crate::wit::workspace::standalone_entry(path, input_path, is_dir),
    }
}

/// What is done with the entry at a path.
fn ruled_entry_action(rule: CopyRule, path: &str, input_path: &str, is_dir: bool) -> (action:
    EntryAction)
    ensures
        action == ruled_entry(rule, path@, input_path@, is_dir),
{
    match rule {
        CopyRule::Everything => if is_dir {
            EntryAction::Descend
        } else {
            EntryAction::Copy
        },
        CopyRule::Package => package_entry_action(path, input_path, is_dir),
        CopyRule::Standalone => standalone_entry_action(path, input_path, is_dir),
    }
}

/// The steps that copy the first `count` entries of a directory into another. Only where
/// everything is copied is a directory made that holds nothing.
pub open spec fn copied_entries(
    rule: CopyRule,
    listing: Listing,
    count: nat,
    source: Seq<char>,
    destination: Seq<char>,
    input_path: Seq<char>,
) -> Seq<GatherStepView>
    decreases listing, count,
    when count <= listing.entries@.len()
{
    if count == 0 {
        Seq::empty()
    } else {
        let entry = listing.entries@[count - 1];
        let from = crate::paths::joined_path(source, entry_name(entry));
        let to = crate::paths::joined_path(destination, entry_name(entry));
        copied_entries(rule, listing, (count - 1) as nat, source, destination, input_path) + (
        match ruled_entry(rule, from, input_path, entry is Directory) {
            EntryAction::Skip => Seq::empty(),
            EntryAction::Copy => seq![
                GatherStepView::CopyFile { source: from, destination: to },
            ],
            EntryAction::Descend => made_directory(rule, to) + copied_directory(
                rule,
                entry,
                from,
                to,
                input_path,
            ),
        })
    }
}

/// The steps that copy what stands in an entry that is a directory.
pub open spec fn copied_directory(
    rule: CopyRule,
    entry: ListedEntry,
    source: Seq<char>,
    destination: Seq<char>,
    input_path: Seq<char>,
) -> Seq<GatherStepView>
    decreases entry, 0nat,
{
    match entry {
        ListedEntry::File(_) => Seq::empty(),
        ListedEntry::Directory(_, inner) => copied_entries(
            rule,
            inner,
            inner.entries@.len(),
            source,
            destination,
            input_path,
        ),
    }
}

/// The step that makes a directory, where everything is copied.
pub open spec fn made_directory(rule: CopyRule, path: Seq<char>) -> Seq<GatherStepView> {
    if rule == CopyRule::Everything {
        seq![GatherStepView::MakeDirectory { path }]
    } else {
        Seq::empty()
    }
}

/// The steps that copy a directory into another.
pub open spec fn copied_listing(
    rule: CopyRule,
    listing: Listing,
    source: Seq<char>,
    destination: Seq<char>,
    input_path: Seq<char>,
) -> Seq<GatherStepView> {
    copied_entries(rule, listing, listing.entries@.len(), source, destination, input_path)
}

/// The steps that copy a directory into another.
fn copy_listing(
    rule: CopyRule,
    listing: &Listing,
    source: &str,
    destination: &str,
    input_path: &str,
) -> (steps: Vec<GatherStep>)
    ensures
        step_views(steps@) == copied_listing(
            rule,
            *listing,
            source@,
            destination@,
            input_path@,
        ),
    decreases listing,
{
    let mut steps: Vec<GatherStep> = Vec::new();
    let mut i: usize = 0;
    assert(step_views(steps@) =~= Seq::empty());
    while i < listing.entries.len()
        invariant
            i <= listing.entries.len(),
            step_views(steps@) == copied_entries(
                rule,
                *listing,
                i as nat,
                source@,
                destination@,
                input_path@,
            ),
        decreases listing.entries.len() - i,
    {
        let entry = &listing.entries[i];
        let from = join_path(source, name_of_entry(entry));
        let to = join_path(destination, name_of_entry(entry));
        let ghost before = step_views(steps@);
        match entry {
            ListedEntry::File(_) => match ruled_entry_action(
                rule,
                from.as_str(),
                input_path,
                false,
            ) {
                EntryAction::Copy => {
                    push_step(&mut steps, GatherStep::CopyFile { source: from, destination: to });
                },
                EntryAction::Skip => {},
                EntryAction::Descend => {
                    if matches!(rule, CopyRule::Everything) {
                        push_step(&mut steps, GatherStep::MakeDirectory { path: to });
                    }
                },
            },
            ListedEntry::Directory(_, inner) => match ruled_entry_action(
                rule,
                from.as_str(),
                input_path,
                true,
            ) {
                EntryAction::Descend => {
                    let more = copy_listing(
                        rule,
                        inner,
                        from.as_str(),
                        to.as_str(),
                        input_path,
                    );
                    assert(step_views(more@) == copied_directory(
                        rule,
                        *entry,
                        from@,
                        to@,
                        input_path@,
                    ));
                    if matches!(rule, CopyRule::Everything) {
                        push_step(&mut steps, GatherStep::MakeDirectory { path: to });
                    }
                    append_steps(&mut steps, more);
                },
                EntryAction::Skip => {},
                EntryAction::Copy => {
                    push_step(&mut steps, GatherStep::CopyFile { source: from, destination: to });
                },
            },
        }
        i += 1;
        assert(step_views(steps@) =~= copied_entries(
            rule,
            *listing,
            i as nat,
            source@,
            destination@,
            input_path@,
        ));
    }
    steps
}

/// The steps that copy the directory of a package: all but the input.
pub fn copy_package_source_dir(
    listing: &Listing,
    source_dir: &str,
    destination_dir: &str,
    input_path: &str,
) -> (steps: Vec<GatherStep>)
    ensures
        step_views(steps@) == copied_listing(
            CopyRule::Package,
            *listing,
            source_dir@,
            destination_dir@,
            input_path@,
        ),
{
    copy_listing(CopyRule::Package, listing, source_dir, destination_dir, input_path)
}

/// The steps that copy what stands beside an input: neither the input nor WIT files nor the
/// dependencies.
pub fn copy_standalone_input_support_dir(
    listing: &Listing,
    source_dir: &str,
    destination_dir: &str,
    input_path: &str,
) -> (steps: Vec<GatherStep>)
    ensures
        step_views(steps@) == copied_listing(
            CopyRule::Standalone,
            *listing,
            source_dir@,
            destination_dir@,
            input_path@,
        ),
{
    copy_listing(CopyRule::Standalone, listing, source_dir, destination_dir, input_path)
}

/// The steps that copy a directory with everything in it.
pub open spec fn copied_tree(
    listing: Listing,
    source: Seq<char>,
    destination: Seq<char>,
) -> Seq<GatherStepView> {
    copied_listing(CopyRule::Everything, listing, source, destination, ""@)
}

/// The steps that copy a directory with everything in it.
pub fn copy_directory_tree(listing: &Listing, source_dir: &str, destination_dir: &str) -> (steps:
    Vec<GatherStep>)
    ensures
        step_views(steps@) == copied_tree(*listing, source_dir@, destination_dir@),
{
    copy_listing(CopyRule::Everything, listing, source_dir, destination_dir, "")
}

/// Whether a directory is a package: one of its entries is named like a WIT file.
pub open spec fn is_package_dir(path: Seq<char>, listing: Listing) -> bool {
    exists|i: int|
        0 <= i < listing.entries@.len() && crate::wit::workspace::is_wit_path(
            crate::paths::joined_path(path, entry_name(#[trigger] listing.entries@[i])),
        )
}

/// Whether a directory is a package: one of its entries is named like a WIT file.
pub fn linked_input_path_is_package_dir(path: &str, listing: &Listing) -> (found: bool)
    ensures
        found == is_package_dir(path@, *listing),
{
    let mut i: usize = 0;
    while i < listing.entries.len()
        invariant
            i <= listing.entries.len(),
            forall|k: int|
                0 <= k < i ==> !crate::wit::workspace::is_wit_path(
                    crate::paths::joined_path(
                        path@,
                        entry_name(#[trigger] listing.entries@[k]),
                    ),
                ),
        decreases listing.entries.len() - i,
    {
        let entry_path = join_path(path, name_of_entry(&listing.entries[i]));
        if has_wit_extension(entry_path.as_str()) {
            return true;
        }
        i += 1;
    }
    false
}

/// Where the package of a linked input stands in the gathered package.
pub open spec fn linked_package_outcome(root: Seq<char>, path: Seq<char>) -> Result<
    Seq<char>,
    ErrorView,
> {
    match crate::wit::workspace::linked_dir_name_outcome(path) {
        Err(error) => Err(error),
        Ok(name) => Ok(
            crate::paths::joined_path(crate::paths::joined_path(root, "deps"@), name),
        ),
    }
}

/// Where the package of a linked input stands in the gathered package.
fn linked_package(root: &str, path: &str) -> (result: Result<String, Error>)
    ensures
        crate::error::outcome(result) == linked_package_outcome(root@, path@),
{
    match linked_input_package_dir_name(path) {
        Err(error) => Err(error),
        Ok(name) => {
            let deps = join_path(root, "deps");
            Ok(join_path(deps.as_str(), name.as_str()))
        },
    }
}

/// Steps, or why there are none, by their texts.
pub open spec fn steps_outcome(result: Result<Vec<GatherStep>, Error>) -> Result<
    Seq<GatherStepView>,
    ErrorView,
> {
    match result {
        Ok(steps) => Ok(step_views(steps@)),
        Err(error) => Err(error@),
    }
}

/// The step that copies a linked WIT file into a package of its own.
pub open spec fn linked_file_outcome(root: Seq<char>, path: Seq<char>) -> Result<
    Seq<GatherStepView>,
    ErrorView,
> {
    match linked_package_outcome(root, path) {
        Err(error) => Err(error),
        Ok(package) => Ok(
            seq![
                GatherStepView::CopyFile {
                    source: path,
                    destination: crate::paths::joined_path(
                        package,
                        crate::wit::workspace::target_name(path),
                    ),
                },
            ],
        ),
    }
}

/// The step that copies a linked WIT file into a package of its own.
pub fn copy_linked_input_file(package_root: &str, linked_input_path: &str) -> (result: Result<
    Vec<GatherStep>,
    Error,
>)
    ensures
        steps_outcome(result) == linked_file_outcome(package_root@, linked_input_path@),
{
    match linked_package(package_root, linked_input_path) {
        Err(error) => Err(error),
        Ok(package) => {
            let target = input_target_name(linked_input_path);
            let mut steps: Vec<GatherStep> = Vec::new();
            steps.push(
                GatherStep::CopyFile {
                    source: linked_input_path.to_owned(),
                    destination: join_path(package.as_str(), target.as_str()),
                },
            );
            assert(step_views(steps@) =~= seq![steps@[0]@]);
            Ok(steps)
        },
    }
}

/// The steps that copy a linked package.
pub open spec fn linked_dir_outcome(root: Seq<char>, path: Seq<char>, listing: Listing) -> Result<
    Seq<GatherStepView>,
    ErrorView,
> {
    match linked_package_outcome(root, path) {
        Err(error) => Err(error),
        Ok(package) => Ok(copied_tree(listing, path, package)),
    }
}

/// The steps that copy a linked package.
pub fn copy_linked_input_package_dir(
    package_root: &str,
    linked_input_path: &str,
    listing: &Listing,
) -> (result: Result<Vec<GatherStep>, Error>)
    ensures
        steps_outcome(result) == linked_dir_outcome(package_root@, linked_input_path@, *listing),
{
    match linked_package(package_root, linked_input_path) {
        Err(error) => Err(error),
        Ok(package) => Ok(copy_directory_tree(listing, linked_input_path, package.as_str())),
    }
}

/// The steps that copy the packages that the first `count` entries of a directory are or hold.
pub open spec fn collection_outcome(
    root: Seq<char>,
    path: Seq<char>,
    listing: Listing,
    count: nat,
) -> Result<Seq<GatherStepView>, ErrorView>
    decreases listing, count,
    when count <= listing.entries@.len()
{
    if count == 0 {
        Ok(Seq::empty())
    } else {
        match collection_outcome(root, path, listing, (count - 1) as nat) {
            Err(error) => Err(error),
            Ok(before) => {
                let entry = listing.entries@[count - 1];
                let from = crate::paths::joined_path(path, entry_name(entry));
                match collection_entry_outcome(root, from, entry) {
                    Err(error) => Err(error),
                    Ok(more) => Ok(before + more),
                }
            },
        }
    }
}

/// The steps that copy the package or packages at an entry. A file that is no WIT file is none.
pub open spec fn collection_entry_outcome(
    root: Seq<char>,
    path: Seq<char>,
    entry: ListedEntry,
) -> Result<Seq<GatherStepView>, ErrorView>
    decreases entry, 0nat,
{
    match entry {
        ListedEntry::File(_) => if crate::wit::workspace::linked_entry(path, false)
            == EntryAction::Copy {
            linked_file_outcome(root, path)
        } else {
            Ok(Seq::empty())
        },
        ListedEntry::Directory(_, inner) => if is_package_dir(path, inner) {
            linked_dir_outcome(root, path, inner)
        } else {
            collection_outcome(root, path, inner, inner.entries@.len())
        },
    }
}

/// The steps that copy the packages that a directory holds, at any depth.
pub fn copy_linked_input_collection_dir(
    package_root: &str,
    linked_input_path: &str,
    listing: &Listing,
) -> (result: Result<Vec<GatherStep>, Error>)
    ensures
        steps_outcome(result) == collection_outcome(
            package_root@,
            linked_input_path@,
            *listing,
            listing.entries@.len(),
        ),
    decreases listing,
{
    let mut steps: Vec<GatherStep> = Vec::new();
    let mut i: usize = 0;
    assert(step_views(steps@) =~= Seq::empty());
    while i < listing.entries.len()
        invariant
            i <= listing.entries.len(),
            collection_outcome(package_root@, linked_input_path@, *listing, i as nat) == Ok::<
                Seq<GatherStepView>,
                ErrorView,
            >(step_views(steps@)),
        decreases listing.entries.len() - i,
    {
        let entry = &listing.entries[i];
        let from = join_path(linked_input_path, name_of_entry(entry));
        let more = match entry {
            ListedEntry::File(_) => match linked_entry_action(from.as_str(), false) {
                EntryAction::Copy => copy_linked_input_file(package_root, from.as_str()),
                _ => {
                    let none: Vec<GatherStep> = Vec::new();
                    assert(step_views(none@) =~= Seq::empty());
                    Ok(none)
                },
            },
            ListedEntry::Directory(_, inner) => if linked_input_path_is_package_dir(
                from.as_str(),
                inner,
            ) {
                copy_linked_input_package_dir(package_root, from.as_str(), inner)
            } else {
                copy_linked_input_collection_dir(package_root, from.as_str(), inner)
            },
        };
        assert(steps_outcome(more) == collection_entry_outcome(package_root@, from@, *entry));
        proof {
            lemma_collection_error(
                package_root@,
                linked_input_path@,
                *listing,
                (i + 1) as nat,
                listing.entries@.len(),
            );
        }
        match more {
            Err(error) => {
                return Err(error);
            },
            Ok(more) => {
                append_steps(&mut steps, more);
            },
        }
        i += 1;
    }
    Ok(steps)
}

/// An error at an entry is that of the directory.
proof fn lemma_collection_error(
    root: Seq<char>,
    path: Seq<char>,
    listing: Listing,
    count: nat,
    total: nat,
)
    requires
        count <= total <= listing.entries@.len(),
    ensures
        collection_outcome(root, path, listing, count) is Err ==> collection_outcome(
            root,
            path,
            listing,
            total,
        ) == collection_outcome(root, path, listing, count),
    decreases total - count,
{
    if count < total {
        lemma_collection_error(root, path, listing, count, (total - 1) as nat);
    }
}

/// An input that is linked to the first: a file, or a directory with what stands in it.
#[derive(Debug)]
pub struct LinkedInput {
    pub path: String,
    pub listing: Option<Listing>,
}

/// The steps that copy a linked input: a file, a package, or a directory of packages.
pub open spec fn linked_input_outcome(root: Seq<char>, input: LinkedInput) -> Result<
    Seq<GatherStepView>,
    ErrorView,
> {
    match input.listing {
        None => linked_file_outcome(root, input.path@),
        Some(listing) => if is_package_dir(input.path@, listing) {
            linked_dir_outcome(root, input.path@, listing)
        } else {
            collection_outcome(root, input.path@, listing, listing.entries@.len())
        },
    }
}

/// The steps that copy a linked input: a file, a package, or a directory of packages.
pub fn copy_linked_input(package_root: &str, input: &LinkedInput) -> (result: Result<
    Vec<GatherStep>,
    Error,
>)
    ensures
        steps_outcome(result) == linked_input_outcome(package_root@, *input),
{
    match &input.listing {
        None => copy_linked_input_file(package_root, input.path.as_str()),
        Some(listing) => if linked_input_path_is_package_dir(input.path.as_str(), listing) {
            copy_linked_input_package_dir(package_root, input.path.as_str(), listing)
        } else {
            copy_linked_input_collection_dir(package_root, input.path.as_str(), listing)
        },
    }
}

/// The steps that copy the linked inputs, in order. The first that is refused refuses all.
pub open spec fn linked_inputs_outcome(root: Seq<char>, inputs: Seq<LinkedInput>) -> Result<
    Seq<GatherStepView>,
    ErrorView,
>
    decreases inputs.len(),
{
    if inputs.len() == 0 {
        Ok(Seq::empty())
    } else {
        match linked_inputs_outcome(root, inputs.drop_last()) {
            Err(error) => Err(error),
            Ok(before) => match linked_input_outcome(root, inputs.last()) {
                Err(error) => Err(error),
                Ok(more) => Ok(before + more),
            },
        }
    }
}

/// A refused input refuses those behind it.
proof fn lemma_linked_error(root: Seq<char>, inputs: Seq<LinkedInput>, count: int)
    requires
        0 <= count <= inputs.len(),
    ensures
        linked_inputs_outcome(root, inputs.take(count)) is Err ==> linked_inputs_outcome(
            root,
            inputs,
        ) == linked_inputs_outcome(root, inputs.take(count)),
    decreases inputs.len() - count,
{
    if count < inputs.len() {
        assert(inputs.take(count + 1).drop_last() =~= inputs.take(count));
        lemma_linked_error(root, inputs, count + 1);
    } else {
        assert(inputs.take(count) =~= inputs);
    }
}

/// The steps that copy the linked inputs, in order. The first that is refused refuses all.
pub fn copy_linked_inputs(package_root: &str, inputs: &Vec<LinkedInput>) -> (result: Result<
    Vec<GatherStep>,
    Error,
>)
    ensures
        steps_outcome(result) == linked_inputs_outcome(package_root@, inputs@),
{
    let mut steps: Vec<GatherStep> = Vec::new();
    let mut i: usize = 0;
    assert(step_views(steps@) =~= Seq::empty());
    while i < inputs.len()
        invariant
            i <= inputs.len(),
            linked_inputs_outcome(package_root@, inputs@.take(i as int)) == Ok::<
                Seq<GatherStepView>,
                ErrorView,
            >(step_views(steps@)),
        decreases inputs.len() - i,
    {
        proof {
            assert(inputs@.take(i + 1).drop_last() =~= inputs@.take(i as int));
            lemma_linked_error(package_root@, inputs@, i + 1);
        }
        match copy_linked_input(package_root, &inputs[i]) {
            Err(error) => {
                return Err(error);
            },
            Ok(more) => {
                append_steps(&mut steps, more);
            },
        }
        i += 1;
    }
    assert(inputs@.take(i as int) =~= inputs@);
    Ok(steps)
}

/// The steps that copy what belongs to an input: the package that it is or stands in, else what
/// stands beside it.
pub open spec fn source_steps(
    path: Seq<char>,
    is_dir: bool,
    parent_exists: bool,
    listing: Listing,
    root: Seq<char>,
) -> Seq<GatherStepView> {
    match crate::wit::workspace::package_source_dir(path, is_dir, parent_exists) {
        Some(dir) => copied_listing(CopyRule::Package, listing, dir, root, path),
        None => match crate::wit::workspace::support_source_dir(path, is_dir, parent_exists) {
            Some(dir) => copied_listing(CopyRule::Standalone, listing, dir, root, path),
            None => Seq::empty(),
        },
    }
}

/// The steps that gather an input and those that are linked to it into a package at `root`: what
/// belongs to the input is copied, the input is written, and the linked inputs are copied.
pub open spec fn workspace_outcome(
    input: Seq<char>,
    path: Seq<char>,
    is_dir: bool,
    parent_exists: bool,
    listing: Listing,
    root: Seq<char>,
    linked: Seq<LinkedInput>,
) -> Result<Seq<GatherStepView>, ErrorView> {
    match linked_inputs_outcome(root, linked) {
        Err(error) => Err(error),
        Ok(more) => Ok(
            source_steps(path, is_dir, parent_exists, listing, root).push(
                GatherStepView::WriteFile {
                    path: crate::paths::joined_path(
                        root,
                        crate::wit::workspace::target_name(path),
                    ),
                    contents: input,
                },
            ) + more,
        ),
    }
}

/// The steps that gather an input and those that are linked to it into a package at
/// `package_root`. `listing` is the directory that the input is or stands in.
pub fn prepare_wit_workspace(
    input: &str,
    path: &str,
    is_dir: bool,
    parent_exists: bool,
    listing: &Listing,
    package_root: &str,
    linked: &Vec<LinkedInput>,
) -> (result: Result<Vec<GatherStep>, Error>)
    ensures
        steps_outcome(result) == workspace_outcome(
            input@,
            path@,
            is_dir,
            parent_exists,
            *listing,
            package_root@,
            linked@,
        ),
{
    let mut steps = match input_package_source_dir(path, is_dir, parent_exists) {
        Some(dir) => copy_package_source_dir(listing, dir.as_str(), package_root, path),
        None => match input_support_source_dir(path, is_dir, parent_exists) {
            Some(dir) => copy_standalone_input_support_dir(
                listing,
                dir.as_str(),
                package_root,
                path,
            ),
            None => {
                let none: Vec<GatherStep> = Vec::new();
                assert(step_views(none@) =~= Seq::empty());
                none
            },
        },
    };
    assert(step_views(steps@) == source_steps(
        path@,
        is_dir,
        parent_exists,
        *listing,
        package_root@,
    ));
    let target = input_target_name(path);
    push_step(
        &mut steps,
        GatherStep::WriteFile {
            path: join_path(package_root, target.as_str()),
            contents: input.to_owned(),
        },
    );
    match copy_linked_inputs(package_root, linked) {
        Err(error) => Err(error),
        Ok(more) => {
            append_steps(&mut steps, more);
            Ok(steps)
        },
    }
}

/// Whether a step may stand among those that copy by a rule: the input is not copied where the
/// rule leaves it out, nor is a WIT file beside an input that stands for itself.
pub open spec fn step_obeys(rule: CopyRule, step: GatherStepView, input_path: Seq<char>) -> bool {
    match step {
        GatherStepView::CopyFile { source, .. } => {
            &&& rule != CopyRule::Everything ==> !crate::wit::workspace::is_same_path(
                source,
                input_path,
            )
            &&& rule == CopyRule::Standalone ==> !crate::wit::workspace::is_wit_path(source)
        },
        GatherStepView::MakeDirectory { .. } => rule == CopyRule::Everything,
        GatherStepView::WriteFile { .. } => false,
    }
}

/// Whether every step may stand among those that copy by a rule.
pub open spec fn steps_obey(
    rule: CopyRule,
    steps: Seq<GatherStepView>,
    input_path: Seq<char>,
) -> bool {
    forall|i: int| 0 <= i < steps.len() ==> step_obeys(rule, #[trigger] steps[i], input_path)
}

/// The steps that copy entries keep to the rule.
proof fn lemma_entries_obey(
    rule: CopyRule,
    listing: Listing,
    count: nat,
    source: Seq<char>,
    destination: Seq<char>,
    input_path: Seq<char>,
)
    requires
        count <= listing.entries@.len(),
    ensures
        steps_obey(
            rule,
            copied_entries(rule, listing, count, source, destination, input_path),
            input_path,
        ),
    decreases listing, count,
{
    if count > 0 {
        let least = (count - 1) as nat;
        let before = copied_entries(rule, listing, least, source, destination, input_path);
        lemma_entries_obey(rule, listing, least, source, destination, input_path);
        let entry = listing.entries@[count - 1];
        let from = crate::paths::joined_path(source, entry_name(entry));
        let to = crate::paths::joined_path(destination, entry_name(entry));
        let inner = copied_directory(rule, entry, from, to, input_path);
        if entry is Directory {
            let below = entry->Directory_1;
            lemma_entries_obey(rule, below, below.entries@.len(), from, to, input_path);
        }
        assert(steps_obey(rule, inner, input_path));
        assert(steps_obey(rule, made_directory(rule, to) + inner, input_path));
        let more = match ruled_entry(rule, from, input_path, entry is Directory) {
            EntryAction::Skip => Seq::empty(),
            EntryAction::Copy => seq![GatherStepView::CopyFile { source: from, destination: to }],
            EntryAction::Descend => made_directory(rule, to) + inner,
        };
        assert(steps_obey(rule, more, input_path));
        assert(steps_obey(rule, before + more, input_path));
    }
}

/// A package is gathered without copying the input, which is written as it was read; beside an
/// input that stands for itself no WIT file is copied.
pub proof fn law_input_is_not_copied(
    rule: CopyRule,
    listing: Listing,
    source: Seq<char>,
    destination: Seq<char>,
    input_path: Seq<char>,
)
    requires
        rule != CopyRule::Everything,
    ensures
        forall|i: int|
            #![trigger copied_listing(rule, listing, source, destination, input_path)[i]]
            0 <= i < copied_listing(
                rule,
                listing,
                source,
                destination,
                input_path,
            ).len() ==> (copied_listing(
                rule,
                listing,
                source,
                destination,
                input_path,
            )[i] matches GatherStepView::CopyFile { source: from, .. }
                && !crate::wit::workspace::is_same_path(from, input_path) && (rule
                == CopyRule::Standalone ==> !crate::wit::workspace::is_wit_path(from))),
{
    lemma_entries_obey(
        rule,
        listing,
        listing.entries@.len(),
        source,
        destination,
        input_path,
    );
}

} // verus!
