//! Which files of the inputs are gathered into a WIT package, and where.

use vstd::prelude::*;

use crate::error::{Error, ErrorView};
use crate::paths::{file_name, parts_of_path, place_paths, Placement};
use crate::text::{chars_of, text_between, text_eq};
use crate::wit::directive::wit_error;

verus! {

/// A path without the separators and `.` parts at its end that mean nothing.
pub open spec fn path_without_end(path: Seq<char>) -> Seq<char>
    decreases path.len(),
{
    if path.len() > 1 && path.last() == '/' {
        path_without_end(path.drop_last())
    } else if path.len() > 1 && path.last() == '.' && path[path.len() - 2] == '/' {
        path_without_end(path.drop_last())
    } else {
        path
    }
}

/// The path of the directory that a path stands in. The root and the empty path stand in none.
pub open spec fn parent_path(path: Seq<char>) -> Option<Seq<char>> {
    let whole = path_without_end(path);
    if whole.len() == 0 || whole == seq!['/'] {
        None
    } else {
        Some(path_without_end(whole.take(crate::text::after_last_index(whole, '/'))))
    }
}

/// How much of the characters is left without what means nothing at their end.
fn end_of_path(chars: &Vec<char>, length: usize) -> (end: usize)
    requires
        length <= chars.len(),
    ensures
        end <= length,
        chars@.take(end as int) == path_without_end(chars@.take(length as int)),
{
    let mut end: usize = length;
    while end > 1 && (chars[end - 1] == '/' || (chars[end - 1] == '.' && chars[end - 2] == '/'))
        invariant
            end <= length <= chars.len(),
            path_without_end(chars@.take(end as int)) == path_without_end(
                chars@.take(length as int),
            ),
        decreases end,
    {
        let ghost here = chars@.take(end as int);
        assert(here.drop_last() =~= chars@.take(end - 1));
        assert(here.last() == chars@[end - 1]);
        assert(here[here.len() - 2] == chars@[end - 2]);
        end -= 1;
    }
    proof {
        let here = chars@.take(end as int);
        if end > 1 {
            assert(here.last() == chars@[end - 1]);
            assert(here[here.len() - 2] == chars@[end - 2]);
        }
    }
    end
}

/// The path of the directory that a path stands in.
pub fn parent_of_path(path: &str) -> (parent: Option<String>)
    ensures
        crate::text::opt_text(parent) == parent_path(path@),
{
    let chars = chars_of(path);
    assert(chars@.take(chars@.len() as int) =~= chars@);
    let end = end_of_path(&chars, chars.len());
    let ghost whole = chars@.take(end as int);
    if end == 0 || (end == 1 && chars[0] == '/') {
        assert(end == 1 ==> whole =~= seq!['/']);
        return None;
    }
    assert(whole != seq!['/']) by {
        if end == 1 {
            assert(whole[0] == chars@[0]);
        }
    }
    let mut from: usize = end;
    assert(whole.take(end as int) =~= whole);
    while from > 0 && chars[from - 1] != '/'
        invariant
            from <= end <= chars.len(),
            whole == chars@.take(end as int),
            crate::text::after_last_index(whole, '/') == crate::text::after_last_index(
                whole.take(from as int),
                '/',
            ),
        decreases from,
    {
        assert(whole.take(from as int).drop_last() =~= whole.take(from - 1));
        from -= 1;
    }
    assert(whole.take(from as int).len() == from);
    assert(crate::text::after_last_index(whole, '/') == from);
    assert(whole.take(from as int) =~= chars@.take(from as int));
    let kept = end_of_path(&chars, from);
    assert(chars@.subrange(0, kept as int) =~= chars@.take(kept as int));
    Some(text_between(&chars, 0, kept))
}

/// The path of the directory that a path stands in, or that of where it is read from.
pub open spec fn parent_or_here_text(path: Seq<char>) -> Seq<char> {
    match parent_path(path) {
        Some(parent) => parent,
        None => "."@,
    }
}

/// The path of the directory that a path stands in, or that of where it is read from.
pub fn parent_or_here(path: &str) -> (result: String)
    ensures
        result@ == parent_or_here_text(path@),
{
    match parent_of_path(path) {
        Some(parent) => parent,
        None => ".".to_owned(),
    }
}

/// The name at the end of a path.
pub open spec fn name_of_path(path: Seq<char>) -> Option<Seq<char>> {
    crate::paths::final_name(crate::paths::path_parts(path))
}

/// The name at the end of a path.
pub fn file_name_of(path: &str) -> (name: Option<String>)
    ensures
        crate::text::opt_text(name) == name_of_path(path@),
{
    let parts = parts_of_path(path);
    file_name(&parts)
}

/// Where the extension of a file name starts, behind its last dot; a dot at the front starts none.
pub open spec fn extension_start(name: Seq<char>) -> Option<int> {
    let at = crate::text::after_last_index(name, '.');
    if at <= 1 {
        None
    } else {
        Some(at)
    }
}

/// Where the extension of a file name starts.
fn find_extension(chars: &Vec<char>) -> (start: Option<usize>)
    ensures
        match (start, extension_start(chars@)) {
            (Some(found), Some(wanted)) => found == wanted && 2 <= found <= chars.len(),
            (None, None) => true,
            _ => false,
        },
{
    let mut at: usize = chars.len();
    assert(chars@.take(at as int) =~= chars@);
    while at > 0 && chars[at - 1] != '.'
        invariant
            at <= chars.len(),
            crate::text::after_last_index(chars@, '.') == crate::text::after_last_index(
                chars@.take(at as int),
                '.',
            ),
        decreases at,
    {
        assert(chars@.take(at as int).drop_last() =~= chars@.take(at - 1));
        at -= 1;
    }
    assert(chars@.take(at as int).len() == at);
    assert(crate::text::after_last_index(chars@, '.') == at);
    if at <= 1 {
        None
    } else {
        Some(at)
    }
}

/// Whether a path names a file with the extension `wit`.
pub open spec fn is_wit_path(path: Seq<char>) -> bool {
    match name_of_path(path) {
        Some(name) => match extension_start(name) {
            Some(at) => name.skip(at) == "wit"@,
            None => false,
        },
        None => false,
    }
}

/// Whether a path names a file with the extension `wit`.
pub fn has_wit_extension(path: &str) -> (found: bool)
    ensures
        found == is_wit_path(path@),
{
    match file_name_of(path) {
        Some(name) => {
            let chars = chars_of(name.as_str());
            match find_extension(&chars) {
                Some(at) => {
                    assert(chars@.subrange(at as int, chars@.len() as int) =~= name@.skip(
                        at as int,
                    ));
                    let extension = text_between(&chars, at, chars.len());
                    text_eq(extension.as_str(), "wit")
                },
                None => false,
            }
        },
        None => false,
    }
}

/// A file name without its extension.
pub open spec fn stem_of_name(name: Seq<char>) -> Seq<char> {
    match extension_start(name) {
        Some(at) => name.take(at - 1),
        None => name,
    }
}

/// A file name without its extension.
fn file_stem(name: &str) -> (stem: String)
    ensures
        stem@ == stem_of_name(name@),
{
    let chars = chars_of(name);
    match find_extension(&chars) {
        Some(at) => {
            assert(chars@.subrange(0, at - 1) =~= name@.take(at - 1));
            text_between(&chars, 0, at - 1)
        },
        None => name.to_owned(),
    }
}

/// The directory that a linked input gets: its name, that of a WIT file without the extension.
pub open spec fn linked_dir_name_outcome(path: Seq<char>) -> Result<Seq<char>, ErrorView> {
    match name_of_path(path) {
        None => Err(
            crate::wit::directive::wit_failure(
                path,
                "linked WIT input path must name a package directory"@,
            ),
        ),
        Some(name) => {
            if is_wit_path(path) {
                Ok(stem_of_name(name))
            } else {
                Ok(name)
            }
        },
    }
}

/// The directory that a linked input gets: its name, that of a WIT file without the extension.
pub fn linked_input_package_dir_name(path: &str) -> (result: Result<String, Error>)
    ensures
        crate::error::outcome(result) == linked_dir_name_outcome(path@),
{
    match file_name_of(path) {
        None => Err(wit_error(path, "linked WIT input path must name a package directory")),
        Some(name) => {
            if has_wit_extension(path) {
                Ok(file_stem(name.as_str()))
            } else {
                Ok(name)
            }
        },
    }
}

/// The first of the inputs and those that are linked to it.
pub open spec fn split_inputs(
    paths: Seq<Seq<char>>,
) -> Result<(Seq<char>, Seq<Seq<char>>), ErrorView> {
    if paths.len() == 0 {
        Err(
            crate::wit::directive::wit_failure(
                "<input>"@,
                "at least one WIT input path is required"@,
            ),
        )
    } else {
        Ok((paths[0], paths.skip(1)))
    }
}

/// The first of the inputs and those that are linked to it.
pub fn split_input_paths(paths: &Vec<String>) -> (result: Result<(String, Vec<String>), Error>)
    ensures
        match (result, split_inputs(crate::text::texts(paths@))) {
            (Ok((first, rest)), Ok(wanted)) => (first@, crate::text::texts(rest@)) == wanted,
            (Err(error), Err(wanted)) => error@ == wanted,
            _ => false,
        },
{
    broadcast use crate::text::group_texts;

    let ghost all = crate::text::texts(paths@);
    if paths.len() == 0 {
        return Err(wit_error("<input>", "at least one WIT input path is required"));
    }
    let mut rest: Vec<String> = Vec::new();
    let mut i: usize = 1;
    assert(crate::text::texts(rest@) =~= all.subrange(1, 1));
    while i < paths.len()
        invariant
            1 <= i <= paths.len(),
            all == crate::text::texts(paths@),
            crate::text::texts(rest@) == all.subrange(1, i as int),
        decreases paths.len() - i,
    {
        let ghost before = rest@;
        rest.push(paths[i].clone());
        assert(crate::text::texts(rest@) =~= crate::text::texts(before).push(all[i as int]));
        assert(crate::text::texts(rest@) =~= all.subrange(1, i + 1));
        i += 1;
    }
    assert(all.subrange(1, i as int) =~= all.skip(1));
    Ok((paths[0].clone(), rest))
}

/// The name that an input has in the package.
pub open spec fn target_name(path: Seq<char>) -> Seq<char> {
    match name_of_path(path) {
        Some(name) => name,
        None => "input.wit"@,
    }
}

/// The name that an input has in the package.
pub fn input_target_name(path: &str) -> (result: String)
    ensures
        result@ == target_name(path@),
{
    match file_name_of(path) {
        Some(name) => name,
        None => "input.wit".to_owned(),
    }
}

/// The directory that an input stands in, where it is named and there.
pub open spec fn known_parent_path(path: Seq<char>, parent_exists: bool) -> Option<Seq<char>> {
    match parent_path(path) {
        None => None,
        Some(parent) => {
            if parent.len() == 0 || !parent_exists {
                None
            } else {
                Some(parent)
            }
        },
    }
}

/// The directory that an input stands in, where it is named and there.
pub fn known_parent(path: &str, parent_exists: bool) -> (result: Option<String>)
    ensures
        crate::text::opt_text(result) == known_parent_path(path@, parent_exists),
{
    match parent_of_path(path) {
        None => None,
        Some(parent) => {
            if parent.as_str().is_empty() || !parent_exists {
                None
            } else {
                Some(parent)
            }
        },
    }
}

/// The directory that is the package of an input: the input itself, or that of a `main.wit`.
pub open spec fn package_source_dir(
    path: Seq<char>,
    is_dir: bool,
    parent_exists: bool,
) -> Option<Seq<char>> {
    if is_dir {
        Some(path)
    } else {
        match name_of_path(path) {
            None => None,
            Some(name) => {
                if (name == "main.wit"@) {
                    known_parent_path(path, parent_exists)
                } else {
                    None
                }
            },
        }
    }
}

/// The directory that is the package of an input: the input itself, or that of a `main.wit`.
pub fn input_package_source_dir(
    path: &str,
    is_dir: bool,
    parent_exists: bool,
) -> (result: Option<String>)
    ensures
        crate::text::opt_text(result) == package_source_dir(path@, is_dir, parent_exists),
{
    if is_dir {
        Some(path.to_owned())
    } else {
        match file_name_of(path) {
            None => None,
            Some(name) => {
                if text_eq(name.as_str(), "main.wit") {
                    known_parent(path, parent_exists)
                } else {
                    None
                }
            },
        }
    }
}

/// The directory that holds the support files of an input that is a file.
pub open spec fn support_source_dir(
    path: Seq<char>,
    is_dir: bool,
    parent_exists: bool,
) -> Option<Seq<char>> {
    if is_dir {
        None
    } else {
        known_parent_path(path, parent_exists)
    }
}

/// The directory that holds the support files of an input that is a file.
pub fn input_support_source_dir(
    path: &str,
    is_dir: bool,
    parent_exists: bool,
) -> (result: Option<String>)
    ensures
        crate::text::opt_text(result) == support_source_dir(path@, is_dir, parent_exists),
{
    if is_dir {
        None
    } else {
        known_parent(path, parent_exists)
    }
}

/// What is done with an entry of a directory.
#[derive(Debug, Clone, Copy, PartialEq, Eq, Structural)]
pub enum EntryAction {
    Skip,
    Descend,
    Copy,
}

/// Whether two paths have the same parts.
pub open spec fn is_same_path(left: Seq<char>, right: Seq<char>) -> bool {
    crate::paths::path_parts(left) == crate::paths::path_parts(right)
}

/// Whether two paths have the same parts.
pub fn same_path(left: &str, right: &str) -> (same: bool)
    ensures
        same == is_same_path(left@, right@),
{
    matches!(place_paths(left, right), Placement::Same)
}

/// What is done with an entry of the directory of a package: all but the input is copied.
pub open spec fn package_entry(
    path: Seq<char>,
    input_path: Seq<char>,
    is_dir: bool,
) -> EntryAction {
    if is_same_path(path, input_path) {
        EntryAction::Skip
    } else if is_dir {
        EntryAction::Descend
    } else {
        EntryAction::Copy
    }
}

/// What is done with an entry of the directory of a package: all but the input is copied.
pub fn package_entry_action(path: &str, input_path: &str, is_dir: bool) -> (result: EntryAction)
    ensures
        result == package_entry(path@, input_path@, is_dir),
{
    if same_path(path, input_path) {
        EntryAction::Skip
    } else if is_dir {
        EntryAction::Descend
    } else {
        EntryAction::Copy
    }
}

/// What is done with an entry of the directory beside an input that stands for itself: all but
/// WIT files and the dependencies is copied.
pub open spec fn standalone_entry(
    path: Seq<char>,
    input_path: Seq<char>,
    is_dir: bool,
) -> EntryAction {
    if is_same_path(path, input_path) {
        EntryAction::Skip
    } else if is_dir {
        if path_is_named(path, "deps"@) {
            EntryAction::Skip
        } else {
            EntryAction::Descend
        }
    } else if is_wit_path(path) {
        EntryAction::Skip
    } else {
        EntryAction::Copy
    }
}

/// What is done with an entry of the directory beside an input that stands for itself: all but
/// WIT files and the dependencies is copied.
pub fn standalone_entry_action(
    path: &str,
    input_path: &str,
    is_dir: bool,
) -> (result: EntryAction)
    ensures
        result == standalone_entry(path@, input_path@, is_dir),
{
    if same_path(path, input_path) {
        EntryAction::Skip
    } else if is_dir {
        if is_named(path, "deps") {
            EntryAction::Skip
        } else {
            EntryAction::Descend
        }
    } else if has_wit_extension(path) {
        EntryAction::Skip
    } else {
        EntryAction::Copy
    }
}

/// Whether a path ends with a name.
pub open spec fn path_is_named(path: Seq<char>, wanted: Seq<char>) -> bool {
    match name_of_path(path) {
        Some(name) => name == wanted,
        None => false,
    }
}

/// Whether a path ends with a name.
pub fn is_named(path: &str, wanted: &str) -> (result: bool)
    ensures
        result == path_is_named(path@, wanted@),
{
    match file_name_of(path) {
        Some(name) => text_eq(name.as_str(), wanted),
        None => false,
    }
}

/// What is done with an entry of a directory of linked inputs: a directory is looked into, a WIT
/// file is a package.
pub open spec fn linked_entry(path: Seq<char>, is_dir: bool) -> EntryAction {
    if is_dir {
        EntryAction::Descend
    } else if is_wit_path(path) {
        EntryAction::Copy
    } else {
        EntryAction::Skip
    }
}

/// What is done with an entry of a directory of linked inputs: a directory is looked into, a WIT
/// file is a package.
pub fn linked_entry_action(path: &str, is_dir: bool) -> (result: EntryAction)
    ensures
        result == linked_entry(path@, is_dir),
{
    if is_dir {
        EntryAction::Descend
    } else if has_wit_extension(path) {
        EntryAction::Copy
    } else {
        EntryAction::Skip
    }
}

/// A prepared package is written only where nothing stands.
pub open spec fn output_absent_outcome(path: Seq<char>, exists: bool) -> Result<(), ErrorView> {
    if exists {
        Err(ErrorView::OutputPathExists { path: path })
    } else {
        Ok(())
    }
}

/// A prepared package is written only where nothing stands.
pub fn check_output_absent(path: &str, exists: bool) -> (result: Result<(), Error>)
    ensures
        crate::error::outcome(result) == output_absent_outcome(path@, exists),
{
    if exists {
        Err(Error::OutputPathExists { path: path.to_owned() })
    } else {
        Ok(())
    }
}

} // verus!
