//! The Go packages that generated code imports, each under an alias of its own.

use indexmap::IndexMap;
use vstd::prelude::*;

use crate::plan::PlannedProtoTypeInfo;
use crate::text::{chars_of, find_char, last_segment_of, replace_char, strip_prefix, text_between};
use crate::unique::first_free_name;

verus! {

/// `indexmap::IndexMap`, a map that keeps the order of insertion.
#[verifier::external_type_specification]
#[verifier::external_body]
#[verifier::reject_recursive_types(K)]
#[verifier::reject_recursive_types(V)]
#[verifier::reject_recursive_types(S)]
pub struct ExIndexMap<K, V, S>(indexmap::IndexMap<K, V, S>);

/// The keys and values of a map from texts to texts, in the order of insertion.
pub uninterp spec fn map_entries(map: IndexMap<String, String>) -> Seq<(Seq<char>, Seq<char>)>;

/// `IndexMap::new`: the map has no entries.
#[verifier::external_body]
fn new_map() -> (map: IndexMap<String, String>)
    ensures
        map_entries(map) == Seq::<(Seq<char>, Seq<char>)>::empty(),
{
    IndexMap::new()
}

/// `IndexMap::len`: the number of entries.
#[verifier::external_body]
fn map_len(map: &IndexMap<String, String>) -> (len: usize)
    ensures
        len == map_entries(*map).len(),
{
    map.len()
}

/// `IndexMap::get_index`: the entry at a place in the order of insertion.
#[verifier::external_body]
fn map_entry(map: &IndexMap<String, String>, index: usize) -> (entry: Option<(String, String)>)
    ensures
        match entry {
            Some(entry) => index < map_entries(*map).len() && map_entries(*map)[index as int] == (
                entry.0@,
                entry.1@,
            ),
            None => index >= map_entries(*map).len(),
        },
{
    map.get_index(index).map(|(key, value)| (key.clone(), value.clone()))
}

/// `IndexMap::insert` of a key that the map does not hold: the entry is added at the end.
#[verifier::external_body]
fn map_insert(map: &mut IndexMap<String, String>, key: String, value: String)
    requires
        forall|i: int| 0 <= i < map_entries(*old(map)).len()
            ==> map_entries(*old(map))[i].0 != key@,
    ensures
        map_entries(*final(map)) == map_entries(*old(map)).push((key@, value@)),
{
    map.insert(key, value);
}

/// `IndexMap::get`: the value under a key.
#[verifier::external_body]
fn map_get(map: &IndexMap<String, String>, key: &str) -> (value: Option<String>)
    ensures
        match value {
            Some(value) => exists|i: int|
                0 <= i < map_entries(*map).len() && #[trigger] map_entries(*map)[i] == (
                    key@,
                    value@,
                ),
            None => forall|i: int|
                0 <= i < map_entries(*map).len() ==> (#[trigger] map_entries(*map)[i]).0 != key@,
        },
{
    map.get(key).cloned()
}

/// A Go type that protobuf declares: the package that it stands in, the alias that the package
/// asks for, and its name there.
#[derive(Debug, Clone)]
pub struct GoProtoRef {
    pub import_path: String,
    pub alias: String,
    pub local_name: String,
}

impl GoProtoRef {
    /// The type behind the alias of its package.
    pub fn qualified(&self, alias: &str) -> (text: String)
        ensures
            text@ == alias@ + "."@ + self.local_name@,
    {
        alias.to_owned().concat(".").concat(self.local_name.as_str())
    }
}

/// The path and the alias that a `go_package` option gives: an alias stands behind a semicolon,
/// else it is the last segment of the path.
pub open spec fn go_package_parts(go_package: Seq<char>) -> (Seq<char>, Seq<char>) {
    let at = crate::text::first_index(go_package, ';');
    if 0 <= at < go_package.len() {
        (go_package.take(at), go_package.skip(at + 1))
    } else {
        (go_package, crate::text::last_segment(go_package, '/'))
    }
}

/// The path and the alias that a `go_package` option gives.
pub fn parse_go_package_option(go_package: &str) -> (parts: (String, String))
    ensures
        (parts.0@, parts.1@) == go_package_parts(go_package@),
{
    let chars = chars_of(go_package);
    assert(chars@.skip(0) =~= chars@);
    let at = find_char(&chars, ';', 0);
    if at < chars.len() {
        assert(chars@.subrange(0, at as int) =~= chars@.take(at as int));
        assert(chars@.subrange(at + 1, chars@.len() as int) =~= chars@.skip(at + 1));
        (text_between(&chars, 0, at), text_between(&chars, at + 1, chars.len()))
    } else {
        (go_package.to_owned(), last_segment_of(go_package, '/'))
    }
}

/// The name of a type below its package; all of it where it stands in none.
pub open spec fn name_below_package(info: PlannedProtoTypeInfo) -> Seq<char> {
    if info.package@.len() == 0 {
        info.full_name@
    } else {
        match crate::text::without_prefix(info.full_name@, info.package@ + "."@) {
            Some(relative) => relative,
            None => info.full_name@,
        }
    }
}

/// The path, the alias and the name of the Go type of a protobuf type, where its file names a Go
/// package.
pub open spec fn go_ref_of(info: PlannedProtoTypeInfo) -> Option<
    (Seq<char>, Seq<char>, Seq<char>),
> {
    match info.go_package {
        Some(go_package) => {
            let parts = go_package_parts(go_package@);
            Some(
                (
                    parts.0,
                    parts.1,
                    crate::text::replaced_char(name_below_package(info), '.', "_"@),
                ),
            )
        },
        None => None,
    }
}

/// The Go type of a protobuf type.
pub fn go_proto_ref(info: &PlannedProtoTypeInfo) -> (reference: Option<GoProtoRef>)
    ensures
        match (reference, go_ref_of(*info)) {
            (Some(reference), Some(view)) => (
                reference.import_path@,
                reference.alias@,
                reference.local_name@,
            ) == view,
            (None, None) => true,
            _ => false,
        },
{
    match &info.go_package {
        Some(go_package) => {
            let (import_path, alias) = parse_go_package_option(go_package.as_str());
            let relative = if info.package.as_str().is_empty() {
                info.full_name.clone()
            } else {
                match strip_prefix(
                    info.full_name.as_str(),
                    info.package.clone().concat(".").as_str(),
                ) {
                    Some(relative) => relative,
                    None => info.full_name.clone(),
                }
            };
            Some(
                GoProtoRef {
                    import_path,
                    alias,
                    local_name: replace_char(relative.as_str(), '.', "_"),
                },
            )
        },
        None => None,
    }
}

/// The imported packages with their aliases, in the order of their first use.
pub type ImportEntries = Seq<(Seq<char>, Seq<char>)>;

/// The aliases of the imports.
pub open spec fn aliases_of(imports: ImportEntries) -> Seq<Seq<char>> {
    imports.map_values(|entry: (Seq<char>, Seq<char>)| entry.1)
}

/// The alias of a package, where it is imported.
pub open spec fn alias_of(imports: ImportEntries, path: Seq<char>) -> Option<Seq<char>>
    decreases imports.len(),
{
    if imports.len() == 0 {
        None
    } else if imports.last().0 == path {
        Some(imports.last().1)
    } else {
        alias_of(imports.drop_last(), path)
    }
}

/// The alias that a package is given: the one that it has, else the one that it asks for, with
/// the first number from two on that sets it apart.
pub open spec fn chosen_alias(imports: ImportEntries, path: Seq<char>, wanted: Seq<char>) -> Seq<
    char,
> {
    match alias_of(imports, path) {
        Some(alias) => alias,
        None => crate::unique::free_name(wanted, ""@, aliases_of(imports)),
    }
}

/// The imports with the package among them.
pub open spec fn with_import(
    imports: ImportEntries,
    path: Seq<char>,
    wanted: Seq<char>,
) -> ImportEntries {
    match alias_of(imports, path) {
        Some(_) => imports,
        None => imports.push((path, chosen_alias(imports, path, wanted))),
    }
}

/// Whether no package and no alias stands twice.
pub open spec fn imports_distinct(imports: ImportEntries) -> bool {
    forall|i: int, j: int|
        0 <= i < j < imports.len() ==> (#[trigger] imports[i]).0 != (#[trigger] imports[j]).0
        && imports[i].1 != imports[j].1
}

proof fn lemma_alias_of(imports: ImportEntries, path: Seq<char>)
    ensures
        match alias_of(imports, path) {
            Some(alias) => imports.contains((path, alias)),
            None => forall|i: int| 0 <= i < imports.len() ==> (#[trigger] imports[i]).0 != path,
        },
    decreases imports.len(),
{
    if imports.len() > 0 && imports.last().0 != path {
        lemma_alias_of(imports.drop_last(), path);
        match alias_of(imports, path) {
            Some(alias) => {
                let k = choose|k: int|
                    0 <= k < imports.drop_last().len() && imports.drop_last()[k] == (path, alias);
                assert(imports[k] == (path, alias));
            },
            None => {
                assert forall|i: int| 0 <= i < imports.len() implies (#[trigger] imports[i]).0
                    != path by {
                    if i < imports.len() - 1 {
                        assert(imports.drop_last()[i] == imports[i]);
                    }
                }
            },
        }
    } else if imports.len() > 0 {
        assert(imports[imports.len() - 1] == imports.last());
    }
}

/// Importing a package keeps every alias that was given, and keeps the packages and the aliases
/// apart.
pub proof fn law_import_keeps_aliases(imports: ImportEntries, path: Seq<char>, wanted: Seq<char>)
    requires
        imports_distinct(imports),
    ensures
        imports_distinct(with_import(imports, path, wanted)),
        alias_of(with_import(imports, path, wanted), path) == Some(
            chosen_alias(imports, path, wanted),
        ),
        forall|other: Seq<char>|
            alias_of(imports, other) is Some ==> #[trigger] alias_of(
                with_import(imports, path, wanted),
                other,
            ) == alias_of(imports, other),
{
    lemma_alias_of(imports, path);
    if alias_of(imports, path) is None {
        let aliases = aliases_of(imports);
        crate::unique::law_free_name_is_free(wanted, ""@, aliases);
        let after = with_import(imports, path, wanted);
        assert(after.drop_last() =~= imports);
        assert forall|i: int, j: int| 0 <= i < j < after.len() implies (#[trigger] after[i]).0 != (
        #[trigger] after[j]).0 && after[i].1 != after[j].1 by {
            assert(after[i] == imports[i]);
            if j < imports.len() {
                assert(after[j] == imports[j]);
            } else {
                assert(aliases[i] == imports[i].1);
            }
        }
        assert forall|other: Seq<char>| alias_of(imports, other) is Some implies #[trigger] alias_of(
            after,
            other,
        ) == alias_of(imports, other) by {
            lemma_alias_of(imports, other);
        }
    }
}

/// Importing a package a second time changes nothing.
pub proof fn law_import_once(
    imports: ImportEntries,
    path: Seq<char>,
    wanted: Seq<char>,
    again: Seq<char>,
)
    requires
        imports_distinct(imports),
    ensures
        with_import(with_import(imports, path, wanted), path, again) == with_import(
            imports,
            path,
            wanted,
        ),
        chosen_alias(with_import(imports, path, wanted), path, again) == chosen_alias(
            imports,
            path,
            wanted,
        ),
{
    law_import_keeps_aliases(imports, path, wanted);
}

/// Collects the packages that generated code imports, each once and under an alias of its own.
#[derive(Debug)]
pub struct GoImportCollector {
    by_path: IndexMap<String, String>,
}

impl View for GoImportCollector {
    type V = ImportEntries;

    closed spec fn view(&self) -> ImportEntries {
        map_entries(self.by_path)
    }
}

impl GoImportCollector {
    /// No package and no alias stands twice.
    pub open spec fn wf(&self) -> bool {
        imports_distinct(self@)
    }

    /// No imports.
    pub fn new() -> (imports: Self)
        ensures
            imports.wf(),
            imports@ == ImportEntries::empty(),
    {
        GoImportCollector { by_path: new_map() }
    }

    /// The aliases that are given.
    fn used_aliases(&self) -> (aliases: Vec<String>)
        ensures
            crate::text::texts(aliases@) == aliases_of(self@),
    {
        broadcast use crate::text::group_texts;

        let ghost all = aliases_of(self@);
        let mut aliases: Vec<String> = Vec::new();
        let mut i: usize = 0;
        let len = map_len(&self.by_path);
        assert(crate::text::texts(aliases@) =~= all.take(0));
        while i < len
            invariant
                i <= len,
                len == self@.len(),
                self@ == map_entries(self.by_path),
                all == aliases_of(self@),
                crate::text::texts(aliases@) == all.take(i as int),
            decreases len - i,
        {
            match map_entry(&self.by_path, i) {
                Some(entry) => {
                    aliases.push(entry.1);
                },
                None => {
                    assert(false);
                },
            }
            assert(all.take(i + 1) =~= all.take(i as int).push(all[i as int]));
            i += 1;
        }
        assert(all.take(len as int) =~= all);
        aliases
    }

    /// Imports the package of the type, and gives its alias.
    pub fn register(&mut self, proto_ref: &GoProtoRef) -> (alias: String)
        requires
            old(self).wf(),
        ensures
            final(self).wf(),
            final(self)@ == with_import(
                old(self)@,
                proto_ref.import_path@,
                proto_ref.alias@,
            ),
            alias@ == chosen_alias(old(self)@, proto_ref.import_path@, proto_ref.alias@),
    {
        let ghost before = self@;
        proof {
            law_import_keeps_aliases(before, proto_ref.import_path@, proto_ref.alias@);
            lemma_alias_of(before, proto_ref.import_path@);
        }
        match map_get(&self.by_path, proto_ref.import_path.as_str()) {
            Some(alias) => {
                proof {
                    let i = choose|i: int|
                        0 <= i < before.len() && #[trigger] before[i] == (
                            proto_ref.import_path@,
                            alias@,
                        );
                    assert(before[i].0 == proto_ref.import_path@);
                    let found = alias_of(before, proto_ref.import_path@)->Some_0;
                    let k = choose|k: int|
                        0 <= k < before.len() && before[k] == (proto_ref.import_path@, found);
                    if i < k {
                        assert(before[i].0 != before[k].0);
                    } else if k < i {
                        assert(before[k].0 != before[i].0);
                    }
                }
                alias
            },
            None => {
                proof {
                    if alias_of(before, proto_ref.import_path@) is Some {
                        let found = alias_of(before, proto_ref.import_path@)->Some_0;
                        let k = choose|k: int|
                            0 <= k < before.len() && before[k] == (proto_ref.import_path@, found);
                        assert(before[k].0 == proto_ref.import_path@);
                    }
                }
                let used = self.used_aliases();
                let alias = first_free_name(proto_ref.alias.as_str(), "", &used);
                map_insert(&mut self.by_path, proto_ref.import_path.clone(), alias.clone());
                alias
            },
        }
    }

    /// The imported packages with their aliases, in the order of their first use.
    pub fn paths(&self) -> (paths: Vec<(String, String)>)
        ensures
            paths@.len() == self@.len(),
            forall|i: int|
                0 <= i < paths@.len() ==> ((#[trigger] paths@[i]).0@, paths@[i].1@) == self@[i],
    {
        let mut paths: Vec<(String, String)> = Vec::new();
        let mut i: usize = 0;
        let len = map_len(&self.by_path);
        while i < len
            invariant
                i <= len,
                len == self@.len(),
                self@ == map_entries(self.by_path),
                paths@.len() == i,
                forall|k: int|
                    0 <= k < i ==> ((#[trigger] paths@[k]).0@, paths@[k].1@) == self@[k],
            decreases len - i,
        {
            match map_entry(&self.by_path, i) {
                Some(entry) => {
                    paths.push(entry);
                },
                None => {
                    assert(false);
                },
            }
            i += 1;
        }
        paths
    }
}

} // verus!
