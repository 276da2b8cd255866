//! How WIT inputs are gathered into one package, and where their support files come from.

use nexgen::error::Error;
use nexgen::wit::gather::{
    copy_directory_tree, copy_linked_input, copy_linked_inputs, copy_package_source_dir,
    copy_standalone_input_support_dir, linked_input_path_is_package_dir, prepare_wit_workspace,
    GatherStep, LinkedInput, ListedEntry, Listing,
};
use nexgen::wit::support::{collect_package_origins, resolve_support_path, PackageFiles};
use nexgen::wit::workspace::{
    check_output_absent, has_wit_extension, input_package_source_dir, input_support_source_dir,
    input_target_name, linked_input_package_dir_name, parent_of_path, split_input_paths,
};

fn file(name: &str) -> ListedEntry {
    ListedEntry::File(name.to_string())
}

fn dir(name: &str, entries: Vec<ListedEntry>) -> ListedEntry {
    ListedEntry::Directory(name.to_string(), Listing { entries })
}

fn copied(source: &str, destination: &str) -> GatherStep {
    GatherStep::CopyFile { source: source.to_string(), destination: destination.to_string() }
}

fn made(path: &str) -> GatherStep {
    GatherStep::MakeDirectory { path: path.to_string() }
}

fn written(path: &str, contents: &str) -> GatherStep {
    GatherStep::WriteFile { path: path.to_string(), contents: contents.to_string() }
}

fn sources() -> Listing {
    Listing {
        entries: vec![
            file("main.wit"),
            file("types.wit"),
            file("helpers.py"),
            dir("deps", vec![dir("common", vec![file("common.wit")])]),
            dir("support", vec![file("more.go"), file("extra.wit"), dir("empty", vec![])]),
        ],
    }
}

#[test]
fn package_is_copied_without_the_input() {
    let steps = copy_package_source_dir(&sources(), "in", "out", "in/main.wit");
    assert_eq!(
        steps,
        vec![
            copied("in/types.wit", "out/types.wit"),
            copied("in/helpers.py", "out/helpers.py"),
            copied("in/deps/common/common.wit", "out/deps/common/common.wit"),
            copied("in/support/more.go", "out/support/more.go"),
            copied("in/support/extra.wit", "out/support/extra.wit"),
        ],
    );
}

#[test]
fn standalone_input_takes_no_wit_files_along() {
    let steps = copy_standalone_input_support_dir(&sources(), "in", "out", "in/types.wit");
    assert_eq!(
        steps,
        vec![
            copied("in/helpers.py", "out/helpers.py"),
            copied("in/support/more.go", "out/support/more.go"),
        ],
    );
}

#[test]
fn directory_tree_is_copied_whole() {
    let tree = Listing { entries: vec![file("a.wit"), dir("b", vec![file("c"), dir("d", vec![])])] };
    assert_eq!(
        copy_directory_tree(&tree, "in", "out"),
        vec![
            copied("in/a.wit", "out/a.wit"),
            made("out/b"),
            copied("in/b/c", "out/b/c"),
            made("out/b/d"),
        ],
    );
}

#[test]
fn package_directory_holds_a_wit_file() {
    assert!(linked_input_path_is_package_dir("in", &sources()));
    let none = Listing { entries: vec![file("wit"), dir("deps", vec![file("a.wit")])] };
    assert!(!linked_input_path_is_package_dir("in", &none));
    // A directory whose name ends so counts too.
    let named = Listing { entries: vec![dir("a.wit", vec![])] };
    assert!(linked_input_path_is_package_dir("in", &named));
}

#[test]
fn linked_inputs_become_packages() {
    let linked = LinkedInput { path: "libs/common.wit".to_string(), listing: None };
    assert_eq!(
        copy_linked_input("root", &linked).unwrap(),
        vec![copied("libs/common.wit", "root/deps/common/common.wit")],
    );
    let package = LinkedInput {
        path: "libs/common".to_string(),
        listing: Some(Listing { entries: vec![file("a.wit"), file("b.txt")] }),
    };
    assert_eq!(
        copy_linked_input("root", &package).unwrap(),
        vec![
            copied("libs/common/a.wit", "root/deps/common/a.wit"),
            copied("libs/common/b.txt", "root/deps/common/b.txt"),
        ],
    );
    // A directory without a WIT file is looked through.
    let collection = LinkedInput {
        path: "libs".to_string(),
        listing: Some(Listing {
            entries: vec![
                file("readme.md"),
                dir("common", vec![file("a.wit")]),
                dir("nested", vec![dir("other", vec![file("o.wit")])]),
            ],
        }),
    };
    assert_eq!(
        copy_linked_inputs("root", &vec![collection]).unwrap(),
        vec![
            copied("libs/common/a.wit", "root/deps/common/a.wit"),
            copied("libs/nested/other/o.wit", "root/deps/other/o.wit"),
        ],
    );
}

#[test]
fn linked_input_without_a_name_is_refused() {
    let linked = LinkedInput { path: "..".to_string(), listing: None };
    match copy_linked_inputs("root", &vec![linked]) {
        Err(Error::InvalidWit { path, reason }) => {
            assert_eq!(path, "..");
            assert_eq!(reason, "linked WIT input path must name a package directory");
        }
        other => panic!("unexpected {other:?}"),
    }
    assert_eq!(linked_input_package_dir_name("a/b.wit").unwrap(), "b");
    assert_eq!(linked_input_package_dir_name("a/b.txt").unwrap(), "b.txt");
}

#[test]
fn workspace_is_the_input_with_what_belongs_to_it() {
    let linked = vec![LinkedInput { path: "libs/l.wit".to_string(), listing: None }];
    let steps = prepare_wit_workspace(
        "package a:b;",
        "in/main.wit",
        false,
        true,
        &Listing { entries: vec![file("main.wit"), file("types.wit")] },
        "root",
        &linked,
    )
    .unwrap();
    assert_eq!(
        steps,
        vec![
            copied("in/types.wit", "root/types.wit"),
            written("root/main.wit", "package a:b;"),
            copied("libs/l.wit", "root/deps/l/l.wit"),
        ],
    );

    // Beside an input of another name, WIT files stay where they are.
    let steps = prepare_wit_workspace(
        "package a:b;",
        "in/api.wit",
        false,
        true,
        &Listing { entries: vec![file("api.wit"), file("types.wit"), file("h.py")] },
        "root",
        &vec![],
    )
    .unwrap();
    assert_eq!(steps, vec![copied("in/h.py", "root/h.py"), written("root/api.wit", "package a:b;")]);

    // An input that stands nowhere is written alone.
    let steps = prepare_wit_workspace(
        "package a:b;",
        "inline.wit",
        false,
        false,
        &Listing { entries: vec![] },
        "root",
        &vec![],
    )
    .unwrap();
    assert_eq!(steps, vec![written("root/inline.wit", "package a:b;")]);
}

#[test]
fn inputs_stand_in_directories() {
    assert_eq!(input_package_source_dir("in", true, true), Some("in".to_string()));
    assert_eq!(input_package_source_dir("in/main.wit", false, true), Some("in".to_string()));
    assert_eq!(input_package_source_dir("in/main.wit", false, false), None);
    assert_eq!(input_package_source_dir("in/api.wit", false, true), None);
    assert_eq!(input_package_source_dir("main.wit", false, true), None);
    assert_eq!(input_support_source_dir("in/api.wit", false, true), Some("in".to_string()));
    assert_eq!(input_support_source_dir("in", true, true), None);
    assert_eq!(input_target_name("in/api.wit"), "api.wit");
    assert_eq!(input_target_name(".."), "input.wit");
    assert_eq!(parent_of_path("/"), None);
    assert_eq!(parent_of_path("a"), Some("".to_string()));
    assert_eq!(parent_of_path("/a"), Some("/".to_string()));
    assert!(has_wit_extension("a/b.wit"));
    assert!(!has_wit_extension(".wit"));
    assert!(!has_wit_extension("b.WIT"));
}

#[test]
fn first_input_is_the_main_one() {
    let paths = vec!["a.wit".to_string(), "b".to_string()];
    assert_eq!(split_input_paths(&paths).unwrap(), ("a.wit".to_string(), vec!["b".to_string()]));
    assert!(split_input_paths(&vec![]).is_err());
}

#[test]
fn prepared_package_is_written_where_nothing_stands() {
    assert!(check_output_absent("out", false).is_ok());
    match check_output_absent("out", true) {
        Err(Error::OutputPathExists { path }) => assert_eq!(path, "out"),
        other => panic!("unexpected {other:?}"),
    }
}

#[test]
fn packages_come_from_the_directory_of_their_first_file() {
    let files = vec![
        PackageFiles {
            package: 0,
            paths: vec!["root/types.wit".to_string(), "root/main.wit".to_string()],
        },
        PackageFiles { package: 1, paths: vec![] },
        PackageFiles { package: 2, paths: vec!["x.wit".to_string()] },
    ];
    let origins = collect_package_origins(&files).unwrap();
    assert_eq!(origins.len(), 2);
    assert_eq!((origins[0].package, origins[0].path.as_str()), (0, "root"));
    assert_eq!(origins[1].package, 2);
    assert!(collect_package_origins(&vec![]).is_err());
    assert_eq!(resolve_support_path("root", "helpers.py"), "root/helpers.py");
    assert_eq!(resolve_support_path("root", "/helpers.py"), "/helpers.py");
}
