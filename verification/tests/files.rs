//! Generated files: where they come from, and how they collide.

use nexgen::error::Error;
use nexgen::files::{GeneratedFileMap, GeneratedFileOrigin, GeneratedFiles, GeneratedOutputLayout};
use nexgen::language::Language;
use nexgen::paths::PathMap;

fn path_map(entries: &[(&str, &str)]) -> PathMap<String> {
    let mut map = PathMap::new();
    for (path, contents) in entries {
        map.insert_new(path.to_string(), contents.to_string());
    }
    map
}

fn entries_of(map: &PathMap<String>) -> Vec<(String, String)> {
    (0..map.len())
        .map(|i| (map.path_at(i).clone(), map.value_at(i).clone()))
        .collect()
}

#[test]
fn output_directory_named_origin_uses_its_target_language() {
    let origin = GeneratedFileOrigin::output_directory_named_module(Language::TypeScript, "client");

    assert_eq!(
        origin.description(),
        "TypeScript module derived from output directory `client`"
    );
    assert_eq!(
        origin.path_changing_action().as_deref(),
        Some(
            "point `--output` at a directory whose name generates a different TypeScript file path"
        )
    );
}

#[test]
fn generated_file_insert_reports_both_mutable_origins_and_actions() {
    let mut files = GeneratedFileMap::new();
    let first = GeneratedFileOrigin::operation(Language::Python, "First", "collide");
    let second = GeneratedFileOrigin::operation(Language::Python, "Second", "collide");
    files
        .insert("models.py", "first".to_string(), first.clone())
        .unwrap();
    let error = files
        .insert("models.py", "second".to_string(), second.clone())
        .unwrap_err();
    let Error::GeneratedFileSourceConflict {
        path,
        first_source,
        second_source,
        remedy,
    } = error
    else {
        panic!("expected generated-file source conflict, got {error:?}");
    };
    assert_eq!(path, "models.py");
    assert_eq!(first_source, "Python operation `First.collide`");
    assert_eq!(second_source, "Python operation `Second.collide`");
    assert!(remedy.contains("rename operation `collide` in service `First`"));
    assert!(remedy.contains("rename operation `collide` in service `Second`"));

    let mut reversed = GeneratedFileMap::new();
    reversed
        .insert("models.py", "second".to_string(), second)
        .unwrap();
    let reversed = reversed
        .insert("models.py", "first".to_string(), first)
        .unwrap_err();
    let Error::GeneratedFileSourceConflict {
        first_source,
        second_source,
        remedy,
        ..
    } = reversed
    else {
        panic!("expected generated-file source conflict, got {reversed:?}");
    };
    assert_eq!(first_source, "Python operation `Second.collide`");
    assert_eq!(second_source, "Python operation `First.collide`");
    assert!(remedy.contains("service `First`"));
    assert!(remedy.contains("service `Second`"));
}

#[test]
fn generated_file_insert_reports_both_resource_origins_and_actions() {
    let mut files = GeneratedFileMap::new();
    files
        .insert(
            "_resources/account.py",
            "first".to_string(),
            GeneratedFileOrigin::resource(Language::Python, "First", "Account"),
        )
        .unwrap();
    let error = files
        .insert(
            "_resources/account.py",
            "second".to_string(),
            GeneratedFileOrigin::resource(Language::Python, "Second", "Account"),
        )
        .unwrap_err();
    let Error::GeneratedFileSourceConflict {
        path,
        first_source,
        second_source,
        remedy,
    } = error
    else {
        panic!("expected generated-file source conflict, got {error:?}");
    };
    assert_eq!(path, "_resources/account.py");
    assert_eq!(first_source, "Python resource `First.Account`");
    assert_eq!(second_source, "Python resource `Second.Account`");
    assert!(remedy.contains("rename resource `Account` in service `First`"));
    assert!(remedy.contains("rename resource `Account` in service `Second`"));
}

#[test]
fn generated_file_insert_reports_only_mutable_action_against_fixed_artifact() {
    let mutable = GeneratedFileOrigin::input_module(Language::Go, "support.json");
    let fixed = GeneratedFileOrigin::fixed("generated Go support file");
    for (first, second, expected_first, expected_second) in [
        (
            mutable.clone(),
            fixed.clone(),
            "Go input module `support.json`",
            "generated Go support file",
        ),
        (
            fixed.clone(),
            mutable.clone(),
            "generated Go support file",
            "Go input module `support.json`",
        ),
    ] {
        let mut files = GeneratedFileMap::new();
        files
            .insert("support.go", "first".to_string(), first)
            .unwrap();
        let error = files
            .insert("support.go", "second".to_string(), second)
            .unwrap_err();
        let Error::GeneratedFileSourceConflict {
            path,
            first_source,
            second_source,
            remedy,
        } = error
        else {
            panic!("expected generated-file source conflict, got {error:?}");
        };
        assert_eq!(path, "support.go");
        assert_eq!(first_source, expected_first);
        assert_eq!(second_source, expected_second);
        assert_eq!(
            remedy,
            "rename input file or directory `support.json` so it generates a different Go path"
        );
    }
}

#[test]
fn generated_file_insert_reports_fixed_collision_as_internal_defect() {
    let mut files = GeneratedFileMap::new();
    files
        .insert(
            "runtime.py",
            "first".to_string(),
            GeneratedFileOrigin::fixed("first fixed runtime"),
        )
        .unwrap();
    let error = files
        .insert(
            "runtime.py",
            "second".to_string(),
            GeneratedFileOrigin::fixed("second fixed runtime"),
        )
        .unwrap_err();
    let Error::GeneratedFileSourceConflict {
        first_source,
        second_source,
        remedy,
        ..
    } = error
    else {
        panic!("expected generated-file source conflict, got {error:?}");
    };
    assert_eq!(first_source, "first fixed runtime");
    assert_eq!(second_source, "second fixed runtime");
    assert!(remedy.contains("internal generator defect"));
    assert!(remedy.contains("first fixed runtime"));
    assert!(remedy.contains("second fixed runtime"));
}

#[test]
fn generated_file_insert_multi_inserts_every_file() {
    let mut files = GeneratedFileMap::new();
    files
        .insert_multi(
            path_map(&[("a.py", "a"), ("b.py", "b")]),
            GeneratedFileOrigin::input_module(Language::Python, "one.yaml"),
        )
        .unwrap();
    assert_eq!(
        entries_of(&files.into_files()),
        vec![
            ("a.py".to_string(), "a".to_string()),
            ("b.py".to_string(), "b".to_string()),
        ]
    );
}

#[test]
fn generated_file_insert_multi_reports_first_ordered_conflict() {
    let mut files = GeneratedFileMap::new();
    files
        .insert(
            "b.py",
            "first".to_string(),
            GeneratedFileOrigin::input_module(Language::Python, "one.yaml"),
        )
        .unwrap();
    let error = files
        .insert_multi(
            path_map(&[("a.py", "a"), ("b.py", "second"), ("c.py", "c")]),
            GeneratedFileOrigin::input_module(Language::Python, "two.yaml"),
        )
        .unwrap_err();
    let Error::GeneratedFileSourceConflict {
        path,
        first_source,
        second_source,
        remedy,
    } = error
    else {
        panic!("expected generated-file source conflict, got {error:?}");
    };
    assert_eq!(path, "b.py");
    assert_eq!(first_source, "Python input module `one.yaml`");
    assert_eq!(second_source, "Python input module `two.yaml`");
    assert!(remedy.contains("`one.yaml`"));
    assert!(remedy.contains("`two.yaml`"));
    assert!(files.contains("a.py"));
    assert!(!files.contains("c.py"));
}

#[test]
fn generated_file_insert_rejects_paths_outside_the_output_directory() {
    for path in ["/absolute.py", "../parent.py"] {
        let mut files = GeneratedFileMap::new();
        let error = files
            .insert(
                path,
                String::new(),
                GeneratedFileOrigin::fixed("test artifact"),
            )
            .unwrap_err();
        assert!(matches!(
            error,
            Error::InvalidGeneratedPath { path: actual, .. } if actual == path
        ));
    }
}

#[test]
fn insert_order_does_not_matter() {
    let origin = GeneratedFileOrigin::input_module(Language::Go, "one.json");
    let mut forward = GeneratedFileMap::new();
    forward.insert("b/x.go", "x".to_string(), origin.clone()).unwrap();
    forward.insert("a.go", "a".to_string(), origin.clone()).unwrap();
    let mut backward = GeneratedFileMap::new();
    backward.insert("a.go", "a".to_string(), origin.clone()).unwrap();
    backward.insert("b/x.go", "x".to_string(), origin).unwrap();
    assert_eq!(
        entries_of(&forward.into_files()),
        entries_of(&backward.into_files())
    );
}

#[test]
fn refused_insert_keeps_the_map() {
    let origin = GeneratedFileOrigin::fixed("runtime");
    let mut files = GeneratedFileMap::new();
    files.insert("a/./b.py", "kept".to_string(), origin.clone()).unwrap();
    assert!(files.insert("a/b.py", "lost".to_string(), origin).is_err());
    assert_eq!(
        entries_of(&files.into_files()),
        vec![("a/./b.py".to_string(), "kept".to_string())]
    );
}

#[test]
fn prefix_and_rekey_move_files() {
    let origin = GeneratedFileOrigin::fixed("runtime");
    let mut files = GeneratedFileMap::new();
    files.insert("a.py", "a".to_string(), origin.clone()).unwrap();
    let moved = files.prefix("sub").unwrap();
    assert!(moved.contains("sub/a.py"));
    assert!(!moved.contains("a.py"));
    let mut renamed = moved.rekey_all("only.py").unwrap();
    assert!(renamed.contains("only.py"));
    renamed.insert("other.py", "o".to_string(), origin).unwrap();
    assert!(renamed.rekey_all("both.py").is_err());
}

#[test]
fn prefixes_compose() {
    let origin = GeneratedFileOrigin::fixed("runtime");
    let mut files = GeneratedFileMap::new();
    files.insert("b/c.py", "c".to_string(), origin.clone()).unwrap();
    files.insert("a.py", "a".to_string(), origin).unwrap();
    let twice = files.clone().prefix("inner").unwrap().prefix("outer").unwrap();
    let once = files.prefix("outer/inner").unwrap();
    let expected = vec![
        ("outer/inner/a.py".to_string(), "a".to_string()),
        ("outer/inner/b/c.py".to_string(), "c".to_string()),
    ];
    assert_eq!(entries_of(&twice.into_files()), expected);
    assert_eq!(entries_of(&once.into_files()), expected);
}

#[test]
fn prefix_that_leaves_the_output_is_refused() {
    let mut files = GeneratedFileMap::new();
    files
        .insert("a.py", "a".to_string(), GeneratedFileOrigin::fixed("runtime"))
        .unwrap();
    assert!(files.clone().prefix("..").is_err());
    assert!(files.prefix("/abs").is_err());
}

#[test]
fn contents_are_changed_in_place() {
    let mut files = GeneratedFileMap::new();
    files
        .insert("a.py", "a".to_string(), GeneratedFileOrigin::fixed("runtime"))
        .unwrap();
    files.contents_mut("a.py").unwrap().push('!');
    assert!(files.contents_mut("./a.py").is_none());
    assert!(files.contents_mut("b.py").is_none());
    assert_eq!(
        entries_of(&files.into_files()),
        vec![("a.py".to_string(), "a!".to_string())]
    );
}

#[test]
fn extend_stops_at_the_first_conflict() {
    let origin = GeneratedFileOrigin::fixed("runtime");
    let mut files = GeneratedFileMap::new();
    files.insert("b.py", "b".to_string(), origin.clone()).unwrap();
    let mut other = GeneratedFileMap::new();
    other.insert("a.py", "a".to_string(), origin.clone()).unwrap();
    other.insert("b.py", "c".to_string(), origin).unwrap();
    assert!(files.extend(other).is_err());
    assert!(files.contains("a.py"));
}

#[test]
fn origins_say_what_they_are() {
    let cases = [
        (
            GeneratedFileOrigin::support_fragment(Language::Ruby, "helpers.rb"),
            "Ruby support file `helpers.rb`",
            "rename support file `helpers.rb` so it generates a different Ruby path",
        ),
        (
            GeneratedFileOrigin::type_declaration(Language::Java, "a.json", "Thing"),
            "Java type declaration `Thing` in `a.json`",
            "rename type declaration `Thing` in `a.json` so it generates a different Java path",
        ),
        (
            GeneratedFileOrigin::service_declaration(Language::Java, "a.json", "Api"),
            "Java service declaration `Api` in `a.json`",
            "rename service `Api` in `a.json` so it generates a different Java path",
        ),
    ];
    for (origin, description, action) in cases {
        assert_eq!(origin.description(), description);
        assert_eq!(origin.copied().description(), description);
        assert_eq!(origin.path_changing_action().as_deref(), Some(action));
    }
    assert_eq!(
        GeneratedFileOrigin::fixed("runtime").path_changing_action(),
        None
    );
}

#[test]
fn single_file_output_holds_one_file() {
    let single = GeneratedFiles::single_file("text".to_string());
    assert_eq!(single.layout, GeneratedOutputLayout::SingleFile);
    assert_eq!(single.single_file_contents(), Some("text"));
    let directory = GeneratedFiles::directory(path_map(&[("a.py", "a")]));
    assert_eq!(directory.layout, GeneratedOutputLayout::Directory);
    assert_eq!(directory.single_file_contents(), None);
}
