//! Texts, paths and names.

use nexgen::paths::{
    file_name, join_path, normalize_path, parts_of_path, path_is_absolute, place_paths,
    place_texts, PathMap, PathPart, Placement,
};
use nexgen::text::{
    ends_with, join_texts, last_segment_of, replace_char, replace_text, split_lines, split_words,
    starts_with, strip_prefix, strip_suffix, trim, trim_end, trim_start,
};
use nexgen::unique::{decimal_text, first_free_name};

fn texts(list: &[&str]) -> Vec<String> {
    list.iter().map(|text| text.to_string()).collect()
}

fn shown(parts: &Vec<PathPart>) -> Vec<String> {
    parts
        .iter()
        .map(|part| match part {
            PathPart::Root => "<root>".to_string(),
            PathPart::Current => "<current>".to_string(),
            PathPart::Parent => "<parent>".to_string(),
            PathPart::Name(name) => name.clone(),
        })
        .collect()
}

#[test]
fn texts_are_joined_and_cut() {
    assert_eq!(join_texts(&texts(&["a", "b", "c"]), ", "), "a, b, c");
    assert_eq!(join_texts(&texts(&[]), ", "), "");
    assert_eq!(last_segment_of("com.example.api", '.'), "api");
    assert_eq!(last_segment_of("api", '.'), "api");
    assert_eq!(last_segment_of("api.", '.'), "");
    assert!(starts_with("@nexus.omit", "@nexus."));
    assert!(!starts_with("@nexus", "@nexus."));
    assert!(ends_with("types.wit", ".wit"));
    assert!(!ends_with("wit", ".wit"));
    assert_eq!(strip_prefix("$ref", "$"), Some("ref".to_string()));
    assert_eq!(strip_prefix("ref", "$"), None);
    assert_eq!(strip_suffix("main.wit", ".wit"), Some("main".to_string()));
    assert_eq!(strip_suffix("main", ".wit"), None);
}

#[test]
fn texts_are_replaced() {
    assert_eq!(replace_char("a\\b\\c", '\\', "/"), "a/b/c");
    assert_eq!(replace_text("aaa", "aa", "b"), "ba");
    assert_eq!(replace_text("{wire}.x + {wire}", "{wire}", "proto"), "proto.x + proto");
    assert_eq!(replace_text("none", "{wire}", "proto"), "none");
    assert_eq!(replace_text("ab", "", "-"), "-a-b-");
    assert_eq!(replace_text("", "", "-"), "-");
}

#[test]
fn white_space_is_trimmed() {
    assert_eq!(trim("\t a b \r\n"), "a b");
    assert_eq!(trim_start("\u{3000}a "), "a ");
    assert_eq!(trim_end(" a\u{85}"), " a");
    assert_eq!(trim(" \n "), "");
}

#[test]
fn lines_and_words_are_split() {
    assert_eq!(split_lines("a\r\nb\n\nc"), texts(&["a", "b", "", "c"]));
    assert_eq!(split_lines("a\n"), texts(&["a"]));
    assert_eq!(split_lines(""), texts(&[]));
    assert_eq!(split_lines("a\rb"), texts(&["a\rb"]));
    assert_eq!(split_words("  a \t b\n"), texts(&["a", "b"]));
    assert_eq!(split_words(" "), texts(&[]));
}

#[test]
fn paths_have_parts() {
    assert!(path_is_absolute("/a"));
    assert!(!path_is_absolute("a/b"));
    assert_eq!(shown(&parts_of_path("/a//b/./c/")), texts(&["<root>", "a", "b", "c"]));
    assert_eq!(shown(&parts_of_path("./a/..")), texts(&["<current>", "a", "<parent>"]));
    assert_eq!(shown(&parts_of_path("")), texts(&[]));
}

#[test]
fn normalized_path_is_settled() {
    let once = normalize_path("/a/./b/../c");
    assert_eq!(shown(&once), texts(&["<root>", "a", "c"]));
    let twice = normalize_path("/a/c");
    assert_eq!(shown(&twice), shown(&once));
    assert_eq!(file_name(&once), Some("c".to_string()));
    assert_eq!(file_name(&normalize_path("/a/..")), None);
}

#[test]
fn paths_are_joined() {
    assert_eq!(join_path("a", "b"), "a/b");
    assert_eq!(join_path("a/", "b"), "a/b");
    assert_eq!(join_path("a", "/b"), "/b");
    assert_eq!(join_path("", "b"), "b");
}

#[test]
fn paths_are_placed_part_by_part() {
    assert_eq!(place_texts("a", "b"), Placement::Before);
    assert_eq!(place_texts("b", "a"), Placement::After);
    assert_eq!(place_texts("a", "a"), Placement::Same);
    assert_eq!(place_texts("a", "ab"), Placement::Before);
    // By characters `a-b` stands before `a/b`; by parts it does not.
    assert_eq!(place_texts("a-b", "a/b"), Placement::Before);
    assert_eq!(place_paths("a-b", "a/b"), Placement::After);
    assert_eq!(place_paths("a//b", "a/b"), Placement::Same);
}

#[test]
fn path_map_keeps_its_paths_in_order() {
    let mut map: PathMap<u8> = PathMap::new();
    map.insert_new("b".to_string(), 2);
    map.insert_new("a/x".to_string(), 1);
    map.insert_new("c".to_string(), 3);
    assert_eq!(map.len(), 3);
    assert_eq!(map.path_at(0), "a/x");
    assert_eq!(map.path_at(1), "b");
    assert_eq!(*map.value_at(2), 3);
    assert_eq!(map.position("a//x"), Some(0));
    assert_eq!(map.position("d"), None);
    *map.value_at_mut(1) = 7;
    assert_eq!(*map.value_at(1), 7);
}

#[test]
fn numbers_are_written_in_decimal() {
    assert_eq!(decimal_text(0), "0");
    assert_eq!(decimal_text(1024), "1024");
    assert_eq!(decimal_text(u128::MAX), "340282366920938463463374607431768211455");
}

#[test]
fn free_name_is_free() {
    assert_eq!(first_free_name("common", "", &texts(&["other"])), "common");
    assert_eq!(first_free_name("common", "", &texts(&["common"])), "common2");
    assert_eq!(first_free_name("T", "_", &texts(&["T", "T_2", "T_4"])), "T_3");
}
