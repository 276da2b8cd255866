//! The directives in the documentation of WIT items.

use nexgen::error::Error;
use nexgen::language::Language;
use nexgen::wit::directive::{directive, parse_directive_line, parse_directives, Directive};
use nexgen::wit::strings::{
    directive_flag, directive_function_name_extractor, directive_language_string,
    directive_language_string_for_key, directive_prefixed_language_string, directive_value,
    directive_value_for_language, experimental_directive, is_valid_support_helper_path,
    language_key, parse_bool, reject_misplaced_type_parameter,
};

fn line(text: &str) -> Directive {
    parse_directive_line(text, "main.wit", "type `a`").unwrap()
}

fn reason(result: Result<Directive, Error>) -> (String, String) {
    match result {
        Err(Error::InvalidWitDirective { path, context, directive, reason }) => {
            assert_eq!(path, "main.wit");
            assert_eq!(context, "type `a`");
            (directive, reason)
        }
        other => panic!("unexpected {other:?}"),
    }
}

fn docs(text: &str) -> Vec<Directive> {
    parse_directives(&Some(text.to_string()), "main.wit", "type `a`").unwrap()
}

#[test]
fn directive_has_a_name_and_arguments() {
    let found = line("@nexus.type python=\"a.B\" go = *x.Y  flag=true");
    assert_eq!(found.name(), "type");
    assert_eq!(found.value("python"), Some("a.B".to_string()));
    assert_eq!(found.value("go"), Some("*x.Y".to_string()));
    assert_eq!(found.value("flag"), Some("true".to_string()));
    assert_eq!(found.value("java"), None);
    assert!(!found.is_bare());
    assert!(line("@nexus.omit").is_bare());
    assert!(line("@nexus.omit   ").is_bare());
}

#[test]
fn leading_quoted_text_is_the_value() {
    let found = line("@nexus.doc \"two words\" go=\"other\"");
    assert_eq!(found.value("value"), Some("two words".to_string()));
    assert_eq!(found.value("go"), Some("other".to_string()));
}

#[test]
fn quoted_text_is_read_back() {
    // Written as `say "hi" \ there`, with each quote and backslash escaped.
    let found = line("@nexus.doc \"say \\\"hi\\\" \\\\ there\"");
    assert_eq!(found.value("value"), Some("say \"hi\" \\ there".to_string()));
    // A backslash keeps whatever stands behind it.
    assert_eq!(line("@nexus.doc \"a\\nb\"").value("value"), Some("anb".to_string()));
}

#[test]
fn last_value_under_a_key_counts() {
    let found = line("@nexus.type go=A go=B");
    assert_eq!(found.value("go"), Some("B".to_string()));
}

#[test]
fn malformed_directives_are_refused() {
    assert_eq!(
        reason(parse_directive_line("omit", "main.wit", "type `a`")),
        ("omit".to_string(), "directive must start with `@nexus.`".to_string()),
    );
    assert_eq!(
        reason(parse_directive_line("@nexus.type go", "main.wit", "type `a`")),
        ("@nexus.type".to_string(), "expected `=` after `go`".to_string()),
    );
    assert_eq!(
        reason(parse_directive_line("@nexus.type go=\"x", "main.wit", "type `a`")),
        ("@nexus.type".to_string(), "unterminated quoted string".to_string()),
    );
}

#[test]
fn only_indented_arguments_continue_a_directive() {
    let found = docs("Text.\n@nexus.type go=A\n  python=B\n\"c\" java=D\n@nexus.omit");
    assert_eq!(found.len(), 2);
    assert_eq!(found[0].value("python"), Some("B".to_string()));
    assert_eq!(found[0].value("java"), None);
    assert_eq!(found[1].name(), "omit");
    // Words without an `=` end the directive, and so does an empty line.
    let found = docs("@nexus.type go=A\n  more words\n  python=B");
    assert_eq!(found.len(), 1);
    assert_eq!(found[0].value("python"), None);
    assert!(parse_directives(&None, "main.wit", "type `a`").unwrap().is_empty());
}

#[test]
fn directive_is_written_once() {
    let found = docs("@nexus.type go=A\n@nexus.omit\n@nexus.type go=B");
    assert!(matches!(directive(&found, "omit", "main.wit", "type `a`"), Ok(Some(_))));
    assert!(matches!(directive(&found, "doc", "main.wit", "type `a`"), Ok(None)));
    match directive(&found, "type", "main.wit", "type `a`") {
        Err(Error::InvalidWitDirective { directive, reason, .. }) => {
            assert_eq!(directive, "@nexus.type");
            assert_eq!(reason, "duplicate directive");
        }
        other => panic!("unexpected {other:?}"),
    }
}

#[test]
fn languages_have_keys() {
    let keys: Vec<&str> = [
        Language::Dotnet,
        Language::Go,
        Language::Java,
        Language::Python,
        Language::Ruby,
        Language::TypeScript,
    ]
    .iter()
    .map(|language| language_key(*language))
    .collect();
    assert_eq!(keys, vec!["dotnet", "go", "java", "python", "ruby", "typescript"]);
}

#[test]
fn languages_have_their_own_texts() {
    let found = line("@nexus.name \"all\" go=\"Go\" import=\"m\" go-import=\"g\"");
    let strings = directive_language_string(&found);
    assert_eq!(strings.for_language(Language::Go), Some("Go".to_string()));
    assert_eq!(strings.for_language(Language::Python), Some("all".to_string()));
    assert_eq!(strings.default_import, Some("m".to_string()));
    assert_eq!(strings.imports.len(), 1);
    assert!(!strings.is_empty());
    assert!(directive_language_string(&line("@nexus.name")).is_empty());

    let found = line("@nexus.type from-proto=\"f\" go-from-proto=\"g\" python=\"p\"");
    let prefixed = directive_prefixed_language_string(&found, "from-proto");
    assert_eq!(prefixed.for_language(Language::Go), Some("g".to_string()));
    assert_eq!(prefixed.for_language(Language::Python), None);
    let keyed = directive_language_string_for_key(&found, "from-proto");
    assert_eq!(keyed.for_language(Language::Go), Some("g".to_string()));
    assert_eq!(keyed.for_language(Language::Python), Some("f".to_string()));
}

#[test]
fn directive_values_are_found() {
    let found = docs("@nexus.type \"all\" go=A kind=k");
    let in_go = directive_value_for_language(&found, "type", "p", "c", Language::Go).unwrap();
    assert_eq!(in_go, Some("A".to_string()));
    let in_java = directive_value_for_language(&found, "type", "p", "c", Language::Java).unwrap();
    assert_eq!(in_java, Some("all".to_string()));
    let kind = directive_value(&found, "type", "p", "c", "kind").unwrap();
    assert_eq!(kind, Some("k".to_string()));
    assert_eq!(directive_value(&found, "omit", "p", "c", "kind").unwrap(), None);
}

#[test]
fn truth_values_are_read() {
    assert_eq!(parse_bool("true"), Ok(true));
    assert_eq!(parse_bool("false"), Ok(false));
    assert_eq!(parse_bool("yes"), Err("expected `true` or `false`, found `yes`".to_string()));
    let found = line("@nexus.function varargs=true awaited=no");
    assert!(directive_flag(&found, "varargs", "p", "c", "@nexus.function").unwrap());
    assert!(!directive_flag(&found, "missing", "p", "c", "@nexus.function").unwrap());
    assert!(directive_flag(&found, "awaited", "p", "c", "@nexus.function").is_err());
}

#[test]
fn marks_take_no_arguments() {
    let marked = docs("@nexus.experimental");
    assert!(experimental_directive(&marked, "p", "c").unwrap());
    assert!(!experimental_directive(&docs("@nexus.omit"), "p", "c").unwrap());
    assert!(experimental_directive(&docs("@nexus.experimental go=x"), "p", "c").is_err());
    assert!(reject_misplaced_type_parameter(&marked, "p", "c").is_ok());
    let misplaced = docs("@nexus.type-parameter");
    assert!(reject_misplaced_type_parameter(&misplaced, "p", "c").is_err());
}

#[test]
fn helper_paths_are_names_between_dots() {
    assert!(is_valid_support_helper_path("_a.b2.C"));
    assert!(!is_valid_support_helper_path(""));
    assert!(!is_valid_support_helper_path("a..b"));
    assert!(!is_valid_support_helper_path("2a"));
    assert!(!is_valid_support_helper_path("a-b"));

    let found = line("@nexus.function python-name-extractor=helpers.name_of");
    let named = directive_function_name_extractor(&found, Language::Python, "p", "c").unwrap();
    assert_eq!(named, Some("helpers.name_of".to_string()));
    let found = line("@nexus.function python-name-extractor=\"not a name\"");
    match directive_function_name_extractor(&found, Language::Python, "p", "c") {
        Err(Error::InvalidWitDirective { directive, reason, .. }) => {
            assert_eq!(directive, "@nexus.function");
            assert_eq!(reason, "invalid `python` name-extractor `not a name`");
        }
        other => panic!("unexpected {other:?}"),
    }
}
