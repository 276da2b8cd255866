//! What a request asks for: output paths, Java packages, formatters, support files and writes.

use nexgen::error::Error;
use nexgen::files::{GeneratedFiles, GeneratedOutputLayout};
use nexgen::generation::{
    generate_options, generate_source, generate_to_file, generation_warnings_for_tree,
    support_fragment, write_generated_files, ApiSpecNode, PlannedResourceMethod,
    PlannedResourceMethodBindingSpec, PlannedResourceSpec, PlannedServiceSpec, PlannedSpec,
};
use nexgen::language::Language;
use nexgen::output::{
    format_formatter_command, formatter_command, infer_dotnet_namespace, output_dir_name,
    resolve_java_package, GenerateRequest, GenerationMode, NexgenConfig, TsDateTimeTypes,
};
use nexgen::paths::PathMap;

const HERE: &str = "/home/user";

fn request(language: Language, output_path: &str, java_package_name: Option<&str>) -> GenerateRequest {
    GenerateRequest {
        config: NexgenConfig {
            mode: GenerationMode::default(),
        },
        language,
        input_paths: Vec::new(),
        support_paths: Vec::new(),
        descriptor_paths: Vec::new(),
        output_path: output_path.to_string(),
        format: false,
        java_package_name: java_package_name.map(str::to_string),
        ts_date_time_types: TsDateTimeTypes::default(),
    }
}

fn java_request(output_path: &str, java_package_name: Option<&str>) -> GenerateRequest {
    request(Language::Java, output_path, java_package_name)
}

fn one_file(path: &str) -> GeneratedFiles {
    let mut files = PathMap::new();
    files.insert_new(path.to_string(), "text".to_string());
    GeneratedFiles::directory(files)
}

fn stub_plan() -> PlannedSpec {
    PlannedSpec {
        services: vec![PlannedServiceSpec {
            resources: vec![PlannedResourceSpec {
                class_name: "User".to_string(),
                methods: vec![
                    PlannedResourceMethod {
                        name: "update-email".to_string(),
                        binding: PlannedResourceMethodBindingSpec::Stub,
                    },
                    PlannedResourceMethod {
                        name: "get".to_string(),
                        binding: PlannedResourceMethodBindingSpec::Operation,
                    },
                ],
            }],
        }],
    }
}

#[test]
fn chooses_python_formatter_command() {
    let (program, args) = formatter_command(Language::Python, "output").unwrap();
    assert_eq!(program, "ruff");
    assert_eq!(args, vec!["format", "--line-length", "88", "output"]);
    assert_eq!(
        format_formatter_command(program, &args),
        "ruff format --line-length 88 output"
    );
}

#[test]
fn chooses_typescript_formatter_command() {
    let (program, args) = formatter_command(Language::TypeScript, "output").unwrap();
    assert_eq!(program, "prettier");
    assert_eq!(args, vec!["--write", "output"]);
    assert_eq!(format_formatter_command(program, &args), "prettier --write output");
}

#[test]
fn refuses_a_formatter_for_a_language_without_one() {
    assert!(matches!(
        formatter_command(Language::Java, "output").unwrap_err(),
        Error::UnsupportedLanguage {
            language: Language::Java
        }
    ));
}

#[test]
fn output_dir_name_resolves_plain_absolute_path() {
    assert_eq!(output_dir_name("/tmp/foo/bar", HERE).unwrap(), "bar");
}

#[test]
fn output_dir_name_collapses_trailing_current_dir() {
    assert_eq!(output_dir_name("/tmp/foo/bar/.", HERE).unwrap(), "bar");
}

#[test]
fn output_dir_name_collapses_trailing_parent_dir() {
    assert_eq!(output_dir_name("/tmp/foo/bar/..", HERE).unwrap(), "foo");
}

#[test]
fn output_dir_name_collapses_internal_parent_dir() {
    assert_eq!(output_dir_name("/tmp/foo/../bar", HERE).unwrap(), "bar");
}

#[test]
fn output_dir_name_rejects_filesystem_root() {
    assert!(matches!(
        output_dir_name("/", HERE).unwrap_err(),
        Error::OutputPathIsRoot { path } if path == "/"
    ));
}

#[test]
fn output_dir_name_of_a_relative_path_is_below_the_current_directory() {
    assert_eq!(output_dir_name(".", HERE).unwrap(), "user");
    assert_eq!(output_dir_name("gen/../client", HERE).unwrap(), "client");
}

#[test]
fn infers_dotnet_support_namespace_from_file() {
    assert_eq!(
        infer_dotnet_namespace(
            r#"
using System;

namespace Nexgen.Support
{
    internal static class TemporalSupport { }
}
"#
        )
        .as_deref(),
        Some("Nexgen.Support")
    );
    assert_eq!(
        infer_dotnet_namespace("namespace Nexgen.Support;\ninternal static class Support { }")
            .as_deref(),
        Some("Nexgen.Support")
    );
}

#[test]
fn resolve_java_package_accepts_matching_last_segment() {
    let request = java_request("/tmp/foo/chat", Some("json_schema.definitions.chat"));
    assert_eq!(
        resolve_java_package(&request, HERE).unwrap(),
        "json_schema.definitions.chat"
    );
}

#[test]
fn resolve_java_package_accepts_single_segment_matching_directory() {
    let request = java_request("/tmp/foo/chat", Some("chat"));
    assert_eq!(resolve_java_package(&request, HERE).unwrap(), "chat");
}

#[test]
fn resolve_java_package_rejects_mismatched_last_segment() {
    let request = java_request("/tmp/foo/chat", Some("com.example.wrong"));
    assert!(matches!(
        resolve_java_package(&request, HERE).unwrap_err(),
        Error::JavaPackageNameMismatch {
            package_name,
            last_segment,
            output_dir_name,
        } if package_name == "com.example.wrong"
            && last_segment == "wrong"
            && output_dir_name == "chat"
    ));
}

#[test]
fn resolve_java_package_requires_package_name() {
    let request = java_request("/tmp/foo/chat", None);
    assert!(matches!(
        resolve_java_package(&request, HERE).unwrap_err(),
        Error::JavaPackageNameMissing
    ));
}

#[test]
fn warns_when_resource_method_generates_as_stub() {
    assert_eq!(
        generation_warnings_for_tree(&ApiSpecNode::Leaf(stub_plan())),
        vec![
            "resource method `User.update-email` generated as a stub because no operation could be bound"
                .to_string()
        ]
    );
    let branch = ApiSpecNode::Branch(vec![
        ApiSpecNode::Leaf(stub_plan()),
        ApiSpecNode::Branch(vec![ApiSpecNode::Leaf(stub_plan())]),
    ]);
    assert_eq!(generation_warnings_for_tree(&branch).len(), 2);
}

#[test]
fn options_name_the_go_package_and_the_java_package() {
    let go = generate_options(&request(Language::Go, "/tmp/client", None), HERE).unwrap();
    assert_eq!(go.go_output_dir_name, "client");
    let java = generate_options(&java_request("/tmp/chat", Some("a.chat")), HERE).unwrap();
    assert_eq!(java.java_package_root.as_deref(), Some("a.chat"));
    assert!(generate_options(&java_request("/tmp/chat", None), HERE).is_err());
}

#[test]
fn directory_output_is_written_below_the_output_path() {
    let writes = write_generated_files("/out", false, &one_file("a/b.py")).unwrap();
    assert_eq!(writes.len(), 1);
    assert_eq!(writes[0].path, "/out/a/b.py");
    assert_eq!(writes[0].contents, "text");
    assert!(matches!(
        write_generated_files("/out", true, &one_file("a.py")).unwrap_err(),
        Error::OutputPathExists { path } if path == "/out"
    ));
    let single = GeneratedFiles::single_file("only".to_string());
    assert_eq!(single.layout, GeneratedOutputLayout::SingleFile);
    let writes = write_generated_files("/out.py", true, &single).unwrap();
    assert_eq!(writes[0].path, "/out.py");
    assert_eq!(writes[0].contents, "only");
}

#[test]
fn a_request_writes_warns_and_formats() {
    let mut asked = request(Language::Python, "/out", None);
    asked.format = true;
    let tree = ApiSpecNode::Leaf(stub_plan());
    let plan = generate_to_file(&asked, HERE, &tree, false, Ok(one_file("a.py"))).unwrap();
    assert_eq!(plan.warnings.len(), 1);
    assert_eq!(plan.writes[0].path, "/out/a.py");
    assert_eq!(plan.directory.as_deref(), Some("/out"));
    let (program, args) = plan.formatter.unwrap().unwrap();
    assert_eq!(format_formatter_command(program, &args), "ruff format --line-length 88 /out");

    asked.format = false;
    asked.config.mode = GenerationMode::DefinitionsOnly;
    let plan = generate_to_file(&asked, HERE, &tree, false, Ok(one_file("a.py"))).unwrap();
    assert!(plan.warnings.is_empty());
    assert!(plan.formatter.unwrap().is_none());

    let refused = Error::InvalidWit {
        path: "a.wit".to_string(),
        reason: "no".to_string(),
    };
    assert!(matches!(
        generate_to_file(&asked, HERE, &tree, false, Err(refused)).unwrap_err(),
        Error::InvalidWit { .. }
    ));
}

#[test]
fn directory_is_made_for_no_files_and_not_for_a_single_one() {
    let asked = request(Language::Python, "/out", None);
    let tree = ApiSpecNode::Leaf(stub_plan());
    let mut none = one_file("a.py");
    none.files = PathMap::new();
    let plan = generate_to_file(&asked, HERE, &tree, false, Ok(none)).unwrap();
    assert!(plan.writes.is_empty());
    assert_eq!(plan.directory.as_deref(), Some("/out"));
    let single = GeneratedFiles::single_file("only".to_string());
    let plan = generate_to_file(&asked, HERE, &tree, false, Ok(single)).unwrap();
    assert_eq!(plan.writes.len(), 1);
    assert!(plan.directory.is_none());
}

#[test]
fn java_package_matters_to_java_only() {
    let tree = ApiSpecNode::Leaf(stub_plan());
    for package in [None, Some("a.b"), Some("out")] {
        let mut asked = request(Language::Python, "/out", package);
        asked.ts_date_time_types = TsDateTimeTypes::Temporal;
        let plan = generate_to_file(&asked, HERE, &tree, false, Ok(one_file("a.py"))).unwrap();
        assert_eq!(plan.writes[0].path, "/out/a.py");
        assert!(generate_options(&asked, HERE).unwrap().java_package_root.is_none());
    }
}

#[test]
fn source_of_a_directory_lists_its_files() {
    let source = generate_source(
        Language::Python,
        &ApiSpecNode::Leaf(stub_plan()),
        Ok(one_file("a.py")),
    )
    .unwrap();
    assert_eq!(source, "### a.py\ntext");
}

#[test]
fn support_files_of_dotnet_have_their_namespace() {
    let fragment = support_fragment(
        Language::Dotnet,
        "a\\b.cs",
        "namespace Acme.Support;\n".to_string(),
    );
    assert_eq!(fragment.path, "a/b.cs");
    assert_eq!(fragment.namespace.as_deref(), Some("Acme.Support"));
    let other = support_fragment(Language::Go, "b.go", "namespace X;\n".to_string());
    assert_eq!(other.namespace, None);
}
