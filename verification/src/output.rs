//! What a generation request asks for: output directory, Java package, support files,
//! formatter and the files to be written.

use vstd::prelude::*;

use crate::error::{Error, ErrorView};
use crate::language::Language;
use crate::paths::{file_name, join_path, normalize_path, PathPart};
use crate::text::{
    chars_of, join_texts, last_segment_of, split_lines, split_words, starts_with, text_between,
    text_eq, trim_start,
};

verus! {

/// Whether operations are generated beside the definitions.
#[derive(Debug, Clone, Copy, PartialEq, Eq, Structural)]
pub enum GenerationMode {
    NativeApi,
    DefinitionsOnly,
}

impl Default for GenerationMode {
    fn default() -> (mode: Self)
        ensures
            mode == GenerationMode::NativeApi,
    {
        GenerationMode::NativeApi
    }
}

/// How TypeScript code holds a value with a temporal `format`.
#[derive(Debug, Clone, Copy, PartialEq, Eq, Structural)]
pub enum TsDateTimeTypes {
    /// Every temporal value is a `string`, exactly as it is on the wire.
    String,
    /// A `date-time` is a `Date`, the others stay `string`.
    Date,
    /// A `date-time` is a `Temporal.ZonedDateTime`, a `date` a `Temporal.PlainDate` and a
    /// `duration` a `Temporal.Duration`; a `time` stays `string`.
    Temporal,
}

impl Default for TsDateTimeTypes {
    fn default() -> (types: Self)
        ensures
            types == TsDateTimeTypes::String,
    {
        TsDateTimeTypes::String
    }
}

/// Settings that hold for a whole run.
#[derive(Debug, Clone, Copy, PartialEq, Eq, Structural)]
pub struct NexgenConfig {
    pub mode: GenerationMode,
}

/// What the renderers of the languages are told.
#[derive(Debug, Clone)]
pub struct GenerateFilesOptions {
    pub go_output_dir_name: String,
    pub java_package_root: Option<String>,
    pub ts_date_time_types: TsDateTimeTypes,
}

/// A file of hand-written code that generated code uses.
#[derive(Debug, Clone)]
pub struct SupportFragmentSpec {
    pub path: String,
    pub contents: String,
    pub namespace: Option<String>,
}

/// The support files of a generation.
#[derive(Debug, Clone)]
pub struct SupportFiles {
    pub fragments: Vec<SupportFragmentSpec>,
}

/// The support files of one language.
#[derive(Debug, Clone)]
pub struct LanguageFragments {
    pub language: Language,
    pub fragments: Vec<SupportFragmentSpec>,
}

/// The support files that an input names, by language.
#[derive(Debug, Clone)]
pub struct SupportSpec {
    pub fragments: Vec<LanguageFragments>,
}

/// What a caller asks to be generated.
#[derive(Debug, Clone)]
pub struct GenerateRequest {
    pub config: NexgenConfig,
    pub language: Language,
    pub input_paths: Vec<String>,
    pub support_paths: Vec<String>,
    pub descriptor_paths: Vec<String>,
    pub output_path: String,
    pub format: bool,
    /// The base package of generated Java types; its last segment is the name of the output
    /// directory. Other languages ignore it.
    pub java_package_name: Option<String>,
    pub ts_date_time_types: TsDateTimeTypes,
}

/// The name of the directory that the output path resolves to, from the working directory.
pub open spec fn resolved_dir_name(output_path: Seq<char>, current_dir: Seq<char>) -> Option<
    Seq<char>,
> {
    crate::paths::final_name(
        crate::paths::normalized(crate::paths::joined_path(current_dir, output_path)),
    )
}

/// The outcome of naming the output directory.
pub open spec fn dir_name_outcome(output_path: Seq<char>, current_dir: Seq<char>) -> Result<
    Seq<char>,
    ErrorView,
> {
    match resolved_dir_name(output_path, current_dir) {
        Some(name) => Ok(name),
        None => Err(ErrorView::OutputPathIsRoot { path: output_path }),
    }
}

/// A text or an error, by their views.
pub open spec fn text_outcome(result: Result<String, Error>) -> Result<Seq<char>, ErrorView> {
    match result {
        Ok(text) => Ok(text@),
        Err(error) => Err(error@),
    }
}

/// The output path from the root, with its `.` and `..` resolved by their spelling.
pub fn absolute_output_path(output_path: &str, current_dir: &str) -> (parts: Vec<PathPart>)
    ensures
        crate::paths::part_views(parts@) == crate::paths::normalized(
            crate::paths::joined_path(current_dir@, output_path@),
        ),
{
    let absolute = join_path(current_dir, output_path);
    normalize_path(absolute.as_str())
}

/// The name of the output directory, from the working directory.
pub fn output_dir_name(output_path: &str, current_dir: &str) -> (result: Result<String, Error>)
    ensures
        text_outcome(result) == dir_name_outcome(output_path@, current_dir@),
{
    let resolved = absolute_output_path(output_path, current_dir);
    match file_name(&resolved) {
        Some(name) => Ok(name),
        None => Err(Error::OutputPathIsRoot { path: output_path.to_owned() }),
    }
}

/// The Java base package: it must be given, and its last segment must be the name of the output
/// directory.
pub open spec fn java_package_outcome(
    package_name: Option<Seq<char>>,
    output_path: Seq<char>,
    current_dir: Seq<char>,
) -> Result<Seq<char>, ErrorView> {
    match package_name {
        None => Err(ErrorView::JavaPackageNameMissing),
        Some(package) => match dir_name_outcome(output_path, current_dir) {
            Err(error) => Err(error),
            Ok(name) => if crate::text::last_segment(package, '.') == name {
                Ok(package)
            } else {
                Err(
                    ErrorView::JavaPackageNameMismatch {
                        package_name: package,
                        last_segment: crate::text::last_segment(package, '.'),
                        output_dir_name: name,
                    },
                )
            },
        },
    }
}

/// The Java base package of the request.
pub fn resolve_java_package(request: &GenerateRequest, current_dir: &str) -> (result: Result<
    String,
    Error,
>)
    ensures
        text_outcome(result) == java_package_outcome(
            crate::text::opt_text(request.java_package_name),
            request.output_path@,
            current_dir@,
        ),
{
    match &request.java_package_name {
        None => Err(Error::JavaPackageNameMissing),
        Some(package_name) => {
            match output_dir_name(request.output_path.as_str(), current_dir) {
                Err(error) => Err(error),
                Ok(output_dir_name) => {
                    let last_segment = last_segment_of(package_name.as_str(), '.');
                    if text_eq(last_segment.as_str(), output_dir_name.as_str()) {
                        Ok(package_name.clone())
                    } else {
                        Err(
                            Error::JavaPackageNameMismatch {
                                package_name: package_name.clone(),
                                last_segment,
                                output_dir_name,
                            },
                        )
                    }
                },
            }
        },
    }
}

/// The formatter of a language and the arguments that it is run with.
pub open spec fn formatter_of(language: Language, output_path: Seq<char>) -> Result<
    (Seq<char>, Seq<Seq<char>>),
    ErrorView,
> {
    match language {
        Language::Go => Ok(("gofmt"@, seq!["-w"@, output_path])),
        Language::Python => Ok(
            ("ruff"@, seq!["format"@, "--line-length"@, "88"@, output_path]),
        ),
        Language::TypeScript => Ok(("prettier"@, seq!["--write"@, output_path])),
        _ => Err(ErrorView::UnsupportedLanguage { language }),
    }
}

/// A command by the views of its program and arguments.
pub open spec fn command_outcome(result: Result<(&'static str, Vec<String>), Error>) -> Result<
    (Seq<char>, Seq<Seq<char>>),
    ErrorView,
> {
    match result {
        Ok(command) => Ok((command.0@, crate::text::texts(command.1@))),
        Err(error) => Err(error@),
    }
}

/// The formatter of the language and the arguments that it is run with.
pub fn formatter_command(language: Language, output_path: &str) -> (result: Result<
    (&'static str, Vec<String>),
    Error,
>)
    ensures
        command_outcome(result) == formatter_of(language, output_path@),
{
    let path = output_path.to_owned();
    match language {
        Language::Go => {
            let args = vec!["-w".to_owned(), path];
            assert(crate::text::texts(args@) =~= seq!["-w"@, output_path@]);
            Ok(("gofmt", args))
        },
        Language::Python => {
            let args = vec!["format".to_owned(), "--line-length".to_owned(), "88".to_owned(), path];
            assert(
                crate::text::texts(args@) =~= seq!["format"@, "--line-length"@, "88"@, output_path@]
            );
            Ok(("ruff", args))
        },
        Language::TypeScript => {
            let args = vec!["--write".to_owned(), path];
            assert(crate::text::texts(args@) =~= seq!["--write"@, output_path@]);
            Ok(("prettier", args))
        },
        _ => Err(Error::UnsupportedLanguage { language }),
    }
}

/// The command as one line: the program and its arguments with a space between them.
pub fn format_formatter_command(program: &str, args: &Vec<String>) -> (command: String)
    ensures
        command@ == crate::text::join(seq![program@] + crate::text::texts(args@), " "@),
{
    let mut words: Vec<String> = vec![program.to_owned()];
    let mut i: usize = 0;
    assert(crate::text::texts(words@) =~= seq![program@] + crate::text::texts(args@).take(0));
    while i < args.len()
        invariant
            i <= args.len(),
            crate::text::texts(words@) == seq![program@] + crate::text::texts(args@).take(i as int),
        decreases args.len() - i,
    {
        let ghost before = words@;
        words.push(args[i].clone());
        proof {
            crate::text::lemma_texts_push(before, words@.last());
            assert(words@ =~= before.push(words@.last()));
            assert(
                crate::text::texts(args@).take(i + 1) =~= crate::text::texts(args@).take(i as int)
                    .push(crate::text::texts(args@)[i as int])
            );
            assert(
                crate::text::texts(words@)
                    =~= seq![program@] + crate::text::texts(args@).take(i + 1)
            );
        }
        i += 1;
    }
    assert(crate::text::texts(args@).take(i as int) =~= crate::text::texts(args@));
    join_texts(&words, " ")
}

/// `name` without the braces and semicolons at its end.
pub open spec fn bare_namespace(name: Seq<char>) -> Seq<char>
    decreases name.len(),
{
    if name.len() > 0 && (name.last() == '{' || name.last() == ';') {
        bare_namespace(name.drop_last())
    } else {
        name
    }
}

/// The namespace that a line of C# opens, where it opens one.
pub open spec fn line_namespace(line: Seq<char>) -> Option<Seq<char>> {
    let code = crate::text::trimmed_start(line);
    let words = crate::text::words_of(code);
    if crate::text::has_prefix(code, "//"@) || words.len() < 2 || words[0] != "namespace"@
        || bare_namespace(words[1]).len() == 0 {
        None
    } else {
        Some(bare_namespace(words[1]))
    }
}

/// The namespace of the first line that opens one.
pub open spec fn first_namespace(lines: Seq<Seq<char>>) -> Option<Seq<char>>
    decreases lines.len(),
{
    if lines.len() == 0 {
        None
    } else {
        match line_namespace(lines[0]) {
            Some(namespace) => Some(namespace),
            None => first_namespace(lines.drop_first()),
        }
    }
}

/// `name` without the braces and semicolons at its end.
fn trim_namespace(name: &str) -> (bare: String)
    ensures
        bare@ == bare_namespace(name@),
{
    let chars = chars_of(name);
    let mut i: usize = chars.len();
    assert(chars@.take(chars@.len() as int) =~= chars@);
    while i > 0 && (chars[i - 1] == '{' || chars[i - 1] == ';')
        invariant
            i <= chars.len(),
            bare_namespace(chars@.take(i as int)) == bare_namespace(name@),
        decreases i,
    {
        assert(chars@.take(i as int).drop_last() =~= chars@.take(i - 1));
        i -= 1;
    }
    assert(chars@.subrange(0, i as int) =~= chars@.take(i as int));
    text_between(&chars, 0, i)
}

/// The namespace that a C# file declares first.
pub fn infer_dotnet_namespace(contents: &str) -> (namespace: Option<String>)
    ensures
        crate::text::opt_text(namespace) == first_namespace(crate::text::lines_of(contents@)),
{
    let lines = split_lines(contents);
    let ghost views = crate::text::lines_of(contents@);
    let mut i: usize = 0;
    assert(views.skip(0) =~= views);
    while i < lines.len()
        invariant
            i <= lines.len(),
            crate::text::texts(lines@) == views,
            views == crate::text::lines_of(contents@),
            first_namespace(views.skip(i as int)) == first_namespace(views),
        decreases lines.len() - i,
    {
        proof {
            assert(lines@[i as int]@ == views[i as int]);
            assert(views.skip(i as int).drop_first() =~= views.skip(i + 1));
        }
        let code = trim_start(lines[i].as_str());
        if !starts_with(code.as_str(), "//") {
            let words = split_words(code.as_str());
            let ghost word_views = crate::text::words_of(code@);
            if words.len() >= 2 {
                assert(words@[0]@ == word_views[0] && words@[1]@ == word_views[1]);
                if text_eq(words[0].as_str(), "namespace") {
                    let namespace = trim_namespace(words[1].as_str());
                    if namespace.as_str().unicode_len() > 0 {
                        return Some(namespace);
                    }
                }
            }
        }
        i += 1;
    }
    None
}

/// The namespace of a support file: only C# files have one.
pub open spec fn support_namespace(language: Language, contents: Seq<char>) -> Option<Seq<char>> {
    match language {
        Language::Dotnet => first_namespace(crate::text::lines_of(contents)),
        _ => None,
    }
}

/// The namespace of a support file.
pub fn infer_support_namespace(language: Language, contents: &str) -> (namespace: Option<String>)
    ensures
        crate::text::opt_text(namespace) == support_namespace(language, contents@),
{
    match language {
        Language::Dotnet => infer_dotnet_namespace(contents),
        _ => None,
    }
}

} // verus!
