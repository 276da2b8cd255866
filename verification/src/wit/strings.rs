//! What the arguments of directives say for each language.

use vstd::prelude::*;

use crate::error::{Error, ErrorView};
use crate::language::Language;
use crate::plan::{LanguageStringSpec, LanguageText};
use crate::text::{char_is_ascii_word, chars_of, text_eq};
use crate::wit::directive::{directive, directive_error, Directive};

verus! {

/// The key of a language in the arguments of directives.
pub open spec fn language_key_text(language: Language) -> Seq<char> {
    match language {
        Language::Dotnet => "dotnet"@,
        Language::Go => "go"@,
        Language::Java => "java"@,
        Language::Python => "python"@,
        Language::Ruby => "ruby"@,
        Language::TypeScript => "typescript"@,
    }
}

/// The key of a language in the arguments of directives.
pub fn language_key(language: Language) -> (result: &'static str)
    ensures
        result@ == language_key_text(language),
{
    match language {
        Language::Dotnet => "dotnet",
        Language::Go => "go",
        Language::Java => "java",
        Language::Python => "python",
        Language::Ruby => "ruby",
        Language::TypeScript => "typescript",
    }
}

/// What a directive says for one language, under the key of the language and what follows it.
pub open spec fn language_entry(
    directive: crate::wit::directive::DirectiveView,
    language: Language,
    behind: Seq<char>,
) -> Seq<crate::plan::LanguageTextView> {
    match crate::wit::directive::value_of(directive, language_key_text(language) + behind) {
        Some(text) => seq![(crate::plan::LanguageTextView { language, text })],
        None => Seq::empty(),
    }
}

/// What a directive says for each language, under the key of the language and what follows it.
pub open spec fn language_entries(
    directive: crate::wit::directive::DirectiveView,
    behind: Seq<char>,
) -> Seq<crate::plan::LanguageTextView> {
    language_entry(directive, Language::Dotnet, behind) + language_entry(
        directive,
        Language::Go,
        behind,
    ) + language_entry(directive, Language::Java, behind) + language_entry(
        directive,
        Language::Python,
        behind,
    ) + language_entry(directive, Language::Ruby, behind) + language_entry(
        directive,
        Language::TypeScript,
        behind,
    )
}

/// Adds what a directive says for one language.
fn add_language_entry(
    entries: &mut Vec<LanguageText>,
    directive: &Directive,
    language: Language,
    behind: &str,
)
    ensures
        crate::plan::language_text_views(final(entries)@) == crate::plan::language_text_views(
            old(entries)@,
        ) + language_entry(directive@, language, behind@),
{
    let ghost before = entries@;
    let key = language_key(language).to_owned().concat(behind);
    match directive.value(key.as_str()) {
        Some(text) => {
            entries.push(LanguageText { language, text });
            assert(crate::plan::language_text_views(entries@)
                =~= crate::plan::language_text_views(before) + language_entry(
                directive@,
                language,
                behind@,
            ));
        },
        None => {
            assert(crate::plan::language_text_views(before) + language_entry(
                directive@,
                language,
                behind@,
            ) =~= crate::plan::language_text_views(before));
        },
    }
}

/// What a directive says for each language, under the key of the language and what follows it.
pub fn directive_entries(directive: &Directive, behind: &str) -> (entries: Vec<LanguageText>)
    ensures
        crate::plan::language_text_views(entries@) == language_entries(directive@, behind@),
{
    let mut entries: Vec<LanguageText> = Vec::new();
    assert(crate::plan::language_text_views(entries@) =~= Seq::empty());
    add_language_entry(&mut entries, directive, Language::Dotnet, behind);
    add_language_entry(&mut entries, directive, Language::Go, behind);
    add_language_entry(&mut entries, directive, Language::Java, behind);
    add_language_entry(&mut entries, directive, Language::Python, behind);
    add_language_entry(&mut entries, directive, Language::Ruby, behind);
    add_language_entry(&mut entries, directive, Language::TypeScript, behind);
    assert(crate::plan::language_text_views(entries@) =~= language_entries(directive@, behind@));
    entries
}

/// Texts for languages with the imports that a directive gives them.
pub open spec fn language_strings_of(
    default: Option<Seq<char>>,
    by_language: Seq<crate::plan::LanguageTextView>,
    directive: crate::wit::directive::DirectiveView,
) -> crate::plan::LanguageStringView {
    crate::plan::LanguageStringView {
        default,
        by_language,
        default_import: crate::wit::directive::value_of(directive, "import"@),
        imports: language_entries(directive, "-import"@),
    }
}

/// Texts for languages with the imports that a directive gives them.
pub fn language_strings(
    default: Option<String>,
    by_language: Vec<LanguageText>,
    directive: &Directive,
) -> (strings: LanguageStringSpec)
    ensures
        strings@ == language_strings_of(
            crate::text::opt_text(default),
            crate::plan::language_text_views(by_language@),
            directive@,
        ),
{
    LanguageStringSpec {
        default,
        by_language,
        default_import: directive.value("import"),
        imports: directive_entries(directive, "-import"),
    }
}

/// What a directive says: its value, and the value under the key of each language.
pub open spec fn directive_strings(
    directive: crate::wit::directive::DirectiveView,
) -> crate::plan::LanguageStringView {
    language_strings_of(
        crate::wit::directive::value_of(directive, "value"@),
        language_entries(directive, ""@),
        directive,
    )
}

/// What a directive says: its value, and the value under the key of each language.
pub fn directive_language_string(directive: &Directive) -> (result: LanguageStringSpec)
    ensures
        result@ == directive_strings(directive@),
{
    language_strings(directive.value("value"), directive_entries(directive, ""), directive)
}

/// What a directive says for each language under a key of its own.
pub open spec fn directive_prefixed_strings(
    directive: crate::wit::directive::DirectiveView,
    suffix: Seq<char>,
) -> crate::plan::LanguageStringView {
    let behind = "-"@ + suffix;
    language_strings_of(None, language_entries(directive, behind), directive)
}

/// What a directive says for each language under a key of its own.
pub fn directive_prefixed_language_string(
    directive: &Directive,
    suffix: &str,
) -> (result: LanguageStringSpec)
    ensures
        result@ == directive_prefixed_strings(directive@, suffix@),
{
    let behind = "-".to_owned().concat(suffix);
    language_strings(None, directive_entries(directive, behind.as_str()), directive)
}

/// What a directive says under a key, in general and for each language.
pub open spec fn directive_key_strings(
    directive: crate::wit::directive::DirectiveView,
    key: Seq<char>,
) -> crate::plan::LanguageStringView {
    let behind = "-"@ + key;
    language_strings_of(
        crate::wit::directive::value_of(directive, key),
        language_entries(directive, behind),
        directive,
    )
}

/// What a directive says under a key, in general and for each language.
pub fn directive_language_string_for_key(
    directive: &Directive,
    key: &str,
) -> (result: LanguageStringSpec)
    ensures
        result@ == directive_key_strings(directive@, key@),
{
    let behind = "-".to_owned().concat(key);
    language_strings(
        directive.value(key),
        directive_entries(directive, behind.as_str()),
        directive,
    )
}

/// What a directive says of what is returned.
pub open spec fn directive_returns_strings(
    directive: crate::wit::directive::DirectiveView,
) -> crate::plan::LanguageStringView {
    directive_key_strings(directive, "returns"@)
}

/// What a directive says of what is returned.
pub fn directive_returns_language_string(directive: &Directive) -> (result: LanguageStringSpec)
    ensures
        result@ == directive_returns_strings(directive@),
{
    directive_language_string_for_key(directive, "returns")
}

/// What a directive says of a result.
pub open spec fn directive_result_strings(
    directive: crate::wit::directive::DirectiveView,
) -> crate::plan::LanguageStringView {
    directive_key_strings(directive, "result"@)
}

/// What a directive says of a result.
pub fn directive_result_language_string(directive: &Directive) -> (result: LanguageStringSpec)
    ensures
        result@ == directive_result_strings(directive@),
{
    directive_language_string_for_key(directive, "result")
}

/// What a directive says for a language alone.
pub open spec fn directive_language_text(
    directive: crate::wit::directive::DirectiveView,
    language: Language,
) -> Option<Seq<char>> {
    crate::wit::directive::value_of(directive, language_key_text(language))
}

/// What a directive says for a language alone.
pub fn directive_language_value(
    directive: &Directive,
    language: Language,
) -> (result: Option<String>)
    ensures
        crate::text::opt_text(result) == directive_language_text(directive@, language),
{
    directive.value(language_key(language))
}

/// What a directive says for a language: its own value, else the general one.
pub open spec fn directive_own_text(
    directive: crate::wit::directive::DirectiveView,
    language: Language,
) -> Option<Seq<char>> {
    match directive_language_text(directive, language) {
        Some(value) => Some(value),
        None => crate::wit::directive::value_of(directive, "value"@),
    }
}

/// What a directive says for a language: its own value, else the general one.
pub fn directive_own_value(
    directive: &Directive,
    language: Language,
) -> (result: Option<String>)
    ensures
        crate::text::opt_text(result) == directive_own_text(directive@, language),
{
    match directive_language_value(directive, language) {
        Some(value) => Some(value),
        None => directive.value("value"),
    }
}

/// What the directive with a name says for a language.
pub open spec fn directive_text_for_language(
    directives: Seq<crate::wit::directive::DirectiveView>,
    name: Seq<char>,
    path: Seq<char>,
    context: Seq<char>,
    language: Language,
) -> Result<Option<Seq<char>>, ErrorView> {
    let found_outcome = crate::wit::directive::directive_outcome(directives, name, path, context);
    let found = found_outcome->Ok_0;
    if found_outcome is Err {
        Err(found_outcome->Err_0)
    } else {
        match found {
            None => Ok(None),
            Some(found) => Ok(directive_own_text(found, language)),
        }
    }
}

/// What the directive with a name says for a language.
pub fn directive_value_for_language(
    directives: &Vec<Directive>,
    name: &str,
    path: &str,
    context: &str,
    language: Language,
) -> (result: Result<Option<String>, Error>)
    ensures
        crate::error::opt_outcome(result) == directive_text_for_language(
            crate::wit::directive::directive_views(directives@),
            name@,
            path@,
            context@,
            language,
        ),
{
    let found = match directive(directives, name, path, context) {
        Ok(value) => value,
        Err(error) => return Err(error),
    };
    match found {
        None => Ok(None),
        Some(found) => Ok(directive_own_value(found, language)),
    }
}

/// What the directive with a name says under a key.
pub open spec fn directive_text_under(
    directives: Seq<crate::wit::directive::DirectiveView>,
    name: Seq<char>,
    path: Seq<char>,
    context: Seq<char>,
    key: Seq<char>,
) -> Result<Option<Seq<char>>, ErrorView> {
    let found_outcome = crate::wit::directive::directive_outcome(directives, name, path, context);
    let found = found_outcome->Ok_0;
    if found_outcome is Err {
        Err(found_outcome->Err_0)
    } else {
        match found {
            None => Ok(None),
            Some(found) => Ok(crate::wit::directive::value_of(found, key)),
        }
    }
}

/// What the directive with a name says under a key.
pub fn directive_value(
    directives: &Vec<Directive>,
    name: &str,
    path: &str,
    context: &str,
    key: &str,
) -> (result: Result<Option<String>, Error>)
    ensures
        crate::error::opt_outcome(result) == directive_text_under(
            crate::wit::directive::directive_views(directives@),
            name@,
            path@,
            context@,
            key@,
        ),
{
    let found = match directive(directives, name, path, context) {
        Ok(value) => value,
        Err(error) => return Err(error),
    };
    match found {
        None => Ok(None),
        Some(found) => Ok(found.value(key)),
    }
}

/// The converter that a directive names for a language.
pub open spec fn converter_text(
    directive: crate::wit::directive::DirectiveView,
    language: Language,
) -> Option<Seq<char>> {
    let strings = directive_key_strings(directive, "converter"@);
    crate::plan::view_text_for(strings, language)
}

/// The converter that a directive names for a language.
pub fn directive_converter(
    directive: &Directive,
    language: Language,
) -> (result: Option<String>)
    ensures
        crate::text::opt_text(result) == converter_text(directive@, language),
{
    let strings = directive_language_string_for_key(directive, "converter");
    strings.for_language(language)
}

/// The type parameter that a directive names for a result.
pub open spec fn result_type_parameter_text(
    directive: crate::wit::directive::DirectiveView,
) -> Option<Seq<char>> {
    crate::wit::directive::value_of(directive, "result-type-parameter"@)
}

/// The type parameter that a directive names for a result.
pub fn directive_result_type_parameter(directive: &Directive) -> (result: Option<String>)
    ensures
        crate::text::opt_text(result) == result_type_parameter_text(directive@),
{
    directive.value("result-type-parameter")
}

/// Whether a directive that takes no arguments is there.
pub open spec fn mark_outcome(
    directives: Seq<crate::wit::directive::DirectiveView>,
    name: Seq<char>,
    path: Seq<char>,
    context: Seq<char>,
) -> Result<bool, ErrorView> {
    let found_outcome = crate::wit::directive::directive_outcome(directives, name, path, context);
    let found = found_outcome->Ok_0;
    if found_outcome is Err {
        Err(found_outcome->Err_0)
    } else {
        match found {
            None => Ok(false),
            Some(found) => {
                if crate::wit::directive::is_bare_directive(found) {
                    Ok(true)
                } else {
                    let named = "@nexus."@ + name;
                    Err(
                        crate::wit::directive::directive_failure(
                            path,
                            context,
                            named,
                            "does not take arguments"@,
                        ),
                    )
                }
            },
        }
    }
}

/// Whether a directive that takes no arguments is there.
pub fn mark_directive(
    directives: &Vec<Directive>,
    name: &str,
    path: &str,
    context: &str,
) -> (result: Result<bool, Error>)
    ensures
        crate::error::outcome(result) == mark_outcome(
            crate::wit::directive::directive_views(directives@),
            name@,
            path@,
            context@,
        ),
{
    let found = match directive(directives, name, path, context) {
        Ok(value) => value,
        Err(error) => return Err(error),
    };
    match found {
        None => Ok(false),
        Some(found) => {
            if found.is_bare() {
                Ok(true)
            } else {
                let named = "@nexus.".to_owned().concat(name);
                Err(directive_error(path, context, named.as_str(), "does not take arguments"))
            }
        },
    }
}

/// Whether an item is marked as experimental.
pub open spec fn experimental_outcome(
    directives: Seq<crate::wit::directive::DirectiveView>,
    path: Seq<char>,
    context: Seq<char>,
) -> Result<bool, ErrorView> {
    mark_outcome(directives, "experimental"@, path, context)
}

/// Whether an item is marked as experimental.
pub fn experimental_directive(
    directives: &Vec<Directive>,
    path: &str,
    context: &str,
) -> (result: Result<bool, Error>)
    ensures
        crate::error::outcome(result) == experimental_outcome(
            crate::wit::directive::directive_views(directives@),
            path@,
            context@,
        ),
{
    mark_directive(directives, "experimental", path, context)
}

/// Whether an item asks for the workflow package to be loaded late.
pub open spec fn delay_load_outcome(
    directives: Seq<crate::wit::directive::DirectiveView>,
    path: Seq<char>,
    context: Seq<char>,
) -> Result<bool, ErrorView> {
    mark_outcome(directives, "delay-load-temporalio-workflow"@, path, context)
}

/// Whether an item asks for the workflow package to be loaded late.
pub fn delay_load_temporalio_workflow_directive(
    directives: &Vec<Directive>,
    path: &str,
    context: &str,
) -> (result: Result<bool, Error>)
    ensures
        crate::error::outcome(result) == delay_load_outcome(
            crate::wit::directive::directive_views(directives@),
            path@,
            context@,
        ),
{
    mark_directive(directives, "delay-load-temporalio-workflow", path, context)
}

/// Type parameters are refused where they have no meaning.
pub open spec fn misplaced_type_parameter_outcome(
    directives: Seq<crate::wit::directive::DirectiveView>,
    path: Seq<char>,
    context: Seq<char>,
) -> Result<(), ErrorView> {
    let found_outcome = crate::wit::directive::directive_outcome(
        directives,
        "type-parameter"@,
        path,
        context,
    );
    let found = found_outcome->Ok_0;
    if found_outcome is Err {
        Err(found_outcome->Err_0)
    } else {
        match found {
            None => Ok(()),
            Some(_) => Err(crate::wit::directive::directive_failure(
                    path,
                    context,
                    "@nexus.type-parameter"@,
                    "is only supported on WIT type aliases"@,
            )),
        }
    }
}

/// Type parameters are refused where they have no meaning.
pub fn reject_misplaced_type_parameter(
    directives: &Vec<Directive>,
    path: &str,
    context: &str,
) -> (result: Result<(), Error>)
    ensures
        crate::error::outcome(result) == misplaced_type_parameter_outcome(
            crate::wit::directive::directive_views(directives@),
            path@,
            context@,
        ),
{
    let found = match directive(directives, "type-parameter", path, context) {
        Ok(value) => value,
        Err(error) => return Err(error),
    };
    match found {
        None => Ok(()),
        Some(_) => Err(directive_error(
            path,
            context,
            "@nexus.type-parameter",
            "is only supported on WIT type aliases",
        )),
    }
}

/// `true` and `false` are truth values; nothing else is.
pub open spec fn truth_of(value: Seq<char>) -> Result<bool, Seq<char>> {
    if (value == "true"@) {
        Ok(true)
    } else if (value == "false"@) {
        Ok(false)
    } else {
        Err("expected `true` or `false`, found `"@ + value + "`"@)
    }
}

/// `true` and `false` are truth values; nothing else is.
pub fn parse_bool(value: &str) -> (result: Result<bool, String>)
    ensures
        truth_outcome(result) == truth_of(value@),
{
    if text_eq(value, "true") {
        Ok(true)
    } else if text_eq(value, "false") {
        Ok(false)
    } else {
        Err("expected `true` or `false`, found `".to_owned().concat(value).concat("`"))
    }
}

/// A truth value, or why a text is none.
pub open spec fn truth_outcome(result: Result<bool, String>) -> Result<bool, Seq<char>> {
    match result {
        Ok(value) => Ok(value),
        Err(reason) => Err(reason@),
    }
}

/// The truth value under a key of a directive, where the key is there.
pub open spec fn directive_flag_outcome(
    found: crate::wit::directive::DirectiveView,
    key: Seq<char>,
    path: Seq<char>,
    context: Seq<char>,
    named: Seq<char>,
) -> Result<bool, ErrorView> {
    match crate::wit::directive::value_of(found, key) {
        None => Ok(false),
        Some(value) => match truth_of(value) {
            Ok(flag) => Ok(flag),
            Err(reason) => Err(
                crate::wit::directive::directive_failure(path, context, named, reason),
            ),
        },
    }
}

/// The truth value under a key of a directive, where the key is there.
pub fn directive_flag(
    found: &Directive,
    key: &str,
    path: &str,
    context: &str,
    named: &str,
) -> (result: Result<bool, Error>)
    ensures
        crate::error::outcome(result) == directive_flag_outcome(
            found@,
            key@,
            path@,
            context@,
            named@,
        ),
{
    match found.value(key) {
        None => Ok(false),
        Some(value) => match parse_bool(value.as_str()) {
            Ok(flag) => Ok(flag),
            Err(reason) => Err(directive_error(path, context, named, reason.as_str())),
        },
    }
}

/// Whether a text is a name that code can use: a letter or `_`, then letters, digits and `_`.
pub open spec fn is_helper_name(name: Seq<char>) -> bool {
    &&& name.len() > 0
    &&& name[0] == '_' || 'a' <= name[0] <= 'z' || 'A' <= name[0] <= 'Z'
    &&& forall|i: int| 1 <= i < name.len() ==> is_helper_char(#[trigger] name[i])
}

/// Whether a character can stand in a name.
pub open spec fn is_helper_char(c: char) -> bool {
    c == '_' || crate::text::is_ascii_word(c)
}

/// Whether a text is names with a dot between them.
pub open spec fn is_helper_path(text: Seq<char>) -> bool
    decreases text.len(),
{
    let at = crate::text::first_index(text, '.');
    if 0 <= at < text.len() {
        is_helper_name(text.take(at)) && is_helper_path(text.skip(at + 1))
    } else {
        is_helper_name(text)
    }
}

/// Whether the characters between two indices are a name that code can use.
fn is_valid_support_helper_name(chars: &Vec<char>, from: usize, to: usize) -> (valid: bool)
    requires
        from <= to <= chars.len(),
    ensures
        valid == is_helper_name(chars@.subrange(from as int, to as int)),
{
    let ghost name = chars@.subrange(from as int, to as int);
    if from == to {
        return false;
    }
    let first = chars[from];
    assert(name[0] == first);
    if !(first == '_' || ('a' <= first && first <= 'z') || ('A' <= first && first <= 'Z')) {
        return false;
    }
    let mut i: usize = from + 1;
    while i < to
        invariant
            from < i <= to <= chars.len(),
            name == chars@.subrange(from as int, to as int),
            forall|k: int| 1 <= k < i - from ==> is_helper_char(#[trigger] name[k]),
        decreases to - i,
    {
        assert(name[i - from] == chars@[i as int]);
        if !(chars[i] == '_' || char_is_ascii_word(chars[i])) {
            assert(!is_helper_char(name[i - from]));
            return false;
        }
        i += 1;
    }
    true
}

/// Whether a text is names with a dot between them.
pub fn is_valid_support_helper_path(text: &str) -> (valid: bool)
    ensures
        valid == is_helper_path(text@),
{
    let chars = chars_of(text);
    let mut from: usize = 0;
    assert(chars@.skip(0) =~= chars@);
    loop
        invariant
            from <= chars.len(),
            is_helper_path(text@) == is_helper_path(chars@.skip(from as int)),
        decreases chars.len() - from,
    {
        let ghost rest = chars@.skip(from as int);
        let at = crate::text::find_char(&chars, '.', from);
        proof {
            crate::text::lemma_first_index_bounds(rest, '.');
        }
        assert(chars@.subrange(from as int, chars@.len() as int) =~= rest);
        if at >= chars.len() {
            return is_valid_support_helper_name(&chars, from, chars.len());
        }
        assert(chars@.subrange(from as int, at as int) =~= rest.take(at - from));
        assert(rest.skip(at - from + 1) =~= chars@.skip(at + 1));
        if !is_valid_support_helper_name(&chars, from, at) {
            return false;
        }
        from = at + 1;
    }
}

/// The extractor that a directive names for a language under a key.
pub open spec fn extractor_outcome(
    directive: crate::wit::directive::DirectiveView,
    key: Seq<char>,
    language: Language,
    path: Seq<char>,
    context: Seq<char>,
) -> Result<Option<Seq<char>>, ErrorView> {
    let strings = directive_key_strings(directive, key);
    match crate::plan::view_text_for(strings, language) {
        None => Ok(None),
        Some(extractor) => {
            if is_helper_path(extractor) {
                Ok(Some(extractor))
            } else {
                let language_name = language_key_text(language);
                let reason = "invalid `"@ + language_name + "` "@ + key + " `"@ + extractor + "`"@;
                Err(
                    crate::wit::directive::directive_failure(
                        path,
                        context,
                        "@nexus.function"@,
                        reason,
                    ),
                )
            }
        },
    }
}

/// The extractor that a directive names for a language under a key.
pub fn directive_extractor(
    directive: &Directive,
    key: &str,
    language: Language,
    path: &str,
    context: &str,
) -> (result: Result<Option<String>, Error>)
    ensures
        crate::error::opt_outcome(result) == extractor_outcome(
            directive@,
            key@,
            language,
            path@,
            context@,
        ),
{
    let strings = directive_language_string_for_key(directive, key);
    match strings.for_language(language) {
        None => Ok(None),
        Some(extractor) => {
            if is_valid_support_helper_path(extractor.as_str()) {
                Ok(Some(extractor))
            } else {
                let language_name = language_key(language);
                let reason = "invalid `".to_owned().concat(language_name)
                    .concat("` ").concat(key).concat(" `").concat(extractor.as_str()).concat("`");
                Err(directive_error(path, context, "@nexus.function", reason.as_str()))
            }
        },
    }
}

/// The extractor of the function name that a directive names for a language.
pub open spec fn name_extractor_outcome(
    directive: crate::wit::directive::DirectiveView,
    language: Language,
    path: Seq<char>,
    context: Seq<char>,
) -> Result<Option<Seq<char>>, ErrorView> {
    extractor_outcome(directive, "name-extractor"@, language, path, context)
}

/// The extractor of the function name that a directive names for a language.
pub fn directive_function_name_extractor(
    directive: &Directive,
    language: Language,
    path: &str,
    context: &str,
) -> (result: Result<Option<String>, Error>)
    ensures
        crate::error::opt_outcome(result) == name_extractor_outcome(
            directive@,
            language,
            path@,
            context@,
        ),
{
    directive_extractor(directive, "name-extractor", language, path, context)
}

/// The extractor of the function call that a directive names for a language.
pub open spec fn call_extractor_outcome(
    directive: crate::wit::directive::DirectiveView,
    language: Language,
    path: Seq<char>,
    context: Seq<char>,
) -> Result<Option<Seq<char>>, ErrorView> {
    extractor_outcome(directive, "call-extractor"@, language, path, context)
}

/// The extractor of the function call that a directive names for a language.
pub fn directive_function_call_extractor(
    directive: &Directive,
    language: Language,
    path: &str,
    context: &str,
) -> (result: Result<Option<String>, Error>)
    ensures
        crate::error::opt_outcome(result) == call_extractor_outcome(
            directive@,
            language,
            path@,
            context@,
        ),
{
    directive_extractor(directive, "call-extractor", language, path, context)
}

} // verus!
