//! What directives say: the arguments that are written are the ones that are read, each language by
//! its own key.

use vstd::prelude::*;

use crate::error::ErrorView;
use crate::language::Language;

verus! {

/// Whether a text can be the name of a directive or of an argument.
pub open spec fn is_bare_word(word: Seq<char>) -> bool {
    &&& word.len() > 0
    &&& forall|i: int|
        0 <= i < word.len() ==> !crate::text::is_space(#[trigger] word[i]) && word[i] != '=' && word[i] != '"'
}

/// The name at the beginning of a text ends at the first space.
proof fn lemma_word_ends(word: Seq<char>, rest: Seq<char>)
    requires
        is_bare_word(word),
        rest.len() == 0 || crate::text::is_space(rest[0]),
    ensures
        crate::wit::directive::name_length(word + rest) == word.len(),
    decreases word.len(),
{
    let text = word + rest;
    assert(text[0] == word[0]);
    let tail = word.drop_first();
    assert(text.drop_first() =~= tail + rest);
    if tail.len() > 0 {
        assert forall|i: int| 0 <= i < tail.len() implies !crate::text::is_space(#[trigger] tail[i]) && tail[i]
            != '=' && tail[i] != '"' by {
            assert(tail[i] == word[i + 1]);
        }
        lemma_word_ends(tail, rest);
    } else {
        assert(tail + rest =~= rest);
        assert(crate::wit::directive::name_length(rest) == 0);
    }
}

/// The key at the beginning of a text ends at the first equals sign.
proof fn lemma_key_ends(word: Seq<char>, rest: Seq<char>)
    requires
        is_bare_word(word),
        rest.len() > 0,
        rest[0] == '=',
    ensures
        crate::wit::directive::key_length(word + rest) == word.len(),
    decreases word.len(),
{
    let text = word + rest;
    assert(text[0] == word[0]);
    let tail = word.drop_first();
    assert(text.drop_first() =~= tail + rest);
    if tail.len() > 0 {
        assert forall|i: int| 0 <= i < tail.len() implies !crate::text::is_space(#[trigger] tail[i]) && tail[i]
            != '=' && tail[i] != '"' by {
            assert(tail[i] == word[i + 1]);
        }
        lemma_key_ends(tail, rest);
    } else {
        assert(tail + rest =~= rest);
        assert(crate::wit::directive::key_length(rest) == 0);
    }
}

/// A directive with one argument is read back as it was written: its name, and the value under its
/// key, whatever characters the value has.
pub proof fn law_arguments_are_read_back(
    name: Seq<char>,
    key: Seq<char>,
    value: Seq<char>,
    path: Seq<char>,
    context: Seq<char>,
)
    requires
        is_bare_word(name),
        is_bare_word(key),
    ensures
        crate::wit::directive::directive_line_outcome(
            "@nexus."@ + name + seq![' '] + key + seq!['='] + seq!['"'] + crate::wit::directive::escaped_text(
                value,
            ) + seq!['"'],
            path,
            context,
        ) == Ok::<crate::wit::directive::DirectiveView, ErrorView>(
            crate::wit::directive::DirectiveView {
                name,
                args: Map::<Seq<char>, Seq<char>>::empty().insert(key, value),
            },
        ),
{
    let quoted = seq!['"'] + crate::wit::directive::escaped_text(value) + seq!['"'];
    let tail = key + (seq!['='] + quoted);
    let rest = name + (seq![' '] + tail);
    let line = "@nexus."@ + name + seq![' '] + key + seq!['='] + seq!['"']
        + crate::wit::directive::escaped_text(value) + seq!['"'];
    assert(line =~= "@nexus."@ + rest);
    assert(line.take("@nexus."@.len() as int) =~= "@nexus."@);
    assert(line.skip("@nexus."@.len() as int) =~= rest);
    lemma_word_ends(name, seq![' '] + tail);
    assert(rest.take(name.len() as int) =~= name);
    assert(rest.skip(name.len() as int) =~= seq![' '] + tail);
    assert(crate::text::is_space(' '));
    assert((seq![' '] + tail).drop_first() =~= tail);
    assert(tail[0] == key[0]);
    assert(crate::text::trimmed_start(tail) == tail);
    assert(crate::text::trimmed_start(seq![' '] + tail) == tail);
    lemma_key_ends(key, seq!['='] + quoted);
    assert(tail.take(key.len() as int) =~= key);
    assert(tail.skip(key.len() as int) =~= seq!['='] + quoted);
    assert(crate::text::trimmed_start(seq!['='] + quoted) == seq!['='] + quoted);
    assert((seq!['='] + quoted).skip(1) =~= quoted);
    assert(crate::text::trimmed_start(quoted) == quoted);
    crate::wit::directive::law_quoted_text_is_read_back(value, Seq::empty());
    assert(quoted.skip(1) =~= crate::wit::directive::escaped_text(value) + seq!['"'] + Seq::<char>::empty());
    assert(crate::text::trimmed_start(Seq::<char>::empty()) == Seq::<char>::empty());
    reveal_with_fuel(crate::wit::directive::directive_args_outcome, 2);
}

/// A directive with a bare value is read back as it was written: the value stands under `value`.
pub proof fn law_bare_values_are_read_back(name: Seq<char>, value: Seq<char>, path: Seq<char>, context: Seq<char>)
    requires
        is_bare_word(name),
    ensures
        crate::wit::directive::directive_line_outcome(
            "@nexus."@ + name + seq![' '] + seq!['"'] + crate::wit::directive::escaped_text(value)
                + seq!['"'],
            path,
            context,
        ) == Ok::<crate::wit::directive::DirectiveView, ErrorView>(
            crate::wit::directive::DirectiveView {
                name,
                args: Map::<Seq<char>, Seq<char>>::empty().insert("value"@, value),
            },
        ),
        crate::wit::directive::directive_line_outcome("@nexus."@ + name, path, context) == Ok::<
            crate::wit::directive::DirectiveView,
            ErrorView,
        >(crate::wit::directive::DirectiveView { name, args: Map::<Seq<char>, Seq<char>>::empty() }),
{
    let quoted = seq!['"'] + crate::wit::directive::escaped_text(value) + seq!['"'];
    let rest = name + (seq![' '] + quoted);
    let line = "@nexus."@ + name + seq![' '] + seq!['"'] + crate::wit::directive::escaped_text(value)
        + seq!['"'];
    assert(line =~= "@nexus."@ + rest);
    assert(line.take("@nexus."@.len() as int) =~= "@nexus."@);
    assert(line.skip("@nexus."@.len() as int) =~= rest);
    lemma_word_ends(name, seq![' '] + quoted);
    assert(rest.take(name.len() as int) =~= name);
    assert(rest.skip(name.len() as int) =~= seq![' '] + quoted);
    assert(crate::text::is_space(' '));
    assert((seq![' '] + quoted).drop_first() =~= quoted);
    assert(crate::text::trimmed_start(quoted) == quoted);
    assert(crate::text::trimmed_start(seq![' '] + quoted) == quoted);
    crate::wit::directive::law_quoted_text_is_read_back(value, Seq::empty());
    assert(quoted.skip(1) =~= crate::wit::directive::escaped_text(value) + seq!['"'] + Seq::<char>::empty());
    assert(crate::text::trimmed_start(Seq::<char>::empty()) == Seq::<char>::empty());
    let alone = "@nexus."@ + name;
    assert(alone.take("@nexus."@.len() as int) =~= "@nexus."@);
    assert(alone.skip("@nexus."@.len() as int) =~= name);
    lemma_word_ends(name, Seq::empty());
    assert(name + Seq::<char>::empty() =~= name);
    assert(name.take(name.len() as int) =~= name);
    assert(name.skip(name.len() as int) =~= Seq::<char>::empty());
}

/// A line that is no directive is refused.
pub proof fn law_other_lines_are_refused(line: Seq<char>, path: Seq<char>, context: Seq<char>)
    ensures
        !crate::text::has_prefix(line, "@nexus."@) ==> crate::wit::directive::directive_line_outcome(
            line,
            path,
            context,
        ) is Err,
{
}

/// Each language has its own key.
pub proof fn law_languages_have_their_own_keys()
    ensures
        crate::wit::strings::language_key_text(Language::Dotnet) == "dotnet"@,
        crate::wit::strings::language_key_text(Language::Go) == "go"@,
        crate::wit::strings::language_key_text(Language::Java) == "java"@,
        crate::wit::strings::language_key_text(Language::Python) == "python"@,
        crate::wit::strings::language_key_text(Language::Ruby) == "ruby"@,
        crate::wit::strings::language_key_text(Language::TypeScript) == "typescript"@,
{
}

/// The text of a directive for a language is the one under the key of the language, else the one
/// for all languages.
pub proof fn law_directives_speak_to_each_language(
    directive: crate::wit::directive::DirectiveView,
    language: Language,
    key: Seq<char>,
)
    ensures
        crate::plan::view_text_for(crate::wit::strings::directive_strings(directive), language)
            == match crate::wit::directive::value_of(directive, crate::wit::strings::language_key_text(language)) {
            Some(text) => Some(text),
            None => crate::wit::directive::value_of(directive, "value"@),
        },
        crate::plan::view_text_for(crate::wit::strings::directive_prefixed_strings(directive, key), language)
            == crate::wit::directive::value_of(
            directive,
            crate::wit::strings::language_key_text(language) + ("-"@ + key),
        ),
        crate::plan::view_text_for(crate::wit::strings::directive_key_strings(directive, key), language)
            == match crate::wit::directive::value_of(
            directive,
            crate::wit::strings::language_key_text(language) + ("-"@ + key),
        ) {
            Some(text) => Some(text),
            None => crate::wit::directive::value_of(directive, key),
        },
        crate::wit::strings::directive_own_text(directive, language) == match crate::wit::directive::value_of(
            directive,
            crate::wit::strings::language_key_text(language),
        ) {
            Some(text) => Some(text),
            None => crate::wit::directive::value_of(directive, "value"@),
        },
        crate::wit::strings::directive_strings(directive).default_import == crate::wit::directive::value_of(
            directive,
            "import"@,
        ),
{
    reveal_strlit("");
    assert(crate::wit::strings::language_key_text(language) + ""@ =~= crate::wit::strings::language_key_text(
        language,
    ));
    lemma_entries_by_language(directive, ""@, language);
    lemma_entries_by_language(directive, "-"@ + key, language);
}

/// The entry of a language is the value under its key.
proof fn lemma_entries_by_language(
    directive: crate::wit::directive::DirectiveView,
    behind: Seq<char>,
    language: Language,
)
    ensures
        crate::plan::own_text(crate::wit::strings::language_entries(directive, behind), language)
            == crate::wit::directive::value_of(directive, crate::wit::strings::language_key_text(language) + behind),
{
    let first = crate::wit::strings::language_entry(directive, Language::Dotnet, behind);
    let second = crate::wit::strings::language_entry(directive, Language::Go, behind);
    let third = crate::wit::strings::language_entry(directive, Language::Java, behind);
    let fourth = crate::wit::strings::language_entry(directive, Language::Python, behind);
    let fifth = crate::wit::strings::language_entry(directive, Language::Ruby, behind);
    let sixth = crate::wit::strings::language_entry(directive, Language::TypeScript, behind);
    lemma_found_in_either(first + second + third + fourth + fifth, sixth, language);
    lemma_found_in_either(first + second + third + fourth, fifth, language);
    lemma_found_in_either(first + second + third, fourth, language);
    lemma_found_in_either(first + second, third, language);
    lemma_found_in_either(first, second, language);
    lemma_lone_entry(directive, Language::Dotnet, behind, language);
    lemma_lone_entry(directive, Language::Go, behind, language);
    lemma_lone_entry(directive, Language::Java, behind, language);
    lemma_lone_entry(directive, Language::Python, behind, language);
    lemma_lone_entry(directive, Language::Ruby, behind, language);
    lemma_lone_entry(directive, Language::TypeScript, behind, language);
}

/// The entry of one language is found by that language only.
proof fn lemma_lone_entry(
    directive: crate::wit::directive::DirectiveView,
    own: Language,
    behind: Seq<char>,
    language: Language,
)
    ensures
        crate::plan::own_text(crate::wit::strings::language_entry(directive, own, behind), language) == if own
            == language {
            crate::wit::directive::value_of(directive, crate::wit::strings::language_key_text(own) + behind)
        } else {
            None
        },
{
    let entries = crate::wit::strings::language_entry(directive, own, behind);
    if entries.len() > 0 {
        assert(entries.drop_first() =~= Seq::empty());
    }
    reveal_with_fuel(crate::plan::own_text, 2);
}

/// What is found in two lists of entries is found in the first, else in the second.
proof fn lemma_found_in_either(
    first: Seq<crate::plan::LanguageTextView>,
    second: Seq<crate::plan::LanguageTextView>,
    language: Language,
)
    ensures
        crate::plan::own_text(first + second, language) == match crate::plan::own_text(first, language) {
            Some(text) => Some(text),
            None => crate::plan::own_text(second, language),
        },
    decreases first.len(),
{
    if first.len() == 0 {
        assert(first + second =~= second);
    } else {
        assert((first + second)[0] == first[0]);
        assert((first + second).drop_first() =~= first.drop_first() + second);
        lemma_found_in_either(first.drop_first(), second, language);
    }
}

/// A flag is set by `true`, cleared by `false` and by not being written, and refused otherwise.
pub proof fn law_flags_are_true_or_false(
    found: crate::wit::directive::DirectiveView,
    key: Seq<char>,
    path: Seq<char>,
    context: Seq<char>,
    named: Seq<char>,
)
    ensures
        ({
            let outcome = crate::wit::strings::directive_flag_outcome(found, key, path, context, named);
            &&& outcome == Ok::<bool, ErrorView>(true) <==> crate::wit::directive::value_of(found, key)
                == Some("true"@)
            &&& outcome == Ok::<bool, ErrorView>(false) <==> (crate::wit::directive::value_of(found, key)
                is None || crate::wit::directive::value_of(found, key) == Some("false"@))
        }),
{
    reveal_strlit("true");
    reveal_strlit("false");
    assert("true"@.len() != "false"@.len());
}

/// A mark is there where its directive is, and takes no arguments.
pub proof fn law_marks_take_no_arguments(
    directives: Seq<crate::wit::directive::DirectiveView>,
    path: Seq<char>,
    context: Seq<char>,
)
    ensures
        ({
            let marks = crate::wit::directive::named_directives(directives, "experimental"@);
            let outcome = crate::wit::strings::experimental_outcome(directives, path, context);
            &&& marks.len() == 0 ==> outcome == Ok::<bool, ErrorView>(false)
            &&& marks.len() == 1 && marks[0].args == Map::<Seq<char>, Seq<char>>::empty() ==> outcome == Ok::<
                bool,
                ErrorView,
            >(true)
            &&& marks.len() == 1 && marks[0].args != Map::<Seq<char>, Seq<char>>::empty() ==> outcome is Err
            &&& marks.len() > 1 ==> outcome is Err
        }),
        ({
            let marks = crate::wit::directive::named_directives(
                directives,
                "delay-load-temporalio-workflow"@,
            );
            let outcome = crate::wit::strings::delay_load_outcome(directives, path, context);
            &&& marks.len() == 0 ==> outcome == Ok::<bool, ErrorView>(false)
            &&& marks.len() == 1 && marks[0].args == Map::<Seq<char>, Seq<char>>::empty() ==> outcome == Ok::<
                bool,
                ErrorView,
            >(true)
            &&& marks.len() == 1 && marks[0].args != Map::<Seq<char>, Seq<char>>::empty() ==> outcome is Err
        }),
{
}

/// The directives of a name are those that have it, all of them and no others.
pub proof fn law_directives_are_found_by_their_name(
    directives: Seq<crate::wit::directive::DirectiveView>,
    name: Seq<char>,
    wanted: crate::wit::directive::DirectiveView,
)
    ensures
        crate::wit::directive::named_directives(directives, name).contains(wanted) <==> (
        directives.contains(wanted) && wanted.name == name),
    decreases directives.len(),
{
    if directives.len() > 0 {
        law_directives_are_found_by_their_name(directives.drop_last(), name, wanted);
        let before = directives.drop_last();
        let last = directives.last();
        assert(directives =~= before.push(last));
        assert(directives.contains(wanted) <==> (before.contains(wanted) || wanted == last)) by {
            if directives.contains(wanted) {
                let i = choose|i: int| 0 <= i < directives.len() && directives[i] == wanted;
                if i < before.len() {
                    assert(before[i] == wanted);
                }
            }
            if before.contains(wanted) {
                let i = choose|i: int| 0 <= i < before.len() && before[i] == wanted;
                assert(directives[i] == wanted);
            }
            if wanted == last {
                assert(directives[directives.len() - 1] == wanted);
            }
        }
        let named = crate::wit::directive::named_directives(before, name);
        let pushed = named.push(last);
        assert(pushed.contains(wanted) <==> (named.contains(wanted) || wanted == last)) by {
            if pushed.contains(wanted) {
                let i = choose|i: int| 0 <= i < pushed.len() && pushed[i] == wanted;
                if i < named.len() {
                    assert(named[i] == wanted);
                }
            }
            if named.contains(wanted) {
                let i = choose|i: int| 0 <= i < named.len() && named[i] == wanted;
                assert(pushed[i] == wanted);
            }
            if wanted == last {
                assert(pushed[pushed.len() - 1] == wanted);
            }
        }
    }
}

/// A helper is named by letters, digits and underscores that do not start with a digit, and its
/// parts stand between dots.
pub proof fn law_helpers_are_dotted_names(first: Seq<char>, second: Seq<char>)
    requires
        crate::wit::strings::is_helper_name(first),
        crate::wit::strings::is_helper_name(second),
    ensures
        crate::wit::strings::is_helper_path(first),
        crate::wit::strings::is_helper_path(first + "."@ + second),
        first[0] == '_' || 'a' <= first[0] <= 'z' || 'A' <= first[0] <= 'Z',
{
    reveal_strlit(".");
    lemma_no_dot(first, Seq::empty());
    assert(first + Seq::<char>::empty() =~= first);
    let path = first + "."@ + second;
    assert(path =~= first + (seq!['.'] + second));
    lemma_no_dot(first, seq!['.'] + second);
    assert(path.take(first.len() as int) =~= first);
    assert(path.skip(first.len() as int + 1) =~= second);
    lemma_no_dot(second, Seq::empty());
    assert(second + Seq::<char>::empty() =~= second);
    assert(crate::wit::strings::is_helper_path(second));
    reveal_with_fuel(crate::wit::strings::is_helper_path, 2);
}

/// A helper's name has no dot.
proof fn lemma_no_dot(name: Seq<char>, rest: Seq<char>)
    requires
        crate::wit::strings::is_helper_name(name),
        rest.len() == 0 || rest[0] == '.',
    ensures
        crate::text::first_index(name + rest, '.') == name.len(),
{
    assert forall|i: int| 0 <= i < name.len() implies #[trigger] name[i] != '.' by {
        if i > 0 {
            assert(crate::wit::strings::is_helper_char(name[i]));
        }
    }
    lemma_first_dot(name, rest);
}

/// The first dot stands behind a text that has none.
proof fn lemma_first_dot(name: Seq<char>, rest: Seq<char>)
    requires
        forall|i: int| 0 <= i < name.len() ==> #[trigger] name[i] != '.',
        rest.len() == 0 || rest[0] == '.',
    ensures
        crate::text::first_index(name + rest, '.') == name.len(),
    decreases name.len(),
{
    if name.len() == 0 {
        assert(name + rest =~= rest);
    } else {
        assert((name + rest)[0] == name[0]);
        let tail = name.drop_first();
        assert((name + rest).drop_first() =~= tail + rest);
        assert forall|i: int| 0 <= i < tail.len() implies #[trigger] tail[i] != '.' by {
            assert(tail[i] == name[i + 1]);
        }
        lemma_first_dot(tail, rest);
    }
}

} // verus!
