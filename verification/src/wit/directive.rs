//! The `@nexus.` directives in the documentation of WIT items.

use vstd::prelude::*;

use crate::error::{Error, ErrorView};
use crate::text::{
    char_is_space, chars_of, split_lines, starts_with, text_between, text_eq, trim_start,
};

verus! {

/// An argument of a directive.
#[derive(Debug, Clone)]
pub struct DirectiveArg {
    pub key: String,
    pub value: String,
}

/// A directive: its name, and its arguments in the order in which they are written.
#[derive(Debug, Clone)]
pub struct Directive {
    pub name: String,
    pub args: Vec<DirectiveArg>,
}

/// A directive by its name, and the value under each key.
#[verifier::ext_equal]
pub struct DirectiveView {
    pub name: Seq<char>,
    pub args: Map<Seq<char>, Seq<char>>,
}

/// The value under each key: of a key that is written more than once, the last one.
pub open spec fn arg_map(args: Seq<DirectiveArg>) -> Map<Seq<char>, Seq<char>>
    decreases args.len(),
{
    if args.len() == 0 {
        Map::empty()
    } else {
        arg_map(args.drop_last()).insert(args.last().key@, args.last().value@)
    }
}

impl View for Directive {
    type V = DirectiveView;

    open spec fn view(&self) -> DirectiveView {
        DirectiveView { name: self.name@, args: arg_map(self.args@) }
    }
}

/// The directives by their names and values.
pub open spec fn directive_views(directives: Seq<Directive>) -> Seq<DirectiveView> {
    directives.map_values(|directive: Directive| directive@)
}

/// An optional directive by its name and values.
pub open spec fn directive_ref(directive: Option<&Directive>) -> Option<DirectiveView> {
    match directive {
        Some(directive) => Some(directive@),
        None => None,
    }
}

/// The value under a key.
pub open spec fn value_of(directive: DirectiveView, key: Seq<char>) -> Option<Seq<char>> {
    if directive.args.dom().contains(key) {
        Some(directive.args[key])
    } else {
        None
    }
}

impl Directive {
    /// The name of the directive, without the `@nexus.` before it.
    pub fn name(&self) -> (name: &str)
        ensures
            name@ == self@.name,
    {
        self.name.as_str()
    }

    /// The value under a key.
    pub fn value(&self, key: &str) -> (value: Option<String>)
        ensures
            crate::text::opt_text(value) == value_of(self@, key@),
    {
        let mut i: usize = self.args.len();
        assert(self.args@.take(i as int) =~= self.args@);
        while i > 0
            invariant
                i <= self.args.len(),
                value_of(self@, key@) == value_of(
                    DirectiveView { name: self.name@, args: arg_map(self.args@.take(i as int)) },
                    key@,
                ),
            decreases i,
        {
            assert(self.args@.take(i as int).drop_last() =~= self.args@.take(i - 1));
            i -= 1;
            if text_eq(self.args[i].key.as_str(), key) {
                return Some(self.args[i].value.clone());
            }
        }
        None
    }

    /// Whether the directive has no arguments.
    pub fn is_bare(&self) -> (bare: bool)
        ensures
            bare == is_bare_directive(self@),
    {
        proof {
            if self.args@.len() > 0 {
                assert(arg_map(self.args@).dom().contains(self.args@.last().key@));
                assert(
                    !Map::<Seq<char>, Seq<char>>::empty().dom().contains(self.args@.last().key@)
                );
            }
        }
        self.args.len() == 0
    }
}

/// Whether a directive has no arguments.
pub open spec fn is_bare_directive(directive: DirectiveView) -> bool {
    directive.args == Map::<Seq<char>, Seq<char>>::empty()
}

/// The error that a directive is answered with.
pub open spec fn directive_failure(
    path: Seq<char>,
    context: Seq<char>,
    directive: Seq<char>,
    reason: Seq<char>,
) -> ErrorView {
    ErrorView::InvalidWitDirective {
        path: path,
        context: context,
        directive: directive,
        reason: reason,
    }
}

/// The error that a directive is answered with.
pub fn directive_error(
    path: &str,
    context: &str,
    directive: &str,
    reason: &str,
) -> (result: Error)
    ensures
        result@ == directive_failure(path@, context@, directive@, reason@),
{
    Error::InvalidWitDirective {
        path: path.to_owned(),
        context: context.to_owned(),
        directive: directive.to_owned(),
        reason: reason.to_owned(),
    }
}

/// The error that an input is answered with.
pub open spec fn wit_failure(path: Seq<char>, reason: Seq<char>) -> ErrorView {
    ErrorView::InvalidWit { path: path, reason: reason }
}

/// The error that an input is answered with.
pub fn wit_error(path: &str, reason: &str) -> (result: Error)
    ensures
        result@ == wit_failure(path@, reason@),
{
    Error::InvalidWit { path: path.to_owned(), reason: reason.to_owned() }
}

/// The length of the word at the front of a text: what comes before white space.
pub open spec fn name_length(text: Seq<char>) -> int
    decreases text.len(),
{
    if text.len() == 0 || crate::text::is_space(text[0]) {
        0
    } else {
        1 + name_length(text.drop_first())
    }
}

/// The length of the key at the front of a text: what comes before white space or `=`.
pub open spec fn key_length(text: Seq<char>) -> int
    decreases text.len(),
{
    if text.len() == 0 || text[0] == '=' || crate::text::is_space(text[0]) {
        0
    } else {
        1 + key_length(text.drop_first())
    }
}

pub proof fn lemma_lengths(text: Seq<char>)
    ensures
        0 <= name_length(text) <= text.len(),
        0 <= key_length(text) <= text.len(),
        crate::text::trimmed_start(text).len() <= text.len(),
    decreases text.len(),
{
    if text.len() > 0 {
        lemma_lengths(text.drop_first());
    }
}

/// What a quoted text holds, up to its closing quote, and what follows that. A backslash stands
/// before a character that is taken as it is.
pub open spec fn quoted_text(text: Seq<char>) -> Option<(Seq<char>, Seq<char>)>
    decreases text.len(),
{
    if text.len() == 0 {
        None
    } else if text[0] == '"' {
        Some((Seq::empty(), text.skip(1)))
    } else if text[0] == '\\' {
        if text.len() == 1 {
            None
        } else {
            match quoted_text(text.skip(2)) {
                Some((value, rest)) => Some((seq![text[1]] + value, rest)),
                None => None,
            }
        }
    } else {
        match quoted_text(text.skip(1)) {
            Some((value, rest)) => Some((seq![text[0]] + value, rest)),
            None => None,
        }
    }
}

pub proof fn lemma_quoted_rest(text: Seq<char>)
    ensures
        quoted_text(text) matches Some((value, rest)) ==> rest.len() < text.len(),
    decreases text.len(),
{
    if text.len() > 0 && text[0] != '"' {
        if text[0] != '\\' {
            lemma_quoted_rest(text.skip(1));
        } else if text.len() > 1 {
            lemma_quoted_rest(text.skip(2));
        }
    }
}

/// How a text is written inside quotes.
pub open spec fn escaped_text(value: Seq<char>) -> Seq<char>
    decreases value.len(),
{
    if value.len() == 0 {
        Seq::empty()
    } else {
        (if value[0] == '"' || value[0] == '\\' {
                seq!['\\', value[0]]
            } else {
                seq![value[0]]
        }) + escaped_text(value.drop_first())
    }
}

/// What is written inside quotes is read back as it was, whatever follows.
pub proof fn law_quoted_text_is_read_back(value: Seq<char>, rest: Seq<char>)
    ensures
        quoted_text(escaped_text(value) + seq!['"'] + rest) == Some((value, rest)),
    decreases value.len(),
{
    let text = escaped_text(value) + seq!['"'] + rest;
    if value.len() == 0 {
        assert(text.skip(1) =~= rest);
        assert(value =~= Seq::empty());
    } else {
        let tail = escaped_text(value.drop_first()) + seq!['"'] + rest;
        law_quoted_text_is_read_back(value.drop_first(), rest);
        if value[0] == '"' || value[0] == '\\' {
            assert(text.skip(2) =~= tail);
            assert(text[0] == '\\' && text[1] == value[0]);
            assert(seq![text[1]] + value.drop_first() =~= value);
        } else {
            assert(text.skip(1) =~= tail);
            assert(text[0] == value[0]);
            assert(seq![text[0]] + value.drop_first() =~= value);
        }
    }
}

/// The value at the front of a text and what follows it: a quoted text, or a word.
pub open spec fn directive_value_outcome(
    text: Seq<char>,
    path: Seq<char>,
    context: Seq<char>,
    name: Seq<char>,
) -> Result<(Seq<char>, Seq<char>), ErrorView> {
    if text.len() > 0 && text[0] == '"' {
        match quoted_text(text.skip(1)) {
            Some(found) => Ok(found),
            None => Err(
                directive_failure(
                    path,
                    context,
                    "@nexus."@ + name,
                    "unterminated quoted string"@,
                ),
            ),
        }
    } else {
        Ok((text.take(name_length(text)), text.skip(name_length(text))))
    }
}

/// The arguments that a text holds beside those before it.
pub open spec fn directive_args_outcome(
    text: Seq<char>,
    args: Map<Seq<char>, Seq<char>>,
    path: Seq<char>,
    context: Seq<char>,
    name: Seq<char>,
) -> Result<Map<Seq<char>, Seq<char>>, ErrorView>
    decreases text.len(),
{
    if text.len() == 0 {
        Ok(args)
    } else {
        let key = text.take(key_length(text));
        let after_key = crate::text::trimmed_start(text.skip(key_length(text)));
        if after_key.len() == 0 || after_key[0] != '=' {
            Err(
                directive_failure(
                    path,
                    context,
                    "@nexus."@ + name,
                    "expected `=` after `"@ + key + "`"@,
                ),
            )
        } else {
            match directive_value_outcome(
                crate::text::trimmed_start(after_key.skip(1)),
                path,
                context,
                name,
            ) {
                Err(error) => Err(error),
                Ok((value, rest)) => {
                    proof {
                        lemma_lengths(text);
                        lemma_lengths(text.skip(key_length(text)));
                        lemma_lengths(after_key.skip(1));
                        lemma_value_rest(
                            crate::text::trimmed_start(after_key.skip(1)),
                            path,
                            context,
                            name,
                        );
                        lemma_lengths(rest);
                    }
                    directive_args_outcome(
                        crate::text::trimmed_start(rest),
                        args.insert(key, value),
                        path,
                        context,
                        name,
                    )
                },
            }
        }
    }
}

pub proof fn lemma_value_rest(text: Seq<char>, path: Seq<char>, context: Seq<char>, name: Seq<char>)
    ensures
        directive_value_outcome(text, path, context, name) matches Ok((value, rest))
            ==> rest.len() <= text.len(),
{
    lemma_lengths(text);
    if text.len() > 0 {
        lemma_quoted_rest(text.skip(1));
    }
}

/// The directive that a text is: its name, a value in quotes where there is one, and arguments.
pub open spec fn directive_line_outcome(
    line: Seq<char>,
    path: Seq<char>,
    context: Seq<char>,
) -> Result<
    DirectiveView,
    ErrorView,
> {
    match crate::text::without_prefix(line, "@nexus."@) {
        None => Err(
            directive_failure(path, context, line, "directive must start with `@nexus.`"@),
        ),
        Some(rest) => {
            let name = rest.take(name_length(rest));
            let tail = crate::text::trimmed_start(rest.skip(name_length(rest)));
            let outcome = if tail.len() > 0 && tail[0] == '"' {
                match directive_value_outcome(tail, path, context, name) {
                    Err(error) => Err(error),
                    Ok((value, rest)) => directive_args_outcome(
                        crate::text::trimmed_start(rest),
                        Map::<Seq<char>, Seq<char>>::empty().insert("value"@, value),
                        path,
                        context,
                        name,
                    ),
                }
            } else {
                directive_args_outcome(tail, Map::empty(), path, context, name)
            };
            match outcome {
                Err(error) => Err(error),
                Ok(args) => Ok(DirectiveView { name, args }),
            }
        },
    }
}

/// Whether a line starts a directive.
pub open spec fn starts_directive(line: Seq<char>) -> bool {
    crate::text::has_prefix(crate::text::trimmed_start(line), "@nexus."@)
}

/// Whether a line goes on with the directive before it: it is indented, and starts with a quote
/// or holds a `=`.
pub open spec fn continues_directive(line: Seq<char>) -> bool {
    let text = crate::text::trimmed_start(line);
    &&& !starts_directive(line)
    &&& text.len() > 0
    &&& text.len() != line.len()
    &&& text[0] == '"' || text.contains('=')
}

/// What the lines at the front add to the directive before them.
pub open spec fn continuation(lines: Seq<Seq<char>>) -> Seq<char>
    decreases lines.len(),
{
    if lines.len() > 0 && continues_directive(lines[0]) {
        " "@ + crate::text::trimmed_start(lines[0]) + continuation(lines.drop_first())
    } else {
        Seq::empty()
    }
}

/// The directives in the lines as they are written, each on one line.
pub open spec fn directive_texts(lines: Seq<Seq<char>>) -> Seq<Seq<char>>
    decreases lines.len(),
{
    if lines.len() == 0 {
        Seq::empty()
    } else if starts_directive(lines[0]) {
        seq![crate::text::trimmed_start(lines[0]) + continuation(lines.drop_first())]
            + directive_texts(lines.drop_first())
    } else {
        directive_texts(lines.drop_first())
    }
}

/// The value at the front of a text and what follows it.
fn parse_directive_value(input: &str, path: &str, context: &str, name: &str) -> (result: Result<
    (String, String),
    Error,
>)
    ensures
        match (result, directive_value_outcome(input@, path@, context@, name@)) {
            (Ok((value, rest)), Ok((wanted, wanted_rest))) => value@ == wanted && rest@
                == wanted_rest,
            (Err(error), Err(wanted)) => error@ == wanted,
            _ => false,
        },
{
    let chars = chars_of(input);
    if chars.len() > 0 && chars[0] == '"' {
        let mut value = String::new();
        let mut i: usize = 1;
        proof {
            match quoted_text(chars@.skip(1)) {
                Some((text, rest)) => {
                    assert(Seq::<char>::empty() + text =~= text);
                },
                None => {},
            }
        }
        while i < chars.len()
            invariant
                1 <= i <= chars.len(),
                chars@ == input@,
                chars@[0] == '"',
                quoted_text(chars@.skip(1)) == (match quoted_text(chars@.skip(i as int)) {
                    Some((text, rest)) => Some((value@ + text, rest)),
                    None => None,
                }),
            decreases chars.len() - i,
        {
            let ghost before = value@;
            let ghost here = chars@.skip(i as int);
            assert(here[0] == chars@[i as int]);
            if chars[i] == '"' {
                assert(here.skip(1) =~= chars@.skip(i + 1));
                assert(chars@.subrange(i + 1, chars@.len() as int) =~= chars@.skip(i + 1));
                assert(before + Seq::<char>::empty() =~= before);
                assert(chars@ =~= input@);
                let rest = text_between(&chars, i + 1, chars.len());
                return Ok((value, rest));
            }
            if chars[i] == '\\' {
                i += 1;
                if i < chars.len() {
                    value.push(chars[i]);
                    i += 1;
                    assert(here.skip(2) =~= chars@.skip(i as int));
                    proof {
                        assert(here[1] == chars@[i - 1]);
                        match quoted_text(chars@.skip(i as int)) {
                            Some((text, rest)) => {
                                assert(before + (seq![here[1]] + text) =~= value@ + text);
                            },
                            None => {},
                        }
                    }
                } else {
                    assert(here.len() == 1);
                    assert(chars@.skip(i as int).len() == 0);
                }
            } else {
                value.push(chars[i]);
                i += 1;
                assert(here.skip(1) =~= chars@.skip(i as int));
                proof {
                    match quoted_text(chars@.skip(i as int)) {
                        Some((text, rest)) => {
                            assert(before + (seq![here[0]] + text) =~= value@ + text);
                        },
                        None => {},
                    }
                }
            }
        }
        assert(chars@.skip(i as int).len() == 0);
        assert(chars@ =~= input@);
        let named = "@nexus.".to_owned().concat(name);
        Err(directive_error(path, context, named.as_str(), "unterminated quoted string"))
    } else {
        let end = word_end(&chars, 0);
        assert(chars@.skip(0) =~= chars@);
        assert(chars@.subrange(0, end as int) =~= chars@.take(end as int));
        assert(chars@.subrange(end as int, chars@.len() as int) =~= chars@.skip(end as int));
        Ok((text_between(&chars, 0, end), text_between(&chars, end, chars.len())))
    }
}

/// Where the word that starts at an index ends.
fn word_end(chars: &Vec<char>, from: usize) -> (end: usize)
    requires
        from <= chars.len(),
    ensures
        from <= end <= chars.len(),
        end == from + name_length(chars@.skip(from as int)),
{
    let mut i: usize = from;
    while i < chars.len() && !char_is_space(chars[i])
        invariant
            from <= i <= chars.len(),
            i + name_length(chars@.skip(i as int)) == from + name_length(chars@.skip(from as int)),
        decreases chars.len() - i,
    {
        assert(chars@.skip(i as int).drop_first() =~= chars@.skip(i + 1));
        i += 1;
    }
    i
}

/// Where the key at the front ends.
fn key_end(chars: &Vec<char>) -> (end: usize)
    ensures
        end <= chars.len(),
        end == key_length(chars@),
{
    let mut i: usize = 0;
    assert(chars@.skip(0) =~= chars@);
    while i < chars.len() && chars[i] != '=' && !char_is_space(chars[i])
        invariant
            i <= chars.len(),
            i + key_length(chars@.skip(i as int)) == key_length(chars@),
        decreases chars.len() - i,
    {
        assert(chars@.skip(i as int).drop_first() =~= chars@.skip(i + 1));
        i += 1;
    }
    i
}

/// The directive that a text is.
pub fn parse_directive_line(line: &str, path: &str, context: &str) -> (result: Result<
    Directive,
    Error,
>)
    ensures
        crate::error::outcome(result) == directive_line_outcome(line@, path@, context@),
{
    let rest = match crate::text::strip_prefix(line, "@nexus.") {
        Some(rest) => rest,
        None => {
            return Err(
                directive_error(path, context, line, "directive must start with `@nexus.`"),
            );
        },
    };
    let rest_chars = chars_of(rest.as_str());
    let end = word_end(&rest_chars, 0);
    assert(rest_chars@.skip(0) =~= rest_chars@);
    assert(rest_chars@ =~= rest@);
    assert(rest_chars@.subrange(0, end as int) =~= rest@.take(end as int));
    assert(rest_chars@.subrange(end as int, rest_chars@.len() as int) =~= rest@.skip(end as int));
    let name = text_between(&rest_chars, 0, end);
    let behind = text_between(&rest_chars, end, rest_chars.len());
    let mut tail = trim_start(behind.as_str());
    let mut args: Vec<DirectiveArg> = Vec::new();
    let ghost first = tail@;
    let tail_chars = chars_of(tail.as_str());
    assert(arg_map(args@) =~= Map::<Seq<char>, Seq<char>>::empty());
    if tail_chars.len() > 0 && tail_chars[0] == '"' {
        let (value, remaining) = match parse_directive_value(
            tail.as_str(),
            path,
            context,
            name.as_str(),
        ) {
            Ok(found) => found,
            Err(error) => return Err(error),
        };
        args.push(DirectiveArg { key: "value".to_owned(), value });
        assert(args@.drop_last() =~= Seq::<DirectiveArg>::empty());
        tail = trim_start(remaining.as_str());
    }
    let ghost outcome = directive_args_outcome(tail@, arg_map(args@), path@, context@, name@);
    let mut open = !tail.as_str().is_empty();
    while open
        invariant
            open == (tail@.len() > 0),
            outcome == directive_args_outcome(tail@, arg_map(args@), path@, context@, name@),
            directive_line_outcome(line@, path@, context@) == (match outcome {
                Err(error) => Err::<DirectiveView, ErrorView>(error),
                Ok(args) => Ok::<DirectiveView, ErrorView>(DirectiveView { name: name@, args }),
            }),
        decreases tail@.len(),
    {
        let chars = chars_of(tail.as_str());
        let end = key_end(&chars);
        assert(chars@ =~= tail@);
        assert(chars@.subrange(0, end as int) =~= tail@.take(end as int));
        assert(chars@.subrange(end as int, chars@.len() as int) =~= tail@.skip(end as int));
        let key = text_between(&chars, 0, end);
        let behind = text_between(&chars, end, chars.len());
        let after_key = trim_start(behind.as_str());
        let after_chars = chars_of(after_key.as_str());
        let named = "@nexus.".to_owned().concat(name.as_str());
        if after_chars.len() == 0 || after_chars[0] != '=' {
            let reason = "expected `=` after `".to_owned().concat(key.as_str()).concat("`");
            return Err(directive_error(path, context, named.as_str(), reason.as_str()));
        }
        assert(after_chars@ =~= after_key@);
        assert(after_chars@.subrange(1, after_chars@.len() as int) =~= after_key@.skip(1));
        let after_equals = text_between(&after_chars, 1, after_chars.len());
        let written = trim_start(after_equals.as_str());
        let (value, remaining) = match parse_directive_value(
            written.as_str(),
            path,
            context,
            name.as_str(),
        ) {
            Ok(found) => found,
            Err(error) => return Err(error),
        };
        proof {
            lemma_lengths(tail@);
            lemma_lengths(tail@.skip(key_length(tail@)));
            lemma_lengths(after_key@.skip(1));
            lemma_value_rest(written@, path@, context@, name@);
            lemma_lengths(remaining@);
        }
        let ghost before = args@;
        args.push(DirectiveArg { key, value });
        assert(args@.drop_last() =~= before);
        tail = trim_start(remaining.as_str());
        open = !tail.as_str().is_empty();
    }
    Ok(Directive { name, args })
}

/// The directives that texts are, up to the first that is none.
pub open spec fn directive_lines_outcome(
    lines: Seq<Seq<char>>,
    path: Seq<char>,
    context: Seq<char>,
) -> Result<Seq<DirectiveView>, ErrorView>
    decreases lines.len(),
{
    if lines.len() == 0 {
        Ok(Seq::empty())
    } else {
        let line = lines.last();
        match directive_lines_outcome(lines.drop_last(), path, context) {
            Err(error) => Err(error),
            Ok(before) => {
                let outcome: Result<DirectiveView, ErrorView> = directive_line_outcome(line, path, context);
                match outcome {
                    Ok(part) => Ok(before.push(part)),
                    Err(error) => Err(error),
                }
            },
        }
    }
}

proof fn lemma_directive_lines(
    lines: Seq<Seq<char>>,
    path: Seq<char>,
    context: Seq<char>,
    count: int,
)
    requires
        0 <= count <= lines.len(),
        directive_lines_outcome(lines.take(count), path, context) is Err,
    ensures
        directive_lines_outcome(lines, path, context) == directive_lines_outcome(
            lines.take(count),
            path,
            context,
        ),
    decreases lines.len() - count,
{
    if count == lines.len() {
        assert(lines.take(count) =~= lines);
    } else {
        assert(lines.take(count + 1).drop_last() =~= lines.take(count));
        lemma_directive_lines(lines, path, context, count + 1);
    }
}

/// The directives that texts are, up to the first that is none.
pub fn parse_directive_lines(
    lines: &Vec<String>,
    path: &str,
    context: &str,
) -> (result: Result<Vec<Directive>, Error>)
    ensures
        match (result, directive_lines_outcome(crate::text::texts(lines@), path@, context@)) {
            (Ok(found), Ok(wanted)) => directive_views(found@) == wanted,
            (Err(error), Err(wanted)) => error@ == wanted,
            _ => false,
        },
{
    let mut list: Vec<Directive> = Vec::new();
    let mut i: usize = 0;
    assert(directive_views(list@) =~= Seq::empty());
    while i < lines.len()
        invariant
            i <= lines.len(),
            directive_lines_outcome(
                crate::text::texts(lines@).take(i as int),
                path@,
                context@,
            ) == Ok::<Seq<DirectiveView>, ErrorView>(directive_views(list@)),
        decreases lines.len() - i,
    {
        assert(
            crate::text::texts(lines@).take(i + 1).drop_last()
                =~= crate::text::texts(lines@).take(i as int)
        );
        assert(
            crate::text::texts(lines@).take(i + 1).last() == crate::text::texts(lines@)[i as int]
        );
        let line = &lines[i];
        let outcome: Result<Directive, Error> = parse_directive_line(line.as_str(), path, context);
        match outcome {
            Ok(part) => {
                let ghost before = list@;
                list.push(part);
                assert(directive_views(list@) =~= directive_views(before).push(part@));
            },
            Err(error) => {
                proof {
                    lemma_directive_lines(crate::text::texts(lines@), path@, context@, i + 1);
                }
                return Err(error);
            },
        }
        i += 1;
    }
    assert(crate::text::texts(lines@).take(i as int) =~= crate::text::texts(lines@));
    Ok(list)
}

/// Whether a line goes on with the directive before it.
fn line_continues(line: &str) -> (result: bool)
    requires
        !starts_directive(line@),
    ensures
        result == continues_directive(line@),
{
    let text = trim_start(line);
    let chars = chars_of(text.as_str());
    let all = chars_of(line);
    if chars.len() == 0 || chars.len() == all.len() {
        return false;
    }
    if chars[0] == '"' {
        return true;
    }
    assert(chars@.skip(0) =~= chars@);
    let at = crate::text::find_char(&chars, '=', 0);
    proof {
        if at < chars.len() {
            assert(chars@[at as int] == '=');
            assert(chars@.contains('='));
        } else {
            assert(!chars@.contains('='));
        }
        assert(chars@ =~= text@);
    }
    at < chars.len()
}

/// The directives in the lines as they are written, each on one line.
fn collect_directive_texts(lines: &Vec<String>) -> (found: Vec<String>)
    ensures
        crate::text::texts(found@) == directive_texts(crate::text::texts(lines@)),
{
    broadcast use crate::text::group_texts;

    let ghost all = crate::text::texts(lines@);
    let mut found: Vec<String> = Vec::new();
    let mut current: Option<String> = None;
    let mut i: usize = 0;
    assert(all.skip(0) =~= all);
    assert(crate::text::texts(found@) + pending_texts(None, all) + directive_texts(all)
        =~= directive_texts(all));
    while i < lines.len()
        invariant
            i <= lines.len(),
            all == crate::text::texts(lines@),
            crate::text::texts(found@) + pending_texts(
                crate::text::opt_text(current),
                all.skip(i as int),
            ) + directive_texts(all.skip(i as int)) == directive_texts(all),
        decreases lines.len() - i,
    {
        let ghost here = all.skip(i as int);
        let ghost before = crate::text::texts(found@);
        let ghost open = crate::text::opt_text(current);
        assert(here.drop_first() =~= all.skip(i + 1));
        assert(here[0] == lines@[i as int]@);
        let line = lines[i].as_str();
        let text = trim_start(line);
        i += 1;
        if starts_with(text.as_str(), "@nexus.") {
            match current {
                Some(previous) => {
                    found.push(previous);
                    assert(open->0 + continuation(here) =~= open->0);
                },
                None => {},
            }
            proof {
                assert(crate::text::texts(found@) =~= before + pending_texts(open, here));
                let rest = all.skip(i as int);
                assert(crate::text::texts(found@) + pending_texts(Some(text@), rest)
                    + directive_texts(rest) =~= before + pending_texts(open, here)
                    + directive_texts(here));
            }
            current = Some(text);
        } else if current.is_some() && line_continues(line) {
            match current {
                Some(previous) => {
                    current = Some(previous.concat(" ").concat(text.as_str()));
                    assert(previous@ + " "@ + text@ + continuation(here.drop_first())
                        =~= previous@ + continuation(here));
                },
                None => {
                    current = None;
                },
            }
        } else {
            match current {
                Some(previous) => {
                    found.push(previous);
                    assert(open->0 + continuation(here) =~= open->0);
                },
                None => {},
            }
            proof {
                assert(crate::text::texts(found@) =~= before + pending_texts(open, here));
                let rest = all.skip(i as int);
                assert(crate::text::texts(found@) + pending_texts(None, rest)
                    + directive_texts(rest) =~= before + pending_texts(open, here)
                    + directive_texts(here));
            }
            current = None;
        }
    }
    let ghost before = crate::text::texts(found@);
    let ghost open = crate::text::opt_text(current);
    let ghost end = all.skip(i as int);
    match current {
        Some(previous) => {
            found.push(previous);
            assert(open->0 + continuation(end) =~= open->0);
        },
        None => {},
    }
    assert(crate::text::texts(found@) =~= before + pending_texts(open, end) + directive_texts(end));
    found
}

/// The directive that is still open before some lines, with what these add to it.
spec fn pending_texts(current: Option<Seq<char>>, lines: Seq<Seq<char>>) -> Seq<Seq<char>> {
    match current {
        Some(text) => seq![text + continuation(lines)],
        None => Seq::empty(),
    }
}

/// The directives in a documentation.
pub open spec fn directives_outcome(
    docs: Option<Seq<char>>,
    path: Seq<char>,
    context: Seq<char>,
) -> Result<
    Seq<DirectiveView>,
    ErrorView,
> {
    match docs {
        None => Ok(Seq::empty()),
        Some(docs) => directive_lines_outcome(
            directive_texts(crate::text::lines_of(docs)),
            path,
            context,
        ),
    }
}

/// A list of directives, or an error, by what they show.
pub open spec fn list_outcome(result: Result<Vec<Directive>, Error>) -> Result<
    Seq<DirectiveView>,
    ErrorView,
> {
    match result {
        Ok(directives) => Ok(directive_views(directives@)),
        Err(error) => Err(error@),
    }
}

/// The directives in a documentation.
pub fn parse_directives(docs: &Option<String>, path: &str, context: &str) -> (result: Result<
    Vec<Directive>,
    Error,
>)
    ensures
        list_outcome(result) == directives_outcome(crate::text::opt_text(*docs), path@, context@),
{
    match docs {
        None => {
            let none: Vec<Directive> = Vec::new();
            assert(directive_views(none@) =~= Seq::<DirectiveView>::empty());
            Ok(none)
        },
        Some(docs) => {
            let lines = split_lines(docs.as_str());
            let written = collect_directive_texts(&lines);
            parse_directive_lines(&written, path, context)
        },
    }
}

/// The directives with a name.
pub open spec fn named_directives(
    directives: Seq<DirectiveView>,
    name: Seq<char>,
) -> Seq<DirectiveView>
    decreases directives.len(),
{
    if directives.len() == 0 {
        Seq::empty()
    } else if directives.last().name == name {
        named_directives(directives.drop_last(), name).push(directives.last())
    } else {
        named_directives(directives.drop_last(), name)
    }
}

/// The directive with a name, where there is one; a name is not to be used twice.
pub open spec fn directive_outcome(
    directives: Seq<DirectiveView>,
    name: Seq<char>,
    path: Seq<char>,
    context: Seq<char>,
) -> Result<Option<DirectiveView>, ErrorView> {
    let named = named_directives(directives, name);
    if named.len() == 0 {
        Ok(None)
    } else if named.len() == 1 {
        Ok(Some(named[0]))
    } else {
        Err(directive_failure(path, context, "@nexus."@ + name, "duplicate directive"@))
    }
}

/// A directive that was looked for, or an error, by what it shows.
pub open spec fn found_outcome(result: Result<Option<&Directive>, Error>) -> Result<
    Option<DirectiveView>,
    ErrorView,
> {
    match result {
        Ok(directive) => Ok(directive_ref(directive)),
        Err(error) => Err(error@),
    }
}

proof fn lemma_named_grows(directives: Seq<DirectiveView>, name: Seq<char>, count: int)
    requires
        0 <= count <= directives.len(),
    ensures
        named_directives(directives.take(count), name).len() <= named_directives(
            directives,
            name,
        ).len(),
    decreases directives.len() - count,
{
    if count < directives.len() {
        assert(directives.take(count + 1).drop_last() =~= directives.take(count));
        lemma_named_grows(directives, name, count + 1);
    } else {
        assert(directives.take(count) =~= directives);
    }
}

/// The directive with a name, where there is one; a name is not to be used twice.
pub fn directive<'a>(
    directives: &'a Vec<Directive>,
    name: &str,
    path: &str,
    context: &str,
) -> (result: Result<Option<&'a Directive>, Error>)
    ensures
        found_outcome(result) == directive_outcome(
            directive_views(directives@),
            name@,
            path@,
            context@,
        ),
{
    let ghost all = directive_views(directives@);
    let mut found: Option<usize> = None;
    let mut i: usize = 0;
    while i < directives.len()
        invariant
            i <= directives.len(),
            all == directive_views(directives@),
            match found {
                Some(k) => k < directives.len() && named_directives(all.take(i as int), name@)
                    == seq![directives@[k as int]@],
                None => named_directives(all.take(i as int), name@)
                    == Seq::<DirectiveView>::empty(),
            },
        decreases directives.len() - i,
    {
        assert(all.take(i + 1).drop_last() =~= all.take(i as int));
        assert(all.take(i + 1).last() == directives@[i as int]@);
        if text_eq(directives[i].name.as_str(), name) {
            if found.is_some() {
                proof {
                    lemma_named_grows(all, name@, i + 1);
                }
                let named = "@nexus.".to_owned().concat(name);
                return Err(directive_error(path, context, named.as_str(), "duplicate directive"));
            }
            found = Some(i);
            assert(named_directives(all.take(i + 1), name@) =~= seq![directives@[i as int]@]);
        }
        i += 1;
    }
    assert(all.take(i as int) =~= all);
    match found {
        Some(k) => Ok(Some(&directives[k])),
        None => Ok(None),
    }
}

/// A name that is written twice is an error, whatever stands between, and one that is not
/// written is no directive.
pub proof fn law_directive_is_written_once(
    directives: Seq<DirectiveView>,
    name: Seq<char>,
    path: Seq<char>,
    context: Seq<char>,
)
    ensures
        (exists|i: int, j: int|
            0 <= i < j < directives.len() && (#[trigger] directives[i]).name == name && (
            #[trigger] directives[j]).name == name) ==> directive_outcome(
            directives,
            name,
            path,
            context,
        ) is Err,
        (forall|i: int| 0 <= i < directives.len() ==> (#[trigger] directives[i]).name != name)
            ==> directive_outcome(directives, name, path, context) == Ok::<
            Option<DirectiveView>,
            ErrorView,
        >(None),
{
    if exists|i: int, j: int|
        0 <= i < j < directives.len() && (#[trigger] directives[i]).name == name && (
        #[trigger] directives[j]).name == name {
        let (i, j) = choose|i: int, j: int|
            0 <= i < j < directives.len() && (#[trigger] directives[i]).name == name && (
            #[trigger] directives[j]).name == name;
        assert(directives.take(i + 1).last() == directives[i]);
        assert(directives.take(j + 1).last() == directives[j]);
        assert(directives.take(j + 1).drop_last() =~= directives.take(j));
        assert(directives.take(j).take(i + 1) =~= directives.take(i + 1));
        lemma_named_grows(directives.take(j), name, i + 1);
        lemma_named_grows(directives, name, j + 1);
    }
    if forall|i: int| 0 <= i < directives.len() ==> (#[trigger] directives[i]).name != name {
        lemma_none_named(directives, name);
    }
}

proof fn lemma_none_named(directives: Seq<DirectiveView>, name: Seq<char>)
    requires
        forall|i: int| 0 <= i < directives.len() ==> (#[trigger] directives[i]).name != name,
    ensures
        named_directives(directives, name) == Seq::<DirectiveView>::empty(),
    decreases directives.len(),
{
    if directives.len() > 0 {
        assert forall|i: int| 0 <= i < directives.drop_last().len() implies (
        #[trigger] directives.drop_last()[i]).name != name by {
            assert(directives.drop_last()[i] == directives[i]);
        }
        assert(directives.last() == directives[directives.len() - 1]);
        lemma_none_named(directives.drop_last(), name);
    }
}

} // verus!
