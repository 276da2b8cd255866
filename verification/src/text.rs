//! Text building blocks: views of line lists, searching, splitting, trimming and
//! replacing, all stated over sequences of characters.

use vstd::prelude::*;

verus! {

/// `String::push` appends one character to the end of the string.
pub assume_specification[ std::string::String::push ](s: &mut std::string::String, c: char)
    ensures
        final(s)@ == old(s)@.push(c),
;

/// The texts held by a list of strings.
pub open spec fn texts(lines: Seq<String>) -> Seq<Seq<char>> {
    lines.map_values(|line: String| line@)
}

/// The text held by an optional string.
pub open spec fn opt_text(value: Option<String>) -> Option<Seq<char>> {
    match value {
        Some(text) => Some(text@),
        None => None,
    }
}

/// The text held by an optional string slice.
pub open spec fn opt_str(value: Option<&str>) -> Option<Seq<char>> {
    match value {
        Some(text) => Some(text@),
        None => None,
    }
}

pub broadcast proof fn lemma_texts_push(lines: Seq<String>, line: String)
    ensures
        #[trigger] texts(lines.push(line)) == texts(lines).push(line@),
{
    assert(texts(lines.push(line)) =~= texts(lines).push(line@));
}

pub broadcast proof fn lemma_texts_add(head: Seq<String>, tail: Seq<String>)
    ensures
        #[trigger] texts(head + tail) == texts(head) + texts(tail),
{
    assert(texts(head + tail) =~= texts(head) + texts(tail));
}

pub broadcast proof fn lemma_texts_empty()
    ensures
        #[trigger] texts(Seq::<String>::empty()) == Seq::<Seq<char>>::empty(),
{
    assert(texts(Seq::<String>::empty()) =~= Seq::<Seq<char>>::empty());
}

pub broadcast group group_texts {
    lemma_texts_push,
    lemma_texts_add,
    lemma_texts_empty,
}

/// The concatenation of `f` over the items of `items`, in order.
pub open spec fn concat_map<T>(items: Seq<T>, f: spec_fn(T) -> Seq<char>) -> Seq<char>
    decreases items.len(),
{
    if items.len() == 0 {
        Seq::empty()
    } else {
        concat_map(items.drop_last(), f) + f(items.last())
    }
}

/// The concatenation of the line lists that `f` gives for the items of `items`, in order.
pub open spec fn flat_map<T, U>(items: Seq<T>, f: spec_fn(T) -> Seq<U>) -> Seq<U>
    decreases items.len(),
{
    if items.len() == 0 {
        Seq::empty()
    } else {
        flat_map(items.drop_last(), f) + f(items.last())
    }
}

pub proof fn lemma_concat_map_step<T>(items: Seq<T>, f: spec_fn(T) -> Seq<char>, i: int)
    requires
        0 <= i < items.len(),
    ensures
        concat_map(items.take(i + 1), f) == concat_map(items.take(i), f) + f(items[i]),
{
    assert(items.take(i + 1).drop_last() =~= items.take(i));
}

pub proof fn lemma_take_all<T>(items: Seq<T>)
    ensures
        items.take(items.len() as int) == items,
{
    assert(items.take(items.len() as int) =~= items);
}

/// `parts` joined with `separator` between neighbours.
pub open spec fn join(parts: Seq<Seq<char>>, separator: Seq<char>) -> Seq<char>
    decreases parts.len(),
{
    if parts.len() == 0 {
        Seq::empty()
    } else if parts.len() == 1 {
        parts[0]
    } else {
        join(parts.drop_last(), separator) + separator + parts.last()
    }
}

/// Joins the strings with `separator` between neighbours.
pub fn join_texts(parts: &Vec<String>, separator: &str) -> (result: String)
    ensures
        result@ == join(texts(parts@), separator@),
{
    let mut result = String::new();
    let mut i: usize = 0;
    while i < parts.len()
        invariant
            i <= parts.len(),
            result@ == join(texts(parts@).take(i as int), separator@),
        decreases parts.len() - i,
    {
        proof {
            assert(texts(parts@).take(i + 1).drop_last() =~= texts(parts@).take(i as int));
        }
        if i == 0 {
            result = parts[i].clone();
        } else {
            result.append(separator);
            result.append(parts[i].as_str());
        }
        i += 1;
    }
    proof {
        lemma_take_all(texts(parts@));
    }
    result
}

/// Whether the two texts are the same.
pub fn text_eq(left: &str, right: &str) -> (same: bool)
    ensures
        same == (left@ == right@),
{
    left.to_owned() == right.to_owned()
}

/// Whether some string of the list holds exactly `wanted`.
pub fn contains_text(list: &Vec<String>, wanted: &str) -> (found: bool)
    ensures
        found == texts(list@).contains(wanted@),
{
    let mut i: usize = 0;
    while i < list.len()
        invariant
            i <= list.len(),
            forall|j: int| 0 <= j < i ==> texts(list@)[j] != wanted@,
        decreases list.len() - i,
    {
        if text_eq(list[i].as_str(), wanted) {
            assert(texts(list@)[i as int] == wanted@);
            return true;
        }
        i += 1;
    }
    false
}

/// The characters of the text.
pub fn chars_of(text: &str) -> (chars: Vec<char>)
    ensures
        chars@ == text@,
{
    let mut chars: Vec<char> = Vec::new();
    let len = text.unicode_len();
    for c in iter: text.chars()
        invariant
            chars@ == text@.take(iter.index()),
            iter.seq() == text@,
    {
        chars.push(c);
        assert(chars@ =~= text@.take(iter.index() + 1));
    }
    assert(text@.take(len as int) =~= text@);
    chars
}

/// The text made of the characters from `from` up to `to`.
pub fn text_between(chars: &Vec<char>, from: usize, to: usize) -> (text: String)
    requires
        from <= to <= chars.len(),
    ensures
        text@ == chars@.subrange(from as int, to as int),
{
    let mut text = String::new();
    let mut i: usize = from;
    while i < to
        invariant
            from <= i <= to <= chars.len(),
            text@ == chars@.subrange(from as int, i as int),
        decreases to - i,
    {
        text.push(chars[i]);
        i += 1;
        assert(text@ =~= chars@.subrange(from as int, i as int));
    }
    text
}

/// The list `head` followed by the list `tail`.
pub fn with_lines(head: Vec<String>, tail: Vec<String>) -> (all: Vec<String>)
    ensures
        texts(all@) == texts(head@) + texts(tail@),
{
    let mut all = head;
    let mut rest = tail;
    all.append(&mut rest);
    proof {
        lemma_texts_add(head@, tail@);
    }
    all
}

/// The index of the first `wanted` in `text`, or the length of `text` when there is none.
pub open spec fn first_index(text: Seq<char>, wanted: char) -> int
    decreases text.len(),
{
    if text.len() == 0 {
        0
    } else if text[0] == wanted {
        0
    } else {
        1 + first_index(text.drop_first(), wanted)
    }
}

/// The index behind the last `wanted` in `text`, or 0 when there is none.
pub open spec fn after_last_index(text: Seq<char>, wanted: char) -> int
    decreases text.len(),
{
    if text.len() == 0 {
        0
    } else if text.last() == wanted {
        text.len() as int
    } else {
        after_last_index(text.drop_last(), wanted)
    }
}

/// The part of `text` behind the last `separator`; all of it when there is none.
pub open spec fn last_segment(text: Seq<char>, separator: char) -> Seq<char> {
    text.skip(after_last_index(text, separator))
}

pub proof fn lemma_first_index_at(text: Seq<char>, wanted: char, i: int)
    requires
        0 <= i <= text.len(),
        forall|j: int| 0 <= j < i ==> text[j] != wanted,
        i < text.len() ==> text[i] == wanted,
    ensures
        first_index(text, wanted) == i,
    decreases i,
{
    if i > 0 {
        let rest = text.drop_first();
        assert forall|j: int| 0 <= j < i - 1 implies rest[j] != wanted by {
            assert(rest[j] == text[j + 1]);
        }
        lemma_first_index_at(rest, wanted, i - 1);
    }
}

pub proof fn lemma_first_index_bounds(text: Seq<char>, wanted: char)
    ensures
        0 <= first_index(text, wanted) <= text.len(),
        first_index(text, wanted) < text.len() ==> text[first_index(text, wanted)] == wanted,
        forall|j: int| 0 <= j < first_index(text, wanted) ==> text[j] != wanted,
    decreases text.len(),
{
    if text.len() > 0 && text[0] != wanted {
        lemma_first_index_bounds(text.drop_first(), wanted);
        assert forall|j: int| 0 <= j < first_index(text, wanted) implies text[j] != wanted by {
            if j > 0 {
                assert(text[j] == text.drop_first()[j - 1]);
            }
        }
    }
}

pub proof fn lemma_after_last_index_at(text: Seq<char>, wanted: char, i: int)
    requires
        0 <= i <= text.len(),
        forall|j: int| i <= j < text.len() ==> text[j] != wanted,
        i > 0 ==> text[i - 1] == wanted,
    ensures
        after_last_index(text, wanted) == i,
    decreases text.len(),
{
    if i < text.len() {
        lemma_after_last_index_at(text.drop_last(), wanted, i);
    }
}

/// The index of the first `wanted` at or behind `from`, or the number of characters.
pub fn find_char(chars: &Vec<char>, wanted: char, from: usize) -> (index: usize)
    requires
        from <= chars.len(),
    ensures
        from <= index <= chars.len(),
        index - from == first_index(chars@.skip(from as int), wanted),
        index < chars.len() ==> chars[index as int] == wanted,
        forall|j: int| from <= j < index ==> chars[j] != wanted,
{
    let mut i: usize = from;
    while i < chars.len() && chars[i] != wanted
        invariant
            from <= i <= chars.len(),
            forall|j: int| from <= j < i ==> chars[j] != wanted,
        decreases chars.len() - i,
    {
        i += 1;
    }
    proof {
        let rest = chars@.skip(from as int);
        assert forall|j: int| 0 <= j < i - from implies rest[j] != wanted by {
            assert(rest[j] == chars@[from + j]);
        }
        lemma_first_index_at(rest, wanted, i - from);
    }
    i
}

/// The part of `text` behind its last `separator`.
pub fn last_segment_of(text: &str, separator: char) -> (segment: String)
    ensures
        segment@ == last_segment(text@, separator),
{
    let chars = chars_of(text);
    let mut i: usize = chars.len();
    while i > 0 && chars[i - 1] != separator
        invariant
            i <= chars.len(),
            forall|j: int| i <= j < chars.len() ==> chars[j] != separator,
        decreases i,
    {
        i -= 1;
    }
    proof {
        lemma_after_last_index_at(chars@, separator, i as int);
        assert(chars@.subrange(i as int, chars@.len() as int) =~= chars@.skip(i as int));
    }
    text_between(&chars, i, chars.len())
}

/// Whether `text` begins with `prefix`.
pub open spec fn has_prefix(text: Seq<char>, prefix: Seq<char>) -> bool {
    prefix.len() <= text.len() && text.take(prefix.len() as int) == prefix
}

/// Whether `text` ends with `suffix`.
pub open spec fn has_suffix(text: Seq<char>, suffix: Seq<char>) -> bool {
    suffix.len() <= text.len() && text.skip(text.len() - suffix.len()) == suffix
}

/// What follows `prefix` in `text`, where `text` begins with it.
pub open spec fn without_prefix(text: Seq<char>, prefix: Seq<char>) -> Option<Seq<char>> {
    if has_prefix(text, prefix) {
        Some(text.skip(prefix.len() as int))
    } else {
        None
    }
}

/// What precedes `suffix` in `text`, where `text` ends with it.
pub open spec fn without_suffix(text: Seq<char>, suffix: Seq<char>) -> Option<Seq<char>> {
    if has_suffix(text, suffix) {
        Some(text.take(text.len() - suffix.len()))
    } else {
        None
    }
}

/// Whether the characters of `part` stand in `chars` at index `at`.
pub fn matches_at(chars: &Vec<char>, at: usize, part: &Vec<char>) -> (found: bool)
    requires
        at <= chars.len(),
    ensures
        found == has_prefix(chars@.skip(at as int), part@),
{
    if part.len() > chars.len() - at {
        return false;
    }
    let mut i: usize = 0;
    while i < part.len()
        invariant
            i <= part.len(),
            part.len() <= chars.len() - at,
            forall|j: int| 0 <= j < i ==> chars[at + j] == part[j],
        decreases part.len() - i,
    {
        if chars[at + i] != part[i] {
            assert(chars@.skip(at as int).take(part@.len() as int)[i as int] == chars[at + i]);
            return false;
        }
        i += 1;
    }
    assert(chars@.skip(at as int).take(part@.len() as int) =~= part@);
    true
}

/// Whether `text` begins with `prefix`.
pub fn starts_with(text: &str, prefix: &str) -> (found: bool)
    ensures
        found == has_prefix(text@, prefix@),
{
    let chars = chars_of(text);
    let part = chars_of(prefix);
    assert(chars@.skip(0) =~= chars@);
    matches_at(&chars, 0, &part)
}

/// Whether `text` ends with `suffix`.
pub fn ends_with(text: &str, suffix: &str) -> (found: bool)
    ensures
        found == has_suffix(text@, suffix@),
{
    let chars = chars_of(text);
    let part = chars_of(suffix);
    if part.len() > chars.len() {
        return false;
    }
    let at: usize = chars.len() - part.len();
    let found = matches_at(&chars, at, &part);
    assert(chars@.skip(at as int).take(part@.len() as int) =~= chars@.skip(at as int));
    found
}

/// What follows `prefix` in `text`, where `text` begins with it.
pub fn strip_prefix(text: &str, prefix: &str) -> (rest: Option<String>)
    ensures
        opt_text(rest) == without_prefix(text@, prefix@),
{
    if starts_with(text, prefix) {
        let chars = chars_of(text);
        let from: usize = prefix.unicode_len();
        assert(chars@.subrange(from as int, chars@.len() as int) =~= chars@.skip(from as int));
        Some(text_between(&chars, from, chars.len()))
    } else {
        None
    }
}

/// What precedes `suffix` in `text`, where `text` ends with it.
pub fn strip_suffix(text: &str, suffix: &str) -> (rest: Option<String>)
    ensures
        opt_text(rest) == without_suffix(text@, suffix@),
{
    if ends_with(text, suffix) {
        let chars = chars_of(text);
        let to: usize = chars.len() - suffix.unicode_len();
        assert(chars@.subrange(0, to as int) =~= chars@.take(to as int));
        Some(text_between(&chars, 0, to))
    } else {
        None
    }
}

/// What stands for one character when `wanted` is replaced by `by`.
pub open spec fn char_replacement(wanted: char, by: Seq<char>) -> spec_fn(char) -> Seq<char> {
    |c: char|
        if c == wanted {
        by
    } else {
        seq![c]
    }
}

/// `text` with every `wanted` replaced by `by`.
pub open spec fn replaced_char(text: Seq<char>, wanted: char, by: Seq<char>) -> Seq<char> {
    concat_map(text, char_replacement(wanted, by))
}

/// `text` with every `wanted` replaced by `by`.
pub fn replace_char(text: &str, wanted: char, by: &str) -> (result: String)
    ensures
        result@ == replaced_char(text@, wanted, by@),
{
    let chars = chars_of(text);
    let mut result = String::new();
    let ghost f = char_replacement(wanted, by@);
    let mut i: usize = 0;
    while i < chars.len()
        invariant
            i <= chars.len(),
            f == char_replacement(wanted, by@),
            result@ == concat_map(chars@.take(i as int), f),
        decreases chars.len() - i,
    {
        proof {
            lemma_concat_map_step(chars@, f, i as int);
        }
        if chars[i] == wanted {
            result.append(by);
        } else {
            let ghost before = result@;
            result.push(chars[i]);
            assert(result@ =~= before + seq![chars[i as int]]);
        }
        i += 1;
    }
    proof {
        lemma_take_all(chars@);
    }
    result
}

/// `text` with `by` before each character and at the end.
pub open spec fn interleaved(text: Seq<char>, by: Seq<char>) -> Seq<char> {
    concat_map(text, |c: char| by + seq![c]) + by
}

/// `text` with each occurrence of `wanted`, found from the left and without overlap, replaced
/// by `by`. The empty text occurs before each character and at the end.
pub open spec fn replaced_text(text: Seq<char>, wanted: Seq<char>, by: Seq<char>) -> Seq<char>
    decreases text.len(),
{
    if wanted.len() == 0 {
        interleaved(text, by)
    } else if text.len() == 0 {
        text
    } else if has_prefix(text, wanted) {
        by + replaced_text(text.skip(wanted.len() as int), wanted, by)
    } else {
        seq![text[0]] + replaced_text(text.drop_first(), wanted, by)
    }
}

/// The text with `by` before each character and at the end.
fn interleave(chars: &Vec<char>, by: &str) -> (result: String)
    ensures
        result@ == interleaved(chars@, by@),
{
    let ghost f = |c: char| by@ + seq![c];
    let mut result = String::new();
    let mut i: usize = 0;
    assert(result@ =~= concat_map(chars@.take(0), f));
    while i < chars.len()
        invariant
            i <= chars.len(),
            f == (|c: char| by@ + seq![c]),
            result@ == concat_map(chars@.take(i as int), f),
        decreases chars.len() - i,
    {
        proof {
            lemma_concat_map_step(chars@, f, i as int);
        }
        let ghost before = result@;
        result.append(by);
        result.push(chars[i]);
        assert(result@ =~= before + (by@ + seq![chars[i as int]]));
        i += 1;
    }
    proof {
        lemma_take_all(chars@);
    }
    result.append(by);
    result
}

/// `text` with each occurrence of `wanted`, found from the left, replaced by `by`.
pub fn replace_text(text: &str, wanted: &str, by: &str) -> (result: String)
    ensures
        result@ == replaced_text(text@, wanted@, by@),
{
    let chars = chars_of(text);
    let part = chars_of(wanted);
    if part.len() == 0 {
        return interleave(&chars, by);
    }
    let mut result = String::new();
    let mut i: usize = 0;
    assert(chars@.skip(0) =~= chars@);
    assert(result@ + replaced_text(chars@, part@, by@) =~= replaced_text(chars@, part@, by@));
    while i < chars.len()
        invariant
            i <= chars.len(),
            part@ == wanted@,
            part@.len() > 0,
            chars@ == text@,
            result@ + replaced_text(chars@.skip(i as int), part@, by@) == replaced_text(
                text@,
                wanted@,
                by@,
            ),
        decreases chars.len() - i,
    {
        let ghost rest = chars@.skip(i as int);
        let ghost before = result@;
        if matches_at(&chars, i, &part) {
            result.append(by);
            i += part.len();
            proof {
                assert(rest.skip(part@.len() as int) =~= chars@.skip(i as int));
                let tail = replaced_text(chars@.skip(i as int), part@, by@);
                assert(before + (by@ + tail) =~= (before + by@) + tail);
            }
        } else {
            result.push(chars[i]);
            proof {
                assert(rest.drop_first() =~= chars@.skip(i + 1));
                let tail = replaced_text(chars@.skip(i + 1), part@, by@);
                assert(before + (seq![rest[0]] + tail) =~= before.push(rest[0]) + tail);
            }
            i += 1;
        }
    }
    assert(result@ + replaced_text(chars@.skip(i as int), part@, by@) =~= result@);
    result
}

/// Whether the character has the Unicode `White_Space` property.
pub open spec fn is_space(c: char) -> bool {
    ||| 0x09 <= c as u32 <= 0x0d
    ||| c as u32 == 0x20
    ||| c as u32 == 0x85
    ||| c as u32 == 0xa0
    ||| c as u32 == 0x1680
    ||| 0x2000 <= c as u32 <= 0x200a
    ||| c as u32 == 0x2028
    ||| c as u32 == 0x2029
    ||| c as u32 == 0x202f
    ||| c as u32 == 0x205f
    ||| c as u32 == 0x3000
}

/// Whether the character has the Unicode `White_Space` property.
pub fn char_is_space(c: char) -> (space: bool)
    ensures
        space == is_space(c),
{
    let code: u32 = c as u32;
    (0x09 <= code && code <= 0x0d) || code == 0x20 || code == 0x85 || code == 0xa0 || code == 0x1680
        || (0x2000 <= code && code <= 0x200a) || code == 0x2028 || code == 0x2029 || code == 0x202f
        || code == 0x205f || code == 0x3000
}

/// Whether the character is an ASCII letter or digit.
pub open spec fn is_ascii_word(c: char) -> bool {
    ||| 'a' <= c <= 'z'
    ||| 'A' <= c <= 'Z'
    ||| '0' <= c <= '9'
}

/// Whether the character is an ASCII letter or digit.
pub fn char_is_ascii_word(c: char) -> (word: bool)
    ensures
        word == is_ascii_word(c),
{
    ('a' <= c && c <= 'z') || ('A' <= c && c <= 'Z') || ('0' <= c && c <= '9')
}

/// `text` without the white space at its front.
pub open spec fn trimmed_start(text: Seq<char>) -> Seq<char>
    decreases text.len(),
{
    if text.len() > 0 && is_space(text[0]) {
        trimmed_start(text.drop_first())
    } else {
        text
    }
}

/// `text` without the white space at its end.
pub open spec fn trimmed_end(text: Seq<char>) -> Seq<char>
    decreases text.len(),
{
    if text.len() > 0 && is_space(text.last()) {
        trimmed_end(text.drop_last())
    } else {
        text
    }
}

/// `text` without the white space at its two ends.
pub open spec fn trimmed(text: Seq<char>) -> Seq<char> {
    trimmed_end(trimmed_start(text))
}

/// `text` without the white space at its front.
pub fn trim_start(text: &str) -> (result: String)
    ensures
        result@ == trimmed_start(text@),
{
    let chars = chars_of(text);
    let mut i: usize = 0;
    assert(chars@.skip(0) =~= chars@);
    while i < chars.len() && char_is_space(chars[i])
        invariant
            i <= chars.len(),
            trimmed_start(chars@.skip(i as int)) == trimmed_start(text@),
        decreases chars.len() - i,
    {
        assert(chars@.skip(i as int).drop_first() =~= chars@.skip(i + 1));
        i += 1;
    }
    assert(chars@.subrange(i as int, chars@.len() as int) =~= chars@.skip(i as int));
    text_between(&chars, i, chars.len())
}

/// `text` without the white space at its end.
pub fn trim_end(text: &str) -> (result: String)
    ensures
        result@ == trimmed_end(text@),
{
    let chars = chars_of(text);
    let mut i: usize = chars.len();
    assert(chars@.take(chars@.len() as int) =~= chars@);
    while i > 0 && char_is_space(chars[i - 1])
        invariant
            i <= chars.len(),
            trimmed_end(chars@.take(i as int)) == trimmed_end(text@),
        decreases i,
    {
        assert(chars@.take(i as int).drop_last() =~= chars@.take(i - 1));
        i -= 1;
    }
    assert(chars@.subrange(0, i as int) =~= chars@.take(i as int));
    text_between(&chars, 0, i)
}

/// `text` without the white space at its two ends.
pub fn trim(text: &str) -> (result: String)
    ensures
        result@ == trimmed(text@),
{
    let front = trim_start(text);
    trim_end(front.as_str())
}

/// `line` without one carriage return at its end.
pub open spec fn without_return(line: Seq<char>) -> Seq<char> {
    if line.len() > 0 && line.last() == '\r' {
        line.drop_last()
    } else {
        line
    }
}

/// The lines of `text`, without their line endings. A line feed, with or without a carriage
/// return before it, ends a line; the last line needs none.
pub open spec fn lines_of(text: Seq<char>) -> Seq<Seq<char>>
    decreases text.len(),
{
    let at = first_index(text, '\n');
    if text.len() == 0 {
        Seq::empty()
    } else if at < 0 || at >= text.len() {
        seq![text]
    } else {
        seq![without_return(text.take(at))] + lines_of(text.skip(at + 1))
    }
}

/// The lines of the text, without their line endings.
pub fn split_lines(text: &str) -> (lines: Vec<String>)
    ensures
        texts(lines@) == lines_of(text@),
{
    broadcast use group_texts;

    let chars = chars_of(text);
    let mut lines: Vec<String> = Vec::new();
    let mut from: usize = 0;
    proof {
        assert(chars@.skip(0) =~= chars@);
        assert(texts(lines@) + lines_of(chars@) =~= lines_of(text@));
    }
    while from < chars.len()
        invariant
            from <= chars.len(),
            chars@ == text@,
            texts(lines@) + lines_of(chars@.skip(from as int)) == lines_of(text@),
        decreases chars.len() - from,
    {
        let at = find_char(&chars, '\n', from);
        let ghost rest = chars@.skip(from as int);
        let ghost before = texts(lines@);
        if at == chars.len() {
            let line = text_between(&chars, from, at);
            assert(line@ =~= rest);
            lines.push(line);
            proof {
                assert(lines_of(rest) == seq![rest]);
                assert(texts(lines@) =~= before + lines_of(rest));
            }
            return lines;
        }
        assert(rest.take(at - from) =~= chars@.subrange(from as int, at as int));
        let end: usize = if at > from && chars[at - 1] == '\r' {
            at - 1
        } else {
            at
        };
        let line = text_between(&chars, from, end);
        assert(line@ =~= without_return(rest.take(at - from)));
        lines.push(line);
        proof {
            assert(rest.skip(at - from + 1) =~= chars@.skip(at + 1));
            let tail = lines_of(chars@.skip(at + 1));
            assert(texts(lines@) + tail =~= before + (seq![line@] + tail));
        }
        from = at + 1;
    }
    proof {
        assert(texts(lines@) + lines_of(chars@.skip(from as int)) =~= texts(lines@));
    }
    lines
}

/// The number of characters before the first white space.
pub open spec fn word_length(text: Seq<char>) -> int
    decreases text.len(),
{
    if text.len() == 0 || is_space(text[0]) {
        0
    } else {
        1 + word_length(text.drop_first())
    }
}

/// The parts of `text` between white space.
pub open spec fn words_of(text: Seq<char>) -> Seq<Seq<char>>
    decreases text.len(),
{
    if text.len() == 0 {
        Seq::empty()
    } else if is_space(text[0]) {
        words_of(text.drop_first())
    } else {
        let n = word_length(text);
        if n <= 0 || n > text.len() {
            Seq::empty()
        } else {
            seq![text.take(n)] + words_of(text.skip(n))
        }
    }
}

proof fn lemma_word_length_at(text: Seq<char>, n: int)
    requires
        0 <= n <= text.len(),
        forall|j: int| 0 <= j < n ==> !is_space(text[j]),
        n < text.len() ==> is_space(text[n]),
    ensures
        word_length(text) == n,
    decreases n,
{
    if n > 0 {
        let rest = text.drop_first();
        assert forall|j: int| 0 <= j < n - 1 implies !is_space(rest[j]) by {
            assert(rest[j] == text[j + 1]);
        }
        lemma_word_length_at(rest, n - 1);
    }
}

/// The parts of the text between white space.
pub fn split_words(text: &str) -> (words: Vec<String>)
    ensures
        texts(words@) == words_of(text@),
{
    broadcast use group_texts;

    let chars = chars_of(text);
    let mut words: Vec<String> = Vec::new();
    let mut from: usize = 0;
    proof {
        assert(chars@.skip(0) =~= chars@);
        assert(texts(words@) + words_of(chars@) =~= words_of(text@));
    }
    while from < chars.len()
        invariant
            from <= chars.len(),
            chars@ == text@,
            texts(words@) + words_of(chars@.skip(from as int)) == words_of(text@),
        decreases chars.len() - from,
    {
        let ghost rest = chars@.skip(from as int);
        if char_is_space(chars[from]) {
            assert(rest.drop_first() =~= chars@.skip(from + 1));
            from += 1;
        } else {
            let mut to: usize = from;
            while to < chars.len() && !char_is_space(chars[to])
                invariant
                    from <= to <= chars.len(),
                    forall|j: int| from <= j < to ==> !is_space(chars[j]),
                decreases chars.len() - to,
            {
                to += 1;
            }
            proof {
                assert forall|j: int| 0 <= j < to - from implies !is_space(rest[j]) by {
                    assert(rest[j] == chars@[from + j]);
                }
                lemma_word_length_at(rest, to - from);
                assert(rest.take(to - from) =~= chars@.subrange(from as int, to as int));
                assert(rest.skip(to - from) =~= chars@.skip(to as int));
            }
            let ghost before = texts(words@);
            let word = text_between(&chars, from, to);
            words.push(word);
            proof {
                let tail = words_of(chars@.skip(to as int));
                assert(texts(words@) + tail =~= before + (seq![word@] + tail));
            }
            from = to;
        }
    }
    proof {
        assert(texts(words@) + words_of(chars@.skip(from as int)) =~= texts(words@));
    }
    words
}

} // verus!
