//! What holds of texts and paths: how they are cut, joined, trimmed, quoted and ordered.

use vstd::prelude::*;

use crate::language::Language;
use crate::paths::PartView;

verus! {

/// A separator stands between neighbours and nowhere else.
pub proof fn law_separators_stand_between_neighbours(parts: Seq<Seq<char>>, last: Seq<char>, separator: Seq<char>)
    ensures
        crate::text::join(seq![last], separator) == last,
        parts.len() > 0 ==> crate::text::join(parts.push(last), separator) == crate::text::join(parts, separator)
            + separator + last,
{
    reveal_with_fuel(crate::text::join, 2);
    if parts.len() > 0 {
        assert(parts.push(last).drop_last() =~= parts);
    }
}

/// What stands before a joined text comes before its first separator.
proof fn lemma_join_behind(first: Seq<char>, rest: Seq<Seq<char>>, separator: Seq<char>)
    requires
        rest.len() > 0,
    ensures
        crate::text::join(seq![first] + rest, separator) == first + separator + crate::text::join(rest, separator),
    decreases rest.len(),
{
    let all = seq![first] + rest;
    assert(all.drop_last() =~= seq![first] + rest.drop_last());
    assert(all.last() == rest.last());
    if rest.len() == 1 {
        assert(all.drop_last() =~= seq![first]);
        assert(crate::text::join(seq![first], separator) == first);
        assert(crate::text::join(rest, separator) == rest[0]);
    } else {
        lemma_join_behind(first, rest.drop_last(), separator);
        assert(first + separator + crate::text::join(rest.drop_last(), separator) + separator + rest.last()
            =~= first + separator + (crate::text::join(rest.drop_last(), separator) + separator
            + rest.last()));
    }
}

/// The segments of a path are what stands between its slashes: joined by slashes they are the path,
/// and none of them has a slash.
pub proof fn law_segments_stand_between_slashes(text: Seq<char>)
    ensures
        crate::text::join(crate::paths::segments(text), seq!['/']) == text,
        forall|i: int|
            0 <= i < crate::paths::segments(text).len()
                ==> !(#[trigger] crate::paths::segments(text)[i]).contains('/'),
    decreases text.len(),
{
    law_first_index_is_the_first(text, '/');
    let at = crate::text::first_index(text, '/');
    let all = crate::paths::segments(text);
    if at >= text.len() {
        assert(all =~= seq![text]);
        reveal_with_fuel(crate::text::join, 2);
        if text.contains('/') {
            let k = choose|k: int| 0 <= k < text.len() && text[k] == '/';
            assert(false);
        }
    } else {
        let rest = crate::paths::segments(text.skip(at + 1));
        law_segments_stand_between_slashes(text.skip(at + 1));
        assert(all =~= seq![text.take(at)] + rest);
        assert(rest.len() > 0);
        lemma_join_behind(text.take(at), rest, seq!['/']);
        assert(text =~= text.take(at) + seq!['/'] + text.skip(at + 1));
        assert forall|i: int| 0 <= i < all.len() implies !(#[trigger] all[i]).contains('/') by {
            if i == 0 {
                if text.take(at).contains('/') {
                    let k = choose|k: int| 0 <= k < at && text.take(at)[k] == '/';
                    assert(text[k] == '/');
                }
            } else {
                assert(all[i] == rest[i - 1]);
            }
        }
    }
}

/// The first place of a character is a place of it with none before; without one it is the length.
pub proof fn law_first_index_is_the_first(text: Seq<char>, wanted: char)
    ensures
        0 <= crate::text::first_index(text, wanted) <= text.len(),
        crate::text::first_index(text, wanted) < text.len() ==> text[crate::text::first_index(text, wanted)] == wanted,
        forall|k: int| 0 <= k < crate::text::first_index(text, wanted) ==> #[trigger] text[k] != wanted,
    decreases text.len(),
{
    if text.len() > 0 && text[0] != wanted {
        law_first_index_is_the_first(text.drop_first(), wanted);
        let at = crate::text::first_index(text.drop_first(), wanted);
        assert forall|k: int| 0 <= k < 1 + at implies #[trigger] text[k] != wanted by {
            if k > 0 {
                assert(text.drop_first()[k - 1] == text[k]);
            }
        }
    }
}

/// The last segment of a text is what stands behind its last separator, and the whole text where
/// there is none.
pub proof fn law_last_segments_stand_behind_the_last_separator(text: Seq<char>, separator: char)
    ensures
        !crate::text::last_segment(text, separator).contains(separator),
        crate::text::has_suffix(text, crate::text::last_segment(text, separator)),
        crate::text::last_segment(text, separator).len() < text.len() ==> text[text.len()
            - crate::text::last_segment(text, separator).len() - 1] == separator,
{
    lemma_after_last(text, separator);
    let at = crate::text::after_last_index(text, separator);
    let last = text.skip(at);
    if last.contains(separator) {
        let k = choose|k: int| 0 <= k < last.len() && last[k] == separator;
        assert(text[at + k] == separator);
    }
    assert(text.skip(text.len() - last.len()) =~= last);
}

/// Behind the last place of a character there is none.
proof fn lemma_after_last(text: Seq<char>, wanted: char)
    ensures
        0 <= crate::text::after_last_index(text, wanted) <= text.len(),
        crate::text::after_last_index(text, wanted) > 0 ==> text[crate::text::after_last_index(text, wanted) - 1]
            == wanted,
        forall|k: int|
            crate::text::after_last_index(text, wanted) <= k < text.len() ==> #[trigger] text[k] != wanted,
    decreases text.len(),
{
    if text.len() > 0 && text.last() != wanted {
        lemma_after_last(text.drop_last(), wanted);
        let at = crate::text::after_last_index(text.drop_last(), wanted);
        assert forall|k: int| at <= k < text.len() implies #[trigger] text[k] != wanted by {
            if k < text.len() - 1 {
                assert(text.drop_last()[k] == text[k]);
            }
        }
    }
}

/// What is left without a prefix or a suffix gives the text back with it.
pub proof fn law_cut_texts_are_put_together(text: Seq<char>, end: Seq<char>)
    ensures
        crate::text::without_prefix(text, end) matches Some(rest) ==> text == end + rest,
        crate::text::without_suffix(text, end) matches Some(rest) ==> text == rest + end,
        crate::text::without_prefix(end + text, end) == Some(text),
        crate::text::without_suffix(text + end, end) == Some(text),
{
    if crate::text::has_prefix(text, end) {
        assert(text =~= text.take(end.len() as int) + text.skip(end.len() as int));
    }
    if crate::text::has_suffix(text, end) {
        assert(text =~= text.take(text.len() - end.len()) + text.skip(text.len() - end.len()));
    }
    assert((end + text).take(end.len() as int) =~= end);
    assert((end + text).skip(end.len() as int) =~= text);
    assert((text + end).take(text.len() as int) =~= text);
    assert((text + end).skip(text.len() as int) =~= end);
}

/// A character is replaced wherever it stands, and every other stays.
pub proof fn law_characters_are_replaced_where_they_stand(text: Seq<char>, c: char, wanted: char, by: Seq<char>)
    ensures
        crate::text::replaced_char(Seq::empty(), wanted, by) == Seq::<char>::empty(),
        c == wanted ==> crate::text::replaced_char(text.push(c), wanted, by) == crate::text::replaced_char(
            text,
            wanted,
            by,
        ) + by,
        c != wanted ==> crate::text::replaced_char(text.push(c), wanted, by) == crate::text::replaced_char(
            text,
            wanted,
            by,
        ).push(c),
{
    assert(text.push(c).drop_last() =~= text);
    let before = crate::text::replaced_char(text, wanted, by);
    assert(before + seq![c] =~= before.push(c));
}

/// A text is replaced wherever it stands first, and nothing else is changed.
pub proof fn law_texts_are_replaced_where_they_stand(text: Seq<char>, c: char, wanted: Seq<char>, by: Seq<char>)
    requires
        wanted.len() > 0,
    ensures
        crate::text::replaced_text(wanted + text, wanted, by) == by + crate::text::replaced_text(text, wanted, by),
        !crate::text::has_prefix(seq![c] + text, wanted) ==> crate::text::replaced_text(seq![c] + text, wanted, by)
            == seq![c] + crate::text::replaced_text(text, wanted, by),
{
    assert((wanted + text).take(wanted.len() as int) =~= wanted);
    assert((wanted + text).skip(wanted.len() as int) =~= text);
    assert((seq![c] + text).drop_first() =~= text);
}

/// A trimmed text has no space at either end, and lost nothing but spaces.
pub proof fn law_trimming_takes_spaces_alone(text: Seq<char>)
    ensures
        crate::text::trimmed(text).len() > 0 ==> !crate::text::is_space(crate::text::trimmed(text)[0]) && !crate::text::is_space(
            crate::text::trimmed(text).last(),
        ),
        exists|from: int, to: int|
            0 <= from <= to <= text.len() && crate::text::trimmed(text) == #[trigger] text.subrange(from, to)
                && (forall|k: int| 0 <= k < from ==> crate::text::is_space(#[trigger] text[k])) && (forall|
                k: int,
            |
                to <= k < text.len() ==> crate::text::is_space(#[trigger] text[k])),
{
    lemma_trimmed_start(text);
    let first = crate::text::trimmed_start(text);
    let from = text.len() - first.len();
    lemma_trimmed_end(first);
    let last = crate::text::trimmed_end(first);
    let to = from + last.len();
    assert(text.subrange(from, to) =~= last) by {
        assert(first =~= text.skip(from));
        assert(last =~= first.take(last.len() as int));
    }
    assert forall|k: int| to <= k < text.len() implies crate::text::is_space(#[trigger] text[k]) by {
        assert(first[k - from] == text[k]);
    }
    if last.len() > 0 {
        assert(last[0] == first[0]);
    }
}

/// What is trimmed off the start is space.
proof fn lemma_trimmed_start(text: Seq<char>)
    ensures
        crate::text::trimmed_start(text).len() <= text.len(),
        crate::text::trimmed_start(text) == text.skip(text.len() - crate::text::trimmed_start(text).len()),
        crate::text::trimmed_start(text).len() > 0 ==> !crate::text::is_space(crate::text::trimmed_start(text)[0]),
        forall|k: int|
            0 <= k < text.len() - crate::text::trimmed_start(text).len() ==> crate::text::is_space(#[trigger] text[k]),
    decreases text.len(),
{
    if text.len() > 0 && crate::text::is_space(text[0]) {
        lemma_trimmed_start(text.drop_first());
        let rest = crate::text::trimmed_start(text.drop_first());
        assert(rest =~= text.skip(text.len() - rest.len()));
        assert forall|k: int| 0 <= k < text.len() - rest.len() implies crate::text::is_space(
            #[trigger] text[k],
        ) by {
            if k > 0 {
                assert(text.drop_first()[k - 1] == text[k]);
            }
        }
    } else {
        assert(text.skip(0) =~= text);
    }
}

/// What is trimmed off the end is space.
proof fn lemma_trimmed_end(text: Seq<char>)
    ensures
        crate::text::trimmed_end(text).len() <= text.len(),
        crate::text::trimmed_end(text) == text.take(crate::text::trimmed_end(text).len() as int),
        crate::text::trimmed_end(text).len() > 0 ==> !crate::text::is_space(crate::text::trimmed_end(text).last()),
        forall|k: int|
            crate::text::trimmed_end(text).len() <= k < text.len() ==> crate::text::is_space(#[trigger] text[k]),
    decreases text.len(),
{
    if text.len() > 0 && crate::text::is_space(text.last()) {
        lemma_trimmed_end(text.drop_last());
        let rest = crate::text::trimmed_end(text.drop_last());
        assert(rest =~= text.take(rest.len() as int));
        assert forall|k: int| rest.len() <= k < text.len() implies crate::text::is_space(
            #[trigger] text[k],
        ) by {
            if k < text.len() - 1 {
                assert(text.drop_last()[k] == text[k]);
            }
        }
    } else {
        assert(text.take(text.len() as int) =~= text);
    }
}

/// Among the ASCII characters the spaces are the tab, the line breaks and the blank.
pub proof fn law_ascii_spaces(c: char)
    requires
        (c as u32) < 128,
    ensures
        crate::text::is_space(c) <==> c == ' ' || c == '\t' || c == '\n' || c == '\r' || c as u32 == 11
            || c as u32 == 12,
{
}

/// A line has no line break, and a text without one is a line.
pub proof fn law_lines_have_no_breaks(text: Seq<char>)
    ensures
        forall|i: int|
            0 <= i < crate::text::lines_of(text).len() ==> !(#[trigger] crate::text::lines_of(text)[i]).contains('\n'),
        text.len() > 0 && !text.contains('\n') ==> crate::text::lines_of(text) == seq![text],
    decreases text.len(),
{
    law_first_index_is_the_first(text, '\n');
    let at = crate::text::first_index(text, '\n');
    let all = crate::text::lines_of(text);
    if text.len() == 0 {
    } else if at >= text.len() {
        if text.contains('\n') {
            let k = choose|k: int| 0 <= k < text.len() && text[k] == '\n';
            assert(false);
        }
    } else {
        assert(text.contains('\n')) by {
            assert(text[at] == '\n');
        }
        let line = crate::text::without_return(text.take(at));
        let rest = crate::text::lines_of(text.skip(at + 1));
        law_lines_have_no_breaks(text.skip(at + 1));
        assert(all =~= seq![line] + rest);
        assert forall|i: int| 0 <= i < all.len() implies !(#[trigger] all[i]).contains('\n') by {
            if i == 0 {
                if line.contains('\n') {
                    let k = choose|k: int| 0 <= k < line.len() && line[k] == '\n';
                    assert(text[k] == '\n');
                }
            } else {
                assert(all[i] == rest[i - 1]);
            }
        }
    }
}

/// A word is not empty and has no space.
pub proof fn law_words_have_no_spaces(text: Seq<char>, i: int)
    requires
        0 <= i < crate::text::words_of(text).len(),
    ensures
        crate::text::words_of(text)[i].len() > 0,
        forall|k: int|
            0 <= k < crate::text::words_of(text)[i].len() ==> !crate::text::is_space(#[trigger] crate::text::words_of(text)[i][k]),
    decreases text.len(),
{
    if crate::text::is_space(text[0]) {
        law_words_have_no_spaces(text.drop_first(), i);
    } else {
        lemma_word(text);
        let n = crate::text::word_length(text);
        let rest = crate::text::words_of(text.skip(n));
        if i == 0 {
            assert(crate::text::words_of(text)[0] == text.take(n));
            assert forall|k: int| 0 <= k < n implies !crate::text::is_space(#[trigger] text.take(n)[k]) by {
                assert(text.take(n)[k] == text[k]);
            }
        } else {
            assert(crate::text::words_of(text)[i] == rest[i - 1]);
            law_words_have_no_spaces(text.skip(n), i - 1);
        }
    }
}

/// A word ends before a space.
proof fn lemma_word(text: Seq<char>)
    ensures
        0 <= crate::text::word_length(text) <= text.len(),
        text.len() > 0 && !crate::text::is_space(text[0]) ==> crate::text::word_length(text) > 0,
        forall|k: int| 0 <= k < crate::text::word_length(text) ==> !crate::text::is_space(#[trigger] text[k]),
    decreases text.len(),
{
    if text.len() > 0 && !crate::text::is_space(text[0]) {
        lemma_word(text.drop_first());
        let n = crate::text::word_length(text.drop_first());
        assert forall|k: int| 0 <= k < 1 + n implies !crate::text::is_space(#[trigger] text[k]) by {
            if k > 0 {
                assert(text.drop_first()[k - 1] == text[k]);
            }
        }
    }
}

/// A character is quoted as it stands unless it is a quote, a backslash or a control character;
/// those are escaped by a backslash.
pub proof fn law_quoted_characters_are_escaped(c: char)
    ensures
        ({
            let quoted = crate::json_text::json_char(c);
            &&& quoted == seq![c] <==> c as u32 >= 32 && c != '"' && c != '\\'
            &&& !(quoted == seq![c]) ==> quoted[0] == '\\' && quoted.len() >= 2
            &&& c == '"' ==> quoted == seq!['\\', '"']
            &&& c == '\\' ==> quoted == seq!['\\', '\\']
            &&& c == '\n' ==> quoted == seq!['\\', 'n']
            &&& c == '\r' ==> quoted == seq!['\\', 'r']
            &&& c == '\t' ==> quoted == seq!['\\', 't']
            &&& c as u32 == 8 ==> quoted == seq!['\\', 'b']
            &&& c as u32 == 12 ==> quoted == seq!['\\', 'f']
            &&& quoted.len() == 6 ==> quoted.take(4) == seq!['\\', 'u', '0', '0'] && hex_value(
                quoted[4],
            ) * 16 + hex_value(quoted[5]) == c as int
        }),
{
    let quoted = crate::json_text::json_char(c);
    assert(quoted.len() == 6 ==> quoted.take(4) =~= seq!['\\', 'u', '0', '0']);
    assert(seq![c][0] == c);
    assert(seq!['\\', '\\'].len() == 2);
    assert(seq!['\\', '"'].len() == 2);
}

/// The value of a hexadecimal digit.
pub open spec fn hex_value(c: char) -> int {
    if '0' <= c <= '9' {
        c as int - '0' as int
    } else {
        c as int - 'a' as int + 10
    }
}

/// A quoted text stands between quotes, and is quoted character by character.
pub proof fn law_texts_are_quoted_character_by_character(text: Seq<char>, c: char)
    ensures
        crate::json_text::json_quoted(Seq::empty()) == seq!['"', '"'],
        crate::json_text::json_quoted(text.push(c)) == crate::json_text::json_quoted(
            text,
        ).drop_last() + crate::json_text::json_char(c) + seq!['"'],
{
    let f = |c: char| crate::json_text::json_char(c);
    assert(text.push(c).drop_last() =~= text);
    assert(crate::json_text::json_quoted(text).drop_last() =~= seq!['"'] + crate::text::concat_map(text, f));
    assert(crate::json_text::json_quoted(text.push(c)) =~= seq!['"'] + (crate::text::concat_map(text, f)
        + crate::json_text::json_char(c)) + seq!['"']);
    assert(crate::json_text::json_quoted(Seq::empty()) =~= seq!['"', '"']);
}

/// A path below another is the other with a slash and the path; an absolute path stays as it is.
pub proof fn law_paths_are_joined_by_one_slash(base: Seq<char>, path: Seq<char>)
    ensures
        path.len() > 0 && path[0] == '/' ==> crate::paths::joined_path(base, path) == path,
        !(path.len() > 0 && path[0] == '/') && base.len() > 0 && base.last() != '/'
            ==> crate::paths::joined_path(base, path) == base + "/"@ + path,
        !(path.len() > 0 && path[0] == '/') && (base.len() == 0 || base.last() == '/')
            ==> crate::paths::joined_path(base, path) == base + path,
{
}

/// A segment is a name but for the two that stand for the current and the parent directory; the
/// current one counts only in front, and an empty one not at all.
pub proof fn law_segments_are_names(segment: Seq<char>, leading: bool)
    ensures
        crate::paths::segment_part(seq!['.', '.'], leading) == Some(PartView::Parent),
        crate::paths::segment_part(seq!['.'], true) == Some(PartView::Current),
        crate::paths::segment_part(seq!['.'], false) is None,
        crate::paths::segment_part(Seq::empty(), leading) is None,
        segment.len() > 0 && segment != seq!['.'] && segment != seq!['.', '.']
            ==> crate::paths::segment_part(segment, leading) == Some(PartView::Name(segment)),
{
    assert(seq!['.', '.'].len() == 2);
    assert(seq!['.'].len() == 1);
}

/// A parent takes back the name before it, and the current directory changes nothing.
pub proof fn law_parents_take_back_names(parts: Seq<PartView>, name: Seq<char>)
    ensures
        ({
            let before = crate::paths::normalized_parts(parts, parts.len() as int);
            let named = parts.push(PartView::Name(name));
            let back = named.push(PartView::Parent);
            let still = parts.push(PartView::Current);
            &&& crate::paths::normalized_parts(back, back.len() as int) == before
            &&& crate::paths::normalized_parts(still, still.len() as int) == before
            &&& crate::paths::normalized_parts(named, named.len() as int) == before.push(
                PartView::Name(name),
            )
        }),
{
    let named = parts.push(PartView::Name(name));
    let back = named.push(PartView::Parent);
    let still = parts.push(PartView::Current);
    lemma_normalized_of_more(parts, PartView::Name(name), parts.len() as int);
    lemma_normalized_of_more(parts, PartView::Current, parts.len() as int);
    lemma_normalized_of_more(named, PartView::Parent, named.len() as int);
    let before = crate::paths::normalized_parts(parts, parts.len() as int);
    assert(crate::paths::normalized_parts(named, named.len() as int) == before.push(
        PartView::Name(name),
    ));
    assert(before.push(PartView::Name(name)).drop_last() =~= before);
    assert(crate::paths::normalized_parts(still, still.len() as int) == before);
}

/// Parts behind those that count change nothing.
proof fn lemma_normalized_of_more(parts: Seq<PartView>, more: PartView, count: int)
    requires
        0 <= count <= parts.len(),
    ensures
        crate::paths::normalized_parts(parts.push(more), count) == crate::paths::normalized_parts(
            parts,
            count,
        ),
    decreases count,
{
    if count > 0 {
        lemma_normalized_of_more(parts, more, count - 1);
    }
}

/// Texts are in the order of their first characters that differ, and a text comes before each that
/// goes on behind it.
pub proof fn law_texts_are_ordered_by_characters(same: Seq<char>, a: char, b: char, left: Seq<char>, right: Seq<char>)
    requires
        a < b,
    ensures
        crate::paths::text_before(same + seq![a] + left, same + seq![b] + right),
        !crate::paths::text_before(same + seq![b] + right, same + seq![a] + left),
        crate::paths::text_before(same, same + seq![a] + left),
        !crate::paths::text_before(same + seq![a] + left, same),
        !crate::paths::text_before(same, same),
    decreases same.len(),
{
    if same.len() > 0 {
        let rest = same.drop_first();
        law_texts_are_ordered_by_characters(rest, a, b, left, right);
        assert((same + seq![a] + left).drop_first() =~= rest + seq![a] + left);
        assert((same + seq![b] + right).drop_first() =~= rest + seq![b] + right);
    }
}

/// Parts of paths are in the order root, current, parent, name.
pub proof fn law_parts_are_ordered_by_their_kind(name: Seq<char>)
    ensures
        crate::paths::part_before(PartView::Root, PartView::Current),
        crate::paths::part_before(PartView::Current, PartView::Parent),
        crate::paths::part_before(PartView::Parent, PartView::Name(name)),
        !crate::paths::part_before(PartView::Current, PartView::Root),
        !crate::paths::part_before(PartView::Parent, PartView::Current),
        !crate::paths::part_before(PartView::Name(name), PartView::Parent),
{
}

/// A numbered name is the base with the separator and the number; the first one has no number.
pub proof fn law_numbered_names(base: Seq<char>, separator: Seq<char>, number: nat)
    ensures
        crate::unique::candidate(base, separator, 1) == base,
        number >= 2 ==> crate::unique::candidate(base, separator, number) == base + separator
            + crate::unique::decimal(number),
{
}

/// A language has the text that is given for it first, and the default where none is given.
pub proof fn law_own_texts_come_before_the_default(
    strings: crate::plan::LanguageStringView,
    language: Language,
    i: int,
)
    ensures
        0 <= i < strings.by_language.len() && strings.by_language[i].language == language && (
        forall|k: int|
            0 <= k < i ==> (#[trigger] strings.by_language[k]).language != language)
            ==> crate::plan::view_text_for(strings, language) == Some(strings.by_language[i].text),
        (forall|k: int|
            0 <= k < strings.by_language.len() ==> (#[trigger] strings.by_language[k]).language
                != language) ==> crate::plan::view_text_for(strings, language) == strings.default,
{
    lemma_own_text(strings.by_language, language, i);
}

/// The first text of a language is its own.
proof fn lemma_own_text(entries: Seq<crate::plan::LanguageTextView>, language: Language, i: int)
    ensures
        0 <= i < entries.len() && entries[i].language == language && (forall|k: int|
            0 <= k < i ==> (#[trigger] entries[k]).language != language) ==> crate::plan::own_text(
            entries,
            language,
        ) == Some(entries[i].text),
        (forall|k: int|
            0 <= k < entries.len() ==> (#[trigger] entries[k]).language != language)
            ==> crate::plan::own_text(entries, language) is None,
    decreases entries.len(),
{
    if entries.len() > 0 {
        let rest = entries.drop_first();
        lemma_own_text(rest, language, i - 1);
        assert forall|k: int| 0 <= k < rest.len() implies #[trigger] rest[k] == entries[k + 1] by {}
        if 0 <= i < entries.len() && entries[i].language == language && (forall|k: int|
            0 <= k < i ==> (#[trigger] entries[k]).language != language) {
            if i > 0 {
                assert(entries[0].language != language);
                assert(rest[i - 1] == entries[i]);
            }
        }
        if forall|k: int|
            0 <= k < entries.len() ==> (#[trigger] entries[k]).language != language {
            assert(entries[0].language != language);
        }
    }
}

/// A name relative to its package is what stands behind the package and a dot.
pub proof fn law_relative_names_stand_behind_their_package(package: Seq<char>, name: Seq<char>)
    ensures
        crate::plan::relative_name_text(package + "."@ + name, package) == name,
        !crate::text::has_prefix(name, package + "."@) ==> crate::plan::relative_name_text(name, package) == name,
{
    let prefix = package + "."@;
    assert((prefix + name).take(prefix.len() as int) =~= prefix);
    assert((prefix + name).skip(prefix.len() as int) =~= name);
}

} // verus!
