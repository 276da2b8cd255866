//! The whole number that a decimal is cut down to.

use vstd::prelude::*;

use crate::text::{chars_of, find_char};

verus! {

/// A decimal by its parts: the digits before the point, those behind it, and the exponent.
#[verifier::ext_equal]
pub struct DecimalParts {
    pub negative: bool,
    pub whole: Seq<char>,
    pub fraction: Seq<char>,
    pub exponent: Option<int>,
}

/// The text before the first such character, or all of it.
pub open spec fn before_char(text: Seq<char>, c: char) -> Seq<char> {
    text.take(crate::text::first_index(text, c))
}

/// The text behind the first such character.
pub open spec fn behind_char(text: Seq<char>, c: char) -> Seq<char> {
    let at = crate::text::first_index(text, c);
    if at < text.len() {
        text.skip(at + 1)
    } else {
        Seq::empty()
    }
}

/// The value of a digit.
pub open spec fn digit_value(c: char) -> Option<int> {
    if '0' <= c && c <= '9' {
        Some(c as int - '0' as int)
    } else {
        None
    }
}

/// The number that digits are.
pub open spec fn digits_value(digits: Seq<char>) -> Option<int>
    decreases digits.len(),
{
    if digits.len() == 0 {
        Some(0)
    } else {
        match (digits_value(digits.drop_last()), digit_value(digits.last())) {
            (Some(before), Some(last)) => Some(before * 10 + last),
            _ => None,
        }
    }
}

/// The value of an exponent of at most four digits, which is more than a double can hold.
pub open spec fn exponent_value(text: Seq<char>) -> Option<int> {
    let signed = text.len() > 0 && (text[0] == '-' || text[0] == '+');
    let digits = if signed {
        text.skip(1)
    } else {
        text
    };
    if digits.len() > 4 {
        None
    } else {
        match digits_value(digits) {
            Some(value) => Some(
                if signed && text[0] == '-' {
                    -value
                } else {
                    value
                },
            ),
            None => None,
        }
    }
}

/// The parts of a decimal.
pub open spec fn decimal_parts(text: Seq<char>) -> DecimalParts {
    let negative = text.len() > 0 && text[0] == '-';
    let unsigned = if negative {
        text.skip(1)
    } else {
        text
    };
    let mark = if crate::text::first_index(unsigned, 'e') < unsigned.len() {
        'e'
    } else {
        'E'
    };
    let mantissa = before_char(unsigned, mark);
    DecimalParts {
        negative,
        whole: before_char(mantissa, '.'),
        fraction: behind_char(mantissa, '.'),
        exponent: exponent_value(behind_char(unsigned, mark)),
    }
}

/// The digits before a point.
pub open spec fn digits_before(digits: Seq<char>, point: int) -> Seq<char> {
    if point <= 0 {
        Seq::empty()
    } else if point <= digits.len() {
        digits.take(point)
    } else {
        digits + Seq::new((point - digits.len()) as nat, |i: int| '0')
    }
}

/// The digits without the zeros in front.
pub open spec fn significant_digits(digits: Seq<char>) -> Seq<char>
    decreases digits.len(),
{
    if digits.len() > 0 && digits[0] == '0' {
        significant_digits(digits.drop_first())
    } else {
        digits
    }
}

/// A number by its sign and the digits without zeros in front.
pub open spec fn signed_number(negative: bool, digits: Seq<char>) -> Seq<char> {
    if digits.len() == 0 {
        seq!['0']
    } else if negative {
        seq!['-'] + digits
    } else {
        digits
    }
}

/// The whole number that a decimal is cut down to, without loss of a digit. What has no exponent
/// that can be read stays as it is written.
pub open spec fn whole_number(text: Seq<char>) -> Seq<char> {
    let parts = decimal_parts(text);
    match parts.exponent {
        None => text,
        Some(places) => signed_number(
            parts.negative,
            significant_digits(
                digits_before(parts.whole + parts.fraction, parts.whole.len() + places),
            ),
        ),
    }
}

/// A whole number is kept as it is written, however large it is.
pub proof fn law_whole_number_is_kept(digits: Seq<char>)
    requires
        digits.len() > 0,
        digits[0] != '0',
        forall|i: int| 0 <= i < digits.len() ==> '0' <= #[trigger] digits[i] && digits[i] <= '9',
    ensures
        whole_number(digits) == digits,
        whole_number(seq!['-'] + digits) == seq!['-'] + digits,
        whole_number(digits + seq!['.', '0']) == digits,
{
    lemma_absent(digits, 'e');
    lemma_absent(digits, 'E');
    lemma_absent(digits, '.');
    assert(digits.take(digits.len() as int) =~= digits);
    assert(digits_value(Seq::<char>::empty()) == Some(0int));
    assert(exponent_value(Seq::<char>::empty()) == Some(0int));
    let none = Seq::<char>::empty();
    assert(digits_before(digits + none, digits.len() as int) =~= digits);
    assert(significant_digits(digits) == digits);

    let negated = seq!['-'] + digits;
    assert(negated.skip(1) =~= digits);

    let pointed = digits + seq!['.', '0'];
    lemma_absent(pointed, 'e');
    lemma_absent(pointed, 'E');
    assert(pointed.take(pointed.len() as int) =~= pointed);
    lemma_first(digits, seq!['0'], '.');
    assert(digits + seq!['.'] + seq!['0'] =~= pointed);
    assert(pointed.take(digits.len() as int) =~= digits);
    assert(pointed.skip(digits.len() as int + 1) =~= seq!['0']);
    assert(digits_before(digits + seq!['0'], digits.len() as int) =~= digits);
}

/// What does not stand in a text is found nowhere.
proof fn lemma_absent(text: Seq<char>, c: char)
    requires
        forall|i: int| 0 <= i < text.len() ==> #[trigger] text[i] != c,
    ensures
        crate::text::first_index(text, c) == text.len(),
    decreases text.len(),
{
    if text.len() > 0 {
        lemma_absent(text.drop_first(), c);
    }
}

/// What stands behind a text without it is found there.
proof fn lemma_first(before: Seq<char>, after: Seq<char>, c: char)
    requires
        forall|i: int| 0 <= i < before.len() ==> #[trigger] before[i] != c,
    ensures
        crate::text::first_index(before + seq![c] + after, c) == before.len(),
    decreases before.len(),
{
    let text = before + seq![c] + after;
    if before.len() > 0 {
        lemma_first(before.drop_first(), after, c);
        assert(text.drop_first() =~= before.drop_first() + seq![c] + after);
        assert(text[0] == before[0]);
    } else {
        assert(text[0] == c);
    }
}

fn digit_of(c: char) -> (value: Option<u32>)
    ensures
        match value {
            Some(value) => value < 10 && digit_value(c) == Some(value as int),
            None => digit_value(c) is None,
        },
{
    if '0' <= c && c <= '9' {
        Some(c as u32 - 48)
    } else {
        None
    }
}

fn read_exponent(chars: &Vec<char>, from: usize) -> (value: Option<i32>)
    requires
        from <= chars.len(),
    ensures
        match value {
            Some(value) => -9999 <= value <= 9999 && exponent_value(chars@.skip(from as int))
                == Some(value as int),
            None => exponent_value(chars@.skip(from as int)) is None,
        },
{
    let ghost text = chars@.skip(from as int);
    let signed = from < chars.len() && (chars[from] == '-' || chars[from] == '+');
    let start: usize = if signed {
        from + 1
    } else {
        from
    };
    let ghost digits = chars@.skip(start as int);
    proof {
        if from < chars.len() {
            assert(text[0] == chars@[from as int]);
        }
        assert(signed ==> text.skip(1) =~= digits);
        assert(!signed ==> text =~= digits);
    }
    if chars.len() - start > 4 {
        return None;
    }
    let minus = signed && chars[from] == '-';
    let ghost wanted = exponent_value(text);
    proof {
        assert(wanted == match digits_value(digits) {
            Some(value) => Some(
                if minus {
                    -value
                } else {
                    value
                },
            ),
            None => None::<int>,
        });
    }
    let mut number: u32 = 0;
    let mut i: usize = start;
    let mut scale: u32 = 1;
    assert(digits.take(0) =~= Seq::empty());
    while i < chars.len()
        invariant
            start <= i <= chars.len() <= start + 4,
            digits == chars@.skip(start as int),
            digits_value(digits.take(i - start)) == Some(number as int),
            number < scale,
            scale == 1 && i == start || scale == 10 && i == start + 1 || scale == 100 && i == start
                + 2 || scale == 1000 && i == start + 3 || scale == 10000 && i == start + 4,
            wanted == exponent_value(chars@.skip(from as int)),
            digits_value(digits) is None ==> wanted is None,
        decreases chars.len() - i,
    {
        assert(digits.take(i + 1 - start).drop_last() =~= digits.take(i - start));
        assert(digits.take(i + 1 - start).last() == chars@[i as int]);
        match digit_of(chars[i]) {
            Some(value) => {
                number = number * 10 + value;
                scale = scale * 10;
            },
            None => {
                proof {
                    lemma_digits_stop(digits, i + 1 - start);
                }
                return None;
            },
        }
        i += 1;
    }
    assert(digits.take(i - start) =~= digits);
    if minus {
        Some(-(number as i32))
    } else {
        Some(number as i32)
    }
}

/// What is no number stays none with more behind.
proof fn lemma_digits_stop(digits: Seq<char>, count: int)
    requires
        0 <= count <= digits.len(),
        digits_value(digits.take(count)) is None,
    ensures
        digits_value(digits) is None,
    decreases digits.len() - count,
{
    if count == digits.len() {
        assert(digits.take(count) =~= digits);
    } else {
        assert(digits.take(count + 1).drop_last() =~= digits.take(count));
        lemma_digits_stop(digits, count + 1);
    }
}

/// The digits before and behind the point.
fn mantissa_digits(chars: &Vec<char>, from: usize, point: usize, mark: usize) -> (digits: Vec<char>)
    requires
        from <= point <= mark <= chars.len(),
    ensures
        digits@ == chars@.subrange(from as int, point as int) + (if point < mark {
            chars@.subrange(point + 1, mark as int)
        } else {
            Seq::empty()
        }),
{
    let ghost whole = chars@.subrange(from as int, point as int);
    let mut digits: Vec<char> = Vec::new();
    let mut i: usize = from;
    while i < mark
        invariant
            from <= point <= mark <= chars.len(),
            from <= i <= mark,
            whole == chars@.subrange(from as int, point as int),
            i <= point ==> digits@ == chars@.subrange(from as int, i as int),
            i > point ==> digits@ == whole + chars@.subrange(point + 1, i as int),
        decreases mark - i,
    {
        if i != point {
            digits.push(chars[i]);
        }
        i += 1;
        proof {
            if i <= point {
                assert(digits@ =~= chars@.subrange(from as int, i as int));
            } else {
                assert(digits@ =~= whole + chars@.subrange(point + 1, i as int));
            }
        }
    }
    digits
}

/// The parts of a decimal by where the sign, the point and the exponent stand.
proof fn lemma_parts(text: Seq<char>, small: int, large: int, found: int)
    requires
        ({
            let from: int = if text.len() > 0 && text[0] == '-' {
                1
            } else {
                0
            };
            &&& small - from == crate::text::first_index(text.skip(from), 'e')
            &&& large - from == crate::text::first_index(text.skip(from), 'E')
            &&& found - from == crate::text::first_index(text.skip(from), '.')
        }),
    ensures
        ({
            let from: int = if text.len() > 0 && text[0] == '-' {
                1
            } else {
                0
            };
            let mark = if small < text.len() {
                small
            } else {
                large
            };
            let point = if found < mark {
                found
            } else {
                mark
            };
            let behind = if mark < text.len() {
                mark + 1
            } else {
                mark
            };
            let parts = decimal_parts(text);
            &&& from <= point <= mark <= text.len()
            &&& parts.negative == (from == 1)
            &&& parts.whole == text.subrange(from, point)
            &&& parts.fraction == (if point < mark {
                text.subrange(point + 1, mark)
            } else {
                Seq::empty()
            })
            &&& parts.exponent == exponent_value(text.skip(behind))
        }),
{
    let negative = text.len() > 0 && text[0] == '-';
    let from: int = if negative {
        1
    } else {
        0
    };
    let unsigned = text.skip(from);
    if !negative {
        assert(unsigned =~= text);
    }
    lemma_index_bounds(unsigned, 'e');
    lemma_index_bounds(unsigned, 'E');
    lemma_index_bounds(unsigned, '.');
    let c = if small < text.len() {
        'e'
    } else {
        'E'
    };
    let mark = if small < text.len() {
        small
    } else {
        large
    };
    let mantissa = before_char(unsigned, c);
    assert(mantissa =~= text.subrange(from, mark));
    assert(mantissa =~= unsigned.take(mantissa.len() as int));
    lemma_first_before(unsigned, mantissa, '.');
    let point = if found < mark {
        found
    } else {
        mark
    };
    assert(before_char(mantissa, '.') =~= text.subrange(from, point));
    if point < mark {
        assert(behind_char(mantissa, '.') =~= text.subrange(point + 1, mark));
    }
    if mark < text.len() {
        assert(behind_char(unsigned, c) =~= text.skip(mark + 1));
    } else {
        assert(behind_char(unsigned, c) =~= text.skip(mark));
    }
}

/// The whole number that a decimal is cut down to.
pub fn cut_to_whole_number(text: &str) -> (result: String)
    ensures
        result@ == whole_number(text@),
{
    let chars = chars_of(text);
    let negative = chars.len() > 0 && chars[0] == '-';
    let from: usize = if negative {
        1
    } else {
        0
    };
    let small = find_char(&chars, 'e', from);
    let large = find_char(&chars, 'E', from);
    let found = find_char(&chars, '.', from);
    proof {
        lemma_parts(text@, small as int, large as int, found as int);
    }
    let mark = if small < chars.len() {
        small
    } else {
        large
    };
    let point = if found < mark {
        found
    } else {
        mark
    };
    let behind = if mark < chars.len() {
        mark + 1
    } else {
        mark
    };
    match read_exponent(&chars, behind) {
        None => text.to_owned(),
        Some(places) => {
            let digits = mantissa_digits(&chars, from, point, mark);
            significant_text(&digits, (point - from) as i128 + places as i128, negative)
        },
    }
}

/// A character is found inside a text, or at its end.
proof fn lemma_index_bounds(text: Seq<char>, c: char)
    ensures
        0 <= crate::text::first_index(text, c) <= text.len(),
    decreases text.len(),
{
    if text.len() > 0 {
        lemma_index_bounds(text.drop_first(), c);
    }
}

/// Where a character is found in a text that is cut off behind.
proof fn lemma_first_before(text: Seq<char>, start: Seq<char>, c: char)
    requires
        start.len() <= text.len(),
        start == text.take(start.len() as int),
    ensures
        crate::text::first_index(start, c) == if crate::text::first_index(text, c) < start.len() {
            crate::text::first_index(text, c)
        } else {
            start.len() as int
        },
    decreases start.len(),
{
    lemma_index_bounds(text, c);
    if start.len() > 0 {
        assert(start[0] == text[0]);
        assert(start.drop_first() =~= text.drop_first().take(start.len() - 1));
        lemma_first_before(text.drop_first(), start.drop_first(), c);
    }
}

/// The digits before the point without the zeros in front, with the sign.
fn significant_text(digits: &Vec<char>, point: i128, negative: bool) -> (result: String)
    requires
        point <= usize::MAX + 9999,
    ensures
        result@ == signed_number(
            negative,
            significant_digits(digits_before(digits@, point as int)),
        ),
{
    let ghost cut = digits_before(digits@, point as int);
    let mut result = String::new();
    let mut started = false;
    let mut i: i128 = 0;
    let count: i128 = digits.len() as i128;
    assert(cut.skip(0) =~= cut);
    while i < point
        invariant
            0 <= i,
            i <= point || i == 0,
            point <= usize::MAX + 9999,
            count == digits@.len() <= usize::MAX,
            point > 0 ==> cut.len() == point,
            forall|k: int|
                0 <= k < cut.len() ==> #[trigger] cut[k] == if k < digits@.len() {
                    digits@[k]
                } else {
                    '0'
                },
            !started ==> result@ =~= Seq::empty() && significant_digits(cut) == significant_digits(
                cut.skip(i as int),
            ),
            started ==> result@ + cut.skip(i as int) == if negative {
                seq!['-'] + significant_digits(cut)
            } else {
                significant_digits(cut)
            },
            started ==> significant_digits(cut).len() > 0,
        decreases point - i,
    {
        let c = if i < count {
            digits[i as usize]
        } else {
            '0'
        };
        let ghost rest = cut.skip(i as int);
        assert(rest[0] == c);
        assert(rest.drop_first() =~= cut.skip(i + 1));
        if started {
            let ghost before = result@;
            result.push(c);
            assert(result@ + cut.skip(i + 1) =~= before + rest);
        } else if c != '0' {
            if negative {
                result.push('-');
            }
            result.push(c);
            started = true;
            assert(significant_digits(rest) == rest);
            assert(result@ + cut.skip(i + 1) =~= if negative {
                seq!['-'] + rest
            } else {
                rest
            });
        }
        i += 1;
    }
    proof {
        if point <= 0 {
            assert(cut.skip(i as int) =~= Seq::empty());
        } else {
            assert(cut.skip(i as int) =~= Seq::empty());
        }
        assert(result@ + cut.skip(i as int) =~= result@);
    }
    if !started {
        result.push('0');
        assert(result@ =~= seq!['0']);
    }
    result
}

} // verus!
