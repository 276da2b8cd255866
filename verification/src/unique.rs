//! Numbers as text, and names that are not taken yet.

use vstd::prelude::*;

use crate::text::contains_text;

verus! {

/// The digit for a number below ten.
pub open spec fn digit(value: int) -> char {
    ('0' as int + value) as char
}

/// The number in decimal.
pub open spec fn decimal(value: nat) -> Seq<char>
    decreases value,
{
    if value < 10 {
        seq![digit(value as int)]
    } else {
        decimal(value / 10).push(digit((value % 10) as int))
    }
}

/// The digit for a number below ten.
fn digit_char(value: u128) -> (c: char)
    requires
        value < 10,
    ensures
        c == digit(value as int),
{
    match value {
        0 => '0',
        1 => '1',
        2 => '2',
        3 => '3',
        4 => '4',
        5 => '5',
        6 => '6',
        7 => '7',
        8 => '8',
        _ => '9',
    }
}

/// The number in decimal.
pub fn decimal_text(value: u128) -> (text: String)
    ensures
        text@ == decimal(value as nat),
    decreases value,
{
    let mut text = if value < 10 {
        String::new()
    } else {
        decimal_text(value / 10)
    };
    text.push(digit_char(value % 10));
    assert(value < 10 ==> text@ =~= seq![digit(value as int)]);
    text
}

/// Different numbers have different decimals.
pub proof fn lemma_decimal_injective(a: nat, b: nat)
    requires
        decimal(a) == decimal(b),
    ensures
        a == b,
    decreases a,
{
    lemma_decimal_len(a);
    lemma_decimal_len(b);
    assert(decimal(a).last() == digit((a % 10) as int));
    assert(decimal(b).last() == digit((b % 10) as int));
    lemma_digit_injective((a % 10) as int, (b % 10) as int);
    if a >= 10 && b >= 10 {
        assert(decimal(a).drop_last() =~= decimal(a / 10));
        assert(decimal(b).drop_last() =~= decimal(b / 10));
        lemma_decimal_injective(a / 10, b / 10);
    }
}

proof fn lemma_digit_injective(a: int, b: int)
    requires
        0 <= a < 10,
        0 <= b < 10,
        digit(a) == digit(b),
    ensures
        a == b,
{
}

proof fn lemma_decimal_len(value: nat)
    ensures
        value < 10 ==> decimal(value).len() == 1,
        value >= 10 ==> decimal(value).len() >= 2,
    decreases value,
{
    if value >= 10 {
        lemma_decimal_len(value / 10);
    }
}

/// The `number`th name to try: the base itself, and behind it the base with a number from two
/// on.
pub open spec fn candidate(base: Seq<char>, separator: Seq<char>, number: nat) -> Seq<char> {
    if number <= 1 {
        base
    } else {
        base + separator + decimal(number)
    }
}

proof fn lemma_candidate_injective(base: Seq<char>, separator: Seq<char>, a: nat, b: nat)
    requires
        a >= 1,
        b >= 1,
        candidate(base, separator, a) == candidate(base, separator, b),
    ensures
        a == b,
{
    lemma_decimal_len(a);
    lemma_decimal_len(b);
    if a >= 2 && b >= 2 {
        let head = base + separator;
        assert(decimal(a) =~= candidate(base, separator, a).skip(head.len() as int));
        assert(decimal(b) =~= candidate(base, separator, b).skip(head.len() as int));
        lemma_decimal_injective(a, b);
    } else if a >= 2 {
        assert(candidate(base, separator, a).len() > base.len());
    } else if b >= 2 {
        assert(candidate(base, separator, b).len() > base.len());
    }
}

/// Whether `number` is the first whose name is not taken.
pub open spec fn is_first_free(
    base: Seq<char>,
    separator: Seq<char>,
    taken: Seq<Seq<char>>,
    number: nat,
) -> bool {
    &&& number >= 1
    &&& !taken.contains(candidate(base, separator, number))
    &&& forall|other: nat|
        1 <= other < number ==> taken.contains(#[trigger] candidate(base, separator, other))
}

/// The first name that is not taken.
pub open spec fn free_name(base: Seq<char>, separator: Seq<char>, taken: Seq<Seq<char>>) -> Seq<
    char,
> {
    candidate(
        base,
        separator,
        choose|number: nat| #[trigger] is_first_free(base, separator, taken, number),
    )
}

/// As long as only taken names were tried, no more were tried than there are.
proof fn lemma_tries_bounded(
    base: Seq<char>,
    separator: Seq<char>,
    taken: Seq<Seq<char>>,
    count: nat,
)
    requires
        forall|other: nat|
            1 <= other <= count ==> taken.contains(#[trigger] candidate(base, separator, other)),
    ensures
        count <= taken.len(),
{
    let tried = Seq::new(count, |i: int| candidate(base, separator, (i + 1) as nat));
    assert forall|i: int, j: int| 0 <= i < tried.len() && 0 <= j < tried.len() && i != j implies
        tried[i] != tried[j] by {
        if tried[i] == tried[j] {
            lemma_candidate_injective(base, separator, (i + 1) as nat, (j + 1) as nat);
        }
    }
    assert(tried.no_duplicates());
    tried.unique_seq_to_set();
    taken.lemma_cardinality_of_set();
    assert(tried.to_set().subset_of(taken.to_set())) by {
        assert forall|name: Seq<char>| tried.to_set().contains(name) implies taken.to_set().contains(
            name,
        ) by {
            let i = choose|i: int| 0 <= i < tried.len() && tried[i] == name;
            assert(taken.contains(candidate(base, separator, (i + 1) as nat)));
        }
    }
    vstd::set_lib::lemma_len_subset(tried.to_set(), taken.to_set());
}

/// The first name that is not taken: the base, or the base with the smallest number from two on
/// that makes it new.
pub fn first_free_name(base: &str, separator: &str, taken: &Vec<String>) -> (name: String)
    ensures
        name@ == free_name(base@, separator@, crate::text::texts(taken@)),
        !crate::text::texts(taken@).contains(name@),
{
    let count: usize = taken.len();
    let mut number: u128 = 1;
    let mut name = base.to_owned();
    while contains_text(taken, name.as_str())
        invariant
            count == taken@.len(),
            1 <= number <= count + 1,
            name@ == candidate(base@, separator@, number as nat),
            forall|other: nat|
                1 <= other < number ==> crate::text::texts(taken@).contains(
                    #[trigger] candidate(base@, separator@, other),
                ),
        decreases count + 1 - number,
    {
        proof {
            lemma_tries_bounded(base@, separator@, crate::text::texts(taken@), number as nat);
        }
        number += 1;
        name = base.to_owned().concat(separator).concat(decimal_text(number).as_str());
    }
    proof {
        let taken_views = crate::text::texts(taken@);
        assert(is_first_free(base@, separator@, taken_views, number as nat));
        let chosen = choose|n: nat| #[trigger] is_first_free(base@, separator@, taken_views, n);
        if chosen < number {
            assert(taken_views.contains(candidate(base@, separator@, chosen)));
        } else if number < chosen {
            assert(taken_views.contains(candidate(base@, separator@, number as nat)));
        }
    }
    name
}

/// Some name is always free: the first one that is not taken exists, and it is not taken.
pub proof fn law_free_name_is_free(base: Seq<char>, separator: Seq<char>, taken: Seq<Seq<char>>)
    ensures
        !taken.contains(free_name(base, separator, taken)),
{
    lemma_free_number_exists(base, separator, taken, 1);
}

proof fn lemma_free_number_exists(
    base: Seq<char>,
    separator: Seq<char>,
    taken: Seq<Seq<char>>,
    number: nat,
)
    requires
        1 <= number <= taken.len() + 1,
        forall|other: nat|
            1 <= other < number ==> taken.contains(#[trigger] candidate(base, separator, other)),
    ensures
        exists|n: nat| #[trigger] is_first_free(base, separator, taken, n),
    decreases taken.len() + 1 - number,
{
    if taken.contains(candidate(base, separator, number)) {
        assert forall|other: nat| 1 <= other <= number implies taken.contains(
            #[trigger] candidate(base, separator, other),
        ) by {}
        lemma_tries_bounded(base, separator, taken, number);
        lemma_free_number_exists(base, separator, taken, number + 1);
    } else {
        assert(is_first_free(base, separator, taken, number));
    }
}

} // verus!
