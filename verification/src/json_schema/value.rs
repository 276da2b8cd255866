//! JSON values.

use vstd::prelude::*;

use crate::text::text_eq;

verus! {

/// A JSON number, as it is written.
#[derive(Debug, Clone)]
pub struct JsonNumber {
    pub text: String,
}

/// A member of a JSON object.
#[derive(Debug)]
pub struct JsonMember {
    pub name: String,
    pub value: JsonValue,
}

/// A JSON value.
#[derive(Debug)]
pub enum JsonValue {
    Null,
    Bool(bool),
    Number(JsonNumber),
    Text(String),
    Array(Vec<JsonValue>),
    Object(Vec<JsonMember>),
}

/// The text of a value that is one.
pub open spec fn value_text(value: JsonValue) -> Option<Seq<char>> {
    match value {
        JsonValue::Text(text) => Some(text@),
        _ => None,
    }
}

/// Whether the value is exactly the text.
pub open spec fn is_text(value: JsonValue, text: Seq<char>) -> bool {
    value_text(value) == Some(text)
}

/// Whether the optional value is exactly the text.
pub open spec fn opt_is_text(value: Option<JsonValue>, text: Seq<char>) -> bool {
    match value {
        Some(value) => is_text(value, text),
        None => false,
    }
}

/// The index of the first member with the name.
pub open spec fn member_index(members: Seq<JsonMember>, name: Seq<char>) -> Option<int>
    decreases members.len(),
{
    if members.len() == 0 {
        None
    } else {
        match member_index(members.drop_last(), name) {
            Some(i) => Some(i),
            None => if members.last().name@ == name {
                Some(members.len() - 1)
            } else {
                None
            },
        }
    }
}

pub proof fn lemma_member_index(members: Seq<JsonMember>, name: Seq<char>)
    ensures
        member_index(members, name) matches Some(i) ==> 0 <= i < members.len()
            && members[i].name@ == name,
    decreases members.len(),
{
    if members.len() > 0 {
        lemma_member_index(members.drop_last(), name);
        match member_index(members.drop_last(), name) {
            Some(i) => {
                assert(members.drop_last()[i] == members[i]);
            },
            None => {},
        }
    }
}

/// The value of the member with the name, where the value is an object that has one.
pub open spec fn member_of(value: JsonValue, name: Seq<char>) -> Option<JsonValue> {
    match value {
        JsonValue::Object(members) => match member_index(members@, name) {
            Some(i) => Some(members@[i].value),
            None => None,
        },
        _ => None,
    }
}

/// Whether the value is exactly the text.
pub fn value_is_text(value: &JsonValue, text: &str) -> (same: bool)
    ensures
        same == is_text(*value, text@),
{
    match value {
        JsonValue::Text(found) => text_eq(found.as_str(), text),
        _ => false,
    }
}

/// Whether the optional value is exactly the text.
pub fn opt_value_is_text(value: &Option<JsonValue>, text: &str) -> (same: bool)
    ensures
        same == opt_is_text(*value, text@),
{
    match value {
        Some(value) => value_is_text(value, text),
        None => false,
    }
}

/// The value of the member with the name, where the value is an object that has one.
pub fn get_member<'a>(value: &'a JsonValue, name: &str) -> (member: Option<&'a JsonValue>)
    ensures
        match (member, member_of(*value, name@)) {
            (Some(found), Some(wanted)) => *found == wanted,
            (None, None) => true,
            _ => false,
        },
{
    match value {
        JsonValue::Object(members) => match find_member(members, name) {
            Some(k) => Some(&members[k].value),
            None => None,
        },
        _ => None,
    }
}

/// Whether some value of the list is exactly the text.
pub open spec fn has_text(values: Seq<JsonValue>, text: Seq<char>) -> bool {
    exists|i: int| 0 <= i < values.len() && is_text(#[trigger] values[i], text)
}

/// Whether some value of the list is exactly the text.
pub fn any_is_text(values: &Vec<JsonValue>, text: &str) -> (found: bool)
    ensures
        found == has_text(values@, text@),
{
    let mut i: usize = 0;
    while i < values.len()
        invariant
            i <= values.len(),
            forall|k: int| 0 <= k < i ==> !is_text(#[trigger] values@[k], text@),
        decreases values.len() - i,
    {
        if value_is_text(&values[i], text) {
            return true;
        }
        i += 1;
    }
    false
}

/// Whether a number is a zero with a fraction.
pub open spec fn is_decimal_zero(text: Seq<char>) -> bool {
    text == "0.0"@ || text == "-0.0"@
}

/// Whether two numbers are the same. Zero has two spellings with a fraction.
pub open spec fn same_number(left: JsonNumber, right: JsonNumber) -> bool {
    left.text@ == right.text@ || (is_decimal_zero(left.text@) && is_decimal_zero(right.text@))
}

/// Whether the first values of two lists are the same.
pub open spec fn same_values(left: Seq<JsonValue>, right: Seq<JsonValue>, count: nat) -> bool
    decreases left, 0nat, count,
        when count <= left.len()
{
    if count == 0 {
        true
    } else {
        same_values(left, right, (count - 1) as nat) && same_value(
            left[count - 1],
            right[count - 1],
        )
    }
}

/// Whether the first members of an object have the same values in another.
pub open spec fn same_members(left: Seq<JsonMember>, right: Seq<JsonMember>, count: nat) -> bool
    decreases left, 0nat, count,
        when count <= left.len()
{
    if count == 0 {
        true
    } else {
        same_members(left, right, (count - 1) as nat) && match member_index(
            right,
            left[count - 1].name@,
        ) {
            Some(i) => same_value(left[count - 1].value, right[i].value),
            None => false,
        }
    }
}

/// Whether two JSON values are the same. The order of members is immaterial.
pub open spec fn same_value(left: JsonValue, right: JsonValue) -> bool
    decreases left, 1nat, 0nat,
{
    match (left, right) {
        (JsonValue::Null, JsonValue::Null) => true,
        (JsonValue::Bool(a), JsonValue::Bool(b)) => a == b,
        (JsonValue::Number(a), JsonValue::Number(b)) => same_number(a, b),
        (JsonValue::Text(a), JsonValue::Text(b)) => a@ == b@,
        (JsonValue::Array(a), JsonValue::Array(b)) => a@.len() == b@.len() && same_values(
            a@,
            b@,
            a@.len(),
        ),
        (JsonValue::Object(a), JsonValue::Object(b)) => a@.len() == b@.len() && same_members(
            a@,
            b@,
            a@.len(),
        ),
        _ => false,
    }
}

fn text_is_decimal_zero(text: &str) -> (zero: bool)
    ensures
        zero == is_decimal_zero(text@),
{
    text_eq(text, "0.0") || text_eq(text, "-0.0")
}

pub proof fn lemma_element_smaller(value: JsonValue, i: int)
    requires
        value is Array,
        0 <= i < value->Array_0@.len(),
    ensures
        decreases_to!(value => value->Array_0@[i]),
{
    assert(decreases_to!(value => value->Array_0));
    assert(decreases_to!(value->Array_0 => value->Array_0@));
}

pub proof fn lemma_member_smaller(value: JsonValue, i: int)
    requires
        value is Object,
        0 <= i < value->Object_0@.len(),
    ensures
        decreases_to!(value => value->Object_0@[i].value),
{
    assert(decreases_to!(value => value->Object_0));
    assert(decreases_to!(value->Object_0 => value->Object_0@));
    assert(decreases_to!(value->Object_0@ => value->Object_0@[i]));
    assert(decreases_to!(value->Object_0@[i] => value->Object_0@[i].value));
}

/// The index of the first member with the name.
pub fn find_member(members: &Vec<JsonMember>, name: &str) -> (index: Option<usize>)
    ensures
        match index {
            Some(k) => k < members@.len() && member_index(members@, name@) == Some(k as int),
            None => member_index(members@, name@) is None,
        },
{
    let mut found: Option<usize> = None;
    let mut i: usize = 0;
    while i < members.len()
        invariant
            i <= members.len(),
            match found {
                Some(k) => k < i && member_index(members@.take(i as int), name@) == Some(k as int),
                None => member_index(members@.take(i as int), name@) is None,
            },
        decreases members.len() - i,
    {
        assert(members@.take(i + 1).drop_last() =~= members@.take(i as int));
        if found.is_none() && text_eq(members[i].name.as_str(), name) {
            found = Some(i);
        }
        i += 1;
    }
    assert(members@.take(i as int) =~= members@);
    found
}

/// Whether two JSON values are the same.
pub fn values_same(left: &JsonValue, right: &JsonValue) -> (same: bool)
    ensures
        same == same_value(*left, *right),
    decreases left,
{
    match (left, right) {
        (JsonValue::Null, JsonValue::Null) => true,
        (JsonValue::Bool(a), JsonValue::Bool(b)) => *a == *b,
        (JsonValue::Number(a), JsonValue::Number(b)) => text_eq(a.text.as_str(), b.text.as_str())
            || (text_is_decimal_zero(a.text.as_str()) && text_is_decimal_zero(b.text.as_str())),
        (JsonValue::Text(a), JsonValue::Text(b)) => text_eq(a.as_str(), b.as_str()),
        (JsonValue::Array(a), JsonValue::Array(b)) => {
            if a.len() != b.len() {
                return false;
            }
            let mut same = true;
            let mut i: usize = 0;
            while i < a.len()
                invariant
                    i <= a.len(),
                    a.len() == b.len(),
                    *left == JsonValue::Array(*a),
                    same == same_values(a@, b@, i as nat),
                decreases a.len() - i,
            {
                proof {
                    lemma_element_smaller(*left, i as int);
                }
                if same && !values_same(&a[i], &b[i]) {
                    same = false;
                }
                i += 1;
            }
            same
        },
        (JsonValue::Object(a), JsonValue::Object(b)) => {
            if a.len() != b.len() {
                return false;
            }
            let mut same = true;
            let mut i: usize = 0;
            while i < a.len()
                invariant
                    i <= a.len(),
                    a.len() == b.len(),
                    *left == JsonValue::Object(*a),
                    same == same_members(a@, b@, i as nat),
                decreases a.len() - i,
            {
                proof {
                    lemma_member_smaller(*left, i as int);
                }
                if same {
                    same = match find_member(b, a[i].name.as_str()) {
                        Some(k) => values_same(&a[i].value, &b[k].value),
                        None => false,
                    };
                }
                i += 1;
            }
            same
        },
        _ => false,
    }
}

} // verus!
