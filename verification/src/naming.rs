//! Identifier spellings, from the `heck` crate.

use heck::{ToLowerCamelCase, ToShoutySnakeCase, ToSnakeCase, ToUpperCamelCase};
use vstd::prelude::*;

verus! {

/// What `heck` gives for a text in lower camel case.
pub uninterp spec fn lower_camel(text: Seq<char>) -> Seq<char>;

/// What `heck` gives for a text in upper camel case.
pub uninterp spec fn upper_camel(text: Seq<char>) -> Seq<char>;

/// What `heck` gives for a text in snake case.
pub uninterp spec fn snake(text: Seq<char>) -> Seq<char>;

/// What `heck` gives for a text in shouty snake case.
pub uninterp spec fn shouty_snake(text: Seq<char>) -> Seq<char>;

/// `heck::ToLowerCamelCase::to_lower_camel_case`: the result depends on the text alone.
#[verifier::external_body]
pub(crate) fn to_lower_camel(text: &str) -> (result: String)
    ensures
        result@ == lower_camel(text@),
{
    text.to_lower_camel_case()
}

/// `heck::ToUpperCamelCase::to_upper_camel_case`: the result depends on the text alone.
#[verifier::external_body]
pub(crate) fn to_upper_camel(text: &str) -> (result: String)
    ensures
        result@ == upper_camel(text@),
{
    text.to_upper_camel_case()
}

/// `heck::ToSnakeCase::to_snake_case`: the result depends on the text alone.
#[verifier::external_body]
pub(crate) fn to_snake(text: &str) -> (result: String)
    ensures
        result@ == snake(text@),
{
    text.to_snake_case()
}

/// `heck::ToShoutySnakeCase::to_shouty_snake_case`: the result depends on the text alone.
#[verifier::external_body]
pub(crate) fn to_shouty_snake(text: &str) -> (result: String)
    ensures
        result@ == shouty_snake(text@),
{
    text.to_shouty_snake_case()
}

} // verus!
