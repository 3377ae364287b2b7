//! Reading JSON texts by way of the `serde_json` crate.

use crate::text::characters;
use serde_json::from_str;
use serde_json::value::RawValue;
use std::collections::BTreeMap;
use vstd::prelude::*;
use vstd::string::*;

verus! {

/// The JSON text of the member of this name, by its last occurrence, in the
/// object that `serde_json::from_str` reads in a text; `None` where the text is
/// no JSON object or has no such member.
pub uninterp spec fn json_member(text: Seq<char>, name: Seq<char>) -> Option<Seq<char>>;

/// The characters of the string that `serde_json::from_str` reads in a text;
/// `None` where the text is no JSON string.
pub uninterp spec fn json_string(text: Seq<char>) -> Option<Seq<char>>;

/// The integer that `serde_json::from_str` reads in a text as an `i32`; `None`
/// where it reads none.
pub uninterp spec fn json_i32(text: Seq<char>) -> Option<i32>;

/// The integer that `serde_json::from_str` reads in a text as a `u64`; `None`
/// where it reads none.
pub uninterp spec fn json_u64(text: Seq<char>) -> Option<u64>;

/// What stands in front of position `i` of an object's text, closed.
pub open spec fn front(object: Seq<char>, i: int) -> Seq<char> {
    object.take(i) + "}"@
}

/// What stands behind position `i` of an object's text, opened.
pub open spec fn rest(object: Seq<char>, i: int) -> Seq<char> {
    "{"@ + object.skip(i + 1)
}

/// Whether a cut at position `i` of an object's text, at a comma, leaves an
/// object with a member of this name on either side. A comma inside a member
/// leaves no object in front of it.
pub open spec fn repeated_across(object: Seq<char>, name: Seq<char>, i: int) -> bool {
    &&& object[i] == ','
    &&& json_member(front(object, i), name) is Some
    &&& json_member(rest(object, i), name) is Some
}

/// Whether an object has two members or more of this name.
pub open spec fn repeated(object: Seq<char>, name: Seq<char>) -> bool {
    exists|i: int| 0 <= i < object.len() && #[trigger] repeated_across(object, name, i)
}

/// Finds a member of a JSON object.
///
/// Trusted: `serde_json::from_str` as an ordered map to raw values. What it
/// gives is a function of the text.
#[verifier::external_body]
pub(crate) fn parse_json_member(text: &str, name: &str) -> (member: Option<String>)
    ensures
        crate::text::optional(member) == json_member(text@, name@),
{
    let object: BTreeMap<String, Box<RawValue>> = from_str(text).ok()?;
    object.get(name).map(|member| member.get().to_string())
}

/// Reads a JSON string.
///
/// Trusted: `serde_json::from_str` as a `String`. What it gives is a function
/// of the text.
#[verifier::external_body]
pub(crate) fn parse_json_string(text: &str) -> (string: Option<String>)
    ensures
        crate::text::optional(string) == json_string(text@),
{
    from_str(text).ok()
}

/// Reads a JSON integer.
///
/// Trusted: `serde_json::from_str` as an `i32`. What it gives is a function of
/// the text.
#[verifier::external_body]
pub(crate) fn parse_json_i32(text: &str) -> (number: Option<i32>)
    ensures
        number == json_i32(text@),
{
    from_str(text).ok()
}

/// Reads a JSON integer.
///
/// Trusted: `serde_json::from_str` as a `u64`. What it gives is a function of
/// the text.
#[verifier::external_body]
pub(crate) fn parse_json_u64(text: &str) -> (number: Option<u64>)
    ensures
        number == json_u64(text@),
{
    from_str(text).ok()
}

/// Whether a JSON object has two members or more of this name.
pub fn is_repeated(object: &str, name: &str) -> (found: bool)
    ensures
        found == repeated(object@, name@),
{
    let chars: Vec<char> = characters(object);
    let mut i: usize = 0;
    while i < chars.len()
        invariant
            chars@ == object@,
            i <= chars.len(),
            forall|k: int| 0 <= k < i ==> !#[trigger] repeated_across(object@, name@, k),
        decreases chars.len() - i,
    {
        if chars[i] == ',' {
            let front: String = object.substring_char(0, i).to_owned().concat("}");
            let rest: String = "{".to_owned().concat(object.substring_char(i + 1, chars.len()));
            assert(front@ == self::front(object@, i as int));
            assert(rest@ == self::rest(object@, i as int));
            if parse_json_member(front.as_str(), name).is_some() && parse_json_member(
                rest.as_str(),
                name,
            ).is_some() {
                assert(repeated_across(object@, name@, i as int));
                return true;
            }
        }
        i += 1;
    }
    false
}

} // verus!
