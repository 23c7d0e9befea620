//! Reading the members of a JSON object by name.
//!
//! Each reader comes as a spec function on the model of the object and as an
//! executable function that computes it. The outer `Option` of a result says
//! whether the member has a shape that the reader accepts; an inner `Option`
//! says whether the member is there at all.
use crate::json::{
    find_member, member, member_views, JsonMember, JsonMemberView, JsonValue, JsonView,
};
use crate::responses::{decode_response, Response, ResponseView};
use vstd::prelude::*;
use vstd::string::*;

verus! {

/// The member called `key` where it is there and not `null`.
pub open spec fn optional(members: Seq<JsonMemberView>, key: Seq<char>) -> Option<JsonView> {
    match member(members, key) {
        Some(JsonView::Null) => None,
        other => other,
    }
}

/// A text that may be missing: absent or `null` gives no text, a text gives
/// itself, anything else is not accepted.
pub open spec fn opt_text(members: Seq<JsonMemberView>, key: Seq<char>) -> Option<
    Option<Seq<char>>,
> {
    match optional(members, key) {
        None => Some(None),
        Some(JsonView::Text(s)) => Some(Some(s)),
        Some(_) => None,
    }
}

/// A text that has to be there.
pub open spec fn req_text(members: Seq<JsonMemberView>, key: Seq<char>) -> Option<Seq<char>> {
    match member(members, key) {
        Some(JsonView::Text(s)) => Some(s),
        _ => None,
    }
}

/// A loosely typed value that has to be there.
pub open spec fn req_response(members: Seq<JsonMemberView>, key: Seq<char>) -> Option<
    ResponseView,
> {
    match member(members, key) {
        Some(v) => decode_response(v),
        None => None,
    }
}

/// A loosely typed value that may be missing.
pub open spec fn opt_response(members: Seq<JsonMemberView>, key: Seq<char>) -> Option<
    Option<ResponseView>,
> {
    match optional(members, key) {
        None => Some(None),
        Some(v) => match decode_response(v) {
            Some(r) => Some(Some(r)),
            None => None,
        },
    }
}

/// The member called `key` where it is there and not `null`.
pub fn optional_field<'a>(members: &'a Vec<JsonMember>, key: &str) -> (r: Option<&'a JsonValue>)
    ensures
        match r {
            Some(v) => optional(member_views(members@), key@) == Some(v.deep_view()),
            None => optional(member_views(members@), key@) is None,
        },
{
    match find_member(members, key) {
        Some(JsonValue::Null) => None,
        other => other,
    }
}

/// Reads a text that may be missing.
pub fn opt_text_field(members: &Vec<JsonMember>, key: &str) -> (r: Option<Option<String>>)
    ensures
        r.deep_view() == opt_text(member_views(members@), key@),
{
    match optional_field(members, key) {
        None => Some(None),
        Some(JsonValue::Text(s)) => Some(Some(s.clone())),
        Some(_) => None,
    }
}

/// Reads a text that has to be there.
pub fn req_text_field(members: &Vec<JsonMember>, key: &str) -> (r: Option<String>)
    ensures
        r.deep_view() == req_text(member_views(members@), key@),
{
    match find_member(members, key) {
        Some(JsonValue::Text(s)) => Some(s.clone()),
        _ => None,
    }
}

/// Reads a loosely typed value that has to be there.
pub fn req_response_field(members: &Vec<JsonMember>, key: &str) -> (r: Option<Response>)
    ensures
        r.deep_view() == req_response(member_views(members@), key@),
{
    match find_member(members, key) {
        Some(v) => Response::from_json(v),
        None => None,
    }
}

/// Reads a loosely typed value that may be missing.
pub fn opt_response_field(members: &Vec<JsonMember>, key: &str) -> (r: Option<Option<Response>>)
    ensures
        r.deep_view() == opt_response(member_views(members@), key@),
{
    match optional_field(members, key) {
        None => Some(None),
        Some(v) => match Response::from_json(v) {
            Some(x) => Some(Some(x)),
            None => None,
        },
    }
}

/// A copy of a text that may be missing.
pub fn dup_opt_text(o: &Option<String>) -> (r: Option<String>)
    ensures
        r.deep_view() == o.deep_view(),
{
    match o {
        Some(s) => Some(s.clone()),
        None => None,
    }
}

/// The text that is there, or a copy of `fallback`.
pub open spec fn text_or(o: Option<Seq<char>>, fallback: Seq<char>) -> Seq<char> {
    match o {
        Some(s) => s,
        None => fallback,
    }
}

/// The text that is there, or a copy of `fallback`.
pub fn text_or_else(o: &Option<String>, fallback: &str) -> (r: String)
    ensures
        r@ == text_or(o.deep_view(), fallback@),
{
    match o {
        Some(s) => s.clone(),
        None => String::from_str(fallback),
    }
}

} // verus!
