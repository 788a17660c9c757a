//! The payload decoder: from the raw body of an invocation to a request.

use vstd::prelude::*;
use vstd::string::*;
use crate::json::{json_parse, parse_document, string_member};
use crate::model::{ContactRequest, ContactRequestView, DecodeError, DecodeErrorView};

verus! {

/// The body of an invocation as contracts see it: absent, or its bytes.
pub open spec fn body_view(raw_body: Option<&[u8]>) -> Option<Seq<u8>> {
    match raw_body {
        Some(bytes) => Some(bytes@),
        None => None,
    }
}

/// A decoder's result as contracts see it.
pub open spec fn decoded_view(res: Result<ContactRequest, DecodeError>) -> Result<
    ContactRequestView,
    DecodeErrorView,
> {
    match res {
        Ok(request) => Ok(request@),
        Err(error) => Err(error@),
    }
}

/// An optional string as contracts see it.
pub open spec fn text_view(text: Option<String>) -> Option<Seq<char>> {
    match text {
        Some(s) => Some(s@),
        None => None,
    }
}

/// The member of `members` under `key`, if it has one.
pub open spec fn member_of(members: Map<Seq<char>, Seq<char>>, key: Seq<char>) -> Option<
    Seq<char>,
> {
    if members.contains_key(key) {
        Some(members[key])
    } else {
        None
    }
}

/// The request that two optional members make: both are required, and the
/// first one that is absent is named in the diagnostic.
pub open spec fn request_of(first: Option<Seq<char>>, last: Option<Seq<char>>) -> Result<
    ContactRequestView,
    DecodeErrorView,
> {
    match (first, last) {
        (Some(f), Some(l)) => Ok(ContactRequestView { first_name: f, last_name: l }),
        (None, _) => Err(DecodeErrorView::Malformed("missing string field first_name"@)),
        (Some(_), None) => Err(DecodeErrorView::Malformed("missing string field last_name"@)),
    }
}

/// What decoding gives for a body, over what the parser makes of its bytes.
pub open spec fn decode_spec(body: Option<Seq<u8>>) -> Result<ContactRequestView, DecodeErrorView> {
    match body {
        None => Err(DecodeErrorView::Missing),
        Some(bytes) => match json_parse(bytes) {
            Err(text) => Err(DecodeErrorView::Malformed(text)),
            Ok(members) => request_of(
                member_of(members, "first_name"@),
                member_of(members, "last_name"@),
            ),
        },
    }
}

/// Builds the request from the two members that were found in the document.
pub fn request_from_members(first: Option<String>, last: Option<String>) -> (res: Result<
    ContactRequest,
    DecodeError,
>)
    ensures
        decoded_view(res) == request_of(text_view(first), text_view(last)),
{
    match first {
        None => Err(DecodeError::Malformed(String::from_str("missing string field first_name"))),
        Some(first_name) => match last {
            None => Err(
                DecodeError::Malformed(String::from_str("missing string field last_name")),
            ),
            Some(last_name) => Ok(ContactRequest { first_name, last_name }),
        },
    }
}

/// Decodes the raw body of an invocation. An absent body is `Missing`; bytes
/// that are no JSON document, or a document without the two string members
/// `first_name` and `last_name`, are `Malformed`; other members are ignored.
pub fn decode(raw_body: Option<&[u8]>) -> (res: Result<ContactRequest, DecodeError>)
    ensures
        decoded_view(res) == decode_spec(body_view(raw_body)),
{
    match raw_body {
        None => Err(DecodeError::Missing),
        Some(bytes) => match parse_document(bytes) {
            Err(text) => Err(DecodeError::Malformed(text)),
            Ok(doc) => {
                let first = string_member(&doc, "first_name");
                let last = string_member(&doc, "last_name");
                request_from_members(first, last)
            },
        },
    }
}

} // verus!
