//! The fetch call: what request a script asks for.
//!
//! A script passes either the address itself or a descriptor with the
//! members `url`, `method` and `body`. This module reads the argument; the
//! request itself is made outside the library.

use vstd::prelude::*;
use vstd::string::StringExecFns;
use crate::error::Error;
use crate::value::{
    find_member, lemma_object_view, lemma_position_of, member_value, members_view, Json, Member,
    Value,
};

verus! {

/// The body of a request.
#[derive(Debug)]
pub enum FetchBody {
    /// No body.
    Empty,
    /// The given text.
    Text(String),
    /// The given object, to be sent as JSON.
    Json(Value),
}

/// A request that a script asks for.
#[derive(Debug)]
pub struct FetchRequest {
    pub url: String,
    pub method: String,
    pub body: FetchBody,
}

/// The mathematical view of a [`FetchBody`].
pub enum FetchBodyView {
    Empty,
    Text(Seq<char>),
    Json(Json),
}

/// The mathematical view of a [`FetchRequest`].
pub struct FetchRequestView {
    pub url: Seq<char>,
    pub method: Seq<char>,
    pub body: FetchBodyView,
}

impl View for FetchBody {
    type V = FetchBodyView;

    open spec fn view(&self) -> FetchBodyView {
        match self {
            FetchBody::Empty => FetchBodyView::Empty,
            FetchBody::Text(s) => FetchBodyView::Text(s@),
            FetchBody::Json(v) => FetchBodyView::Json(v@),
        }
    }
}

impl View for FetchRequest {
    type V = FetchRequestView;

    open spec fn view(&self) -> FetchRequestView {
        FetchRequestView { url: self.url@, method: self.method@, body: self.body@ }
    }
}

/// The text under `key`, if the key occurs and holds text.
pub open spec fn text_member(members: Seq<(Seq<char>, Json)>, key: Seq<char>) -> Option<Seq<char>> {
    match member_value(members, key) {
        Some(Json::String(s)) => Some(s),
        _ => None,
    }
}

/// The body that a descriptor asks for: the text or the object under
/// `body`, and none where that member is absent or of another kind.
pub open spec fn body_of(members: Seq<(Seq<char>, Json)>) -> FetchBodyView {
    match member_value(members, "body"@) {
        Some(Json::String(s)) => FetchBodyView::Text(s),
        Some(Json::Object(o)) => FetchBodyView::Json(Json::Object(o)),
        _ => FetchBodyView::Empty,
    }
}

/// The request that an argument asks for, if it asks for one.
///
/// Text is the address of a `get` request without a body. A descriptor
/// needs text under `url`; its method is the text under `method`, or `get`
/// where there is none.
pub open spec fn request_of(args: Json) -> Option<FetchRequestView> {
    match args {
        Json::String(url) => Some(
            FetchRequestView { url, method: "get"@, body: FetchBodyView::Empty },
        ),
        Json::Object(members) => match text_member(members, "url"@) {
            Some(url) => Some(
                FetchRequestView {
                    url,
                    method: match text_member(members, "method"@) {
                        Some(m) => m,
                        None => "get"@,
                    },
                    body: body_of(members),
                },
            ),
            None => None,
        },
        _ => None,
    }
}

/// The message of the failure that an argument without a request gives: a
/// descriptor lacks its address, any other argument is of a kind that asks
/// for nothing.
pub open spec fn failure_message(args: Json) -> Seq<char> {
    if args is Object {
        "args should include url"@
    } else {
        "Not supported value type"@
    }
}

/// Finds the value under `key`.
fn member<'a>(members: &'a Vec<Member>, key: &str) -> (r: Option<&'a Value>)
    ensures
        match r {
            Some(v) => member_value(members_view(members@), key@) == Some(v@),
            None => member_value(members_view(members@), key@).is_none(),
        },
{
    let k = String::from_str(key);
    match find_member(members, &k) {
        Some(p) => {
            proof {
                lemma_position_of(members_view(members@), key@);
            }
            Some(&members[p].value)
        },
        None => None,
    }
}

/// Finds the text under `key`.
fn text_of<'a>(members: &'a Vec<Member>, key: &str) -> (r: Option<&'a String>)
    ensures
        match r {
            Some(s) => text_member(members_view(members@), key@) == Some(s@),
            None => text_member(members_view(members@), key@).is_none(),
        },
{
    match member(members, key) {
        Some(Value::String(s)) => Some(s),
        _ => None,
    }
}

/// Reads the argument of a fetch call.
///
/// Text and a descriptor with text under `url` give the request that they
/// ask for. Every other argument fails with `FetchFailed`: a descriptor
/// for want of its address, any other kind of value as unsupported.
pub fn fetch_request(args: &Value) -> (r: Result<FetchRequest, Error>)
    ensures
        match request_of(args@) {
            Some(req) => r matches Ok(q) && q@ == req,
            None => r matches Err(Error::FetchFailed { msg }) && msg@ == failure_message(args@),
        },
{
    match args {
        Value::String(url) => Ok(
            FetchRequest {
                url: url.clone(),
                method: String::from_str("get"),
                body: FetchBody::Empty,
            },
        ),
        Value::Object(members) => {
            proof {
                lemma_object_view(*members);
            }
            let url = match text_of(members, "url") {
                Some(url) => url.clone(),
                None => {
                    return Err(
                        Error::FetchFailed { msg: String::from_str("args should include url") },
                    );
                },
            };
            let method = match text_of(members, "method") {
                Some(m) => m.clone(),
                None => String::from_str("get"),
            };
            let body = match member(members, "body") {
                Some(v) => match v {
                    Value::String(s) => FetchBody::Text(s.clone()),
                    Value::Object(_) => FetchBody::Json(v.clone()),
                    _ => FetchBody::Empty,
                },
                None => FetchBody::Empty,
            };
            Ok(FetchRequest { url, method, body })
        },
        _ => Err(Error::FetchFailed { msg: String::from_str("Not supported value type") }),
    }
}

} // verus!
