use vstd::prelude::*;
use crate::reply::{Reply, ReplyBody, is_text_body};
use crate::stream_body::{MyBody, get_response};
use crate::text::same_text;

verus! {

/// The path under which the counting stream is served.
pub open spec fn api_path() -> Seq<char> {
    "/api"@
}

/// The text of the plain greeting reply.
pub open spec fn greeting() -> Seq<char> {
    "Hello World!"@
}

/// The text served on every path but the stream's.
pub open spec fn fallback_text() -> Seq<char> {
    "hello world boxed full"@
}

/// `HTTP 202 Accepted`.
pub const STATUS_ACCEPTED: u16 = 202;

/// Whether `r` is the reply to the stream's path: `202 Accepted`, the headers
/// `Access-Control-Allow-Origin: *` and `Content-Type: text/plain` in that
/// order, and a counting body that has sent nothing yet.
pub open spec fn is_stream_reply(r: Reply) -> bool {
    &&& r.status == STATUS_ACCEPTED
    &&& r.headers@.len() == 2
    &&& r.headers@[0].0@ == "Access-Control-Allow-Origin"@
    &&& r.headers@[0].1@ == "*"@
    &&& r.headers@[1].0@ == "Content-Type"@
    &&& r.headers@[1].1@ == "text/plain"@
    &&& r.body matches ReplyBody::Counter(b) && b.count() == 0
}

/// The reply of the plain greeting service: `200 OK`, no headers, `"Hello World!"`.
pub fn hello() -> (r: Reply)
    ensures
        r.status == 200,
        r.headers@.len() == 0,
        is_text_body(r.body, greeting()),
{
    Reply::ok_text(String::from_str("Hello World!"))
}

/// The reply of the counting service to a request for `path`: the counting
/// stream on `/api`, the fixed text `"hello world boxed full"` with `200 OK`
/// and no headers anywhere else.
pub fn my_count(path: &str) -> (r: Reply)
    ensures
        path@ == api_path() ==> is_stream_reply(r),
        path@ != api_path() ==> r.status == 200 && r.headers@.len() == 0 && is_text_body(
            r.body,
            fallback_text(),
        ),
{
    if same_text(path, "/api") {
        let mut headers: Vec<(String, String)> = Vec::new();
        headers.push((String::from_str("Access-Control-Allow-Origin"), String::from_str("*")));
        headers.push((String::from_str("Content-Type"), String::from_str("text/plain")));
        let body: MyBody = get_response();
        Reply { status: STATUS_ACCEPTED, headers, body: ReplyBody::Counter(body) }
    } else {
        Reply::ok_text(String::from_str("hello world boxed full"))
    }
}

} // verus!
