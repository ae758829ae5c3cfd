use vstd::prelude::*;
use crate::stream_body::MyBody;

verus! {

/// The body of an HTTP reply: a fixed text, or an endless stream of counter frames.
pub enum ReplyBody {
    Text(String),
    Counter(MyBody),
}

/// An HTTP reply, held as plain values: status code, headers in order, body.
pub struct Reply {
    pub status: u16,
    pub headers: Vec<(String, String)>,
    pub body: ReplyBody,
}

/// Whether `body` is the text `text`.
pub open spec fn is_text_body(body: ReplyBody, text: Seq<char>) -> bool {
    body matches ReplyBody::Text(s) && s@ == text
}

impl Reply {
    /// A `200 OK` reply with no headers and the given text as its body.
    pub fn ok_text(text: String) -> (r: Reply)
        ensures
            r.status == 200,
            r.headers@.len() == 0,
            r.body == ReplyBody::Text(text),
    {
        Reply { status: 200, headers: Vec::new(), body: ReplyBody::Text(text) }
    }
}

} // verus!
