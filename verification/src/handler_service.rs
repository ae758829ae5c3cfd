use vstd::prelude::*;
use vstd::utf8::{valid_utf8, decode_utf8};
use crate::reply::{Reply, is_text_body};

verus! {

/// The text that `String::from_utf8_lossy` makes of `bytes`.
pub uninterp spec fn lossy_text(bytes: Seq<u8>) -> Seq<char>;

/// The text that `{:?}` prints for the string `s`.
pub uninterp spec fn debug_text(s: Seq<char>) -> Seq<char>;

/// Calls `String::from_utf8_lossy`.  Claims that the result is `lossy_text`
/// of the bytes and, as std documents, that valid UTF-8 comes back decoded
/// unchanged.  What invalid sequences become is left to the name.
#[verifier::external_body]
fn utf8_lossy(bytes: &[u8]) -> (r: String)
    ensures
        r@ == lossy_text(bytes@),
        valid_utf8(bytes@) ==> r@ == decode_utf8(bytes@),
{
    String::from_utf8_lossy(bytes).into_owned()
}

/// Formats a string with `{:?}` (quoted, with escapes).  Claims only that the
/// result is `debug_text` of the string.
#[verifier::external_body]
fn debug_quoted(s: &str) -> (r: String)
    ensures
        r@ == debug_text(s@),
{
    format!("{:?}", s)
}

/// The words between the inner body and the timestamp.
pub open spec fn with_separator() -> Seq<char> {
    " with "@
}

/// A service that answers with a fixed text.
#[derive(Clone)]
pub struct Base {
    s: String,
}

impl Base {
    /// A service that answers with `s`.
    pub fn new(s: String) -> (b: Self)
        ensures
            b.text() == s@,
    {
        Base { s }
    }

    /// The text it answers with.
    pub closed spec fn text(&self) -> Seq<char> {
        self.s@
    }

    /// The answer to a request: `200 OK`, no headers, its text.
    pub fn call(&self) -> (r: Reply)
        ensures
            r.status == 200,
            r.headers@.len() == 0,
            is_text_body(r.body, self.text()),
    {
        let s = self.s.clone();
        Reply::ok_text(s)
    }
}

/// Joins a rendered body and a rendered timestamp: `"<body> with <time>"`.
pub fn join_with_time(body: &str, time: &str) -> (r: String)
    ensures
        r@ == body@ + with_separator() + time@,
{
    let r = String::from_str(body).concat(" with ").concat(time);
    r
}

/// A service that wraps another and appends to its answer the time at which
/// the wrapper was made.
#[derive(Clone)]
pub struct TimeWith<T> {
    inner_future: T,
    from_time: String,
}

impl<T> TimeWith<T> {
    /// Wraps `inner`; `from_time` is the `{:?}` rendering of the moment of wrapping.
    pub fn new(inner: T, from_time: String) -> (t: Self)
        ensures
            t.inner() == inner,
            t.from_time() == from_time@,
    {
        TimeWith { inner_future: inner, from_time }
    }

    /// The wrapped service.
    pub closed spec fn inner(&self) -> T {
        self.inner_future
    }

    /// The rendered timestamp.
    pub closed spec fn from_time(&self) -> Seq<char> {
        self.from_time@
    }

    /// The wrapped service, to be called.
    pub fn inner_mut(&mut self) -> (r: &mut T)
        ensures
            *r == old(self).inner(),
            final(self).inner() == *final(r),
            final(self).from_time() == old(self).from_time(),
    {
        &mut self.inner_future
    }

    /// The answer, given the collected body of the wrapped service's answer:
    /// `200 OK`, no headers, and the body read as UTF-8 (lossily), quoted
    /// with `{:?}`, followed by `" with "` and the timestamp.
    pub fn rebuild(&self, inner_body: &[u8]) -> (r: Reply)
        ensures
            r.status == 200,
            r.headers@.len() == 0,
            is_text_body(
                r.body,
                debug_text(lossy_text(inner_body@)) + with_separator() + self.from_time(),
            ),
    {
        let text = utf8_lossy(inner_body);
        let quoted = debug_quoted(text.as_str());
        Reply::ok_text(join_with_time(quoted.as_str(), self.from_time.as_str()))
    }
}

} // verus!
