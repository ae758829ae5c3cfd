use vstd::prelude::*;
use crate::reply::{Reply, is_text_body};

verus! {

/// The text that a [`Base`] answers with.
pub open spec fn base_text() -> Seq<char> {
    "abc"@
}

/// Whether `r` is the answer of a [`Base`]: `200 OK`, no headers, body `"abc"`.
pub open spec fn is_base_reply(r: Reply) -> bool {
    &&& r.status == 200
    &&& r.headers@.len() == 0
    &&& is_text_body(r.body, base_text())
}

/// A service that answers every request with `"abc"`.
pub struct Base {}

impl Base {
    /// The answer to a request.
    pub fn call(&self) -> (r: Reply)
        ensures
            is_base_reply(r),
    {
        Reply::ok_text(String::from_str("abc"))
    }
}

/// A service that hands every request on to the [`Base`] it wraps.
pub struct Sub {
    base: Base,
}

impl Sub {
    /// Wraps `base`.
    pub fn new(base: Base) -> (s: Self)
        ensures
            s.base() == base,
    {
        Self { base }
    }

    /// The wrapped service.
    pub closed spec fn base(&self) -> Base {
        self.base
    }

    /// The answer to a request: whatever the wrapped [`Base`] answers.
    pub fn call(&self) -> (r: Reply)
        ensures
            is_base_reply(r),
    {
        self.base.call()
    }
}

} // verus!
