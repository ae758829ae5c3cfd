use vstd::prelude::*;
use crate::progress::Progress;

verus! {

/// A future that is ready at once with the value it holds.
pub struct ReturnFuture<T>(Option<T>);

/// One poll of a `ReturnFuture` holding `held`: the answer and what it holds afterwards.
pub open spec fn return_poll<T>(held: Option<T>) -> (Progress<T>, Option<T>)
    recommends
        held is Some,
{
    (Progress::Ready(held->0), None)
}

impl<T> ReturnFuture<T> {
    /// A future that will yield `x`.
    pub fn new(x: T) -> (f: Self)
        ensures
            f.held() == Some(x),
    {
        ReturnFuture(Some(x))
    }

    /// The value still to be yielded, if any.
    pub closed spec fn held(&self) -> Option<T> {
        self.0
    }

    /// Whether the value has not been yielded yet.
    pub fn is_unpolled(&self) -> (r: bool)
        ensures
            r == (self.held() is Some),
    {
        self.0.is_some()
    }

    /// Polls the future: it is ready with its value, which it gives up.
    /// A second poll is a misuse (it would panic).
    pub fn poll(&mut self) -> (r: Progress<T>)
        requires
            old(self).held() is Some,
        ensures
            (r, final(self).held()) == return_poll(old(self).held()),
    {
        let elem = self.0.take().unwrap();
        Progress::Ready(elem)
    }
}

/// The first poll of `ReturnFuture::new(x)` is ready with `x`, and leaves it empty.
pub proof fn lemma_return_future_yields_its_value<T>(x: T)
    ensures
        return_poll(Some(x)) == (Progress::Ready(x), None::<T>),
{
}

} // verus!
