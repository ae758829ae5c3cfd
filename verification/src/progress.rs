use vstd::prelude::*;

verus! {

/// The outcome of polling one of the hand-written futures of this crate:
/// either the final value, or a request to be polled again.
pub enum Progress<T> {
    Ready(T),
    Pending,
}

impl<T> Progress<T> {
    /// Whether the future has finished.
    pub fn is_ready(&self) -> (r: bool)
        ensures
            r == (self is Ready),
    {
        match self {
            Progress::Ready(_) => true,
            Progress::Pending => false,
        }
    }
}

} // verus!
