use vstd::prelude::*;

verus! {

/// A plain function that returns 1.
pub fn fi32() -> (r: i32)
    ensures
        r == 1,
{
    1
}

/// A `Fn` closure that returns 1, called twice: it answers the same both times.
pub fn fn_() -> (r: (i32, i32))
    ensures
        r == (1i32, 1i32),
{
    let f = || -> (v: i32)
        ensures
            v == 1,
        { 1 };
    let first = f();
    let second = f();
    (first, second)
}

/// A counter that a `FnMut` closure captures by mutable borrow: each call
/// adds one to it and returns it.
pub struct Captured {
    pub i: i32,
}

impl Captured {
    /// One call of the closure.
    pub fn call_mut(&mut self) -> (r: i32)
        requires
            old(self).i < i32::MAX,
        ensures
            r == old(self).i + 1,
            final(self).i == r,
    {
        self.i = self.i + 1;
        self.i
    }
}

/// A `FnMut` closure over a counter that starts at 1, called twice: the
/// calls see 2 and then 3, as the captured counter goes up.
pub fn fn_mut_() -> (r: (i32, i32))
    ensures
        r == (2i32, 3i32),
{
    let mut captured = Captured { i: 1 };
    let first = captured.call_mut();
    let second = captured.call_mut();
    (first, second)
}

/// A `FnOnce` closure that takes a counter of 1, adds one and returns it,
/// called its one time.
pub fn fn_once_() -> (r: i32)
    ensures
        r == 2,
{
    let i: i32 = 1;
    let f = move || -> (v: i32)
        ensures
            v == i + 1,
        {
            let mut j: i32 = i;
            j = j + 1;
            j
        };
    f()
}

} // verus!
