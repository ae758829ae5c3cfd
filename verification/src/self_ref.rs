use vstd::prelude::*;

verus! {

/// The address at which `x` lies, from `std::ptr::from_ref(x).addr()`.
/// Where a value lies is up to the machine, so the only claim is the one std
/// documents for every reference: it is not null.
#[verifier::external_body]
fn location_of<T>(x: &T) -> (a: usize)
    ensures
        a != 0,
{
    std::ptr::from_ref(x).addr()
}

/// A value together with the address at which it lay when that address was
/// last recorded.  Moving the struct moves the value and leaves the record behind.
pub struct SelfRef<T> {
    x: T,
    x_ptr: usize,
}

impl<T> SelfRef<T> {
    /// Holds `x` and records where it lies inside the new struct.
    pub fn new(x: T) -> (r: SelfRef<T>)
        ensures
            r.value() == x,
            r.recorded() != 0,
    {
        let mut this = SelfRef { x: x, x_ptr: 0 };
        this.x_ptr = location_of(&this.x);
        this
    }

    /// The value held.
    pub closed spec fn value(&self) -> T {
        self.x
    }

    /// The recorded address.
    pub closed spec fn recorded(&self) -> usize {
        self.x_ptr
    }

    /// The value held.
    pub fn x(&self) -> (r: &T)
        ensures
            *r == self.value(),
    {
        &self.x
    }

    /// The recorded address.
    pub fn recorded_location(&self) -> (a: usize)
        ensures
            a == self.recorded(),
    {
        self.x_ptr
    }

    /// Records where the value lies now.
    pub fn set_ptr(&mut self)
        ensures
            final(self).value() == old(self).value(),
            final(self).recorded() != 0,
    {
        self.x_ptr = location_of(&self.x);
    }

    /// Whether `here` is the recorded address.
    pub fn is_recorded_at(&self, here: usize) -> (r: bool)
        ensures
            r == (here == self.recorded()),
    {
        here == self.x_ptr
    }

    /// Whether the value still lies where it was recorded: its address now,
    /// which the machine decides, compared with the record.
    pub fn is_same(&self) -> (r: bool)
        ensures
            r ==> self.recorded() != 0,
    {
        let here = location_of(&self.x);
        self.is_recorded_at(here)
    }
}

} // verus!
