//! A cell holding one register or shared-memory value, read and written as a whole.
use vstd::prelude::*;

verus! {

/// A wrapper around a value that is only ever read or written as a whole copy,
/// as a device register is.
pub struct Volatile<T: Copy>(T);

impl<T: Copy> View for Volatile<T> {
    type V = T;

    closed spec fn view(&self) -> T {
        self.0
    }
}

impl<T: Copy> Volatile<T> {
    /// Wraps the given value.
    pub fn new(value: T) -> (r: Volatile<T>)
        ensures
            r@ == value,
    {
        Volatile(value)
    }

    /// Returns a copy of the contained value.
    pub fn read(&self) -> (r: T)
        ensures
            r == self@,
    {
        self.0
    }

    /// Replaces the contained value.
    pub fn write(&mut self, value: T)
        ensures
            final(self)@ == value,
    {
        self.0 = value;
    }

    /// Reads the value, lets `f` change it, and writes the result back.
    pub fn update<F>(&mut self, f: F)
        where
            F: FnOnce(&mut T),
        requires
            forall|v: &mut T| *v == old(self)@ ==> f.requires((v,)),
        ensures
            exists|v: &mut T| *v == old(self)@ && f.ensures((v,), ()) && final(self)@ == *final(v),
    {
        let mut value = self.read();
        f(&mut value);
        self.write(value);
    }
}

impl<T: Copy> Clone for Volatile<T> {
    fn clone(&self) -> (r: Self)
        ensures
            r@ == self@,
    {
        Volatile(self.read())
    }
}

} // verus!
