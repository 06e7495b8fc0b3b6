//! A value obtained from a library, kept apart from values of other origin.

use vstd::prelude::*;

verus! {

/// A symbol of a library.
#[derive(Debug)]
pub struct Symbol<T> {
    symbol: T,
}

impl<T: Clone> Clone for Symbol<T> {
    fn clone(&self) -> (r: Self) {
        Self { symbol: self.symbol.clone() }
    }
}

impl<T: Copy> Copy for Symbol<T> {

}

impl<T> View for Symbol<T> {
    type V = T;

    closed spec fn view(&self) -> T {
        self.symbol
    }
}

impl<T> Symbol<T> {
    /// Wraps a value.
    pub fn new(symbol: T) -> (r: Self)
        ensures
            r@ == symbol,
    {
        Self { symbol }
    }

    /// The value.
    pub fn get(&self) -> (r: &T)
        ensures
            *r == self@,
    {
        &self.symbol
    }

    /// The value, for writing.
    pub fn get_mut(&mut self) -> (r: &mut T)
        ensures
            *r == old(self)@,
            final(self)@ == *final(r),
    {
        &mut self.symbol
    }

    /// Unwraps the value.
    pub fn into_inner(self) -> (r: T)
        ensures
            r == self@,
    {
        self.symbol
    }
}

} // verus!
