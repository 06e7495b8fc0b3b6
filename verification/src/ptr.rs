//! An address received from a native library, which may be null.

use vstd::prelude::*;

verus! {

/// An address that is only read through.
#[derive(Debug, Clone, Copy)]
pub struct RowPtr {
    ptr: usize,
}

impl View for RowPtr {
    type V = usize;

    closed spec fn view(&self) -> usize {
        self.ptr
    }
}

impl RowPtr {
    /// Holds an address without looking at it.
    pub fn new(ptr: usize) -> (r: Self)
        ensures
            r@ == ptr,
    {
        Self { ptr }
    }

    /// Whether the address is null.
    pub fn is_null(&self) -> (r: bool)
        ensures
            r == (self@ == 0),
    {
        self.ptr == 0
    }

    /// The address, unless it is null.
    pub fn into_option(self) -> (r: Option<usize>)
        ensures
            r == (if self@ == 0 { None } else { Some(self@) }),
    {
        if self.ptr == 0 {
            None
        } else {
            Some(self.ptr)
        }
    }
}

} // verus!
