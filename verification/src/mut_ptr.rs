//! An address received from a native library, which may be null and
//! through which the library's data may be written.

use vstd::prelude::*;
use crate::ptr::RowPtr;

verus! {

/// An address that may be written through.
#[derive(Debug, Clone, Copy)]
pub struct RowPtrMut {
    ptr: usize,
}

impl View for RowPtrMut {
    type V = usize;

    closed spec fn view(&self) -> usize {
        self.ptr
    }
}

impl RowPtrMut {
    /// Holds an address without looking at it.
    pub fn new(ptr: usize) -> (r: Self)
        ensures
            r@ == ptr,
    {
        Self { ptr }
    }

    /// Whether the address is null.
    pub fn is_null(&self) -> (r: bool)
        ensures
            r == (self@ == 0),
    {
        self.ptr == 0
    }

    /// The address, unless it is null.
    pub fn into_option(self) -> (r: Option<usize>)
        ensures
            r == (if self@ == 0 { None } else { Some(self@) }),
    {
        if self.ptr == 0 {
            None
        } else {
            Some(self.ptr)
        }
    }

    /// The same address, for reading only.
    pub fn into_const(self) -> (r: RowPtr)
        ensures
            r@ == self@,
    {
        RowPtr::new(self.ptr)
    }
}

} // verus!
