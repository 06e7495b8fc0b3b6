//! What is decided around the calls that open a library and look up a
//! symbol: which names are accepted, and what a null result means.

use vstd::prelude::*;
use vstd::string::StringExecFns;
use vstd::utf8::{decode_utf8, valid_utf8};
use crate::error::{Error, ErrorView};
use crate::mut_ptr::RowPtrMut;
use crate::text::{lossy_string, lossy_text};

verus! {

/// The handle of an open library. It is never null.
#[derive(Debug)]
pub struct Library {
    handle: usize,
}

impl View for Library {
    type V = usize;

    closed spec fn view(&self) -> usize {
        self.handle
    }
}

/// The error for a library that could not be opened under the name shown.
pub open spec fn open_failure(shown: Seq<char>) -> ErrorView {
    ErrorView::OpeningLibraryError("`"@ + shown + "`"@)
}

impl Library {
    #[verifier::type_invariant]
    spec fn not_null(&self) -> bool {
        self.handle != 0
    }

    /// Wraps a handle; a null handle is an error.
    pub fn new(handle: usize) -> (r: Result<Self, Error>)
        ensures
            match r {
                Ok(lib) => handle != 0 && lib@ == handle,
                Err(e) => handle == 0 && e@ == ErrorView::OpeningLibraryError(
                    "Cannot create `Library` from null pointer."@,
                ),
            },
    {
        match RowPtrMut::new(handle).into_option() {
            Some(handle) => Ok(Self { handle }),
            None => Err(
                Error::OpeningLibraryError(
                    String::from_str("Cannot create `Library` from null pointer."),
                ),
            ),
        }
    }

    /// Checks a library name before it is opened: it must not be empty.
    pub fn check_name(name: &[u8]) -> (r: Result<(), Error>)
        ensures
            match r {
                Ok(_) => name@.len() > 0,
                Err(e) => name@.len() == 0 && e@ == ErrorView::OpeningLibraryError(
                    "The library name must not be empty."@,
                ),
            },
    {
        if name.len() > 0 {
            Ok(())
        } else {
            Err(Error::OpeningLibraryError(String::from_str("The library name must not be empty.")))
        }
    }

    /// The library for the handle that opening returned, given the name as
    /// it is shown: a null handle is an error that quotes the name.
    pub fn opened_as(shown: &str, handle: usize) -> (r: Result<Self, Error>)
        ensures
            match r {
                Ok(lib) => handle != 0 && lib@ == handle,
                Err(e) => handle == 0 && e@ == open_failure(shown@),
            },
    {
        match Self::new(handle) {
            Ok(lib) => Ok(lib),
            Err(_) => {
                let mut msg = String::from_str("`");
                msg.append(shown);
                msg.append("`");
                Err(Error::OpeningLibraryError(msg))
            },
        }
    }

    /// The library for the handle that opening `name` returned.
    pub fn opened(name: &[u8], handle: usize) -> (r: Result<Self, Error>)
        ensures
            match r {
                Ok(lib) => handle != 0 && lib@ == handle,
                Err(e) => handle == 0 && e@ == open_failure(lossy_text(name@)) && (valid_utf8(
                    name@,
                ) ==> e@ == open_failure(decode_utf8(name@))),
            },
    {
        let shown = lossy_string(name);
        Self::opened_as(shown.as_str(), handle)
    }

    /// The address that a lookup returned, given the symbol name as it is
    /// shown: a null address means that the symbol was not found.
    pub fn symbol_as(shown: &str, address: usize) -> (r: Result<usize, Error>)
        ensures
            match r {
                Ok(found) => address != 0 && found == address,
                Err(e) => address == 0 && e@ == ErrorView::SymbolNotFound(shown@),
            },
    {
        match RowPtrMut::new(address).into_option() {
            Some(found) => Ok(found),
            None => Err(Error::SymbolNotFound(shown.to_owned())),
        }
    }

    /// The address that the lookup of `name` returned.
    pub fn symbol(name: &[u8], address: usize) -> (r: Result<usize, Error>)
        ensures
            match r {
                Ok(found) => address != 0 && found == address,
                Err(e) => address == 0 && e@ == ErrorView::SymbolNotFound(lossy_text(name@))
                    && (valid_utf8(name@) ==> e@ == ErrorView::SymbolNotFound(
                    decode_utf8(name@),
                )),
            },
    {
        let shown = lossy_string(name);
        Self::symbol_as(shown.as_str(), address)
    }

    /// The handle, which is not null.
    pub fn handle(&self) -> (r: usize)
        ensures
            r == self@,
            r != 0,
    {
        proof {
            use_type_invariant(self);
        }
        self.handle
    }
}

} // verus!
