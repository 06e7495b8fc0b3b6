//! The errors of opening a library and of looking up its symbols.

use vstd::prelude::*;
use vstd::string::StringExecFns;

verus! {

/// An error of the dynamic library service.
#[derive(Debug, PartialEq, Eq)]
pub enum Error {
    /// The library could not be opened.
    OpeningLibraryError(String),
    /// The symbol could not be found.
    SymbolNotFound(String),
}

/// Model of an error of the dynamic library service.
pub enum ErrorView {
    OpeningLibraryError(Seq<char>),
    SymbolNotFound(Seq<char>),
}

impl View for Error {
    type V = ErrorView;

    open spec fn view(&self) -> ErrorView {
        match self {
            Error::OpeningLibraryError(msg) => ErrorView::OpeningLibraryError(msg@),
            Error::SymbolNotFound(symbol) => ErrorView::SymbolNotFound(symbol@),
        }
    }
}

/// The message of an error.
pub open spec fn error_text(e: ErrorView) -> Seq<char> {
    match e {
        ErrorView::OpeningLibraryError(msg) => "Could not open library: "@ + msg,
        ErrorView::SymbolNotFound(symbol) => "Symbol `"@ + symbol + "` not found"@,
    }
}

impl Error {
    /// The message of this error.
    pub fn message(&self) -> (r: String)
        ensures
            r@ == error_text(self@),
    {
        match self {
            Error::OpeningLibraryError(msg) => {
                let mut out = String::from_str("Could not open library: ");
                out.append(msg.as_str());
                out
            },
            Error::SymbolNotFound(symbol) => {
                let mut out = String::from_str("Symbol `");
                out.append(symbol.as_str());
                out.append("` not found");
                out
            },
        }
    }
}

} // verus!
