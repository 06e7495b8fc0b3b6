//! Collects every error found in a schema, so that all are reported together.

use vstd::prelude::*;
use vstd::string::StringExecFns;
use crate::case::{unknown_rule_message, ParseError};
use crate::model::{views, views_push};
use crate::text::{debug_string, debug_text};

verus! {

/// What is wrong with a schema.
#[derive(Copy, Clone, PartialEq, Eq, Structural, Debug)]
pub enum ErrorKind {
    /// An attribute key that is not recognised; the detail is the key.
    UnknownAttribute,
    /// A rename rule that is none of the six; the detail is the text given.
    UnknownRenameRule,
    /// A literal suffix other than `d` and `debug`; the detail is the suffix.
    UnexpectedSuffix,
    /// An attribute that must be a string; the detail is the attribute.
    ExpectedString,
    /// An attribute that must be a boolean; the detail is the attribute.
    ExpectedBool,
    /// An attribute that must be a parenthesised list; the detail is the attribute.
    ExpectedList,
    /// A `symbol` attribute that is neither a literal nor an array.
    ExpectedSymbols,
    /// An element of a `symbol` array that is no string literal.
    InvalidSymbolElement,
    /// A field type that is no function, reference or pointer; the detail is the type.
    UnsupportedType,
    /// The schema is no struct with named fields.
    NotNamedStruct,
}

/// One error of a schema: its kind, and the key, value or type it is about.
#[derive(Debug, PartialEq, Eq)]
pub struct SchemaError {
    pub kind: ErrorKind,
    pub detail: String,
}

/// Model of a schema error.
pub struct ErrorModel {
    pub kind: ErrorKind,
    pub detail: Seq<char>,
}

impl View for SchemaError {
    type V = ErrorModel;

    open spec fn view(&self) -> ErrorModel {
        ErrorModel { kind: self.kind, detail: self.detail@ }
    }
}

/// The errors of the items of a list, in the order of the items: nothing
/// is dropped, and the errors of an item come after those of the items
/// before it.
pub open spec fn gather<T>(items: Seq<T>, errors_of: spec_fn(T) -> Seq<ErrorModel>) -> Seq<
    ErrorModel,
>
    decreases items.len(),
{
    if items.len() == 0 {
        Seq::empty()
    } else {
        gather(items.drop_last(), errors_of) + errors_of(items.last())
    }
}

/// The errors of two lists in a row are those of the first, then those of
/// the second.
pub proof fn gather_concat<T>(a: Seq<T>, b: Seq<T>, errors_of: spec_fn(T) -> Seq<ErrorModel>)
    ensures
        gather(a + b, errors_of) == gather(a, errors_of) + gather(b, errors_of),
    decreases b.len(),
{
    if b.len() > 0 {
        gather_concat(a, b.drop_last(), errors_of);
        assert((a + b).drop_last() =~= a + b.drop_last());
    }
}

/// Every error of every item is reported, whatever is wrong with the items
/// around it: the errors of a list are those of the items before an item,
/// then those of the item, then those of the items after it.
pub proof fn gather_keeps_every_error<T>(
    items: Seq<T>,
    errors_of: spec_fn(T) -> Seq<ErrorModel>,
    i: int,
)
    requires
        0 <= i < items.len(),
    ensures
        gather(items, errors_of) == gather(items.take(i), errors_of) + errors_of(items[i])
            + gather(items.skip(i + 1), errors_of),
{
    let one = seq![items[i]];
    assert(items =~= items.take(i) + one + items.skip(i + 1));
    gather_concat(items.take(i) + one, items.skip(i + 1), errors_of);
    gather_concat(items.take(i), one, errors_of);
    assert(gather(one.drop_last(), errors_of) =~= Seq::<ErrorModel>::empty());
}

/// Whether the errors `part` stand in `all`, together and in their order.
pub open spec fn reports(all: Seq<ErrorModel>, part: Seq<ErrorModel>) -> bool {
    exists|before: Seq<ErrorModel>, after: Seq<ErrorModel>| all == before + part + after
}

/// The errors of each item of a list are among the errors of the list.
pub proof fn gather_reports_each_item<T>(
    items: Seq<T>,
    errors_of: spec_fn(T) -> Seq<ErrorModel>,
    i: int,
)
    requires
        0 <= i < items.len(),
    ensures
        reports(gather(items, errors_of), errors_of(items[i])),
{
    gather_keeps_every_error(items, errors_of, i);
    let before = gather(items.take(i), errors_of);
    let after = gather(items.skip(i + 1), errors_of);
    assert(gather(items, errors_of) == before + errors_of(items[i]) + after);
}

/// What is reported within a part of a report is reported in the whole.
pub proof fn reports_within(all: Seq<ErrorModel>, mid: Seq<ErrorModel>, part: Seq<ErrorModel>)
    requires
        reports(all, mid),
        reports(mid, part),
    ensures
        reports(all, part),
{
    let (b1, a1) = choose|b: Seq<ErrorModel>, a: Seq<ErrorModel>| all == b + mid + a;
    let (b2, a2) = choose|b: Seq<ErrorModel>, a: Seq<ErrorModel>| mid == b + part + a;
    assert(all =~= (b1 + b2) + part + (a2 + a1));
}

/// Both halves of a report are reported.
pub proof fn reports_both(front: Seq<ErrorModel>, back: Seq<ErrorModel>)
    ensures
        reports(front + back, front),
        reports(front + back, back),
{
    let none = Seq::<ErrorModel>::empty();
    assert(front + back =~= none + front + back);
    assert(front + back =~= front + back + none);
}

/// The message of an error; `quoted` is the detail as `Debug` prints it.
pub open spec fn message_text(kind: ErrorKind, detail: Seq<char>, quoted: Seq<char>) -> Seq<char> {
    match kind {
        ErrorKind::UnknownAttribute => "unknown attribute `"@ + detail + "`"@,
        ErrorKind::UnknownRenameRule => unknown_rule_message(quoted),
        ErrorKind::UnexpectedSuffix => "unexpected suffix `"@ + detail + "` on string literal"@,
        ErrorKind::ExpectedString => "expected "@ + detail + " attribute to be a string: `"@
            + detail + " = \"...\"`"@,
        ErrorKind::ExpectedBool => "expected "@ + detail + " attribute to be a bool: `"@ + detail
            + " = false`"@,
        ErrorKind::ExpectedList => "expected "@ + detail + " attribute to be a list: `"@ + detail
            + "(...)`"@,
        ErrorKind::ExpectedSymbols =>
            "expected symbol attribute to be a string or array of strings: `symbol = \"...\"`or `symbol = [\"...\"]`"@,
        ErrorKind::InvalidSymbolElement =>
            "expected string literal in `symbol` array, found invalid element"@,
        ErrorKind::UnsupportedType => "unsupported type: `"@ + detail
            + "`, expected one of function, reference, pointer"@,
        ErrorKind::NotNamedStruct =>
            "`NativeBridge` can only be derived for structs with named fields."@,
    }
}

impl SchemaError {
    /// The message, given the detail as `Debug` prints it.
    pub fn message_with(&self, quoted: &str) -> (r: String)
        ensures
            r@ == message_text(self.kind, self.detail@, quoted@),
    {
        let detail = self.detail.as_str();
        match self.kind {
            ErrorKind::UnknownAttribute => {
                let mut out = String::from_str("unknown attribute `");
                out.append(detail);
                out.append("`");
                out
            },
            ErrorKind::UnknownRenameRule => ParseError::message_with(quoted),
            ErrorKind::UnexpectedSuffix => {
                let mut out = String::from_str("unexpected suffix `");
                out.append(detail);
                out.append("` on string literal");
                out
            },
            ErrorKind::ExpectedString => {
                let mut out = String::from_str("expected ");
                out.append(detail);
                out.append(" attribute to be a string: `");
                out.append(detail);
                out.append(" = \"...\"`");
                out
            },
            ErrorKind::ExpectedBool => {
                let mut out = String::from_str("expected ");
                out.append(detail);
                out.append(" attribute to be a bool: `");
                out.append(detail);
                out.append(" = false`");
                out
            },
            ErrorKind::ExpectedList => {
                let mut out = String::from_str("expected ");
                out.append(detail);
                out.append(" attribute to be a list: `");
                out.append(detail);
                out.append("(...)`");
                out
            },
            ErrorKind::ExpectedSymbols => String::from_str(
                "expected symbol attribute to be a string or array of strings: `symbol = \"...\"`or `symbol = [\"...\"]`",
            ),
            ErrorKind::InvalidSymbolElement => String::from_str(
                "expected string literal in `symbol` array, found invalid element",
            ),
            ErrorKind::UnsupportedType => {
                let mut out = String::from_str("unsupported type: `");
                out.append(detail);
                out.append("`, expected one of function, reference, pointer");
                out
            },
            ErrorKind::NotNamedStruct => String::from_str(
                "`NativeBridge` can only be derived for structs with named fields.",
            ),
        }
    }

    /// The message of this error.
    pub fn message(&self) -> (r: String)
        ensures
            r@ == message_text(self.kind, self.detail@, debug_text(self.detail@)),
    {
        let quoted = debug_string(self.detail.as_str());
        self.message_with(quoted.as_str())
    }
}

/// The errors found so far, in the order in which they were found.
pub struct Ctxt {
    errors: Vec<SchemaError>,
}

impl View for Ctxt {
    type V = Seq<ErrorModel>;

    closed spec fn view(&self) -> Seq<ErrorModel> {
        views(self.errors@)
    }
}

impl Ctxt {
    /// A context without errors.
    pub fn new() -> (r: Self)
        ensures
            r@ == Seq::<ErrorModel>::empty(),
    {
        Ctxt { errors: Vec::new() }
    }

    /// Adds one error after those already found.
    pub fn error(&mut self, kind: ErrorKind, detail: &str)
        ensures
            final(self)@ == old(self)@.push(ErrorModel { kind, detail: detail@ }),
    {
        let e = SchemaError { kind, detail: detail.to_owned() };
        proof {
            views_push(self.errors@, e);
        }
        self.errors.push(e);
    }

    /// Whether no error was found.
    pub fn is_clean(&self) -> (r: bool)
        ensures
            r == (self@.len() == 0),
    {
        self.errors.len() == 0
    }

    /// Every error found, in order.
    pub fn into_errors(self) -> (r: Vec<SchemaError>)
        ensures
            views(r@) == self@,
    {
        self.errors
    }

    /// Ends the collection: `Ok` if nothing was found, else every error in order.
    pub fn check(self) -> (r: Result<(), Vec<SchemaError>>)
        ensures
            match r {
                Ok(_) => self@.len() == 0,
                Err(errors) => self@.len() > 0 && views(errors@) == self@,
            },
    {
        if self.errors.len() == 0 {
            Ok(())
        } else {
            Err(self.errors)
        }
    }
}

} // verus!
