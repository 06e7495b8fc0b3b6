//! Plans the binding of a struct to the symbols of a native library.
//!
//! A binding is a struct whose fields are functions, references and
//! pointers that a dynamically loaded library exports. From the declaration
//! of such a struct ([`schema::Schema`]) this crate derives, without loading
//! anything:
//!
//! - for each field the symbol names to look up, in the order in which they
//!   are tried ([`plan::ResolutionPlan`]);
//! - for each field the accessors to expose, by the kind of its type
//!   ([`wrapper::AccessorContract`]);
//! - every error of the declaration, all together ([`ctxt::SchemaError`]).
//!
//! [`wrapper::expand_derive`] does all of it. [`resolve`] then says, lookup
//! by lookup, how a plan is carried out against a library, and [`raw`] what
//! a null handle or address means.
//!
//! The contracts are stated over models of the values: a text is the
//! sequence of its characters, a list the sequence of the models of its
//! items.

pub mod ast;
pub mod attr;
pub mod case;
pub mod ctxt;
pub mod error;
pub mod kind;
pub mod model;
pub mod mut_ptr;
pub mod plan;
pub mod ptr;
pub mod raw;
pub mod resolve;
pub mod schema;
pub mod symbol;
pub mod text;
pub mod wrapper;

pub use error::Error;
pub use mut_ptr::RowPtrMut;
pub use ptr::RowPtr;
pub use symbol::Symbol;
