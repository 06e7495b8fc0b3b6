//! The declaration a binding is derived from: a struct, its fields with
//! their declared types, and the attributes written on both.

use vstd::prelude::*;

verus! {

/// The value written after `=` in an attribute.
#[derive(Debug, PartialEq, Eq)]
pub enum Expr {
    /// A string literal with its suffix (empty if it has none).
    Str { value: String, suffix: String },
    /// A C string literal: its bytes without the final NUL, and its suffix.
    CStr { bytes: Vec<u8>, suffix: String },
    /// A boolean literal.
    Bool(bool),
    /// A bracketed array of values.
    Array(Vec<Expr>),
    /// A value inside an invisible group.
    Group(Box<Expr>),
    /// Any other expression.
    Other,
}

/// What follows the key of an attribute.
#[derive(Debug, PartialEq, Eq)]
pub enum MetaValue {
    /// Nothing: the key alone.
    Flag,
    /// `= value`.
    Assign(Expr),
    /// A parenthesised list of nested attributes.
    List(Vec<Meta>),
}

/// One attribute: a key and what follows it.
#[derive(Debug, PartialEq, Eq)]
pub struct Meta {
    /// The key as it was written: `native`, `rename`, `a :: b`.
    pub path: String,
    pub value: MetaValue,
}

/// One parameter of a function type.
#[derive(Debug, PartialEq, Eq)]
pub struct FnArg {
    /// The name, where the type gives one.
    pub name: Option<String>,
    /// The type as it was written.
    pub ty: String,
}

/// A function pointer type.
#[derive(Debug, PartialEq, Eq)]
pub struct BareFn {
    pub is_unsafe: bool,
    pub inputs: Vec<FnArg>,
    /// The return type; `None` when the function returns nothing.
    pub output: Option<String>,
    pub variadic: bool,
}

/// A reference type.
#[derive(Debug, PartialEq, Eq)]
pub struct Reference {
    pub mutable: bool,
    /// The type referred to, as it was written.
    pub elem: String,
}

/// One argument between the angle brackets of a path segment.
#[derive(Debug, PartialEq, Eq)]
pub enum GenericArgument {
    /// A type.
    Type(DeclaredType),
    /// A lifetime, a constant or anything else.
    Other,
}

/// What follows the name of a path segment.
#[derive(Debug, PartialEq, Eq)]
pub enum PathArguments {
    /// Nothing.
    Empty,
    /// `<..>`.
    AngleBracketed(Vec<GenericArgument>),
    /// `(..) -> ..`.
    Parenthesized,
}

/// One segment of a type path.
#[derive(Debug, PartialEq, Eq)]
pub struct PathSegment {
    pub ident: String,
    pub arguments: PathArguments,
}

/// The declared type of a field, as far as a binding depends on it.
#[derive(Debug, PartialEq, Eq)]
pub enum DeclaredType {
    /// A function pointer.
    BareFn(BareFn),
    /// A reference.
    Reference(Reference),
    /// A raw pointer.
    Ptr,
    /// A path, such as `Option<..>`.
    Path(Vec<PathSegment>),
    /// A type inside an invisible group.
    Group(Box<DeclaredType>),
    /// Any other type.
    Other,
}

/// One field of the struct.
#[derive(Debug, PartialEq, Eq)]
pub struct FieldDecl {
    /// The name of the field.
    pub ident: String,
    pub ty: DeclaredType,
    /// The type as it was written.
    pub ty_text: String,
    /// The attributes of the field, in the order written.
    pub attrs: Vec<Meta>,
}

/// The body of the declaration.
#[derive(Debug, PartialEq, Eq)]
pub enum Data {
    /// A struct with named fields, in declaration order.
    Named(Vec<FieldDecl>),
    /// Anything else.
    Other,
}

/// The declaration as a whole.
#[derive(Debug, PartialEq, Eq)]
pub struct Schema {
    /// The name of the struct.
    pub ident: String,
    /// The attributes of the struct, in the order written.
    pub attrs: Vec<Meta>,
    pub data: Data,
}

} // verus!
