//! The kinds of field a binding knows, and how a declared type is sorted
//! into them.

use vstd::prelude::*;
use crate::schema::{DeclaredType, GenericArgument, PathArguments, PathSegment};

verus! {

/// The kind of a field, which decides how a failed lookup is treated and
/// which accessors the field gets.
#[derive(Copy, Clone, PartialEq, Eq, Structural, Debug)]
pub enum TypeKind {
    Function,
    OptionalFunction,
    VariadicFunction,
    ImmutableReference,
    MutableReference,
    OptionalImmutableReference,
    OptionalMutableReference,
    RawPointer,
    OptionalRawPointer,
}

/// The type inside any number of invisible groups.
pub open spec fn ungrouped_type(ty: DeclaredType) -> DeclaredType
    decreases ty,
{
    match ty {
        DeclaredType::Group(inner) => ungrouped_type(*inner),
        _ => ty,
    }
}

/// The `T` of a path that ends in `Option<T>`: the last segment is named
/// `Option` and has exactly one argument between angle brackets, a type.
pub open spec fn option_inner(path: Seq<PathSegment>) -> Option<DeclaredType> {
    if path.len() == 0 || path.last().ident@ != "Option"@ {
        None
    } else {
        match path.last().arguments {
            PathArguments::AngleBracketed(args) => if args@.len() == 1 {
                match args@[0] {
                    GenericArgument::Type(ty) => Some(ty),
                    _ => None,
                }
            } else {
                None
            },
            _ => None,
        }
    }
}

/// The kind of what stands inside `Option<..>`, if a binding knows it.
pub open spec fn optional_kind(inner: DeclaredType) -> Option<TypeKind> {
    match inner {
        DeclaredType::BareFn(f) => if f.variadic {
            None
        } else {
            Some(TypeKind::OptionalFunction)
        },
        DeclaredType::Reference(r) => if r.mutable {
            Some(TypeKind::OptionalMutableReference)
        } else {
            Some(TypeKind::OptionalImmutableReference)
        },
        DeclaredType::Ptr => Some(TypeKind::OptionalRawPointer),
        _ => None,
    }
}

/// The kind of a declared type; `None` for a type that no binding can be
/// made for.
pub open spec fn kind_of(ty: DeclaredType) -> Option<TypeKind> {
    match ungrouped_type(ty) {
        DeclaredType::BareFn(f) => if f.variadic {
            Some(TypeKind::VariadicFunction)
        } else {
            Some(TypeKind::Function)
        },
        DeclaredType::Reference(r) => if r.mutable {
            Some(TypeKind::MutableReference)
        } else {
            Some(TypeKind::ImmutableReference)
        },
        DeclaredType::Ptr => Some(TypeKind::RawPointer),
        DeclaredType::Path(path) => match option_inner(path@) {
            Some(inner) => optional_kind(inner),
            None => None,
        },
        _ => None,
    }
}

impl TypeKind {
    /// Whether a field of this kind may stay empty when no candidate is found.
    pub open spec fn optional(self) -> bool {
        self == TypeKind::OptionalFunction || self == TypeKind::OptionalImmutableReference
            || self == TypeKind::OptionalMutableReference || self == TypeKind::OptionalRawPointer
    }

    /// Whether a field of this kind may stay empty when no candidate is found.
    pub fn is_optional(self) -> (r: bool)
        ensures
            r == self.optional(),
    {
        match self {
            TypeKind::OptionalFunction
            | TypeKind::OptionalImmutableReference
            | TypeKind::OptionalMutableReference
            | TypeKind::OptionalRawPointer => true,
            _ => false,
        }
    }

    /// Sorts a declared type into its kind.
    pub fn of(ty: &DeclaredType) -> (r: Option<TypeKind>)
        ensures
            r == kind_of(*ty),
    {
        match skip_type_group(ty) {
            DeclaredType::BareFn(f) => if f.variadic {
                Some(TypeKind::VariadicFunction)
            } else {
                Some(TypeKind::Function)
            },
            DeclaredType::Reference(r) => if r.mutable {
                Some(TypeKind::MutableReference)
            } else {
                Some(TypeKind::ImmutableReference)
            },
            DeclaredType::Ptr => Some(TypeKind::RawPointer),
            DeclaredType::Path(path) => match get_option_inner_type(path) {
                Some(inner) => match inner {
                    DeclaredType::BareFn(f) => if f.variadic {
                        None
                    } else {
                        Some(TypeKind::OptionalFunction)
                    },
                    DeclaredType::Reference(r) => if r.mutable {
                        Some(TypeKind::OptionalMutableReference)
                    } else {
                        Some(TypeKind::OptionalImmutableReference)
                    },
                    DeclaredType::Ptr => Some(TypeKind::OptionalRawPointer),
                    _ => None,
                },
                None => None,
            },
            _ => None,
        }
    }
}

/// The type inside any number of invisible groups.
pub fn skip_type_group(ty: &DeclaredType) -> (r: &DeclaredType)
    ensures
        *r == ungrouped_type(*ty),
    decreases *ty,
{
    match ty {
        DeclaredType::Group(inner) => skip_type_group(inner),
        _ => ty,
    }
}

/// The `T` of a path that ends in `Option<T>`.
pub fn get_option_inner_type(path: &Vec<PathSegment>) -> (r: Option<&DeclaredType>)
    ensures
        match r {
            Some(ty) => option_inner(path@) == Some(*ty),
            None => option_inner(path@) is None,
        },
{
    if path.len() == 0 {
        return None;
    }
    let last = &path[path.len() - 1];
    if !(*last.ident.as_str() == *"Option") {
        return None;
    }
    match &last.arguments {
        PathArguments::AngleBracketed(args) => {
            if args.len() == 1 {
                match &args[0] {
                    GenericArgument::Type(ty) => Some(ty),
                    _ => None,
                }
            } else {
                None
            }
        },
        _ => None,
    }
}

} // verus!
