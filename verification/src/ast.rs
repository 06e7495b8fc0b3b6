//! The struct and its fields with their options read.

use vstd::prelude::*;
use crate::attr;
use crate::attr::{field_errors, field_metadata, struct_errors, struct_metadata, FieldMetadata,
    FieldModel, MetadataModel};
use crate::ctxt::{gather, Ctxt, ErrorKind, ErrorModel};
use crate::model::{views, views_push};
use crate::schema::{Data, DeclaredType, FieldDecl, Schema};

verus! {

/// A field with its options read.
#[derive(Debug)]
pub struct Field<'a> {
    pub ident: &'a str,
    pub attrs: FieldMetadata,
    pub ty: &'a DeclaredType,
    /// The declaration of the field.
    pub decl: &'a FieldDecl,
}

/// Model of a field with its options read.
pub struct FieldView {
    pub ident: Seq<char>,
    pub attrs: FieldModel,
    pub ty: DeclaredType,
    pub ty_text: Seq<char>,
}

impl<'a> View for Field<'a> {
    type V = FieldView;

    open spec fn view(&self) -> FieldView {
        FieldView {
            ident: self.ident@,
            attrs: self.attrs@,
            ty: *self.ty,
            ty_text: self.decl.ty_text@,
        }
    }
}

/// A struct with its options and those of its fields read.
#[derive(Debug)]
pub struct Metadata<'a> {
    pub ident: &'a str,
    pub attrs: attr::Metadata,
    pub fields: Vec<Field<'a>>,
    /// The declaration of the struct.
    pub ast: &'a Schema,
}

/// Model of a struct with its options read.
pub struct MetadataView {
    pub ident: Seq<char>,
    pub attrs: MetadataModel,
    pub fields: Seq<FieldView>,
}

impl<'a> View for Metadata<'a> {
    type V = MetadataView;

    open spec fn view(&self) -> MetadataView {
        MetadataView { ident: self.ident@, attrs: self.attrs@, fields: views(self.fields@) }
    }
}

/// What reading the options of a field declaration gives.
pub open spec fn field_view(decl: FieldDecl) -> FieldView {
    FieldView {
        ident: decl.ident@,
        attrs: field_metadata(decl.attrs@),
        ty: decl.ty,
        ty_text: decl.ty_text@,
    }
}

/// What reading the options of every field gives, in declaration order.
pub open spec fn field_views(decls: Seq<FieldDecl>) -> Seq<FieldView> {
    Seq::new(decls.len(), |i: int| field_view(decls[i]))
}

/// The attribute errors of every field, in declaration order.
pub open spec fn fields_errors(decls: Seq<FieldDecl>) -> Seq<ErrorModel> {
    gather(decls, |decl: FieldDecl| field_errors(decl.attrs@))
}

/// What reading a declaration gives, if it is a struct with named fields.
pub open spec fn metadata_of(ast: Schema) -> Option<MetadataView> {
    match ast.data {
        Data::Named(decls) => Some(
            MetadataView {
                ident: ast.ident@,
                attrs: struct_metadata(ast.attrs@),
                fields: field_views(decls@),
            },
        ),
        Data::Other => None,
    }
}

/// Every error found while reading a declaration: those of the attributes
/// of the struct, then either those of the fields in order, or the one
/// error of a declaration that is no struct with named fields.
pub open spec fn metadata_errors(ast: Schema) -> Seq<ErrorModel> {
    struct_errors(ast.attrs@) + (match ast.data {
        Data::Named(decls) => fields_errors(decls@),
        Data::Other => attr::err(ErrorKind::NotNamedStruct, ""@),
    })
}

impl<'a> Metadata<'a> {
    /// Reads the options of the struct and of each of its fields.
    pub fn from_ast(cx: &mut Ctxt, ast: &'a Schema) -> (r: Option<Metadata<'a>>)
        ensures
            final(cx)@ == old(cx)@ + metadata_errors(*ast),
            match r {
                Some(m) => metadata_of(*ast) == Some(m@),
                None => metadata_of(*ast) is None,
            },
    {
        let attrs = attr::Metadata::from_ast(cx, ast);
        match &ast.data {
            Data::Named(decls) => {
                let ghost before = cx@;
                let mut fields: Vec<Field<'a>> = Vec::new();
                for i in 0..decls.len()
                    invariant
                        views(fields@) =~= field_views(decls@.take(i as int)),
                        cx@ == before + fields_errors(decls@.take(i as int)),
                {
                    let decl = &decls[i];
                    proof {
                        assert(decls@.take(i + 1).drop_last() =~= decls@.take(i as int));
                    }
                    let field = Field {
                        ident: decl.ident.as_str(),
                        attrs: FieldMetadata::from_ast(cx, decl),
                        ty: &decl.ty,
                        decl,
                    };
                    proof {
                        views_push(fields@, field);
                    }
                    fields.push(field);
                }
                assert(decls@.take(decls@.len() as int) =~= decls@);
                Some(Metadata { ident: ast.ident.as_str(), attrs, fields, ast })
            },
            Data::Other => {
                cx.error(ErrorKind::NotNamedStruct, "");
                None
            },
        }
    }
}

} // verus!
