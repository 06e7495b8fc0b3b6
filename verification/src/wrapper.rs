//! From a declaration to its binding: for each field the symbols to load
//! and the accessors to expose.

use vstd::prelude::*;
use vstd::string::StringExecFns;
use crate::ast::{field_view, field_views, fields_errors, metadata_errors, metadata_of, Field,
    FieldView, Metadata, MetadataView};
use crate::attr::{field_attr_errors, field_errors, field_item_errors, no_errors,
    struct_attr_errors, struct_errors, struct_item_errors, text_model, MetadataModel};
use crate::ctxt::{gather, gather_reports_each_item, reports, reports_both, reports_within, Ctxt,
    ErrorKind, ErrorModel, SchemaError};
use crate::kind::{get_option_inner_type, kind_of, option_inner, skip_type_group, ungrouped_type,
    TypeKind};
use crate::model::{views, views_push};
use crate::plan::{generate_symbols_load_expr, plan_of, PlanModel, ResolutionPlan};
use crate::schema::{BareFn, Data, DeclaredType, FieldDecl, FnArg, Meta, Reference, Schema};
use crate::text::{decimal, decimal_string};

verus! {

/// What an accessor does.
#[derive(Copy, Clone, PartialEq, Eq, Structural, Debug)]
pub enum AccessorOp {
    /// Calls the function with the arguments given and returns its result.
    Call,
    /// Calls the function if it was found and returns its result in an
    /// option; returns nothing if it was not found.
    CallOptional,
    /// Tells whether the symbol was found.
    Presence,
    /// Lends the value for reading.
    Borrow,
    /// Lends the value for writing. It takes the binding exclusively.
    BorrowMut,
    /// Lends the value for reading, if the symbol was found.
    BorrowOptional,
    /// Lends the value for writing, if the symbol was found. It takes the
    /// binding exclusively, so that two such loans never overlap.
    BorrowMutOptional,
}

impl AccessorOp {
    /// Whether the operation needs the binding exclusively: the two that
    /// lend a value for writing do, so that no two such loans overlap.
    pub open spec fn exclusive(self) -> bool {
        self == AccessorOp::BorrowMut || self == AccessorOp::BorrowMutOptional
    }

    /// Whether the operation needs the binding exclusively.
    pub fn is_exclusive(self) -> (r: bool)
        ensures
            r == self.exclusive(),
    {
        match self {
            AccessorOp::BorrowMut | AccessorOp::BorrowMutOptional => true,
            _ => false,
        }
    }
}

/// One parameter of an accessor.
#[derive(Debug, PartialEq, Eq)]
pub struct AccessorArg {
    pub name: String,
    pub ty: String,
}

/// Model of a parameter of an accessor.
pub struct ArgModel {
    pub name: Seq<char>,
    pub ty: Seq<char>,
}

impl View for AccessorArg {
    type V = ArgModel;

    open spec fn view(&self) -> ArgModel {
        ArgModel { name: self.name@, ty: self.ty@ }
    }
}

/// One public operation exposed for a field.
#[derive(Debug, PartialEq, Eq)]
pub struct Accessor {
    pub name: String,
    pub op: AccessorOp,
    pub is_unsafe: bool,
    pub args: Vec<AccessorArg>,
    /// The type the operation is about: what the function returns (`None`
    /// if nothing), or what the reference points to.
    pub ty: Option<String>,
}

/// Model of a public operation.
pub struct AccessorModel {
    pub name: Seq<char>,
    pub op: AccessorOp,
    pub is_unsafe: bool,
    pub args: Seq<ArgModel>,
    pub ty: Option<Seq<char>>,
}

impl View for Accessor {
    type V = AccessorModel;

    open spec fn view(&self) -> AccessorModel {
        AccessorModel {
            name: self.name@,
            op: self.op,
            is_unsafe: self.is_unsafe,
            args: views(self.args@),
            ty: text_model(self.ty),
        }
    }
}

/// The operations exposed for one field; none for a raw pointer or a
/// variadic function.
#[derive(Debug, PartialEq, Eq)]
pub struct AccessorContract {
    pub accessors: Vec<Accessor>,
}

impl View for AccessorContract {
    type V = Seq<AccessorModel>;

    open spec fn view(&self) -> Seq<AccessorModel> {
        views(self.accessors@)
    }
}

/// The symbols to load for one field.
#[derive(Debug, PartialEq, Eq)]
pub struct SymbolLoad {
    pub ident: String,
    pub kind: TypeKind,
    pub plan: ResolutionPlan,
}

/// Model of the symbols to load for one field.
pub struct LoadModel {
    pub ident: Seq<char>,
    pub kind: TypeKind,
    pub plan: PlanModel,
}

impl View for SymbolLoad {
    type V = LoadModel;

    open spec fn view(&self) -> LoadModel {
        LoadModel { ident: self.ident@, kind: self.kind, plan: self.plan@ }
    }
}

/// The binding of a struct: for each field, in declaration order, what to
/// load and what to expose.
#[derive(Debug, PartialEq, Eq)]
pub struct BindingDescriptor {
    pub ident: String,
    pub loads: Vec<SymbolLoad>,
    pub wrappers: Vec<AccessorContract>,
}

/// Model of the binding of a struct.
pub struct DescriptorModel {
    pub ident: Seq<char>,
    pub loads: Seq<LoadModel>,
    pub wrappers: Seq<Seq<AccessorModel>>,
}

impl View for BindingDescriptor {
    type V = DescriptorModel;

    open spec fn view(&self) -> DescriptorModel {
        DescriptorModel {
            ident: self.ident@,
            loads: views(self.loads@),
            wrappers: views(self.wrappers@),
        }
    }
}

/// The name of a parameter: its own, or `arg` and its position.
pub open spec fn arg_name(arg: FnArg, position: int) -> Seq<char> {
    match arg.name {
        Some(name) => name@,
        None => "arg"@ + decimal(position as nat),
    }
}

/// The names of the parameters of a function type, in order.
pub open spec fn arg_names(f: BareFn) -> Seq<Seq<char>> {
    Seq::new(f.inputs@.len(), |i: int| arg_name(f.inputs@[i], i))
}

/// The parameters of the accessor of a function: named as above, typed as declared.
pub open spec fn accessor_args(f: BareFn) -> Seq<ArgModel> {
    Seq::new(
        f.inputs@.len(),
        |i: int| ArgModel { name: arg_name(f.inputs@[i], i), ty: f.inputs@[i].ty@ },
    )
}

/// The accessor of a function: one call with the signature of the field;
/// none for a variadic function.
pub open spec fn function_accessors(ident: Seq<char>, f: BareFn) -> Seq<AccessorModel> {
    if f.variadic {
        Seq::empty()
    } else {
        seq![
            AccessorModel {
                name: ident,
                op: AccessorOp::Call,
                is_unsafe: f.is_unsafe,
                args: accessor_args(f),
                ty: text_model(f.output),
            },
        ]
    }
}

/// The accessors of an optional function: the call, whose result is an
/// option, and the query `has_` and the field name.
pub open spec fn optional_function_accessors(ident: Seq<char>, f: BareFn) -> Seq<AccessorModel> {
    if f.variadic {
        Seq::empty()
    } else {
        seq![
            AccessorModel {
                name: ident,
                op: AccessorOp::CallOptional,
                is_unsafe: f.is_unsafe,
                args: accessor_args(f),
                ty: text_model(f.output),
            },
            AccessorModel {
                name: "has_"@ + ident,
                op: AccessorOp::Presence,
                is_unsafe: false,
                args: Seq::empty(),
                ty: None,
            },
        ]
    }
}

/// The accessors of a reference: a shared loan under the field name and,
/// for a mutable reference, an exclusive one under `mut_` and the field name.
pub open spec fn reference_accessors(ident: Seq<char>, r: Reference) -> Seq<AccessorModel> {
    let shared = AccessorModel {
        name: ident,
        op: AccessorOp::Borrow,
        is_unsafe: false,
        args: Seq::empty(),
        ty: Some(r.elem@),
    };
    if r.mutable {
        seq![
            shared,
            AccessorModel {
                name: "mut_"@ + ident,
                op: AccessorOp::BorrowMut,
                is_unsafe: false,
                args: Seq::empty(),
                ty: Some(r.elem@),
            },
        ]
    } else {
        seq![shared]
    }
}

/// The accessor of an optional reference: one loan, exclusive for a mutable
/// reference, whose result is an option.
pub open spec fn optional_reference_accessors(ident: Seq<char>, r: Reference) -> Seq<
    AccessorModel,
> {
    seq![
        AccessorModel {
            name: ident,
            op: if r.mutable {
                AccessorOp::BorrowMutOptional
            } else {
                AccessorOp::BorrowOptional
            },
            is_unsafe: false,
            args: Seq::empty(),
            ty: Some(r.elem@),
        },
    ]
}

/// The accessors of a field of the given name and declared type.
pub open spec fn accessors_of(ident: Seq<char>, ty: DeclaredType) -> Seq<AccessorModel> {
    match ungrouped_type(ty) {
        DeclaredType::BareFn(f) => function_accessors(ident, f),
        DeclaredType::Reference(r) => reference_accessors(ident, r),
        DeclaredType::Path(path) => match option_inner(path@) {
            Some(DeclaredType::BareFn(f)) => optional_function_accessors(ident, f),
            Some(DeclaredType::Reference(r)) => optional_reference_accessors(ident, r),
            _ => Seq::empty(),
        },
        _ => Seq::empty(),
    }
}

/// The accessors of every field, in declaration order.
pub open spec fn wrappers_of(fields: Seq<FieldView>) -> Seq<Seq<AccessorModel>> {
    Seq::new(fields.len(), |i: int| accessors_of(fields[i].ident, fields[i].ty))
}

/// What to load for a field of a known kind.
pub open spec fn load_of(field: FieldView, kind: TypeKind, container: MetadataModel) -> LoadModel {
    LoadModel { ident: field.ident, kind, plan: plan_of(field.ident, field.attrs, container) }
}

/// The loads after one more field: a field of unknown kind adds none.
pub open spec fn with_load(acc: Seq<LoadModel>, field: FieldView, container: MetadataModel) -> Seq<
    LoadModel,
> {
    match kind_of(field.ty) {
        Some(kind) => acc.push(load_of(field, kind, container)),
        None => acc,
    }
}

/// What to load for the fields of a struct, in declaration order.
pub open spec fn loads_of(fields: Seq<FieldView>, container: MetadataModel) -> Seq<LoadModel>
    decreases fields.len(),
{
    if fields.len() == 0 {
        Seq::empty()
    } else {
        with_load(loads_of(fields.drop_last(), container), fields.last(), container)
    }
}

/// The error of a field whose type no binding can be made for.
pub open spec fn type_error(field: FieldView) -> Seq<ErrorModel> {
    match kind_of(field.ty) {
        Some(_) => no_errors(),
        None => crate::attr::err(ErrorKind::UnsupportedType, field.ty_text),
    }
}

/// The type errors of the fields of a struct, in declaration order.
pub open spec fn type_errors_of(fields: Seq<FieldView>) -> Seq<ErrorModel> {
    gather(fields, |field: FieldView| type_error(field))
}

/// Every error of a declaration: those of its attributes, then those of
/// the types of its fields.
pub open spec fn schema_errors(ast: Schema) -> Seq<ErrorModel> {
    metadata_errors(ast) + (match metadata_of(ast) {
        Some(meta) => type_errors_of(meta.fields),
        None => no_errors(),
    })
}

/// The binding of a struct whose options were read.
pub open spec fn descriptor_of(meta: MetadataView) -> DescriptorModel {
    DescriptorModel {
        ident: meta.ident,
        loads: loads_of(meta.fields, meta.attrs),
        wrappers: wrappers_of(meta.fields),
    }
}

/// The binding of a declaration: it has one exactly when the declaration
/// is a struct with named fields and has no error.
pub open spec fn binding_of(ast: Schema) -> Option<DescriptorModel> {
    match metadata_of(ast) {
        Some(meta) => if schema_errors(ast).len() == 0 {
            Some(descriptor_of(meta))
        } else {
            None
        },
        None => None,
    }
}

/// What deriving a binding returns for a declaration.
pub open spec fn expansion(ast: Schema, r: Result<BindingDescriptor, Vec<SchemaError>>) -> bool {
    match r {
        Ok(descriptor) => binding_of(ast) == Some(descriptor@),
        Err(errors) => binding_of(ast) is None && errors@.len() > 0 && views(errors@)
            == schema_errors(ast),
    }
}

/// The model of what deriving a binding returns.
pub open spec fn expansion_model(r: Result<BindingDescriptor, Vec<SchemaError>>) -> Result<
    DescriptorModel,
    Seq<ErrorModel>,
> {
    match r {
        Ok(descriptor) => Ok(descriptor@),
        Err(errors) => Err(views(errors@)),
    }
}

/// The names of the parameters of a function type: the name written, or
/// `arg` and the position where none was.
pub fn get_bera_fn_arg_idents(fn_ty: &BareFn) -> (r: Vec<String>)
    ensures
        r@.len() == fn_ty.inputs@.len(),
        forall|i: int| 0 <= i < r@.len() ==> (#[trigger] r@[i])@ == arg_name(fn_ty.inputs@[i], i),
{
    let mut names: Vec<String> = Vec::new();
    for i in 0..fn_ty.inputs.len()
        invariant
            names@.len() == i,
            forall|k: int| 0 <= k < i ==> (#[trigger] names@[k])@ == arg_name(fn_ty.inputs@[k], k),
    {
        let name = match &fn_ty.inputs[i].name {
            Some(name) => name.clone(),
            None => {
                let mut name = String::from_str("arg");
                let position = decimal_string(i);
                name.append(position.as_str());
                name
            },
        };
        names.push(name);
    }
    names
}

/// The parameters of the accessor of a function.
fn generate_accessor_args(fn_ty: &BareFn) -> (r: Vec<AccessorArg>)
    ensures
        views(r@) == accessor_args(*fn_ty),
{
    let names = get_bera_fn_arg_idents(fn_ty);
    let mut args: Vec<AccessorArg> = Vec::new();
    for i in 0..fn_ty.inputs.len()
        invariant
            names@.len() == fn_ty.inputs@.len(),
            forall|k: int|
                0 <= k < names@.len() ==> (#[trigger] names@[k])@ == arg_name(
                    fn_ty.inputs@[k],
                    k,
                ),
            views(args@) =~= accessor_args(*fn_ty).take(i as int),
    {
        let arg = AccessorArg { name: names[i].clone(), ty: fn_ty.inputs[i].ty.clone() };
        proof {
            views_push(args@, arg);
        }
        args.push(arg);
    }
    args
}

/// A copy of an optional text.
fn clone_text(text: &Option<String>) -> (r: Option<String>)
    ensures
        text_model(r) == text_model(*text),
{
    match text {
        Some(s) => Some(s.clone()),
        None => None,
    }
}

/// The accessor of a function field.
pub fn generate_function_wrapper(ident: &str, fn_ty: &BareFn) -> (r: AccessorContract)
    ensures
        r@ == function_accessors(ident@, *fn_ty),
{
    let mut accessors: Vec<Accessor> = Vec::new();
    if !fn_ty.variadic {
        let call = Accessor {
            name: ident.to_owned(),
            op: AccessorOp::Call,
            is_unsafe: fn_ty.is_unsafe,
            args: generate_accessor_args(fn_ty),
            ty: clone_text(&fn_ty.output),
        };
        proof {
            views_push(accessors@, call);
        }
        accessors.push(call);
    }
    AccessorContract { accessors }
}

/// The accessors of a reference field.
pub fn generate_reference_wrapper(ident: &str, ref_ty: &Reference) -> (r: AccessorContract)
    ensures
        r@ == reference_accessors(ident@, *ref_ty),
{
    let mut accessors: Vec<Accessor> = Vec::new();
    let shared = Accessor {
        name: ident.to_owned(),
        op: AccessorOp::Borrow,
        is_unsafe: false,
        args: Vec::new(),
        ty: Some(ref_ty.elem.clone()),
    };
    assert(shared@.args =~= Seq::<ArgModel>::empty());
    proof {
        views_push(accessors@, shared);
    }
    accessors.push(shared);
    if ref_ty.mutable {
        let mut name = String::from_str("mut_");
        name.append(ident);
        let exclusive = Accessor {
            name,
            op: AccessorOp::BorrowMut,
            is_unsafe: false,
            args: Vec::new(),
            ty: Some(ref_ty.elem.clone()),
        };
        proof {
            views_push(accessors@, exclusive);
        }
        accessors.push(exclusive);
    }
    AccessorContract { accessors }
}

/// The accessors of an optional function field.
pub fn generate_optional_function_wrapper(ident: &str, fn_ty: &BareFn) -> (r: AccessorContract)
    ensures
        r@ == optional_function_accessors(ident@, *fn_ty),
{
    let mut accessors: Vec<Accessor> = Vec::new();
    if !fn_ty.variadic {
        let call = Accessor {
            name: ident.to_owned(),
            op: AccessorOp::CallOptional,
            is_unsafe: fn_ty.is_unsafe,
            args: generate_accessor_args(fn_ty),
            ty: clone_text(&fn_ty.output),
        };
        proof {
            views_push(accessors@, call);
        }
        accessors.push(call);
        let mut name = String::from_str("has_");
        name.append(ident);
        let presence = Accessor {
            name,
            op: AccessorOp::Presence,
            is_unsafe: false,
            args: Vec::new(),
            ty: None,
        };
        assert(presence@.args =~= Seq::<ArgModel>::empty());
        proof {
            views_push(accessors@, presence);
        }
        accessors.push(presence);
    }
    AccessorContract { accessors }
}

/// The accessor of an optional reference field.
pub fn generate_optional_reference_wrapper(ident: &str, ref_ty: &Reference) -> (r:
    AccessorContract)
    ensures
        r@ == optional_reference_accessors(ident@, *ref_ty),
{
    let mut accessors: Vec<Accessor> = Vec::new();
    let loan = Accessor {
        name: ident.to_owned(),
        op: if ref_ty.mutable {
            AccessorOp::BorrowMutOptional
        } else {
            AccessorOp::BorrowOptional
        },
        is_unsafe: false,
        args: Vec::new(),
        ty: Some(ref_ty.elem.clone()),
    };
    assert(loan@.args =~= Seq::<ArgModel>::empty());
    proof {
        views_push(accessors@, loan);
    }
    accessors.push(loan);
    AccessorContract { accessors }
}

/// The accessors of one field.
fn generate_field_wrapper(field: &Field) -> (r: AccessorContract)
    ensures
        r@ == accessors_of(field.ident@, *field.ty),
{
    match skip_type_group(field.ty) {
        DeclaredType::BareFn(ty) => generate_function_wrapper(field.ident, ty),
        DeclaredType::Reference(ty) => generate_reference_wrapper(field.ident, ty),
        DeclaredType::Path(path) => match get_option_inner_type(path) {
            Some(DeclaredType::BareFn(ty)) => generate_optional_function_wrapper(field.ident, ty),
            Some(DeclaredType::Reference(ty)) => generate_optional_reference_wrapper(
                field.ident,
                ty,
            ),
            _ => {
                AccessorContract { accessors: Vec::new() }
            },
        },
        _ => {
            AccessorContract { accessors: Vec::new() }
        },
    }
}

/// The accessors of every field, in declaration order.
pub fn generate_symbols_wrapper(meta: &Metadata) -> (r: Vec<AccessorContract>)
    ensures
        views(r@) == wrappers_of(meta@.fields),
{
    let mut wrappers: Vec<AccessorContract> = Vec::new();
    for i in 0..meta.fields.len()
        invariant
            views(wrappers@) =~= wrappers_of(meta@.fields).take(i as int),
    {
        let wrapper = generate_field_wrapper(&meta.fields[i]);
        proof {
            views_push(wrappers@, wrapper);
        }
        wrappers.push(wrapper);
    }
    wrappers
}

/// What to load for every field, in declaration order. A field whose type
/// is no function, reference or pointer, nor an option of one, is an error
/// and gets no load.
pub fn generate_symbols_load_clause(cx: &mut Ctxt, meta: &Metadata) -> (r: Vec<SymbolLoad>)
    ensures
        views(r@) == loads_of(meta@.fields, meta@.attrs),
        final(cx)@ == old(cx)@ + type_errors_of(meta@.fields),
{
    let mut loads: Vec<SymbolLoad> = Vec::new();
    let ghost fields = meta@.fields;
    for i in 0..meta.fields.len()
        invariant
            fields == meta@.fields,
            views(loads@) == loads_of(fields.take(i as int), meta@.attrs),
            cx@ == old(cx)@ + type_errors_of(fields.take(i as int)),
    {
        let field = &meta.fields[i];
        proof {
            assert(fields.take(i + 1).drop_last() =~= fields.take(i as int));
        }
        match TypeKind::of(field.ty) {
            Some(kind) => {
                let load = SymbolLoad {
                    ident: field.ident.to_owned(),
                    kind,
                    plan: generate_symbols_load_expr(field, meta),
                };
                proof {
                    views_push(loads@, load);
                }
                loads.push(load);
            },
            None => {
                cx.error(ErrorKind::UnsupportedType, field.decl.ty_text.as_str());
            },
        }
    }
    assert(fields.take(fields.len() as int) =~= fields);
    loads
}

/// Derives the binding of a declaration. Every error of the declaration is
/// collected first; if there is any, all are returned and no binding is.
pub fn expand_derive(ast: &Schema) -> (r: Result<BindingDescriptor, Vec<SchemaError>>)
    ensures
        expansion(*ast, r),
{
    let mut ctxt = Ctxt::new();
    let metadata = match Metadata::from_ast(&mut ctxt, ast) {
        Some(metadata) => metadata,
        None => {
            return Err(ctxt.into_errors());
        },
    };
    let loads = generate_symbols_load_clause(&mut ctxt, &metadata);
    let wrappers = generate_symbols_wrapper(&metadata);
    if ctxt.is_clean() {
        Ok(BindingDescriptor { ident: metadata.ident.to_owned(), loads, wrappers })
    } else {
        Err(ctxt.into_errors())
    }
}

/// The operations of a list of accessors, in order.
pub open spec fn ops_of(accessors: Seq<AccessorModel>) -> Seq<AccessorOp> {
    Seq::new(accessors.len(), |i: int| accessors[i].op)
}

/// The operations that a field gets by its kind: a call for a function; a
/// call and a presence query for an optional function; a shared loan for a
/// reference, and an exclusive one besides for a mutable reference; one
/// optional loan for an optional reference; nothing for a variadic
/// function, a raw pointer or a type of no kind.
pub open spec fn ops_of_kind(kind: Option<TypeKind>) -> Seq<AccessorOp> {
    match kind {
        Some(TypeKind::Function) => seq![AccessorOp::Call],
        Some(TypeKind::OptionalFunction) => seq![AccessorOp::CallOptional, AccessorOp::Presence],
        Some(TypeKind::ImmutableReference) => seq![AccessorOp::Borrow],
        Some(TypeKind::MutableReference) => seq![AccessorOp::Borrow, AccessorOp::BorrowMut],
        Some(TypeKind::OptionalImmutableReference) => seq![AccessorOp::BorrowOptional],
        Some(TypeKind::OptionalMutableReference) => seq![AccessorOp::BorrowMutOptional],
        _ => Seq::empty(),
    }
}

/// The accessors of a field are those of its kind.
pub proof fn accessors_follow_kind(ident: Seq<char>, ty: DeclaredType)
    ensures
        ops_of(accessors_of(ident, ty)) == ops_of_kind(kind_of(ty)),
{
}

/// A struct without a type error has one load for each field, in
/// declaration order: the field's name, its kind and its plan.
pub proof fn loads_cover_every_field(fields: Seq<FieldView>, container: MetadataModel)
    requires
        type_errors_of(fields).len() == 0,
    ensures
        loads_of(fields, container).len() == fields.len(),
        forall|i: int|
            0 <= i < fields.len() ==> kind_of(fields[i].ty) is Some && #[trigger] loads_of(
                fields,
                container,
            )[i] == load_of(fields[i], kind_of(fields[i].ty)->0, container),
    decreases fields.len(),
{
    if fields.len() > 0 {
        loads_cover_every_field(fields.drop_last(), container);
    }
}

/// A binding of a declaration holds, for every field in declaration
/// order, its load and its accessors.
pub proof fn binding_covers_every_field(ast: Schema)
    requires
        binding_of(ast) is Some,
    ensures
        metadata_of(ast) is Some,
        binding_of(ast)->0.loads.len() == metadata_of(ast)->0.fields.len(),
        binding_of(ast)->0.wrappers.len() == metadata_of(ast)->0.fields.len(),
        forall|i: int|
            0 <= i < metadata_of(ast)->0.fields.len() ==> (#[trigger] binding_of(
                ast,
            )->0.loads[i]).ident == metadata_of(ast)->0.fields[i].ident,
{
    let meta = metadata_of(ast)->0;
    loads_cover_every_field(meta.fields, meta.attrs);
}

/// Deriving is a function of the declaration alone: two runs on the same
/// declaration return the same binding, or the same errors in the same order.
pub proof fn expansion_is_deterministic(
    ast: Schema,
    first: Result<BindingDescriptor, Vec<SchemaError>>,
    second: Result<BindingDescriptor, Vec<SchemaError>>,
)
    requires
        expansion(ast, first),
        expansion(ast, second),
    ensures
        expansion_model(first) == expansion_model(second),
{
}

/// Every error of every item written on the struct is among the errors of
/// the declaration, whatever else is wrong with it.
pub proof fn every_struct_item_is_reported(ast: Schema, a: int, i: int)
    requires
        0 <= a < ast.attrs@.len(),
        ast.attrs@[a].path@ == "native"@,
        ast.attrs@[a].value is List,
        0 <= i < ast.attrs@[a].value->List_0@.len(),
    ensures
        reports(schema_errors(ast), struct_item_errors(ast.attrs@[a].value->List_0@[i])),
{
    let items = ast.attrs@[a].value->List_0@;
    let of_attrs = struct_errors(ast.attrs@);
    gather_reports_each_item(items, |item: Meta| struct_item_errors(item), i);
    gather_reports_each_item(ast.attrs@, |item: Meta| struct_attr_errors(item), a);
    reports_within(of_attrs, struct_attr_errors(ast.attrs@[a]), struct_item_errors(items[i]));
    let rest = match ast.data {
        Data::Named(decls) => fields_errors(decls@),
        Data::Other => crate::attr::err(ErrorKind::NotNamedStruct, ""@),
    };
    let of_types = match metadata_of(ast) {
        Some(meta) => type_errors_of(meta.fields),
        None => no_errors(),
    };
    reports_both(of_attrs, rest);
    reports_both(of_attrs + rest, of_types);
    reports_within(of_attrs + rest, of_attrs, struct_item_errors(items[i]));
    reports_within(schema_errors(ast), of_attrs + rest, struct_item_errors(items[i]));
}

/// Every error of every item written on a field is among the errors of the
/// declaration, whatever else is wrong with it.
pub proof fn every_field_item_is_reported(ast: Schema, f: int, a: int, i: int)
    requires
        ast.data is Named,
        0 <= f < ast.data->Named_0@.len(),
        0 <= a < ast.data->Named_0@[f].attrs@.len(),
        ast.data->Named_0@[f].attrs@[a].path@ == "native"@,
        ast.data->Named_0@[f].attrs@[a].value is List,
        0 <= i < ast.data->Named_0@[f].attrs@[a].value->List_0@.len(),
    ensures
        reports(
            schema_errors(ast),
            field_item_errors(ast.data->Named_0@[f].attrs@[a].value->List_0@[i]),
        ),
{
    let decls = ast.data->Named_0@;
    let attrs = decls[f].attrs@;
    let items = attrs[a].value->List_0@;
    let part = field_item_errors(items[i]);
    gather_reports_each_item(items, |item: Meta| field_item_errors(item), i);
    gather_reports_each_item(attrs, |item: Meta| field_attr_errors(item), a);
    reports_within(field_errors(attrs), field_attr_errors(attrs[a]), part);
    gather_reports_each_item(decls, |decl: FieldDecl| field_errors(decl.attrs@), f);
    reports_within(fields_errors(decls), field_errors(attrs), part);
    let of_attrs = struct_errors(ast.attrs@);
    let of_types = type_errors_of(metadata_of(ast)->0.fields);
    reports_both(of_attrs, fields_errors(decls));
    reports_both(of_attrs + fields_errors(decls), of_types);
    reports_within(of_attrs + fields_errors(decls), fields_errors(decls), part);
    reports_within(schema_errors(ast), of_attrs + fields_errors(decls), part);
}

/// Every field whose type no binding can be made for is among the errors
/// of the declaration, with its type as it was written.
pub proof fn every_unsupported_type_is_reported(ast: Schema, f: int)
    requires
        ast.data is Named,
        0 <= f < ast.data->Named_0@.len(),
        kind_of(ast.data->Named_0@[f].ty) is None,
    ensures
        reports(
            schema_errors(ast),
            crate::attr::err(ErrorKind::UnsupportedType, ast.data->Named_0@[f].ty_text@),
        ),
{
    let decls = ast.data->Named_0@;
    let fields = field_views(decls);
    gather_reports_each_item(fields, |field: FieldView| type_error(field), f);
    reports_both(metadata_errors(ast), type_errors_of(fields));
    reports_within(schema_errors(ast), type_errors_of(fields), type_error(fields[f]));
}

} // verus!
