use android_xdl::ctxt::{ErrorKind, SchemaError};
use android_xdl::kind::{get_option_inner_type, skip_type_group, TypeKind};
use android_xdl::schema::{
    BareFn, Data, DeclaredType, FieldDecl, FnArg, GenericArgument, Meta, MetaValue, PathArguments,
    PathSegment, Reference, Schema,
};
use android_xdl::wrapper::{
    expand_derive, generate_function_wrapper, generate_optional_function_wrapper,
    generate_optional_reference_wrapper, generate_reference_wrapper, get_bera_fn_arg_idents,
    Accessor, AccessorArg, AccessorOp, BindingDescriptor,
};

fn function(inputs: Vec<FnArg>, output: Option<&str>) -> BareFn {
    BareFn { is_unsafe: false, inputs, output: output.map(str::to_string), variadic: false }
}

fn arg(name: Option<&str>, ty: &str) -> FnArg {
    FnArg { name: name.map(str::to_string), ty: ty.to_string() }
}

fn reference(mutable: bool, elem: &str) -> Reference {
    Reference { mutable, elem: elem.to_string() }
}

fn segment(ident: &str, arguments: PathArguments) -> PathSegment {
    PathSegment { ident: ident.to_string(), arguments }
}

fn option_of(inner: DeclaredType) -> DeclaredType {
    DeclaredType::Path(vec![segment(
        "Option",
        PathArguments::AngleBracketed(vec![GenericArgument::Type(inner)]),
    )])
}

fn field(ident: &str, ty: DeclaredType, ty_text: &str) -> FieldDecl {
    FieldDecl { ident: ident.to_string(), ty, ty_text: ty_text.to_string(), attrs: vec![] }
}

fn schema(fields: Vec<FieldDecl>) -> Schema {
    Schema { ident: "Api".to_string(), attrs: vec![], data: Data::Named(fields) }
}

fn binding(fields: Vec<FieldDecl>) -> BindingDescriptor {
    expand_derive(&schema(fields)).unwrap()
}

fn ops(descriptor: &BindingDescriptor, index: usize) -> Vec<(String, AccessorOp)> {
    descriptor.wrappers[index].accessors.iter().map(|a| (a.name.clone(), a.op)).collect()
}

#[test]
fn kinds_of_the_declared_types() {
    let f = || DeclaredType::BareFn(function(vec![], None));
    let variadic = DeclaredType::BareFn(BareFn { variadic: true, ..function(vec![], None) });
    assert_eq!(TypeKind::of(&f()), Some(TypeKind::Function));
    assert_eq!(TypeKind::of(&variadic), Some(TypeKind::VariadicFunction));
    assert_eq!(
        TypeKind::of(&DeclaredType::Reference(reference(false, "i32"))),
        Some(TypeKind::ImmutableReference)
    );
    assert_eq!(
        TypeKind::of(&DeclaredType::Reference(reference(true, "i32"))),
        Some(TypeKind::MutableReference)
    );
    assert_eq!(TypeKind::of(&DeclaredType::Ptr), Some(TypeKind::RawPointer));
    assert_eq!(TypeKind::of(&option_of(f())), Some(TypeKind::OptionalFunction));
    assert_eq!(
        TypeKind::of(&option_of(DeclaredType::Reference(reference(false, "i32")))),
        Some(TypeKind::OptionalImmutableReference)
    );
    assert_eq!(
        TypeKind::of(&option_of(DeclaredType::Reference(reference(true, "i32")))),
        Some(TypeKind::OptionalMutableReference)
    );
    assert_eq!(TypeKind::of(&option_of(DeclaredType::Ptr)), Some(TypeKind::OptionalRawPointer));
    assert_eq!(TypeKind::of(&DeclaredType::Other), None);
    assert_eq!(TypeKind::of(&option_of(DeclaredType::Other)), None);
    assert_eq!(TypeKind::of(&option_of(variadic)), None);
    assert_eq!(TypeKind::of(&option_of(option_of(f()))), None);
    assert_eq!(
        TypeKind::of(&DeclaredType::Group(Box::new(DeclaredType::Group(Box::new(f()))))),
        Some(TypeKind::Function)
    );
}

#[test]
fn only_the_optional_kinds_may_stay_empty() {
    assert!(TypeKind::OptionalFunction.is_optional());
    assert!(TypeKind::OptionalImmutableReference.is_optional());
    assert!(TypeKind::OptionalMutableReference.is_optional());
    assert!(TypeKind::OptionalRawPointer.is_optional());
    assert!(!TypeKind::Function.is_optional());
    assert!(!TypeKind::VariadicFunction.is_optional());
    assert!(!TypeKind::ImmutableReference.is_optional());
    assert!(!TypeKind::MutableReference.is_optional());
    assert!(!TypeKind::RawPointer.is_optional());
}

#[test]
fn an_option_is_a_path_that_ends_in_option_of_one_type() {
    let inner = DeclaredType::Ptr;
    let plain = vec![segment(
        "Option",
        PathArguments::AngleBracketed(vec![GenericArgument::Type(DeclaredType::Ptr)]),
    )];
    assert_eq!(get_option_inner_type(&plain), Some(&inner));
    let qualified = vec![
        segment("std", PathArguments::Empty),
        segment("option", PathArguments::Empty),
        segment(
            "Option",
            PathArguments::AngleBracketed(vec![GenericArgument::Type(DeclaredType::Ptr)]),
        ),
    ];
    assert_eq!(get_option_inner_type(&qualified), Some(&inner));
    assert_eq!(get_option_inner_type(&vec![]), None);
    assert_eq!(get_option_inner_type(&vec![segment("Option", PathArguments::Empty)]), None);
    assert_eq!(get_option_inner_type(&vec![segment("Option", PathArguments::Parenthesized)]), None);
    let two = PathArguments::AngleBracketed(vec![
        GenericArgument::Type(DeclaredType::Ptr),
        GenericArgument::Type(DeclaredType::Ptr),
    ]);
    assert_eq!(get_option_inner_type(&vec![segment("Option", two)]), None);
    let lifetime = PathArguments::AngleBracketed(vec![GenericArgument::Other]);
    assert_eq!(get_option_inner_type(&vec![segment("Option", lifetime)]), None);
    let boxed = vec![segment(
        "Box",
        PathArguments::AngleBracketed(vec![GenericArgument::Type(DeclaredType::Ptr)]),
    )];
    assert_eq!(get_option_inner_type(&boxed), None);
    let not_last = vec![
        segment(
            "Option",
            PathArguments::AngleBracketed(vec![GenericArgument::Type(DeclaredType::Ptr)]),
        ),
        segment("Item", PathArguments::Empty),
    ];
    assert_eq!(get_option_inner_type(&not_last), None);
}

#[test]
fn groups_around_a_type_are_looked_through() {
    let grouped = DeclaredType::Group(Box::new(DeclaredType::Group(Box::new(DeclaredType::Ptr))));
    assert_eq!(skip_type_group(&grouped), &DeclaredType::Ptr);
    assert_eq!(skip_type_group(&DeclaredType::Other), &DeclaredType::Other);
}

#[test]
fn unnamed_parameters_are_named_by_their_position() {
    let mut inputs = vec![arg(None, "i32"), arg(Some("src"), "*const u8"), arg(None, "usize")];
    for _ in 0..9 {
        inputs.push(arg(None, "u8"));
    }
    let names = get_bera_fn_arg_idents(&function(inputs, None));
    assert_eq!(
        names,
        vec![
            "arg0", "src", "arg2", "arg3", "arg4", "arg5", "arg6", "arg7", "arg8", "arg9",
            "arg10", "arg11"
        ]
    );
}

#[test]
fn a_function_gets_one_call_with_its_signature() {
    let fn_ty = BareFn {
        is_unsafe: true,
        ..function(vec![arg(Some("dst"), "*mut c_char"), arg(None, "usize")], Some("*mut c_char"))
    };
    let contract = generate_function_wrapper("strncpy", &fn_ty);
    assert_eq!(
        contract.accessors,
        vec![Accessor {
            name: "strncpy".to_string(),
            op: AccessorOp::Call,
            is_unsafe: true,
            args: vec![
                AccessorArg { name: "dst".to_string(), ty: "*mut c_char".to_string() },
                AccessorArg { name: "arg1".to_string(), ty: "usize".to_string() },
            ],
            ty: Some("*mut c_char".to_string()),
        }]
    );
}

#[test]
fn a_variadic_function_gets_no_accessor() {
    let fn_ty = BareFn { variadic: true, ..function(vec![arg(None, "*const c_char")], Some("c_int")) };
    assert!(generate_function_wrapper("printf", &fn_ty).accessors.is_empty());
    assert!(generate_optional_function_wrapper("printf", &fn_ty).accessors.is_empty());
}

#[test]
fn an_optional_function_gets_a_call_and_a_presence_query() {
    let contract = generate_optional_function_wrapper("init", &function(vec![], None));
    assert_eq!(
        contract.accessors,
        vec![
            Accessor {
                name: "init".to_string(),
                op: AccessorOp::CallOptional,
                is_unsafe: false,
                args: vec![],
                ty: None,
            },
            Accessor {
                name: "has_init".to_string(),
                op: AccessorOp::Presence,
                is_unsafe: false,
                args: vec![],
                ty: None,
            },
        ]
    );
    let with_result = generate_optional_function_wrapper(
        "getpid",
        &BareFn { is_unsafe: true, ..function(vec![], Some("c_int")) },
    );
    assert_eq!(with_result.accessors[0].ty.as_deref(), Some("c_int"));
    assert!(with_result.accessors[0].is_unsafe);
    assert!(!with_result.accessors[1].is_unsafe);
}

#[test]
fn a_reference_gets_a_shared_loan_and_a_mutable_one_an_exclusive_loan_too() {
    let shared = generate_reference_wrapper("count", &reference(false, "u32"));
    assert_eq!(
        shared.accessors,
        vec![Accessor {
            name: "count".to_string(),
            op: AccessorOp::Borrow,
            is_unsafe: false,
            args: vec![],
            ty: Some("u32".to_string()),
        }]
    );
    let mutable = generate_reference_wrapper("count", &reference(true, "u32"));
    assert_eq!(mutable.accessors.len(), 2);
    assert_eq!(mutable.accessors[0], shared.accessors[0]);
    assert_eq!(
        mutable.accessors[1],
        Accessor {
            name: "mut_count".to_string(),
            op: AccessorOp::BorrowMut,
            is_unsafe: false,
            args: vec![],
            ty: Some("u32".to_string()),
        }
    );
}

#[test]
fn an_optional_reference_gets_one_loan() {
    let shared = generate_optional_reference_wrapper("count", &reference(false, "u32"));
    assert_eq!(shared.accessors.len(), 1);
    assert_eq!(shared.accessors[0].op, AccessorOp::BorrowOptional);
    let mutable = generate_optional_reference_wrapper("count", &reference(true, "u32"));
    assert_eq!(
        mutable.accessors,
        vec![Accessor {
            name: "count".to_string(),
            op: AccessorOp::BorrowMutOptional,
            is_unsafe: false,
            args: vec![],
            ty: Some("u32".to_string()),
        }]
    );
}

#[test]
fn only_loans_for_writing_are_exclusive() {
    assert!(AccessorOp::BorrowMut.is_exclusive());
    assert!(AccessorOp::BorrowMutOptional.is_exclusive());
    assert!(!AccessorOp::Borrow.is_exclusive());
    assert!(!AccessorOp::BorrowOptional.is_exclusive());
    assert!(!AccessorOp::Call.is_exclusive());
    assert!(!AccessorOp::CallOptional.is_exclusive());
    assert!(!AccessorOp::Presence.is_exclusive());
}

#[test]
fn a_binding_lists_every_field_in_declaration_order() {
    let descriptor = binding(vec![
        field("puts", DeclaredType::BareFn(function(vec![arg(None, "*const c_char")], Some("c_int"))), "fn"),
        field("environ", DeclaredType::Ptr, "*const *const c_char"),
        field("count", DeclaredType::Reference(reference(true, "u32")), "&'a mut u32"),
        field("init", option_of(DeclaredType::BareFn(function(vec![], None))), "Option<fn()>"),
        field("table", option_of(DeclaredType::Ptr), "Option<*mut u8>"),
        field("name", option_of(DeclaredType::Reference(reference(false, "u8"))), "Option<&u8>"),
        field(
            "printf",
            DeclaredType::BareFn(BareFn { variadic: true, ..function(vec![], None) }),
            "fn(...)",
        ),
        field(
            "grouped",
            DeclaredType::Group(Box::new(DeclaredType::Reference(reference(false, "u8")))),
            "&u8",
        ),
    ]);
    assert_eq!(descriptor.ident, "Api");
    let loads: Vec<(String, TypeKind)> =
        descriptor.loads.iter().map(|load| (load.ident.clone(), load.kind)).collect();
    assert_eq!(
        loads,
        vec![
            ("puts".to_string(), TypeKind::Function),
            ("environ".to_string(), TypeKind::RawPointer),
            ("count".to_string(), TypeKind::MutableReference),
            ("init".to_string(), TypeKind::OptionalFunction),
            ("table".to_string(), TypeKind::OptionalRawPointer),
            ("name".to_string(), TypeKind::OptionalImmutableReference),
            ("printf".to_string(), TypeKind::VariadicFunction),
            ("grouped".to_string(), TypeKind::ImmutableReference),
        ]
    );
    assert_eq!(descriptor.wrappers.len(), 8);
    assert_eq!(ops(&descriptor, 0), vec![("puts".to_string(), AccessorOp::Call)]);
    assert_eq!(ops(&descriptor, 1), vec![]);
    assert_eq!(
        ops(&descriptor, 2),
        vec![("count".to_string(), AccessorOp::Borrow), ("mut_count".to_string(), AccessorOp::BorrowMut)]
    );
    assert_eq!(
        ops(&descriptor, 3),
        vec![
            ("init".to_string(), AccessorOp::CallOptional),
            ("has_init".to_string(), AccessorOp::Presence)
        ]
    );
    assert_eq!(ops(&descriptor, 4), vec![]);
    assert_eq!(ops(&descriptor, 5), vec![("name".to_string(), AccessorOp::BorrowOptional)]);
    assert_eq!(ops(&descriptor, 6), vec![]);
    assert_eq!(ops(&descriptor, 7), vec![("grouped".to_string(), AccessorOp::Borrow)]);
    for load in &descriptor.loads {
        assert_eq!(load.plan.len(), 1);
        assert_eq!(load.plan.candidate(0).name, load.ident.as_bytes());
    }
}

#[test]
fn a_struct_without_fields_has_an_empty_binding() {
    let descriptor = binding(vec![]);
    assert!(descriptor.loads.is_empty());
    assert!(descriptor.wrappers.is_empty());
}

#[test]
fn an_unsupported_type_is_named() {
    let ast = schema(vec![
        field("ok", DeclaredType::Ptr, "*const u8"),
        field("number", DeclaredType::Other, "i32"),
        field("maybe", option_of(DeclaredType::Other), "Option<i32>"),
        field(
            "boxed",
            DeclaredType::Path(vec![segment("Box", PathArguments::Empty)]),
            "Box",
        ),
    ]);
    let errors = expand_derive(&ast).unwrap_err();
    assert_eq!(
        errors,
        vec![
            SchemaError { kind: ErrorKind::UnsupportedType, detail: "i32".to_string() },
            SchemaError { kind: ErrorKind::UnsupportedType, detail: "Option<i32>".to_string() },
            SchemaError { kind: ErrorKind::UnsupportedType, detail: "Box".to_string() },
        ]
    );
    assert_eq!(
        errors[0].message(),
        "unsupported type: `i32`, expected one of function, reference, pointer"
    );
}

#[test]
fn only_a_struct_with_named_fields_has_a_binding() {
    let ast = Schema {
        ident: "Api".to_string(),
        attrs: vec![Meta {
            path: "native".to_string(),
            value: MetaValue::List(vec![Meta { path: "colour".to_string(), value: MetaValue::Flag }]),
        }],
        data: Data::Other,
    };
    let errors = expand_derive(&ast).unwrap_err();
    assert_eq!(
        errors,
        vec![
            SchemaError { kind: ErrorKind::UnknownAttribute, detail: "colour".to_string() },
            SchemaError { kind: ErrorKind::NotNamedStruct, detail: String::new() },
        ]
    );
    assert_eq!(errors[0].message(), "unknown attribute `colour`");
    assert_eq!(
        errors[1].message(),
        "`NativeBridge` can only be derived for structs with named fields."
    );
}

#[test]
fn errors_of_attributes_and_of_types_come_together() {
    let rename = Meta {
        path: "rename".to_string(),
        value: MetaValue::Assign(android_xdl::schema::Expr::Str {
            value: "Title".to_string(),
            suffix: String::new(),
        }),
    };
    let ast = Schema {
        ident: "Api".to_string(),
        attrs: vec![Meta {
            path: "native".to_string(),
            value: MetaValue::List(vec![
                Meta { path: "colour".to_string(), value: MetaValue::Flag },
                Meta { path: "implicit".to_string(), value: MetaValue::List(vec![rename]) },
            ]),
        }],
        data: Data::Named(vec![
            field("number", DeclaredType::Other, "i32"),
            FieldDecl {
                attrs: vec![Meta {
                    path: "native".to_string(),
                    value: MetaValue::List(vec![Meta {
                        path: "size".to_string(),
                        value: MetaValue::Flag,
                    }]),
                }],
                ..field("ok", DeclaredType::Ptr, "*const u8")
            },
        ]),
    };
    let kinds: Vec<(ErrorKind, String)> =
        expand_derive(&ast).unwrap_err().into_iter().map(|e| (e.kind, e.detail)).collect();
    assert_eq!(
        kinds,
        vec![
            (ErrorKind::UnknownAttribute, "colour".to_string()),
            (ErrorKind::UnknownRenameRule, "Title".to_string()),
            (ErrorKind::UnknownAttribute, "size".to_string()),
            (ErrorKind::UnsupportedType, "i32".to_string()),
        ]
    );
}

#[test]
fn deriving_twice_gives_the_same_binding() {
    let make = || {
        schema(vec![
            field("puts", DeclaredType::BareFn(function(vec![arg(None, "u8")], None)), "fn(u8)"),
            field("count", option_of(DeclaredType::Reference(reference(true, "u32"))), "Option"),
        ])
    };
    let first = expand_derive(&make());
    let second = expand_derive(&make());
    assert_eq!(first, second);
    assert_eq!(format!("{:?}", first).into_bytes(), format!("{:?}", second).into_bytes());
    let bad = || schema(vec![field("n", DeclaredType::Other, "i32")]);
    assert_eq!(expand_derive(&bad()), expand_derive(&bad()));
}
