use sauro::parse::{
    parse_file, parse_module, AttrPath, ParseError, RawArg, RawField, RawFields, RawFn, RawItem,
    RawItemMod, RawReturn, RawSig, RawStruct,
};
use sauro::span::Span;
use sauro::syntax::{GenericArgs, Item, PathExpr, PathSegment, ReturnType, TypeExpr, TypeKind};

fn sp(line: usize) -> Span {
    Span { line, column: 0 }
}

fn attr(s0: &str, s1: &str) -> AttrPath {
    AttrPath { segments: vec![s0.to_string(), s1.to_string()] }
}

fn path1(name: &str) -> TypeExpr {
    TypeExpr::Path(PathExpr {
        segments: vec![PathSegment { ident: name.to_string(), args: GenericArgs::Absent }],
    })
}

fn arg(name: &str, ty: TypeExpr) -> RawArg {
    RawArg::Typed { mutable: false, ident: name.to_string(), ty, span: sp(2) }
}

fn sig(name: &str, inputs: Vec<RawArg>, output: RawReturn) -> RawSig {
    RawSig {
        constness: false,
        asyncness: false,
        unsafety: false,
        has_abi: false,
        has_generics: false,
        ident: name.to_string(),
        inputs,
        output,
        span: sp(2),
    }
}

fn func(name: &str, inputs: Vec<RawArg>, output: RawReturn) -> RawItem {
    RawItem::Fn(RawFn {
        attrs: vec![],
        sig: sig(name, inputs, output),
        body: "{ 0 }".to_string(),
        span: sp(2),
    })
}

fn module(items: Vec<RawItem>) -> RawItemMod {
    RawItemMod {
        attrs: vec![attr("sauro", "bindgen")],
        ident: "deno".to_string(),
        content: Some(items),
        span: sp(1),
    }
}

fn err_message(e: ParseError) -> String {
    e.message
}

#[test]
fn a_plain_function_parses() {
    let raw = module(vec![func(
        "add",
        vec![arg("a", path1("i32")), arg("b", path1("i32"))],
        RawReturn::Type(path1("i32"), sp(2)),
    )]);
    let m = parse_module(&raw).unwrap();
    assert_eq!(m.ident, "deno");
    assert_eq!(m.items.len(), 1);
    match &m.items[0] {
        Item::Fn(f) => {
            assert_eq!(f.sig.ident, "add");
            assert!(!f.non_blocking);
            assert_eq!(f.sig.inputs.len(), 2);
            assert_eq!(f.sig.inputs[0].ident, "a");
            assert_eq!(f.sig.inputs[0].ty.kind, TypeKind::Native(sauro::syntax::TypeNative::I32));
            match &f.sig.output {
                ReturnType::Type(t) => assert_eq!(t.rust, "i32"),
                ReturnType::Default => panic!("missing return type"),
            }
        },
        Item::Struct(_) => panic!("expected a function"),
    }
}

#[test]
fn the_secondary_annotation_marks_non_blocking() {
    let mut raw = module(vec![]);
    raw.content = Some(vec![RawItem::Fn(RawFn {
        attrs: vec![attr("sauro", "non_blocking")],
        sig: sig("work", vec![], RawReturn::Default),
        body: "{ }".to_string(),
        span: sp(2),
    })]);
    let m = parse_module(&raw).unwrap();
    match &m.items[0] {
        Item::Fn(f) => assert!(f.non_blocking),
        Item::Struct(_) => panic!("expected a function"),
    }
}

#[test]
fn only_the_exact_annotation_counts() {
    let mut raw = module(vec![]);
    raw.content = Some(vec![RawItem::Fn(RawFn {
        attrs: vec![attr("other", "non_blocking"), attr("sauro", "blocking")],
        sig: sig("work", vec![], RawReturn::Default),
        body: "{ }".to_string(),
        span: sp(2),
    })]);
    let m = parse_module(&raw).unwrap();
    match &m.items[0] {
        Item::Fn(f) => assert!(!f.non_blocking),
        Item::Struct(_) => panic!("expected a function"),
    }
}

#[test]
fn a_struct_with_named_fields_parses() {
    let raw = module(vec![RawItem::Struct(RawStruct {
        ident: "Input".to_string(),
        has_generics: false,
        fields: RawFields::Named(vec![
            RawField { ident: "a".to_string(), ty: path1("i32"), span: sp(3) },
            RawField { ident: "b".to_string(), ty: path1("i32"), span: sp(4) },
        ]),
        span: sp(2),
    })]);
    let m = parse_module(&raw).unwrap();
    match &m.items[0] {
        Item::Struct(st) => {
            assert_eq!(st.ident, "Input");
            assert_eq!(st.fields.len(), 2);
            assert_eq!(st.fields[1].ident, "b");
        },
        Item::Fn(_) => panic!("expected a struct"),
    }
}

#[test]
fn disallowed_signature_modifiers_are_rejected() {
    let cases: Vec<(fn(&mut RawSig), &str)> = vec![
        (|s| s.constness = true, "const functions are not supported"),
        (|s| s.asyncness = true, "async functions are not supported"),
        (|s| s.unsafety = true, "unsafe functions are not supported"),
        (|s| s.has_abi = true, "extern functions are not supported"),
        (|s| s.has_generics = true, "generic functions are not supported"),
    ];
    for (tweak, expected) in cases {
        let mut s = sig("f", vec![], RawReturn::Default);
        tweak(&mut s);
        let raw = module(vec![RawItem::Fn(RawFn {
            attrs: vec![],
            sig: s,
            body: "{ }".to_string(),
            span: sp(2),
        })]);
        let e = parse_module(&raw).unwrap_err();
        assert_eq!(err_message(e), expected);
    }
}

#[test]
fn receivers_and_patterns_are_rejected() {
    let raw = module(vec![func("f", vec![RawArg::Receiver { span: sp(9) }], RawReturn::Default)]);
    let e = parse_module(&raw).unwrap_err();
    assert_eq!(e.message, "self argument is not supported");
    assert_eq!(e.span, sp(9));

    let raw = module(vec![func("f", vec![RawArg::Pattern { span: sp(8) }], RawReturn::Default)]);
    let e = parse_module(&raw).unwrap_err();
    assert_eq!(e.message, "pattern matching is not supported");
}

#[test]
fn unsupported_parameter_types_are_rejected() {
    let raw = module(vec![func("f", vec![arg("x", TypeExpr::Opaque)], RawReturn::Default)]);
    let e = parse_module(&raw).unwrap_err();
    assert_eq!(e.message, "unsupported type");
}

#[test]
fn borrowed_return_types_are_rejected() {
    let borrowed_string = TypeExpr::Reference { mutable: false, inner: Box::new(path1("str")) };
    let raw = module(vec![func("f", vec![], RawReturn::Type(borrowed_string, sp(5)))]);
    let e = parse_module(&raw).unwrap_err();
    assert_eq!(e.message, "borrowed types are not supported as return types");
    assert_eq!(e.span, sp(5));

    let borrowed_buffer = TypeExpr::Reference {
        mutable: true,
        inner: Box::new(TypeExpr::Slice { inner: Box::new(path1("u8")) }),
    };
    let raw = module(vec![func("g", vec![], RawReturn::Type(borrowed_buffer, sp(6)))]);
    let e = parse_module(&raw).unwrap_err();
    assert_eq!(e.message, "borrowed types are not supported as return types");
}

#[test]
fn owned_return_types_pass_where_borrowed_ones_fail() {
    let raw = module(vec![func("f", vec![], RawReturn::Type(path1("String"), sp(5)))]);
    assert!(parse_module(&raw).is_ok());
}

#[test]
fn generic_structs_and_field_shapes_are_rejected() {
    let raw = module(vec![RawItem::Struct(RawStruct {
        ident: "S".to_string(),
        has_generics: true,
        fields: RawFields::Named(vec![]),
        span: sp(2),
    })]);
    assert_eq!(parse_module(&raw).unwrap_err().message, "type parameters are not supported");

    let raw = module(vec![RawItem::Struct(RawStruct {
        ident: "S".to_string(),
        has_generics: false,
        fields: RawFields::Unnamed,
        span: sp(2),
    })]);
    assert_eq!(parse_module(&raw).unwrap_err().message, "tuple structs are not supported");

    let raw = module(vec![RawItem::Struct(RawStruct {
        ident: "S".to_string(),
        has_generics: false,
        fields: RawFields::Unit,
        span: sp(2),
    })]);
    assert_eq!(parse_module(&raw).unwrap_err().message, "unit structs are not supported");
}

#[test]
fn other_items_and_empty_modules_are_rejected() {
    let raw = module(vec![RawItem::Other { span: sp(7) }]);
    let e = parse_module(&raw).unwrap_err();
    assert_eq!(e.message, "unsupported item");
    assert_eq!(e.span, sp(7));

    let mut raw = module(vec![]);
    raw.content = None;
    assert_eq!(parse_module(&raw).unwrap_err().message, "modules can not be empty");
}

#[test]
fn the_first_offence_wins() {
    let raw = module(vec![
        func("ok", vec![], RawReturn::Default),
        RawItem::Other { span: sp(20) },
        func("f", vec![RawArg::Receiver { span: sp(30) }], RawReturn::Default),
    ]);
    let e = parse_module(&raw).unwrap_err();
    assert_eq!(e.message, "unsupported item");
    assert_eq!(e.span, sp(20));
}

#[test]
fn exactly_one_annotated_module_per_file() {
    let plain = RawItemMod {
        attrs: vec![],
        ident: "helpers".to_string(),
        content: Some(vec![]),
        span: sp(1),
    };
    let annotated = module(vec![func("f", vec![], RawReturn::Default)]);

    let mods = vec![plain, annotated];
    let m = parse_file(&mods).unwrap();
    assert_eq!(m.ident, "deno");

    let none: Vec<RawItemMod> = vec![RawItemMod {
        attrs: vec![],
        ident: "helpers".to_string(),
        content: Some(vec![]),
        span: sp(1),
    }];
    assert_eq!(parse_file(&none).unwrap_err().message, "no annotated module found");

    let two = vec![
        module(vec![func("f", vec![], RawReturn::Default)]),
        module(vec![func("g", vec![], RawReturn::Default)]),
    ];
    let e = parse_file(&two).unwrap_err();
    assert_eq!(e.message, "more than one annotated module per file is not supported");
}
