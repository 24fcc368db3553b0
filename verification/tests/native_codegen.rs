use sauro::native::bindgen;
use sauro::parse::{
    parse_module, AttrPath, RawArg, RawField, RawFields, RawFn, RawItem, RawItemMod, RawReturn,
    RawSig, RawStruct,
};
use sauro::span::Span;
use sauro::syntax::{GenericArgs, Module, PathExpr, PathSegment, TypeExpr};

fn sp() -> Span {
    Span { line: 1, column: 0 }
}

fn path1(name: &str) -> TypeExpr {
    TypeExpr::Path(PathExpr {
        segments: vec![PathSegment { ident: name.to_string(), args: GenericArgs::Absent }],
    })
}

fn path1_args(name: &str, args: Vec<TypeExpr>) -> TypeExpr {
    TypeExpr::Path(PathExpr {
        segments: vec![PathSegment { ident: name.to_string(), args: GenericArgs::Types(args) }],
    })
}

fn arg(name: &str, mutable: bool, ty: TypeExpr) -> RawArg {
    RawArg::Typed { mutable, ident: name.to_string(), ty, span: sp() }
}

fn func(name: &str, body: &str, inputs: Vec<RawArg>, output: RawReturn) -> RawItem {
    RawItem::Fn(RawFn {
        attrs: vec![],
        sig: RawSig {
            constness: false,
            asyncness: false,
            unsafety: false,
            has_abi: false,
            has_generics: false,
            ident: name.to_string(),
            inputs,
            output,
            span: sp(),
        },
        body: body.to_string(),
        span: sp(),
    })
}

fn make_module(items: Vec<RawItem>) -> Module {
    let raw = RawItemMod {
        attrs: vec![AttrPath { segments: vec!["sauro".to_string(), "bindgen".to_string()] }],
        ident: "deno".to_string(),
        content: Some(items),
        span: sp(),
    };
    parse_module(&raw).unwrap()
}

#[test]
fn scalar_wrapper_generates_exactly() {
    let m = make_module(vec![func(
        "add2",
        "{ a + b }",
        vec![arg("a", false, path1("i32")), arg("b", false, path1("i32"))],
        RawReturn::Type(path1("i32"), sp()),
    )]);
    let out = bindgen(&m);

    let mut expected = String::new();
    expected.push_str("pub mod deno {\n");
    expected.push_str("    #[no_mangle]\n");
    expected.push_str("    pub unsafe extern \"C\" fn add2(__arg0: i32, __arg1: i32) -> i32 {\n");
    expected.push_str("        fn __inner_impl(a: i32, b: i32) -> i32 { a + b }\n");
    expected.push_str("        let a = __arg0;\n");
    expected.push_str("        let b = __arg1;\n");
    expected.push_str("        let __inner_res = __inner_impl(a, b);\n");
    expected.push_str("        __inner_res\n");
    expected.push_str("    }\n");
    expected.push_str("\n");
    expected.push_str("}\n");

    assert_eq!(out, expected);
}

#[test]
fn struct_declaration_carries_serialization_derives() {
    let m = make_module(vec![RawItem::Struct(RawStruct {
        ident: "Input".to_string(),
        has_generics: false,
        fields: RawFields::Named(vec![
            RawField { ident: "a".to_string(), ty: path1("i32"), span: sp() },
            RawField { ident: "b".to_string(), ty: path1("i32"), span: sp() },
        ]),
        span: sp(),
    })]);
    let out = bindgen(&m);
    assert!(out.contains("    #[derive(::sauro::serde::Serialize, ::sauro::serde::Deserialize)]\n"));
    assert!(out.contains("    #[serde(crate = \"::sauro::serde\")]\n"));
    assert!(out.contains("    pub struct Input {\n"));
    assert!(out.contains("        pub a: i32,\n"));
    assert!(out.contains("        pub b: i32,\n"));
}

#[test]
fn json_parameter_is_deserialized_before_the_call() {
    let m = make_module(vec![func(
        "add",
        "{ input.a + input.b }",
        vec![arg("input", false, path1("Input"))],
        RawReturn::Type(path1("i32"), sp()),
    )]);
    let out = bindgen(&m);
    assert!(out.contains("pub unsafe extern \"C\" fn add(__arg0_ptr: *mut u8, __arg0_len: usize) -> i32 {\n"));
    assert!(out.contains("        let input: Input = { let buf = unsafe { ::std::slice::from_raw_parts(__arg0_ptr, __arg0_len) }; ::sauro::serde_json::from_slice(buf).expect(\"failed to deserialize binding arguments\") };\n"));
}

#[test]
fn string_return_is_length_prefixed_and_leaked() {
    let borrowed_a = TypeExpr::Reference { mutable: false, inner: Box::new(path1("str")) };
    let borrowed_b = TypeExpr::Reference { mutable: false, inner: Box::new(path1("str")) };
    let m = make_module(vec![func(
        "concat",
        "{ format!(\"{}{}\", a, b) }",
        vec![arg("a", false, borrowed_a), arg("b", false, borrowed_b)],
        RawReturn::Type(path1("String"), sp()),
    )]);
    let out = bindgen(&m);
    assert!(out.contains(" -> *const u8 {\n"));
    assert!(out.contains("::std::str::from_utf8(buf).expect(\"failed to deserialize string\")"));
    assert!(out.contains("            let encoded_str = x.as_bytes();\n"));
    assert!(out.contains("            let encoded_length = (encoded_str.len() as u32).to_be_bytes();\n"));
    assert!(out.contains("            ::std::mem::forget(buffer);\n"));
    assert!(out.contains("            ptr\n"));
}

#[test]
fn buffer_parameters_are_rebuilt_from_raw_parts() {
    let shared = TypeExpr::Reference {
        mutable: false,
        inner: Box::new(TypeExpr::Slice { inner: Box::new(path1("u8")) }),
    };
    let unique = TypeExpr::Reference {
        mutable: true,
        inner: Box::new(TypeExpr::Slice { inner: Box::new(path1("u8")) }),
    };
    let m = make_module(vec![func(
        "touch",
        "{ }",
        vec![
            arg("a", false, shared),
            arg("b", false, unique),
            arg("c", true, path1_args("Vec", vec![path1("u8")])),
        ],
        RawReturn::Default,
    )]);
    let out = bindgen(&m);
    assert!(out.contains("        let a = unsafe { ::std::slice::from_raw_parts(__arg0_ptr, __arg0_len) };\n"));
    assert!(out.contains("        let mut b = unsafe { ::std::slice::from_raw_parts_mut(__arg1_ptr, __arg1_len) };\n"));
    assert!(out.contains("        let mut c: Vec<u8> = { let buf = unsafe { ::std::slice::from_raw_parts_mut(__arg2_ptr, __arg2_len) }; buf.to_owned().into() };\n"));
    assert!(out.contains("fn __inner_impl(a: &[u8], b: &mut [u8], mut c: Vec<u8>) { }\n"));
}

#[test]
fn json_return_is_serialized_and_length_prefixed() {
    let m = make_module(vec![func(
        "sqrt",
        "{ None }",
        vec![arg("x", false, path1("f32"))],
        RawReturn::Type(path1_args("Option", vec![path1("f32")]), sp()),
    )]);
    let out = bindgen(&m);
    assert!(out.contains("pub unsafe extern \"C\" fn sqrt(__arg0: f32) -> *const u8 {\n"));
    assert!(out.contains("        fn __inner_impl(x: f32) -> Option<f32> { None }\n"));
    assert!(out.contains("            let x: Option<f32> = __inner_res;\n"));
    assert!(out.contains("            let json = ::sauro::serde_json::to_string(&x).expect(\"failed to serialize binding result\");\n"));
    assert!(out.contains("            let encoded_length = (encoded_json.len() as u32).to_be_bytes();\n"));
}
