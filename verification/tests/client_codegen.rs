use sauro::expand::expand_module;
use sauro::parse::{
    parse_module, AttrPath, RawArg, RawField, RawFields, RawFn, RawItem, RawItemMod, RawReturn,
    RawSig,
};
use sauro::span::Span;
use sauro::syntax::{GenericArgs, Module, PathExpr, PathSegment, TypeExpr};

fn sp() -> Span {
    Span { line: 1, column: 0 }
}

fn path1(name: &str) -> TypeExpr {
    TypeExpr::Path(PathExpr {
        segments: vec![PathSegment { ident: name.to_string(), args: GenericArgs::Absent }],
    })
}

fn path1_args(name: &str, args: Vec<TypeExpr>) -> TypeExpr {
    TypeExpr::Path(PathExpr {
        segments: vec![PathSegment { ident: name.to_string(), args: GenericArgs::Types(args) }],
    })
}

fn arg(name: &str, ty: TypeExpr) -> RawArg {
    RawArg::Typed { mutable: false, ident: name.to_string(), ty, span: sp() }
}

fn func(name: &str, non_blocking: bool, inputs: Vec<RawArg>, output: RawReturn) -> RawItem {
    let attrs = if non_blocking {
        vec![AttrPath { segments: vec!["sauro".to_string(), "non_blocking".to_string()] }]
    } else {
        vec![]
    };
    RawItem::Fn(RawFn {
        attrs,
        sig: RawSig {
            constness: false,
            asyncness: false,
            unsafety: false,
            has_abi: false,
            has_generics: false,
            ident: name.to_string(),
            inputs,
            output,
            span: sp(),
        },
        body: "{ 0 }".to_string(),
        span: sp(),
    })
}

fn make_module(items: Vec<RawItem>) -> Module {
    let raw = RawItemMod {
        attrs: vec![AttrPath { segments: vec!["sauro".to_string(), "bindgen".to_string()] }],
        ident: "deno".to_string(),
        content: Some(items),
        span: sp(),
    };
    parse_module(&raw).unwrap()
}

#[test]
fn struct_parameter_module_generates_exactly() {
    let m = make_module(vec![
        RawItem::Struct(sauro::parse::RawStruct {
            ident: "Input".to_string(),
            has_generics: false,
            fields: RawFields::Named(vec![
                RawField { ident: "a".to_string(), ty: path1("i32"), span: sp() },
                RawField { ident: "b".to_string(), ty: path1("i32"), span: sp() },
            ]),
            span: sp(),
        }),
        func("add", false, vec![arg("input", path1("Input"))], RawReturn::Type(path1("i32"), sp())),
    ]);
    let out = expand_module(&m, "add", "./");

    let mut expected = String::new();
    expected.push_str("export type Input = {\n");
    expected.push_str("  a: number;\n");
    expected.push_str("  b: number;\n");
    expected.push_str("}\n");
    expected.push_str("\n");
    expected.push_str("const { symbols: __symbols } = Deno.dlopen(\n");
    expected.push_str("  new URL(\n");
    expected.push_str("    {\n");
    expected.push_str("      darwin: './libadd.dylib',\n");
    expected.push_str("      linux: './libadd.so',\n");
    expected.push_str("      windows: './add.dll',\n");
    expected.push_str("      freebsd: './libadd.so',\n");
    expected.push_str("      netbsd: './libadd.so',\n");
    expected.push_str("      aix: './libadd.so',\n");
    expected.push_str("      solaris: './libadd.so',\n");
    expected.push_str("      illumos: './libadd.so',\n");
    expected.push_str("    }[Deno.build.os],\n");
    expected.push_str("    import.meta.url\n");
    expected.push_str("  ),\n");
    expected.push_str("  {\n");
    expected.push_str("    \"add\": {\n");
    expected.push_str("      \"parameters\": [\"buffer\", \"usize\"],\n");
    expected.push_str("      \"result\": \"i32\",\n");
    expected.push_str("      \"nonblocking\": false,\n");
    expected.push_str("    },\n");
    expected.push_str("  }\n");
    expected.push_str(");\n");
    expected.push_str("export function add(input: Input): number {\n");
    expected.push_str("  const __arg0_ptr = __structEncode(input);\n");
    expected.push_str("  const __arg0_len = __arg0_ptr.byteLength;\n");
    expected.push_str("\n");
    expected.push_str("  const __res = __symbols.add(__arg0_ptr, __arg0_len);\n");
    expected.push_str("  return __res\n");
    expected.push_str("}\n");
    expected.push_str("\n");
    expected.push_str(
        "function __stringEncode(s: string): Uint8Array {\n    return new TextEncoder().encode(s);\n}\n",
    );
    expected.push_str("\n");
    expected.push_str(
        "function __structEncode(v: any): Uint8Array {\n    return __stringEncode(JSON.stringify(v));\n}\n",
    );
    expected.push_str("\n");

    assert_eq!(out, expected);
}

#[test]
fn scalar_function_uses_no_buffers() {
    let m = make_module(vec![func(
        "add",
        false,
        vec![arg("a", path1("i32")), arg("b", path1("i32"))],
        RawReturn::Type(path1("i32"), sp()),
    )]);
    let out = expand_module(&m, "adder", "./");
    assert!(out.contains("export function add(a: number, b: number): number {\n"));
    assert!(out.contains("  const __arg0 = a;\n"));
    assert!(out.contains("  const __arg1 = b;\n"));
    assert!(out.contains("  const __res = __symbols.add(__arg0, __arg1);\n"));
    assert!(out.contains("  return __res\n"));
    assert!(out.contains("\"parameters\": [\"i32\", \"i32\"],\n"));
    assert!(out.contains("\"result\": \"i32\",\n"));
    assert!(!out.contains("byteLength"));
    assert!(!out.contains("__stringEncode"));
    assert!(!out.contains("__structEncode"));
    assert!(!out.contains("__lenPrefixedBuffer"));
}

#[test]
fn non_blocking_string_function_returns_a_promise() {
    let borrowed_str = TypeExpr::Reference { mutable: false, inner: Box::new(path1("str")) };
    let borrowed_str2 = TypeExpr::Reference { mutable: false, inner: Box::new(path1("str")) };
    let m = make_module(vec![func(
        "concat",
        true,
        vec![arg("a", borrowed_str), arg("b", borrowed_str2)],
        RawReturn::Type(path1("String"), sp()),
    )]);
    let out = expand_module(&m, "concat", "./");
    assert!(out.contains("export async function concat(a: string, b: string): Promise<string> {\n"));
    assert!(out.contains("  const __arg0_ptr = __stringEncode(a);\n"));
    assert!(out.contains("  const __arg0_len = __arg0_ptr.byteLength;\n"));
    assert!(out.contains("  const __arg1_ptr = __stringEncode(b);\n"));
    assert!(out.contains("  const __res = __symbols.concat(__arg0_ptr, __arg0_len, __arg1_ptr, __arg1_len);\n"));
    assert!(out.contains("  return __res.then(__lenPrefixedBuffer).then(__stringDecode);\n"));
    assert!(out.contains("\"parameters\": [\"buffer\", \"usize\", \"buffer\", \"usize\"],\n"));
    assert!(out.contains("\"result\": \"buffer\",\n"));
    assert!(out.contains("\"nonblocking\": true,\n"));
    assert!(out.contains("function __stringEncode"));
    assert!(out.contains("function __stringDecode"));
    assert!(out.contains("function __lenPrefixedBuffer"));
    assert!(!out.contains("function __structEncode"));
    assert!(!out.contains("function __structDecode"));
}

#[test]
fn option_return_decodes_from_json() {
    let m = make_module(vec![func(
        "sqrt",
        false,
        vec![arg("x", path1("f32"))],
        RawReturn::Type(path1_args("Option", vec![path1("f32")]), sp()),
    )]);
    let out = expand_module(&m, "maths", "./");
    assert!(out.contains("export function sqrt(x: number): number | null {\n"));
    assert!(out.contains("  return __structDecode(__lenPrefixedBuffer(__res));\n"));
    assert!(out.contains("\"result\": \"buffer\",\n"));
    assert!(out.contains("function __structDecode"));
    assert!(out.contains("function __lenPrefixedBuffer"));
}

#[test]
fn buffer_round_trip_wrapper() {
    let m = make_module(vec![func(
        "invert",
        false,
        vec![arg("data", path1_args("Vec", vec![path1("u8")]))],
        RawReturn::Type(path1_args("Vec", vec![path1("u8")]), sp()),
    )]);
    let out = expand_module(&m, "img", "../");
    assert!(out.contains("export function invert(data: Uint8Array): Uint8Array {\n"));
    assert!(out.contains("  const __arg0_ptr = data;\n"));
    assert!(out.contains("  return __lenPrefixedBuffer(__res);\n"));
    assert!(out.contains("      linux: '../libimg.so',\n"));
    assert!(out.contains("      windows: '../img.dll',\n"));
    // Buffers need no encoder, only the length-prefix stripper.
    assert!(!out.contains("function __stringEncode"));
    assert!(out.contains("function __lenPrefixedBuffer"));
}

#[test]
fn generating_twice_is_byte_identical() {
    let m1 = make_module(vec![
        func(
            "concat",
            true,
            vec![arg(
                "a",
                TypeExpr::Reference { mutable: false, inner: Box::new(path1("str")) },
            )],
            RawReturn::Type(path1("String"), sp()),
        ),
        func("nop", false, vec![], RawReturn::Default),
    ]);
    let m2 = make_module(vec![
        func(
            "concat",
            true,
            vec![arg(
                "a",
                TypeExpr::Reference { mutable: false, inner: Box::new(path1("str")) },
            )],
            RawReturn::Type(path1("String"), sp()),
        ),
        func("nop", false, vec![], RawReturn::Default),
    ]);
    let out1 = expand_module(&m1, "lib", "./");
    let out2 = expand_module(&m2, "lib", "./");
    assert_eq!(out1.into_bytes(), out2.into_bytes());

    let native1 = sauro::native::bindgen(&m1);
    let native2 = sauro::native::bindgen(&m2);
    assert_eq!(native1.into_bytes(), native2.into_bytes());
}

#[test]
fn structs_print_before_the_load_expression_and_wrappers() {
    let m = make_module(vec![
        func("first", false, vec![], RawReturn::Default),
        RawItem::Struct(sauro::parse::RawStruct {
            ident: "Late".to_string(),
            has_generics: false,
            fields: RawFields::Named(vec![]),
            span: sp(),
        }),
        func("second", false, vec![], RawReturn::Default),
    ]);
    let out = expand_module(&m, "lib", "./");
    let ty = out.find("export type Late").unwrap();
    let load = out.find("Deno.dlopen").unwrap();
    let f1 = out.find("export function first").unwrap();
    let f2 = out.find("export function second").unwrap();
    assert!(ty < load);
    assert!(load < f1);
    assert!(f1 < f2);
    // The descriptor table lists the functions in declaration order.
    let e1 = out.find("    \"first\": {").unwrap();
    let e2 = out.find("    \"second\": {").unwrap();
    assert!(e1 < e2);
}

#[test]
fn an_item_less_module_still_loads_the_library() {
    let m = make_module(vec![]);
    let out = expand_module(&m, "empty", "./");
    assert!(out.starts_with("const { symbols: __symbols } = Deno.dlopen(\n"));
    assert!(out.contains("      darwin: './libempty.dylib',\n"));
    assert!(out.ends_with("  {\n  }\n);\n"));
    assert!(!out.contains("export"));
    assert!(!out.contains("function __"));
}

#[test]
fn void_function_emits_no_return_statement() {
    let m = make_module(vec![func("ping", false, vec![], RawReturn::Default)]);
    let out = expand_module(&m, "lib", "./");
    assert!(out.contains("export function ping() {\n"));
    assert!(out.contains("  const __res = __symbols.ping();\n"));
    assert!(out.contains("\"result\": \"void\",\n"));
    assert!(!out.contains("return __res"));
}
