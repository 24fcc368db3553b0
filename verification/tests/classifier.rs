use sauro::classify::classify;
use sauro::syntax::{GenericArgs, PathExpr, PathSegment, TypeExpr, TypeKind, TypeNative};
use sauro::typescript::render;

fn seg(name: &str) -> PathSegment {
    PathSegment { ident: name.to_string(), args: GenericArgs::Absent }
}

fn seg_args(name: &str, args: Vec<TypeExpr>) -> PathSegment {
    PathSegment { ident: name.to_string(), args: GenericArgs::Types(args) }
}

fn path1(name: &str) -> TypeExpr {
    TypeExpr::Path(PathExpr { segments: vec![seg(name)] })
}

fn path1_args(name: &str, args: Vec<TypeExpr>) -> TypeExpr {
    TypeExpr::Path(PathExpr { segments: vec![seg_args(name, args)] })
}

fn reference(mutable: bool, inner: TypeExpr) -> TypeExpr {
    TypeExpr::Reference { mutable, inner: Box::new(inner) }
}

fn slice(inner: TypeExpr) -> TypeExpr {
    TypeExpr::Slice { inner: Box::new(inner) }
}

#[test]
fn every_scalar_name_maps_to_its_native_kind() {
    let cases = [
        ("i8", TypeNative::I8),
        ("i16", TypeNative::I16),
        ("i32", TypeNative::I32),
        ("i64", TypeNative::I64),
        ("isize", TypeNative::ISize),
        ("u8", TypeNative::U8),
        ("u16", TypeNative::U16),
        ("u32", TypeNative::U32),
        ("u64", TypeNative::U64),
        ("usize", TypeNative::USize),
        ("f32", TypeNative::F32),
        ("f64", TypeNative::F64),
    ];
    for (name, expected) in cases {
        let t = classify(&path1(name)).unwrap();
        assert_eq!(t.kind, TypeKind::Native(expected));
        assert_eq!(t.rust, name);
    }
}

#[test]
fn small_scalars_are_plain_numbers_and_wide_ones_union_bigint() {
    for name in ["i8", "i16", "i32", "u8", "u16", "u32", "f32", "f64"] {
        let t = classify(&path1(name)).unwrap();
        assert_eq!(render(&t.ts), "number");
    }
    for name in ["i64", "isize", "u64", "usize"] {
        let t = classify(&path1(name)).unwrap();
        assert_eq!(render(&t.ts), "number | bigint");
    }
}

#[test]
fn string_spellings() {
    let owned = classify(&path1("String")).unwrap();
    assert_eq!(owned.kind, TypeKind::StringOwned);
    assert_eq!(render(&owned.ts), "string");

    let boxed = classify(&path1_args("Box", vec![path1("str")])).unwrap();
    assert_eq!(boxed.kind, TypeKind::StringOwned);

    let borrowed = classify(&reference(false, path1("str"))).unwrap();
    assert_eq!(borrowed.kind, TypeKind::StringBorrowed);
    assert_eq!(borrowed.rust, "&str");

    assert!(classify(&reference(true, path1("str"))).is_err());
}

#[test]
fn buffer_spellings() {
    let vec_u8 = classify(&path1_args("Vec", vec![path1("u8")])).unwrap();
    assert_eq!(vec_u8.kind, TypeKind::BufferOwned);
    assert_eq!(render(&vec_u8.ts), "Uint8Array");
    assert_eq!(vec_u8.rust, "Vec<u8>");

    let boxed = classify(&path1_args("Box", vec![slice(path1("u8"))])).unwrap();
    assert_eq!(boxed.kind, TypeKind::BufferOwned);
    assert_eq!(boxed.rust, "Box<[u8]>");

    let shared = classify(&reference(false, slice(path1("u8")))).unwrap();
    assert_eq!(shared.kind, TypeKind::BufferBorrowed);
    assert_eq!(shared.rust, "&[u8]");

    let unique = classify(&reference(true, slice(path1("u8")))).unwrap();
    assert_eq!(unique.kind, TypeKind::BufferBorrowedMut);
    assert_eq!(unique.rust, "&mut [u8]");
}

#[test]
fn option_and_result_and_vec_are_json() {
    let opt = classify(&path1_args("Option", vec![path1("f32")])).unwrap();
    assert_eq!(opt.kind, TypeKind::Json);
    assert_eq!(render(&opt.ts), "number | null");

    let res = classify(&path1_args("Result", vec![path1("f32"), path1("String")])).unwrap();
    assert_eq!(res.kind, TypeKind::Json);
    assert_eq!(render(&res.ts), "number");

    let vec_named = classify(&path1_args("Vec", vec![path1("Point")])).unwrap();
    assert_eq!(vec_named.kind, TypeKind::Json);
    assert_eq!(render(&vec_named.ts), "Point[]");

    let vec_opt = classify(
        &path1_args("Vec", vec![path1_args("Option", vec![path1("i64")])]),
    )
    .unwrap();
    assert_eq!(render(&vec_opt.ts), "(number | bigint | null)[]");
}

#[test]
fn plain_named_types_are_json_structs() {
    let t = classify(&path1("Input")).unwrap();
    assert_eq!(t.kind, TypeKind::Json);
    assert_eq!(render(&t.ts), "Input");
    assert_eq!(t.rust, "Input");
}

#[test]
fn fully_qualified_aliases_are_accepted() {
    let boxed = TypeExpr::Path(PathExpr {
        segments: vec![seg("std"), seg("boxed"), seg_args("Box", vec![path1("str")])],
    });
    // The alias path is `std::box::Box` in the subset's canonical shape.
    assert!(classify(&boxed).is_err());

    let boxed = TypeExpr::Path(PathExpr {
        segments: vec![seg("std"), seg("box"), seg_args("Box", vec![path1("str")])],
    });
    let t = classify(&boxed).unwrap();
    assert_eq!(t.kind, TypeKind::StringOwned);

    let opt = TypeExpr::Path(PathExpr {
        segments: vec![seg("core"), seg("option"), seg_args("Option", vec![path1("u32")])],
    });
    assert_eq!(classify(&opt).unwrap().kind, TypeKind::Json);

    let vec_alias = TypeExpr::Path(PathExpr {
        segments: vec![seg("alloc"), seg("vec"), seg_args("Vec", vec![path1("u8")])],
    });
    assert_eq!(classify(&vec_alias).unwrap().kind, TypeKind::BufferOwned);

    let res = TypeExpr::Path(PathExpr {
        segments: vec![
            seg("std"),
            seg("result"),
            seg_args("Result", vec![path1("i8"), path1("String")]),
        ],
    });
    assert_eq!(classify(&res).unwrap().kind, TypeKind::Json);
}

#[test]
fn qualified_paths_keep_their_spelling() {
    let boxed = TypeExpr::Path(PathExpr {
        segments: vec![seg("std"), seg("box"), seg_args("Box", vec![path1("str")])],
    });
    let t = classify(&boxed).unwrap();
    assert_eq!(t.rust, "std::box::Box<str>");

    let opt = classify(&path1_args("Option", vec![path1("f32")])).unwrap();
    assert_eq!(opt.rust, "Option<f32>");

    let res = classify(&path1_args("Result", vec![path1("f32"), path1("String")])).unwrap();
    assert_eq!(res.rust, "Result<f32, String>");
}

#[test]
fn unsupported_types_are_rejected() {
    // A generic named type.
    assert!(classify(&path1_args("Foo", vec![path1("i32")])).is_err());
    // A scalar with generic arguments.
    assert!(classify(&path1_args("i8", vec![path1("i32")])).is_err());
    // A two-segment path.
    let two = TypeExpr::Path(PathExpr { segments: vec![seg("std"), seg("i32")] });
    assert!(classify(&two).is_err());
    // A reference to a named type.
    assert!(classify(&reference(false, path1("Input"))).is_err());
    // A double reference.
    assert!(classify(&reference(false, reference(false, path1("str")))).is_err());
    // A slice outside a reference or box.
    assert!(classify(&slice(path1("u8"))).is_err());
    // A non-byte slice reference.
    assert!(classify(&reference(false, slice(path1("f32")))).is_err());
    // A construct outside the subset entirely.
    assert!(classify(&TypeExpr::Opaque).is_err());
    // Option of a non-path argument.
    assert!(classify(&path1_args("Option", vec![reference(false, path1("str"))])).is_err());
    // Result with one argument.
    assert!(classify(&path1_args("Result", vec![path1("i32")])).is_err());
    // Box of something else.
    assert!(classify(&path1_args("Box", vec![path1("i32")])).is_err());
    // Option of an unsupported inner type.
    assert!(classify(&path1_args("Option", vec![path1_args("Foo", vec![path1("i32")])])).is_err());
}

#[test]
fn nested_option_flattens_its_union() {
    let t = classify(
        &path1_args("Option", vec![path1_args("Option", vec![path1("i32")])]),
    )
    .unwrap();
    assert_eq!(render(&t.ts), "number | null | null");
}
