//! The type classifier.
//!
//! Every declared type is mapped to a wire-representation category by the
//! priority-ordered rules below, matched structurally against the type
//! expression; fully-qualified `std`/`core`/`alloc` paths are accepted as
//! aliases of the short spellings.  Anything outside the rules is rejected,
//! never approximated.

use vstd::prelude::*;
use vstd::string::*;

use crate::syntax::{
    expr_text, GenericArgs, PathExpr, PathSegment, render_expr, Type, TypeExpr, TypeKind,
    TypeNative,
};
use crate::text::str_eq;
use crate::typescript;

verus! {

/// A classification failure; the declaration subset knows only one, the
/// type is not representable on the wire.
#[derive(Debug)]
pub struct ClassifyError {}

/// What the rules assign to a type expression: the wire kind, the text of
/// the client-language type, and whether that text is a union of several
/// members (and so needs parentheses under an array suffix).
pub struct Classified {
    pub kind: TypeKind,
    pub ts: Seq<char>,
    pub multi: bool,
}

/// The native scalar named `name`, if any.
pub open spec fn scalar_kind(name: Seq<char>) -> Option<TypeNative> {
    if name == "i8"@ {
        Some(TypeNative::I8)
    } else if name == "i16"@ {
        Some(TypeNative::I16)
    } else if name == "i32"@ {
        Some(TypeNative::I32)
    } else if name == "i64"@ {
        Some(TypeNative::I64)
    } else if name == "isize"@ {
        Some(TypeNative::ISize)
    } else if name == "u8"@ {
        Some(TypeNative::U8)
    } else if name == "u16"@ {
        Some(TypeNative::U16)
    } else if name == "u32"@ {
        Some(TypeNative::U32)
    } else if name == "u64"@ {
        Some(TypeNative::U64)
    } else if name == "usize"@ {
        Some(TypeNative::USize)
    } else if name == "f32"@ {
        Some(TypeNative::F32)
    } else if name == "f64"@ {
        Some(TypeNative::F64)
    } else {
        None
    }
}

/// Whether the client can hold every value of the scalar in its plain
/// numeric type; 64-bit and pointer-sized integers may not fit and take a
/// union with the big-integer type instead.
pub open spec fn scalar_small(n: TypeNative) -> bool {
    match n {
        TypeNative::I64 => false,
        TypeNative::ISize => false,
        TypeNative::U64 => false,
        TypeNative::USize => false,
        _ => true,
    }
}

/// The client type text of a native scalar.
pub open spec fn scalar_ts(n: TypeNative) -> Seq<char> {
    if scalar_small(n) {
        "number"@
    } else {
        "number"@ + " | "@ + "bigint"@
    }
}

/// A one-segment path of the given name with no generic arguments.
pub open spec fn is_plain_ident(p: PathExpr, name: Seq<char>) -> bool {
    &&& p.segments@.len() == 1
    &&& p.segments@[0].ident@ == name
    &&& p.segments@[0].args is Absent
}

/// A type expression that is a plain one-segment path of the given name.
pub open spec fn is_plain_expr(e: TypeExpr, name: Seq<char>) -> bool {
    e matches TypeExpr::Path(p) && is_plain_ident(p, name)
}

/// A byte-slice type expression, `[u8]`.
pub open spec fn is_u8_slice(e: TypeExpr) -> bool {
    e matches TypeExpr::Slice { inner } && is_plain_expr(*inner, "u8"@)
}

/// Rule for `Box<...>`: `Box<str>` is an owned string, a boxed byte slice
/// an owned buffer; nothing else is representable.
pub open spec fn box_class(s: PathSegment) -> Option<Classified> {
    match s.args {
        GenericArgs::Types(ts) => if ts@.len() == 1 {
            if is_plain_expr(ts@[0], "str"@) {
                Some(Classified { kind: TypeKind::StringOwned, ts: "string"@, multi: false })
            } else if is_u8_slice(ts@[0]) {
                Some(Classified { kind: TypeKind::BufferOwned, ts: "Uint8Array"@, multi: false })
            } else {
                None
            }
        } else {
            None
        },
        _ => None,
    }
}

/// Rule for `Option<T>`: representable when `T` is a representable path
/// type; carried as JSON, where absence crosses as `null`.
pub open spec fn option_class(s: PathSegment) -> Option<Classified>
    decreases s, 0int,
{
    match s.args {
        GenericArgs::Types(ts) => if ts@.len() == 1 {
            match ts@[0] {
                TypeExpr::Path(q) => match path_class(q) {
                    Some(c) => Some(
                        Classified { kind: TypeKind::Json, ts: c.ts + " | "@ + "null"@, multi: true },
                    ),
                    None => None,
                },
                _ => None,
            }
        } else {
            None
        },
        _ => None,
    }
}

/// Rule for `Result<T, E>`: representable when both sides are
/// representable path types; carried as JSON in the shape of `T` alone.
pub open spec fn result_class(s: PathSegment) -> Option<Classified>
    decreases s, 0int,
{
    match s.args {
        GenericArgs::Types(ts) => if ts@.len() == 2 {
            match (ts@[0], ts@[1]) {
                (TypeExpr::Path(q), TypeExpr::Path(qe)) => match (path_class(q), path_class(qe)) {
                    (Some(c), Some(_)) => Some(
                        Classified { kind: TypeKind::Json, ts: c.ts, multi: c.multi },
                    ),
                    _ => None,
                },
                _ => None,
            }
        } else {
            None
        },
        _ => None,
    }
}

/// Rule for `Vec<T>`: `Vec<u8>` is an owned buffer; any other
/// representable path element is carried as a JSON array.
pub open spec fn vec_class(s: PathSegment) -> Option<Classified>
    decreases s, 0int,
{
    match s.args {
        GenericArgs::Types(ts) => if ts@.len() == 1 {
            if is_plain_expr(ts@[0], "u8"@) {
                Some(Classified { kind: TypeKind::BufferOwned, ts: "Uint8Array"@, multi: false })
            } else {
                match ts@[0] {
                    TypeExpr::Path(q) => match path_class(q) {
                        Some(c) => Some(
                            Classified {
                                kind: TypeKind::Json,
                                ts: if c.multi {
                                    "("@ + c.ts + ")[]"@
                                } else {
                                    c.ts + "[]"@
                                },
                                multi: false,
                            },
                        ),
                        None => None,
                    },
                    _ => None,
                }
            }
        } else {
            None
        },
        _ => None,
    }
}

/// The rules for a one-segment path, in priority order: the twelve scalar
/// names, the string and buffer spellings, the three carried generics, and
/// last any other plain name, taken as a structural type carried as JSON.
pub open spec fn seg_class(s: PathSegment) -> Option<Classified>
    decreases s, 1int,
{
    let name = s.ident@;
    if scalar_kind(name) is Some {
        if s.args is Absent {
            let k = scalar_kind(name)->Some_0;
            Some(
                Classified {
                    kind: TypeKind::Native(k),
                    ts: scalar_ts(k),
                    multi: !scalar_small(k),
                },
            )
        } else {
            None
        }
    } else if name == "String"@ {
        if s.args is Absent {
            Some(Classified { kind: TypeKind::StringOwned, ts: "string"@, multi: false })
        } else {
            None
        }
    } else if name == "Box"@ {
        box_class(s)
    } else if name == "Option"@ {
        option_class(s)
    } else if name == "Result"@ {
        result_class(s)
    } else if name == "Vec"@ {
        vec_class(s)
    } else if s.args is Absent {
        Some(Classified { kind: TypeKind::Json, ts: name, multi: false })
    } else {
        None
    }
}

/// The rules for a path: one segment, or a fully-qualified three-segment
/// alias of `Box`, `Option`, `Result` or `Vec`.
pub open spec fn path_class(p: PathExpr) -> Option<Classified>
    decreases p, 2int,
{
    let segs = p.segments@;
    if segs.len() == 1 {
        seg_class(segs[0])
    } else if segs.len() == 3 && segs[0].args is Absent && segs[1].args is Absent {
        let q0 = segs[0].ident@;
        let q1 = segs[1].ident@;
        let s = segs[2];
        if (q0 == "std"@ || q0 == "alloc"@) && q1 == "box"@ && s.ident@ == "Box"@ {
            box_class(s)
        } else if (q0 == "std"@ || q0 == "core"@) && q1 == "option"@ && s.ident@ == "Option"@ {
            option_class(s)
        } else if (q0 == "std"@ || q0 == "core"@) && q1 == "result"@ && s.ident@ == "Result"@ {
            result_class(s)
        } else if (q0 == "std"@ || q0 == "alloc"@) && q1 == "vec"@ && s.ident@ == "Vec"@ {
            vec_class(s)
        } else {
            None
        }
    } else {
        None
    }
}

/// The rules for a full type expression: paths as above; `&str` a borrowed
/// string; `&[u8]` and `&mut [u8]` borrowed buffers; nothing else.
pub open spec fn expr_class(e: TypeExpr) -> Option<Classified> {
    match e {
        TypeExpr::Path(p) => path_class(p),
        TypeExpr::Reference { mutable, inner } => if is_plain_expr(*inner, "str"@) && !mutable {
            Some(Classified { kind: TypeKind::StringBorrowed, ts: "string"@, multi: false })
        } else if is_u8_slice(*inner) {
            Some(
                Classified {
                    kind: if mutable {
                        TypeKind::BufferBorrowedMut
                    } else {
                        TypeKind::BufferBorrowed
                    },
                    ts: "Uint8Array"@,
                    multi: false,
                },
            )
        } else {
            None
        },
        _ => None,
    }
}

/// What the executable classifier promises of a produced `Type` next to
/// the specification's verdict `c`.
pub open spec fn matches_class(t: Type, c: Classified, e: TypeExpr) -> bool {
    &&& t.kind == c.kind
    &&& typescript::type_text(t.ts) == c.ts
    &&& typescript::is_multi(t.ts) == c.multi
    &&& t.ts.well_formed()
    &&& t.rust@ == expr_text(e)
}

/// For every supported scalar name, classifying the plain one-segment
/// path of that name yields exactly the matching native scalar kind.
pub proof fn lemma_scalar_classification(e: TypeExpr, name: Seq<char>, k: TypeNative)
    requires
        is_plain_expr(e, name),
        scalar_kind(name) == Some(k),
    ensures
        expr_class(e) matches Some(c) && c.kind == TypeKind::Native(k),
{
}

fn scalar_of(s: &str) -> (r: Option<TypeNative>)
    ensures
        r == scalar_kind(s@),
{
    if str_eq(s, "i8") {
        Some(TypeNative::I8)
    } else if str_eq(s, "i16") {
        Some(TypeNative::I16)
    } else if str_eq(s, "i32") {
        Some(TypeNative::I32)
    } else if str_eq(s, "i64") {
        Some(TypeNative::I64)
    } else if str_eq(s, "isize") {
        Some(TypeNative::ISize)
    } else if str_eq(s, "u8") {
        Some(TypeNative::U8)
    } else if str_eq(s, "u16") {
        Some(TypeNative::U16)
    } else if str_eq(s, "u32") {
        Some(TypeNative::U32)
    } else if str_eq(s, "u64") {
        Some(TypeNative::U64)
    } else if str_eq(s, "usize") {
        Some(TypeNative::USize)
    } else if str_eq(s, "f32") {
        Some(TypeNative::F32)
    } else if str_eq(s, "f64") {
        Some(TypeNative::F64)
    } else {
        None
    }
}

fn is_plain_expr_exec(e: &TypeExpr, name: &str) -> (b: bool)
    ensures
        b == is_plain_expr(*e, name@),
{
    match e {
        TypeExpr::Path(p) => {
            if p.segments.len() == 1 {
                let s = &p.segments[0];
                if str_eq(s.ident.as_str(), name) {
                    match &s.args {
                        GenericArgs::Absent => true,
                        _ => false,
                    }
                } else {
                    false
                }
            } else {
                false
            }
        },
        _ => false,
    }
}

fn is_u8_slice_exec(e: &TypeExpr) -> (b: bool)
    ensures
        b == is_u8_slice(*e),
{
    match e {
        TypeExpr::Slice { inner } => is_plain_expr_exec(inner, "u8"),
        _ => false,
    }
}

/// What the classifier helpers promise of a produced wire kind and client
/// type next to the specification's verdict `c`.
pub open spec fn matches_seg_class(k: TypeKind, ts: typescript::Type, c: Classified) -> bool {
    &&& k == c.kind
    &&& typescript::type_text(ts) == c.ts
    &&& typescript::is_multi(ts) == c.multi
    &&& ts.well_formed()
}

fn classify_box(s: &PathSegment) -> (r: Result<(TypeKind, typescript::Type), ClassifyError>)
    ensures
        r is Ok <==> box_class(*s) is Some,
        r matches Ok(p) ==> (box_class(*s) matches Some(c) && matches_seg_class(p.0, p.1, c)),
{
    match &s.args {
        GenericArgs::Types(ts) => {
            if ts.len() == 1 {
                let a = &ts[0];
                if is_plain_expr_exec(a, "str") {
                    Ok((TypeKind::StringOwned, typescript::Type::string()))
                } else if is_u8_slice_exec(a) {
                    Ok((TypeKind::BufferOwned, typescript::Type::byte_array()))
                } else {
                    Err(ClassifyError {  })
                }
            } else {
                Err(ClassifyError {  })
            }
        },
        _ => Err(ClassifyError {  }),
    }
}

fn classify_option(s: &PathSegment) -> (r: Result<(TypeKind, typescript::Type), ClassifyError>)
    ensures
        r is Ok <==> option_class(*s) is Some,
        r matches Ok(p) ==> (option_class(*s) matches Some(c) && matches_seg_class(p.0, p.1, c)),
    decreases *s, 0int,
{
    match &s.args {
        GenericArgs::Types(ts) => {
            if ts.len() == 1 {
                match &ts[0] {
                    TypeExpr::Path(q) => match classify_path(q) {
                        Ok((_, elem_ts)) => Ok(
                            (TypeKind::Json, elem_ts.union(typescript::Type::null())),
                        ),
                        Err(er) => Err(er),
                    },
                    _ => Err(ClassifyError {  }),
                }
            } else {
                Err(ClassifyError {  })
            }
        },
        _ => Err(ClassifyError {  }),
    }
}

fn classify_result(s: &PathSegment) -> (r: Result<(TypeKind, typescript::Type), ClassifyError>)
    ensures
        r is Ok <==> result_class(*s) is Some,
        r matches Ok(p) ==> (result_class(*s) matches Some(c) && matches_seg_class(p.0, p.1, c)),
    decreases *s, 0int,
{
    match &s.args {
        GenericArgs::Types(ts) => {
            if ts.len() == 2 {
                match (&ts[0], &ts[1]) {
                    (TypeExpr::Path(q), TypeExpr::Path(qe)) => match classify_path(q) {
                        Ok((_, elem_ts)) => match classify_path(qe) {
                            Ok(_) => Ok((TypeKind::Json, elem_ts)),
                            Err(er) => Err(er),
                        },
                        Err(er) => Err(er),
                    },
                    _ => Err(ClassifyError {  }),
                }
            } else {
                Err(ClassifyError {  })
            }
        },
        _ => Err(ClassifyError {  }),
    }
}

fn classify_vec(s: &PathSegment) -> (r: Result<(TypeKind, typescript::Type), ClassifyError>)
    ensures
        r is Ok <==> vec_class(*s) is Some,
        r matches Ok(p) ==> (vec_class(*s) matches Some(c) && matches_seg_class(p.0, p.1, c)),
    decreases *s, 0int,
{
    match &s.args {
        GenericArgs::Types(ts) => {
            if ts.len() == 1 {
                if is_plain_expr_exec(&ts[0], "u8") {
                    Ok((TypeKind::BufferOwned, typescript::Type::byte_array()))
                } else {
                    match &ts[0] {
                        TypeExpr::Path(q) => match classify_path(q) {
                            Ok((_, elem_ts)) => Ok((TypeKind::Json, elem_ts.array())),
                            Err(er) => Err(er),
                        },
                        _ => Err(ClassifyError {  }),
                    }
                }
            } else {
                Err(ClassifyError {  })
            }
        },
        _ => Err(ClassifyError {  }),
    }
}

fn classify_seg(s: &PathSegment) -> (r: Result<(TypeKind, typescript::Type), ClassifyError>)
    ensures
        r is Ok <==> seg_class(*s) is Some,
        r matches Ok(p) ==> (seg_class(*s) matches Some(c) && matches_seg_class(p.0, p.1, c)),
    decreases *s, 1int,
{
    let name: &str = s.ident.as_str();
    match scalar_of(name) {
        Some(k) => {
            match &s.args {
                GenericArgs::Absent => {
                    let small = match k {
                        TypeNative::I64 => false,
                        TypeNative::ISize => false,
                        TypeNative::U64 => false,
                        TypeNative::USize => false,
                        _ => true,
                    };
                    let ts = if small {
                        typescript::Type::number()
                    } else {
                        typescript::Type::number().union(typescript::Type::bigint())
                    };
                    Ok((TypeKind::Native(k), ts))
                },
                _ => Err(ClassifyError {  }),
            }
        },
        None => {
            if str_eq(name, "String") {
                match &s.args {
                    GenericArgs::Absent => Ok((TypeKind::StringOwned, typescript::Type::string())),
                    _ => Err(ClassifyError {  }),
                }
            } else if str_eq(name, "Box") {
                classify_box(s)
            } else if str_eq(name, "Option") {
                classify_option(s)
            } else if str_eq(name, "Result") {
                classify_result(s)
            } else if str_eq(name, "Vec") {
                classify_vec(s)
            } else {
                match &s.args {
                    GenericArgs::Absent => Ok(
                        (TypeKind::Json, typescript::Type::named(s.ident.clone())),
                    ),
                    _ => Err(ClassifyError {  }),
                }
            }
        },
    }
}

fn classify_path(p: &PathExpr) -> (r: Result<(TypeKind, typescript::Type), ClassifyError>)
    ensures
        r is Ok <==> path_class(*p) is Some,
        r matches Ok(pr) ==> (path_class(*p) matches Some(c) && matches_seg_class(pr.0, pr.1, c)),
    decreases *p, 2int,
{
    if p.segments.len() == 1 {
        classify_seg(&p.segments[0])
    } else if p.segments.len() == 3 {
        let s0 = &p.segments[0];
        let s1 = &p.segments[1];
        let s2 = &p.segments[2];
        let plain01 = match &s0.args {
            GenericArgs::Absent => match &s1.args {
                GenericArgs::Absent => true,
                _ => false,
            },
            _ => false,
        };
        if !plain01 {
            return Err(ClassifyError {  });
        }
        let q0 = s0.ident.as_str();
        let q1 = s1.ident.as_str();
        let n2 = s2.ident.as_str();
        if (str_eq(q0, "std") || str_eq(q0, "alloc")) && str_eq(q1, "box") && str_eq(n2, "Box") {
            classify_box(s2)
        } else if (str_eq(q0, "std") || str_eq(q0, "core")) && str_eq(q1, "option") && str_eq(
            n2,
            "Option",
        ) {
            classify_option(s2)
        } else if (str_eq(q0, "std") || str_eq(q0, "core")) && str_eq(q1, "result") && str_eq(
            n2,
            "Result",
        ) {
            classify_result(s2)
        } else if (str_eq(q0, "std") || str_eq(q0, "alloc")) && str_eq(q1, "vec") && str_eq(
            n2,
            "Vec",
        ) {
            classify_vec(s2)
        } else {
            Err(ClassifyError {  })
        }
    } else {
        Err(ClassifyError {  })
    }
}

/// Classifies a declared type expression into its wire representation,
/// rendering its host and client spellings along the way; rejected exactly
/// when the priority rules assign it nothing.
pub fn classify(e: &TypeExpr) -> (r: Result<Type, ClassifyError>)
    ensures
        r is Ok <==> expr_class(*e) is Some,
        r matches Ok(t) ==> (expr_class(*e) matches Some(c) && matches_class(t, c, *e)),
{
    match e {
        TypeExpr::Path(p) => match classify_path(p) {
            Ok((kind, ts)) => Ok(Type { rust: render_expr(e), kind, ts }),
            Err(er) => Err(er),
        },
        TypeExpr::Reference { mutable, inner } => {
            if is_plain_expr_exec(inner, "str") && !*mutable {
                Ok(
                    Type {
                        rust: render_expr(e),
                        kind: TypeKind::StringBorrowed,
                        ts: typescript::Type::string(),
                    },
                )
            } else if is_u8_slice_exec(inner) {
                let kind = if *mutable {
                    TypeKind::BufferBorrowedMut
                } else {
                    TypeKind::BufferBorrowed
                };
                Ok(Type { rust: render_expr(e), kind, ts: typescript::Type::byte_array() })
            } else {
                Err(ClassifyError {  })
            }
        },
        _ => Err(ClassifyError {  }),
    }
}

} // verus!
