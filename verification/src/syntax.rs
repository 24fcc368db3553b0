//! The model of an annotated declaration module.
//!
//! The declaration subset is deliberately small: one annotated module per
//! input, holding only structs with named fields and plain functions.  Every
//! declared type is kept twice here: as a neutral type expression
//! (`TypeExpr`), and classified (`Type`) with its wire kind and its
//! client-language spelling.

use vstd::prelude::*;
use vstd::string::*;

use crate::typescript;

verus! {

/// A neutral host-language type expression, as far as the declaration
/// subset can see it.
#[derive(Debug)]
pub enum TypeExpr {
    /// A path such as `i32`, `Vec<u8>` or `std::boxed::Box<str>`.
    Path(PathExpr),
    /// A reference, `&T` or `&mut T`.
    Reference { mutable: bool, inner: Box<TypeExpr> },
    /// A slice, `[T]`.
    Slice { inner: Box<TypeExpr> },
    /// Any construct outside the subset: tuples, pointers, closures,
    /// qualified-self paths and the rest.  Always rejected.
    Opaque,
}

/// A path: one or more segments.
#[derive(Debug)]
pub struct PathExpr {
    pub segments: Vec<PathSegment>,
}

/// One path segment with its generic arguments.
#[derive(Debug)]
pub struct PathSegment {
    pub ident: String,
    pub args: GenericArgs,
}

/// The generic arguments of a path segment.
#[derive(Debug)]
pub enum GenericArgs {
    /// No argument list at all.
    Absent,
    /// An angle-bracketed list of type arguments.
    Types(Vec<TypeExpr>),
    /// An argument list holding anything else (lifetimes, constants,
    /// parenthesized arguments).  Always rejected.
    Opaque,
}

/// An annotated module: its name and its items in declaration order.
#[derive(Debug)]
pub struct Module {
    pub ident: String,
    pub items: Vec<Item>,
}

/// One item of the module.
#[derive(Debug)]
pub enum Item {
    Fn(ItemFn),
    Struct(ItemStruct),
}

/// A struct declaration with named fields.
#[derive(Debug)]
pub struct ItemStruct {
    pub ident: String,
    pub fields: Vec<Field>,
}

/// One named struct field.
#[derive(Debug)]
pub struct Field {
    pub ident: String,
    pub ty: Type,
}

/// A function declaration: its signature, whether the secondary annotation
/// marks it non-blocking, and its body, kept verbatim for the native side.
#[derive(Debug)]
pub struct ItemFn {
    pub sig: Signature,
    pub non_blocking: bool,
    pub body: String,
}

/// A function signature.
#[derive(Debug)]
pub struct Signature {
    pub ident: String,
    pub inputs: Vec<FnArg>,
    pub output: ReturnType,
}

/// One function parameter.
#[derive(Debug)]
pub struct FnArg {
    pub mutable: bool,
    pub ident: String,
    pub ty: Type,
}

/// The declared return type, if any.
#[derive(Debug)]
pub enum ReturnType {
    Default,
    Type(Type),
}

/// A classified type: the host spelling, the wire kind, and the client
/// spelling.
#[derive(Debug)]
pub struct Type {
    /// The host-language spelling, per `expr_text`.
    pub rust: String,
    /// How values of the type cross the boundary.
    pub kind: TypeKind,
    /// The client-language type.
    pub ts: typescript::Type,
}

/// The wire-representation category of a declared type.
#[derive(Debug, Clone, Copy, PartialEq, Eq, Structural)]
pub enum TypeKind {
    BufferBorrowed,
    BufferBorrowedMut,
    BufferOwned,
    Json,
    Native(TypeNative),
    StringBorrowed,
    StringOwned,
}

/// The twelve native scalar types.
#[derive(Debug, Clone, Copy, PartialEq, Eq, Structural)]
pub enum TypeNative {
    I8,
    I16,
    I32,
    I64,
    ISize,
    U8,
    U16,
    U32,
    U64,
    USize,
    F32,
    F64,
}

/// The host spelling of a native scalar, which is also its name in the
/// symbol descriptor table.
pub open spec fn native_symbol(n: TypeNative) -> Seq<char> {
    match n {
        TypeNative::I8 => "i8"@,
        TypeNative::I16 => "i16"@,
        TypeNative::I32 => "i32"@,
        TypeNative::I64 => "i64"@,
        TypeNative::ISize => "isize"@,
        TypeNative::U8 => "u8"@,
        TypeNative::U16 => "u16"@,
        TypeNative::U32 => "u32"@,
        TypeNative::U64 => "u64"@,
        TypeNative::USize => "usize"@,
        TypeNative::F32 => "f32"@,
        TypeNative::F64 => "f64"@,
    }
}

impl TypeNative {
    /// The scalar's name, as both generators print it.
    pub fn symbol(&self) -> (r: &'static str)
        ensures
            r@ == native_symbol(*self),
    {
        match self {
            TypeNative::I8 => "i8",
            TypeNative::I16 => "i16",
            TypeNative::I32 => "i32",
            TypeNative::I64 => "i64",
            TypeNative::ISize => "isize",
            TypeNative::U8 => "u8",
            TypeNative::U16 => "u16",
            TypeNative::U32 => "u32",
            TypeNative::U64 => "u64",
            TypeNative::USize => "usize",
            TypeNative::F32 => "f32",
            TypeNative::F64 => "f64",
        }
    }
}

/// The host-language spelling of a type expression.
pub open spec fn expr_text(e: TypeExpr) -> Seq<char>
    decreases e, 0int,
{
    match e {
        TypeExpr::Path(p) => path_text(p),
        TypeExpr::Reference { mutable, inner } => if mutable {
            "&mut "@ + expr_text(*inner)
        } else {
            "&"@ + expr_text(*inner)
        },
        TypeExpr::Slice { inner } => "["@ + expr_text(*inner) + "]"@,
        TypeExpr::Opaque => Seq::<char>::empty(),
    }
}

/// The spelling of a path: its segments joined by `::`.
pub open spec fn path_text(p: PathExpr) -> Seq<char>
    decreases p, 0int,
{
    segs_prefix_text(p.segments@, p.segments@.len() as int)
}

/// The spelling of the first `i` segments of a path.
pub open spec fn segs_prefix_text(segs: Seq<PathSegment>, i: int) -> Seq<char>
    decreases segs, i, 1int,
{
    if i <= 0 || i > segs.len() {
        Seq::<char>::empty()
    } else if i == 1 {
        seg_text(segs[0])
    } else {
        segs_prefix_text(segs, i - 1) + "::"@ + seg_text(segs[i - 1])
    }
}

/// The spelling of one path segment.
pub open spec fn seg_text(s: PathSegment) -> Seq<char>
    decreases s, 0int,
{
    match s.args {
        GenericArgs::Absent => s.ident@,
        GenericArgs::Types(ts) => s.ident@ + "<"@ + args_prefix_text(ts@, ts@.len() as int)
            + ">"@,
        GenericArgs::Opaque => s.ident@,
    }
}

/// The spelling of the first `i` generic arguments, joined by `, `.
pub open spec fn args_prefix_text(args: Seq<TypeExpr>, i: int) -> Seq<char>
    decreases args, i, 1int,
{
    if i <= 0 || i > args.len() {
        Seq::<char>::empty()
    } else if i == 1 {
        expr_text(args[0])
    } else {
        args_prefix_text(args, i - 1) + ", "@ + expr_text(args[i - 1])
    }
}

/// Renders a type expression in its host-language spelling.
#[verifier::loop_isolation(false)]
pub fn render_expr(e: &TypeExpr) -> (out: String)
    ensures
        out@ == expr_text(*e),
    decreases *e,
{
    match e {
        TypeExpr::Path(p) => {
            let mut out = String::new();
            let mut i: usize = 0;
            while i < p.segments.len()
                invariant
                    i <= p.segments@.len(),
                    out@ == segs_prefix_text(p.segments@, i as int),
                decreases p.segments@.len() - i,
            {
                if i > 0 {
                    out.append("::");
                }
                let s = render_segment(&p.segments[i]);
                out.append(s.as_str());
                i = i + 1;
                assert(out@ =~= segs_prefix_text(p.segments@, i as int));
            }
            assert(expr_text(*e) == path_text(*p));
            out
        },
        TypeExpr::Reference { mutable, inner } => {
            let mut out = String::new();
            if *mutable {
                out.append("&mut ");
            } else {
                out.append("&");
            }
            let s = render_expr(inner);
            out.append(s.as_str());
            out
        },
        TypeExpr::Slice { inner } => {
            let mut out = String::new();
            out.append("[");
            let s = render_expr(inner);
            out.append(s.as_str());
            out.append("]");
            out
        },
        TypeExpr::Opaque => String::new(),
    }
}

/// Renders one path segment in its host-language spelling.
#[verifier::loop_isolation(false)]
fn render_segment(s: &PathSegment) -> (out: String)
    ensures
        out@ == seg_text(*s),
    decreases *s,
{
    match &s.args {
        GenericArgs::Absent => s.ident.clone(),
        GenericArgs::Types(ts) => {
            let mut out = s.ident.clone();
            out.append("<");
            let mut i: usize = 0;
            while i < ts.len()
                invariant
                    i <= ts@.len(),
                    out@ == s.ident@ + "<"@ + args_prefix_text(ts@, i as int),
                decreases ts@.len() - i,
            {
                if i > 0 {
                    out.append(", ");
                }
                let a = render_expr(&ts[i]);
                out.append(a.as_str());
                i = i + 1;
                assert(out@ =~= s.ident@ + "<"@ + args_prefix_text(ts@, i as int));
            }
            out.append(">");
            assert(out@ =~= seg_text(*s));
            out
        },
        GenericArgs::Opaque => s.ident.clone(),
    }
}

} // verus!
