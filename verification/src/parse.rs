//! Validation of a raw declaration module.
//!
//! The raw model below holds a module exactly as the host-language front
//! end hands it over, before any rule of the subset has been checked.  The
//! functions here apply the rules: only structs with named fields and
//! plain functions; no const, async, unsafe, foreign-ABI or generic
//! signatures; no receivers and no patterns in parameters; every type
//! classifiable; no borrowed return types.  The first offence aborts the
//! item's module with a located error, and nothing partial is produced.

use vstd::prelude::*;
use vstd::string::*;

use crate::classify::{classify, expr_class, matches_class};
use crate::span::Span;
use crate::text::str_eq;
use crate::syntax::{
    Field, FnArg, Item, ItemFn, ItemStruct, Module, ReturnType, Signature, Type, TypeExpr,
    TypeKind,
};

verus! {

/// An annotation path such as `sauro::non_blocking`; only plain-path
/// annotations matter to the subset, and only they are represented.
#[derive(Debug)]
pub struct AttrPath {
    pub segments: Vec<String>,
}

/// A module as the front end saw it: its annotations, its name, its items
/// if it has a body, and where it stands.
#[derive(Debug)]
pub struct RawItemMod {
    pub attrs: Vec<AttrPath>,
    pub ident: String,
    pub content: Option<Vec<RawItem>>,
    pub span: Span,
}

/// One unvalidated item.
#[derive(Debug)]
pub enum RawItem {
    Struct(RawStruct),
    Fn(RawFn),
    /// Any other item kind; always rejected.
    Other { span: Span },
}

/// An unvalidated struct declaration.
#[derive(Debug)]
pub struct RawStruct {
    pub ident: String,
    pub has_generics: bool,
    pub fields: RawFields,
    pub span: Span,
}

/// The field list of an unvalidated struct.
#[derive(Debug)]
pub enum RawFields {
    Named(Vec<RawField>),
    Unnamed,
    Unit,
}

/// One unvalidated named field.
#[derive(Debug)]
pub struct RawField {
    pub ident: String,
    pub ty: TypeExpr,
    pub span: Span,
}

/// An unvalidated function with its annotations and its verbatim body.
#[derive(Debug)]
pub struct RawFn {
    pub attrs: Vec<AttrPath>,
    pub sig: RawSig,
    pub body: String,
    pub span: Span,
}

/// An unvalidated function signature, with the modifier flags the subset
/// must reject.
#[derive(Debug)]
pub struct RawSig {
    pub constness: bool,
    pub asyncness: bool,
    pub unsafety: bool,
    pub has_abi: bool,
    pub has_generics: bool,
    pub ident: String,
    pub inputs: Vec<RawArg>,
    pub output: RawReturn,
    pub span: Span,
}

/// One unvalidated parameter.
#[derive(Debug)]
pub enum RawArg {
    /// A `self` receiver; always rejected.
    Receiver { span: Span },
    /// A plain `name: Type` parameter, `mut` or not.
    Typed { mutable: bool, ident: String, ty: TypeExpr, span: Span },
    /// Any other parameter pattern; always rejected.
    Pattern { span: Span },
}

/// An unvalidated return type.
#[derive(Debug)]
pub enum RawReturn {
    Default,
    Type(TypeExpr, Span),
}

/// A located validation error.
#[derive(Debug)]
pub struct ParseError {
    pub span: Span,
    pub message: String,
}

/// Whether `a` is exactly the two-segment annotation `s0::s1`.
pub open spec fn attr_is(a: AttrPath, s0: Seq<char>, s1: Seq<char>) -> bool {
    &&& a.segments@.len() == 2
    &&& a.segments@[0]@ == s0
    &&& a.segments@[1]@ == s1
}

/// Whether any annotation in `attrs` is exactly `s0::s1`.
pub open spec fn has_attr(attrs: Seq<AttrPath>, s0: Seq<char>, s1: Seq<char>) -> bool {
    exists|i: int| 0 <= i < attrs.len() && attr_is(attrs[i], s0, s1)
}

/// Whether the secondary annotation marks `f` non-blocking.
pub open spec fn is_non_blocking(f: RawFn) -> bool {
    has_attr(f.attrs@, "sauro"@, "non_blocking"@)
}

/// Whether the primary annotation marks `m` as the declaration module.
pub open spec fn is_bindgen_mod(m: RawItemMod) -> bool {
    has_attr(m.attrs@, "sauro"@, "bindgen"@)
}

/// Whether a wire kind borrows its referent, which no return type may do.
pub open spec fn is_borrowed_kind(k: TypeKind) -> bool {
    match k {
        TypeKind::StringBorrowed => true,
        TypeKind::BufferBorrowed => true,
        TypeKind::BufferBorrowedMut => true,
        _ => false,
    }
}

/// The first error among the parameters of `args` from index `i` on.
pub open spec fn args_check(args: Seq<RawArg>, i: int) -> Option<(Seq<char>, Span)>
    decreases args.len() - i,
{
    if i < 0 || i >= args.len() {
        None
    } else {
        match args[i] {
            RawArg::Receiver { span } => Some(("self argument is not supported"@, span)),
            RawArg::Pattern { span } => Some(("pattern matching is not supported"@, span)),
            RawArg::Typed { ty, span, .. } => if expr_class(ty) is None {
                Some(("unsupported type"@, span))
            } else {
                args_check(args, i + 1)
            },
        }
    }
}

/// The error of the declared return type, if any: an unclassifiable type,
/// or a borrowed kind, which must not escape across the boundary.
pub open spec fn output_check(out: RawReturn) -> Option<(Seq<char>, Span)> {
    match out {
        RawReturn::Default => None,
        RawReturn::Type(ty, span) => match expr_class(ty) {
            None => Some(("unsupported type"@, span)),
            Some(c) => if is_borrowed_kind(c.kind) {
                Some(("borrowed types are not supported as return types"@, span))
            } else {
                None
            },
        },
    }
}

/// The first error of a signature: a disallowed modifier, then the
/// parameters in order, then the return type.
pub open spec fn sig_check(s: RawSig) -> Option<(Seq<char>, Span)> {
    if s.constness {
        Some(("const functions are not supported"@, s.span))
    } else if s.asyncness {
        Some(("async functions are not supported"@, s.span))
    } else if s.unsafety {
        Some(("unsafe functions are not supported"@, s.span))
    } else if s.has_abi {
        Some(("extern functions are not supported"@, s.span))
    } else if s.has_generics {
        Some(("generic functions are not supported"@, s.span))
    } else {
        match args_check(s.inputs@, 0) {
            Some(e) => Some(e),
            None => output_check(s.output),
        }
    }
}

/// The first error among the fields of a struct from index `i` on.
pub open spec fn fields_check(fs: Seq<RawField>, i: int) -> Option<(Seq<char>, Span)>
    decreases fs.len() - i,
{
    if i < 0 || i >= fs.len() {
        None
    } else if expr_class(fs[i].ty) is None {
        Some(("unsupported type"@, fs[i].span))
    } else {
        fields_check(fs, i + 1)
    }
}

/// The first error of a struct declaration: generics, the field shape,
/// then the fields in order.
pub open spec fn struct_check(st: RawStruct) -> Option<(Seq<char>, Span)> {
    if st.has_generics {
        Some(("type parameters are not supported"@, st.span))
    } else {
        match st.fields {
            RawFields::Unnamed => Some(("tuple structs are not supported"@, st.span)),
            RawFields::Unit => Some(("unit structs are not supported"@, st.span)),
            RawFields::Named(fs) => fields_check(fs@, 0),
        }
    }
}

/// The first error of one item.
pub open spec fn item_check(it: RawItem) -> Option<(Seq<char>, Span)> {
    match it {
        RawItem::Other { span } => Some(("unsupported item"@, span)),
        RawItem::Struct(st) => struct_check(st),
        RawItem::Fn(f) => sig_check(f.sig),
    }
}

/// The first error among the items from index `i` on.
pub open spec fn items_check(items: Seq<RawItem>, i: int) -> Option<(Seq<char>, Span)>
    decreases items.len() - i,
{
    if i < 0 || i >= items.len() {
        None
    } else {
        match item_check(items[i]) {
            Some(e) => Some(e),
            None => items_check(items, i + 1),
        }
    }
}

/// The first error of a whole module: a bodiless module, then its items
/// in declaration order.
pub open spec fn module_check(m: RawItemMod) -> Option<(Seq<char>, Span)> {
    match m.content {
        None => Some(("modules can not be empty"@, m.span)),
        Some(items) => items_check(items@, 0),
    }
}

/// A classified type faithful to the expression it came from.
pub open spec fn type_parsed(e: TypeExpr, t: Type) -> bool {
    expr_class(e) matches Some(c) && matches_class(t, c, e)
}

/// A validated parameter faithful to its raw form.
pub open spec fn arg_parsed(raw: RawArg, a: FnArg) -> bool {
    raw matches RawArg::Typed { mutable, ident, ty, .. } && a.mutable == mutable && a.ident@
        == ident@ && type_parsed(ty, a.ty)
}

/// A validated signature faithful to its raw form.
pub open spec fn sig_parsed(raw: RawSig, s: Signature) -> bool {
    &&& s.ident@ == raw.ident@
    &&& s.inputs@.len() == raw.inputs@.len()
    &&& forall|i: int| 0 <= i < raw.inputs@.len() ==> arg_parsed(raw.inputs@[i], #[trigger] s.inputs@[i])
    &&& match raw.output {
        RawReturn::Default => s.output is Default,
        RawReturn::Type(ty, _) => s.output matches ReturnType::Type(t) && type_parsed(ty, t)
            && !is_borrowed_kind(t.kind),
    }
}

/// A validated field faithful to its raw form.
pub open spec fn field_parsed(raw: RawField, f: Field) -> bool {
    f.ident@ == raw.ident@ && type_parsed(raw.ty, f.ty)
}

/// A validated struct faithful to its raw form.
pub open spec fn struct_parsed(raw: RawStruct, st: ItemStruct) -> bool {
    &&& st.ident@ == raw.ident@
    &&& raw.fields matches RawFields::Named(fs) && st.fields@.len() == fs@.len() && forall|i: int|
        0 <= i < fs@.len() ==> field_parsed(fs@[i], #[trigger] st.fields@[i])
}

/// A validated function faithful to its raw form.
pub open spec fn fn_parsed(raw: RawFn, f: ItemFn) -> bool {
    &&& sig_parsed(raw.sig, f.sig)
    &&& f.non_blocking == is_non_blocking(raw)
    &&& f.body@ == raw.body@
}

/// A validated item faithful to its raw form.
pub open spec fn item_parsed(raw: RawItem, it: Item) -> bool {
    match raw {
        RawItem::Struct(st) => it matches Item::Struct(s) && struct_parsed(st, s),
        RawItem::Fn(rf) => it matches Item::Fn(f) && fn_parsed(rf, f),
        RawItem::Other { .. } => false,
    }
}

/// A validated module faithful to its raw form.
pub open spec fn module_parsed(raw: RawItemMod, m: Module) -> bool {
    &&& m.ident@ == raw.ident@
    &&& raw.content matches Some(items) && m.items@.len() == items@.len() && forall|i: int|
        0 <= i < items@.len() ==> item_parsed(items@[i], #[trigger] m.items@[i])
}

/// What a validation result promises: the exact error of the check
/// specification, or a faithful model.
pub open spec fn err_matches(e: ParseError, er: Option<(Seq<char>, Span)>) -> bool {
    er matches Some(p) && e.message@ == p.0 && e.span == p.1
}

/// A signature that validates never carries a borrowed-buffer or
/// borrowed-string return type: returning a borrowed reference across the
/// boundary is rejected while the signature is checked, so in particular
/// no non-blocking function ever appears with one.
pub proof fn lemma_no_borrowed_return(raw: RawSig, s: Signature)
    requires
        sig_check(raw) is None,
        sig_parsed(raw, s),
    ensures
        s.output matches ReturnType::Type(t) ==> !is_borrowed_kind(t.kind),
{
}

fn mk_err(message: &str, span: Span) -> (e: ParseError)
    ensures
        e.message@ == message@,
        e.span == span,
{
    ParseError { span, message: String::from_str(message) }
}

fn has_attr_exec(attrs: &Vec<AttrPath>, s0: &str, s1: &str) -> (b: bool)
    ensures
        b == has_attr(attrs@, s0@, s1@),
{
    let mut i: usize = 0;
    while i < attrs.len()
        invariant
            i <= attrs@.len(),
            forall|j: int| 0 <= j < i ==> !attr_is(attrs@[j], s0@, s1@),
        decreases attrs@.len() - i,
    {
        let a = &attrs[i];
        if a.segments.len() == 2 && str_eq(a.segments[0].as_str(), s0) && str_eq(
            a.segments[1].as_str(),
            s1,
        ) {
            assert(attr_is(attrs@[i as int], s0@, s1@));
            return true;
        }
        i = i + 1;
    }
    false
}

fn classify_checked(e: &TypeExpr, span: Span) -> (r: Result<Type, ParseError>)
    ensures
        r is Ok <==> expr_class(*e) is Some,
        r matches Ok(t) ==> type_parsed(*e, t),
        r matches Err(pe) ==> pe.message@ == "unsupported type"@ && pe.span == span,
{
    match classify(e) {
        Ok(t) => Ok(t),
        Err(_) => Err(mk_err("unsupported type", span)),
    }
}

/// Validates one parameter: a plain typed name whose type classifies.
pub fn parse_function_arg(raw: &RawArg) -> (r: Result<FnArg, ParseError>)
    ensures
        match *raw {
            RawArg::Receiver { span } => r matches Err(e) && e.message@
                == "self argument is not supported"@ && e.span == span,
            RawArg::Pattern { span } => r matches Err(e) && e.message@
                == "pattern matching is not supported"@ && e.span == span,
            RawArg::Typed { ty, span, .. } => if expr_class(ty) is None {
                r matches Err(e) && e.message@ == "unsupported type"@ && e.span == span
            } else {
                r matches Ok(a) && arg_parsed(*raw, a)
            },
        },
{
    match raw {
        RawArg::Receiver { span } => Err(mk_err("self argument is not supported", *span)),
        RawArg::Pattern { span } => Err(mk_err("pattern matching is not supported", *span)),
        RawArg::Typed { mutable, ident, ty, span } => {
            match classify_checked(ty, *span) {
                Ok(t) => Ok(FnArg { mutable: *mutable, ident: ident.clone(), ty: t }),
                Err(e) => Err(e),
            }
        },
    }
}

/// Validates the return type: absent, or classifiable and not borrowed.
pub fn parse_return_type(raw: &RawReturn) -> (r: Result<ReturnType, ParseError>)
    ensures
        r is Ok <==> output_check(*raw) is None,
        r matches Ok(out) ==> match *raw {
            RawReturn::Default => out is Default,
            RawReturn::Type(ty, _) => out matches ReturnType::Type(t) && type_parsed(ty, t)
                && !is_borrowed_kind(t.kind),
        },
        r matches Err(e) ==> err_matches(e, output_check(*raw)),
{
    match raw {
        RawReturn::Default => Ok(ReturnType::Default),
        RawReturn::Type(ty, span) => {
            match classify_checked(ty, *span) {
                Ok(t) => {
                    let borrowed = match t.kind {
                        TypeKind::StringBorrowed => true,
                        TypeKind::BufferBorrowed => true,
                        TypeKind::BufferBorrowedMut => true,
                        _ => false,
                    };
                    if borrowed {
                        Err(mk_err("borrowed types are not supported as return types", *span))
                    } else {
                        Ok(ReturnType::Type(t))
                    }
                },
                Err(e) => Err(e),
            }
        },
    }
}

/// Validates a signature: no disallowed modifier, every parameter and the
/// return type in order.
pub fn parse_signature(raw: &RawSig) -> (r: Result<Signature, ParseError>)
    ensures
        r is Ok <==> sig_check(*raw) is None,
        r matches Ok(s) ==> sig_parsed(*raw, s),
        r matches Err(e) ==> err_matches(e, sig_check(*raw)),
{
    if raw.constness {
        return Err(mk_err("const functions are not supported", raw.span));
    }
    if raw.asyncness {
        return Err(mk_err("async functions are not supported", raw.span));
    }
    if raw.unsafety {
        return Err(mk_err("unsafe functions are not supported", raw.span));
    }
    if raw.has_abi {
        return Err(mk_err("extern functions are not supported", raw.span));
    }
    if raw.has_generics {
        return Err(mk_err("generic functions are not supported", raw.span));
    }
    let mut inputs: Vec<FnArg> = Vec::new();
    let mut i: usize = 0;
    while i < raw.inputs.len()
        invariant
            i <= raw.inputs@.len(),
            inputs@.len() == i,
            !raw.constness && !raw.asyncness && !raw.unsafety && !raw.has_abi
                && !raw.has_generics,
            args_check(raw.inputs@, 0) == args_check(raw.inputs@, i as int),
            forall|j: int| 0 <= j < i ==> arg_parsed(raw.inputs@[j], #[trigger] inputs@[j]),
        decreases raw.inputs@.len() - i,
    {
        match parse_function_arg(&raw.inputs[i]) {
            Ok(a) => {
                inputs.push(a);
            },
            Err(e) => {
                assert(args_check(raw.inputs@, i as int) == Some((e.message@, e.span)));
                return Err(e);
            },
        }
        i = i + 1;
    }
    let output = match parse_return_type(&raw.output) {
        Ok(out) => out,
        Err(e) => {
            return Err(e);
        },
    };
    Ok(Signature { ident: raw.ident.clone(), inputs, output })
}

/// Validates a struct: no type parameters, named fields only, every field
/// type classifiable.
pub fn parse_struct(raw: &RawStruct) -> (r: Result<ItemStruct, ParseError>)
    ensures
        r is Ok <==> struct_check(*raw) is None,
        r matches Ok(st) ==> struct_parsed(*raw, st),
        r matches Err(e) ==> err_matches(e, struct_check(*raw)),
{
    if raw.has_generics {
        return Err(mk_err("type parameters are not supported", raw.span));
    }
    match &raw.fields {
        RawFields::Unnamed => Err(mk_err("tuple structs are not supported", raw.span)),
        RawFields::Unit => Err(mk_err("unit structs are not supported", raw.span)),
        RawFields::Named(fs) => {
            let mut fields: Vec<Field> = Vec::new();
            let mut i: usize = 0;
            while i < fs.len()
                invariant
                    i <= fs@.len(),
                    fields@.len() == i,
                    !raw.has_generics,
                    raw.fields matches RawFields::Named(v) && v@ == fs@,
                    fields_check(fs@, 0) == fields_check(fs@, i as int),
                    forall|j: int| 0 <= j < i ==> field_parsed(fs@[j], #[trigger] fields@[j]),
                decreases fs@.len() - i,
            {
                let rf = &fs[i];
                match classify_checked(&rf.ty, rf.span) {
                    Ok(t) => {
                        fields.push(Field { ident: rf.ident.clone(), ty: t });
                    },
                    Err(e) => {
                        return Err(e);
                    },
                }
                i = i + 1;
            }
            Ok(ItemStruct { ident: raw.ident.clone(), fields })
        },
    }
}

/// Validates a function and reads its secondary annotation.
pub fn parse_function(raw: &RawFn) -> (r: Result<ItemFn, ParseError>)
    ensures
        r is Ok <==> sig_check(raw.sig) is None,
        r matches Ok(f) ==> fn_parsed(*raw, f),
        r matches Err(e) ==> err_matches(e, sig_check(raw.sig)),
{
    match parse_signature(&raw.sig) {
        Ok(sig) => {
            let non_blocking = has_attr_exec(&raw.attrs, "sauro", "non_blocking");
            Ok(ItemFn { sig, non_blocking, body: raw.body.clone() })
        },
        Err(e) => Err(e),
    }
}

/// Validates one item.
pub fn parse_item(raw: &RawItem) -> (r: Result<Item, ParseError>)
    ensures
        r is Ok <==> item_check(*raw) is None,
        r matches Ok(it) ==> item_parsed(*raw, it),
        r matches Err(e) ==> err_matches(e, item_check(*raw)),
{
    match raw {
        RawItem::Other { span } => Err(mk_err("unsupported item", *span)),
        RawItem::Struct(st) => {
            match parse_struct(st) {
                Ok(s) => Ok(Item::Struct(s)),
                Err(e) => Err(e),
            }
        },
        RawItem::Fn(f) => {
            match parse_function(f) {
                Ok(g) => Ok(Item::Fn(g)),
                Err(e) => Err(e),
            }
        },
    }
}

/// Validates a whole annotated module: it must have a body, and every item
/// must pass; the first offence wins, and nothing partial is produced.
pub fn parse_module(raw: &RawItemMod) -> (r: Result<Module, ParseError>)
    ensures
        r is Ok <==> module_check(*raw) is None,
        r matches Ok(m) ==> module_parsed(*raw, m),
        r matches Err(e) ==> err_matches(e, module_check(*raw)),
{
    let items_raw = match &raw.content {
        None => {
            return Err(mk_err("modules can not be empty", raw.span));
        },
        Some(v) => v,
    };
    let mut items: Vec<Item> = Vec::new();
    let mut i: usize = 0;
    while i < items_raw.len()
        invariant
            i <= items_raw@.len(),
            items@.len() == i,
            raw.content matches Some(v) && v@ == items_raw@,
            items_check(items_raw@, 0) == items_check(items_raw@, i as int),
            forall|j: int| 0 <= j < i ==> item_parsed(items_raw@[j], #[trigger] items@[j]),
        decreases items_raw@.len() - i,
    {
        match parse_item(&items_raw[i]) {
            Ok(it) => {
                items.push(it);
            },
            Err(e) => {
                return Err(e);
            },
        }
        i = i + 1;
    }
    Ok(Module { ident: raw.ident.clone(), items })
}

/// The index of the first annotated module at or after `i`.
pub open spec fn first_bindgen(mods: Seq<RawItemMod>, i: int) -> Option<int>
    decreases mods.len() - i,
{
    if i < 0 || i >= mods.len() {
        None
    } else if is_bindgen_mod(mods[i]) {
        Some(i)
    } else {
        first_bindgen(mods, i + 1)
    }
}

/// The first error of a whole input file: exactly one annotated module,
/// and that module valid.
pub open spec fn file_check(mods: Seq<RawItemMod>) -> Option<(Seq<char>, Span)> {
    match first_bindgen(mods, 0) {
        None => Some(("no annotated module found"@, Span { line: 1, column: 0 })),
        Some(i) => match first_bindgen(mods, i + 1) {
            Some(j) => Some(
                ("more than one annotated module per file is not supported"@, mods[j].span),
            ),
            None => module_check(mods[i]),
        },
    }
}

fn find_bindgen(mods: &Vec<RawItemMod>, from: usize) -> (r: Option<usize>)
    requires
        from <= mods@.len(),
    ensures
        match r {
            Some(i) => first_bindgen(mods@, from as int) == Some(i as int) && from <= i
                < mods@.len(),
            None => first_bindgen(mods@, from as int) is None,
        },
    decreases mods@.len() - from,
{
    if from >= mods.len() {
        return None;
    }
    if has_attr_exec(&mods[from].attrs, "sauro", "bindgen") {
        Some(from)
    } else {
        find_bindgen(mods, from + 1)
    }
}

/// Validates an input file's modules: there must be exactly one annotated
/// module, and it must validate.
pub fn parse_file(mods: &Vec<RawItemMod>) -> (r: Result<Module, ParseError>)
    ensures
        r is Ok <==> file_check(mods@) is None,
        r matches Ok(m) ==> (first_bindgen(mods@, 0) matches Some(i) && module_parsed(
            mods@[i],
            m,
        )),
        r matches Err(e) ==> err_matches(e, file_check(mods@)),
{
    match find_bindgen(mods, 0) {
        None => Err(mk_err("no annotated module found", Span::start())),
        Some(i) => {
            let next = if i < mods.len() {
                find_bindgen(mods, i + 1)
            } else {
                None
            };
            match next {
                Some(j) => Err(
                    mk_err(
                        "more than one annotated module per file is not supported",
                        mods[j].span,
                    ),
                ),
                None => parse_module(&mods[i]),
            }
        },
    }
}

} // verus!
