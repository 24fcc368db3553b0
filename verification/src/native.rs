//! The native-side generator.
//!
//! For one validated module it emits host-language source holding, per
//! declared struct, the same declaration annotated for structural
//! (de)serialization, and per declared function an unmangled,
//! externally-callable wrapper: scalar parameters pass through, every
//! other parameter arrives as a pointer-and-length pair and is rebuilt
//! into the declared value, the declared body runs unchanged as an inner
//! function, and a non-scalar result leaves as one length-prefixed
//! allocation whose ownership passes to the caller.  `module_native_text`
//! is the authoritative text and `bindgen` is proved to produce exactly
//! it.

use vstd::prelude::*;
use vstd::string::*;

use crate::syntax::{Field, FnArg, Item, ItemFn, ItemStruct, Module, ReturnType, TypeKind};
use crate::text::{dec_text, push_dec};

verus! {

/// One exported-signature parameter: a scalar by value, anything else a
/// pointer-and-length pair.
#[verifier::opaque]
pub open spec fn binding_arg_text(a: FnArg, j: int) -> Seq<char> {
    match a.ty.kind {
        TypeKind::Native(_) => "__arg"@ + dec_text(j as nat) + ": "@ + a.ty.rust@,
        _ => "__arg"@ + dec_text(j as nat) + "_ptr: *mut u8, __arg"@ + dec_text(j as nat)
            + "_len: usize"@,
    }
}

/// The first `i` exported-signature parameters, joined by `, `.
pub open spec fn binding_args_text(inputs: Seq<FnArg>, i: int) -> Seq<char>
    decreases i,
{
    if i <= 0 || i > inputs.len() {
        Seq::<char>::empty()
    } else if i == 1 {
        binding_arg_text(inputs[0], 0)
    } else {
        binding_args_text(inputs, i - 1) + ", "@ + binding_arg_text(inputs[i - 1], i - 1)
    }
}

/// The exported return type: absent, the scalar itself, or a raw pointer
/// to the length-prefixed buffer.
#[verifier::opaque]
pub open spec fn binding_ret_text(out: ReturnType) -> Seq<char> {
    match out {
        ReturnType::Default => Seq::<char>::empty(),
        ReturnType::Type(t) => match t.kind {
            TypeKind::Native(_) => " -> "@ + t.rust@,
            _ => " -> *const u8"@,
        },
    }
}

/// One inner-function parameter, exactly as declared.
#[verifier::opaque]
pub open spec fn inner_param_text(a: FnArg) -> Seq<char> {
    (if a.mutable {
        "mut "@
    } else {
        Seq::<char>::empty()
    }) + a.ident@ + ": "@ + a.ty.rust@
}

/// The first `i` inner-function parameters, joined by `, `.
pub open spec fn inner_params_text(inputs: Seq<FnArg>, i: int) -> Seq<char>
    decreases i,
{
    if i <= 0 || i > inputs.len() {
        Seq::<char>::empty()
    } else if i == 1 {
        inner_param_text(inputs[0])
    } else {
        inner_params_text(inputs, i - 1) + ", "@ + inner_param_text(inputs[i - 1])
    }
}

/// The declared return type of the inner function.
#[verifier::opaque]
pub open spec fn inner_ret_text(out: ReturnType) -> Seq<char> {
    match out {
        ReturnType::Default => Seq::<char>::empty(),
        ReturnType::Type(t) => " -> "@ + t.rust@,
    }
}

/// The reconstruction of the `j`-th parameter from its exported form:
/// scalars pass through; borrowed buffers and strings become views of the
/// caller's bytes; owned buffers, strings and JSON values become owned
/// copies, with malformed input fatal at the point of use.
#[verifier::opaque]
pub open spec fn override_text(a: FnArg, j: int) -> Seq<char> {
    match a.ty.kind {
        TypeKind::Native(_) => "        let "@ + a.ident@ + " = __arg"@ + dec_text(j as nat)
            + ";\n"@,
        TypeKind::BufferBorrowed => "        let "@ + a.ident@
            + " = unsafe { ::std::slice::from_raw_parts(__arg"@ + dec_text(j as nat)
            + "_ptr, __arg"@ + dec_text(j as nat) + "_len) };\n"@,
        TypeKind::BufferBorrowedMut => "        let mut "@ + a.ident@
            + " = unsafe { ::std::slice::from_raw_parts_mut(__arg"@ + dec_text(j as nat)
            + "_ptr, __arg"@ + dec_text(j as nat) + "_len) };\n"@,
        TypeKind::BufferOwned => "        let mut "@ + a.ident@ + ": "@ + a.ty.rust@
            + " = { let buf = unsafe { ::std::slice::from_raw_parts_mut(__arg"@ + dec_text(
            j as nat,
        ) + "_ptr, __arg"@ + dec_text(j as nat) + "_len) }; buf.to_owned().into() };\n"@,
        TypeKind::Json => "        let "@ + a.ident@ + ": "@ + a.ty.rust@
            + " = { let buf = unsafe { ::std::slice::from_raw_parts(__arg"@ + dec_text(j as nat)
            + "_ptr, __arg"@ + dec_text(j as nat)
            + "_len) }; ::sauro::serde_json::from_slice(buf).expect(\"failed to deserialize binding arguments\") };\n"@,
        TypeKind::StringBorrowed => "        let "@ + a.ident@
            + " = { let buf = unsafe { ::std::slice::from_raw_parts(__arg"@ + dec_text(j as nat)
            + "_ptr, __arg"@ + dec_text(j as nat)
            + "_len) }; ::std::str::from_utf8(buf).expect(\"failed to deserialize string\") };\n"@,
        TypeKind::StringOwned => "        let "@ + a.ident@
            + " = { let buf = unsafe { ::std::slice::from_raw_parts(__arg"@ + dec_text(j as nat)
            + "_ptr, __arg"@ + dec_text(j as nat)
            + "_len) }; let buf = buf.to_vec(); ::std::string::String::from_utf8(buf).expect(\"failed to deserialize string\") };\n"@,
    }
}

/// The first `i` parameter reconstructions, in order.
pub open spec fn overrides_text(inputs: Seq<FnArg>, i: int) -> Seq<char>
    decreases i,
{
    if i <= 0 || i > inputs.len() {
        Seq::<char>::empty()
    } else {
        overrides_text(inputs, i - 1) + override_text(inputs[i - 1], i - 1)
    }
}

/// The first `i` arguments of the inner call, joined by `, `.
pub open spec fn inner_args_text(inputs: Seq<FnArg>, i: int) -> Seq<char>
    decreases i,
{
    if i <= 0 || i > inputs.len() {
        Seq::<char>::empty()
    } else if i == 1 {
        inputs[0].ident@
    } else {
        inner_args_text(inputs, i - 1) + ", "@ + inputs[i - 1].ident@
    }
}

/// The wrapper's result: a scalar passes through; anything else is
/// encoded to bytes, length-prefixed with a four-byte big-endian header,
/// and deliberately leaked so that ownership passes to the caller.
#[verifier::opaque]
pub open spec fn return_stmt_text(out: ReturnType) -> Seq<char> {
    match out {
        ReturnType::Default => Seq::<char>::empty(),
        ReturnType::Type(t) => match t.kind {
            TypeKind::Native(_) => "        __inner_res\n"@,
            TypeKind::BufferBorrowed | TypeKind::BufferBorrowedMut | TypeKind::BufferOwned => {
                "        {\n            let x: "@ + t.rust@
                    + " = __inner_res;\n            let encoded_length = (x.len() as u32).to_be_bytes();\n            let mut buffer = encoded_length.to_vec();\n            buffer.extend(x);\n            let ptr = buffer.as_ptr();\n            ::std::mem::forget(buffer);\n            ptr\n        }\n"@
            },
            TypeKind::StringBorrowed | TypeKind::StringOwned => {
                "        {\n            let x: "@ + t.rust@
                    + " = __inner_res;\n            let encoded_str = x.as_bytes();\n            let encoded_length = (encoded_str.len() as u32).to_be_bytes();\n            let mut buffer = encoded_length.to_vec();\n            buffer.extend(encoded_str);\n            let ptr = buffer.as_ptr();\n            ::std::mem::forget(buffer);\n            ptr\n        }\n"@
            },
            TypeKind::Json => {
                "        {\n            let x: "@ + t.rust@
                    + " = __inner_res;\n            let json = ::sauro::serde_json::to_string(&x).expect(\"failed to serialize binding result\");\n            let encoded_json = json.into_bytes();\n            let encoded_length = (encoded_json.len() as u32).to_be_bytes();\n            let mut buffer = encoded_length.to_vec();\n            buffer.extend(encoded_json);\n            let ptr = buffer.as_ptr();\n            ::std::mem::forget(buffer);\n            ptr\n        }\n"@
            },
        },
    }
}

/// The native wrapper for one declared function.
#[verifier::opaque]
pub open spec fn native_fn_text(f: ItemFn) -> Seq<char> {
    "    #[no_mangle]\n"@ + "    pub unsafe extern \"C\" fn "@ + f.sig.ident@ + "("@
        + binding_args_text(f.sig.inputs@, f.sig.inputs@.len() as int) + ")"@ + binding_ret_text(
        f.sig.output,
    ) + " {\n"@ + "        fn __inner_impl("@ + inner_params_text(
        f.sig.inputs@,
        f.sig.inputs@.len() as int,
    ) + ")"@ + inner_ret_text(f.sig.output) + " "@ + f.body@ + "\n"@ + overrides_text(
        f.sig.inputs@,
        f.sig.inputs@.len() as int,
    ) + "        let __inner_res = __inner_impl("@ + inner_args_text(
        f.sig.inputs@,
        f.sig.inputs@.len() as int,
    ) + ");\n"@ + return_stmt_text(f.sig.output) + "    }\n"@ + "\n"@
}

/// One field of the serializable struct declaration.
#[verifier::opaque]
pub open spec fn native_field_text(f: Field) -> Seq<char> {
    "        pub "@ + f.ident@ + ": "@ + f.ty.rust@ + ",\n"@
}

/// The first `i` fields.
pub open spec fn native_fields_text(fs: Seq<Field>, i: int) -> Seq<char>
    decreases i,
{
    if i <= 0 || i > fs.len() {
        Seq::<char>::empty()
    } else {
        native_fields_text(fs, i - 1) + native_field_text(fs[i - 1])
    }
}

/// The declared struct again, annotated for automatic structural
/// (de)serialization, field order and names preserved.
#[verifier::opaque]
pub open spec fn native_struct_text(st: ItemStruct) -> Seq<char> {
    "    #[derive(::sauro::serde::Serialize, ::sauro::serde::Deserialize)]\n"@
        + "    #[serde(crate = \"::sauro::serde\")]\n"@ + "    pub struct "@ + st.ident@
        + " {\n"@ + native_fields_text(st.fields@, st.fields@.len() as int) + "    }\n"@ + "\n"@
}

/// The native source of one item.
pub open spec fn native_item_text(it: Item) -> Seq<char> {
    match it {
        Item::Fn(f) => native_fn_text(f),
        Item::Struct(st) => native_struct_text(st),
    }
}

/// The native source of the first `i` items, in declaration order.
pub open spec fn native_items_text(items: Seq<Item>, i: int) -> Seq<char>
    decreases i,
{
    if i <= 0 || i > items.len() {
        Seq::<char>::empty()
    } else {
        native_items_text(items, i - 1) + native_item_text(items[i - 1])
    }
}

/// The whole native wrapper source for one validated module.
#[verifier::opaque]
pub open spec fn module_native_text(m: Module) -> Seq<char> {
    "pub mod "@ + m.ident@ + " {\n"@ + native_items_text(m.items@, m.items@.len() as int)
        + "}\n"@
}

/// Emits the reconstruction of the `j`-th parameter.
#[verifier::rlimit(100)]
fn emit_override(out: &mut String, a: &FnArg, j: usize)
    ensures
        final(out)@ == old(out)@ + override_text(*a, j as int),
{
    let ghost base = out@;
    match a.ty.kind {
        TypeKind::Native(_) => {
            out.append("        let ");
            out.append(a.ident.as_str());
            out.append(" = __arg");
            push_dec(out, j);
            out.append(";\n");
        },
        TypeKind::BufferBorrowed => {
            out.append("        let ");
            out.append(a.ident.as_str());
            out.append(" = unsafe { ::std::slice::from_raw_parts(__arg");
            push_dec(out, j);
            out.append("_ptr, __arg");
            push_dec(out, j);
            out.append("_len) };\n");
        },
        TypeKind::BufferBorrowedMut => {
            out.append("        let mut ");
            out.append(a.ident.as_str());
            out.append(" = unsafe { ::std::slice::from_raw_parts_mut(__arg");
            push_dec(out, j);
            out.append("_ptr, __arg");
            push_dec(out, j);
            out.append("_len) };\n");
        },
        TypeKind::BufferOwned => {
            out.append("        let mut ");
            out.append(a.ident.as_str());
            out.append(": ");
            out.append(a.ty.rust.as_str());
            out.append(" = { let buf = unsafe { ::std::slice::from_raw_parts_mut(__arg");
            push_dec(out, j);
            out.append("_ptr, __arg");
            push_dec(out, j);
            out.append("_len) }; buf.to_owned().into() };\n");
        },
        TypeKind::Json => {
            out.append("        let ");
            out.append(a.ident.as_str());
            out.append(": ");
            out.append(a.ty.rust.as_str());
            out.append(" = { let buf = unsafe { ::std::slice::from_raw_parts(__arg");
            push_dec(out, j);
            out.append("_ptr, __arg");
            push_dec(out, j);
            out.append(
                "_len) }; ::sauro::serde_json::from_slice(buf).expect(\"failed to deserialize binding arguments\") };\n",
            );
        },
        TypeKind::StringBorrowed => {
            out.append("        let ");
            out.append(a.ident.as_str());
            out.append(" = { let buf = unsafe { ::std::slice::from_raw_parts(__arg");
            push_dec(out, j);
            out.append("_ptr, __arg");
            push_dec(out, j);
            out.append(
                "_len) }; ::std::str::from_utf8(buf).expect(\"failed to deserialize string\") };\n",
            );
        },
        TypeKind::StringOwned => {
            out.append("        let ");
            out.append(a.ident.as_str());
            out.append(" = { let buf = unsafe { ::std::slice::from_raw_parts(__arg");
            push_dec(out, j);
            out.append("_ptr, __arg");
            push_dec(out, j);
            out.append(
                "_len) }; let buf = buf.to_vec(); ::std::string::String::from_utf8(buf).expect(\"failed to deserialize string\") };\n",
            );
        },
    }
    proof {
        reveal(override_text);
    }
    assert(out@ =~= base + override_text(*a, j as int));
}

/// Emits the wrapper's result statement.
#[verifier::rlimit(100)]
fn emit_return_stmt(out: &mut String, output: &ReturnType)
    ensures
        final(out)@ == old(out)@ + return_stmt_text(*output),
{
    let ghost base = out@;
    match output {
        ReturnType::Default => {},
        ReturnType::Type(t) => {
            match t.kind {
                TypeKind::Native(_) => {
                    out.append("        __inner_res\n");
                },
                TypeKind::BufferBorrowed | TypeKind::BufferBorrowedMut
                    | TypeKind::BufferOwned => {
                    out.append("        {\n            let x: ");
                    out.append(t.rust.as_str());
                    out.append(
                        " = __inner_res;\n            let encoded_length = (x.len() as u32).to_be_bytes();\n            let mut buffer = encoded_length.to_vec();\n            buffer.extend(x);\n            let ptr = buffer.as_ptr();\n            ::std::mem::forget(buffer);\n            ptr\n        }\n",
                    );
                },
                TypeKind::StringBorrowed | TypeKind::StringOwned => {
                    out.append("        {\n            let x: ");
                    out.append(t.rust.as_str());
                    out.append(
                        " = __inner_res;\n            let encoded_str = x.as_bytes();\n            let encoded_length = (encoded_str.len() as u32).to_be_bytes();\n            let mut buffer = encoded_length.to_vec();\n            buffer.extend(encoded_str);\n            let ptr = buffer.as_ptr();\n            ::std::mem::forget(buffer);\n            ptr\n        }\n",
                    );
                },
                TypeKind::Json => {
                    out.append("        {\n            let x: ");
                    out.append(t.rust.as_str());
                    out.append(
                        " = __inner_res;\n            let json = ::sauro::serde_json::to_string(&x).expect(\"failed to serialize binding result\");\n            let encoded_json = json.into_bytes();\n            let encoded_length = (encoded_json.len() as u32).to_be_bytes();\n            let mut buffer = encoded_length.to_vec();\n            buffer.extend(encoded_json);\n            let ptr = buffer.as_ptr();\n            ::std::mem::forget(buffer);\n            ptr\n        }\n",
                    );
                },
            }
        },
    }
    proof {
        reveal(return_stmt_text);
    }
    assert(out@ =~= base + return_stmt_text(*output));
}

/// Emits the exported signature's parameter list.
#[verifier::loop_isolation(false)]
#[verifier::rlimit(100)]
fn emit_binding_args(out: &mut String, inputs: &Vec<FnArg>)
    ensures
        final(out)@ == old(out)@ + binding_args_text(inputs@, inputs@.len() as int),
{
    let ghost base = out@;
    let mut i: usize = 0;
    while i < inputs.len()
        invariant
            i <= inputs@.len(),
            out@ == base + binding_args_text(inputs@, i as int),
        decreases inputs@.len() - i,
    {
        if i > 0 {
            out.append(", ");
        }
        let a = &inputs[i];
        match a.ty.kind {
            TypeKind::Native(_) => {
                out.append("__arg");
                push_dec(out, i);
                out.append(": ");
                out.append(a.ty.rust.as_str());
            },
            _ => {
                out.append("__arg");
                push_dec(out, i);
                out.append("_ptr: *mut u8, __arg");
                push_dec(out, i);
                out.append("_len: usize");
            },
        }
        i = i + 1;
        proof {
            reveal(binding_arg_text);
        }
        assert(out@ =~= base + binding_args_text(inputs@, i as int));
    }
}

/// Emits the inner function's parameter list.
#[verifier::loop_isolation(false)]
#[verifier::rlimit(100)]
fn emit_inner_params(out: &mut String, inputs: &Vec<FnArg>)
    ensures
        final(out)@ == old(out)@ + inner_params_text(inputs@, inputs@.len() as int),
{
    let ghost base = out@;
    let mut i: usize = 0;
    while i < inputs.len()
        invariant
            i <= inputs@.len(),
            out@ == base + inner_params_text(inputs@, i as int),
        decreases inputs@.len() - i,
    {
        if i > 0 {
            out.append(", ");
        }
        let a = &inputs[i];
        if a.mutable {
            out.append("mut ");
        }
        out.append(a.ident.as_str());
        out.append(": ");
        out.append(a.ty.rust.as_str());
        i = i + 1;
        proof {
            reveal(inner_param_text);
        }
        assert(out@ =~= base + inner_params_text(inputs@, i as int));
    }
}

/// Emits the parameter reconstructions, in order.
#[verifier::loop_isolation(false)]
#[verifier::rlimit(100)]
fn emit_overrides(out: &mut String, inputs: &Vec<FnArg>)
    ensures
        final(out)@ == old(out)@ + overrides_text(inputs@, inputs@.len() as int),
{
    let ghost ob = out@;
    let mut i: usize = 0;
    while i < inputs.len()
        invariant
            i <= inputs@.len(),
            out@ == ob + overrides_text(inputs@, i as int),
        decreases inputs@.len() - i,
    {
        emit_override(out, &inputs[i], i);
        i = i + 1;
        assert(out@ =~= ob + overrides_text(inputs@, i as int));
    }
}

/// Emits the arguments of the inner call.
#[verifier::loop_isolation(false)]
#[verifier::rlimit(100)]
fn emit_inner_args(out: &mut String, inputs: &Vec<FnArg>)
    ensures
        final(out)@ == old(out)@ + inner_args_text(inputs@, inputs@.len() as int),
{
    let ghost ab = out@;
    let mut i: usize = 0;
    while i < inputs.len()
        invariant
            i <= inputs@.len(),
            out@ == ab + inner_args_text(inputs@, i as int),
        decreases inputs@.len() - i,
    {
        if i > 0 {
            out.append(", ");
        }
        out.append(inputs[i].ident.as_str());
        i = i + 1;
        assert(out@ =~= ab + inner_args_text(inputs@, i as int));
    }
}

/// Emits the native wrapper for one declared function.
#[verifier::rlimit(100)]
pub fn expand_function(out: &mut String, func: &ItemFn)
    ensures
        final(out)@ == old(out)@ + native_fn_text(*func),
{
    let ghost base = out@;
    out.append("    #[no_mangle]\n");
    out.append("    pub unsafe extern \"C\" fn ");
    out.append(func.sig.ident.as_str());
    out.append("(");
    emit_binding_args(out, &func.sig.inputs);
    out.append(")");
    match &func.sig.output {
        ReturnType::Default => {},
        ReturnType::Type(t) => {
            match t.kind {
                TypeKind::Native(_) => {
                    out.append(" -> ");
                    out.append(t.rust.as_str());
                },
                _ => {
                    out.append(" -> *const u8");
                },
            }
        },
    }
    proof {
        reveal(binding_ret_text);
    }
    out.append(" {\n");
    out.append("        fn __inner_impl(");
    emit_inner_params(out, &func.sig.inputs);
    out.append(")");
    match &func.sig.output {
        ReturnType::Default => {},
        ReturnType::Type(t) => {
            out.append(" -> ");
            out.append(t.rust.as_str());
        },
    }
    proof {
        reveal(inner_ret_text);
    }
    out.append(" ");
    out.append(func.body.as_str());
    out.append("\n");
    let ghost m_inner = base + "    #[no_mangle]\n"@ + "    pub unsafe extern \"C\" fn "@
        + func.sig.ident@ + "("@ + binding_args_text(func.sig.inputs@, func.sig.inputs@.len() as int)
        + ")"@ + binding_ret_text(func.sig.output) + " {\n"@ + "        fn __inner_impl("@
        + inner_params_text(func.sig.inputs@, func.sig.inputs@.len() as int) + ")"@
        + inner_ret_text(func.sig.output) + " "@ + func.body@ + "\n"@;
    assert(out@ =~= m_inner);
    emit_overrides(out, &func.sig.inputs);
    out.append("        let __inner_res = __inner_impl(");
    emit_inner_args(out, &func.sig.inputs);
    out.append(");\n");
    let ghost m_call = m_inner + overrides_text(func.sig.inputs@, func.sig.inputs@.len() as int)
        + "        let __inner_res = __inner_impl("@ + inner_args_text(
        func.sig.inputs@,
        func.sig.inputs@.len() as int,
    ) + ");\n"@;
    assert(out@ =~= m_call);
    emit_return_stmt(out, &func.sig.output);
    out.append("    }\n");
    out.append("\n");
    proof {
        reveal(native_fn_text);
    }
    assert(out@ =~= base + native_fn_text(*func));
}

/// Emits the serializable declaration of one declared struct.
#[verifier::loop_isolation(false)]
#[verifier::rlimit(100)]
pub fn expand_struct(out: &mut String, strct: &ItemStruct)
    ensures
        final(out)@ == old(out)@ + native_struct_text(*strct),
{
    let ghost base = out@;
    out.append("    #[derive(::sauro::serde::Serialize, ::sauro::serde::Deserialize)]\n");
    out.append("    #[serde(crate = \"::sauro::serde\")]\n");
    out.append("    pub struct ");
    out.append(strct.ident.as_str());
    out.append(" {\n");
    let ghost fb = out@;
    let mut i: usize = 0;
    while i < strct.fields.len()
        invariant
            i <= strct.fields@.len(),
            out@ == fb + native_fields_text(strct.fields@, i as int),
        decreases strct.fields@.len() - i,
    {
        let f = &strct.fields[i];
        out.append("        pub ");
        out.append(f.ident.as_str());
        out.append(": ");
        out.append(f.ty.rust.as_str());
        out.append(",\n");
        i = i + 1;
        proof {
            reveal(native_field_text);
        }
        assert(out@ =~= fb + native_fields_text(strct.fields@, i as int));
    }
    out.append("    }\n");
    out.append("\n");
    proof {
        reveal(native_struct_text);
    }
    assert(out@ =~= base + native_struct_text(*strct));
}

/// Emits the whole native wrapper source for one validated module.  The
/// output is exactly `module_native_text`, a function of the module alone.
#[verifier::loop_isolation(false)]
pub fn bindgen(module: &Module) -> (out: String)
    ensures
        out@ == module_native_text(*module),
{
    let mut out = String::new();
    out.append("pub mod ");
    out.append(module.ident.as_str());
    out.append(" {\n");
    let ghost ib = out@;
    let mut i: usize = 0;
    while i < module.items.len()
        invariant
            i <= module.items@.len(),
            out@ == ib + native_items_text(module.items@, i as int),
        decreases module.items@.len() - i,
    {
        match &module.items[i] {
            Item::Fn(f) => expand_function(&mut out, f),
            Item::Struct(s) => expand_struct(&mut out, s),
        }
        i = i + 1;
        assert(out@ =~= ib + native_items_text(module.items@, i as int));
    }
    out.append("}\n");
    proof {
        reveal(module_native_text);
    }
    assert(out@ =~= module_native_text(*module));
    out
}

} // verus!
