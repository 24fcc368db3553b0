//! The client-side generator.
//!
//! For one validated module it emits the client binding source: structural
//! type declarations, the dynamic-library load expression with its symbol
//! descriptor table, one wrapper per declared function, and the shared
//! utilities each emitted at most once.  `module_client_text` is the
//! authoritative text, and `expand_module` is proved to produce exactly it,
//! which also makes the output a function of the input alone.

use vstd::prelude::*;
use vstd::string::*;

use crate::syntax::{
    native_symbol, FnArg, Item, ItemFn, ItemStruct, Module, ReturnType, Type, TypeKind,
};
use crate::text::{dec_text, push_dec};
use crate::typescript;
use crate::typescript::type_text;

verus! {

/// The symbol-table wire kind of a parameter: scalars by name, everything
/// else a buffer-and-length pair (two entries, spliced by the quoting
/// around it).
pub open spec fn symbol_type_text(k: TypeKind) -> Seq<char> {
    match k {
        TypeKind::Native(n) => native_symbol(n),
        _ => "buffer\", \"usize"@,
    }
}

/// The symbol-table wire kind of a return value: scalars by name,
/// everything else one buffer pointer.
pub open spec fn symbol_return_type_text(k: TypeKind) -> Seq<char> {
    match k {
        TypeKind::Native(n) => native_symbol(n),
        _ => "buffer"@,
    }
}

/// One parameter in a wrapper head: `name: Type`.
pub open spec fn param_text(a: FnArg) -> Seq<char> {
    a.ident@ + ": "@ + type_text(a.ty.ts)
}

/// The first `i` wrapper-head parameters, joined by `, `.
pub open spec fn params_text(inputs: Seq<FnArg>, i: int) -> Seq<char>
    decreases i,
{
    if i <= 0 || i > inputs.len() {
        Seq::<char>::empty()
    } else if i == 1 {
        param_text(inputs[0])
    } else {
        params_text(inputs, i - 1) + ", "@ + param_text(inputs[i - 1])
    }
}

/// The head of a wrapper: the export, the name, the parameters, and the
/// return type, promise-wrapped for a non-blocking function.
#[verifier::opaque]
pub open spec fn fn_head_text(f: ItemFn) -> Seq<char> {
    (if f.non_blocking {
        "export async function "@
    } else {
        "export function "@
    }) + f.sig.ident@ + "("@ + params_text(f.sig.inputs@, f.sig.inputs@.len() as int) + ")"@ + (
    match f.sig.output {
        ReturnType::Default => Seq::<char>::empty(),
        ReturnType::Type(t) => if f.non_blocking {
            ": "@ + "Promise<"@ + type_text(t.ts) + ">"@
        } else {
            ": "@ + type_text(t.ts)
        },
    }) + " {\n"@
}

/// The line pair computing a parameter's byte length.
#[verifier::opaque]
pub open spec fn arg_len_line(j: int) -> Seq<char> {
    "  const __arg"@ + dec_text(j as nat) + "_len = __arg"@ + dec_text(j as nat)
        + "_ptr.byteLength;\n"@
}

/// The transformation of the `j`-th argument into what the symbol call
/// takes: scalars pass through, buffers are measured, strings and JSON
/// values are encoded to bytes first.
#[verifier::opaque]
pub open spec fn transform_text(a: FnArg, j: int) -> Seq<char> {
    match a.ty.kind {
        TypeKind::Native(_) => "  const __arg"@ + dec_text(j as nat) + " = "@ + a.ident@ + ";\n"@,
        TypeKind::BufferBorrowed | TypeKind::BufferBorrowedMut | TypeKind::BufferOwned => {
            "  const __arg"@ + dec_text(j as nat) + "_ptr = "@ + a.ident@ + ";\n"@ + arg_len_line(
                j,
            )
        },
        TypeKind::StringBorrowed | TypeKind::StringOwned => {
            "  const __arg"@ + dec_text(j as nat) + "_ptr = __stringEncode("@ + a.ident@
                + ");\n"@ + arg_len_line(j)
        },
        TypeKind::Json => {
            "  const __arg"@ + dec_text(j as nat) + "_ptr = __structEncode("@ + a.ident@
                + ");\n"@ + arg_len_line(j)
        },
    }
}

/// The first `i` argument transformations, in order.
pub open spec fn transforms_text(inputs: Seq<FnArg>, i: int) -> Seq<char>
    decreases i,
{
    if i <= 0 || i > inputs.len() {
        Seq::<char>::empty()
    } else {
        transforms_text(inputs, i - 1) + transform_text(inputs[i - 1], i - 1)
    }
}

/// How the `j`-th argument is passed to the loaded symbol.
pub open spec fn call_arg_text(a: FnArg, j: int) -> Seq<char> {
    match a.ty.kind {
        TypeKind::Native(_) => "__arg"@ + dec_text(j as nat),
        _ => "__arg"@ + dec_text(j as nat) + "_ptr, __arg"@ + dec_text(j as nat) + "_len"@,
    }
}

/// The first `i` symbol-call arguments, joined by `, `.
pub open spec fn call_args_text(inputs: Seq<FnArg>, i: int) -> Seq<char>
    decreases i,
{
    if i <= 0 || i > inputs.len() {
        Seq::<char>::empty()
    } else if i == 1 {
        call_arg_text(inputs[0], 0)
    } else {
        call_args_text(inputs, i - 1) + ", "@ + call_arg_text(inputs[i - 1], i - 1)
    }
}

/// The result transformation: scalars pass through; anything else strips
/// the length header and decodes, chained onto the deferred value when the
/// function is non-blocking.
#[verifier::opaque]
pub open spec fn return_text(f: ItemFn) -> Seq<char> {
    match f.sig.output {
        ReturnType::Default => Seq::<char>::empty(),
        ReturnType::Type(t) => match t.kind {
            TypeKind::Native(_) => "  return __res\n"@,
            TypeKind::BufferBorrowed | TypeKind::BufferBorrowedMut | TypeKind::BufferOwned => {
                if f.non_blocking {
                    "  return __res.then(__lenPrefixedBuffer);\n"@
                } else {
                    "  return __lenPrefixedBuffer(__res);\n"@
                }
            },
            TypeKind::StringBorrowed | TypeKind::StringOwned => if f.non_blocking {
                "  return __res.then(__lenPrefixedBuffer).then(__stringDecode);\n"@
            } else {
                "  return __stringDecode(__lenPrefixedBuffer(__res));\n"@
            },
            TypeKind::Json => if f.non_blocking {
                "  return __res.then(__lenPrefixedBuffer).then(__structDecode);\n"@
            } else {
                "  return __structDecode(__lenPrefixedBuffer(__res));\n"@
            },
        },
    }
}

/// The whole wrapper for one declared function.
#[verifier::opaque]
pub open spec fn fn_client_text(f: ItemFn) -> Seq<char> {
    fn_head_text(f) + transforms_text(f.sig.inputs@, f.sig.inputs@.len() as int) + (
    if f.sig.inputs@.len() > 0 {
        "\n"@
    } else {
        Seq::<char>::empty()
    }) + "  const __res = __symbols."@ + f.sig.ident@ + "("@ + call_args_text(
        f.sig.inputs@,
        f.sig.inputs@.len() as int,
    ) + ");\n"@ + return_text(f) + "}\n"@ + "\n"@
}

/// One line of a structural type declaration.
pub open spec fn field_ts_text(f: crate::syntax::Field) -> Seq<char> {
    "  "@ + f.ident@ + ": "@ + type_text(f.ty.ts) + ";\n"@
}

/// The first `i` field lines.
pub open spec fn fields_ts_text(fs: Seq<crate::syntax::Field>, i: int) -> Seq<char>
    decreases i,
{
    if i <= 0 || i > fs.len() {
        Seq::<char>::empty()
    } else {
        fields_ts_text(fs, i - 1) + field_ts_text(fs[i - 1])
    }
}

/// The structural type declaration for one declared struct.
#[verifier::opaque]
pub open spec fn struct_ts_text(st: ItemStruct) -> Seq<char> {
    "export type "@ + st.ident@ + " = {\n"@ + fields_ts_text(st.fields@, st.fields@.len() as int)
        + "}\n"@ + "\n"@
}

/// One symbol-table parameter entry, quoted.
pub open spec fn sym_param_text(a: FnArg) -> Seq<char> {
    "\""@ + symbol_type_text(a.ty.kind) + "\""@
}

/// The first `i` symbol-table parameter entries, joined by `, `.
pub open spec fn sym_params_text(inputs: Seq<FnArg>, i: int) -> Seq<char>
    decreases i,
{
    if i <= 0 || i > inputs.len() {
        Seq::<char>::empty()
    } else if i == 1 {
        sym_param_text(inputs[0])
    } else {
        sym_params_text(inputs, i - 1) + ", "@ + sym_param_text(inputs[i - 1])
    }
}

/// One function's entry in the symbol descriptor table: its parameter wire
/// kinds, its result wire kind, and its blocking mode.
#[verifier::opaque]
pub open spec fn sym_entry_text(f: ItemFn) -> Seq<char> {
    "    \""@ + f.sig.ident@ + "\": {\n"@ + "      \"parameters\": ["@ + sym_params_text(
        f.sig.inputs@,
        f.sig.inputs@.len() as int,
    ) + "],\n"@ + (match f.sig.output {
        ReturnType::Default => "      \"result\": \"void\",\n"@,
        ReturnType::Type(t) => "      \"result\": \""@ + symbol_return_type_text(t.kind)
            + "\",\n"@,
    }) + "      \"nonblocking\": "@ + (if f.non_blocking {
        "true"@
    } else {
        "false"@
    }) + ",\n"@ + "    },\n"@
}

/// The symbol-table entries of the functions among the first `i` items.
pub open spec fn sym_entries_text(items: Seq<Item>, i: int) -> Seq<char>
    decreases i,
{
    if i <= 0 || i > items.len() {
        Seq::<char>::empty()
    } else {
        sym_entries_text(items, i - 1) + (match items[i - 1] {
            Item::Fn(f) => sym_entry_text(f),
            Item::Struct(_) => Seq::<char>::empty(),
        })
    }
}

/// One line of the per-operating-system file name table: the key, the
/// path prefix, the platform's library name prefix, the base name, and the
/// platform's extension.
pub open spec fn dl_line(
    key: Seq<char>,
    prefix: Seq<char>,
    mid: Seq<char>,
    dylib: Seq<char>,
    tail: Seq<char>,
) -> Seq<char> {
    key + prefix + mid + dylib + tail
}

/// The head of the load expression: the call, the file name table keyed by
/// operating system, and the opening of the descriptor table.
#[verifier::opaque]
pub open spec fn symbols_head_text(dylib: Seq<char>, prefix: Seq<char>) -> Seq<char> {
    "const { symbols: __symbols } = Deno.dlopen(\n"@ + "  new URL(\n"@ + "    {\n"@ + dl_line(
        "      darwin: '"@,
        prefix,
        "lib"@,
        dylib,
        ".dylib',\n"@,
    ) + dl_line("      linux: '"@, prefix, "lib"@, dylib, ".so',\n"@) + dl_line(
        "      windows: '"@,
        prefix,
        ""@,
        dylib,
        ".dll',\n"@,
    ) + dl_line("      freebsd: '"@, prefix, "lib"@, dylib, ".so',\n"@) + dl_line(
        "      netbsd: '"@,
        prefix,
        "lib"@,
        dylib,
        ".so',\n"@,
    ) + dl_line("      aix: '"@, prefix, "lib"@, dylib, ".so',\n"@) + dl_line(
        "      solaris: '"@,
        prefix,
        "lib"@,
        dylib,
        ".so',\n"@,
    ) + dl_line("      illumos: '"@, prefix, "lib"@, dylib, ".so',\n"@)
        + "    }[Deno.build.os],\n"@ + "    import.meta.url\n"@ + "  ),\n"@ + "  {\n"@
}

/// The dynamic-library load expression: a per-operating-system file name
/// pattern resolved relative to the generated file, and the symbol
/// descriptor table.
#[verifier::opaque]
pub open spec fn symbols_text(items: Seq<Item>, dylib: Seq<char>, prefix: Seq<char>) -> Seq<
    char,
> {
    symbols_head_text(dylib, prefix) + sym_entries_text(items, items.len() as int) + "  }\n"@
        + ");\n"@
}

/// The structural type declarations among the first `i` items.
pub open spec fn structs_text(items: Seq<Item>, i: int) -> Seq<char>
    decreases i,
{
    if i <= 0 || i > items.len() {
        Seq::<char>::empty()
    } else {
        structs_text(items, i - 1) + (match items[i - 1] {
            Item::Struct(st) => struct_ts_text(st),
            Item::Fn(_) => Seq::<char>::empty(),
        })
    }
}

/// The wrappers of the functions among the first `i` items.
pub open spec fn fns_text(items: Seq<Item>, i: int) -> Seq<char>
    decreases i,
{
    if i <= 0 || i > items.len() {
        Seq::<char>::empty()
    } else {
        fns_text(items, i - 1) + (match items[i - 1] {
            Item::Fn(f) => fn_client_text(f),
            Item::Struct(_) => Seq::<char>::empty(),
        })
    }
}

/// Which shared utilities the wrappers generated so far need; every needed
/// utility is emitted exactly once per output, whatever the demand count.
#[derive(Debug, Clone, Copy, PartialEq, Eq, Structural)]
pub struct Utilities {
    pub string_encode: bool,
    pub string_decode: bool,
    pub struct_encode: bool,
    pub struct_decode: bool,
    pub len_prefixed_buffer: bool,
}

/// No utility needed.
pub open spec fn utils_none() -> Utilities {
    Utilities {
        string_encode: false,
        string_decode: false,
        struct_encode: false,
        struct_decode: false,
        len_prefixed_buffer: false,
    }
}

/// The union of two demand sets.
pub open spec fn utils_merge(a: Utilities, b: Utilities) -> Utilities {
    Utilities {
        string_encode: a.string_encode || b.string_encode,
        string_decode: a.string_decode || b.string_decode,
        struct_encode: a.struct_encode || b.struct_encode,
        struct_decode: a.struct_decode || b.struct_decode,
        len_prefixed_buffer: a.len_prefixed_buffer || b.len_prefixed_buffer,
    }
}

/// The encoder demands of the first `i` parameters: the string encoder and
/// the JSON encoder.
pub open spec fn args_flags(inputs: Seq<FnArg>, i: int) -> (bool, bool)
    decreases i,
{
    if i <= 0 || i > inputs.len() {
        (false, false)
    } else {
        let prev = args_flags(inputs, i - 1);
        let k = inputs[i - 1].ty.kind;
        (
            prev.0 || k == TypeKind::StringBorrowed || k == TypeKind::StringOwned,
            prev.1 || k == TypeKind::Json,
        )
    }
}

/// The utilities one declared function demands.
pub open spec fn fn_utils(f: ItemFn) -> Utilities {
    let ar = args_flags(f.sig.inputs@, f.sig.inputs@.len() as int);
    let ret = match f.sig.output {
        ReturnType::Default => (false, false, false),
        ReturnType::Type(t) => match t.kind {
            TypeKind::Native(_) => (false, false, false),
            TypeKind::BufferBorrowed | TypeKind::BufferBorrowedMut | TypeKind::BufferOwned => (
                false,
                false,
                true,
            ),
            TypeKind::StringBorrowed | TypeKind::StringOwned => (true, false, true),
            TypeKind::Json => (false, true, true),
        },
    };
    Utilities {
        string_encode: ar.0,
        struct_encode: ar.1,
        string_decode: ret.0,
        struct_decode: ret.1,
        len_prefixed_buffer: ret.2,
    }
}

/// The utilities the first `i` items demand together.
pub open spec fn utils_prefix(items: Seq<Item>, i: int) -> Utilities
    decreases i,
{
    if i <= 0 || i > items.len() {
        utils_none()
    } else {
        let u = utils_prefix(items, i - 1);
        match items[i - 1] {
            Item::Fn(f) => utils_merge(u, fn_utils(f)),
            Item::Struct(_) => u,
        }
    }
}

/// The text-encoder utility.
pub open spec fn string_encode_src() -> Seq<char> {
    "function __stringEncode(s: string): Uint8Array {\n    return new TextEncoder().encode(s);\n}\n"@
}

/// The text-decoder utility.
pub open spec fn string_decode_src() -> Seq<char> {
    "function __stringDecode(a: Uint8Array): string {\n    return new TextDecoder().decode(a)\n}\n"@
}

/// The JSON-encoder utility.
pub open spec fn struct_encode_src() -> Seq<char> {
    "function __structEncode(v: any): Uint8Array {\n    return __stringEncode(JSON.stringify(v));\n}\n"@
}

/// The JSON-decoder utility.
pub open spec fn struct_decode_src() -> Seq<char> {
    "function __structDecode(v: Uint8Array): any {\n    return JSON.parse(__stringDecode(v));\n}\n"@
}

/// The length-prefix stripper: it reads the four-byte big-endian header
/// out of the raw returned memory and copies exactly that many payload
/// bytes into an owned array.
pub open spec fn len_prefixed_buffer_src() -> Seq<char> {
    "function __lenPrefixedBuffer(v: any): Uint8Array {\n    const unsafeView = new Deno.UnsafePointerView(v);\n\n    const lenBigEndian = new Uint8Array(4);\n    const lenBigEndianView = new DataView(lenBigEndian.buffer);\n    unsafeView.copyInto(lenBigEndian, 0);\n    const len = lenBigEndianView.getInt32(0);\n\n    const buffer = new Uint8Array(len);\n    unsafeView.copyInto(buffer, 4);\n\n    return buffer;\n}\n"@
}

/// The shared utilities a demand set selects, each followed by a blank
/// line; either encoder pulls in the text encoder it builds on.
#[verifier::opaque]
pub open spec fn utilities_text(u: Utilities) -> Seq<char> {
    (if u.string_encode || u.struct_encode {
        string_encode_src() + "\n"@
    } else {
        Seq::<char>::empty()
    }) + (if u.string_decode || u.struct_decode {
        string_decode_src() + "\n"@
    } else {
        Seq::<char>::empty()
    }) + (if u.struct_encode {
        struct_encode_src() + "\n"@
    } else {
        Seq::<char>::empty()
    }) + (if u.struct_decode {
        struct_decode_src() + "\n"@
    } else {
        Seq::<char>::empty()
    }) + (if u.len_prefixed_buffer {
        len_prefixed_buffer_src() + "\n"@
    } else {
        Seq::<char>::empty()
    })
}

/// The whole client binding source for one module: the structural types,
/// the load expression with its descriptor table, the wrappers, and the
/// selected utilities.
#[verifier::opaque]
pub open spec fn module_client_text(m: Module, dylib: Seq<char>, prefix: Seq<char>) -> Seq<
    char,
> {
    structs_text(m.items@, m.items@.len() as int) + symbols_text(m.items@, dylib, prefix)
        + fns_text(m.items@, m.items@.len() as int) + utilities_text(
        utils_prefix(m.items@, m.items@.len() as int),
    )
}

/// Generating twice from identical input produces byte-identical output:
/// both emitted sources are functions of the validated module and the
/// library name alone, with nothing drawn from iteration order, time or
/// the environment.
pub proof fn lemma_deterministic_output(
    m: Module,
    dylib: Seq<char>,
    prefix: Seq<char>,
    c1: Seq<char>,
    c2: Seq<char>,
    n1: Seq<char>,
    n2: Seq<char>,
)
    requires
        c1 == module_client_text(m, dylib, prefix),
        c2 == module_client_text(m, dylib, prefix),
        n1 == crate::native::module_native_text(m),
        n2 == crate::native::module_native_text(m),
    ensures
        c1 == c2,
        n1 == n2,
{
}

impl Default for Utilities {
    /// No utility needed yet.
    fn default() -> (u: Utilities)
        ensures
            u == utils_none(),
    {
        Utilities {
            string_encode: false,
            string_decode: false,
            struct_encode: false,
            struct_decode: false,
            len_prefixed_buffer: false,
        }
    }
}

impl Utilities {
    /// Accumulates the demands of one more item.
    pub fn merge(&mut self, other: Utilities)
        ensures
            *final(self) == utils_merge(*old(self), other),
    {
        self.string_encode = self.string_encode || other.string_encode;
        self.string_decode = self.string_decode || other.string_decode;
        self.struct_encode = self.struct_encode || other.struct_encode;
        self.struct_decode = self.struct_decode || other.struct_decode;
        self.len_prefixed_buffer = self.len_prefixed_buffer || other.len_prefixed_buffer;
    }

    /// Emits each selected utility once, a blank line after each.
    #[verifier::rlimit(100)]
    pub fn expand(&self, out: &mut String)
        ensures
            final(out)@ == old(out)@ + utilities_text(*self),
    {
        proof {
            reveal(utilities_text);
        }
        let ghost base = out@;
        if self.string_encode || self.struct_encode {
            out.append(
                "function __stringEncode(s: string): Uint8Array {\n    return new TextEncoder().encode(s);\n}\n",
            );
            out.append("\n");
        }
        let ghost m1 = base + (if self.string_encode || self.struct_encode {
            string_encode_src() + "\n"@
        } else {
            Seq::<char>::empty()
        });
        assert(out@ =~= m1);
        if self.string_decode || self.struct_decode {
            out.append(
                "function __stringDecode(a: Uint8Array): string {\n    return new TextDecoder().decode(a)\n}\n",
            );
            out.append("\n");
        }
        let ghost m2 = m1 + (if self.string_decode || self.struct_decode {
            string_decode_src() + "\n"@
        } else {
            Seq::<char>::empty()
        });
        assert(out@ =~= m2);
        if self.struct_encode {
            out.append(
                "function __structEncode(v: any): Uint8Array {\n    return __stringEncode(JSON.stringify(v));\n}\n",
            );
            out.append("\n");
        }
        let ghost m3 = m2 + (if self.struct_encode {
            struct_encode_src() + "\n"@
        } else {
            Seq::<char>::empty()
        });
        assert(out@ =~= m3);
        if self.struct_decode {
            out.append(
                "function __structDecode(v: Uint8Array): any {\n    return JSON.parse(__stringDecode(v));\n}\n",
            );
            out.append("\n");
        }
        let ghost m4 = m3 + (if self.struct_decode {
            struct_decode_src() + "\n"@
        } else {
            Seq::<char>::empty()
        });
        assert(out@ =~= m4);
        if self.len_prefixed_buffer {
            out.append(
                "function __lenPrefixedBuffer(v: any): Uint8Array {\n    const unsafeView = new Deno.UnsafePointerView(v);\n\n    const lenBigEndian = new Uint8Array(4);\n    const lenBigEndianView = new DataView(lenBigEndian.buffer);\n    unsafeView.copyInto(lenBigEndian, 0);\n    const len = lenBigEndianView.getInt32(0);\n\n    const buffer = new Uint8Array(len);\n    unsafeView.copyInto(buffer, 4);\n\n    return buffer;\n}\n",
            );
            out.append("\n");
        }
        assert(out@ =~= m4 + (if self.len_prefixed_buffer {
            len_prefixed_buffer_src() + "\n"@
        } else {
            Seq::<char>::empty()
        }));
        assert(out@ =~= base + utilities_text(*self));
    }
}

/// Appends the client spelling of a classified type.
pub fn expand_type(out: &mut String, ty: &Type)
    ensures
        final(out)@ == old(out)@ + type_text(ty.ts),
{
    let s = typescript::render(&ty.ts);
    out.append(s.as_str());
}

/// The symbol-table wire kind of a parameter.
pub fn symbol_type(ty: &Type) -> (r: &'static str)
    ensures
        r@ == symbol_type_text(ty.kind),
{
    match ty.kind {
        TypeKind::Native(n) => n.symbol(),
        _ => "buffer\", \"usize",
    }
}

/// The symbol-table wire kind of a return value.
pub fn symbol_return_type(ty: &Type) -> (r: &'static str)
    ensures
        r@ == symbol_return_type_text(ty.kind),
{
    match ty.kind {
        TypeKind::Native(n) => n.symbol(),
        _ => "buffer",
    }
}

/// Emits the structural type declaration for one declared struct; it
/// needs no shared utility.
#[verifier::loop_isolation(false)]
pub fn expand_struct(out: &mut String, strct: &ItemStruct) -> (u: Utilities)
    ensures
        final(out)@ == old(out)@ + struct_ts_text(*strct),
        u == utils_none(),
{
    let ghost base = out@;
    out.append("export type ");
    out.append(strct.ident.as_str());
    out.append(" = {\n");
    let ghost fbase = out@;
    let mut i: usize = 0;
    while i < strct.fields.len()
        invariant
            i <= strct.fields@.len(),
            out@ == fbase + fields_ts_text(strct.fields@, i as int),
        decreases strct.fields@.len() - i,
    {
        let f = &strct.fields[i];
        out.append("  ");
        out.append(f.ident.as_str());
        out.append(": ");
        expand_type(out, &f.ty);
        out.append(";\n");
        i = i + 1;
        assert(out@ =~= fbase + fields_ts_text(strct.fields@, i as int));
    }
    out.append("}\n");
    out.append("\n");
    proof {
        reveal(struct_ts_text);
    }
    assert(out@ =~= base + struct_ts_text(*strct));
    Utilities::default()
}

/// Appends one five-part file-name-table line.
fn push_line5(out: &mut String, key: &str, prefix: &str, mid: &str, dylib: &str, tail: &str)
    ensures
        final(out)@ == old(out)@ + dl_line(key@, prefix@, mid@, dylib@, tail@),
{
    let ghost base = out@;
    out.append(key);
    out.append(prefix);
    out.append(mid);
    out.append(dylib);
    out.append(tail);
    assert(out@ =~= base + dl_line(key@, prefix@, mid@, dylib@, tail@));
}

/// Emits the head of the load expression.
#[verifier::rlimit(100)]
fn emit_symbols_head(out: &mut String, dylib: &str, prefix: &str)
    ensures
        final(out)@ == old(out)@ + symbols_head_text(dylib@, prefix@),
{
    let ghost base = out@;
    out.append("const { symbols: __symbols } = Deno.dlopen(\n");
    out.append("  new URL(\n");
    out.append("    {\n");
    push_line5(out, "      darwin: '", prefix, "lib", dylib, ".dylib',\n");
    push_line5(out, "      linux: '", prefix, "lib", dylib, ".so',\n");
    push_line5(out, "      windows: '", prefix, "", dylib, ".dll',\n");
    push_line5(out, "      freebsd: '", prefix, "lib", dylib, ".so',\n");
    assert(out@ =~= base + ("const { symbols: __symbols } = Deno.dlopen(\n"@ + "  new URL(\n"@
        + "    {\n"@ + dl_line("      darwin: '"@, prefix@, "lib"@, dylib@, ".dylib',\n"@)
        + dl_line("      linux: '"@, prefix@, "lib"@, dylib@, ".so',\n"@) + dl_line(
        "      windows: '"@,
        prefix@,
        ""@,
        dylib@,
        ".dll',\n"@,
    ) + dl_line("      freebsd: '"@, prefix@, "lib"@, dylib@, ".so',\n"@)));
    push_line5(out, "      netbsd: '", prefix, "lib", dylib, ".so',\n");
    push_line5(out, "      aix: '", prefix, "lib", dylib, ".so',\n");
    push_line5(out, "      solaris: '", prefix, "lib", dylib, ".so',\n");
    push_line5(out, "      illumos: '", prefix, "lib", dylib, ".so',\n");
    out.append("    }[Deno.build.os],\n");
    out.append("    import.meta.url\n");
    out.append("  ),\n");
    out.append("  {\n");
    proof {
        reveal(symbols_head_text);
    }
    assert(out@ =~= base + symbols_head_text(dylib@, prefix@));
}

/// Emits one function's entry in the symbol descriptor table.
#[verifier::loop_isolation(false)]
#[verifier::rlimit(100)]
fn emit_sym_entry(out: &mut String, f: &ItemFn)
    ensures
        final(out)@ == old(out)@ + sym_entry_text(*f),
{
    let ghost fb = out@;
    out.append("    \"");
    out.append(f.sig.ident.as_str());
    out.append("\": {\n");
    out.append("      \"parameters\": [");
    let ghost pb = out@;
    let mut j: usize = 0;
    while j < f.sig.inputs.len()
        invariant
            j <= f.sig.inputs@.len(),
            out@ == pb + sym_params_text(f.sig.inputs@, j as int),
        decreases f.sig.inputs@.len() - j,
    {
        if j > 0 {
            out.append(", ");
        }
        out.append("\"");
        out.append(symbol_type(&f.sig.inputs[j].ty));
        out.append("\"");
        j = j + 1;
        assert(out@ =~= pb + sym_params_text(f.sig.inputs@, j as int));
    }
    out.append("],\n");
    assert(out@ =~= fb + ("    \""@ + f.sig.ident@ + "\": {\n"@ + "      \"parameters\": ["@
        + sym_params_text(f.sig.inputs@, f.sig.inputs@.len() as int) + "],\n"@));
    match &f.sig.output {
        ReturnType::Default => {
            out.append("      \"result\": \"void\",\n");
        },
        ReturnType::Type(t) => {
            out.append("      \"result\": \"");
            out.append(symbol_return_type(t));
            out.append("\",\n");
        },
    }
    out.append("      \"nonblocking\": ");
    if f.non_blocking {
        out.append("true");
    } else {
        out.append("false");
    }
    out.append(",\n");
    out.append("    },\n");
    proof {
        reveal(sym_entry_text);
    }
    assert(out@ =~= fb + sym_entry_text(*f));
}

/// Emits the load expression and the symbol descriptor table.
#[verifier::loop_isolation(false)]
fn expand_symbols(out: &mut String, items: &Vec<Item>, dylib: &str, prefix: &str)
    ensures
        final(out)@ == old(out)@ + symbols_text(items@, dylib@, prefix@),
{
    let ghost base = out@;
    emit_symbols_head(out, dylib, prefix);
    let ghost ebase = out@;
    let mut i: usize = 0;
    while i < items.len()
        invariant
            i <= items@.len(),
            out@ == ebase + sym_entries_text(items@, i as int),
        decreases items@.len() - i,
    {
        match &items[i] {
            Item::Struct(_) => {},
            Item::Fn(f) => {
                emit_sym_entry(out, f);
            },
        }
        i = i + 1;
        assert(out@ =~= ebase + sym_entries_text(items@, i as int));
    }
    out.append("  }\n");
    out.append(");\n");
    proof {
        reveal(symbols_text);
    }
    assert(out@ =~= base + symbols_text(items@, dylib@, prefix@));
}

/// Emits the head of one wrapper: the export, the name, the parameters,
/// and the return type.
#[verifier::loop_isolation(false)]
#[verifier::rlimit(100)]
fn emit_fn_head(out: &mut String, func: &ItemFn)
    ensures
        final(out)@ == old(out)@ + fn_head_text(*func),
{
    let ghost base = out@;
    let non_blocking = func.non_blocking;
    if non_blocking {
        out.append("export async function ");
    } else {
        out.append("export function ");
    }
    out.append(func.sig.ident.as_str());
    out.append("(");
    let ghost hb = out@;
    let mut i: usize = 0;
    while i < func.sig.inputs.len()
        invariant
            i <= func.sig.inputs@.len(),
            out@ == hb + params_text(func.sig.inputs@, i as int),
        decreases func.sig.inputs@.len() - i,
    {
        if i > 0 {
            out.append(", ");
        }
        let a = &func.sig.inputs[i];
        out.append(a.ident.as_str());
        out.append(": ");
        expand_type(out, &a.ty);
        i = i + 1;
        assert(out@ =~= hb + params_text(func.sig.inputs@, i as int));
    }
    out.append(")");
    match &func.sig.output {
        ReturnType::Default => {},
        ReturnType::Type(t) => {
            out.append(": ");
            if non_blocking {
                out.append("Promise<");
            }
            expand_type(out, t);
            if non_blocking {
                out.append(">");
            }
        },
    }
    out.append(" {\n");
    proof {
        reveal(fn_head_text);
    }
    assert(out@ =~= base + fn_head_text(*func));
}

/// Emits the transformation of the `j`-th argument into what the symbol
/// call takes.
#[verifier::rlimit(100)]
fn emit_transform(out: &mut String, a: &FnArg, j: usize)
    ensures
        final(out)@ == old(out)@ + transform_text(*a, j as int),
{
    let ghost base = out@;
    match a.ty.kind {
        TypeKind::Native(_) => {
            out.append("  const __arg");
            push_dec(out, j);
            out.append(" = ");
            out.append(a.ident.as_str());
            out.append(";\n");
        },
        TypeKind::BufferBorrowed | TypeKind::BufferBorrowedMut | TypeKind::BufferOwned => {
            out.append("  const __arg");
            push_dec(out, j);
            out.append("_ptr = ");
            out.append(a.ident.as_str());
            out.append(";\n");
            out.append("  const __arg");
            push_dec(out, j);
            out.append("_len = __arg");
            push_dec(out, j);
            out.append("_ptr.byteLength;\n");
        },
        TypeKind::StringBorrowed | TypeKind::StringOwned => {
            out.append("  const __arg");
            push_dec(out, j);
            out.append("_ptr = __stringEncode(");
            out.append(a.ident.as_str());
            out.append(");\n");
            out.append("  const __arg");
            push_dec(out, j);
            out.append("_len = __arg");
            push_dec(out, j);
            out.append("_ptr.byteLength;\n");
        },
        TypeKind::Json => {
            out.append("  const __arg");
            push_dec(out, j);
            out.append("_ptr = __structEncode(");
            out.append(a.ident.as_str());
            out.append(");\n");
            out.append("  const __arg");
            push_dec(out, j);
            out.append("_len = __arg");
            push_dec(out, j);
            out.append("_ptr.byteLength;\n");
        },
    }
    proof {
        reveal(transform_text);
        reveal(arg_len_line);
    }
    assert(out@ =~= base + transform_text(*a, j as int));
}

/// Emits the result transformation and reports which decoders it needs.
#[verifier::rlimit(100)]
fn emit_return(out: &mut String, func: &ItemFn) -> (dec: (bool, bool, bool))
    ensures
        final(out)@ == old(out)@ + return_text(*func),
        dec.0 == fn_utils(*func).string_decode,
        dec.1 == fn_utils(*func).struct_decode,
        dec.2 == fn_utils(*func).len_prefixed_buffer,
{
    proof {
        reveal(return_text);
    }
    let non_blocking = func.non_blocking;
    let mut string_decode = false;
    let mut struct_decode = false;
    let mut len_prefixed_buffer = false;
    match &func.sig.output {
        ReturnType::Default => {},
        ReturnType::Type(t) => {
            match t.kind {
                TypeKind::Native(_) => {
                    out.append("  return __res\n");
                },
                TypeKind::BufferBorrowed | TypeKind::BufferBorrowedMut
                    | TypeKind::BufferOwned => {
                    if non_blocking {
                        out.append("  return __res.then(__lenPrefixedBuffer);\n");
                    } else {
                        out.append("  return __lenPrefixedBuffer(__res);\n");
                    }
                    len_prefixed_buffer = true;
                },
                TypeKind::StringBorrowed | TypeKind::StringOwned => {
                    if non_blocking {
                        out.append("  return __res.then(__lenPrefixedBuffer).then(__stringDecode);\n");
                    } else {
                        out.append("  return __stringDecode(__lenPrefixedBuffer(__res));\n");
                    }
                    string_decode = true;
                    len_prefixed_buffer = true;
                },
                TypeKind::Json => {
                    if non_blocking {
                        out.append("  return __res.then(__lenPrefixedBuffer).then(__structDecode);\n");
                    } else {
                        out.append("  return __structDecode(__lenPrefixedBuffer(__res));\n");
                    }
                    struct_decode = true;
                    len_prefixed_buffer = true;
                },
            }
        },
    }
    (string_decode, struct_decode, len_prefixed_buffer)
}

/// Emits the argument transformations and reports the encoders needed.
#[verifier::loop_isolation(false)]
#[verifier::rlimit(100)]
fn emit_transforms(out: &mut String, inputs: &Vec<FnArg>) -> (enc: (bool, bool))
    ensures
        final(out)@ == old(out)@ + transforms_text(inputs@, inputs@.len() as int),
        enc == args_flags(inputs@, inputs@.len() as int),
{
    let ghost tb = out@;
    let mut string_encode = false;
    let mut struct_encode = false;
    let mut i: usize = 0;
    while i < inputs.len()
        invariant
            i <= inputs@.len(),
            out@ == tb + transforms_text(inputs@, i as int),
            (string_encode, struct_encode) == args_flags(inputs@, i as int),
        decreases inputs@.len() - i,
    {
        let a = &inputs[i];
        emit_transform(out, a, i);
        match a.ty.kind {
            TypeKind::StringBorrowed | TypeKind::StringOwned => {
                string_encode = true;
            },
            TypeKind::Json => {
                struct_encode = true;
            },
            _ => {},
        }
        i = i + 1;
        assert(out@ =~= tb + transforms_text(inputs@, i as int));
    }
    (string_encode, struct_encode)
}

/// Emits the arguments of the symbol call.
#[verifier::loop_isolation(false)]
#[verifier::rlimit(100)]
fn emit_call_args(out: &mut String, inputs: &Vec<FnArg>)
    ensures
        final(out)@ == old(out)@ + call_args_text(inputs@, inputs@.len() as int),
{
    let ghost cb = out@;
    let mut i: usize = 0;
    while i < inputs.len()
        invariant
            i <= inputs@.len(),
            out@ == cb + call_args_text(inputs@, i as int),
        decreases inputs@.len() - i,
    {
        if i > 0 {
            out.append(", ");
        }
        let a = &inputs[i];
        match a.ty.kind {
            TypeKind::Native(_) => {
                out.append("__arg");
                push_dec(out, i);
            },
            _ => {
                out.append("__arg");
                push_dec(out, i);
                out.append("_ptr, __arg");
                push_dec(out, i);
                out.append("_len");
            },
        }
        i = i + 1;
        assert(out@ =~= cb + call_args_text(inputs@, i as int));
    }
}

/// Emits the client wrapper for one declared function and reports which
/// shared utilities it needs.
#[verifier::rlimit(100)]
pub fn expand_function(out: &mut String, func: &ItemFn) -> (u: Utilities)
    ensures
        final(out)@ == old(out)@ + fn_client_text(*func),
        u == fn_utils(*func),
{
    let ghost base = out@;
    emit_fn_head(out, func);

    // The argument transformations, accumulating encoder demands.
    let enc = emit_transforms(out, &func.sig.inputs);
    if func.sig.inputs.len() > 0 {
        out.append("\n");
    }
    let ghost m_blank = base + fn_head_text(*func) + transforms_text(
        func.sig.inputs@,
        func.sig.inputs@.len() as int,
    ) + (if func.sig.inputs@.len() > 0 {
        "\n"@
    } else {
        Seq::<char>::empty()
    });
    assert(out@ =~= m_blank);

    // The symbol call.
    out.append("  const __res = __symbols.");
    out.append(func.sig.ident.as_str());
    out.append("(");
    emit_call_args(out, &func.sig.inputs);
    out.append(");\n");
    let ghost m_call = m_blank + "  const __res = __symbols."@ + func.sig.ident@ + "("@
        + call_args_text(func.sig.inputs@, func.sig.inputs@.len() as int) + ");\n"@;
    assert(out@ =~= m_call);

    // The result transformation, with its decoder demands.
    let dec = emit_return(out, func);
    out.append("}\n");
    out.append("\n");
    proof {
        reveal(fn_client_text);
    }
    assert(out@ =~= base + fn_client_text(*func));
    Utilities {
        string_encode: enc.0,
        string_decode: dec.0,
        struct_encode: enc.1,
        struct_decode: dec.1,
        len_prefixed_buffer: dec.2,
    }
}

/// Emits the whole client binding source for one validated module: the
/// structural types, the load expression with its descriptor table, the
/// wrappers in declaration order, and the utilities they need.  The output
/// is exactly `module_client_text`, a function of the inputs alone.
#[verifier::loop_isolation(false)]
pub fn expand_module(module: &Module, dylib_name: &str, dylib_prefix: &str) -> (out: String)
    ensures
        out@ == module_client_text(*module, dylib_name@, dylib_prefix@),
{
    let mut structs = String::new();
    let mut functions = String::new();
    let mut utilities = Utilities::default();
    let mut i: usize = 0;
    while i < module.items.len()
        invariant
            i <= module.items@.len(),
            structs@ == structs_text(module.items@, i as int),
            functions@ == fns_text(module.items@, i as int),
            utilities == utils_prefix(module.items@, i as int),
        decreases module.items@.len() - i,
    {
        match &module.items[i] {
            Item::Fn(f) => {
                let u = expand_function(&mut functions, f);
                utilities.merge(u);
            },
            Item::Struct(s) => {
                let u = expand_struct(&mut structs, s);
                utilities.merge(u);
            },
        }
        i = i + 1;
        assert(structs@ =~= structs_text(module.items@, i as int));
        assert(functions@ =~= fns_text(module.items@, i as int));
    }
    let mut out = String::new();
    out.append(structs.as_str());
    expand_symbols(&mut out, &module.items, dylib_name, dylib_prefix);
    out.append(functions.as_str());
    utilities.expand(&mut out);
    proof {
        reveal(module_client_text);
    }
    assert(out@ =~= module_client_text(*module, dylib_name@, dylib_prefix@));
    out
}

} // verus!
