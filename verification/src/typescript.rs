//! Client-language type expressions.
//!
//! The classifier attaches one of these to every declared type; the client
//! generator prints them.  `type_text` is the authoritative rendering, and
//! every printing function is proved against it.

use vstd::prelude::*;
use vstd::string::*;

verus! {

/// A type expression of the client language.
#[derive(Debug)]
pub enum Type {
    Primitive(TypePrimitive),
    Named(TypeNamed),
    Union(TypeUnion),
    Array(TypeArray),
}

/// The built-in client types the generator needs.
#[derive(Debug, Clone, Copy, PartialEq, Eq, Structural)]
pub enum Primitive {
    Null,
    Number,
    Bigint,
    Text,
    ByteArray,
}

/// A built-in client type, spelled by `prim_text`.
#[derive(Debug)]
pub struct TypePrimitive {
    pub word: Primitive,
}

/// A structural type referred to by its declared name.
#[derive(Debug)]
pub struct TypeNamed {
    pub name: String,
}

/// An untagged union, printed with `|` between its members.
#[derive(Debug)]
pub struct TypeUnion {
    pub members: Vec<Type>,
}

/// An array type, printed with a `[]` suffix.
#[derive(Debug)]
pub struct TypeArray {
    pub members: Box<Type>,
}

/// The spelling of a built-in client type.
pub open spec fn prim_text(p: Primitive) -> Seq<char> {
    match p {
        Primitive::Null => "null"@,
        Primitive::Number => "number"@,
        Primitive::Bigint => "bigint"@,
        Primitive::Text => "string"@,
        Primitive::ByteArray => "Uint8Array"@,
    }
}

/// Whether a type prints as a union of more than one member, and so needs
/// parentheses inside an array suffix.
pub open spec fn is_multi(t: Type) -> bool {
    match t {
        Type::Union(u) => u.members@.len() > 1,
        _ => false,
    }
}

/// The text of the first `i` members of a union, joined by `" | "`.
pub open spec fn union_prefix_text(ms: Seq<Type>, i: int) -> Seq<char>
    decreases ms, i,
{
    if i <= 0 || i > ms.len() {
        Seq::<char>::empty()
    } else if i == 1 {
        type_text(ms[0])
    } else {
        union_prefix_text(ms, i - 1) + " | "@ + type_text(ms[i - 1])
    }
}

/// The rendering of a client type expression.
pub open spec fn type_text(t: Type) -> Seq<char>
    decreases t, 0int,
{
    match t {
        Type::Primitive(p) => prim_text(p.word),
        Type::Named(n) => n.name@,
        Type::Union(u) => union_prefix_text(u.members@, u.members@.len() as int),
        Type::Array(a) => if is_multi(*a.members) {
            "("@ + type_text(*a.members) + ")[]"@
        } else {
            type_text(*a.members) + "[]"@
        },
    }
}

impl Type {
    /// The client spelling of `null`.
    pub fn null() -> (r: Type)
        ensures
            type_text(r) == "null"@,
            !is_multi(r),
            !(r is Union),
            r == Type::Primitive(TypePrimitive { word: Primitive::Null }),
    {
        Type::Primitive(TypePrimitive { word: Primitive::Null })
    }

    /// The client spelling of a numeric value.
    pub fn number() -> (r: Type)
        ensures
            type_text(r) == "number"@,
            !is_multi(r),
            !(r is Union),
            r == Type::Primitive(TypePrimitive { word: Primitive::Number }),
    {
        Type::Primitive(TypePrimitive { word: Primitive::Number })
    }

    /// The client spelling of a big-integer value.
    pub fn bigint() -> (r: Type)
        ensures
            type_text(r) == "bigint"@,
            !is_multi(r),
            !(r is Union),
            r == Type::Primitive(TypePrimitive { word: Primitive::Bigint }),
    {
        Type::Primitive(TypePrimitive { word: Primitive::Bigint })
    }

    /// The client spelling of a text value.
    pub fn string() -> (r: Type)
        ensures
            type_text(r) == "string"@,
            !is_multi(r),
            !(r is Union),
            r == Type::Primitive(TypePrimitive { word: Primitive::Text }),
    {
        Type::Primitive(TypePrimitive { word: Primitive::Text })
    }

    /// The client spelling of a byte buffer.
    pub fn byte_array() -> (r: Type)
        ensures
            type_text(r) == "Uint8Array"@,
            !is_multi(r),
            !(r is Union),
            r == Type::Primitive(TypePrimitive { word: Primitive::ByteArray }),
    {
        Type::Primitive(TypePrimitive { word: Primitive::ByteArray })
    }

    /// A structural type referred to by name.
    pub fn named(name: String) -> (r: Type)
        ensures
            type_text(r) == name@,
            !is_multi(r),
            !(r is Union),
            r == Type::Named(TypeNamed { name }),
    {
        Type::Named(TypeNamed { name })
    }

    /// The members `self` contributes to a union: its own members if it is
    /// already a union, else itself.
    pub open spec fn union_members(self) -> Seq<Type> {
        match self {
            Type::Union(u) => u.members@,
            _ => seq![self],
        }
    }

    /// Whether a type prints as at least one union member; only a
    /// member-less union does not, and no constructor here builds one.
    pub open spec fn well_formed(self) -> bool {
        self is Union ==> self->Union_0.members@.len() >= 1
    }

    /// The union of `self` and `rhs`, flattening nested unions.
    pub fn union(self, rhs: Type) -> (r: Type)
        requires
            self.well_formed(),
            rhs.well_formed(),
        ensures
            type_text(r) == type_text(self) + " | "@ + type_text(rhs),
            is_multi(r),
            r is Union,
            r->Union_0.members@ == self.union_members() + rhs.union_members(),
    {
        let ghost lhs_spec = self;
        let ghost rhs_spec = rhs;
        let mut members: Vec<Type> = Vec::new();
        match self {
            Type::Union(u) => {
                let mut ms = u.members;
                members.append(&mut ms);
            },
            other => members.push(other),
        }
        assert(members@ == lhs_spec.union_members());
        match rhs {
            Type::Union(u) => {
                let mut ms = u.members;
                members.append(&mut ms);
            },
            other => members.push(other),
        }
        assert(members@ == lhs_spec.union_members() + rhs_spec.union_members());
        proof {
            lemma_union_members_text(lhs_spec);
            lemma_union_members_text(rhs_spec);
            lemma_union_prefix_concat(
                lhs_spec.union_members(),
                rhs_spec.union_members(),
                rhs_spec.union_members().len() as int,
            );
        }
        Type::Union(TypeUnion { members })
    }

    /// The array of `self`, parenthesizing a union element.
    pub fn array(self) -> (r: Type)
        ensures
            type_text(r) == if is_multi(self) {
                "("@ + type_text(self) + ")[]"@
            } else {
                type_text(self) + "[]"@
            },
            !is_multi(r),
            !(r is Union),
            r matches Type::Array(a) && *a.members == self,
    {
        Type::Array(TypeArray { members: Box::new(self) })
    }
}

proof fn lemma_union_prefix_stable(ms1: Seq<Type>, ms2: Seq<Type>, i: int)
    requires
        i <= ms1.len(),
        i <= ms2.len(),
        forall|j: int| 0 <= j < i ==> ms1[j] == ms2[j],
    ensures
        union_prefix_text(ms1, i) == union_prefix_text(ms2, i),
    decreases i,
{
    if i > 1 {
        lemma_union_prefix_stable(ms1, ms2, i - 1);
    }
}

proof fn lemma_union_members_text(t: Type)
    requires
        t.well_formed(),
    ensures
        union_prefix_text(t.union_members(), t.union_members().len() as int) == type_text(t),
{
    match t {
        Type::Union(_) => {},
        _ => {
            assert(t.union_members() =~= seq![t]);
            assert(union_prefix_text(seq![t], 1) == type_text(t));
        },
    }
}

proof fn lemma_union_prefix_concat(a: Seq<Type>, b: Seq<Type>, n: int)
    requires
        a.len() >= 1,
        1 <= n <= b.len(),
    ensures
        union_prefix_text(a + b, a.len() as int + n) == union_prefix_text(a, a.len() as int) + " | "@
            + union_prefix_text(b, n),
    decreases n,
{
    let ab = a + b;
    if n == 1 {
        lemma_union_prefix_stable(ab, a, a.len() as int);
        assert(union_prefix_text(ab, a.len() as int + 1) == union_prefix_text(ab, a.len() as int)
            + " | "@ + type_text(ab[a.len() as int]));
        assert(ab[a.len() as int] == b[0]);
    } else {
        lemma_union_prefix_concat(a, b, n - 1);
        assert(union_prefix_text(ab, a.len() as int + n) == union_prefix_text(ab, a.len() as int + n - 1)
            + " | "@ + type_text(ab[a.len() as int + n - 1]));
        assert(ab[a.len() as int + n - 1] == b[n - 1]);
        assert(union_prefix_text(a, a.len() as int) + " | "@ + (union_prefix_text(b, n - 1)
            + " | "@ + type_text(b[n - 1])) =~= (union_prefix_text(a, a.len() as int) + " | "@
            + union_prefix_text(b, n - 1)) + " | "@ + type_text(b[n - 1]));
    }
}

/// Renders a client type expression as text.
#[verifier::loop_isolation(false)]
pub fn render(t: &Type) -> (out: String)
    ensures
        out@ == type_text(*t),
    decreases *t,
{
    match t {
        Type::Primitive(p) => {
            let r: &str = match p.word {
                Primitive::Null => "null",
                Primitive::Number => "number",
                Primitive::Bigint => "bigint",
                Primitive::Text => "string",
                Primitive::ByteArray => "Uint8Array",
            };
            String::from_str(r)
        },
        Type::Named(n) => n.name.clone(),
        Type::Union(u) => {
            let mut out = String::new();
            let mut i: usize = 0;
            while i < u.members.len()
                invariant
                    i <= u.members@.len(),
                    out@ == union_prefix_text(u.members@, i as int),
                decreases u.members@.len() - i,
            {
                if i > 0 {
                    out.append(" | ");
                }
                let m = render(&u.members[i]);
                out.append(m.as_str());
                i = i + 1;
            }
            out
        },
        Type::Array(a) => {
            let inner = render(&a.members);
            let mut out = String::new();
            let inner_ref: &Type = &a.members;
            let multi = match inner_ref {
                Type::Union(u) => u.members.len() > 1,
                _ => false,
            };
            if multi {
                out.append("(");
                out.append(inner.as_str());
                out.append(")[]");
            } else {
                out.append(inner.as_str());
                out.append("[]");
            }
            out
        },
    }
}

} // verus!
