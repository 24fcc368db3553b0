//! The shared wire format for values that cross the foreign-function
//! boundary as bytes.
//!
//! A non-scalar return value travels as one allocation holding a four-byte
//! big-endian length header followed by exactly that many payload bytes.
//! Both generated sides implement this contract; the functions here are the
//! protocol's reference implementation, and the round-trip lemma states that
//! the two directions agree.

use vstd::prelude::*;

verus! {

/// The four big-endian base-256 digits of `n`, most significant first.
pub open spec fn be32(n: nat) -> Seq<u8>
    recommends
        n < 0x1_0000_0000,
{
    seq![
        (n / 0x100_0000) as u8,
        ((n / 0x1_0000) % 0x100) as u8,
        ((n / 0x100) % 0x100) as u8,
        (n % 0x100) as u8,
    ]
}

/// The number held by four big-endian base-256 digits.
pub open spec fn be32_val(s: Seq<u8>) -> nat
    recommends
        s.len() == 4,
{
    (s[0] * 0x100_0000 + s[1] * 0x1_0000 + s[2] * 0x100 + s[3]) as nat
}

/// A length-prefixed wire buffer: header, then payload.
pub open spec fn encode_spec(payload: Seq<u8>) -> Seq<u8>
    recommends
        payload.len() < 0x1_0000_0000,
{
    be32(payload.len()) + payload
}

/// The payload of a length-prefixed wire buffer, when the buffer is long
/// enough to hold the header and the advertised payload.
pub open spec fn decode_spec(buf: Seq<u8>) -> Option<Seq<u8>> {
    if buf.len() >= 4 && be32_val(buf.subrange(0, 4)) + 4 <= buf.len() {
        Some(buf.subrange(4, 4 + be32_val(buf.subrange(0, 4)) as int))
    } else {
        None
    }
}

proof fn lemma_be32_round_trip(n: nat)
    requires
        n < 0x1_0000_0000,
    ensures
        be32_val(be32(n)) == n,
        forall|i: int| 0 <= i < 4 ==> be32(n)[i] < 0x100,
{
    assert((n / 0x100_0000) * 0x100_0000 + ((n / 0x1_0000) % 0x100) * 0x1_0000 + ((n / 0x100)
        % 0x100) * 0x100 + n % 0x100 == n) by (nonlinear_arith)
        requires
            n < 0x1_0000_0000,
    ;
    assert(n / 0x100_0000 < 0x100) by (nonlinear_arith)
        requires
            n < 0x1_0000_0000,
    ;
}

/// Prepending the length header and stripping it again hands back the very
/// payload that was encoded, for any payload whose length fits the 32-bit
/// header.
pub proof fn lemma_wire_round_trip(payload: Seq<u8>)
    requires
        payload.len() < 0x1_0000_0000,
    ensures
        decode_spec(encode_spec(payload)) == Some(payload),
{
    let buf = encode_spec(payload);
    lemma_be32_round_trip(payload.len());
    assert(buf.subrange(0, 4) =~= be32(payload.len()));
    assert(be32_val(buf.subrange(0, 4)) == payload.len());
    assert(buf.subrange(4, 4 + payload.len() as int) =~= payload);
}

/// Builds the length-prefixed wire buffer for `payload`.
pub fn encode_len_prefixed(payload: &Vec<u8>) -> (out: Vec<u8>)
    requires
        payload@.len() < 0x1_0000_0000,
    ensures
        out@ == encode_spec(payload@),
{
    let n: u32 = payload.len() as u32;
    let mut out: Vec<u8> = Vec::new();
    out.push((n / 0x100_0000) as u8);
    out.push(((n / 0x1_0000) % 0x100) as u8);
    out.push(((n / 0x100) % 0x100) as u8);
    out.push((n % 0x100) as u8);
    assert(out@ =~= be32(payload@.len()));
    let mut i: usize = 0;
    while i < payload.len()
        invariant
            i <= payload@.len(),
            out@ == be32(payload@.len()) + payload@.subrange(0, i as int),
        decreases payload@.len() - i,
    {
        out.push(payload[i]);
        i = i + 1;
        assert(out@ =~= be32(payload@.len()) + payload@.subrange(0, i as int));
    }
    assert(payload@.subrange(0, payload@.len() as int) =~= payload@);
    out
}

/// Strips the length header of a wire buffer and copies out the payload;
/// `None` exactly when the buffer is too short for its own header.
pub fn decode_len_prefixed(buf: &Vec<u8>) -> (r: Option<Vec<u8>>)
    ensures
        match r {
            Some(p) => decode_spec(buf@) == Some(p@),
            None => decode_spec(buf@) is None,
        },
{
    if buf.len() < 4 {
        return None;
    }
    let n: u32 = (buf[0] as u32) * 0x100_0000 + (buf[1] as u32) * 0x1_0000 + (buf[2] as u32)
        * 0x100 + (buf[3] as u32);
    assert(n == be32_val(buf@.subrange(0, 4)));
    let len: usize = n as usize;
    if buf.len() - 4 < len {
        assert(be32_val(buf@.subrange(0, 4)) + 4 > buf@.len());
        return None;
    }
    let mut p: Vec<u8> = Vec::new();
    let mut i: usize = 0;
    while i < len
        invariant
            i <= len,
            len + 4 <= usize::MAX,
            len + 4 <= buf@.len(),
            len == be32_val(buf@.subrange(0, 4)),
            p@ == buf@.subrange(4, 4 + i as int),
        decreases len - i,
    {
        p.push(buf[4 + i]);
        i = i + 1;
        assert(p@ =~= buf@.subrange(4, 4 + i as int));
    }
    Some(p)
}

} // verus!
