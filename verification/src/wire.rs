//! The fixed-width binary layout of the execute handler's data payload:
//! exactly 8 bytes holding a big-endian unsigned 64-bit integer.

use vstd::prelude::*;

use crate::errors::WorkflowError;

verus! {

/// The big-endian byte at position `i` (0 is the most significant) of `v`.
pub open spec fn be_byte(v: u64, i: int) -> u8
    recommends
        0 <= i < 8,
{
    ((v >> (((7 - i) * 8) as u64)) & 0xff) as u8
}

/// The 8-byte big-endian encoding of `v`.
pub open spec fn u64_be_bytes(v: u64) -> Seq<u8> {
    Seq::new(8, |i: int| be_byte(v, i))
}

/// The value an 8-byte big-endian sequence denotes.
pub open spec fn u64_of_be(s: Seq<u8>) -> u64
    recommends
        s.len() == 8,
{
    (((s[0] as u64) << 56u64) | ((s[1] as u64) << 48u64) | ((s[2] as u64) << 40u64)
        | ((s[3] as u64) << 32u64) | ((s[4] as u64) << 24u64) | ((s[5] as u64) << 16u64)
        | ((s[6] as u64) << 8u64) | (s[7] as u64)) as u64
}

/// Encoding then decoding gives the value back.
pub proof fn lemma_u64_be_roundtrip(v: u64)
    ensures
        u64_of_be(u64_be_bytes(v)) == v,
{
    let s = u64_be_bytes(v);
    assert(s[0] == (((v >> 56u64) & 0xff) as u8));
    assert(s[1] == (((v >> 48u64) & 0xff) as u8));
    assert(s[2] == (((v >> 40u64) & 0xff) as u8));
    assert(s[3] == (((v >> 32u64) & 0xff) as u8));
    assert(s[4] == (((v >> 24u64) & 0xff) as u8));
    assert(s[5] == (((v >> 16u64) & 0xff) as u8));
    assert(s[6] == (((v >> 8u64) & 0xff) as u8));
    assert(s[7] == (((v >> 0u64) & 0xff) as u8));
    assert((((((v >> 56u64) & 0xff) as u8) as u64) << 56u64
        | (((((v >> 48u64) & 0xff) as u8) as u64) << 48u64)
        | (((((v >> 40u64) & 0xff) as u8) as u64) << 40u64)
        | (((((v >> 32u64) & 0xff) as u8) as u64) << 32u64)
        | (((((v >> 24u64) & 0xff) as u8) as u64) << 24u64)
        | (((((v >> 16u64) & 0xff) as u8) as u64) << 16u64)
        | (((((v >> 8u64) & 0xff) as u8) as u64) << 8u64)
        | (((((v >> 0u64) & 0xff) as u8) as u64))) == v) by (bit_vector);
    assert(u64_of_be(s) == v);
}

/// Decoding then re-encoding gives the bytes back.
pub proof fn lemma_be_u64_roundtrip(s: Seq<u8>)
    requires
        s.len() == 8,
    ensures
        u64_be_bytes(u64_of_be(s)) == s,
{
    let b0 = s[0];
    let b1 = s[1];
    let b2 = s[2];
    let b3 = s[3];
    let b4 = s[4];
    let b5 = s[5];
    let b6 = s[6];
    let b7 = s[7];
    let v = u64_of_be(s);
    assert(v == (((b0 as u64) << 56u64) | ((b1 as u64) << 48u64) | ((b2 as u64) << 40u64)
        | ((b3 as u64) << 32u64) | ((b4 as u64) << 24u64) | ((b5 as u64) << 16u64)
        | ((b6 as u64) << 8u64) | (b7 as u64)) as u64);
    assert((((v >> 56u64) & 0xff) as u8) == b0 && (((v >> 48u64) & 0xff) as u8) == b1
        && (((v >> 40u64) & 0xff) as u8) == b2 && (((v >> 32u64) & 0xff) as u8) == b3
        && (((v >> 24u64) & 0xff) as u8) == b4 && (((v >> 16u64) & 0xff) as u8) == b5
        && (((v >> 8u64) & 0xff) as u8) == b6 && (((v >> 0u64) & 0xff) as u8) == b7)
        by (bit_vector)
        requires
            v == (((b0 as u64) << 56u64) | ((b1 as u64) << 48u64) | ((b2 as u64) << 40u64)
                | ((b3 as u64) << 32u64) | ((b4 as u64) << 24u64) | ((b5 as u64) << 16u64)
                | ((b6 as u64) << 8u64) | (b7 as u64)) as u64,
    ;
    assert(u64_be_bytes(v)[0] == (((v >> 56u64) & 0xff) as u8));
    assert(u64_be_bytes(v)[1] == (((v >> 48u64) & 0xff) as u8));
    assert(u64_be_bytes(v)[2] == (((v >> 40u64) & 0xff) as u8));
    assert(u64_be_bytes(v)[3] == (((v >> 32u64) & 0xff) as u8));
    assert(u64_be_bytes(v)[4] == (((v >> 24u64) & 0xff) as u8));
    assert(u64_be_bytes(v)[5] == (((v >> 16u64) & 0xff) as u8));
    assert(u64_be_bytes(v)[6] == (((v >> 8u64) & 0xff) as u8));
    assert(u64_be_bytes(v)[7] == (((v >> 0u64) & 0xff) as u8));
    assert(u64_be_bytes(v) =~= s);
}

/// Produces the 8-byte big-endian encoding of `v`.
pub fn encode_u64_be(v: u64) -> (r: Vec<u8>)
    ensures
        r@ == u64_be_bytes(v),
{
    let mut out: Vec<u8> = Vec::new();
    out.push(((v >> 56u64) & 0xff) as u8);
    out.push(((v >> 48u64) & 0xff) as u8);
    out.push(((v >> 40u64) & 0xff) as u8);
    out.push(((v >> 32u64) & 0xff) as u8);
    out.push(((v >> 24u64) & 0xff) as u8);
    out.push(((v >> 16u64) & 0xff) as u8);
    out.push(((v >> 8u64) & 0xff) as u8);
    out.push((v & 0xff) as u8);
    proof {
        assert((v & 0xff) == ((v >> 0u64) & 0xff)) by (bit_vector);
        assert(u64_be_bytes(v)[0] == (((v >> 56u64) & 0xff) as u8));
        assert(u64_be_bytes(v)[1] == (((v >> 48u64) & 0xff) as u8));
        assert(u64_be_bytes(v)[2] == (((v >> 40u64) & 0xff) as u8));
        assert(u64_be_bytes(v)[3] == (((v >> 32u64) & 0xff) as u8));
        assert(u64_be_bytes(v)[4] == (((v >> 24u64) & 0xff) as u8));
        assert(u64_be_bytes(v)[5] == (((v >> 16u64) & 0xff) as u8));
        assert(u64_be_bytes(v)[6] == (((v >> 8u64) & 0xff) as u8));
        assert(u64_be_bytes(v)[7] == (((v >> 0u64) & 0xff) as u8));
        assert(out@ =~= u64_be_bytes(v));
    }
    out
}

/// Parses a payload in the execute handler's layout: succeeds on exactly
/// 8 bytes, read big-endian; anything else is a decode failure.
pub fn decode_u64_be(b: &[u8]) -> (r: Result<u64, WorkflowError>)
    ensures
        b@.len() == 8 ==> (r matches Ok(v) && v == u64_of_be(b@)),
        b@.len() != 8 ==> (r matches Err(e) && e is DecodeError),
{
    if b.len() != 8 {
        return Err(WorkflowError::DecodeError);
    }
    let v = ((b[0] as u64) << 56u64) | ((b[1] as u64) << 48u64) | ((b[2] as u64) << 40u64)
        | ((b[3] as u64) << 32u64) | ((b[4] as u64) << 24u64) | ((b[5] as u64) << 16u64)
        | ((b[6] as u64) << 8u64) | (b[7] as u64);
    Ok(v)
}

} // verus!
