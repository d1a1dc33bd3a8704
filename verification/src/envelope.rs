//! The chain's "contract executed" result envelope: a binary message that
//! carries one length-delimited field holding the contract's opaque data
//! payload. An empty message denotes an empty payload; otherwise the
//! message is the key byte `0x0a` (field number 1, length-delimited),
//! a base-128 varint giving the payload length, and the payload itself,
//! which must span the rest of the message.

use vstd::prelude::*;

use crate::errors::WorkflowError;

verus! {

/// A length varint may occupy at most this many bytes.
pub const MAX_VARINT_BYTES: usize = 10;

/// Exclusive upper bound on the value a varint of at most `max` bytes can
/// denote: 128 to the power `max`.
pub open spec fn varint_bound(max: nat) -> nat
    decreases max,
{
    if max == 0 {
        1
    } else {
        128 * varint_bound((max - 1) as nat)
    }
}

/// Parses a base-128 varint at the head of `s`, reading at most `max`
/// bytes: each byte contributes 7 low-order bits, least significant group
/// first, and a clear high bit marks the final byte. Yields the number of
/// bytes consumed and the value denoted.
pub open spec fn parse_varint(s: Seq<u8>, max: nat) -> Option<(int, nat)>
    decreases max,
{
    if max == 0 || s.len() == 0 {
        None
    } else if s[0] < 0x80 {
        Some((1, s[0] as nat))
    } else {
        match parse_varint(s.skip(1), (max - 1) as nat) {
            None => None,
            Some((k, v)) => Some((k + 1, ((s[0] - 0x80) + 128 * v) as nat)),
        }
    }
}

/// The canonical varint encoding of `n`: 7 bits per byte, least
/// significant group first, high bit set on every byte but the last.
pub open spec fn varint_bytes(n: nat) -> Seq<u8>
    decreases n,
{
    if n < 128 {
        seq![n as u8]
    } else {
        seq![((n % 128) + 128) as u8] + varint_bytes(n / 128)
    }
}

/// The envelope that carries `payload`: empty when the payload is empty,
/// otherwise the key byte, the payload length as a varint, and the payload.
pub open spec fn envelope_bytes(payload: Seq<u8>) -> Seq<u8> {
    if payload.len() == 0 {
        Seq::empty()
    } else {
        seq![0x0au8] + varint_bytes(payload.len() as nat) + payload
    }
}

/// The payload an envelope denotes, if the bytes are well-formed: an empty
/// message denotes an empty payload; otherwise the message must open with
/// the key byte, and the length varint must spell out exactly the number
/// of bytes that follow it.
pub open spec fn parse_envelope(s: Seq<u8>) -> Option<Seq<u8>> {
    if s.len() == 0 {
        Some(Seq::empty())
    } else if s[0] != 0x0a {
        None
    } else {
        match parse_varint(s.skip(1), MAX_VARINT_BYTES as nat) {
            None => None,
            Some((k, v)) => {
                if v == s.len() - 1 - k {
                    Some(s.skip(1 + k))
                } else {
                    None
                }
            },
        }
    }
}

proof fn lemma_varint_bound_pos(max: nat)
    ensures
        varint_bound(max) >= 1,
    decreases max,
{
    if max > 0 {
        lemma_varint_bound_pos((max - 1) as nat);
    }
}

proof fn lemma_varint_bound_mono(a: nat, b: nat)
    requires
        a <= b,
    ensures
        varint_bound(a) <= varint_bound(b),
    decreases b,
{
    if a < b {
        lemma_varint_bound_mono(a, (b - 1) as nat);
        lemma_varint_bound_pos((b - 1) as nat);
    }
}

/// A varint of at most `max` bytes denotes a value below 128^`max`, and
/// consumes between 1 and `max` bytes, all within `s`.
proof fn lemma_parse_varint_shape(s: Seq<u8>, max: nat)
    requires
        parse_varint(s, max) is Some,
    ensures
        parse_varint(s, max) matches Some((k, v)) && 1 <= k <= max && k <= s.len() && v
            < varint_bound(max),
    decreases max,
{
    if max == 0 || s.len() == 0 {
    } else if s[0] < 0x80 {
        lemma_varint_bound_pos((max - 1) as nat);
    } else {
        lemma_parse_varint_shape(s.skip(1), (max - 1) as nat);
    }
}

/// Parsing a varint is blind to what follows it: the canonical bytes of
/// `n`, followed by anything, parse back to `n`.
proof fn lemma_parse_varint_bytes(n: nat, rest: Seq<u8>, max: nat)
    requires
        varint_bytes(n).len() <= max,
    ensures
        parse_varint(varint_bytes(n) + rest, max) == Some(
            (varint_bytes(n).len() as int, n),
        ),
    decreases n,
{
    let s = varint_bytes(n) + rest;
    if n < 128 {
        assert(s[0] == n as u8);
    } else {
        let head = (((n % 128) + 128) as u8);
        assert(varint_bytes(n) == seq![head] + varint_bytes(n / 128));
        assert(s[0] == head);
        assert(s.skip(1) =~= varint_bytes(n / 128) + rest);
        lemma_parse_varint_bytes(n / 128, rest, (max - 1) as nat);
        assert((head - 0x80) + 128 * (n / 128) == n);
    }
}

/// The canonical varint of a value below 128^`k` takes at most `k` bytes.
proof fn lemma_varint_bytes_len(n: nat, k: nat)
    requires
        k >= 1,
        n < varint_bound(k),
    ensures
        varint_bytes(n).len() <= k,
    decreases n,
{
    if n >= 128 {
        assert(varint_bound(k) == 128 * varint_bound((k - 1) as nat));
        if k == 1 {
            assert(varint_bound(0) == 1);
        }
        lemma_varint_bytes_len(n / 128, (k - 1) as nat);
    }
}

/// Wrapping a payload in an envelope and parsing the bytes back yields the
/// payload: the envelope round-trip law. It holds of every payload whose
/// length varint fits the ten-byte cap, which covers every payload that
/// fits in memory.
pub proof fn lemma_envelope_roundtrip(payload: Seq<u8>)
    requires
        payload.len() < varint_bound(MAX_VARINT_BYTES as nat),
    ensures
        parse_envelope(envelope_bytes(payload)) == Some(payload),
{
    if payload.len() == 0 {
        assert(parse_envelope(Seq::<u8>::empty()) == Some(Seq::<u8>::empty()));
        assert(Seq::<u8>::empty() =~= payload);
    } else {
        let n = payload.len() as nat;
        let s = envelope_bytes(payload);
        lemma_varint_bytes_len(n, MAX_VARINT_BYTES as nat);
        assert(s[0] == 0x0au8);
        assert(s.skip(1) =~= varint_bytes(n) + payload);
        lemma_parse_varint_bytes(n, payload, MAX_VARINT_BYTES as nat);
        let k = varint_bytes(n).len() as int;
        assert(s.len() - 1 - k == n);
        assert(s.skip(1 + k) =~= payload);
    }
}

/// Reads a varint that starts at `pos`, consuming at most `max` bytes.
fn parse_varint_at(s: &[u8], pos: usize, max: usize) -> (r: Option<(usize, u128)>)
    requires
        pos <= s@.len(),
        max <= MAX_VARINT_BYTES,
    ensures
        match r {
            Some((k, v)) => parse_varint(s@.skip(pos as int), max as nat) == Some(
                (k as int, v as nat),
            ) && 1 <= k <= max && pos + k <= s@.len(),
            None => parse_varint(s@.skip(pos as int), max as nat) is None,
        },
    decreases max,
{
    if max == 0 || pos == s.len() {
        return None;
    }
    let b = s[pos];
    proof {
        assert(s@.skip(pos as int)[0] == b);
    }
    if b < 0x80 {
        Some((1, b as u128))
    } else {
        proof {
            assert(s@.skip(pos as int).skip(1) =~= s@.skip(pos as int + 1));
        }
        match parse_varint_at(s, pos + 1, max - 1) {
            None => None,
            Some((k, v)) => {
                proof {
                    lemma_parse_varint_shape(s@.skip(pos as int + 1), (max - 1) as nat);
                    lemma_varint_bound_mono((max - 1) as nat, 9);
                    assert(varint_bound(0) == 1);
                    assert(varint_bound(1) == 128);
                    assert(varint_bound(2) == 128 * varint_bound(1));
                    assert(varint_bound(3) == 128 * varint_bound(2));
                    assert(varint_bound(4) == 128 * varint_bound(3));
                    assert(varint_bound(5) == 128 * varint_bound(4));
                    assert(varint_bound(6) == 128 * varint_bound(5));
                    assert(varint_bound(7) == 128 * varint_bound(6));
                    assert(varint_bound(8) == 128 * varint_bound(7));
                    assert(varint_bound(9) == 128 * varint_bound(8));
                }
                Some((k + 1, (b - 0x80) as u128 + 128 * v))
            },
        }
    }
}

/// Wraps a data payload in its envelope.
pub fn encode_envelope(payload: &[u8]) -> (r: Vec<u8>)
    ensures
        r@ == envelope_bytes(payload@),
{
    let mut out: Vec<u8> = Vec::new();
    if payload.len() == 0 {
        proof {
            assert(out@ =~= envelope_bytes(payload@));
        }
        return out;
    }
    out.push(0x0a);
    let ghost n = payload@.len() as nat;
    let mut v: usize = payload.len();
    while v >= 128
        invariant
            seq![0x0au8] + varint_bytes(n) =~= out@ + varint_bytes(v as nat),
        decreases v,
    {
        proof {
            assert(varint_bytes(v as nat) == seq![(((v as nat) % 128) + 128) as u8] + varint_bytes(
                (v as nat) / 128,
            ));
            assert((out@ + varint_bytes(v as nat)) =~= (out@ + seq![((v % 128) + 128) as u8])
                + varint_bytes((v as nat) / 128));
        }
        out.push(((v % 128) + 128) as u8);
        v = v / 128;
    }
    proof {
        assert(varint_bytes(v as nat) == seq![v as u8]);
        assert((out@ + varint_bytes(v as nat)) =~= (out@ + seq![v as u8]));
    }
    out.push(v as u8);
    proof {
        assert(out@ =~= seq![0x0au8] + varint_bytes(n));
    }
    let mut i: usize = 0;
    while i < payload.len()
        invariant
            i <= payload@.len(),
            out@ =~= (seq![0x0au8] + varint_bytes(n)) + payload@.subrange(0, i as int),
        decreases payload@.len() - i,
    {
        out.push(payload[i]);
        i += 1;
        proof {
            assert(out@ =~= (seq![0x0au8] + varint_bytes(n)) + payload@.subrange(0, i as int));
        }
    }
    proof {
        assert(payload@.subrange(0, payload@.len() as int) =~= payload@);
        assert(out@ =~= envelope_bytes(payload@));
    }
    out
}

/// Unwraps an envelope: yields the payload of a well-formed message, and
/// fails with `DecodeError` on bytes that do not parse as one.
pub fn decode_envelope(s: &[u8]) -> (r: Result<Vec<u8>, WorkflowError>)
    ensures
        parse_envelope(s@) matches Some(p) ==> (r matches Ok(d) && d@ == p),
        parse_envelope(s@) is None ==> (r matches Err(e) && e is DecodeError),
{
    if s.len() == 0 {
        let out: Vec<u8> = Vec::new();
        proof {
            assert(out@ =~= Seq::<u8>::empty());
        }
        return Ok(out);
    }
    if s[0] != 0x0a {
        return Err(WorkflowError::DecodeError);
    }
    match parse_varint_at(s, 1, MAX_VARINT_BYTES) {
        None => Err(WorkflowError::DecodeError),
        Some((k, v)) => {
            let remaining = s.len() - 1 - k;
            if v != remaining as u128 {
                return Err(WorkflowError::DecodeError);
            }
            let mut out: Vec<u8> = Vec::new();
            let mut i: usize = 1 + k;
            while i < s.len()
                invariant
                    1 + k <= i <= s@.len(),
                    out@ =~= s@.subrange(1 + k as int, i as int),
                decreases s@.len() - i,
            {
                out.push(s[i]);
                i += 1;
                proof {
                    assert(out@ =~= s@.subrange(1 + k as int, i as int));
                }
            }
            proof {
                assert(out@ =~= s@.skip(1 + k as int));
            }
            Ok(out)
        },
    }
}

} // verus!
