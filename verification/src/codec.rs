//! Canonical byte encoding of offer claims.
//!
//! A claim triple `(flight_id, price, expiration)` is laid out as the
//! concatenation of the flight id's UTF-8 bytes, the expiration as eight
//! little-endian bytes, the currency code's UTF-8 bytes, the units as eight
//! little-endian bytes and the nanos as four little-endian bytes. The byte
//! widths and the order are fixed: the verifier reconstructs the very same
//! byte string from the claims it is handed, so the authentication tag binds
//! the whole tuple.

use vstd::bytes::{spec_u32_to_le_bytes, spec_u64_to_le_bytes, u32_to_le_bytes, u64_to_le_bytes};
use vstd::prelude::*;

verus! {

/// The canonical byte string over which the authentication tag is computed.
pub open spec fn encode_claims(
    flight_id: Seq<char>,
    expiration: i64,
    currency: Seq<char>,
    units: i64,
    nanos: i32,
) -> Seq<u8> {
    vstd::utf8::encode_utf8(flight_id) + spec_u64_to_le_bytes(expiration as u64)
        + vstd::utf8::encode_utf8(currency) + spec_u64_to_le_bytes(units as u64)
        + spec_u32_to_le_bytes(nanos as u32)
}

/// Appends every byte of `bytes` to `buf`, in order.
fn append_bytes(buf: &mut Vec<u8>, bytes: &[u8])
    ensures
        final(buf)@ == old(buf)@ + bytes@,
{
    let mut i: usize = 0;
    while i < bytes.len()
        invariant
            i <= bytes@.len(),
            buf@ == old(buf)@ + bytes@.subrange(0, i as int),
        decreases bytes@.len() - i,
    {
        buf.push(bytes[i]);
        assert(bytes@.subrange(0, i + 1) == bytes@.subrange(0, i as int).push(bytes@[i as int]));
        i = i + 1;
    }
    assert(bytes@.subrange(0, bytes@.len() as int) == bytes@);
}

/// Builds the canonical byte encoding of the claims.
pub fn claims_bytes(flight_id: &str, expiration: i64, currency: &str, units: i64, nanos: i32) -> (r:
    Vec<u8>)
    ensures
        r@ == encode_claims(flight_id@, expiration, currency@, units, nanos),
{
    let mut buf: Vec<u8> = Vec::new();
    append_bytes(&mut buf, flight_id.as_bytes());
    let e = u64_to_le_bytes(expiration as u64);
    append_bytes(&mut buf, e.as_slice());
    append_bytes(&mut buf, currency.as_bytes());
    let u = u64_to_le_bytes(units as u64);
    append_bytes(&mut buf, u.as_slice());
    let n = u32_to_le_bytes(nanos as u32);
    append_bytes(&mut buf, n.as_slice());
    buf
}

/// Two concatenations with an equal prefix, middle parts of equal length that
/// differ, and suffixes of equal length, are distinct byte strings.
proof fn lemma_affix_neq(p: Seq<u8>, x1: Seq<u8>, x2: Seq<u8>, s1: Seq<u8>, s2: Seq<u8>)
    requires
        x1 != x2,
        s1.len() == s2.len(),
    ensures
        p + x1 + s1 != p + x2 + s2,
{
    if x1.len() != x2.len() {
        assert((p + x1 + s1).len() != (p + x2 + s2).len());
    } else {
        if p + x1 + s1 == p + x2 + s2 {
            assert forall|i: int| 0 <= i < x1.len() implies x1[i] == x2[i] by {
                assert((p + x1 + s1)[p.len() + i] == x1[i]);
                assert((p + x2 + s2)[p.len() + i] == x2[i]);
            }
            assert(x1 =~= x2);
        }
    }
}

/// Distinct `i64` values have distinct little-endian byte encodings.
proof fn lemma_le_bytes_i64_injective(a: i64, b: i64)
    requires
        a != b,
    ensures
        spec_u64_to_le_bytes(a as u64) != spec_u64_to_le_bytes(b as u64),
        spec_u64_to_le_bytes(a as u64).len() == 8,
        spec_u64_to_le_bytes(b as u64).len() == 8,
{
    assert(a as u64 != b as u64) by (bit_vector)
        requires
            a != b,
    ;
    vstd::bytes::lemma_auto_spec_u64_to_from_le_bytes();
}

/// Distinct `i32` values have distinct little-endian byte encodings.
proof fn lemma_le_bytes_i32_injective(a: i32, b: i32)
    requires
        a != b,
    ensures
        spec_u32_to_le_bytes(a as u32) != spec_u32_to_le_bytes(b as u32),
        spec_u32_to_le_bytes(a as u32).len() == 4,
        spec_u32_to_le_bytes(b as u32).len() == 4,
{
    assert(a as u32 != b as u32) by (bit_vector)
        requires
            a != b,
    ;
    vstd::bytes::lemma_auto_spec_u32_to_from_le_bytes();
    assert(spec_u32_to_le_bytes(a as u32).len() == 4);
    assert(spec_u32_to_le_bytes(b as u32).len() == 4);
    assert(vstd::bytes::spec_u32_from_le_bytes(spec_u32_to_le_bytes(a as u32)) == a as u32);
    assert(vstd::bytes::spec_u32_from_le_bytes(spec_u32_to_le_bytes(b as u32)) == b as u32);
}

/// Distinct character sequences have distinct UTF-8 encodings.
proof fn lemma_encode_utf8_injective(a: Seq<char>, b: Seq<char>)
    requires
        a != b,
    ensures
        vstd::utf8::encode_utf8(a) != vstd::utf8::encode_utf8(b),
{
    if vstd::utf8::encode_utf8(a) == vstd::utf8::encode_utf8(b) {
        vstd::utf8::encode_utf8_decode_utf8(a);
        vstd::utf8::encode_utf8_decode_utf8(b);
    }
}

/// Tamper-evidence of the canonical encoding: a change to any single claim
/// field, the other fields held fixed, always changes the encoded byte
/// string. The keyed digest is therefore recomputed over a different message
/// whenever a verifier is handed mutated claims; that distinct messages keep
/// distinct digests is the collision resistance assumed of the digest itself.
pub proof fn lemma_encode_claims_single_field(
    f1: Seq<char>,
    e1: i64,
    c1: Seq<char>,
    u1: i64,
    n1: i32,
    f2: Seq<char>,
    e2: i64,
    c2: Seq<char>,
    u2: i64,
    n2: i32,
)
    requires
        ({
            ||| (f1 != f2 && e1 == e2 && c1 == c2 && u1 == u2 && n1 == n2)
            ||| (f1 == f2 && e1 != e2 && c1 == c2 && u1 == u2 && n1 == n2)
            ||| (f1 == f2 && e1 == e2 && c1 != c2 && u1 == u2 && n1 == n2)
            ||| (f1 == f2 && e1 == e2 && c1 == c2 && u1 != u2 && n1 == n2)
            ||| (f1 == f2 && e1 == e2 && c1 == c2 && u1 == u2 && n1 != n2)
        }),
    ensures
        encode_claims(f1, e1, c1, u1, n1) != encode_claims(f2, e2, c2, u2, n2),
{
    let fb1 = vstd::utf8::encode_utf8(f1);
    let fb2 = vstd::utf8::encode_utf8(f2);
    let eb1 = spec_u64_to_le_bytes(e1 as u64);
    let eb2 = spec_u64_to_le_bytes(e2 as u64);
    let cb1 = vstd::utf8::encode_utf8(c1);
    let cb2 = vstd::utf8::encode_utf8(c2);
    let ub1 = spec_u64_to_le_bytes(u1 as u64);
    let ub2 = spec_u64_to_le_bytes(u2 as u64);
    let nb1 = spec_u32_to_le_bytes(n1 as u32);
    let nb2 = spec_u32_to_le_bytes(n2 as u32);
    if f1 != f2 {
        lemma_encode_utf8_injective(f1, f2);
        lemma_affix_neq(Seq::<u8>::empty(), fb1, fb2, eb1 + cb1 + ub1 + nb1, eb2 + cb2 + ub2 + nb2);
        assert(Seq::<u8>::empty() + fb1 + (eb1 + cb1 + ub1 + nb1) =~= encode_claims(
            f1,
            e1,
            c1,
            u1,
            n1,
        ));
        assert(Seq::<u8>::empty() + fb2 + (eb2 + cb2 + ub2 + nb2) =~= encode_claims(
            f2,
            e2,
            c2,
            u2,
            n2,
        ));
    } else if e1 != e2 {
        lemma_le_bytes_i64_injective(e1, e2);
        lemma_affix_neq(fb1, eb1, eb2, cb1 + ub1 + nb1, cb2 + ub2 + nb2);
        assert(fb1 + eb1 + (cb1 + ub1 + nb1) =~= encode_claims(f1, e1, c1, u1, n1));
        assert(fb1 + eb2 + (cb2 + ub2 + nb2) =~= encode_claims(f2, e2, c2, u2, n2));
    } else if c1 != c2 {
        lemma_encode_utf8_injective(c1, c2);
        lemma_affix_neq(fb1 + eb1, cb1, cb2, ub1 + nb1, ub2 + nb2);
        assert(fb1 + eb1 + cb1 + (ub1 + nb1) =~= encode_claims(f1, e1, c1, u1, n1));
        assert(fb1 + eb1 + cb2 + (ub2 + nb2) =~= encode_claims(f2, e2, c2, u2, n2));
    } else if u1 != u2 {
        lemma_le_bytes_i64_injective(u1, u2);
        lemma_affix_neq(fb1 + eb1 + cb1, ub1, ub2, nb1, nb2);
        assert(fb1 + eb1 + cb1 + ub1 + nb1 =~= encode_claims(f1, e1, c1, u1, n1));
        assert(fb1 + eb1 + cb1 + ub2 + nb2 =~= encode_claims(f2, e2, c2, u2, n2));
    } else {
        lemma_le_bytes_i32_injective(n1, n2);
        lemma_affix_neq(fb1 + eb1 + cb1 + ub1, nb1, nb2, Seq::<u8>::empty(), Seq::<u8>::empty());
        assert(fb1 + eb1 + cb1 + ub1 + nb1 + Seq::<u8>::empty() =~= encode_claims(
            f1,
            e1,
            c1,
            u1,
            n1,
        ));
        assert(fb1 + eb1 + cb1 + ub1 + nb2 + Seq::<u8>::empty() =~= encode_claims(
            f2,
            e2,
            c2,
            u2,
            n2,
        ));
    }
}

} // verus!
