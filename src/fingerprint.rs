use vstd::bytes::{spec_u64_from_le_bytes, spec_u64_to_le_bytes, u64_to_le_bytes, lemma_auto_spec_u64_to_from_le_bytes};
use vstd::prelude::*;

use crate::{AccountId, Timestamp};

verus! {

/// A byte string prefixed by its length as eight little-endian bytes.
pub open spec fn length_prefixed(b: Seq<u8>) -> Seq<u8> {
    spec_u64_to_le_bytes(b.len() as u64) + b
}

/// The canonical encoding of a certificate's immutable fields: subject and
/// public key length-prefixed, then issuer and expiration as eight
/// little-endian bytes each, in that fixed order.
pub open spec fn canonical_fields(
    subject: Seq<u8>,
    public_key: Seq<u8>,
    issuer: AccountId,
    expiration: Timestamp,
) -> Seq<u8> {
    length_prefixed(subject) + length_prefixed(public_key) + spec_u64_to_le_bytes(issuer)
        + spec_u64_to_le_bytes(expiration)
}

/// The Keccak-256 digest of a byte string.
pub uninterp spec fn keccak256_of(data: Seq<u8>) -> Seq<u8>;

/// The fingerprint of a certificate: the digest of its canonical encoding.
pub open spec fn fingerprint_of(
    subject: Seq<u8>,
    public_key: Seq<u8>,
    issuer: AccountId,
    expiration: Timestamp,
) -> Seq<u8> {
    keccak256_of(canonical_fields(subject, public_key, issuer, expiration))
}

/// Relies on ink_env::hash_bytes with ink_env::hash::Keccak256: it writes the
/// 32-byte Keccak-256 digest of the input, which depends on the input alone.
#[verifier::external_body]
fn keccak256(data: &Vec<u8>) -> (r: Vec<u8>)
    ensures
        r@ == keccak256_of(data@),
        r@.len() == 32,
{
    let mut output = [0u8; 32];
    ink_env::hash_bytes::<ink_env::hash::Keccak256>(data.as_slice(), &mut output);
    output.to_vec()
}

fn append_length_prefixed(out: &mut Vec<u8>, b: &Vec<u8>)
    ensures
        final(out)@ == old(out)@ + length_prefixed(b@),
{
    let mut len = u64_to_le_bytes(b.len() as u64);
    out.append(&mut len);
    let mut i: usize = 0;
    let ghost start = out@;
    while i < b.len()
        invariant
            0 <= i <= b@.len(),
            out@ == start + b@.subrange(0, i as int),
        decreases b@.len() - i,
    {
        out.push(b[i]);
        i = i + 1;
        assert(b@.subrange(0, i as int) =~= b@.subrange(0, i - 1) + seq![b@[i - 1]]);
    }
    assert(b@.subrange(0, b@.len() as int) =~= b@);
    assert(out@ =~= old(out)@ + length_prefixed(b@));
}

/// Encodes a certificate's immutable fields canonically.
pub fn canonical_encoding(
    subject: &Vec<u8>,
    public_key: &Vec<u8>,
    issuer: AccountId,
    expiration: Timestamp,
) -> (r: Vec<u8>)
    ensures
        r@ == canonical_fields(subject@, public_key@, issuer, expiration),
{
    let mut out: Vec<u8> = Vec::new();
    append_length_prefixed(&mut out, subject);
    append_length_prefixed(&mut out, public_key);
    let mut i = u64_to_le_bytes(issuer);
    out.append(&mut i);
    let mut e = u64_to_le_bytes(expiration);
    out.append(&mut e);
    assert(out@ =~= canonical_fields(subject@, public_key@, issuer, expiration));
    out
}

/// Derives the fingerprint of a certificate from its immutable fields.
pub fn derive_fingerprint(
    subject: &Vec<u8>,
    public_key: &Vec<u8>,
    issuer: AccountId,
    expiration: Timestamp,
) -> (r: Vec<u8>)
    ensures
        r@ == fingerprint_of(subject@, public_key@, issuer, expiration),
        r@.len() == 32,
{
    let encoded = canonical_encoding(subject, public_key, issuer, expiration);
    keccak256(&encoded)
}

proof fn lemma_length_prefixed_split(a: Seq<u8>, ra: Seq<u8>, b: Seq<u8>, rb: Seq<u8>)
    requires
        a.len() <= u64::MAX,
        b.len() <= u64::MAX,
        length_prefixed(a) + ra == length_prefixed(b) + rb,
    ensures
        a == b,
        ra == rb,
{
    lemma_auto_spec_u64_to_from_le_bytes();
    let x = length_prefixed(a) + ra;
    let y = length_prefixed(b) + rb;
    assert(x.subrange(0, 8) =~= spec_u64_to_le_bytes(a.len() as u64));
    assert(y.subrange(0, 8) =~= spec_u64_to_le_bytes(b.len() as u64));
    assert(spec_u64_from_le_bytes(spec_u64_to_le_bytes(a.len() as u64)) == a.len() as u64);
    assert(a.len() == b.len());
    assert(x.subrange(8, 8 + a.len() as int) =~= a);
    assert(y.subrange(8, 8 + b.len() as int) =~= b);
    assert(x.subrange(8 + a.len() as int, x.len() as int) =~= ra);
    assert(y.subrange(8 + b.len() as int, y.len() as int) =~= rb);
}

/// The canonical encoding is unambiguous: certificates whose immutable fields
/// differ in any one field have different encodings, so their fingerprints
/// differ unless the digest itself collides. Equal fields always give equal
/// fingerprints.
pub proof fn lemma_fingerprint_determined_by_fields(
    s1: Seq<u8>,
    k1: Seq<u8>,
    i1: AccountId,
    e1: Timestamp,
    s2: Seq<u8>,
    k2: Seq<u8>,
    i2: AccountId,
    e2: Timestamp,
)
    requires
        s1.len() <= u64::MAX,
        k1.len() <= u64::MAX,
        s2.len() <= u64::MAX,
        k2.len() <= u64::MAX,
    ensures
        (s1 == s2 && k1 == k2 && i1 == i2 && e1 == e2) ==> fingerprint_of(s1, k1, i1, e1)
            == fingerprint_of(s2, k2, i2, e2),
        (s1 != s2 || k1 != k2 || i1 != i2 || e1 != e2) ==> canonical_fields(s1, k1, i1, e1)
            != canonical_fields(s2, k2, i2, e2),
{
    if canonical_fields(s1, k1, i1, e1) == canonical_fields(s2, k2, i2, e2) {
        lemma_auto_spec_u64_to_from_le_bytes();
        let t1 = length_prefixed(k1) + spec_u64_to_le_bytes(i1) + spec_u64_to_le_bytes(e1);
        let t2 = length_prefixed(k2) + spec_u64_to_le_bytes(i2) + spec_u64_to_le_bytes(e2);
        assert(canonical_fields(s1, k1, i1, e1) =~= length_prefixed(s1) + t1);
        assert(canonical_fields(s2, k2, i2, e2) =~= length_prefixed(s2) + t2);
        lemma_length_prefixed_split(s1, t1, s2, t2);
        let u1 = spec_u64_to_le_bytes(i1) + spec_u64_to_le_bytes(e1);
        let u2 = spec_u64_to_le_bytes(i2) + spec_u64_to_le_bytes(e2);
        assert(t1 =~= length_prefixed(k1) + u1);
        assert(t2 =~= length_prefixed(k2) + u2);
        lemma_length_prefixed_split(k1, u1, k2, u2);
        assert(u1.subrange(0, 8) =~= spec_u64_to_le_bytes(i1));
        assert(u2.subrange(0, 8) =~= spec_u64_to_le_bytes(i2));
        assert(u1.subrange(8, 16) =~= spec_u64_to_le_bytes(e1));
        assert(u2.subrange(8, 16) =~= spec_u64_to_le_bytes(e2));
        assert(spec_u64_from_le_bytes(spec_u64_to_le_bytes(i1)) == i1);
        assert(spec_u64_from_le_bytes(spec_u64_to_le_bytes(e1)) == e1);
    }
}

} // verus!
