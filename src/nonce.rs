//! The two nonce forms: the 8-byte big-endian wire nonce and the 12-byte AEAD
//! nonce whose first four bytes are zero.
use vstd::prelude::*;
use crate::error::ChannelError;

verus! {

/// The eight big-endian bytes of `n`.
pub open spec fn be_bytes(n: u64) -> Seq<u8> {
    seq![
        (n >> 56u64) as u8,
        (n >> 48u64) as u8,
        (n >> 40u64) as u8,
        (n >> 32u64) as u8,
        (n >> 24u64) as u8,
        (n >> 16u64) as u8,
        (n >> 8u64) as u8,
        n as u8,
    ]
}

/// The number whose big-endian bytes are the first eight of `b`.
pub open spec fn from_be(b: Seq<u8>) -> u64 {
    (b[0] as u64) << 56u64 | (b[1] as u64) << 48u64 | (b[2] as u64) << 40u64
        | (b[3] as u64) << 32u64 | (b[4] as u64) << 24u64 | (b[5] as u64) << 16u64
        | (b[6] as u64) << 8u64 | (b[7] as u64)
}

/// The 12-byte AEAD nonce for counter value `n`: four zero bytes, then `n`
/// in big-endian order.
pub open spec fn full_nonce(n: u64) -> Seq<u8> {
    seq![0u8, 0u8, 0u8, 0u8] + be_bytes(n)
}

proof fn lemma_bytes_of_number(n: u64)
    ensures
        from_be(be_bytes(n)) == n,
{
    let b = be_bytes(n);
    let (b0, b1, b2, b3, b4, b5, b6, b7) = (b[0], b[1], b[2], b[3], b[4], b[5], b[6], b[7]);
    assert(b0 == (n >> 56u64) as u8 && b1 == (n >> 48u64) as u8 && b2 == (n >> 40u64) as u8
        && b3 == (n >> 32u64) as u8 && b4 == (n >> 24u64) as u8 && b5 == (n >> 16u64) as u8
        && b6 == (n >> 8u64) as u8 && b7 == n as u8);
    assert(
        (b0 == (n >> 56u64) as u8 && b1 == (n >> 48u64) as u8 && b2 == (n >> 40u64) as u8
        && b3 == (n >> 32u64) as u8 && b4 == (n >> 24u64) as u8 && b5 == (n >> 16u64) as u8
        && b6 == (n >> 8u64) as u8 && b7 == n as u8) ==>
        ((b0 as u64) << 56u64 | (b1 as u64) << 48u64 | (b2 as u64) << 40u64
        | (b3 as u64) << 32u64 | (b4 as u64) << 24u64 | (b5 as u64) << 16u64
        | (b6 as u64) << 8u64 | (b7 as u64)) == n
    ) by (bit_vector);
}

proof fn lemma_number_of_bytes(b: Seq<u8>)
    requires
        b.len() == 8,
    ensures
        be_bytes(from_be(b)) == b,
{
    let (b0, b1, b2, b3, b4, b5, b6, b7) = (b[0], b[1], b[2], b[3], b[4], b[5], b[6], b[7]);
    let n = from_be(b);
    assert(n == ((b0 as u64) << 56u64 | (b1 as u64) << 48u64 | (b2 as u64) << 40u64
        | (b3 as u64) << 32u64 | (b4 as u64) << 24u64 | (b5 as u64) << 16u64
        | (b6 as u64) << 8u64 | (b7 as u64)));
    assert(
        n == ((b0 as u64) << 56u64 | (b1 as u64) << 48u64 | (b2 as u64) << 40u64
        | (b3 as u64) << 32u64 | (b4 as u64) << 24u64 | (b5 as u64) << 16u64
        | (b6 as u64) << 8u64 | (b7 as u64)) ==>
        (b0 == (n >> 56u64) as u8 && b1 == (n >> 48u64) as u8 && b2 == (n >> 40u64) as u8
        && b3 == (n >> 32u64) as u8 && b4 == (n >> 24u64) as u8 && b5 == (n >> 16u64) as u8
        && b6 == (n >> 8u64) as u8 && b7 == n as u8)
    ) by (bit_vector);
    assert(be_bytes(n) =~= b);
}

/// Both nonce forms of counter value `nonce`: the wire form and the AEAD form.
pub fn convert_nonce_from_u64(nonce: u64) -> (r: ([u8; 8], [u8; 12]))
    ensures
        r.0@ == be_bytes(nonce),
        r.1@ == full_nonce(nonce),
{
    let b: [u8; 8] = [
        (nonce >> 56u64) as u8,
        (nonce >> 48u64) as u8,
        (nonce >> 40u64) as u8,
        (nonce >> 32u64) as u8,
        (nonce >> 24u64) as u8,
        (nonce >> 16u64) as u8,
        (nonce >> 8u64) as u8,
        nonce as u8,
    ];
    let n: [u8; 12] = [0, 0, 0, 0, b[0], b[1], b[2], b[3], b[4], b[5], b[6], b[7]];
    assert(b@ =~= be_bytes(nonce));
    assert(n@ =~= full_nonce(nonce));
    (b, n)
}

/// Restores the AEAD nonce from a wire nonce; fails unless `b` is exactly
/// eight bytes long.
pub fn convert_nonce_from_small(b: &[u8]) -> (r: Result<[u8; 12], ChannelError>)
    ensures
        b@.len() != 8 ==> r == Err::<[u8; 12], ChannelError>(ChannelError::InvalidNonce),
        b@.len() == 8 ==> r is Ok && r->Ok_0@ == full_nonce(from_be(b@)),
{
    if b.len() != 8 {
        return Err(ChannelError::InvalidNonce);
    }
    let n: u64 = (b[0] as u64) << 56u64 | (b[1] as u64) << 48u64 | (b[2] as u64) << 40u64
        | (b[3] as u64) << 32u64 | (b[4] as u64) << 24u64 | (b[5] as u64) << 16u64
        | (b[6] as u64) << 8u64 | (b[7] as u64);
    let (_, full) = convert_nonce_from_u64(n);
    Ok(full)
}

/// The wire nonce and the AEAD nonce agree: the AEAD nonce restored from the
/// wire form of a counter value is the one derived from the counter itself,
/// and the wire form read back from it is the same eight bytes.
pub proof fn lemma_nonce_round_trip(n: u64)
    ensures
        from_be(be_bytes(n)) == n,
        full_nonce(from_be(be_bytes(n))) == full_nonce(n),
        full_nonce(n).subrange(4, 12) == be_bytes(n),
        be_bytes(from_be(full_nonce(n).subrange(4, 12))) == be_bytes(n),
{
    lemma_bytes_of_number(n);
    assert(full_nonce(n).subrange(4, 12) =~= be_bytes(n));
}

/// Any eight wire bytes survive the trip through the AEAD nonce: the last
/// eight bytes of the nonce restored from them are those bytes.
pub proof fn lemma_wire_round_trip(b: Seq<u8>)
    requires
        b.len() == 8,
    ensures
        full_nonce(from_be(b)).subrange(4, 12) == b,
{
    lemma_number_of_bytes(b);
    assert(full_nonce(from_be(b)).subrange(4, 12) =~= be_bytes(from_be(b)));
}

/// Distinct counter values have distinct wire nonces.
pub proof fn lemma_wire_nonce_injective(a: u64, b: u64)
    requires
        a != b,
    ensures
        be_bytes(a) != be_bytes(b),
{
    lemma_bytes_of_number(a);
    lemma_bytes_of_number(b);
}

} // verus!
