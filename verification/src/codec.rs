//! Decoding of stored byte payloads into the representations callers ask
//! for: UTF-8 text and fixed-width little-endian integers.

use vstd::prelude::*;

use vstd::utf8::decode_utf8;
use vstd::utf8::valid_utf8;

verus! {

/// Relies on String::from_utf8: succeeds exactly on a valid UTF-8 encoding
/// and returns the characters it encodes.
#[verifier::external_body]
pub(crate) fn string_from_bytes(v: Vec<u8>) -> (r: Option<String>)
    ensures
        match r {
            Some(s) => valid_utf8(v@) && s@ == decode_utf8(v@),
            None => !valid_utf8(v@),
        },
{
    String::from_utf8(v).ok()
}

/// The value of a little-endian byte sequence, least significant byte first.
pub open spec fn le_bytes_value(b: Seq<u8>) -> int
    decreases b.len(),
{
    if b.len() == 0 {
        0
    } else {
        b[0] + 256 * le_bytes_value(b.drop_first())
    }
}

/// The little-endian value of four bytes, written out.
pub proof fn lemma_le_bytes_value_4(b: Seq<u8>)
    requires
        b.len() == 4,
    ensures
        le_bytes_value(b) == b[0] + 0x100 * b[1] + 0x1_0000 * b[2] + 0x100_0000 * b[3],
        0 <= le_bytes_value(b) < 0x1_0000_0000,
{
    reveal_with_fuel(le_bytes_value, 5);
    assert(b.drop_first().drop_first().drop_first().drop_first() =~= Seq::<u8>::empty());
    assert(b.drop_first()[0] == b[1]);
    assert(b.drop_first().drop_first()[0] == b[2]);
    assert(b.drop_first().drop_first().drop_first()[0] == b[3]);
}

/// The little-endian value of eight bytes splits into its two words.
pub proof fn lemma_le_bytes_value_8(b: Seq<u8>)
    requires
        b.len() == 8,
    ensures
        le_bytes_value(b) == le_bytes_value(b.subrange(0, 4)) + 0x1_0000_0000 * le_bytes_value(
            b.subrange(4, 8),
        ),
        0 <= le_bytes_value(b) < 0x1_0000_0000_0000_0000,
{
    reveal_with_fuel(le_bytes_value, 9);
    let lo = b.subrange(0, 4);
    let hi = b.subrange(4, 8);
    lemma_le_bytes_value_4(lo);
    lemma_le_bytes_value_4(hi);
    assert(b.drop_first().drop_first().drop_first().drop_first().drop_first().drop_first().drop_first().drop_first()
        =~= Seq::<u8>::empty());
    assert(b.drop_first()[0] == b[1]);
    assert(b.drop_first().drop_first()[0] == b[2]);
    assert(b.drop_first().drop_first().drop_first()[0] == b[3]);
    assert(b.drop_first().drop_first().drop_first().drop_first()[0] == b[4]);
    assert(b.drop_first().drop_first().drop_first().drop_first().drop_first()[0] == b[5]);
    let b6 = b[6];
    let b7 = b[7];
    assert(b.drop_first().drop_first().drop_first().drop_first().drop_first().drop_first()[0]
        == b6);
    assert(b.drop_first().drop_first().drop_first().drop_first().drop_first().drop_first().drop_first()[0]
        == b7);
}

/// Reads four little-endian bytes as an unsigned 32-bit value.
pub fn u32_from_le_bytes(b: &[u8]) -> (r: u32)
    requires
        b@.len() == 4,
    ensures
        r == le_bytes_value(b@),
{
    proof {
        lemma_le_bytes_value_4(b@);
    }
    (b[0] as u32) + 0x100 * (b[1] as u32) + 0x1_0000 * (b[2] as u32) + 0x100_0000 * (b[3] as u32)
}

/// Reads eight little-endian bytes as an unsigned 64-bit value.
pub fn u64_from_le_bytes(b: &[u8]) -> (r: u64)
    requires
        b@.len() == 8,
    ensures
        r == le_bytes_value(b@),
{
    proof {
        lemma_le_bytes_value_8(b@);
        lemma_le_bytes_value_4(b@.subrange(0, 4));
        lemma_le_bytes_value_4(b@.subrange(4, 8));
    }
    let lo: u32 = (b[0] as u32) + 0x100 * (b[1] as u32) + 0x1_0000 * (b[2] as u32) + 0x100_0000 * (
    b[3] as u32);
    let hi: u32 = (b[4] as u32) + 0x100 * (b[5] as u32) + 0x1_0000 * (b[6] as u32) + 0x100_0000 * (
    b[7] as u32);
    proof {
        assert(lo == le_bytes_value(b@.subrange(0, 4)));
        assert(hi == le_bytes_value(b@.subrange(4, 8)));
    }
    (lo as u64) + 0x1_0000_0000 * (hi as u64)
}

} // verus!
