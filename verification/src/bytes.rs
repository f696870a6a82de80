//! Little-endian integers on the wire.

use vstd::arithmetic::power::pow;
use vstd::prelude::*;

verus! {

/// The value of `bytes` read as a little-endian unsigned integer.
pub open spec fn le_value(bytes: Seq<u8>) -> int
    decreases bytes.len(),
{
    if bytes.len() == 0 {
        0
    } else {
        bytes[0] + 256 * le_value(bytes.drop_first())
    }
}

/// The `len` low bytes of `value`, least significant first.
pub open spec fn le_bytes(value: int, len: nat) -> Seq<u8>
    decreases len,
{
    if len == 0 {
        Seq::empty()
    } else {
        seq![(value % 256) as u8] + le_bytes(value / 256, (len - 1) as nat)
    }
}

/// The signed reading of an unsigned 64-bit value (two's complement).
pub open spec fn signed_64(value: int) -> int {
    if value < 0x8000_0000_0000_0000 {
        value
    } else {
        value - 0x1_0000_0000_0000_0000
    }
}

/// The unsigned 64-bit encoding of a signed value (two's complement).
pub open spec fn unsigned_64(value: int) -> int {
    if value >= 0 {
        value
    } else {
        value + 0x1_0000_0000_0000_0000
    }
}

/// The little-endian `u64` at byte offset `at`.
pub open spec fn le_u64_at(data: Seq<u8>, at: int) -> u64 {
    le_value(data.subrange(at, at + 8)) as u64
}

/// The little-endian `u32` at byte offset `at`.
pub open spec fn le_u32_at(data: Seq<u8>, at: int) -> u32 {
    le_value(data.subrange(at, at + 4)) as u32
}

/// A little-endian value of `n` bytes lies below `256^n`.
pub proof fn lemma_le_value_bound(bytes: Seq<u8>)
    ensures
        0 <= le_value(bytes) < pow(256, bytes.len()),
    decreases bytes.len(),
{
    reveal(pow);
    if bytes.len() > 0 {
        lemma_le_value_bound(bytes.drop_first());
        assert(pow(256, bytes.len()) == 256 * pow(256, (bytes.len() - 1) as nat));
    }
}

/// Writing a value in `len` bytes and reading it back gives the value, as
/// long as it fits.
pub proof fn lemma_le_roundtrip(value: int, len: nat)
    requires
        0 <= value < pow(256, len),
    ensures
        le_bytes(value, len).len() == len,
        le_value(le_bytes(value, len)) == value,
    decreases len,
{
    reveal(pow);
    if len > 0 {
        let rest = (len - 1) as nat;
        assert(pow(256, len) == 256 * pow(256, rest));
        lemma_le_roundtrip(value / 256, rest);
        let written = le_bytes(value, len);
        assert(written.drop_first() =~= le_bytes(value / 256, rest));
    }
}

/// `256^8` is `2^64`.
pub proof fn lemma_pow_256_8()
    ensures
        pow(256, 8) == 0x1_0000_0000_0000_0000,
{
    reveal(pow);
    reveal_with_fuel(pow, 9);
}

/// `256^4` is `2^32`.
pub proof fn lemma_pow_256_4()
    ensures
        pow(256, 4) == 0x1_0000_0000,
{
    reveal(pow);
    reveal_with_fuel(pow, 5);
}

/// Reads the eight bytes of `data` from `at` as a little-endian `u64`.
pub(crate) fn read_le_u64(data: &[u8], at: usize) -> (value: u64)
    requires
        at + 8 <= data@.len(),
    ensures
        value == le_u64_at(data@, at as int),
        value as int == le_value(data@.subrange(at as int, at + 8)),
{
    let ghost window = data@.subrange(at as int, at + 8);
    let mut value: u64 = 0;
    let mut i: usize = 8;
    while i > 0
        invariant
            i <= 8,
            at + 8 <= data.len(),
            window == data@.subrange(at as int, at + 8),
            value as int == le_value(window.subrange(i as int, 8)),
        decreases i,
    {
        i = i - 1;
        proof {
            let tail = window.subrange(i + 1, 8);
            assert(window.subrange(i as int, 8).drop_first() =~= tail);
            lemma_le_value_bound(window.subrange(i as int, 8));
            lemma_pow_256_8();
            vstd::arithmetic::power::lemma_pow_increases(256, (8 - i) as nat, 8);
        }
        value = value * 256 + data[at + i] as u64;
    }
    assert(window.subrange(0, 8) =~= window);
    value
}

/// Reads the four bytes of `data` from `at` as a little-endian `u32`.
pub(crate) fn read_le_u32(data: &[u8], at: usize) -> (value: u32)
    requires
        at + 4 <= data@.len(),
    ensures
        value == le_u32_at(data@, at as int),
        value as int == le_value(data@.subrange(at as int, at + 4)),
{
    let ghost window = data@.subrange(at as int, at + 4);
    let mut value: u32 = 0;
    let mut i: usize = 4;
    while i > 0
        invariant
            i <= 4,
            at + 4 <= data.len(),
            window == data@.subrange(at as int, at + 4),
            value as int == le_value(window.subrange(i as int, 4)),
        decreases i,
    {
        i = i - 1;
        proof {
            let tail = window.subrange(i + 1, 4);
            assert(window.subrange(i as int, 4).drop_first() =~= tail);
            lemma_le_value_bound(window.subrange(i as int, 4));
            lemma_pow_256_4();
            vstd::arithmetic::power::lemma_pow_increases(256, (4 - i) as nat, 4);
        }
        value = value * 256 + data[at + i] as u32;
    }
    assert(window.subrange(0, 4) =~= window);
    value
}

/// Four bytes read least significant first.
pub proof fn law_le_value_of_four(b: Seq<u8>)
    requires
        b.len() == 4,
    ensures
        le_value(b) == b[0] + 0x100 * b[1] + 0x1_0000 * b[2] + 0x100_0000 * b[3],
{
    reveal_with_fuel(le_value, 5);
}

/// Eight bytes read least significant first.
pub proof fn law_le_value_of_eight(b: Seq<u8>)
    requires
        b.len() == 8,
    ensures
        le_value(b) == b[0] + 0x100 * b[1] + 0x1_0000 * b[2] + 0x100_0000 * b[3] + 0x1_0000_0000
            * b[4] + 0x100_0000_0000 * b[5] + 0x1_0000_0000_0000 * b[6] + 0x100_0000_0000_0000
            * b[7],
{
    reveal_with_fuel(le_value, 9);
}

/// Bytes and values determine each other: byte strings of one length that
/// read alike are alike.
pub proof fn law_le_value_is_injective(a: Seq<u8>, b: Seq<u8>)
    requires
        a.len() == b.len(),
        le_value(a) == le_value(b),
    ensures
        a == b,
    decreases a.len(),
{
    if a.len() > 0 {
        assert(a[0] == b[0]);
        law_le_value_is_injective(a.drop_first(), b.drop_first());
        assert(forall|i: int| 0 < i < a.len() ==> a[i] == a.drop_first()[i - 1]);
        assert(forall|i: int| 0 < i < b.len() ==> b[i] == b.drop_first()[i - 1]);
    }
    assert(a =~= b);
}

} // verus!
