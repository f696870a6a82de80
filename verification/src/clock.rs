//! The `Clock` sysvar account.

use vstd::prelude::*;

use crate::bytes::{
    law_le_value_of_eight, le_bytes, le_value, lemma_le_roundtrip, lemma_pow_256_8, read_le_u64,
    signed_64, unsigned_64,
};

verus! {

/// Byte offset of the slot, a little-endian `u64`.
pub const CLOCK_SLOT_OFFSET: usize = 0;

/// Byte offset of the unix timestamp, a little-endian `i64`.
pub const CLOCK_UNIX_TS_OFFSET: usize = 32;

/// Shortest account that holds both fields.
pub const CLOCK_MIN_LEN: usize = 40;

/// The slot and the unix timestamp that `data` holds, if it is long enough.
pub open spec fn clock_of(data: Seq<u8>) -> Option<(u64, i64)> {
    if data.len() < CLOCK_MIN_LEN {
        None
    } else {
        Some(
            (
                le_value(data.subrange(0, 8)) as u64,
                signed_64(le_value(data.subrange(32, 40))) as i64,
            ),
        )
    }
}

/// Decodes `(slot, unix_timestamp)` from a `Clock` sysvar account. Only the
/// two fields are read; trailing bytes are ignored.
pub fn decode_clock(data: &[u8]) -> (clock: Option<(u64, i64)>)
    ensures
        clock == clock_of(data@),
        clock is None <==> data@.len() < CLOCK_MIN_LEN,
        clock matches Some((slot, unix_ts)) ==> {
            &&& slot as int == le_value(data@.subrange(0, 8))
            &&& unix_ts as int == signed_64(le_value(data@.subrange(32, 40)))
        },
{
    if data.len() < CLOCK_MIN_LEN {
        return None;
    }
    let slot: u64 = read_le_u64(data, CLOCK_SLOT_OFFSET);
    let raw: u64 = read_le_u64(data, CLOCK_UNIX_TS_OFFSET);
    assert((raw as i64) as int == (if raw < 0x8000_0000_0000_0000 {
        raw as int
    } else {
        raw - 0x1_0000_0000_0000_0000
    })) by (bit_vector);
    Some((slot, #[verifier::truncate] (raw as i64)))
}

/// Decoding gives back the slot and the timestamp of any account that holds
/// their little-endian encodings at the two offsets, whatever the other
/// bytes are and however many follow.
pub proof fn law_clock_roundtrip(data: Seq<u8>, slot: u64, unix_ts: i64)
    requires
        data.len() >= CLOCK_MIN_LEN,
        data.subrange(0, 8) == le_bytes(slot as int, 8),
        data.subrange(32, 40) == le_bytes(unsigned_64(unix_ts as int), 8),
    ensures
        clock_of(data) == Some((slot, unix_ts)),
{
    lemma_pow_256_8();
    lemma_le_roundtrip(slot as int, 8);
    lemma_le_roundtrip(unsigned_64(unix_ts as int), 8);
}

/// Only the bytes of the two fields matter: accounts that agree on them and
/// are long enough decode alike.
pub proof fn law_clock_reads_two_fields(a: Seq<u8>, b: Seq<u8>)
    requires
        a.len() >= CLOCK_MIN_LEN,
        b.len() >= CLOCK_MIN_LEN,
        a.subrange(0, 8) == b.subrange(0, 8),
        a.subrange(32, 40) == b.subrange(32, 40),
    ensures
        clock_of(a) == clock_of(b),
        clock_of(a) is Some,
{
}

/// The slot is the account's first eight bytes and the timestamp bytes 32 to
/// 40, both least significant byte first; the timestamp is negative exactly
/// where the top bit of byte 39 is set, and then lies `2^64` below its
/// unsigned reading. Fewer than forty bytes hold no clock.
pub proof fn law_clock_fields(data: Seq<u8>)
    ensures
        clock_of(data) is Some <==> data.len() >= 40,
        clock_of(data) matches Some((slot, unix_ts)) ==> {
            let low = data[32] + 0x100 * data[33] + 0x1_0000 * data[34] + 0x100_0000 * data[35]
                + 0x1_0000_0000 * data[36] + 0x100_0000_0000 * data[37] + 0x1_0000_0000_0000
                * data[38];
            &&& slot == data[0] + 0x100 * data[1] + 0x1_0000 * data[2] + 0x100_0000 * data[3]
                + 0x1_0000_0000 * data[4] + 0x100_0000_0000 * data[5] + 0x1_0000_0000_0000
                * data[6] + 0x100_0000_0000_0000 * data[7]
            &&& data[39] < 128 ==> unix_ts == low + 0x100_0000_0000_0000 * data[39]
            &&& data[39] >= 128 ==> unix_ts == low + 0x100_0000_0000_0000 * (data[39] - 256)
        },
{
    if data.len() >= 40 {
        law_le_value_of_eight(data.subrange(0, 8));
        law_le_value_of_eight(data.subrange(32, 40));
    }
}

} // verus!
