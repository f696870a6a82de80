use quay_venue::clock::CLOCK_MIN_LEN;
use quay_venue::decode_clock;

/// A `Clock` sysvar account body. The fields between the slot and the unix
/// timestamp hold a non-zero pattern, to catch any offset drift.
fn fake_clock(slot: u64, unix_ts: i64) -> Vec<u8> {
    let mut data = vec![0u8; CLOCK_MIN_LEN];
    data[0..8].copy_from_slice(&slot.to_le_bytes());
    data[8..16].copy_from_slice(&0xDEAD_BEEF_DEAD_BEEFu64.to_le_bytes());
    data[16..24].copy_from_slice(&0xFEED_FACE_FEED_FACEu64.to_le_bytes());
    data[24..32].copy_from_slice(&0xBAAD_F00D_BAAD_F00Du64.to_le_bytes());
    data[32..40].copy_from_slice(&unix_ts.to_le_bytes());
    data
}

#[test]
fn decode_clock_reads_slot_and_unix_ts() {
    let data = fake_clock(123_456_789, 1_700_000_000);
    let (slot, ts) = decode_clock(&data).expect("decode should succeed");
    assert_eq!(slot, 123_456_789);
    assert_eq!(ts, 1_700_000_000);
}

#[test]
fn decode_clock_rejects_short_buffers() {
    // 39 bytes: one short of the unix timestamp's tail.
    let data = vec![0u8; CLOCK_MIN_LEN - 1];
    assert!(decode_clock(&data).is_none());
}

#[test]
fn decode_clock_accepts_oversized_buffers() {
    let mut data = fake_clock(7, 11);
    data.extend_from_slice(&[0xAB; 32]);
    let (slot, ts) = decode_clock(&data).expect("decode should succeed");
    assert_eq!(slot, 7);
    assert_eq!(ts, 11);
}

#[test]
fn decode_clock_handles_negative_unix_ts() {
    // The field is an `i64`: the decoder keeps the sign.
    let data = fake_clock(0, -1);
    let (_, ts) = decode_clock(&data).expect("decode should succeed");
    assert_eq!(ts, -1);
}

#[test]
fn decode_clock_keeps_the_extremes() {
    assert_eq!(decode_clock(&fake_clock(u64::MAX, i64::MIN)), Some((u64::MAX, i64::MIN)));
    assert_eq!(decode_clock(&fake_clock(1 << 63, i64::MAX)), Some((1 << 63, i64::MAX)));
    assert_eq!(decode_clock(&[]), None);
}

#[test]
fn decode_clock_ignores_the_other_fields() {
    let mut data = fake_clock(5, 6);
    for byte in &mut data[8..32] {
        *byte = 0;
    }
    assert_eq!(decode_clock(&data), decode_clock(&fake_clock(5, 6)));
}
