use compute_pipeline::record::{index_bits, Record};

#[test]
fn index_bits_match_hardware_floats() {
    for n in 0u32..4096 {
        assert_eq!(index_bits(n), (n as f32).to_bits());
    }
    assert_eq!(index_bits(0x00ff_ffff), (0x00ff_ffff as f32).to_bits());
}

#[test]
fn record_bytes_round_trip() {
    let record = Record { x: 0x3f80_0000, y: 0x4000_0000, z: 0x4040_0000 };
    let bytes = record.encode();
    assert_eq!(bytes, vec![0, 0, 0x80, 0x3f, 0, 0, 0, 0x40, 0, 0, 0x40, 0x40]);
    assert_eq!(Record::decode(&bytes), Some(record));
    assert_eq!(Record::decode(&bytes[..11]), None);
}
