use compute_pipeline::kernel::{can_run, decode_records, is_index_identity, run_index_kernel};
use compute_pipeline::record::{index_bits, Record};

#[test]
fn kernel_writes_each_index_three_times() {
    let mut bytes = vec![0xeeu8; 120];
    assert!(can_run(bytes.len(), 10));
    run_index_kernel(&mut bytes, 10);
    let records = decode_records(&bytes);
    assert_eq!(records.len(), 10);
    for (i, record) in records.iter().enumerate() {
        assert_eq!(f32::from_bits(record.x), i as f32);
        assert_eq!(f32::from_bits(record.y), i as f32);
        assert_eq!(f32::from_bits(record.z), i as f32);
    }
    assert!(is_index_identity(&records));
}

#[test]
fn kernel_leaves_unreached_elements_alone() {
    let mut bytes = vec![0xeeu8; 36];
    run_index_kernel(&mut bytes, 2);
    assert_eq!(&bytes[..12], &[0u8; 12][..]);
    assert_eq!(&bytes[12..24], &[0, 0, 0x80, 0x3f, 0, 0, 0x80, 0x3f, 0, 0, 0x80, 0x3f][..]);
    assert_eq!(&bytes[24..], &[0xeeu8; 12][..]);
    assert!(!is_index_identity(&decode_records(&bytes)));
}

#[test]
fn kernel_with_no_invocation_does_nothing() {
    let mut bytes = vec![7u8; 24];
    assert!(can_run(bytes.len(), 0));
    run_index_kernel(&mut bytes, 0);
    assert_eq!(bytes, vec![7u8; 24]);
}

#[test]
fn kernel_is_defined_only_inside_the_buffer() {
    assert!(can_run(120, 10));
    assert!(!can_run(120, 11));
    assert!(!can_run(119, 10));
    assert!(can_run(0, 0));
    assert!(!can_run(usize::MAX, 0x100_0001));
    assert!(!can_run(usize::MAX, u64::MAX));
}

#[test]
fn decoding_ignores_a_trailing_partial_element() {
    let mut bytes = Record { x: 1, y: 2, z: 3 }.encode();
    bytes.extend_from_slice(&[9, 9, 9, 9, 9]);
    assert_eq!(decode_records(&bytes), vec![Record { x: 1, y: 2, z: 3 }]);
    assert_eq!(decode_records(&[]), Vec::<Record>::new());
}

#[test]
fn index_identity_is_exact() {
    assert!(is_index_identity(&[].to_vec()));
    let good: Vec<Record> = (0u32..10).map(Record::of_index).collect();
    assert!(is_index_identity(&good));
    let mut off = good.clone();
    off[9].z = index_bits(9) + 1;
    assert!(!is_index_identity(&off));
    let mut swapped = good.clone();
    swapped.swap(3, 4);
    assert!(!is_index_identity(&swapped));
}

#[test]
fn record_of_index_and_zero() {
    assert_eq!(Record::zero(), Record { x: 0, y: 0, z: 0 });
    assert_eq!(Record::of_index(0), Record::zero());
    assert_eq!(Record::of_index(1), Record { x: 0x3f80_0000, y: 0x3f80_0000, z: 0x3f80_0000 });
    assert_eq!(Record::of_index(9), Record { x: 0x4110_0000, y: 0x4110_0000, z: 0x4110_0000 });
}
