use compute_pipeline::buffer::{AccessMode, StructuredBuffer, Visibility};
use compute_pipeline::error::ResourceError;
use compute_pipeline::record::Record;

#[test]
fn byte_size_is_count_times_element_size() {
    assert_eq!(StructuredBuffer::byte_size(10, 12), Some(120));
    assert_eq!(StructuredBuffer::byte_size(0, 12), Some(0));
    assert_eq!(StructuredBuffer::byte_size(10, 0), Some(0));
    assert_eq!(StructuredBuffer::byte_size(isize::MAX as usize, 1), Some(isize::MAX as usize));
}

#[test]
fn byte_size_beyond_a_device_allocation_is_none() {
    assert_eq!(StructuredBuffer::byte_size(usize::MAX, 12), None);
    assert_eq!(StructuredBuffer::byte_size(isize::MAX as usize + 1, 1), None);
    assert_eq!(StructuredBuffer::byte_size(usize::MAX / 2 + 1, 2), None);
}

#[test]
fn allocation_records_layout_and_nothing_else() {
    let buffer = StructuredBuffer::allocate(3, 10, 12).unwrap();
    assert_eq!(buffer.handle(), 3);
    assert_eq!(buffer.count(), 10);
    assert_eq!(buffer.element_size(), 12);
    assert_eq!(buffer.byte_len(), 120);
    assert_eq!(buffer.visibility(), Visibility::Coherent);
    assert_eq!(buffer.slot(), None);
    assert!(!buffer.is_mapped());
}

#[test]
fn allocation_of_an_impossible_size_is_refused() {
    assert_eq!(StructuredBuffer::allocate(3, usize::MAX, 12), Err(ResourceError::SizeOverflow));
}

#[test]
fn host_writes_read_back_without_dispatch() {
    let mut buffer = StructuredBuffer::allocate(1, 10, 12).unwrap();
    assert!(buffer.can_map(AccessMode::Write, 0, 120));
    let mut region = buffer.map(AccessMode::Write, 0, 120);
    let written: Vec<Record> =
        (0u32..10).map(|i| Record { x: i + 1, y: i * 7, z: 0xffff_ffff - i }).collect();
    for (i, record) in written.iter().enumerate() {
        assert!(region.holds(i));
        region.write_record(i, *record);
    }
    assert!(buffer.owns(&region));
    buffer.unmap(region);
    assert!(buffer.can_map(AccessMode::Read, 0, 120));
    let region = buffer.map(AccessMode::Read, 0, 120);
    for (i, record) in written.iter().enumerate() {
        assert_eq!(region.read_record(i), *record);
    }
    buffer.unmap(region);
    assert!(!buffer.is_mapped());
}

#[test]
fn a_partial_write_leaves_the_rest_alone() {
    let mut buffer = StructuredBuffer::allocate(1, 4, 2).unwrap();
    let mut whole = buffer.map(AccessMode::Write, 0, 8);
    for i in 0..4 {
        whole.write(i, &[10 + i as u8, 20 + i as u8]);
    }
    assert_eq!(buffer.unmap(whole), vec![10, 20, 11, 21, 12, 22, 13, 23]);
    let mut middle = buffer.map(AccessMode::Write, 2, 4);
    assert_eq!(middle.offset(), 2);
    assert_eq!(middle.len(), 4);
    assert_eq!(middle.stride(), 2);
    middle.write(1, &[0xaa, 0xbb]);
    assert_eq!(buffer.unmap(middle), vec![0, 0, 0xaa, 0xbb]);
    let all = buffer.map(AccessMode::Read, 0, 8);
    assert_eq!(all.read(0), vec![10, 20]);
    assert_eq!(all.read(1), vec![0, 0]);
    assert_eq!(all.read(2), vec![0xaa, 0xbb]);
    assert_eq!(all.read(3), vec![13, 23]);
    buffer.unmap(all);
}

#[test]
fn a_write_mapping_starts_from_nothing() {
    let mut buffer = StructuredBuffer::allocate(1, 2, 3).unwrap();
    let mut first = buffer.map(AccessMode::Write, 0, 6);
    first.write(0, &[1, 2, 3]);
    first.write(1, &[4, 5, 6]);
    buffer.unmap(first);
    let second = buffer.map(AccessMode::Write, 0, 6);
    assert_eq!(second.mode(), AccessMode::Write);
    assert_eq!(buffer.unmap(second), vec![0, 0, 0, 0, 0, 0]);
}

#[test]
fn one_mapping_at_a_time_and_inside_the_buffer() {
    let mut buffer = StructuredBuffer::allocate(1, 10, 12).unwrap();
    assert!(!buffer.can_map(AccessMode::Write, 0, 121));
    assert!(!buffer.can_map(AccessMode::Read, 120, 1));
    assert!(!buffer.can_map(AccessMode::Read, usize::MAX, 2));
    assert!(buffer.can_map(AccessMode::Read, 120, 0));
    let region = buffer.map(AccessMode::Read, 12, 24);
    assert!(buffer.is_mapped());
    assert!(!buffer.can_map(AccessMode::Read, 0, 12));
    assert!(!buffer.can_map(AccessMode::Write, 0, 12));
    assert!(region.holds(0));
    assert!(region.holds(1));
    assert!(!region.holds(2));
    buffer.unmap(region);
    assert!(buffer.can_map(AccessMode::Write, 0, 12));
}

#[test]
fn a_region_belongs_to_the_buffer_that_mapped_it() {
    let mut one = StructuredBuffer::allocate(1, 10, 12).unwrap();
    let mut two = StructuredBuffer::allocate(2, 10, 12).unwrap();
    let from_one = one.map(AccessMode::Write, 0, 120);
    let from_two = two.map(AccessMode::Write, 0, 120);
    assert!(one.owns(&from_one));
    assert!(!one.owns(&from_two));
    assert!(!two.owns(&from_one));
    one.unmap(from_one);
    two.unmap(from_two);
}

#[test]
fn elements_of_no_size_are_all_inside() {
    let mut buffer = StructuredBuffer::allocate(1, 5, 0).unwrap();
    assert_eq!(buffer.byte_len(), 0);
    let mut region = buffer.map(AccessMode::Write, 0, 0);
    assert!(region.holds(0));
    assert!(region.holds(usize::MAX));
    region.write(3, &[]);
    assert_eq!(buffer.unmap(region), Vec::<u8>::new());
}

#[test]
fn releasing_hands_back_the_device_object() {
    let buffer = StructuredBuffer::allocate(42, 10, 12).unwrap();
    assert_eq!(buffer.release(), 42);
}
