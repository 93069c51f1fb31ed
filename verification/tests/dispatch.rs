use compute_pipeline::buffer::{AccessMode, StructuredBuffer, Visibility};
use compute_pipeline::dispatch::{BarrierKind, ComputeDispatcher, GroupCounts};
use compute_pipeline::program::{CompiledProgram, LinkReport, ProgramCompiler, StageReport};
use compute_pipeline::source::{KernelInterface, ShaderSource};

fn program_at(slot: u32, object: u32) -> CompiledProgram {
    let source = ShaderSource::index_kernel(KernelInterface { local_size_x: 10, binding_slot: slot }, 10);
    let stage = ProgramCompiler::compile(
        &source,
        StageReport { object: object + 100, compiled: true, log: String::new() },
    )
    .unwrap();
    ProgramCompiler::link(vec![stage], LinkReport { object, linked: true, log: String::new() })
        .unwrap()
}

#[test]
fn group_total_is_the_product() {
    assert_eq!(GroupCounts { x: 10, y: 1, z: 1 }.total(), 10);
    assert_eq!(GroupCounts { x: 2, y: 3, z: 4 }.total(), 24);
    assert_eq!(GroupCounts { x: 5, y: 0, z: 4 }.total(), 0);
    let most = GroupCounts { x: u32::MAX, y: u32::MAX, z: u32::MAX };
    assert_eq!(most.total(), (u32::MAX as u128) * (u32::MAX as u128) * (u32::MAX as u128));
}

#[test]
fn invocations_along_x() {
    assert_eq!(GroupCounts { x: 1, y: 1, z: 1 }.invocations_x(10), 10);
    assert_eq!(GroupCounts { x: 10, y: 1, z: 1 }.invocations_x(1), 10);
    assert_eq!(GroupCounts { x: 10, y: 3, z: 2 }.invocations_x(10), 100);
    assert_eq!(GroupCounts { x: 10, y: 0, z: 2 }.invocations_x(10), 0);
    assert_eq!(GroupCounts { x: 10, y: 2, z: 0 }.invocations_x(10), 0);
    assert_eq!(
        GroupCounts { x: u32::MAX, y: 1, z: 1 }.invocations_x(u32::MAX),
        (u32::MAX as u64) * (u32::MAX as u64)
    );
}

#[test]
fn barrier_kinds_that_cover_mapped_reads() {
    assert!(BarrierKind::BufferUpdate.covers_mapped_reads());
    assert!(BarrierKind::All.covers_mapped_reads());
    assert!(!BarrierKind::ShaderStorage.covers_mapped_reads());
}

#[test]
fn rebinding_a_slot_replaces_the_buffer() {
    let mut first = StructuredBuffer::allocate(11, 10, 12).unwrap();
    let mut second = StructuredBuffer::allocate(22, 10, 12).unwrap();
    let mut dispatcher = ComputeDispatcher::new();
    assert_eq!(dispatcher.bound_at(0), None);
    assert_eq!(first.slot(), None);
    dispatcher.bind(0, &mut first);
    assert_eq!(dispatcher.bound_at(0), Some(11));
    assert_eq!(dispatcher.bound_at(4), None);
    assert_eq!(first.slot(), Some(0));
    dispatcher.bind(4, &mut first);
    dispatcher.bind(0, &mut second);
    assert_eq!(dispatcher.bound_at(0), Some(22));
    assert_eq!(dispatcher.bound_at(4), Some(11));
    assert_eq!(first.slot(), Some(4));
    assert_eq!(second.slot(), Some(0));
}

#[test]
fn dispatch_needs_program_and_buffer_in_place() {
    let program = program_at(4, 1);
    let other = program_at(4, 2);
    let mut buffer = StructuredBuffer::allocate(11, 10, 12).unwrap();
    let mut stranger = StructuredBuffer::allocate(22, 10, 12).unwrap();
    let mut dispatcher = ComputeDispatcher::new();
    assert!(!dispatcher.ready(&program, &buffer));
    dispatcher.use_program(&program);
    assert!(!dispatcher.ready(&program, &buffer));
    dispatcher.bind(0, &mut buffer);
    assert!(!dispatcher.ready(&program, &buffer));
    dispatcher.bind(4, &mut buffer);
    assert!(dispatcher.ready(&program, &buffer));
    assert!(!dispatcher.ready(&other, &buffer));
    assert!(!dispatcher.ready(&program, &stranger));
    dispatcher.bind(4, &mut stranger);
    assert!(!dispatcher.ready(&program, &buffer));
    assert!(dispatcher.ready(&program, &stranger));
}

#[test]
fn no_read_mapping_between_dispatch_and_barrier() {
    let program = program_at(0, 1);
    let mut buffer = StructuredBuffer::allocate(11, 10, 12).unwrap();
    let mut dispatcher = ComputeDispatcher::new();
    dispatcher.bind(0, &mut buffer);
    dispatcher.use_program(&program);
    assert!(buffer.can_map(AccessMode::Read, 0, 120));
    assert!(dispatcher.ready(&program, &buffer));
    let issued = dispatcher.dispatch(&program, &mut buffer, GroupCounts { x: 1, y: 1, z: 1 });
    assert_eq!(issued, 1);
    assert_eq!(buffer.visibility(), Visibility::Pending);
    assert!(!buffer.can_map(AccessMode::Read, 0, 120));
    assert!(!buffer.can_refresh(&vec![0u8; 120]));

    dispatcher.barrier(&mut buffer, BarrierKind::ShaderStorage);
    assert_eq!(buffer.visibility(), Visibility::Pending);
    assert!(!buffer.can_map(AccessMode::Read, 0, 120));
    assert!(!buffer.can_refresh(&vec![0u8; 120]));

    dispatcher.barrier(&mut buffer, BarrierKind::BufferUpdate);
    assert_eq!(buffer.visibility(), Visibility::Fenced);
    assert!(!buffer.can_map(AccessMode::Read, 0, 120));
    assert!(!buffer.can_refresh(&vec![0u8; 119]));
    let device: Vec<u8> = (0..120).collect();
    assert!(buffer.can_refresh(&device));
    buffer.refresh(device.clone());
    assert_eq!(buffer.visibility(), Visibility::Coherent);
    assert!(buffer.can_map(AccessMode::Read, 0, 120));
    let region = buffer.map(AccessMode::Read, 0, 120);
    assert_eq!(buffer.unmap(region), device);
}

#[test]
fn a_barrier_without_dispatch_changes_nothing() {
    let mut buffer = StructuredBuffer::allocate(11, 10, 12).unwrap();
    let dispatcher = ComputeDispatcher::new();
    dispatcher.barrier(&mut buffer, BarrierKind::All);
    assert_eq!(buffer.visibility(), Visibility::Coherent);
    assert!(buffer.can_map(AccessMode::Read, 0, 120));
}
