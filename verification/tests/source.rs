use compute_pipeline::source::{KernelInterface, ShaderSource, StageKind};

const TEN_ELEMENTS_AT_SLOT_ZERO: &str = "#version 450 core

    layout(local_size_x=10) in;

    layout (packed, binding = 0) buffer Pos
    {
        float[10][3] Positions;
    };

    void main()
    {
        uint gid = gl_GlobalInvocationID.x;
        Positions[gid][0] = gid;
        Positions[gid][1] = gid;
        Positions[gid][2] = gid;
        memoryBarrier();
    }
    ";

#[test]
fn kernel_text_for_ten_elements_at_slot_zero() {
    let interface = KernelInterface { local_size_x: 10, binding_slot: 0 };
    let source = ShaderSource::index_kernel(interface, 10);
    assert_eq!(source.text(), TEN_ELEMENTS_AT_SLOT_ZERO);
    assert_eq!(source.kind(), StageKind::Compute);
    assert_eq!(source.interface(), interface);
}

#[test]
fn kernel_text_carries_its_numbers() {
    let interface = KernelInterface { local_size_x: 1, binding_slot: 4 };
    let source = ShaderSource::index_kernel(interface, 4096);
    let text = source.text();
    assert!(text.contains("layout(local_size_x=1) in;"));
    assert!(text.contains("layout (packed, binding = 4) buffer Pos"));
    assert!(text.contains("float[4096][3] Positions;"));
}

#[test]
fn kernel_text_renders_extreme_numbers() {
    let interface = KernelInterface { local_size_x: u32::MAX, binding_slot: 0 };
    let source = ShaderSource::index_kernel(interface, u64::MAX);
    let text = source.text();
    assert!(text.contains("local_size_x=4294967295)"));
    assert!(text.contains("binding = 0)"));
    assert!(text.contains("float[18446744073709551615][3]"));
}

#[test]
fn source_from_outside_keeps_its_parts() {
    let interface = KernelInterface { local_size_x: 8, binding_slot: 2 };
    let source = ShaderSource::new(String::from("void main() {}"), StageKind::Compute, interface);
    assert_eq!(source.text(), "void main() {}");
    assert_eq!(source.kind(), StageKind::Compute);
    assert_eq!(source.interface(), interface);
}
