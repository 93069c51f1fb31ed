use compute_pipeline::error::{CompileError, LinkError, PipelineError, ProtocolError, ResourceError};
use compute_pipeline::program::{LinkReport, ProgramCompiler, ProgramObjects, StageReport};
use compute_pipeline::source::{KernelInterface, ShaderSource, StageKind};

fn kernel() -> ShaderSource {
    ShaderSource::index_kernel(KernelInterface { local_size_x: 10, binding_slot: 0 }, 10)
}

#[test]
fn log_capacity_is_the_reported_length() {
    assert_eq!(ProgramCompiler::log_capacity(0), 0);
    assert_eq!(ProgramCompiler::log_capacity(1), 1);
    assert_eq!(ProgramCompiler::log_capacity(57), 57);
    assert_eq!(ProgramCompiler::log_capacity(i32::MAX), i32::MAX as usize);
}

#[test]
fn log_capacity_of_a_negative_length_is_nothing() {
    assert_eq!(ProgramCompiler::log_capacity(-1), 0);
    assert_eq!(ProgramCompiler::log_capacity(i32::MIN), 0);
}

#[test]
fn compiled_stage_gives_a_handle() {
    let source = kernel();
    let report = StageReport { object: 7, compiled: true, log: String::new() };
    let stage = ProgramCompiler::compile(&source, report).unwrap();
    assert_eq!(stage.object(), 7);
    assert_eq!(stage.kind(), StageKind::Compute);
    assert_eq!(stage.interface(), KernelInterface { local_size_x: 10, binding_slot: 0 });
}

#[test]
fn failed_stage_gives_the_log_verbatim() {
    let source = ShaderSource::new(
        String::from("void main( {"),
        StageKind::Compute,
        KernelInterface { local_size_x: 1, binding_slot: 0 },
    );
    let log = "0:1(12): error: syntax error, unexpected '{'\n";
    let report = StageReport { object: 7, compiled: false, log: String::from(log) };
    let result = ProgramCompiler::compile(&source, report);
    assert_eq!(result, Err(CompileError { log: String::from(log) }));
}

#[test]
fn failed_stage_with_an_empty_log_is_still_an_error() {
    let report = StageReport { object: 1, compiled: false, log: String::new() };
    assert_eq!(ProgramCompiler::compile(&kernel(), report), Err(CompileError { log: String::new() }));
}

#[test]
fn linked_program_owns_its_stages() {
    let source = kernel();
    let first = ProgramCompiler::compile(
        &source,
        StageReport { object: 3, compiled: true, log: String::new() },
    )
    .unwrap();
    let second = ProgramCompiler::compile(
        &source,
        StageReport { object: 5, compiled: true, log: String::new() },
    )
    .unwrap();
    let report = LinkReport { object: 9, linked: true, log: String::new() };
    let program = ProgramCompiler::link(vec![first, second], report).unwrap();
    assert_eq!(program.object(), 9);
    assert_eq!(program.stage_count(), 2);
    assert_eq!(program.stage(0).object(), 3);
    assert_eq!(program.stage(1).object(), 5);
    assert_eq!(program.release(), ProgramObjects { program: 9, stages: vec![3, 5] });
}

#[test]
fn failed_link_gives_the_log_verbatim() {
    let stage = ProgramCompiler::compile(
        &kernel(),
        StageReport { object: 3, compiled: true, log: String::new() },
    )
    .unwrap();
    let log = "error: no compute shader main()";
    let report = LinkReport { object: 9, linked: false, log: String::from(log) };
    let result = ProgramCompiler::link(vec![stage], report);
    assert_eq!(result, Err(LinkError { log: String::from(log) }));
}

#[test]
fn error_lines_name_the_stage_and_carry_the_log() {
    let compile = PipelineError::Compile(CompileError { log: String::from("bad token") });
    assert_eq!(compile.message(), "Compile error: bad token");
    let link = PipelineError::Link(LinkError { log: String::from("unresolved") });
    assert_eq!(link.message(), "Link error: unresolved");
}

#[test]
fn error_lines_for_resources_and_protocol() {
    assert_eq!(
        PipelineError::Resource(ResourceError::SizeOverflow).message(),
        "Resource error: buffer size overflows"
    );
    assert_eq!(
        PipelineError::Resource(ResourceError::AllocationRefused).message(),
        "Resource error: allocation refused"
    );
    assert_eq!(
        PipelineError::Resource(ResourceError::MappingRefused).message(),
        "Resource error: mapping refused"
    );
    assert_eq!(
        PipelineError::Protocol(ProtocolError::UnexpectedReply).message(),
        "Protocol error: unexpected reply"
    );
    assert_eq!(
        PipelineError::Protocol(ProtocolError::BarrierWithoutVisibility).message(),
        "Protocol error: barrier does not cover mapped reads"
    );
    assert_eq!(
        PipelineError::Protocol(ProtocolError::DispatchNotReady).message(),
        "Protocol error: dispatch without program and buffer in place"
    );
    assert_eq!(
        PipelineError::Protocol(ProtocolError::UseAfterRelease).message(),
        "Protocol error: use after release"
    );
}
