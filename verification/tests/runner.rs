use compute_pipeline::dispatch::{BarrierKind, GroupCounts};
use compute_pipeline::error::{CompileError, LinkError, PipelineError, ProtocolError, ResourceError};
use compute_pipeline::kernel::run_index_kernel;
use compute_pipeline::protocol::{Command, Objects, Reply};
use compute_pipeline::record::Record;
use compute_pipeline::runner::{Phase, PipelineConfig, PipelineRunner};
use compute_pipeline::source::{KernelInterface, ShaderSource};

/// A device in software: it compiles and links everything, keeps the
/// buffer's bytes, and runs the kernel on the host when asked to dispatch.
struct Device {
    local_size_x: u32,
    memory: Vec<u8>,
    barrier_seen: bool,
}

impl Device {
    fn new(local_size_x: u32) -> Device {
        Device { local_size_x, memory: Vec::new(), barrier_seen: false }
    }

    fn carry_out(&mut self, command: &Command) -> Option<Reply> {
        match command {
            Command::CompileStage { .. } => Some(Reply::Status { object: 1, ok: true, log_length: 0 }),
            Command::LinkProgram { .. } => Some(Reply::Status { object: 2, ok: true, log_length: 0 }),
            Command::AllocateBuffer { bytes } => {
                self.memory = vec![0xcd; *bytes];
                Some(Reply::Allocated { buffer: 3 })
            }
            Command::WriteMapped { offset, data, .. } => {
                self.memory[*offset..*offset + data.len()].copy_from_slice(data);
                Some(Reply::Done)
            }
            Command::BindBuffer { .. } => Some(Reply::Done),
            Command::Dispatch { groups, .. } => {
                run_index_kernel(&mut self.memory, groups.invocations_x(self.local_size_x));
                Some(Reply::Done)
            }
            Command::Barrier { .. } => {
                self.barrier_seen = true;
                Some(Reply::Done)
            }
            Command::ReadMapped { offset, length, .. } => {
                assert!(self.barrier_seen);
                Some(Reply::Bytes { data: self.memory[*offset..*offset + *length].to_vec() })
            }
            Command::Release { .. } => Some(Reply::Done),
            Command::FetchStageLog { .. } | Command::FetchProgramLog { .. } => None,
            Command::Finish { .. } | Command::Abort { .. } => None,
        }
    }
}

fn run_to_end(config: PipelineConfig) -> (Vec<Command>, Vec<Phase>) {
    let mut device = Device::new(config.local_size_x);
    let mut runner = PipelineRunner::new(config);
    let mut commands = Vec::new();
    let mut phases = vec![runner.phase()];
    let mut reply = Reply::Ready;
    loop {
        let (next, command) = runner.step(reply);
        runner = next;
        phases.push(runner.phase());
        let answer = device.carry_out(&command);
        commands.push(command);
        match answer {
            Some(r) => reply = r,
            None => return (commands, phases),
        }
    }
}

fn feed(config: PipelineConfig, replies: Vec<Reply>) -> (PipelineRunner, Vec<Command>) {
    let mut runner = PipelineRunner::new(config);
    let mut commands = Vec::new();
    for reply in replies {
        let (next, command) = runner.step(reply);
        runner = next;
        commands.push(command);
    }
    (runner, commands)
}

fn ok(object: u32) -> Reply {
    Reply::Status { object, ok: true, log_length: 0 }
}

fn all_objects() -> Objects {
    Objects { stages: vec![1], program: Some(2), buffer: Some(3) }
}

fn abort(error: PipelineError, objects: Objects) -> Command {
    Command::Abort { error, objects }
}

#[test]
fn standard_run_reads_back_index_identity() {
    let (commands, phases) = run_to_end(PipelineConfig::standard());
    match commands.last() {
        Some(Command::Finish { records }) => {
            assert_eq!(records.len(), 10);
            for (i, record) in records.iter().enumerate() {
                assert_eq!(f32::from_bits(record.x), i as f32);
                assert_eq!(f32::from_bits(record.y), i as f32);
                assert_eq!(f32::from_bits(record.z), i as f32);
            }
        }
        other => panic!("run did not finish: {:?}", other),
    }
    assert_eq!(phases.last(), Some(&Phase::Released));
}

#[test]
fn ten_groups_of_one_invocation_read_back_the_same() {
    let config = PipelineConfig {
        binding_slot: 4,
        barrier_kind: BarrierKind::All,
        dispatch_groups: GroupCounts { x: 10, y: 1, z: 1 },
        local_size_x: 1,
        element_count: 10,
    };
    let (commands, _) = run_to_end(config);
    let expected: Vec<Record> = (0u32..10).map(Record::of_index).collect();
    assert_eq!(commands.last(), Some(&Command::Finish { records: expected }));
    assert!(commands.contains(&Command::BindBuffer { slot: 4, buffer: 3 }));
    assert!(commands.contains(&Command::Barrier { kind: BarrierKind::All }));
}

#[test]
fn standard_run_issues_every_command_in_order() {
    let config = PipelineConfig::standard();
    let (commands, phases) = run_to_end(config);
    let source = ShaderSource::index_kernel(KernelInterface { local_size_x: 10, binding_slot: 0 }, 10);
    let expected = vec![
        Command::CompileStage { source },
        Command::LinkProgram { stages: vec![1] },
        Command::AllocateBuffer { bytes: 120 },
        Command::WriteMapped { buffer: 3, offset: 0, data: vec![0; 120] },
        Command::BindBuffer { slot: 0, buffer: 3 },
        Command::Dispatch { program: 2, groups: GroupCounts { x: 1, y: 1, z: 1 } },
        Command::Barrier { kind: BarrierKind::BufferUpdate },
        Command::ReadMapped { buffer: 3, offset: 0, length: 120 },
        Command::Release { objects: all_objects() },
        Command::Finish { records: (0u32..10).map(Record::of_index).collect() },
    ];
    assert_eq!(commands, expected);
    assert_eq!(
        phases,
        vec![
            Phase::Uninitialized,
            Phase::Uninitialized,
            Phase::Uninitialized,
            Phase::Compiled,
            Phase::BufferAllocated,
            Phase::BufferAllocated,
            Phase::Bound,
            Phase::Dispatched,
            Phase::Readable,
            Phase::Readable,
            Phase::Released,
        ]
    );
}

#[test]
fn new_runner_is_uninitialized() {
    let runner = PipelineRunner::new(PipelineConfig::standard());
    assert_eq!(runner.phase(), Phase::Uninitialized);
    assert_eq!(runner.config(), PipelineConfig::standard());
    assert_eq!(
        PipelineConfig::standard(),
        PipelineConfig {
            binding_slot: 0,
            barrier_kind: BarrierKind::BufferUpdate,
            dispatch_groups: GroupCounts { x: 1, y: 1, z: 1 },
            local_size_x: 10,
            element_count: 10,
        }
    );
    assert_eq!(
        PipelineConfig::standard().interface(),
        KernelInterface { local_size_x: 10, binding_slot: 0 }
    );
    assert_eq!(
        PipelineConfig::standard().source(),
        ShaderSource::index_kernel(KernelInterface { local_size_x: 10, binding_slot: 0 }, 10)
    );
}

#[test]
fn invalid_source_yields_compile_error_and_no_buffer() {
    let log = "0:3(5): error: syntax error, unexpected IDENTIFIER";
    let failed = Reply::Status { object: 1, ok: false, log_length: 52 };
    let (runner, commands) = feed(
        PipelineConfig::standard(),
        vec![Reply::Ready, failed, Reply::Log { text: String::from(log) }],
    );
    assert_eq!(commands.len(), 3);
    assert!(matches!(commands[0], Command::CompileStage { .. }));
    assert_eq!(commands[1], Command::FetchStageLog { stage: 1, capacity: 52 });
    assert_eq!(
        commands[2],
        abort(
            PipelineError::Compile(CompileError { log: String::from(log) }),
            Objects { stages: vec![1], program: None, buffer: None },
        )
    );
    assert!(!commands.iter().any(|c| matches!(c, Command::AllocateBuffer { .. })));
    assert_eq!(runner.phase(), Phase::Released);
}

#[test]
fn failed_link_yields_link_error_and_no_buffer() {
    let log = "error: linking with uncompiled shader";
    let failed = Reply::Status { object: 2, ok: false, log_length: 38 };
    let (runner, commands) = feed(
        PipelineConfig::standard(),
        vec![Reply::Ready, ok(1), failed, Reply::Log { text: String::from(log) }],
    );
    assert_eq!(commands[1], Command::LinkProgram { stages: vec![1] });
    assert_eq!(commands[2], Command::FetchProgramLog { program: 2, capacity: 38 });
    assert_eq!(
        commands[3],
        abort(
            PipelineError::Link(LinkError { log: String::from(log) }),
            Objects { stages: vec![1], program: Some(2), buffer: None },
        )
    );
    assert!(!commands.iter().any(|c| matches!(c, Command::AllocateBuffer { .. })));
    assert_eq!(runner.phase(), Phase::Released);
}

#[test]
fn log_buffer_is_sized_to_the_reported_length() {
    let sized = |log_length: i32| {
        let failed = Reply::Status { object: 1, ok: false, log_length };
        let (_, mut commands) = feed(PipelineConfig::standard(), vec![Reply::Ready, failed]);
        commands.pop()
    };
    assert_eq!(sized(1), Some(Command::FetchStageLog { stage: 1, capacity: 1 }));
    assert_eq!(sized(200), Some(Command::FetchStageLog { stage: 1, capacity: 200 }));
    assert_eq!(sized(0), Some(Command::FetchStageLog { stage: 1, capacity: 0 }));
    assert_eq!(sized(-5), Some(Command::FetchStageLog { stage: 1, capacity: 0 }));
}

#[test]
fn read_map_is_never_asked_before_the_barrier() {
    let config = PipelineConfig::standard();
    let (runner, commands) = feed(
        config,
        vec![Reply::Ready, ok(1), ok(2), Reply::Allocated { buffer: 3 }, Reply::Done, Reply::Done, Reply::Done],
    );
    assert_eq!(runner.phase(), Phase::Dispatched);
    assert_eq!(commands.last(), Some(&Command::Barrier { kind: BarrierKind::BufferUpdate }));
    assert!(!commands.iter().any(|c| matches!(c, Command::ReadMapped { .. })));
    let (runner, command) = runner.step(Reply::Done);
    assert_eq!(command, Command::ReadMapped { buffer: 3, offset: 0, length: 120 });
    assert_eq!(runner.phase(), Phase::Readable);
}

#[test]
fn bytes_offered_before_the_barrier_end_the_run() {
    let config = PipelineConfig::standard();
    for taken in 0..8 {
        let mut replies =
            vec![Reply::Ready, ok(1), ok(2), Reply::Allocated { buffer: 3 }, Reply::Done, Reply::Done, Reply::Done, Reply::Done];
        replies.truncate(taken);
        let (runner, _) = feed(config, replies);
        let (runner, command) = runner.step(Reply::Bytes { data: vec![0; 120] });
        match command {
            Command::Abort { error, .. } => {
                assert_eq!(error, PipelineError::Protocol(ProtocolError::UnexpectedReply))
            }
            other => panic!("bytes were taken after {} replies: {:?}", taken, other),
        }
        assert_eq!(runner.phase(), Phase::Released);
    }
}

#[test]
fn barrier_that_does_not_cover_mapped_reads_ends_the_run() {
    let config = PipelineConfig { barrier_kind: BarrierKind::ShaderStorage, ..PipelineConfig::standard() };
    let (commands, phases) = run_to_end(config);
    assert_eq!(commands.len(), 8);
    assert_eq!(commands[6], Command::Barrier { kind: BarrierKind::ShaderStorage });
    assert_eq!(
        commands[7],
        abort(PipelineError::Protocol(ProtocolError::BarrierWithoutVisibility), all_objects())
    );
    assert!(!commands.iter().any(|c| matches!(c, Command::ReadMapped { .. })));
    assert_eq!(phases.last(), Some(&Phase::Released));
}

#[test]
fn released_runner_gives_up_on_everything() {
    let (commands, _) = run_to_end(PipelineConfig::standard());
    assert!(matches!(commands.last(), Some(Command::Finish { .. })));
    let replies = vec![
        Reply::Ready,
        ok(1),
        Reply::Log { text: String::from("late") },
        Reply::Allocated { buffer: 9 },
        Reply::Done,
        Reply::Bytes { data: vec![0; 120] },
        Reply::Refused,
    ];
    let (mut runner, _) = feed(
        PipelineConfig::standard(),
        vec![Reply::Ready, Reply::Status { object: 1, ok: false, log_length: 0 }, Reply::Log { text: String::new() }],
    );
    assert_eq!(runner.phase(), Phase::Released);
    for reply in replies {
        let (next, command) = runner.step(reply);
        assert_eq!(
            command,
            abort(PipelineError::Protocol(ProtocolError::UseAfterRelease), Objects::none())
        );
        assert_eq!(next.phase(), Phase::Released);
        runner = next;
    }
}

#[test]
fn second_release_acknowledgement_is_refused() {
    let config = PipelineConfig::standard();
    let mut memory = vec![0u8; 120];
    run_index_kernel(&mut memory, 10);
    let (runner, commands) = feed(
        config,
        vec![
            Reply::Ready,
            ok(1),
            ok(2),
            Reply::Allocated { buffer: 3 },
            Reply::Done,
            Reply::Done,
            Reply::Done,
            Reply::Done,
            Reply::Bytes { data: memory },
            Reply::Done,
            Reply::Done,
        ],
    );
    assert_eq!(commands[8], Command::Release { objects: all_objects() });
    assert!(matches!(commands[9], Command::Finish { .. }));
    assert_eq!(
        commands[10],
        abort(PipelineError::Protocol(ProtocolError::UseAfterRelease), Objects::none())
    );
    assert_eq!(runner.phase(), Phase::Released);
    let destroying = commands
        .iter()
        .filter(|c| match c {
            Command::Release { objects } | Command::Abort { objects, .. } => *objects != Objects::none(),
            _ => false,
        })
        .count();
    assert_eq!(destroying, 1);
}

#[test]
fn unexpected_reply_hands_over_what_the_run_owns() {
    let config = PipelineConfig::standard();
    let unexpected = |objects: Objects| abort(PipelineError::Protocol(ProtocolError::UnexpectedReply), objects);
    let (_, commands) = feed(config, vec![Reply::Done]);
    assert_eq!(commands[0], unexpected(Objects::none()));
    let (_, commands) = feed(config, vec![Reply::Ready, Reply::Done]);
    assert_eq!(commands[1], unexpected(Objects::none()));
    let (_, commands) = feed(config, vec![Reply::Ready, ok(1), Reply::Done]);
    assert_eq!(commands[2], unexpected(Objects { stages: vec![1], program: None, buffer: None }));
    let (_, commands) = feed(config, vec![Reply::Ready, ok(1), ok(2), Reply::Done]);
    assert_eq!(commands[3], unexpected(Objects { stages: vec![1], program: Some(2), buffer: None }));
    let (_, commands) =
        feed(config, vec![Reply::Ready, ok(1), ok(2), Reply::Allocated { buffer: 3 }, Reply::Ready]);
    assert_eq!(commands[4], unexpected(all_objects()));
}

#[test]
fn read_back_of_the_wrong_length_is_refused() {
    let config = PipelineConfig::standard();
    let (runner, commands) = feed(
        config,
        vec![
            Reply::Ready,
            ok(1),
            ok(2),
            Reply::Allocated { buffer: 3 },
            Reply::Done,
            Reply::Done,
            Reply::Done,
            Reply::Done,
            Reply::Bytes { data: vec![0; 119] },
        ],
    );
    assert_eq!(
        commands[8],
        abort(PipelineError::Protocol(ProtocolError::UnexpectedReply), all_objects())
    );
    assert_eq!(runner.phase(), Phase::Released);
}

#[test]
fn device_refusals_are_resource_errors() {
    let config = PipelineConfig::standard();
    let (_, commands) = feed(config, vec![Reply::Ready, ok(1), ok(2), Reply::Refused]);
    assert_eq!(
        commands[3],
        abort(
            PipelineError::Resource(ResourceError::AllocationRefused),
            Objects { stages: vec![1], program: Some(2), buffer: None },
        )
    );
    let (_, commands) =
        feed(config, vec![Reply::Ready, ok(1), ok(2), Reply::Allocated { buffer: 3 }, Reply::Refused]);
    assert_eq!(
        commands[4],
        abort(PipelineError::Resource(ResourceError::MappingRefused), all_objects())
    );
    let (_, commands) = feed(
        config,
        vec![
            Reply::Ready,
            ok(1),
            ok(2),
            Reply::Allocated { buffer: 3 },
            Reply::Done,
            Reply::Done,
            Reply::Done,
            Reply::Done,
            Reply::Refused,
        ],
    );
    assert_eq!(
        commands[8],
        abort(PipelineError::Resource(ResourceError::MappingRefused), all_objects())
    );
}

#[test]
fn buffer_too_large_for_a_device_is_a_resource_error() {
    let config = PipelineConfig { element_count: usize::MAX / 4, ..PipelineConfig::standard() };
    let (runner, commands) = feed(config, vec![Reply::Ready, ok(1), ok(2)]);
    assert_eq!(
        commands[2],
        abort(
            PipelineError::Resource(ResourceError::SizeOverflow),
            Objects { stages: vec![1], program: Some(2), buffer: None },
        )
    );
    assert_eq!(runner.phase(), Phase::Released);
}

#[test]
fn empty_buffer_runs_to_the_end() {
    let config = PipelineConfig {
        element_count: 0,
        dispatch_groups: GroupCounts { x: 0, y: 1, z: 1 },
        ..PipelineConfig::standard()
    };
    let (commands, _) = run_to_end(config);
    assert_eq!(commands[2], Command::AllocateBuffer { bytes: 0 });
    assert_eq!(commands.last(), Some(&Command::Finish { records: vec![] }));
}
