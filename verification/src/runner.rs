//! The pipeline as a state machine.
//!
//! A run is one walk through
//! `Uninitialized → Compiled → BufferAllocated → Bound → Dispatched → Readable → Released`.
//! The runner decides each step from the device's last answer; it never waits,
//! retries or goes back. [`step`] says in full what it decides, and
//! [`PipelineRunner::step`] is proved to do exactly that.

use vstd::prelude::*;
use crate::buffer::{spec_byte_size, zeros, AccessMode, BufferView, StructuredBuffer, Visibility};
use crate::dispatch::{BarrierKind, ComputeDispatcher, DispatcherView, GroupCounts};
use crate::error::{ErrorView, PipelineError, ProtocolError, ResourceError};
use crate::kernel::records_of;
use crate::program::{
    CompiledProgram, LinkReport, ProgramCompiler, ProgramView, StageHandle, StageReport, StageView,
};
use crate::protocol::{Command, CommandView, Objects, ObjectsView, Reply, ReplyView};
use crate::record::{Record, RECORD_BYTES};
use crate::source::{kernel_text, KernelInterface, ShaderSource, SourceView, StageKind};

verus! {

/// What one pipeline differs in from another.
#[derive(Debug, Clone, Copy, PartialEq, Eq, Structural)]
pub struct PipelineConfig {
    /// The slot that the buffer occupies.
    pub binding_slot: u32,
    /// The barrier issued after the dispatch.
    pub barrier_kind: BarrierKind,
    /// Work-group counts along x, y and z.
    pub dispatch_groups: GroupCounts,
    /// Invocations per work-group along x, declared by the kernel.
    pub local_size_x: u32,
    /// Elements in the buffer.
    pub element_count: usize,
}

impl PipelineConfig {
    /// What the pipeline's kernel declares.
    pub open spec fn spec_interface(self) -> KernelInterface {
        KernelInterface { local_size_x: self.local_size_x, binding_slot: self.binding_slot }
    }

    /// The kernel that this pipeline compiles.
    pub open spec fn spec_source(self) -> SourceView {
        SourceView {
            text: kernel_text(self.spec_interface(), self.element_count as nat),
            kind: StageKind::Compute,
            interface: self.spec_interface(),
        }
    }

    /// Ten elements at slot 0, one work-group of ten invocations, and the
    /// barrier that covers mapped reads.
    pub open spec fn spec_standard() -> PipelineConfig {
        PipelineConfig {
            binding_slot: 0,
            barrier_kind: BarrierKind::BufferUpdate,
            dispatch_groups: GroupCounts { x: 1, y: 1, z: 1 },
            local_size_x: 10,
            element_count: 10,
        }
    }

    /// The pipeline of ten elements at slot 0.
    pub fn standard() -> (config: PipelineConfig)
        ensures
            config == Self::spec_standard(),
    {
        PipelineConfig {
            binding_slot: 0,
            barrier_kind: BarrierKind::BufferUpdate,
            dispatch_groups: GroupCounts { x: 1, y: 1, z: 1 },
            local_size_x: 10,
            element_count: 10,
        }
    }

    /// What the pipeline's kernel declares.
    pub fn interface(&self) -> (interface: KernelInterface)
        ensures
            interface == self.spec_interface(),
    {
        KernelInterface { local_size_x: self.local_size_x, binding_slot: self.binding_slot }
    }

    /// The kernel that this pipeline compiles.
    pub fn source(&self) -> (source: ShaderSource)
        ensures
            source@ == self.spec_source(),
    {
        ShaderSource::index_kernel(self.interface(), self.element_count as u64)
    }
}

/// The states of a run.
#[derive(Debug, Clone, Copy, PartialEq, Eq, Structural)]
pub enum Phase {
    Uninitialized,
    Compiled,
    BufferAllocated,
    Bound,
    Dispatched,
    Readable,
    Released,
}

impl Phase {
    /// The place of the phase in a run.
    pub open spec fn rank(self) -> nat {
        match self {
            Phase::Uninitialized => 0,
            Phase::Compiled => 1,
            Phase::BufferAllocated => 2,
            Phase::Bound => 3,
            Phase::Dispatched => 4,
            Phase::Readable => 5,
            Phase::Released => 6,
        }
    }
}

/// Where a run stands: which command is outstanding, and what it owns.
pub enum CursorView {
    /// Nothing was asked of the device yet.
    Idle,
    /// `CompileStage` is outstanding for `source`.
    Compiling { source: SourceView },
    /// The stage did not compile; `FetchStageLog` is outstanding.
    StageLog { source: SourceView, stage_id: u32 },
    /// The stage compiled; `LinkProgram` is outstanding.
    Linking { stage: StageView },
    /// The program did not link; `FetchProgramLog` is outstanding.
    ProgramLog { stage: StageView, program_id: u32 },
    /// `AllocateBuffer` is outstanding.
    Allocating { program: ProgramView },
    /// `WriteMapped` is outstanding: the host's first values are on their way.
    Seeding { program: ProgramView, buffer: BufferView },
    /// `BindBuffer` is outstanding.
    Binding { program: ProgramView, buffer: BufferView },
    /// `Dispatch` is outstanding: the device may be writing the buffer.
    Dispatching { program: ProgramView, buffer: BufferView, dispatcher: DispatcherView },
    /// `Barrier` is outstanding.
    Fencing { program: ProgramView, buffer: BufferView, dispatcher: DispatcherView },
    /// `ReadMapped` is outstanding.
    Reading { program: ProgramView, buffer: BufferView },
    /// `Release` is outstanding; the elements read back are kept for the end.
    Releasing { records: Seq<Record> },
    /// The run is over and owns nothing.
    Released,
}

impl CursorView {
    /// The state that the cursor belongs to.
    pub open spec fn phase(self) -> Phase {
        match self {
            CursorView::Idle => Phase::Uninitialized,
            CursorView::Compiling { .. } => Phase::Uninitialized,
            CursorView::StageLog { .. } => Phase::Uninitialized,
            CursorView::Linking { .. } => Phase::Uninitialized,
            CursorView::ProgramLog { .. } => Phase::Uninitialized,
            CursorView::Allocating { .. } => Phase::Compiled,
            CursorView::Seeding { .. } => Phase::BufferAllocated,
            CursorView::Binding { .. } => Phase::BufferAllocated,
            CursorView::Dispatching { .. } => Phase::Bound,
            CursorView::Fencing { .. } => Phase::Dispatched,
            CursorView::Reading { .. } => Phase::Readable,
            CursorView::Releasing { .. } => Phase::Readable,
            CursorView::Released => Phase::Released,
        }
    }

    /// The device objects that the run owns at this point.
    pub open spec fn owned(self) -> ObjectsView {
        match self {
            CursorView::StageLog { stage_id, .. } => ObjectsView {
                stages: seq![stage_id],
                program: None,
                buffer: None,
            },
            CursorView::Linking { stage } => ObjectsView {
                stages: seq![stage.object],
                program: None,
                buffer: None,
            },
            CursorView::ProgramLog { stage, program_id } => ObjectsView {
                stages: seq![stage.object],
                program: Some(program_id),
                buffer: None,
            },
            CursorView::Allocating { program } => program_objects(program, None),
            CursorView::Seeding { program, buffer } => program_objects(program, Some(buffer.handle)),
            CursorView::Binding { program, buffer } => program_objects(program, Some(buffer.handle)),
            CursorView::Dispatching { program, buffer, .. } => program_objects(
                program,
                Some(buffer.handle),
            ),
            CursorView::Fencing { program, buffer, .. } => program_objects(
                program,
                Some(buffer.handle),
            ),
            CursorView::Reading { program, buffer } => program_objects(program, Some(buffer.handle)),
            _ => ObjectsView::none(),
        }
    }
}

/// The objects of a program, and a buffer's if there is one.
pub open spec fn program_objects(program: ProgramView, buffer: Option<u32>) -> ObjectsView {
    ObjectsView { stages: program.stage_objects(), program: Some(program.object), buffer }
}

/// A run: its configuration, and where it stands.
pub struct RunnerView {
    pub config: PipelineConfig,
    pub cursor: CursorView,
}

impl RunnerView {
    /// A run that has not begun.
    pub open spec fn initial(config: PipelineConfig) -> RunnerView {
        RunnerView { config, cursor: CursorView::Idle }
    }

    /// The state of the run.
    pub open spec fn phase(self) -> Phase {
        self.cursor.phase()
    }

    /// The run goes on: a new cursor, and the command that is now outstanding.
    pub open spec fn go(self, cursor: CursorView, command: CommandView) -> (
        RunnerView,
        CommandView,
    ) {
        (RunnerView { cursor, ..self }, command)
    }

    /// The run ends in failure: everything in `objects` is to be destroyed,
    /// and the runner owns nothing any more.
    pub open spec fn end(self, error: ErrorView, objects: ObjectsView) -> (
        RunnerView,
        CommandView,
    ) {
        (RunnerView { cursor: CursorView::Released, ..self }, CommandView::Abort { error, objects })
    }

    /// The reply does not answer the outstanding command.
    pub open spec fn unexpected(self) -> (RunnerView, CommandView) {
        self.end(ErrorView::Protocol(ProtocolError::UnexpectedReply), self.cursor.owned())
    }
}

/// The buffer as it is once the host's first values are written: `count`
/// elements of twelve bytes, every float zero.
pub open spec fn seeded(handle: u32, count: nat) -> BufferView {
    BufferView {
        handle,
        count,
        element_size: RECORD_BYTES as nat,
        bytes: zeros((count * RECORD_BYTES) as nat),
        mapping: None,
        visibility: Visibility::Coherent,
        slot: None,
    }
}

/// The dispatcher once the program is active and the buffer sits at the
/// configured slot.
pub open spec fn arranged(config: PipelineConfig, program: ProgramView, buffer: BufferView) -> DispatcherView {
    DispatcherView {
        active: Some(program.object),
        slots: Map::<u32, u32>::empty().insert(config.binding_slot, buffer.handle),
    }
}

/// What the runner decides: from where the run stands and what the device
/// answered, where the run stands next and what the device is asked next.
pub open spec fn transition(s: RunnerView, reply: ReplyView) -> (RunnerView, CommandView) {
    let count = s.config.element_count as nat;
    match s.cursor {
        CursorView::Idle => match reply {
            ReplyView::Ready => s.go(
                CursorView::Compiling { source: s.config.spec_source() },
                CommandView::CompileStage { source: s.config.spec_source() },
            ),
            _ => s.unexpected(),
        },
        CursorView::Compiling { source } => match reply {
            ReplyView::Status { object, ok, log_length } => if ok {
                s.go(
                    CursorView::Linking {
                        stage: StageView { object, kind: source.kind, interface: source.interface },
                    },
                    CommandView::LinkProgram { stages: seq![object] },
                )
            } else {
                s.go(
                    CursorView::StageLog { source, stage_id: object },
                    CommandView::FetchStageLog {
                        stage: object,
                        capacity: ProgramCompiler::spec_log_capacity(log_length as int),
                    },
                )
            },
            _ => s.unexpected(),
        },
        CursorView::StageLog { .. } => match reply {
            ReplyView::Log { text } => s.end(ErrorView::Compile(text), s.cursor.owned()),
            _ => s.unexpected(),
        },
        CursorView::Linking { stage } => match reply {
            ReplyView::Status { object, ok, log_length } => if ok {
                let program = ProgramView { object, stages: seq![stage] };
                match spec_byte_size(count, RECORD_BYTES as nat) {
                    Some(bytes) => s.go(
                        CursorView::Allocating { program },
                        CommandView::AllocateBuffer { bytes },
                    ),
                    None => s.end(
                        ErrorView::Resource(ResourceError::SizeOverflow),
                        program_objects(program, None),
                    ),
                }
            } else {
                s.go(
                    CursorView::ProgramLog { stage, program_id: object },
                    CommandView::FetchProgramLog {
                        program: object,
                        capacity: ProgramCompiler::spec_log_capacity(log_length as int),
                    },
                )
            },
            _ => s.unexpected(),
        },
        CursorView::ProgramLog { .. } => match reply {
            ReplyView::Log { text } => s.end(ErrorView::Link(text), s.cursor.owned()),
            _ => s.unexpected(),
        },
        CursorView::Allocating { program } => match reply {
            ReplyView::Allocated { buffer } => match spec_byte_size(count, RECORD_BYTES as nat) {
                Some(bytes) => s.go(
                    CursorView::Seeding { program, buffer: seeded(buffer, count) },
                    CommandView::WriteMapped { buffer, offset: 0, data: zeros(bytes) },
                ),
                None => s.end(
                    ErrorView::Resource(ResourceError::SizeOverflow),
                    program_objects(program, Some(buffer)),
                ),
            },
            ReplyView::Refused => s.end(
                ErrorView::Resource(ResourceError::AllocationRefused),
                s.cursor.owned(),
            ),
            _ => s.unexpected(),
        },
        CursorView::Seeding { program, buffer } => match reply {
            ReplyView::Done => s.go(
                CursorView::Binding { program, buffer },
                CommandView::BindBuffer { slot: s.config.binding_slot, buffer: buffer.handle },
            ),
            ReplyView::Refused => s.end(
                ErrorView::Resource(ResourceError::MappingRefused),
                s.cursor.owned(),
            ),
            _ => s.unexpected(),
        },
        CursorView::Binding { program, buffer } => match reply {
            ReplyView::Done => {
                let dispatcher = arranged(s.config, program, buffer);
                if dispatcher.ready(program, buffer) {
                    s.go(
                        CursorView::Dispatching {
                            program,
                            buffer: buffer.bound(s.config.binding_slot).dispatched(),
                            dispatcher,
                        },
                        CommandView::Dispatch {
                            program: program.object,
                            groups: s.config.dispatch_groups,
                        },
                    )
                } else {
                    s.end(
                        ErrorView::Protocol(ProtocolError::DispatchNotReady),
                        s.cursor.owned(),
                    )
                }
            },
            _ => s.unexpected(),
        },
        CursorView::Dispatching { program, buffer, dispatcher } => match reply {
            ReplyView::Done => s.go(
                CursorView::Fencing { program, buffer, dispatcher },
                CommandView::Barrier { kind: s.config.barrier_kind },
            ),
            _ => s.unexpected(),
        },
        CursorView::Fencing { program, buffer, dispatcher } => match reply {
            ReplyView::Done => {
                let fenced = buffer.fenced(s.config.barrier_kind.spec_covers_mapped_reads());
                if fenced.visibility == Visibility::Fenced {
                    s.go(
                        CursorView::Reading { program, buffer: fenced },
                        CommandView::ReadMapped {
                            buffer: buffer.handle,
                            offset: 0,
                            length: buffer.bytes.len(),
                        },
                    )
                } else {
                    s.end(
                        ErrorView::Protocol(ProtocolError::BarrierWithoutVisibility),
                        s.cursor.owned(),
                    )
                }
            },
            _ => s.unexpected(),
        },
        CursorView::Reading { program, buffer } => match reply {
            ReplyView::Bytes { data } => if buffer.can_refresh(data) && buffer.element_size
                == RECORD_BYTES {
                s.go(
                    CursorView::Releasing { records: records_of(data) },
                    CommandView::Release { objects: s.cursor.owned() },
                )
            } else {
                s.unexpected()
            },
            ReplyView::Refused => s.end(
                ErrorView::Resource(ResourceError::MappingRefused),
                s.cursor.owned(),
            ),
            _ => s.unexpected(),
        },
        CursorView::Releasing { records } => match reply {
            ReplyView::Done => s.go(CursorView::Released, CommandView::Finish { records }),
            _ => s.unexpected(),
        },
        CursorView::Released => s.end(
            ErrorView::Protocol(ProtocolError::UseAfterRelease),
            ObjectsView::none(),
        ),
    }
}

/// Storing the zero element into a region of zeros leaves it as it is.
proof fn zero_stays_zero(region: crate::buffer::RegionView, index: nat)
    requires
        region.stride == RECORD_BYTES,
        region.holds(index),
        region.bytes == zeros(region.bytes.len()),
    ensures
        region.with_element(index, Record::spec_of_index(0).spec_encode()) == region,
{
    let zero = Record::spec_of_index(0);
    zero.encode_round_trip();
    assert(zero.spec_encode() =~= zeros(12));
    assert(region.with_element(index, zero.spec_encode()).bytes =~= region.bytes);
}

#[derive(Debug)]
enum Cursor {
    Idle,
    Compiling { source: ShaderSource },
    StageLog { source: ShaderSource, stage_id: u32 },
    Linking { stage: StageHandle },
    ProgramLog { stage: StageHandle, program_id: u32 },
    Allocating { program: CompiledProgram },
    Seeding { program: CompiledProgram, buffer: StructuredBuffer },
    Binding { program: CompiledProgram, buffer: StructuredBuffer },
    Dispatching { program: CompiledProgram, buffer: StructuredBuffer, dispatcher: ComputeDispatcher },
    Fencing { program: CompiledProgram, buffer: StructuredBuffer, dispatcher: ComputeDispatcher },
    Reading { program: CompiledProgram, buffer: StructuredBuffer },
    Releasing { records: Vec<Record> },
    Released,
}

impl View for Cursor {
    type V = CursorView;

    closed spec fn view(&self) -> CursorView {
        match *self {
            Cursor::Idle => CursorView::Idle,
            Cursor::Compiling { source } => CursorView::Compiling { source: source@ },
            Cursor::StageLog { source, stage_id } => CursorView::StageLog {
                source: source@,
                stage_id,
            },
            Cursor::Linking { stage } => CursorView::Linking { stage: stage@ },
            Cursor::ProgramLog { stage, program_id } => CursorView::ProgramLog {
                stage: stage@,
                program_id,
            },
            Cursor::Allocating { program } => CursorView::Allocating { program: program@ },
            Cursor::Seeding { program, buffer } => CursorView::Seeding {
                program: program@,
                buffer: buffer@,
            },
            Cursor::Binding { program, buffer } => CursorView::Binding {
                program: program@,
                buffer: buffer@,
            },
            Cursor::Dispatching { program, buffer, dispatcher } => CursorView::Dispatching {
                program: program@,
                buffer: buffer@,
                dispatcher: dispatcher@,
            },
            Cursor::Fencing { program, buffer, dispatcher } => CursorView::Fencing {
                program: program@,
                buffer: buffer@,
                dispatcher: dispatcher@,
            },
            Cursor::Reading { program, buffer } => CursorView::Reading {
                program: program@,
                buffer: buffer@,
            },
            Cursor::Releasing { records } => CursorView::Releasing { records: records@ },
            Cursor::Released => CursorView::Released,
        }
    }
}

/// One run of the pipeline. It owns the program and the buffer from the
/// moment the device created them until it hands them over for destruction.
#[derive(Debug)]
pub struct PipelineRunner {
    config: PipelineConfig,
    cursor: Cursor,
}

impl View for PipelineRunner {
    type V = RunnerView;

    closed spec fn view(&self) -> RunnerView {
        RunnerView { config: self.config, cursor: self.cursor@ }
    }
}

fn end(config: PipelineConfig, error: PipelineError, objects: Objects) -> (next: (
    PipelineRunner,
    Command,
))
    ensures
        next.0@ == (RunnerView { config, cursor: CursorView::Released }),
        next.1@ == (CommandView::Abort { error: error@, objects: objects@ }),
{
    (PipelineRunner { config, cursor: Cursor::Released }, Command::Abort { error, objects })
}

fn unexpected(config: PipelineConfig, objects: Objects) -> (next: (PipelineRunner, Command))
    ensures
        next.0@ == (RunnerView { config, cursor: CursorView::Released }),
        next.1@ == (CommandView::Abort {
            error: ErrorView::Protocol(ProtocolError::UnexpectedReply),
            objects: objects@,
        }),
{
    end(config, PipelineError::Protocol(ProtocolError::UnexpectedReply), objects)
}

fn stage_only(stage_id: u32, program: Option<u32>) -> (objects: Objects)
    ensures
        objects@ == (ObjectsView { stages: seq![stage_id], program, buffer: None }),
{
    let mut stages: Vec<u32> = Vec::new();
    stages.push(stage_id);
    assert(stages@ =~= seq![stage_id]);
    Objects { stages, program, buffer: None }
}

fn all_of(program: CompiledProgram, buffer: Option<u32>) -> (objects: Objects)
    ensures
        objects@ == program_objects(program@, buffer),
{
    let parts = program.release();
    Objects { stages: parts.stages, program: Some(parts.program), buffer }
}

fn with_buffer(program: CompiledProgram, buffer: StructuredBuffer) -> (objects: Objects)
    ensures
        objects@ == program_objects(program@, Some(buffer@.handle)),
{
    let handle = buffer.release();
    all_of(program, Some(handle))
}

/// Writes the host's first values: every element zero, through a mapping for
/// writing over the whole buffer.
fn seed(buffer: &mut StructuredBuffer) -> (data: Vec<u8>)
    requires
        old(buffer)@.wf(),
        old(buffer)@.mapping is None,
        old(buffer)@.visibility == Visibility::Coherent,
        old(buffer)@.slot is None,
        old(buffer)@.element_size == RECORD_BYTES,
    ensures
        final(buffer)@ == seeded(old(buffer)@.handle, old(buffer)@.count),
        data@ == zeros((old(buffer)@.count * RECORD_BYTES) as nat),
{
    let count: usize = buffer.count();
    let length: usize = buffer.byte_len();
    let mut region = buffer.map(AccessMode::Write, 0, length);
    let ghost fresh = region@;
    let mut i: usize = 0;
    while i < count
        invariant
            i <= count,
            length == count * 12,
            region@ == fresh,
            fresh.stride == RECORD_BYTES,
            fresh.mode == AccessMode::Write,
            fresh.bytes == zeros(length as nat),
        decreases count - i,
    {
        proof {
            zero_stays_zero(fresh, i as nat);
        }
        region.write_record(i, Record::zero());
        i += 1;
    }
    let data = buffer.unmap(region);
    proof {
        assert(buffer@.bytes =~= zeros(length as nat));
    }
    data
}

/// Takes in what the device holds and reads every element through a mapping
/// for reading over the whole buffer.
fn read_back(buffer: &mut StructuredBuffer, data: Vec<u8>) -> (records: Vec<Record>)
    requires
        old(buffer)@.can_refresh(data@),
        old(buffer)@.element_size == RECORD_BYTES,
    ensures
        records@ == records_of(data@),
        final(buffer)@ == old(buffer)@.refreshed(data@),
{
    buffer.refresh(data);
    let count: usize = buffer.count();
    let length: usize = buffer.byte_len();
    let region = buffer.map(AccessMode::Read, 0, length);
    assert(region@.bytes =~= data@);
    let mut records: Vec<Record> = Vec::new();
    let mut i: usize = 0;
    while i < count
        invariant
            i <= count,
            length == count * 12,
            length == data@.len(),
            region@.bytes == data@,
            region@.stride == RECORD_BYTES,
            region@.mode == AccessMode::Read,
            records@ == records_of(data@).take(i as int),
        decreases count - i,
    {
        let record = region.read_record(i);
        records.push(record);
        i += 1;
        assert(records@ =~= records_of(data@).take(i as int));
    }
    assert(records@ =~= records_of(data@));
    let _ = buffer.unmap(region);
    records
}

impl PipelineRunner {
    /// A run that has not begun.
    pub fn new(config: PipelineConfig) -> (runner: PipelineRunner)
        ensures
            runner@ == RunnerView::initial(config),
    {
        PipelineRunner { config, cursor: Cursor::Idle }
    }

    pub fn config(&self) -> (config: PipelineConfig)
        ensures
            config == self@.config,
    {
        self.config
    }

    /// The state of the run.
    pub fn phase(&self) -> (phase: Phase)
        ensures
            phase == self@.phase(),
    {
        match &self.cursor {
            Cursor::Idle => Phase::Uninitialized,
            Cursor::Compiling { .. } => Phase::Uninitialized,
            Cursor::StageLog { .. } => Phase::Uninitialized,
            Cursor::Linking { .. } => Phase::Uninitialized,
            Cursor::ProgramLog { .. } => Phase::Uninitialized,
            Cursor::Allocating { .. } => Phase::Compiled,
            Cursor::Seeding { .. } => Phase::BufferAllocated,
            Cursor::Binding { .. } => Phase::BufferAllocated,
            Cursor::Dispatching { .. } => Phase::Bound,
            Cursor::Fencing { .. } => Phase::Dispatched,
            Cursor::Reading { .. } => Phase::Readable,
            Cursor::Releasing { .. } => Phase::Readable,
            Cursor::Released => Phase::Released,
        }
    }

    /// Takes the device's answer to the outstanding command and decides what
    /// comes next. Any answer is taken in any state: one that does not fit
    /// ends the run at once, with everything the run owns handed over for
    /// destruction.
    pub fn step(self, reply: Reply) -> (next: (PipelineRunner, Command))
        ensures
            (next.0@, next.1@) == transition(self@, reply@),
    {
        let config = self.config;
        match self.cursor {
            Cursor::Idle => Self::from_idle(config, reply),
            Cursor::Compiling { source } => Self::from_compiling(config, source, reply),
            Cursor::StageLog { source, stage_id } => Self::from_stage_log(
                config,
                source,
                stage_id,
                reply,
            ),
            Cursor::Linking { stage } => Self::from_linking(config, stage, reply),
            Cursor::ProgramLog { stage, program_id } => Self::from_program_log(
                config,
                stage,
                program_id,
                reply,
            ),
            Cursor::Allocating { program } => Self::from_allocating(config, program, reply),
            Cursor::Seeding { program, buffer } => Self::from_seeding(config, program, buffer, reply),
            Cursor::Binding { program, buffer } => Self::from_binding(config, program, buffer, reply),
            Cursor::Dispatching { program, buffer, dispatcher } => Self::from_dispatching(
                config,
                program,
                buffer,
                dispatcher,
                reply,
            ),
            Cursor::Fencing { program, buffer, dispatcher } => Self::from_fencing(
                config,
                program,
                buffer,
                dispatcher,
                reply,
            ),
            Cursor::Reading { program, buffer } => Self::from_reading(config, program, buffer, reply),
            Cursor::Releasing { records } => Self::from_releasing(config, records, reply),
            Cursor::Released => end(
                config,
                PipelineError::Protocol(ProtocolError::UseAfterRelease),
                Objects::none(),
            ),
        }
    }

    fn from_idle(config: PipelineConfig, reply: Reply) -> (next: (PipelineRunner, Command))
        ensures
            (next.0@, next.1@) == transition(RunnerView { config, cursor: CursorView::Idle }, reply@),
    {
        match reply {
            Reply::Ready => {
                let source = config.source();
                let copy = source.duplicate();
                (
                    PipelineRunner { config, cursor: Cursor::Compiling { source } },
                    Command::CompileStage { source: copy },
                )
            },
            _ => unexpected(config, Objects::none()),
        }
    }

    fn from_compiling(config: PipelineConfig, source: ShaderSource, reply: Reply) -> (next: (
        PipelineRunner,
        Command,
    ))
        ensures
            (next.0@, next.1@) == transition(
                RunnerView { config, cursor: CursorView::Compiling { source: source@ } },
                reply@,
            ),
    {
        match reply {
            Reply::Status { object, ok, log_length } => {
                if ok {
                    let report = StageReport { object, compiled: true, log: String::new() };
                    match ProgramCompiler::compile(&source, report) {
                        Ok(stage) => {
                            let mut stages: Vec<u32> = Vec::new();
                            stages.push(object);
                            assert(stages@ =~= seq![object]);
                            (
                                PipelineRunner { config, cursor: Cursor::Linking { stage } },
                                Command::LinkProgram { stages },
                            )
                        },
                        Err(_) => vstd::pervasive::unreached(),
                    }
                } else {
                    (
                        PipelineRunner {
                            config,
                            cursor: Cursor::StageLog { source, stage_id: object },
                        },
                        Command::FetchStageLog {
                            stage: object,
                            capacity: ProgramCompiler::log_capacity(log_length),
                        },
                    )
                }
            },
            _ => unexpected(config, Objects::none()),
        }
    }

    fn from_stage_log(
        config: PipelineConfig,
        source: ShaderSource,
        stage_id: u32,
        reply: Reply,
    ) -> (next: (PipelineRunner, Command))
        ensures
            (next.0@, next.1@) == transition(
                RunnerView {
                    config,
                    cursor: CursorView::StageLog { source: source@, stage_id },
                },
                reply@,
            ),
    {
        match reply {
            Reply::Log { text } => {
                let report = StageReport { object: stage_id, compiled: false, log: text };
                match ProgramCompiler::compile(&source, report) {
                    Ok(_) => vstd::pervasive::unreached(),
                    Err(error) => end(
                        config,
                        PipelineError::Compile(error),
                        stage_only(stage_id, None),
                    ),
                }
            },
            _ => unexpected(config, stage_only(stage_id, None)),
        }
    }

    fn from_linking(config: PipelineConfig, stage: StageHandle, reply: Reply) -> (next: (
        PipelineRunner,
        Command,
    ))
        ensures
            (next.0@, next.1@) == transition(
                RunnerView { config, cursor: CursorView::Linking { stage: stage@ } },
                reply@,
            ),
    {
        let stage_id: u32 = stage.object();
        match reply {
            Reply::Status { object, ok, log_length } => {
                if ok {
                    let report = LinkReport { object, linked: true, log: String::new() };
                    let mut stages: Vec<StageHandle> = Vec::new();
                    stages.push(stage);
                    assert(stages@.map_values(|s: StageHandle| s@) =~= seq![stage@]);
                    match ProgramCompiler::link(stages, report) {
                        Ok(program) => {
                            match StructuredBuffer::byte_size(config.element_count, RECORD_BYTES) {
                                Some(bytes) => (
                                    PipelineRunner { config, cursor: Cursor::Allocating { program } },
                                    Command::AllocateBuffer { bytes },
                                ),
                                None => end(
                                    config,
                                    PipelineError::Resource(ResourceError::SizeOverflow),
                                    all_of(program, None),
                                ),
                            }
                        },
                        Err(_) => vstd::pervasive::unreached(),
                    }
                } else {
                    (
                        PipelineRunner {
                            config,
                            cursor: Cursor::ProgramLog { stage, program_id: object },
                        },
                        Command::FetchProgramLog {
                            program: object,
                            capacity: ProgramCompiler::log_capacity(log_length),
                        },
                    )
                }
            },
            _ => unexpected(config, stage_only(stage_id, None)),
        }
    }

    fn from_program_log(
        config: PipelineConfig,
        stage: StageHandle,
        program_id: u32,
        reply: Reply,
    ) -> (next: (PipelineRunner, Command))
        ensures
            (next.0@, next.1@) == transition(
                RunnerView {
                    config,
                    cursor: CursorView::ProgramLog { stage: stage@, program_id },
                },
                reply@,
            ),
    {
        let stage_id: u32 = stage.object();
        match reply {
            Reply::Log { text } => {
                let report = LinkReport { object: program_id, linked: false, log: text };
                let mut stages: Vec<StageHandle> = Vec::new();
                stages.push(stage);
                match ProgramCompiler::link(stages, report) {
                    Ok(_) => vstd::pervasive::unreached(),
                    Err(error) => end(
                        config,
                        PipelineError::Link(error),
                        stage_only(stage_id, Some(program_id)),
                    ),
                }
            },
            _ => unexpected(config, stage_only(stage_id, Some(program_id))),
        }
    }

    fn from_allocating(config: PipelineConfig, program: CompiledProgram, reply: Reply) -> (next: (
        PipelineRunner,
        Command,
    ))
        ensures
            (next.0@, next.1@) == transition(
                RunnerView { config, cursor: CursorView::Allocating { program: program@ } },
                reply@,
            ),
    {
        match reply {
            Reply::Allocated { buffer: handle } => {
                match StructuredBuffer::allocate(handle, config.element_count, RECORD_BYTES) {
                    Ok(mut buffer) => {
                        let data = seed(&mut buffer);
                        (
                            PipelineRunner { config, cursor: Cursor::Seeding { program, buffer } },
                            Command::WriteMapped { buffer: handle, offset: 0, data },
                        )
                    },
                    Err(error) => end(
                        config,
                        PipelineError::Resource(error),
                        all_of(program, Some(handle)),
                    ),
                }
            },
            Reply::Refused => end(
                config,
                PipelineError::Resource(ResourceError::AllocationRefused),
                all_of(program, None),
            ),
            _ => unexpected(config, all_of(program, None)),
        }
    }

    fn from_seeding(
        config: PipelineConfig,
        program: CompiledProgram,
        buffer: StructuredBuffer,
        reply: Reply,
    ) -> (next: (PipelineRunner, Command))
        ensures
            (next.0@, next.1@) == transition(
                RunnerView {
                    config,
                    cursor: CursorView::Seeding { program: program@, buffer: buffer@ },
                },
                reply@,
            ),
    {
        match reply {
            Reply::Done => {
                let handle: u32 = buffer.handle();
                (
                    PipelineRunner { config, cursor: Cursor::Binding { program, buffer } },
                    Command::BindBuffer { slot: config.binding_slot, buffer: handle },
                )
            },
            Reply::Refused => end(
                config,
                PipelineError::Resource(ResourceError::MappingRefused),
                with_buffer(program, buffer),
            ),
            _ => unexpected(config, with_buffer(program, buffer)),
        }
    }

    fn from_binding(
        config: PipelineConfig,
        program: CompiledProgram,
        buffer: StructuredBuffer,
        reply: Reply,
    ) -> (next: (PipelineRunner, Command))
        ensures
            (next.0@, next.1@) == transition(
                RunnerView {
                    config,
                    cursor: CursorView::Binding { program: program@, buffer: buffer@ },
                },
                reply@,
            ),
    {
        match reply {
            Reply::Done => {
                let mut buffer = buffer;
                let mut dispatcher = ComputeDispatcher::new();
                dispatcher.bind(config.binding_slot, &mut buffer);
                dispatcher.use_program(&program);
                assert(dispatcher@ == arranged(config, program@, buffer@));
                if dispatcher.ready(&program, &buffer) {
                    let _ = dispatcher.dispatch(&program, &mut buffer, config.dispatch_groups);
                    let object: u32 = program.object();
                    (
                        PipelineRunner {
                            config,
                            cursor: Cursor::Dispatching { program, buffer, dispatcher },
                        },
                        Command::Dispatch { program: object, groups: config.dispatch_groups },
                    )
                } else {
                    end(
                        config,
                        PipelineError::Protocol(ProtocolError::DispatchNotReady),
                        with_buffer(program, buffer),
                    )
                }
            },
            _ => unexpected(config, with_buffer(program, buffer)),
        }
    }

    fn from_dispatching(
        config: PipelineConfig,
        program: CompiledProgram,
        buffer: StructuredBuffer,
        dispatcher: ComputeDispatcher,
        reply: Reply,
    ) -> (next: (PipelineRunner, Command))
        ensures
            (next.0@, next.1@) == transition(
                RunnerView {
                    config,
                    cursor: CursorView::Dispatching {
                        program: program@,
                        buffer: buffer@,
                        dispatcher: dispatcher@,
                    },
                },
                reply@,
            ),
    {
        match reply {
            Reply::Done => (
                PipelineRunner { config, cursor: Cursor::Fencing { program, buffer, dispatcher } },
                Command::Barrier { kind: config.barrier_kind },
            ),
            _ => unexpected(config, with_buffer(program, buffer)),
        }
    }

    fn from_fencing(
        config: PipelineConfig,
        program: CompiledProgram,
        buffer: StructuredBuffer,
        dispatcher: ComputeDispatcher,
        reply: Reply,
    ) -> (next: (PipelineRunner, Command))
        ensures
            (next.0@, next.1@) == transition(
                RunnerView {
                    config,
                    cursor: CursorView::Fencing {
                        program: program@,
                        buffer: buffer@,
                        dispatcher: dispatcher@,
                    },
                },
                reply@,
            ),
    {
        match reply {
            Reply::Done => {
                let mut buffer = buffer;
                dispatcher.barrier(&mut buffer, config.barrier_kind);
                if buffer.visibility() == Visibility::Fenced {
                    let handle: u32 = buffer.handle();
                    let length: usize = buffer.byte_len();
                    (
                        PipelineRunner { config, cursor: Cursor::Reading { program, buffer } },
                        Command::ReadMapped { buffer: handle, offset: 0, length },
                    )
                } else {
                    end(
                        config,
                        PipelineError::Protocol(ProtocolError::BarrierWithoutVisibility),
                        with_buffer(program, buffer),
                    )
                }
            },
            _ => unexpected(config, with_buffer(program, buffer)),
        }
    }

    fn from_reading(
        config: PipelineConfig,
        program: CompiledProgram,
        buffer: StructuredBuffer,
        reply: Reply,
    ) -> (next: (PipelineRunner, Command))
        ensures
            (next.0@, next.1@) == transition(
                RunnerView {
                    config,
                    cursor: CursorView::Reading { program: program@, buffer: buffer@ },
                },
                reply@,
            ),
    {
        match reply {
            Reply::Bytes { data } => {
                if buffer.can_refresh(&data) && buffer.element_size() == RECORD_BYTES {
                    let mut buffer = buffer;
                    let records = read_back(&mut buffer, data);
                    (
                        PipelineRunner { config, cursor: Cursor::Releasing { records } },
                        Command::Release { objects: with_buffer(program, buffer) },
                    )
                } else {
                    unexpected(config, with_buffer(program, buffer))
                }
            },
            Reply::Refused => end(
                config,
                PipelineError::Resource(ResourceError::MappingRefused),
                with_buffer(program, buffer),
            ),
            _ => unexpected(config, with_buffer(program, buffer)),
        }
    }

    fn from_releasing(config: PipelineConfig, records: Vec<Record>, reply: Reply) -> (next: (
        PipelineRunner,
        Command,
    ))
        ensures
            (next.0@, next.1@) == transition(
                RunnerView { config, cursor: CursorView::Releasing { records: records@ } },
                reply@,
            ),
    {
        match reply {
            Reply::Done => (
                PipelineRunner { config, cursor: Cursor::Released },
                Command::Finish { records },
            ),
            _ => unexpected(config, Objects::none()),
        }
    }
}

} // verus!
