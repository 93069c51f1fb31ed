//! What passes between the pipeline and the device.
//!
//! The pipeline never touches the device. It hands out a [`Command`], the
//! host boundary carries it out on the device, and what the device answered
//! comes back as a [`Reply`]. Both are plain values.

use vstd::prelude::*;
use crate::dispatch::{BarrierKind, GroupCounts};
use crate::error::{ErrorView, PipelineError};
use crate::record::Record;
use crate::source::{ShaderSource, SourceView};

verus! {

/// What the device answered to the command that was outstanding.
#[derive(Debug, Clone, PartialEq, Eq)]
pub enum Reply {
    /// A context is current and the device API is bound: the run may begin.
    Ready,
    /// The object that a compile or link request created, its status, and the
    /// length the device reports for its diagnostic log.
    Status { object: u32, ok: bool, log_length: i32 },
    /// A diagnostic log, as text without any terminator.
    Log { text: String },
    /// The buffer object that an allocation created.
    Allocated { buffer: u32 },
    /// A command that has no result was carried out.
    Done,
    /// The bytes seen through a mapping for reading.
    Bytes { data: Vec<u8> },
    /// The device could not allocate or map.
    Refused,
}

/// A reply, with text and bytes as sequences.
pub enum ReplyView {
    Ready,
    Status { object: u32, ok: bool, log_length: i32 },
    Log { text: Seq<char> },
    Allocated { buffer: u32 },
    Done,
    Bytes { data: Seq<u8> },
    Refused,
}

impl View for Reply {
    type V = ReplyView;

    open spec fn view(&self) -> ReplyView {
        match *self {
            Reply::Ready => ReplyView::Ready,
            Reply::Status { object, ok, log_length } => ReplyView::Status { object, ok, log_length },
            Reply::Log { text } => ReplyView::Log { text: text@ },
            Reply::Allocated { buffer } => ReplyView::Allocated { buffer },
            Reply::Done => ReplyView::Done,
            Reply::Bytes { data } => ReplyView::Bytes { data: data@ },
            Reply::Refused => ReplyView::Refused,
        }
    }
}

/// Device objects to destroy: each one named here is destroyed once.
#[derive(Debug, Clone, PartialEq, Eq)]
pub struct Objects {
    pub stages: Vec<u32>,
    pub program: Option<u32>,
    pub buffer: Option<u32>,
}

/// Device objects, with the stages as a sequence.
pub struct ObjectsView {
    pub stages: Seq<u32>,
    pub program: Option<u32>,
    pub buffer: Option<u32>,
}

impl View for Objects {
    type V = ObjectsView;

    open spec fn view(&self) -> ObjectsView {
        ObjectsView { stages: self.stages@, program: self.program, buffer: self.buffer }
    }
}

impl ObjectsView {
    /// No object at all.
    pub open spec fn none() -> ObjectsView {
        ObjectsView { stages: Seq::empty(), program: None, buffer: None }
    }

    /// Whether no object is named.
    pub open spec fn is_none(self) -> bool {
        self.stages.len() == 0 && self.program is None && self.buffer is None
    }
}

impl Objects {
    /// No object at all.
    pub fn none() -> (objects: Objects)
        ensures
            objects@ == ObjectsView::none(),
    {
        Objects { stages: Vec::new(), program: None, buffer: None }
    }
}

/// What the host boundary is to do next on the device.
#[derive(Debug, Clone, PartialEq, Eq)]
pub enum Command {
    /// Create a shader object for the source's stage kind, submit the text, compile.
    CompileStage { source: ShaderSource },
    /// Fetch the stage's diagnostic log into a buffer of `capacity` bytes.
    FetchStageLog { stage: u32, capacity: usize },
    /// Create a program object, attach the stages, link.
    LinkProgram { stages: Vec<u32> },
    /// Fetch the program's diagnostic log into a buffer of `capacity` bytes.
    FetchProgramLog { program: u32, capacity: usize },
    /// Reserve `bytes` bytes of device memory, uninitialised.
    AllocateBuffer { bytes: usize },
    /// Map the range for writing, store `data` through the mapping, unmap.
    WriteMapped { buffer: u32, offset: usize, data: Vec<u8> },
    /// Put the buffer at the slot.
    BindBuffer { slot: u32, buffer: u32 },
    /// Make the program active and dispatch the work-groups.
    Dispatch { program: u32, groups: GroupCounts },
    /// Issue a memory barrier.
    Barrier { kind: BarrierKind },
    /// Map the range for reading, hand its bytes back, unmap.
    ReadMapped { buffer: u32, offset: usize, length: usize },
    /// Destroy the objects; the run has what it came for.
    Release { objects: Objects },
    /// The run is over: these are the elements read back.
    Finish { records: Vec<Record> },
    /// The run failed: destroy the objects, report the error, stop.
    Abort { error: PipelineError, objects: Objects },
}

/// A command, with text, bytes and elements as sequences.
pub enum CommandView {
    CompileStage { source: SourceView },
    FetchStageLog { stage: u32, capacity: nat },
    LinkProgram { stages: Seq<u32> },
    FetchProgramLog { program: u32, capacity: nat },
    AllocateBuffer { bytes: nat },
    WriteMapped { buffer: u32, offset: nat, data: Seq<u8> },
    BindBuffer { slot: u32, buffer: u32 },
    Dispatch { program: u32, groups: GroupCounts },
    Barrier { kind: BarrierKind },
    ReadMapped { buffer: u32, offset: nat, length: nat },
    Release { objects: ObjectsView },
    Finish { records: Seq<Record> },
    Abort { error: ErrorView, objects: ObjectsView },
}

impl View for Command {
    type V = CommandView;

    open spec fn view(&self) -> CommandView {
        match *self {
            Command::CompileStage { source } => CommandView::CompileStage { source: source@ },
            Command::FetchStageLog { stage, capacity } => CommandView::FetchStageLog {
                stage,
                capacity: capacity as nat,
            },
            Command::LinkProgram { stages } => CommandView::LinkProgram { stages: stages@ },
            Command::FetchProgramLog { program, capacity } => CommandView::FetchProgramLog {
                program,
                capacity: capacity as nat,
            },
            Command::AllocateBuffer { bytes } => CommandView::AllocateBuffer { bytes: bytes as nat },
            Command::WriteMapped { buffer, offset, data } => CommandView::WriteMapped {
                buffer,
                offset: offset as nat,
                data: data@,
            },
            Command::BindBuffer { slot, buffer } => CommandView::BindBuffer { slot, buffer },
            Command::Dispatch { program, groups } => CommandView::Dispatch { program, groups },
            Command::Barrier { kind } => CommandView::Barrier { kind },
            Command::ReadMapped { buffer, offset, length } => CommandView::ReadMapped {
                buffer,
                offset: offset as nat,
                length: length as nat,
            },
            Command::Release { objects } => CommandView::Release { objects: objects@ },
            Command::Finish { records } => CommandView::Finish { records: records@ },
            Command::Abort { error, objects } => CommandView::Abort {
                error: error@,
                objects: objects@,
            },
        }
    }
}

impl CommandView {
    /// The device objects that the command asks to destroy.
    pub open spec fn destroys(self) -> ObjectsView {
        match self {
            CommandView::Release { objects } => objects,
            CommandView::Abort { objects, .. } => objects,
            _ => ObjectsView::none(),
        }
    }
}

} // verus!
