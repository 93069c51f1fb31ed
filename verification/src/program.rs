//! Compiling a stage and linking a program.
//!
//! The device does the compiling and the linking. What is decided here is
//! what its answer means: a handle where it succeeded, its diagnostic log
//! where it did not, and how large the buffer for that log has to be.

use vstd::prelude::*;
use vstd::pervasive::runtime_assert;
use crate::error::{CompileError, LinkError};
use crate::source::{KernelInterface, ShaderSource, StageKind};

verus! {

/// What the device answered to a compile request.
#[derive(Debug, Clone, PartialEq, Eq)]
pub struct StageReport {
    /// The shader object that the device created for the stage.
    pub object: u32,
    /// Its compile status.
    pub compiled: bool,
    /// The diagnostic log, without any terminator; read only when `compiled` is false.
    pub log: String,
}

/// What the device answered to a link request.
#[derive(Debug, Clone, PartialEq, Eq)]
pub struct LinkReport {
    /// The program object that the device created.
    pub object: u32,
    /// Its link status.
    pub linked: bool,
    /// The diagnostic log, without any terminator; read only when `linked` is false.
    pub log: String,
}

/// A stage that compiled. There is no other way to obtain one than
/// [`ProgramCompiler::compile`] on a report of success.
#[derive(Debug, PartialEq, Eq)]
pub struct StageHandle {
    object: u32,
    kind: StageKind,
    interface: KernelInterface,
}

/// What a stage handle stands for.
pub struct StageView {
    pub object: u32,
    pub kind: StageKind,
    pub interface: KernelInterface,
}

impl View for StageHandle {
    type V = StageView;

    closed spec fn view(&self) -> StageView {
        StageView { object: self.object, kind: self.kind, interface: self.interface }
    }
}

/// A program whose stages all compiled and which linked. There is no other
/// way to obtain one than [`ProgramCompiler::link`] on a report of success.
#[derive(Debug, PartialEq, Eq)]
pub struct CompiledProgram {
    object: u32,
    stages: Vec<StageHandle>,
}

/// What a program stands for: its object and the stages it was linked from.
pub struct ProgramView {
    pub object: u32,
    pub stages: Seq<StageView>,
}

impl View for CompiledProgram {
    type V = ProgramView;

    closed spec fn view(&self) -> ProgramView {
        ProgramView { object: self.object, stages: self.stages@.map_values(|s: StageHandle| s@) }
    }
}

impl ProgramView {
    /// The shader objects of the program's stages, in order.
    pub open spec fn stage_objects(self) -> Seq<u32> {
        Seq::new(self.stages.len(), |i: int| self.stages[i].object)
    }
}

/// The device objects that a program owned, handed over for destruction.
#[derive(Debug, Clone, PartialEq, Eq)]
pub struct ProgramObjects {
    pub program: u32,
    pub stages: Vec<u32>,
}

impl StageHandle {
    pub fn object(&self) -> (object: u32)
        ensures
            object == self@.object,
    {
        self.object
    }

    pub fn kind(&self) -> (kind: StageKind)
        ensures
            kind == self@.kind,
    {
        self.kind
    }

    pub fn interface(&self) -> (interface: KernelInterface)
        ensures
            interface == self@.interface,
    {
        self.interface
    }
}

impl CompiledProgram {
    pub fn object(&self) -> (object: u32)
        ensures
            object == self@.object,
    {
        self.object
    }

    /// How many stages the program was linked from.
    pub fn stage_count(&self) -> (n: usize)
        ensures
            n == self@.stages.len(),
    {
        self.stages.len()
    }

    /// The stage at `index`, in the order in which the stages were linked.
    pub fn stage(&self, index: usize) -> (stage: &StageHandle)
        requires
            index < self@.stages.len(),
        ensures
            stage@ == self@.stages[index as int],
    {
        runtime_assert(index < self.stages.len());
        &self.stages[index]
    }

    /// Gives up the program. The value is consumed, so nothing can use or
    /// release it a second time; what comes back is each device object it
    /// owned, once.
    pub fn release(self) -> (objects: ProgramObjects)
        ensures
            objects.program == self@.object,
            objects.stages@ == self@.stage_objects(),
    {
        let mut ids: Vec<u32> = Vec::new();
        let mut i: usize = 0;
        while i < self.stages.len()
            invariant
                i <= self.stages.len(),
                ids@ == self@.stage_objects().take(i as int),
            decreases self.stages.len() - i,
        {
            ids.push(self.stages[i].object);
            i += 1;
            assert(ids@ =~= self@.stage_objects().take(i as int));
        }
        assert(ids@ =~= self@.stage_objects());
        ProgramObjects { program: self.object, stages: ids }
    }
}

/// Interprets the device's answers to compile and link requests.
pub struct ProgramCompiler;

impl ProgramCompiler {
    /// The size of the buffer into which a diagnostic log is fetched: exactly
    /// the length that the device reported, and nothing for a length that is
    /// not positive.
    pub open spec fn spec_log_capacity(reported: int) -> nat {
        if reported > 0 {
            reported as nat
        } else {
            0
        }
    }

    /// The size of the buffer for a log whose length the device reported.
    pub fn log_capacity(reported: i32) -> (capacity: usize)
        ensures
            capacity == Self::spec_log_capacity(reported as int),
    {
        if reported > 0 {
            reported as usize
        } else {
            0
        }
    }

    /// A compile request's outcome. A stage handle comes out exactly when the
    /// device reported success; otherwise the error carries the device's log
    /// as it was given.
    pub fn compile(source: &ShaderSource, report: StageReport) -> (result: Result<
        StageHandle,
        CompileError,
    >)
        ensures
            report.compiled ==> result is Ok && result->Ok_0@ == (StageView {
                object: report.object,
                kind: source@.kind,
                interface: source@.interface,
            }),
            !report.compiled ==> result is Err && result->Err_0.log@ == report.log@,
    {
        if report.compiled {
            Ok(StageHandle { object: report.object, kind: source.kind(), interface: source.interface() })
        } else {
            Err(CompileError { log: report.log })
        }
    }

    /// A link request's outcome. A program comes out exactly when the device
    /// reported success, and then it owns the stages it was linked from;
    /// otherwise the error carries the device's log as it was given.
    pub fn link(stages: Vec<StageHandle>, report: LinkReport) -> (result: Result<
        CompiledProgram,
        LinkError,
    >)
        ensures
            report.linked ==> result is Ok && result->Ok_0@ == (ProgramView {
                object: report.object,
                stages: stages@.map_values(|s: StageHandle| s@),
            }),
            !report.linked ==> result is Err && result->Err_0.log@ == report.log@,
    {
        if report.linked {
            Ok(CompiledProgram { object: report.object, stages })
        } else {
            Err(LinkError { log: report.log })
        }
    }
}

} // verus!
