//! The failures a pipeline run can end in.
//!
//! None of them is retried: each one travels to the top of the run, which
//! reports [`PipelineError::message`] and stops.

use vstd::prelude::*;
use vstd::string::*;

verus! {

/// The device compiler rejected a stage; `log` is its diagnostic text, untouched.
#[derive(Debug, Clone, PartialEq, Eq)]
pub struct CompileError {
    pub log: String,
}

/// The device linker rejected a program; `log` is its diagnostic text, untouched.
#[derive(Debug, Clone, PartialEq, Eq)]
pub struct LinkError {
    pub log: String,
}

/// The device could not provide memory.
#[derive(Debug, Clone, Copy, PartialEq, Eq, Structural)]
pub enum ResourceError {
    /// `count * element_size` is more than a device allocation can be.
    SizeOverflow,
    /// The device refused the allocation.
    AllocationRefused,
    /// The device refused to map the buffer.
    MappingRefused,
}

/// A call arrived out of order. This is a defect in the caller, never a
/// condition of the run.
#[derive(Debug, Clone, Copy, PartialEq, Eq, Structural)]
pub enum ProtocolError {
    /// The reply does not answer the command that is outstanding.
    UnexpectedReply,
    /// The barrier that was issued does not make device writes visible to
    /// mapped reads on the host.
    BarrierWithoutVisibility,
    /// A dispatch was asked for while the program was not the active one, or
    /// its buffer was not at the slot it declares.
    DispatchNotReady,
    /// The runner was driven after it had released its resources.
    UseAfterRelease,
}

/// Why a run ended early.
#[derive(Debug, Clone, PartialEq, Eq)]
pub enum PipelineError {
    Compile(CompileError),
    Link(LinkError),
    Resource(ResourceError),
    Protocol(ProtocolError),
}

/// What a [`PipelineError`] is, with each diagnostic log as a sequence of characters.
pub enum ErrorView {
    Compile(Seq<char>),
    Link(Seq<char>),
    Resource(ResourceError),
    Protocol(ProtocolError),
}

impl View for PipelineError {
    type V = ErrorView;

    open spec fn view(&self) -> ErrorView {
        match *self {
            PipelineError::Compile(e) => ErrorView::Compile(e.log@),
            PipelineError::Link(e) => ErrorView::Link(e.log@),
            PipelineError::Resource(e) => ErrorView::Resource(e),
            PipelineError::Protocol(e) => ErrorView::Protocol(e),
        }
    }
}

impl ErrorView {
    /// The one line shown to the operator: which stage failed, then the
    /// diagnostic text exactly as the device gave it.
    pub open spec fn message(self) -> Seq<char> {
        match self {
            ErrorView::Compile(log) => "Compile error: "@ + log,
            ErrorView::Link(log) => "Link error: "@ + log,
            ErrorView::Resource(ResourceError::SizeOverflow) => "Resource error: buffer size overflows"@,
            ErrorView::Resource(ResourceError::AllocationRefused) => "Resource error: allocation refused"@,
            ErrorView::Resource(ResourceError::MappingRefused) => "Resource error: mapping refused"@,
            ErrorView::Protocol(ProtocolError::UnexpectedReply) => "Protocol error: unexpected reply"@,
            ErrorView::Protocol(ProtocolError::BarrierWithoutVisibility) => "Protocol error: barrier does not cover mapped reads"@,
            ErrorView::Protocol(ProtocolError::DispatchNotReady) => "Protocol error: dispatch without program and buffer in place"@,
            ErrorView::Protocol(ProtocolError::UseAfterRelease) => "Protocol error: use after release"@,
        }
    }
}

impl PipelineError {
    /// Renders the error as the line the operator sees.
    pub fn message(&self) -> (line: String)
        ensures
            line@ == self@.message(),
    {
        match self {
            PipelineError::Compile(e) => String::from_str("Compile error: ").concat(e.log.as_str()),
            PipelineError::Link(e) => String::from_str("Link error: ").concat(e.log.as_str()),
            PipelineError::Resource(ResourceError::SizeOverflow) => String::from_str("Resource error: buffer size overflows"),
            PipelineError::Resource(ResourceError::AllocationRefused) => String::from_str("Resource error: allocation refused"),
            PipelineError::Resource(ResourceError::MappingRefused) => String::from_str("Resource error: mapping refused"),
            PipelineError::Protocol(ProtocolError::UnexpectedReply) => String::from_str("Protocol error: unexpected reply"),
            PipelineError::Protocol(ProtocolError::BarrierWithoutVisibility) => String::from_str("Protocol error: barrier does not cover mapped reads"),
            PipelineError::Protocol(ProtocolError::DispatchNotReady) => String::from_str("Protocol error: dispatch without program and buffer in place"),
            PipelineError::Protocol(ProtocolError::UseAfterRelease) => String::from_str("Protocol error: use after release"),
        }
    }
}

} // verus!
