//! A minimal GPU compute pipeline, with the device kept behind plain values.
//!
//! One run compiles one compute kernel, allocates one structured buffer,
//! seeds it from the host, dispatches the kernel over it, issues a barrier,
//! reads the buffer back and releases everything. The device itself is not
//! touched here: [`runner::PipelineRunner`] hands out one
//! [`protocol::Command`] at a time and takes the device's
//! [`protocol::Reply`] back.
//!
//! - [`source`]: the kernel's text, written from the numbers it declares.
//! - [`program`]: what a compile or link answer means.
//! - [`record`]: one buffer element, three floats as bit patterns.
//! - [`buffer`]: the structured buffer and its host mappings.
//! - [`dispatch`]: binding slots, dispatch, barrier.
//! - [`kernel`]: what the kernel does to a buffer, carried out on the host.
//! - [`protocol`]: commands and replies.
//! - [`runner`]: the state machine of a run.
//! - [`laws`]: what holds of every run.
//! - [`error`]: how a run can fail.

pub mod error;
pub mod source;
pub mod program;
pub mod record;
pub mod buffer;
pub mod dispatch;
pub mod kernel;
pub mod protocol;
pub mod runner;
pub mod laws;
