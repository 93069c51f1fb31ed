//! Binding, dispatch and barrier.
//!
//! The dispatcher knows which program is active and which buffer sits at
//! which slot. A dispatch leaves the buffer it may write pending; only a
//! barrier of a kind that covers mapped reads lifts that again.

use vstd::prelude::*;
use vstd::pervasive::runtime_assert;
use std::collections::HashMap;
use crate::buffer::{BufferView, StructuredBuffer};
use crate::program::{CompiledProgram, ProgramView};

verus! {

broadcast use vstd::std_specs::hash::group_hash_axioms;

/// The kinds of memory barrier a pipeline can be configured with.
#[derive(Debug, Clone, Copy, PartialEq, Eq, Structural)]
pub enum BarrierKind {
    /// Orders shader writes before later reads and writes of the buffer
    /// through the host's update and mapping calls.
    BufferUpdate,
    /// Orders shader writes before later shader accesses to storage buffers.
    ShaderStorage,
    /// Every barrier at once.
    All,
}

impl BarrierKind {
    /// Whether writes made by shader invocations before a barrier of this
    /// kind are visible to mapped reads on the host after it.
    pub open spec fn spec_covers_mapped_reads(self) -> bool {
        self == BarrierKind::BufferUpdate || self == BarrierKind::All
    }

    #[verifier::when_used_as_spec(spec_covers_mapped_reads)]
    pub fn covers_mapped_reads(self) -> (covers: bool)
        ensures
            covers == self.spec_covers_mapped_reads(),
    {
        match self {
            BarrierKind::BufferUpdate => true,
            BarrierKind::ShaderStorage => false,
            BarrierKind::All => true,
        }
    }
}

/// Work-group counts along the three axes of a dispatch.
#[derive(Debug, Clone, Copy, PartialEq, Eq, Structural)]
pub struct GroupCounts {
    pub x: u32,
    pub y: u32,
    pub z: u32,
}

impl GroupCounts {
    /// The number of work-groups that a dispatch issues.
    pub open spec fn spec_total(self) -> nat {
        (self.x * self.y * self.z) as nat
    }

    /// The number of invocations with distinct x index, where each group
    /// runs `local_size_x` of them: none if the dispatch is empty.
    pub open spec fn spec_invocations_x(self, local_size_x: u32) -> nat {
        if self.y == 0 || self.z == 0 {
            0
        } else {
            (self.x * local_size_x) as nat
        }
    }

    /// The number of work-groups that a dispatch issues; it always fits.
    pub fn total(&self) -> (groups: u128)
        ensures
            groups == self.spec_total(),
    {
        let x: u128 = self.x as u128;
        let y: u128 = self.y as u128;
        let z: u128 = self.z as u128;
        assert(x * y <= 0xffff_ffff * 0xffff_ffff) by (nonlinear_arith)
            requires
                x <= 0xffff_ffff,
                y <= 0xffff_ffff,
        ;
        assert(x * y * z <= 0xffff_ffff * 0xffff_ffff * 0xffff_ffff) by (nonlinear_arith)
            requires
                x * y <= 0xffff_ffff * 0xffff_ffff,
                z <= 0xffff_ffff,
        ;
        x * y * z
    }

    /// The number of invocations with distinct x index; it always fits.
    pub fn invocations_x(&self, local_size_x: u32) -> (invocations: u64)
        ensures
            invocations == self.spec_invocations_x(local_size_x),
    {
        if self.y == 0 || self.z == 0 {
            0
        } else {
            let x: u64 = self.x as u64;
            let l: u64 = local_size_x as u64;
            assert(x * l <= 0xffff_ffff * 0xffff_ffff) by (nonlinear_arith)
                requires
                    x <= 0xffff_ffff,
                    l <= 0xffff_ffff,
            ;
            x * l
        }
    }
}

/// Which program is active and which buffer occupies which slot.
#[derive(Debug)]
pub struct ComputeDispatcher {
    active: Option<u32>,
    slots: HashMap<u32, u32>,
}

/// What a dispatcher knows.
pub struct DispatcherView {
    /// The object of the active program.
    pub active: Option<u32>,
    /// For each occupied slot, the handle of the one buffer at it.
    pub slots: Map<u32, u32>,
}

impl View for ComputeDispatcher {
    type V = DispatcherView;

    closed spec fn view(&self) -> DispatcherView {
        DispatcherView { active: self.active, slots: self.slots@ }
    }
}

impl DispatcherView {
    /// What a dispatch needs: `program` is the active one, and at the slot
    /// that each of its stages declares sits `buffer`.
    pub open spec fn ready(self, program: ProgramView, buffer: BufferView) -> bool {
        &&& self.active == Some(program.object)
        &&& forall|i: int|
            0 <= i < program.stages.len() ==> {
                let slot = #[trigger] program.stages[i].interface.binding_slot;
                self.slots.contains_key(slot) && self.slots[slot] == buffer.handle
            }
    }
}

impl ComputeDispatcher {
    /// A dispatcher with no active program and every slot empty.
    pub fn new() -> (dispatcher: ComputeDispatcher)
        ensures
            dispatcher@ == (DispatcherView { active: None, slots: Map::empty() }),
    {
        ComputeDispatcher { active: None, slots: HashMap::new() }
    }

    /// Makes `program` the active one.
    pub fn use_program(&mut self, program: &CompiledProgram)
        ensures
            final(self)@ == (DispatcherView { active: Some(program@.object), ..old(self)@ }),
    {
        self.active = Some(program.object());
    }

    /// Puts `buffer` at `slot`. Whatever sat there before is replaced; every
    /// other slot keeps its buffer.
    pub fn bind(&mut self, slot: u32, buffer: &mut StructuredBuffer)
        ensures
            final(self)@ == (DispatcherView {
                slots: old(self)@.slots.insert(slot, old(buffer)@.handle),
                ..old(self)@
            }),
            final(buffer)@ == old(buffer)@.bound(slot),
    {
        self.slots.insert(slot, buffer.handle());
        buffer.note_binding(slot);
    }

    /// The handle of the buffer at `slot`, if there is one.
    pub fn bound_at(&self, slot: u32) -> (handle: Option<u32>)
        ensures
            handle == (if self@.slots.contains_key(slot) {
                Some(self@.slots[slot])
            } else {
                None
            }),
    {
        match self.slots.get(&slot) {
            Some(handle) => Some(*handle),
            None => None,
        }
    }

    /// Whether [`ComputeDispatcher::dispatch`] may be called with these arguments.
    pub fn ready(&self, program: &CompiledProgram, buffer: &StructuredBuffer) -> (ready: bool)
        ensures
            ready == self@.ready(program@, buffer@),
    {
        match self.active {
            Some(object) => {
                if object != program.object() {
                    return false;
                }
            },
            None => {
                return false;
            },
        }
        let n: usize = program.stage_count();
        let mut i: usize = 0;
        while i < n
            invariant
                i <= n,
                n == program@.stages.len(),
                self@.active == Some(program@.object),
                forall|j: int|
                    0 <= j < i ==> {
                        let slot = #[trigger] program@.stages[j].interface.binding_slot;
                        self@.slots.contains_key(slot) && self@.slots[slot] == buffer@.handle
                    },
            decreases n - i,
        {
            let slot: u32 = program.stage(i).interface().binding_slot;
            match self.bound_at(slot) {
                Some(handle) => {
                    if handle != buffer.handle() {
                        return false;
                    }
                },
                None => {
                    return false;
                },
            }
            i += 1;
        }
        true
    }

    /// Issues `groups.x * groups.y * groups.z` work-groups of the active
    /// program. From here on the device may be writing `buffer`.
    ///
    /// A dispatch without the program active and the buffer in place has no
    /// meaning: `requires` rules it out, and a caller that no verifier has
    /// seen is stopped when the program runs.
    pub fn dispatch(
        &self,
        program: &CompiledProgram,
        buffer: &mut StructuredBuffer,
        groups: GroupCounts,
    ) -> (issued: u128)
        requires
            self@.ready(program@, old(buffer)@),
        ensures
            issued == groups.spec_total(),
            final(buffer)@ == old(buffer)@.dispatched(),
    {
        runtime_assert(self.ready(program, buffer));
        buffer.note_dispatch();
        groups.total()
    }

    /// Issues a barrier of the given kind. The buffer's pending writes become
    /// visible exactly if the kind covers mapped reads on the host.
    pub fn barrier(&self, buffer: &mut StructuredBuffer, kind: BarrierKind)
        ensures
            final(buffer)@ == old(buffer)@.fenced(kind.spec_covers_mapped_reads()),
    {
        buffer.note_barrier(kind.covers_mapped_reads());
    }
}

} // verus!
