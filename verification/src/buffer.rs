//! A structured buffer and its host mappings.
//!
//! The buffer lives on the device. What is kept here is the host's picture
//! of it: its size and layout, the bytes the host last wrote or saw, whether
//! a mapping is outstanding, and whether the device may have written since.
//! A mapping is a [`MappedRegion`], a value of its own: unmapping consumes it,
//! so nothing can touch it afterwards.
//!
//! Calls that would break the order of things are ruled out by `requires`.
//! A caller that no verifier has seen is held to the same conditions when the
//! program runs: each such call tests its condition first and stops the
//! program if it fails.

use vstd::prelude::*;
use vstd::pervasive::runtime_assert;
use crate::error::ResourceError;
use crate::record::{Record, RECORD_BYTES};

verus! {

/// What a mapping may do with the bytes it exposes.
#[derive(Debug, Clone, Copy, PartialEq, Eq, Structural)]
pub enum AccessMode {
    Read,
    Write,
}

/// Whether the host's picture of the buffer can be trusted.
#[derive(Debug, Clone, Copy, PartialEq, Eq, Structural)]
pub enum Visibility {
    /// The host's bytes are the device's bytes.
    Coherent,
    /// A dispatch was issued; the device may be writing, and no barrier has
    /// been issued since.
    Pending,
    /// A barrier made the device's writes visible; the host has not yet
    /// taken them in.
    Fenced,
}

/// The byte range and mode of an outstanding mapping.
pub struct Mapping {
    pub mode: AccessMode,
    pub offset: nat,
    pub length: nat,
}

/// What a mapping exposes: a run of bytes, and where it comes from.
pub struct RegionView {
    /// The buffer the region was mapped from.
    pub buffer: u32,
    pub mode: AccessMode,
    /// Where in the buffer the region starts.
    pub offset: nat,
    /// Bytes from one element to the next.
    pub stride: nat,
    pub bytes: Seq<u8>,
}

/// The host's picture of a buffer.
pub struct BufferView {
    pub handle: u32,
    pub count: nat,
    pub element_size: nat,
    pub bytes: Seq<u8>,
    pub mapping: Option<Mapping>,
    pub visibility: Visibility,
    /// The slot the buffer was last put at; none until it is bound.
    pub slot: Option<u32>,
}

/// `length` zero bytes.
pub open spec fn zeros(length: nat) -> Seq<u8> {
    Seq::new(length, |i: int| 0u8)
}

impl RegionView {
    /// Whether element `index` lies wholly inside the region.
    pub open spec fn holds(self, index: nat) -> bool {
        (index + 1) * self.stride <= self.bytes.len()
    }

    /// Element `index`: the bytes `[index * stride, (index + 1) * stride)`.
    pub open spec fn element(self, index: nat) -> Seq<u8> {
        self.bytes.subrange((index * self.stride) as int, ((index + 1) * self.stride) as int)
    }

    /// The region with element `index` replaced and every other byte kept.
    pub open spec fn with_element(self, index: nat, element: Seq<u8>) -> RegionView {
        RegionView {
            bytes: self.bytes.subrange(0, (index * self.stride) as int) + element + self.bytes.subrange(
                ((index + 1) * self.stride) as int,
                self.bytes.len() as int,
            ),
            ..self
        }
    }
}

impl BufferView {
    /// The size agrees with the layout, and a mapping lies inside the buffer.
    pub open spec fn wf(self) -> bool {
        &&& self.bytes.len() == self.count * self.element_size
        &&& self.mapping matches Some(m) ==> m.offset + m.length <= self.bytes.len()
    }

    /// When a mapping may be made: none is outstanding, the range lies inside
    /// the buffer, and a mapping for reading is made only while the host's
    /// picture is coherent, that is, never between a dispatch and the barrier
    /// and hand-over that follow it.
    pub open spec fn can_map(self, mode: AccessMode, offset: nat, length: nat) -> bool {
        &&& self.mapping is None
        &&& offset + length <= self.bytes.len()
        &&& mode == AccessMode::Read ==> self.visibility == Visibility::Coherent
    }

    /// The buffer with the mapping recorded, and the region that the mapping
    /// exposes. A region for writing starts out as zeros: what the buffer held
    /// in that range is given up. A region for reading holds the range.
    pub open spec fn map(self, mode: AccessMode, offset: nat, length: nat) -> (
        BufferView,
        RegionView,
    ) {
        (
            BufferView { mapping: Some(Mapping { mode, offset, length }), ..self },
            RegionView {
                buffer: self.handle,
                mode,
                offset,
                stride: self.element_size,
                bytes: if mode == AccessMode::Write {
                    zeros(length)
                } else {
                    self.bytes.subrange(offset as int, (offset + length) as int)
                },
            },
        )
    }

    /// Whether `region` is this buffer's outstanding mapping.
    pub open spec fn owns(self, region: RegionView) -> bool {
        &&& region.buffer == self.handle
        &&& region.stride == self.element_size
        &&& self.mapping == Some(
            Mapping { mode: region.mode, offset: region.offset, length: region.bytes.len() },
        )
    }

    /// The buffer after the mapping ended. What was written through a mapping
    /// for writing is now the buffer's content in that range, and no other
    /// byte changed; a mapping for reading changes nothing.
    pub open spec fn unmap(self, region: RegionView) -> BufferView {
        BufferView {
            mapping: None,
            bytes: if region.mode == AccessMode::Write {
                self.bytes.subrange(0, region.offset as int) + region.bytes + self.bytes.subrange(
                    (region.offset + region.bytes.len()) as int,
                    self.bytes.len() as int,
                )
            } else {
                self.bytes
            },
            ..self
        }
    }

    /// The buffer after it was put at `slot`.
    pub open spec fn bound(self, slot: u32) -> BufferView {
        BufferView { slot: Some(slot), ..self }
    }

    /// The buffer after a dispatch that may write it.
    pub open spec fn dispatched(self) -> BufferView {
        BufferView { visibility: Visibility::Pending, ..self }
    }

    /// The buffer after a barrier; `covers` says whether the barrier is of a
    /// kind that makes device writes visible to mapped reads on the host.
    pub open spec fn fenced(self, covers: bool) -> BufferView {
        if self.visibility == Visibility::Pending && covers {
            BufferView { visibility: Visibility::Fenced, ..self }
        } else {
            self
        }
    }

    /// When the device's bytes may be taken in: after a barrier, with no
    /// mapping outstanding, and for the whole buffer.
    pub open spec fn can_refresh(self, device: Seq<u8>) -> bool {
        &&& self.visibility == Visibility::Fenced
        &&& self.mapping is None
        &&& device.len() == self.bytes.len()
    }

    /// The buffer after the device's bytes were taken in.
    pub open spec fn refreshed(self, device: Seq<u8>) -> BufferView {
        BufferView { bytes: device, visibility: Visibility::Coherent, ..self }
    }
}

/// The byte size of `count` elements of `element_size` bytes, where a device
/// allocation can be that large.
pub open spec fn spec_byte_size(count: nat, element_size: nat) -> Option<nat> {
    if count * element_size <= isize::MAX {
        Some(count * element_size)
    } else {
        None
    }
}

/// A view over a byte range of a buffer, valid from map to unmap.
#[derive(Debug, PartialEq, Eq)]
pub struct MappedRegion {
    buffer: u32,
    mode: AccessMode,
    offset: usize,
    stride: usize,
    bytes: Vec<u8>,
}

impl View for MappedRegion {
    type V = RegionView;

    closed spec fn view(&self) -> RegionView {
        RegionView {
            buffer: self.buffer,
            mode: self.mode,
            offset: self.offset as nat,
            stride: self.stride as nat,
            bytes: self.bytes@,
        }
    }
}

proof fn element_bounds(index: nat, stride: nat, length: nat)
    requires
        (index + 1) * stride <= length,
    ensures
        index * stride + stride == (index + 1) * stride,
        0 <= index * stride <= (index + 1) * stride,
{
    assert(index * stride + stride == (index + 1) * stride) by (nonlinear_arith);
    assert(0 <= index * stride) by (nonlinear_arith);
}

/// What the host writes, it reads back: after a mapping for writing is
/// unmapped, a mapping for reading over the same range may be made and holds
/// exactly the bytes that the write mapping held, whatever they are, as long
/// as no dispatch came in between.
pub proof fn host_write_reads_back(buffer: BufferView, offset: nat, written: Seq<u8>)
    requires
        buffer.wf(),
        buffer.visibility == Visibility::Coherent,
        buffer.can_map(AccessMode::Write, offset, written.len()),
    ensures
        ({
            let (mapped, fresh) = buffer.map(AccessMode::Write, offset, written.len());
            let region = RegionView { bytes: written, ..fresh };
            let after = mapped.unmap(region);
            &&& mapped.owns(region)
            &&& after.wf()
            &&& after.can_map(AccessMode::Read, offset, written.len())
            &&& after.map(AccessMode::Read, offset, written.len()).1.bytes == written
        }),
{
    let (mapped, fresh) = buffer.map(AccessMode::Write, offset, written.len());
    let region = RegionView { bytes: written, ..fresh };
    let after = mapped.unmap(region);
    assert(after.bytes.len() == buffer.bytes.len());
    assert(after.map(AccessMode::Read, offset, written.len()).1.bytes =~= written);
}

/// No mapping for reading between a dispatch and its barrier. Once a
/// dispatch was issued, no range of the buffer can be mapped for reading:
/// not before a barrier, not after a barrier of a kind that does not cover
/// mapped reads, and not before the device's bytes were taken in. After a
/// covering barrier and the hand-over of the device's bytes, reading is open
/// again, and what is read is what the device held.
pub proof fn read_waits_for_barrier(
    buffer: BufferView,
    offset: nat,
    length: nat,
    device: Seq<u8>,
)
    requires
        buffer.wf(),
        buffer.mapping is None,
        offset + length <= buffer.bytes.len(),
        device.len() == buffer.bytes.len(),
    ensures
        !buffer.dispatched().can_map(AccessMode::Read, offset, length),
        !buffer.dispatched().fenced(false).can_map(AccessMode::Read, offset, length),
        !buffer.dispatched().fenced(true).can_map(AccessMode::Read, offset, length),
        !buffer.dispatched().can_refresh(device),
        !buffer.dispatched().fenced(false).can_refresh(device),
        buffer.dispatched().fenced(true).can_refresh(device),
        ({
            let seen = buffer.dispatched().fenced(true).refreshed(device);
            &&& seen.can_map(AccessMode::Read, offset, length)
            &&& seen.map(AccessMode::Read, offset, length).1.bytes == device.subrange(
                offset as int,
                (offset + length) as int,
            )
        }),
{
}

/// Bytes outside a write mapping's range are untouched by it.
pub proof fn host_write_keeps_the_rest(buffer: BufferView, region: RegionView, at: int)
    requires
        buffer.wf(),
        buffer.owns(region),
        0 <= at < buffer.bytes.len(),
        at < region.offset || at >= region.offset + region.bytes.len(),
    ensures
        buffer.unmap(region).bytes.len() == buffer.bytes.len(),
        buffer.unmap(region).bytes[at] == buffer.bytes[at],
{
}

/// A stored element is the element loaded at the same index, every other
/// element is as before, and the region keeps its length.
pub proof fn element_store_load(region: RegionView, index: nat, element: Seq<u8>, other: nat)
    requires
        region.holds(index),
        element.len() == region.stride,
        region.holds(other),
        other != index,
    ensures
        region.with_element(index, element).bytes.len() == region.bytes.len(),
        region.with_element(index, element).element(index) == element,
        region.with_element(index, element).element(other) == region.element(other),
{
    let s = region.stride;
    element_bounds(index, s, region.bytes.len());
    element_bounds(other, s, region.bytes.len());
    let stored = region.with_element(index, element);
    assert(stored.bytes.len() == region.bytes.len());
    assert(stored.element(index) =~= element);
    if other < index {
        assert((other + 1) * s <= index * s) by (nonlinear_arith)
            requires
                other < index,
        ;
    } else {
        assert((index + 1) * s <= other * s) by (nonlinear_arith)
            requires
                index < other,
        ;
    }
    assert(stored.element(other) =~= region.element(other));
}

impl MappedRegion {
    pub fn mode(&self) -> (mode: AccessMode)
        ensures
            mode == self@.mode,
    {
        self.mode
    }

    pub fn offset(&self) -> (offset: usize)
        ensures
            offset == self@.offset,
    {
        self.offset
    }

    /// The length of the region in bytes: exactly what was asked for.
    pub fn len(&self) -> (length: usize)
        ensures
            length == self@.bytes.len(),
    {
        self.bytes.len()
    }

    pub fn stride(&self) -> (stride: usize)
        ensures
            stride == self@.stride,
    {
        self.stride
    }

    /// Whether element `index` lies wholly inside the region.
    pub fn holds(&self, index: usize) -> (inside: bool)
        ensures
            inside == self@.holds(index as nat),
    {
        if self.stride == 0 {
            assert((index + 1) * 0 == 0) by (nonlinear_arith);
            return true;
        }
        let whole: usize = self.bytes.len() / self.stride;
        proof {
            let s = self.stride as int;
            let l = self.bytes.len() as int;
            assert(index < l / s <==> (index + 1) * s <= l) by (nonlinear_arith)
                requires
                    s > 0,
                    l >= 0,
                    index >= 0,
            ;
        }
        index < whole
    }

    /// Stores `element` as element `index`. Only a mapping for writing takes
    /// a store, and only a whole element inside the region.
    pub fn write(&mut self, index: usize, element: &[u8])
        requires
            old(self)@.mode == AccessMode::Write,
            old(self)@.holds(index as nat),
            element@.len() == old(self)@.stride,
        ensures
            final(self)@ == old(self)@.with_element(index as nat, element@),
    {
        runtime_assert(self.mode == AccessMode::Write);
        runtime_assert(self.holds(index));
        runtime_assert(element.len() == self.stride);
        let total: usize = self.bytes.len();
        proof {
            element_bounds(index as nat, self.stride as nat, total as nat);
        }
        let start: usize = index * self.stride;
        let mut i: usize = 0;
        while i < element.len()
            invariant
                i <= element@.len(),
                element@.len() == self.stride,
                start + self.stride <= total,
                self.bytes@.len() == total,
                total == old(self).bytes@.len(),
                self.buffer == old(self).buffer,
                self.mode == old(self).mode,
                self.offset == old(self).offset,
                self.stride == old(self).stride,
                self.bytes@ == old(self).bytes@.subrange(0, start as int) + element@.take(i as int)
                    + old(self).bytes@.subrange(start + i, old(self).bytes@.len() as int),
            decreases element@.len() - i,
        {
            self.bytes.set(start + i, element[i]);
            i += 1;
            assert(self.bytes@ =~= old(self).bytes@.subrange(0, start as int) + element@.take(
                i as int,
            ) + old(self).bytes@.subrange(start + i, old(self).bytes@.len() as int));
        }
        assert(element@.take(i as int) =~= element@);
    }

    /// Loads element `index`. Only a mapping for reading gives its bytes out.
    pub fn read(&self, index: usize) -> (element: Vec<u8>)
        requires
            self@.mode == AccessMode::Read,
            self@.holds(index as nat),
        ensures
            element@ == self@.element(index as nat),
    {
        runtime_assert(self.mode == AccessMode::Read);
        runtime_assert(self.holds(index));
        let total: usize = self.bytes.len();
        proof {
            element_bounds(index as nat, self.stride as nat, total as nat);
        }
        let start: usize = index * self.stride;
        let mut element: Vec<u8> = Vec::new();
        let mut i: usize = 0;
        while i < self.stride
            invariant
                i <= self.stride,
                start + self.stride <= total,
                total == self.bytes@.len(),
                element@ == self.bytes@.subrange(start as int, start + i),
            decreases self.stride - i,
        {
            element.push(self.bytes[start + i]);
            i += 1;
            assert(element@ =~= self.bytes@.subrange(start as int, start + i));
        }
        element
    }

    /// Stores a record as element `index` of a region over twelve-byte elements.
    pub fn write_record(&mut self, index: usize, record: Record)
        requires
            old(self)@.mode == AccessMode::Write,
            old(self)@.holds(index as nat),
            old(self)@.stride == RECORD_BYTES,
        ensures
            final(self)@ == old(self)@.with_element(index as nat, record.spec_encode()),
    {
        runtime_assert(self.stride == RECORD_BYTES);
        proof {
            record.encode_round_trip();
        }
        let bytes = record.encode();
        self.write(index, bytes.as_slice());
    }

    /// Loads element `index` of a region over twelve-byte elements as a record.
    pub fn read_record(&self, index: usize) -> (record: Record)
        requires
            self@.mode == AccessMode::Read,
            self@.holds(index as nat),
            self@.stride == RECORD_BYTES,
        ensures
            record == Record::spec_decode(self@.element(index as nat)),
    {
        runtime_assert(self.stride == RECORD_BYTES);
        proof {
            element_bounds(index as nat, self.stride as nat, self.bytes@.len());
        }
        let bytes = self.read(index);
        match Record::decode(bytes.as_slice()) {
            Some(record) => record,
            None => Record::zero(),
        }
    }
}

/// One device-side block of `count` elements of `element_size` bytes each.
#[derive(Debug, PartialEq, Eq)]
pub struct StructuredBuffer {
    handle: u32,
    count: usize,
    element_size: usize,
    bytes: Vec<u8>,
    mapping: Option<(AccessMode, usize, usize)>,
    visibility: Visibility,
    slot: Option<u32>,
}

impl View for StructuredBuffer {
    type V = BufferView;

    closed spec fn view(&self) -> BufferView {
        BufferView {
            handle: self.handle,
            count: self.count as nat,
            element_size: self.element_size as nat,
            bytes: self.bytes@,
            mapping: match self.mapping {
                Some((mode, offset, length)) => Some(
                    Mapping { mode, offset: offset as nat, length: length as nat },
                ),
                None => None,
            },
            visibility: self.visibility,
            slot: self.slot,
        }
    }
}

impl StructuredBuffer {
    #[verifier::type_invariant]
    closed spec fn inv(self) -> bool {
        self@.wf()
    }

    /// The bytes to reserve for `count` elements of `element_size` bytes, or
    /// nothing where the device cannot allocate that many.
    pub fn byte_size(count: usize, element_size: usize) -> (size: Option<usize>)
        ensures
            size matches Some(n) ==> spec_byte_size(count as nat, element_size as nat) == Some(
                n as nat,
            ),
            size is None ==> spec_byte_size(count as nat, element_size as nat) is None,
    {
        match count.checked_mul(element_size) {
            Some(n) => {
                if n <= isize::MAX as usize {
                    Some(n)
                } else {
                    None
                }
            },
            None => None,
        }
    }

    /// Records a buffer that the device allocated under `handle`.
    ///
    /// The buffer has `count * element_size` bytes, no mapping, nothing
    /// pending, and is bound to no slot. The bytes themselves are whatever the device left there: no
    /// value is promised for them until the host writes.
    /// A size that no device allocation can have is refused.
    pub fn allocate(handle: u32, count: usize, element_size: usize) -> (result: Result<
        StructuredBuffer,
        ResourceError,
    >)
        ensures
            spec_byte_size(count as nat, element_size as nat) is Some ==> result is Ok && ({
                let b = result->Ok_0@;
                &&& b.handle == handle
                &&& b.count == count
                &&& b.element_size == element_size
                &&& b.mapping is None
                &&& b.visibility == Visibility::Coherent
                &&& b.slot is None
                &&& b.wf()
            }),
            spec_byte_size(count as nat, element_size as nat) is None ==> result == Err::<
                StructuredBuffer,
                ResourceError,
            >(ResourceError::SizeOverflow),
    {
        match Self::byte_size(count, element_size) {
            Some(size) => {
                let mut bytes: Vec<u8> = Vec::new();
                let mut i: usize = 0;
                while i < size
                    invariant
                        i <= size,
                        bytes@.len() == i,
                    decreases size - i,
                {
                    bytes.push(0u8);
                    i += 1;
                }
                Ok(
                    StructuredBuffer {
                        handle,
                        count,
                        element_size,
                        bytes,
                        mapping: None,
                        visibility: Visibility::Coherent,
                        slot: None,
                    },
                )
            },
            None => Err(ResourceError::SizeOverflow),
        }
    }

    pub fn handle(&self) -> (handle: u32)
        ensures
            handle == self@.handle,
    {
        self.handle
    }

    pub fn count(&self) -> (count: usize)
        ensures
            count == self@.count,
    {
        self.count
    }

    pub fn element_size(&self) -> (element_size: usize)
        ensures
            element_size == self@.element_size,
    {
        self.element_size
    }

    /// The size of the buffer in bytes: `count * element_size`.
    pub fn byte_len(&self) -> (length: usize)
        ensures
            length == self@.bytes.len(),
            length == self@.count * self@.element_size,
    {
        proof {
            use_type_invariant(self);
        }
        self.bytes.len()
    }

    pub fn visibility(&self) -> (visibility: Visibility)
        ensures
            visibility == self@.visibility,
    {
        self.visibility
    }

    /// The slot the buffer was last put at, if it was bound at all.
    pub fn slot(&self) -> (slot: Option<u32>)
        ensures
            slot == self@.slot,
    {
        self.slot
    }

    pub fn is_mapped(&self) -> (mapped: bool)
        ensures
            mapped == self@.mapping is Some,
    {
        self.mapping.is_some()
    }

    /// Whether [`StructuredBuffer::map`] may be called with these arguments.
    pub fn can_map(&self, mode: AccessMode, offset: usize, length: usize) -> (allowed: bool)
        ensures
            allowed == self@.can_map(mode, offset as nat, length as nat),
    {
        let total: usize = self.bytes.len();
        let inside = match offset.checked_add(length) {
            Some(end) => end <= total,
            None => false,
        };
        let visible = mode == AccessMode::Write || self.visibility == Visibility::Coherent;
        self.mapping.is_none() && inside && visible
    }

    /// Maps `length` bytes from `offset` on.
    pub fn map(&mut self, mode: AccessMode, offset: usize, length: usize) -> (region: MappedRegion)
        requires
            old(self)@.can_map(mode, offset as nat, length as nat),
        ensures
            (final(self)@, region@) == old(self)@.map(mode, offset as nat, length as nat),
            final(self)@.owns(region@),
            final(self)@.wf(),
    {
        runtime_assert(self.can_map(mode, offset, length));
        proof {
            use_type_invariant(&*self);
        }
        let total: usize = self.bytes.len();
        let mut bytes: Vec<u8> = Vec::new();
        let mut i: usize = 0;
        while i < length
            invariant
                i <= length,
                offset + length <= total,
                total == self.bytes@.len(),
                self == old(self),
                bytes@ == old(self)@.map(mode, offset as nat, length as nat).1.bytes.take(i as int),
            decreases length - i,
        {
            let b: u8 = match mode {
                AccessMode::Write => 0u8,
                AccessMode::Read => self.bytes[offset + i],
            };
            bytes.push(b);
            i += 1;
            assert(bytes@ =~= old(self)@.map(mode, offset as nat, length as nat).1.bytes.take(
                i as int,
            ));
        }
        assert(bytes@ =~= old(self)@.map(mode, offset as nat, length as nat).1.bytes);
        self.mapping = Some((mode, offset, length));
        MappedRegion { buffer: self.handle, mode, offset, stride: self.element_size, bytes }
    }

    /// Whether `region` is this buffer's outstanding mapping.
    pub fn owns(&self, region: &MappedRegion) -> (owned: bool)
        ensures
            owned == self@.owns(region@),
    {
        let same = match self.mapping {
            Some((mode, offset, length)) => {
                mode == region.mode && offset == region.offset && length == region.bytes.len()
            },
            None => false,
        };
        region.buffer == self.handle && region.stride == self.element_size && same
    }

    /// Ends the mapping and consumes the region. The bytes handed back are
    /// those the region held; for a mapping for writing they are what has to
    /// reach the device at the region's offset.
    pub fn unmap(&mut self, region: MappedRegion) -> (flushed: Vec<u8>)
        requires
            old(self)@.owns(region@),
        ensures
            final(self)@ == old(self)@.unmap(region@),
            flushed@ == region@.bytes,
            final(self)@.wf(),
    {
        runtime_assert(self.owns(&region));
        proof {
            use_type_invariant(&*self);
        }
        let offset: usize = region.offset;
        let length: usize = region.bytes.len();
        if let AccessMode::Write = region.mode {
            let total: usize = self.bytes.len();
            let ghost merged = old(self)@.unmap(region@).bytes;
            let mut bytes: Vec<u8> = Vec::new();
            let mut k: usize = 0;
            while k < total
                invariant
                    k <= total,
                    total == self.bytes@.len(),
                    length == region.bytes@.len(),
                    offset + length <= total,
                    self == old(self),
                    merged == self.bytes@.subrange(0, offset as int) + region.bytes@
                        + self.bytes@.subrange(offset + length, total as int),
                    bytes@ == merged.take(k as int),
                decreases total - k,
            {
                let b: u8 = if offset <= k && k - offset < length {
                    region.bytes[k - offset]
                } else {
                    self.bytes[k]
                };
                bytes.push(b);
                k += 1;
                assert(bytes@ =~= merged.take(k as int));
            }
            assert(bytes@ =~= merged);
            self.bytes = bytes;
        }
        self.mapping = None;
        region.bytes
    }

    /// Notes that the buffer was put at `slot`.
    pub(crate) fn note_binding(&mut self, slot: u32)
        ensures
            final(self)@ == old(self)@.bound(slot),
    {
        proof {
            use_type_invariant(&*self);
        }
        self.slot = Some(slot);
    }

    /// Notes that a dispatch which may write the buffer was issued.
    pub(crate) fn note_dispatch(&mut self)
        ensures
            final(self)@ == old(self)@.dispatched(),
    {
        proof {
            use_type_invariant(&*self);
        }
        self.visibility = Visibility::Pending;
    }

    /// Notes that a barrier was issued; `covers` says whether its kind makes
    /// device writes visible to mapped reads on the host.
    pub(crate) fn note_barrier(&mut self, covers: bool)
        ensures
            final(self)@ == old(self)@.fenced(covers),
    {
        proof {
            use_type_invariant(&*self);
        }
        if covers {
            if let Visibility::Pending = self.visibility {
                self.visibility = Visibility::Fenced;
            }
        }
    }

    /// Whether [`StructuredBuffer::refresh`] may be called with these bytes.
    pub fn can_refresh(&self, device: &Vec<u8>) -> (allowed: bool)
        ensures
            allowed == self@.can_refresh(device@),
    {
        self.visibility == Visibility::Fenced && self.mapping.is_none() && device.len() == self.bytes.len()
    }

    /// Takes in the bytes that the device holds, as seen after a barrier.
    pub fn refresh(&mut self, device: Vec<u8>)
        requires
            old(self)@.can_refresh(device@),
        ensures
            final(self)@ == old(self)@.refreshed(device@),
            final(self)@.wf(),
    {
        runtime_assert(self.can_refresh(&device));
        proof {
            use_type_invariant(&*self);
        }
        self.bytes = device;
        self.visibility = Visibility::Coherent;
    }

    /// Gives up the buffer. The value is consumed, so it can be neither mapped
    /// nor released again; what comes back is the device object to destroy.
    pub fn release(self) -> (handle: u32)
        ensures
            handle == self@.handle,
    {
        self.handle
    }
}

} // verus!
