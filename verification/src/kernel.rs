//! What the index-identity kernel does to a buffer, on the host.
//!
//! Invocation `gid` stores the float `gid` into the three fields of element
//! `gid`, and that is all the kernel does. This module states it over the
//! buffer's bytes and carries it out, so that what a device hands back can
//! be held against it.

use vstd::prelude::*;
use vstd::pervasive::runtime_assert;
use crate::record::{Record, EXACT_LIMIT, RECORD_BYTES};

verus! {

/// The bytes of a buffer of three-float elements after invocations
/// `0 .. invocations` ran: each of those elements holds its own index three
/// times, and every later byte is as it was.
pub open spec fn kernel_image(before: Seq<u8>, invocations: nat) -> Seq<u8> {
    Seq::new(
        before.len(),
        |k: int|
            if k / 12 < invocations {
                Record::spec_of_index((k / 12) as nat).spec_encode()[k % 12]
            } else {
                before[k]
            },
    )
}

/// The whole elements that a byte sequence holds, in order.
pub open spec fn records_of(bytes: Seq<u8>) -> Seq<Record> {
    Seq::new(
        bytes.len() / 12,
        |i: int| Record::spec_decode(bytes.subrange(12 * i, 12 * i + 12)),
    )
}

/// When the kernel is defined: every invocation has an element of its own,
/// and every index is exact as a float.
pub open spec fn kernel_defined(length: nat, invocations: nat) -> bool {
    invocations * 12 <= length && invocations <= EXACT_LIMIT
}

/// After the kernel ran over all `count` elements of a buffer, element `i`
/// reads back as `(i, i, i)`, whatever the buffer held before.
pub proof fn kernel_writes_index_identity(before: Seq<u8>, count: nat, i: nat)
    requires
        before.len() == 12 * count,
        i < count,
    ensures
        records_of(kernel_image(before, count)).len() == count,
        records_of(kernel_image(before, count))[i as int] == Record::spec_of_index(i),
{
    let image = kernel_image(before, count);
    let record = Record::spec_of_index(i);
    record.encode_round_trip();
    assert(image.subrange(12 * (i as int), 12 * (i as int) + 12) =~= record.spec_encode()) by {
        assert forall|j: int| 0 <= j < 12 implies image[12 * i + j] == record.spec_encode()[j] by {
            assert((12 * i + j) / 12 == i);
            assert((12 * i + j) % 12 == j);
        }
    }
}

/// Elements that no invocation reached are untouched.
pub proof fn kernel_keeps_the_rest(before: Seq<u8>, invocations: nat, at: int)
    requires
        invocations * 12 <= at < before.len(),
    ensures
        kernel_image(before, invocations).len() == before.len(),
        kernel_image(before, invocations)[at] == before[at],
{
}

/// Whether [`run_index_kernel`] may be called with these arguments.
pub fn can_run(length: usize, invocations: u64) -> (defined: bool)
    ensures
        defined == kernel_defined(length as nat, invocations as nat),
{
    invocations <= EXACT_LIMIT as u64 && invocations * 12 <= length as u64
}

/// Carries out invocations `0 .. invocations` of the kernel on `bytes`.
pub fn run_index_kernel(bytes: &mut Vec<u8>, invocations: u64)
    requires
        kernel_defined(old(bytes)@.len(), invocations as nat),
    ensures
        final(bytes)@ == kernel_image(old(bytes)@, invocations as nat),
{
    runtime_assert(can_run(bytes.len(), invocations));
    let total: usize = bytes.len();
    let mut gid: u64 = 0;
    while gid < invocations
        invariant
            gid <= invocations,
            invocations * 12 <= total,
            invocations <= EXACT_LIMIT,
            total == bytes@.len(),
            total == old(bytes)@.len(),
            bytes@ == kernel_image(old(bytes)@, gid as nat),
        decreases invocations - gid,
    {
        let record = Record::of_index(gid as u32);
        let encoded = record.encode();
        proof {
            record.encode_round_trip();
        }
        let base: usize = (gid * 12) as usize;
        let ghost start = bytes@;
        let mut j: usize = 0;
        while j < RECORD_BYTES
            invariant
                j <= 12,
                base == gid * 12,
                base + 12 <= total,
                total == bytes@.len(),
                total == start.len(),
                encoded@.len() == 12,
                bytes@ == Seq::new(
                    start.len(),
                    |k: int|
                        if base <= k < base + j {
                            encoded@[k - base]
                        } else {
                            start[k]
                        },
                ),
            decreases 12 - j,
        {
            bytes.set(base + j, encoded[j]);
            j += 1;
            assert(bytes@ =~= Seq::new(
                start.len(),
                |k: int|
                    if base <= k < base + j {
                        encoded@[k - base]
                    } else {
                        start[k]
                    },
            ));
        }
        gid += 1;
        assert(bytes@ =~= kernel_image(old(bytes)@, gid as nat)) by {
            assert forall|k: int| 0 <= k < total implies bytes@[k] == kernel_image(
                old(bytes)@,
                gid as nat,
            )[k] by {
                if base <= k < base + 12 {
                    assert(k / 12 == gid - 1);
                    assert(k % 12 == k - base);
                } else if k < base {
                    assert(k / 12 < gid - 1);
                } else {
                    assert(k / 12 >= gid);
                }
            }
        }
    }
}

/// Reads every whole element out of `bytes`.
pub fn decode_records(bytes: &[u8]) -> (records: Vec<Record>)
    ensures
        records@ == records_of(bytes@),
{
    let total: usize = bytes.len();
    let n: usize = total / RECORD_BYTES;
    let mut records: Vec<Record> = Vec::new();
    let mut i: usize = 0;
    while i < n
        invariant
            i <= n,
            total == bytes@.len(),
            n == total / 12,
            records@ == records_of(bytes@).take(i as int),
        decreases n - i,
    {
        records.push(Record::decode_at(bytes, i * RECORD_BYTES));
        i += 1;
        assert(records@ =~= records_of(bytes@).take(i as int));
    }
    assert(records@ =~= records_of(bytes@));
    records
}

/// What it means for a read-back to be the kernel's result: element `i` is
/// `(i, i, i)` for every `i`, and there are no more elements than there are
/// exact floats.
pub open spec fn index_identity(records: Seq<Record>) -> bool {
    &&& records.len() <= EXACT_LIMIT
    &&& forall|i: int| 0 <= i < records.len() ==> #[trigger] records[i] == Record::spec_of_index(i as nat)
}

/// Holds a read-back against the kernel's result.
pub fn is_index_identity(records: &Vec<Record>) -> (matches: bool)
    ensures
        matches == index_identity(records@),
{
    if records.len() > EXACT_LIMIT as usize {
        return false;
    }
    let mut i: usize = 0;
    while i < records.len()
        invariant
            i <= records@.len() <= EXACT_LIMIT,
            forall|k: int| 0 <= k < i ==> #[trigger] records@[k] == Record::spec_of_index(k as nat),
        decreases records@.len() - i,
    {
        let expected = Record::of_index(i as u32);
        let found = records[i];
        if found.x != expected.x || found.y != expected.y || found.z != expected.z {
            return false;
        }
        i += 1;
    }
    true
}

} // verus!
