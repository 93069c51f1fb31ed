//! What holds of every run.
//!
//! A run is a sequence of device answers fed to the runner one by one. The
//! statements here are about all such sequences, fitting or not: in which
//! order commands can come, what a failed compile rules out, when a mapping
//! for reading can be asked for, and that nothing is destroyed twice.

use vstd::prelude::*;
use crate::buffer::{spec_byte_size, zeros};
use crate::error::{ErrorView, ProtocolError};
use crate::kernel::{kernel_image, kernel_writes_index_identity, records_of};
use crate::program::{ProgramView, StageView};
use crate::protocol::{CommandView, ObjectsView, ReplyView};
use crate::record::{Record, RECORD_BYTES};
use crate::runner::{
    arranged, seeded, transition, CursorView, Phase, PipelineConfig, RunnerView,
};
use crate::source::{SourceView, StageKind};

verus! {

/// How many answers a run has taken when it stands at `cursor`, for the
/// cursors of a run that is still going well.
pub open spec fn position(cursor: CursorView) -> Option<nat> {
    match cursor {
        CursorView::Idle => Some(0),
        CursorView::Compiling { .. } => Some(1),
        CursorView::Linking { .. } => Some(2),
        CursorView::Allocating { .. } => Some(3),
        CursorView::Seeding { .. } => Some(4),
        CursorView::Binding { .. } => Some(5),
        CursorView::Dispatching { .. } => Some(6),
        CursorView::Fencing { .. } => Some(7),
        CursorView::Reading { .. } => Some(8),
        CursorView::Releasing { .. } => Some(9),
        _ => None,
    }
}

/// The place of a command in a run that goes well; none for fetching a log
/// and for giving up.
pub open spec fn order(command: CommandView) -> Option<nat> {
    match command {
        CommandView::CompileStage { .. } => Some(1),
        CommandView::LinkProgram { .. } => Some(2),
        CommandView::AllocateBuffer { .. } => Some(3),
        CommandView::WriteMapped { .. } => Some(4),
        CommandView::BindBuffer { .. } => Some(5),
        CommandView::Dispatch { .. } => Some(6),
        CommandView::Barrier { .. } => Some(7),
        CommandView::ReadMapped { .. } => Some(8),
        CommandView::Release { .. } => Some(9),
        CommandView::Finish { .. } => Some(10),
        _ => None,
    }
}

/// Where a run stands after it took `replies`, first to last.
pub open spec fn run(config: PipelineConfig, replies: Seq<ReplyView>) -> RunnerView
    decreases replies.len(),
{
    if replies.len() == 0 {
        RunnerView::initial(config)
    } else {
        transition(run(config, replies.drop_last()), replies.last()).0
    }
}

/// The command that the last of `replies` was answered with.
pub open spec fn issued(config: PipelineConfig, replies: Seq<ReplyView>) -> CommandView
    recommends
        replies.len() > 0,
{
    transition(run(config, replies.drop_last()), replies.last()).1
}

/// One step keeps the order: a command with a place is given only from the
/// place before it, a run moves to a place only from the place before it and
/// only with that place's command, and a run that has left the way stays off it.
pub proof fn step_keeps_order(s: RunnerView, reply: ReplyView)
    ensures
        ({
            let (next, command) = transition(s, reply);
            &&& order(command) matches Some(n) ==> position(s.cursor) == Some((n - 1) as nat)
            &&& position(next.cursor) matches Some(n) ==> n >= 1 && position(s.cursor) == Some(
                (n - 1) as nat,
            ) && order(command) == Some(n)
            &&& position(s.cursor) is None ==> position(next.cursor) is None && order(command) is None
            &&& next.config == s.config
        }),
{
}

/// A run that is still going well after `replies` has taken exactly as many
/// answers as its place says.
pub proof fn place_counts_replies(config: PipelineConfig, replies: Seq<ReplyView>)
    ensures
        run(config, replies).config == config,
        position(run(config, replies).cursor) matches Some(n) ==> n == replies.len(),
    decreases replies.len(),
{
    if replies.len() > 0 {
        place_counts_replies(config, replies.drop_last());
        step_keeps_order(run(config, replies.drop_last()), replies.last());
    }
}

/// Commands come in one order only. In every run, whatever the device
/// answers, a command with a place is the answer to exactly that many
/// replies, and the command given just before it is the one with the place
/// before: compile, link, allocate, write-map, bind, dispatch, barrier,
/// read-map, release, finish.
pub proof fn commands_in_order(config: PipelineConfig, replies: Seq<ReplyView>)
    requires
        replies.len() > 0,
    ensures
        order(issued(config, replies)) matches Some(n) ==> {
            &&& n == replies.len()
            &&& n >= 2 ==> order(issued(config, replies.drop_last())) == Some((n - 1) as nat)
        },
{
    let before = replies.drop_last();
    place_counts_replies(config, before);
    step_keeps_order(run(config, before), replies.last());
    if order(issued(config, replies)) is Some && before.len() > 0 {
        step_keeps_order(run(config, before.drop_last()), before.last());
    }
}

/// A mapping for reading is asked for only straight after a barrier, and
/// only after a barrier of a kind that covers mapped reads; the barrier in
/// turn comes straight after the dispatch.
pub proof fn read_map_follows_barrier(config: PipelineConfig, replies: Seq<ReplyView>)
    requires
        replies.len() > 0,
        issued(config, replies) is ReadMapped,
    ensures
        replies.len() == 8,
        issued(config, replies.drop_last()) == (CommandView::Barrier { kind: config.barrier_kind }),
        config.barrier_kind.spec_covers_mapped_reads(),
        issued(config, replies.drop_last().drop_last()) is Dispatch,
{
    let one = replies.drop_last();
    let two = one.drop_last();
    commands_in_order(config, replies);
    commands_in_order(config, one);
    place_counts_replies(config, one);
    place_counts_replies(config, two);
    step_keeps_order(run(config, one), replies.last());
    step_keeps_order(run(config, two), one.last());
}

/// A run that has left the way never comes back to it: from then on no
/// command with a place is given.
pub proof fn off_the_way_for_good(config: PipelineConfig, replies: Seq<ReplyView>, k: int, j: int)
    requires
        0 <= k <= j <= replies.len(),
        position(run(config, replies.take(k)).cursor) is None,
    ensures
        position(run(config, replies.take(j)).cursor) is None,
        j > k ==> order(issued(config, replies.take(j))) is None,
    decreases j - k,
{
    if j > k {
        off_the_way_for_good(config, replies, k, j - 1);
        assert(replies.take(j).drop_last() =~= replies.take(j - 1));
        step_keeps_order(run(config, replies.take(j - 1)), replies.take(j).last());
    }
}

/// A stage that does not compile ends the run before any buffer work. If the
/// answer to the compile request says that the stage did not compile, then
/// in that run, however it goes on, no buffer is ever allocated, written,
/// bound, dispatched on or read: every command is the compile request, the
/// fetch of the log, or giving up; and the state never gets past
/// `Uninitialized` except to `Released`.
pub proof fn failed_compile_never_allocates(
    config: PipelineConfig,
    replies: Seq<ReplyView>,
    k: int,
    j: int,
)
    requires
        0 <= k < replies.len(),
        run(config, replies.take(k)).cursor is Compiling,
        replies[k] matches ReplyView::Status { ok, .. } && !ok,
        1 <= j <= replies.len(),
    ensures
        order(issued(config, replies.take(j))) is None || issued(config, replies.take(j))
            is CompileStage,
        run(config, replies.take(j)).phase() == Phase::Uninitialized || run(
            config,
            replies.take(j),
        ).phase() == Phase::Released,
{
    place_counts_replies(config, replies.take(k));
    assert(k == 1);
    assert(replies.take(2).drop_last() =~= replies.take(1));
    assert(replies.take(2).last() == replies[1]);
    assert(run(config, replies.take(2)).cursor is StageLog);
    commands_in_order(config, replies.take(j));
    place_counts_replies(config, replies.take(j));
    if j >= 2 {
        off_the_way_for_good(config, replies, 2, j);
        if j == 2 {
            assert(issued(config, replies.take(2)) is FetchStageLog);
        }
    } else {
        assert(replies.take(1).drop_last() =~= replies.take(0));
        assert(replies.take(0) =~= Seq::<ReplyView>::empty());
        place_counts_replies(config, replies.take(0));
        step_keeps_order(run(config, replies.take(0)), replies.take(1).last());
    }
}

/// The log of a failed compile reaches the operator untouched: the answer to
/// the fetched log is to give up with a compile error that carries exactly
/// that text, and with the stage's object handed over for destruction.
pub proof fn failed_compile_reports_log(
    config: PipelineConfig,
    source: SourceView,
    stage_id: u32,
    text: Seq<char>,
)
    ensures
        transition(
            RunnerView { config, cursor: CursorView::StageLog { source, stage_id } },
            ReplyView::Log { text },
        ) == (
            RunnerView { config, cursor: CursorView::Released },
            CommandView::Abort {
                error: ErrorView::Compile(text),
                objects: ObjectsView { stages: seq![stage_id], program: None, buffer: None },
            },
        ),
{
}

/// Whether a run at `cursor` has handed over everything it owned.
pub open spec fn spent(cursor: CursorView) -> bool {
    cursor is Releasing || cursor is Released
}

/// Whether `handed` names every object of `owned`.
pub open spec fn covers(handed: ObjectsView, owned: ObjectsView) -> bool {
    &&& owned.stages.len() <= handed.stages.len()
    &&& forall|i: int| 0 <= i < owned.stages.len() ==> handed.stages[i] == owned.stages[i]
    &&& owned.program is Some ==> handed.program == owned.program
    &&& owned.buffer is Some ==> handed.buffer == owned.buffer
}

/// Teardown in one step. A command that destroys hands over everything the
/// run owned and leaves it owning nothing; any other command leaves the run
/// owning at least what it owned; and a run that owns nothing any more asks
/// for nothing to be destroyed.
pub proof fn step_hands_over_all(s: RunnerView, reply: ReplyView)
    ensures
        ({
            let (next, command) = transition(s, reply);
            &&& command is Release || command is Abort ==> covers(
                command.destroys(),
                s.cursor.owned(),
            ) && spent(next.cursor)
            &&& !(command is Release || command is Abort) ==> covers(
                next.cursor.owned(),
                s.cursor.owned(),
            )
            &&& spent(s.cursor) ==> spent(next.cursor) && command.destroys().is_none()
            &&& spent(next.cursor) ==> next.cursor.owned().is_none()
        }),
{
}

/// After release there is nothing left to do: whatever comes in, the runner
/// gives up at once, names no object, and stays released.
pub proof fn released_is_final(s: RunnerView, reply: ReplyView)
    requires
        s.cursor is Released,
    ensures
        transition(s, reply) == (
            s,
            CommandView::Abort {
                error: ErrorView::Protocol(ProtocolError::UseAfterRelease),
                objects: ObjectsView::none(),
            },
        ),
{
}

proof fn spent_for_good(config: PipelineConfig, replies: Seq<ReplyView>, i: int, j: int)
    requires
        0 <= i <= j <= replies.len(),
        spent(run(config, replies.take(i)).cursor),
    ensures
        spent(run(config, replies.take(j)).cursor),
        j > i ==> issued(config, replies.take(j)).destroys().is_none(),
    decreases j - i,
{
    if j > i {
        spent_for_good(config, replies, i, j - 1);
        assert(replies.take(j).drop_last() =~= replies.take(j - 1));
        step_hands_over_all(run(config, replies.take(j - 1)), replies.take(j).last());
    }
}

/// Nothing is destroyed twice. In every run, once a command has asked for
/// objects to be destroyed, no later command names any object.
pub proof fn nothing_destroyed_twice(
    config: PipelineConfig,
    replies: Seq<ReplyView>,
    i: int,
    j: int,
)
    requires
        1 <= i < j <= replies.len(),
        issued(config, replies.take(i)) is Release || issued(config, replies.take(i)) is Abort,
    ensures
        issued(config, replies.take(j)).destroys().is_none(),
{
    assert(replies.take(i).drop_last() =~= replies.take(i - 1));
    step_hands_over_all(run(config, replies.take(i - 1)), replies.take(i).last());
    spent_for_good(config, replies, i, j);
}

/// The states come one after the other: a step stays in its state, moves to
/// the next one, or ends the run.
pub proof fn phases_in_sequence(s: RunnerView, reply: ReplyView)
    ensures
        ({
            let next = transition(s, reply).0;
            ||| next.phase() == s.phase()
            ||| next.phase().rank() == s.phase().rank() + 1
            ||| next.phase() == Phase::Released
        }),
{
}

/// The answers of a device on which everything goes well; `data` is what
/// it holds after the dispatch.
pub open spec fn good_replies(stage: u32, program: u32, buffer: u32, data: Seq<u8>) -> Seq<
    ReplyView,
> {
    seq![
        ReplyView::Ready,
        ReplyView::Status { object: stage, ok: true, log_length: 0 },
        ReplyView::Status { object: program, ok: true, log_length: 0 },
        ReplyView::Allocated { buffer },
        ReplyView::Done,
        ReplyView::Done,
        ReplyView::Done,
        ReplyView::Done,
        ReplyView::Bytes { data },
        ReplyView::Done,
    ]
}

/// Taking one more answer is one more step.
pub proof fn run_unfolds(config: PipelineConfig, replies: Seq<ReplyView>, j: int)
    requires
        0 <= j < replies.len(),
    ensures
        run(config, replies.take(j + 1)) == transition(run(config, replies.take(j)), replies[j]).0,
        issued(config, replies.take(j + 1)) == transition(
            run(config, replies.take(j)),
            replies[j],
        ).1,
{
    assert(replies.take(j + 1).drop_last() =~= replies.take(j));
    assert(replies.take(j + 1).last() == replies[j]);
}

/// Up to the dispatch, a run that goes well stands with the program linked,
/// the buffer seeded with zeros and bound, and the device possibly writing.
proof fn good_run_reaches_dispatch(
    config: PipelineConfig,
    stage: u32,
    program: u32,
    buffer: u32,
    data: Seq<u8>,
)
    requires
        spec_byte_size(config.element_count as nat, RECORD_BYTES as nat) is Some,
    ensures
        ({
            let replies = good_replies(stage, program, buffer, data);
            let stage_view = StageView {
                object: stage,
                kind: StageKind::Compute,
                interface: config.spec_interface(),
            };
            let program_view = ProgramView { object: program, stages: seq![stage_view] };
            let seeded_buffer = seeded(buffer, config.element_count as nat);
            run(config, replies.take(6)).cursor == (CursorView::Dispatching {
                program: program_view,
                buffer: seeded_buffer.bound(config.binding_slot).dispatched(),
                dispatcher: arranged(config, program_view, seeded_buffer),
            })
        }),
{
    let replies = good_replies(stage, program, buffer, data);
    let stage_view = StageView {
        object: stage,
        kind: StageKind::Compute,
        interface: config.spec_interface(),
    };
    let program_view = ProgramView { object: program, stages: seq![stage_view] };
    let seeded_buffer = seeded(buffer, config.element_count as nat);
    let dispatcher = arranged(config, program_view, seeded_buffer);
    assert(dispatcher.ready(program_view, seeded_buffer));
    assert(replies.take(0) =~= Seq::<ReplyView>::empty());
    assert(run(config, replies.take(0)).cursor is Idle);
    run_unfolds(config, replies, 0);
    assert(run(config, replies.take(1)).cursor is Compiling);
    run_unfolds(config, replies, 1);
    assert(run(config, replies.take(2)).cursor == (CursorView::Linking { stage: stage_view }));
    run_unfolds(config, replies, 2);
    assert(run(config, replies.take(3)).cursor == (CursorView::Allocating {
        program: program_view,
    }));
    run_unfolds(config, replies, 3);
    assert(run(config, replies.take(4)).cursor == (CursorView::Seeding {
        program: program_view,
        buffer: seeded_buffer,
    }));
    run_unfolds(config, replies, 4);
    assert(run(config, replies.take(5)).cursor == (CursorView::Binding {
        program: program_view,
        buffer: seeded_buffer,
    }));
    run_unfolds(config, replies, 5);
}

/// A run that goes well hands out what the device holds. With a buffer size
/// that a device can allocate and a barrier that covers mapped reads, the
/// run finishes, and its elements are those of the bytes that came back
/// through the mapping for reading.
pub proof fn good_run_hands_out_device_bytes(
    config: PipelineConfig,
    stage: u32,
    program: u32,
    buffer: u32,
    data: Seq<u8>,
)
    requires
        spec_byte_size(config.element_count as nat, RECORD_BYTES as nat) is Some,
        config.barrier_kind.spec_covers_mapped_reads(),
        data.len() == config.element_count * RECORD_BYTES,
    ensures
        ({
            let replies = good_replies(stage, program, buffer, data);
            &&& issued(config, replies) == (CommandView::Finish { records: records_of(data) })
            &&& run(config, replies).phase() == Phase::Released
        }),
{
    let replies = good_replies(stage, program, buffer, data);
    let stage_view = StageView {
        object: stage,
        kind: StageKind::Compute,
        interface: config.spec_interface(),
    };
    let program_view = ProgramView { object: program, stages: seq![stage_view] };
    let seeded_buffer = seeded(buffer, config.element_count as nat);
    let dispatcher = arranged(config, program_view, seeded_buffer);
    good_run_reaches_dispatch(config, stage, program, buffer, data);
    place_counts_replies(config, replies.take(6));
    run_unfolds(config, replies, 6);
    assert(run(config, replies.take(7)).cursor == (CursorView::Fencing {
        program: program_view,
        buffer: seeded_buffer.bound(config.binding_slot).dispatched(),
        dispatcher,
    }));
    run_unfolds(config, replies, 7);
    let fenced = seeded_buffer.bound(config.binding_slot).dispatched().fenced(true);
    assert(run(config, replies.take(8)).cursor == (CursorView::Reading {
        program: program_view,
        buffer: fenced,
    }));
    run_unfolds(config, replies, 8);
    assert(fenced.can_refresh(data));
    assert(run(config, replies.take(9)).cursor == (CursorView::Releasing {
        records: records_of(data),
    }));
    run_unfolds(config, replies, 9);
    assert(replies.take(10) =~= replies);
}

/// A run that goes well reads back `(i, i, i)` at every index `i`.
///
/// Take any pipeline whose buffer size a device can allocate, whose barrier
/// covers mapped reads, and whose dispatch has one invocation for each
/// element. If the device compiles, links, allocates, and after the dispatch
/// holds what the kernel's invocations make of the host's zeros, then the
/// run finishes, and element `i` of what it hands out is `(i, i, i)`, for
/// every `i`.
pub proof fn good_run_reads_index_identity(
    config: PipelineConfig,
    stage: u32,
    program: u32,
    buffer: u32,
    i: nat,
)
    requires
        spec_byte_size(config.element_count as nat, RECORD_BYTES as nat) is Some,
        config.barrier_kind.spec_covers_mapped_reads(),
        config.dispatch_groups.spec_invocations_x(config.local_size_x) == config.element_count,
        i < config.element_count,
    ensures
        ({
            let count = config.element_count as nat;
            let invocations = config.dispatch_groups.spec_invocations_x(config.local_size_x);
            let data = kernel_image(zeros((count * 12) as nat), invocations);
            let replies = good_replies(stage, program, buffer, data);
            &&& issued(config, replies) == (CommandView::Finish { records: records_of(data) })
            &&& run(config, replies).phase() == Phase::Released
            &&& records_of(data).len() == count
            &&& records_of(data)[i as int] == Record::spec_of_index(i)
        }),
{
    let count = config.element_count as nat;
    let before = zeros((count * 12) as nat);
    let data = kernel_image(before, count);
    kernel_writes_index_identity(before, count, i);
    good_run_hands_out_device_bytes(config, stage, program, buffer, data);
}

} // verus!
