//! The laws of the writer, proved over its spec-level transitions.

use vstd::prelude::*;
use vstd::seq_lib::lemma_flatten_concat;

use crate::protocol::EncModel;
use crate::protocol::WriterRequest;
use crate::protocol::WriterResultKind;
use crate::protocol::WriterResult;
use crate::writer::StateModel;
use crate::writer::StatusModel;
use crate::writer::StepModel;
use crate::writer::no_effect;
use crate::writer::spec_apply;
use crate::writer::spec_flush_status;
use crate::writer::spec_step;
use crate::writer::spec_task_result;
use crate::task::spec_task_place;
use crate::task::spec_task_transmit;
use crate::task::TaskModel;

verus! {

/// True of the two epoch-gated, task-building requests.
pub open spec fn is_image_request(msg: WriterRequest) -> bool {
    msg matches WriterRequest::ImageTransmit { .. } || msg matches WriterRequest::ImagePlace {
        ..
    }
}

/// The epoch an image request carries.
pub open spec fn image_epoch(msg: WriterRequest) -> u64
    recommends
        is_image_request(msg),
{
    match msg {
        WriterRequest::ImageTransmit { epoch, .. } => epoch,
        WriterRequest::ImagePlace { epoch, .. } => epoch,
        _ => arbitrary(),
    }
}

/// The completion kind an image request will report.
pub open spec fn image_result_kind(msg: WriterRequest) -> WriterResultKind
    recommends
        is_image_request(msg),
{
    match msg {
        WriterRequest::ImageTransmit { kgp_id, .. } => WriterResultKind::TransmitDone { kgp_id },
        WriterRequest::ImagePlace { kgp_id, .. } => WriterResultKind::PlaceDone { kgp_id },
        _ => arbitrary(),
    }
}

/// The task an accepted image request installs.
pub open spec fn spec_image_task(msg: WriterRequest, enc: EncModel) -> TaskModel
    recommends
        is_image_request(msg),
{
    match msg {
        WriterRequest::ImageTransmit { encoded_chunks, kgp_id, epoch, .. } => spec_task_transmit(
            enc,
            encoded_chunks@.map_values(|c: Vec<u8>| c@),
            kgp_id,
            epoch,
        ),
        WriterRequest::ImagePlace { kgp_id, epoch, .. } => spec_task_place(enc, kgp_id, epoch),
        _ => arbitrary(),
    }
}

/// The state after applying a whole run of requests, in arrival order.
pub open spec fn apply_seq(st: StateModel, msgs: Seq<WriterRequest>, encs: Seq<EncModel>) -> StateModel
    decreases msgs.len(),
{
    if msgs.len() == 0 {
        st
    } else {
        apply_seq(spec_apply(st, msgs[0], encs[0]).0, msgs.drop_first(), encs.drop_first())
    }
}

/// A request with an epoch strictly below the highest epoch already accepted
/// is dropped with no observable effect: the state is untouched, no task
/// changes, nothing is written, and no completion can ever come of it.
pub proof fn lemma_stale_image_dropped(st: StateModel, msg: WriterRequest, enc: EncModel)
    requires
        is_image_request(msg),
        image_epoch(msg) < st.epoch,
    ensures
        spec_apply(st, msg, enc).0 == st,
        spec_apply(st, msg, enc).1 == no_effect(),
{
}

/// An image request writes no bytes at apply time and produces no
/// completion then, whether accepted or dropped.
pub proof fn lemma_image_apply_silent(st: StateModel, msg: WriterRequest, enc: EncModel)
    requires
        is_image_request(msg),
    ensures
        spec_apply(st, msg, enc).1 == no_effect(),
{
}

/// An accepted image request adopts its epoch and replaces the current task
/// unconditionally with the one it builds.
pub proof fn lemma_accepted_image_installs_task(st: StateModel, msg: WriterRequest, enc: EncModel)
    requires
        is_image_request(msg),
        image_epoch(msg) >= st.epoch,
    ensures
        spec_apply(st, msg, enc).0.epoch == image_epoch(msg),
        spec_apply(st, msg, enc).0.task == Some(spec_image_task(msg, enc)),
{
}

/// Of a run of image requests with strictly increasing epochs, the first at
/// or above the accepted epoch, only the last survives: the final state
/// holds exactly its task and its epoch.  Together with
/// [`lemma_image_apply_silent`] and [`lemma_step_result_is_current_task`],
/// this is why only the last such request can ever produce a completion:
/// applying the run emits nothing, every earlier task is replaced before any
/// step could complete it, and a completion only ever comes from the task
/// the state still holds.
pub proof fn lemma_latest_image_wins(st: StateModel, msgs: Seq<WriterRequest>, encs: Seq<EncModel>)
    requires
        msgs.len() > 0,
        encs.len() == msgs.len(),
        forall|i: int| 0 <= i < msgs.len() ==> is_image_request(#[trigger] msgs[i]),
        st.epoch <= image_epoch(msgs[0]),
        forall|i: int|
            0 <= i < msgs.len() - 1 ==> image_epoch(#[trigger] msgs[i]) < image_epoch(msgs[i + 1]),
    ensures
        apply_seq(st, msgs, encs).task == Some(spec_image_task(msgs.last(), encs.last())),
        apply_seq(st, msgs, encs).epoch == image_epoch(msgs.last()),
    decreases msgs.len(),
{
    let st1 = spec_apply(st, msgs[0], encs[0]).0;
    let rest = msgs.drop_first();
    let erest = encs.drop_first();
    lemma_accepted_image_installs_task(st, msgs[0], encs[0]);
    assert(apply_seq(st, msgs, encs) == apply_seq(st1, rest, erest));
    if msgs.len() == 1 {
        assert(rest.len() == 0);
        assert(apply_seq(st1, rest, erest) == st1);
        assert(msgs.last() == msgs[0]);
        assert(encs.last() == encs[0]);
    } else {
        assert(forall|i: int| 0 <= i < rest.len() ==> rest[i] == msgs[i + 1]);
        assert(forall|i: int| 0 <= i < erest.len() ==> erest[i] == encs[i + 1]);
        assert(st1.epoch == image_epoch(msgs[0]) && image_epoch(msgs[0]) < image_epoch(msgs[1]));
        lemma_latest_image_wins(st1, rest, erest);
        assert(rest.last() == msgs.last());
        assert(erest.last() == encs.last());
    }
}

/// A completion only ever belongs to the task the state currently holds,
/// and carries the accepted epoch; a discarded task yields none.
pub proof fn lemma_step_result_is_current_task(st: StateModel)
    ensures
        match spec_step(st).1 {
            StepModel::Completed { result, flush: _ } => {
                &&& st.task is Some
                &&& result == spec_task_result(st.task.unwrap())
                &&& st.task.unwrap().epoch == st.epoch
            },
            StepModel::Discarded => spec_step(st).0.task is None,
            _ => true,
        },
{
}

/// The most recent status in a run of requests, starting from `init`.
pub open spec fn last_status_in(msgs: Seq<WriterRequest>, init: Option<StatusModel>) -> Option<
    StatusModel,
>
    decreases msgs.len(),
{
    if msgs.len() == 0 {
        init
    } else {
        last_status_in(
            msgs.drop_first(),
            match msgs[0] {
                WriterRequest::Status { text, size, indicator } => Some(
                    StatusModel { text: text@, size, indicator },
                ),
                _ => init,
            },
        )
    }
}

/// Status requests are never epoch-gated: across any mix of traffic, the
/// cache afterwards holds the most recently sent status, untouched by any
/// image-epoch activity, and is left alone when no status arrived.
pub proof fn lemma_last_status_wins(st: StateModel, msgs: Seq<WriterRequest>, encs: Seq<EncModel>)
    requires
        encs.len() == msgs.len(),
    ensures
        apply_seq(st, msgs, encs).last_status == last_status_in(msgs, st.last_status),
    decreases msgs.len(),
{
    if msgs.len() > 0 {
        let st1 = spec_apply(st, msgs[0], encs[0]).0;
        lemma_last_status_wins(st1, msgs.drop_first(), encs.drop_first());
    }
}

/// Whenever an old area accompanies a placement, its erase bytes precede
/// everything else the task emits—payload and placement rows—even when the
/// old area equals the new one: flattened in queue order, a built task's
/// output is exactly erase bytes, then payload (transmissions only), then
/// place bytes.
pub proof fn lemma_erase_precedes_place(
    enc: EncModel,
    payload: Seq<Seq<u8>>,
    kgp_id: u32,
    epoch: u64,
)
    ensures
        spec_task_place(enc, kgp_id, epoch).chunks.flatten() == enc.erase_old.flatten()
            + enc.place.flatten(),
        spec_task_transmit(enc, payload, kgp_id, epoch).chunks.flatten() == enc.erase_old.flatten()
            + payload.flatten() + enc.place.flatten(),
{
    lemma_flatten_concat(enc.erase_old, enc.place);
    lemma_flatten_concat(enc.erase_old, payload);
    lemma_flatten_concat(enc.erase_old + payload, enc.place);
}

/// The state, emitted bytes, and completion after stepping the current task
/// until it is gone.
pub open spec fn spec_drain(st: StateModel) -> (StateModel, Seq<u8>, Option<WriterResult>)
    decreases
            (match st.task {
                Some(t) => t.chunks.len() + 1,
                None => 0,
            }),
{
    match st.task {
        None => (st, Seq::empty(), None),
        Some(_) => {
            let (st1, step) = spec_step(st);
            match step {
                StepModel::Wrote { chunk, flush: _ } => {
                    let (st2, rest, r) = spec_drain(st1);
                    (st2, chunk + rest, r)
                },
                StepModel::Completed { result, flush: _ } => (st1, Seq::empty(), result),
                _ => (st1, Seq::empty(), None),
            }
        },
    }
}

/// A task's chunks are emitted strictly in queue order, none repeated, none
/// skipped: run without preemption on an interactive stream, a task emits
/// exactly the concatenation of its queued chunks and then its completion.
pub proof fn lemma_task_emits_queue_in_order(st: StateModel)
    requires
        st.is_tty,
        st.task is Some,
        st.task.unwrap().epoch == st.epoch,
    ensures
        spec_drain(st).1 == st.task.unwrap().chunks.flatten(),
        spec_drain(st).2 == spec_task_result(st.task.unwrap()),
        spec_drain(st).0.task is None,
    decreases st.task.unwrap().chunks.len(),
{
    let t = st.task.unwrap();
    if t.chunks.len() == 0 {
        assert(t.chunks.flatten() == Seq::<u8>::empty());
    } else {
        let (st1, step) = spec_step(st);
        lemma_task_emits_queue_in_order(st1);
        assert(t.chunks.flatten() == t.chunks.first() + t.chunks.drop_first().flatten());
    }
}

/// On a non-interactive stream no pass ever writes a byte or flushes:
/// status, clear, cancel and image applies all have the empty effect, and a
/// task step never emits a chunk.
pub proof fn lemma_non_tty_writes_nothing(st: StateModel, msg: WriterRequest, enc: EncModel)
    requires
        !st.is_tty,
    ensures
        spec_apply(st, msg, enc).1 == no_effect(),
        spec_flush_status(st).1 == no_effect(),
        !(spec_step(st).1 matches StepModel::Wrote { .. }),
        spec_step(st).1 matches StepModel::Completed { result: _, flush } ==> !flush,
{
}

/// On a non-interactive stream every accepted image request still yields its
/// completion: the next task step returns it at once, with zero bytes
/// written, and clears the task.
pub proof fn lemma_non_tty_completion(st: StateModel, msg: WriterRequest, enc: EncModel)
    requires
        !st.is_tty,
        is_image_request(msg),
        image_epoch(msg) >= st.epoch,
    ensures
        ({
            let st1 = spec_apply(st, msg, enc).0;
            &&& spec_step(st1).1 matches StepModel::Completed { result, flush: false }
                && result == Some(
                WriterResult { kind: image_result_kind(msg), epoch: image_epoch(msg) },
            )
            &&& spec_step(st1).0.task is None
        }),
{
    lemma_accepted_image_installs_task(st, msg, enc);
}

} // verus!
