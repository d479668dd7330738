//! Building the writer's in-flight task from an accepted image request.

use std::collections::VecDeque;
use vstd::prelude::*;

use crate::protocol::EncModel;
use crate::protocol::RowEncodings;
use crate::protocol::WriterResultKind;
use crate::protocol::rows_view;

verus! {

/// One in-progress multi-chunk output job: the chunks still to emit, the
/// completion to send once they are all out, and the epoch the task was
/// accepted under.
pub struct Task {
    pub chunks: VecDeque<Vec<u8>>,
    pub complete: Option<WriterResultKind>,
    pub epoch: u64,
}

/// Model of [`Task`].
pub ghost struct TaskModel {
    pub chunks: Seq<Seq<u8>>,
    pub complete: Option<WriterResultKind>,
    pub epoch: u64,
}

impl View for Task {
    type V = TaskModel;

    open spec fn view(&self) -> TaskModel {
        TaskModel {
            chunks: rows_view(self.chunks@),
            complete: self.complete,
            epoch: self.epoch,
        }
    }
}

/// The task a placement request builds: erase rows for the old area first
/// (always, even when the old area equals the new one), then the placement
/// rows, completing with `PlaceDone`.
pub open spec fn spec_task_place(enc: EncModel, kgp_id: u32, epoch: u64) -> TaskModel {
    TaskModel {
        chunks: enc.erase_old + enc.place,
        complete: Some(WriterResultKind::PlaceDone { kgp_id }),
        epoch,
    }
}

/// The task a transmission request builds: erase rows for the old area
/// first, then the encoded payload, then the placement rows, completing with
/// `TransmitDone`.
pub open spec fn spec_task_transmit(
    enc: EncModel,
    payload: Seq<Seq<u8>>,
    kgp_id: u32,
    epoch: u64,
) -> TaskModel {
    TaskModel {
        chunks: enc.erase_old + payload + enc.place,
        complete: Some(WriterResultKind::TransmitDone { kgp_id }),
        epoch,
    }
}

/// Move every chunk of `rows` to the back of `chunks`, keeping order.
fn push_rows(chunks: &mut VecDeque<Vec<u8>>, rows: Vec<Vec<u8>>)
    ensures
        final(chunks)@ == old(chunks)@ + rows@,
{
    let mut rows = rows;
    let ghost all = rows@;
    while rows.len() > 0
        invariant
            chunks@ + rows@ == old(chunks)@ + all,
        decreases rows@.len(),
    {
        let row = rows.remove(0);
        chunks.push_back(row);
        proof {
            assert(chunks@ + rows@ =~= old(chunks)@ + all);
        }
    }
    proof {
        assert(chunks@ =~= chunks@ + rows@);
    }
}

/// Build the task for an accepted `ImagePlace` request.
pub fn task_place(enc: RowEncodings, kgp_id: u32, epoch: u64) -> (t: Task)
    ensures
        t@ == spec_task_place(enc@, kgp_id, epoch),
{
    let RowEncodings { erase_old, place, delete_all: _ } = enc;
    let ghost enc_model = EncModel {
        erase_old: rows_view(erase_old@),
        place: rows_view(place@),
        delete_all: Seq::empty(),
    };
    let mut chunks: VecDeque<Vec<u8>> = VecDeque::new();
    push_rows(&mut chunks, erase_old);
    push_rows(&mut chunks, place);
    let t = Task { chunks, complete: Some(WriterResultKind::PlaceDone { kgp_id }), epoch };
    proof {
        assert(t@.chunks =~= enc_model.erase_old + enc_model.place);
    }
    t
}

/// Build the task for an accepted `ImageTransmit` request.
pub fn task_transmit(encoded_chunks: Vec<Vec<u8>>, enc: RowEncodings, kgp_id: u32, epoch: u64) -> (t:
    Task)
    ensures
        t@ == spec_task_transmit(enc@, rows_view(encoded_chunks@), kgp_id, epoch),
{
    let ghost payload = rows_view(encoded_chunks@);
    let RowEncodings { erase_old, place, delete_all: _ } = enc;
    let ghost enc_model = EncModel {
        erase_old: rows_view(erase_old@),
        place: rows_view(place@),
        delete_all: Seq::empty(),
    };
    let mut chunks: VecDeque<Vec<u8>> = VecDeque::new();
    push_rows(&mut chunks, erase_old);
    push_rows(&mut chunks, encoded_chunks);
    push_rows(&mut chunks, place);
    let t = Task { chunks, complete: Some(WriterResultKind::TransmitDone { kgp_id }), epoch };
    proof {
        assert(t@.chunks =~= enc_model.erase_old + payload + enc_model.place);
    }
    t
}

} // verus!
