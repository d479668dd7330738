//! The writer's state machine: epoch gating, status cache, task stepping.
//!
//! The functions here are the decisions of the writer loop.  The caller owns
//! the channels and the terminal stream: it hands every arriving request to
//! [`WriterState::apply_msg`], then lets [`WriterState::flush_status`] and
//! [`WriterState::step_task`] say which bytes to write, when to flush, and
//! which completion to send back.  Each transition is pinned to a spec-level
//! transition function, over which the crate's laws are proved.

use vstd::prelude::*;

use crate::protocol::EncModel;
use crate::protocol::RowEncodings;
use crate::protocol::StatusIndicator;
use crate::protocol::WriterRequest;
use crate::protocol::WriterResult;
use crate::render::clear_all;
use crate::render::push_sgr_reset;
use crate::render::render_status;
use crate::render::sgr_reset;
use crate::render::spec_clear_bytes;
use crate::render::spec_render_status;
use crate::task::Task;
use crate::task::TaskModel;
use crate::task::spec_task_place;
use crate::task::spec_task_transmit;
use crate::task::task_place;
use crate::task::task_transmit;

verus! {

/// Flush the output stream once this many bytes have been written since the
/// last flush.
pub const FLUSH_THRESHOLD: usize = 65536;

/// The most recent status request, cached until it is rendered.
pub struct StatusLine {
    pub text: String,
    pub size: (u16, u16),
    pub indicator: StatusIndicator,
}

/// Model of [`StatusLine`].
pub ghost struct StatusModel {
    pub text: Seq<char>,
    pub size: (u16, u16),
    pub indicator: StatusIndicator,
}

impl View for StatusLine {
    type V = StatusModel;

    open spec fn view(&self) -> StatusModel {
        StatusModel { text: self.text@, size: self.size, indicator: self.indicator }
    }
}

/// Model of [`WriterState`].
pub ghost struct StateModel {
    pub is_tty: bool,
    pub last_status: Option<StatusModel>,
    pub status_dirty: bool,
    pub task: Option<TaskModel>,
    pub epoch: u64,
    pub quit: bool,
    pub pending: nat,
}

/// The writer's whole private state: the interactivity snapshot taken at
/// startup, the status cache and its dirty flag, the current task (at most
/// one ever exists), the highest accepted epoch, the shutdown flag, and the
/// count of bytes written since the last flush.
pub struct WriterState {
    pub is_tty: bool,
    pub last_status: Option<StatusLine>,
    pub status_dirty: bool,
    pub current_task: Option<Task>,
    pub current_epoch: u64,
    pub should_quit: bool,
    pub bytes_since_flush: usize,
}

impl View for WriterState {
    type V = StateModel;

    open spec fn view(&self) -> StateModel {
        StateModel {
            is_tty: self.is_tty,
            last_status: match self.last_status {
                Some(s) => Some(s@),
                None => None,
            },
            status_dirty: self.status_dirty,
            task: match self.current_task {
                Some(t) => Some(t@),
                None => None,
            },
            epoch: self.current_epoch,
            quit: self.should_quit,
            pending: self.bytes_since_flush as nat,
        }
    }
}

/// Bytes to write and whether to flush afterwards.
pub struct ApplyEffect {
    pub bytes: Vec<u8>,
    pub flush: bool,
}

/// Model of [`ApplyEffect`].
pub ghost struct EffectModel {
    pub bytes: Seq<u8>,
    pub flush: bool,
}

impl View for ApplyEffect {
    type V = EffectModel;

    open spec fn view(&self) -> EffectModel {
        EffectModel { bytes: self.bytes@, flush: self.flush }
    }
}

/// No bytes, no flush.
pub open spec fn no_effect() -> EffectModel {
    EffectModel { bytes: Seq::empty(), flush: false }
}

/// The state a fresh writer starts in.
pub open spec fn spec_init(is_tty: bool) -> StateModel {
    StateModel {
        is_tty,
        last_status: None,
        status_dirty: false,
        task: None,
        epoch: 0,
        quit: false,
        pending: 0,
    }
}

/// The request transition table.  Epoch comparisons are against the highest
/// epoch accepted so far: an image request strictly below it is dropped with
/// no effect at all, a cancel at or above it is adopted; status updates and
/// clears are never gated.
pub open spec fn spec_apply(st: StateModel, msg: WriterRequest, enc: EncModel) -> (
    StateModel,
    EffectModel,
) {
    match msg {
        WriterRequest::Shutdown => (StateModel { quit: true, ..st }, no_effect()),
        WriterRequest::Status { text, size, indicator } => (
            StateModel {
                last_status: Some(StatusModel { text: text@, size, indicator }),
                status_dirty: true,
                ..st
            },
            no_effect(),
        ),
        WriterRequest::ClearAll { area: _, is_tmux: _ } => (
            StateModel { task: None, ..st },
            if st.is_tty {
                EffectModel { bytes: spec_clear_bytes(enc), flush: true }
            } else {
                no_effect()
            },
        ),
        WriterRequest::CancelImage { kgp_id: _, is_tmux: _, area: _, epoch } => (
            if epoch >= st.epoch {
                StateModel { epoch, task: None, ..st }
            } else {
                st
            },
            if st.is_tty {
                EffectModel { bytes: sgr_reset(), flush: true }
            } else {
                no_effect()
            },
        ),
        WriterRequest::ImageTransmit { encoded_chunks, area: _, kgp_id, old_area: _, epoch } => (
            if epoch < st.epoch {
                st
            } else {
                StateModel {
                    epoch,
                    task: Some(
                        spec_task_transmit(
                            enc,
                            encoded_chunks@.map_values(|c: Vec<u8>| c@),
                            kgp_id,
                            epoch,
                        ),
                    ),
                    ..st
                }
            },
            no_effect(),
        ),
        WriterRequest::ImagePlace { area: _, kgp_id, old_area: _, epoch } => (
            if epoch < st.epoch {
                st
            } else {
                StateModel { epoch, task: Some(spec_task_place(enc, kgp_id, epoch)), ..st }
            },
            no_effect(),
        ),
    }
}

/// The status pass: when the cache is dirty, render it (only on an
/// interactive stream) and clear the dirty flag; rendering resets the
/// byte-flush counter.
pub open spec fn spec_flush_status(st: StateModel) -> (StateModel, EffectModel) {
    if !st.status_dirty {
        (st, no_effect())
    } else {
        match st.last_status {
            Some(s) => (
                StateModel { status_dirty: false, pending: 0, ..st },
                if st.is_tty {
                    EffectModel {
                        bytes: spec_render_status(s.text, s.size, s.indicator),
                        flush: true,
                    }
                } else {
                    no_effect()
                },
            ),
            None => (StateModel { status_dirty: false, ..st }, no_effect()),
        }
    }
}

/// The completion a task sends when its queue empties, tagged with the epoch
/// it was created under.
pub open spec fn spec_task_result(t: TaskModel) -> Option<WriterResult> {
    match t.complete {
        Some(kind) => Some(WriterResult { kind, epoch: t.epoch }),
        None => None,
    }
}

/// One scheduling step of the current task.
pub enum TaskStep {
    /// No task is present.
    Idle,
    /// The task's epoch no longer matches the accepted epoch: it was
    /// discarded silently, with no completion.
    Discarded,
    /// The task ended: on a non-interactive stream immediately (no bytes ever
    /// written, no flush), otherwise because its queue emptied (flush).  The
    /// completion, if the task carried one, is to be sent.
    Completed { result: Option<WriterResult>, flush: bool },
    /// One chunk was popped and is to be written; the task stays.
    Wrote { chunk: Vec<u8>, flush: bool },
}

/// Model of [`TaskStep`].
pub ghost enum StepModel {
    Idle,
    Discarded,
    Completed { result: Option<WriterResult>, flush: bool },
    Wrote { chunk: Seq<u8>, flush: bool },
}

impl View for TaskStep {
    type V = StepModel;

    open spec fn view(&self) -> StepModel {
        match self {
            TaskStep::Idle => StepModel::Idle,
            TaskStep::Discarded => StepModel::Discarded,
            TaskStep::Completed { result, flush } => StepModel::Completed {
                result: *result,
                flush: *flush,
            },
            TaskStep::Wrote { chunk, flush } => StepModel::Wrote { chunk: chunk@, flush: *flush },
        }
    }
}

/// The task pass: drop a stale task silently; on a non-interactive stream
/// synthesize the completion at once and write nothing; otherwise emit
/// exactly one chunk, flushing once the running byte count reaches
/// [`FLUSH_THRESHOLD`], and on an empty queue flush, complete and clear the
/// task.
pub open spec fn spec_step(st: StateModel) -> (StateModel, StepModel) {
    match st.task {
        None => (st, StepModel::Idle),
        Some(t) => {
            if t.epoch != st.epoch {
                (StateModel { task: None, ..st }, StepModel::Discarded)
            } else if !st.is_tty {
                (
                    StateModel { task: None, ..st },
                    StepModel::Completed { result: spec_task_result(t), flush: false },
                )
            } else if t.chunks.len() > 0 {
                let chunk = t.chunks[0];
                let rest = TaskModel { chunks: t.chunks.drop_first(), ..t };
                if chunk.len() == 0 {
                    (
                        StateModel { task: Some(rest), ..st },
                        StepModel::Wrote { chunk, flush: false },
                    )
                } else {
                    let grown: nat = if st.pending + chunk.len() > usize::MAX {
                        usize::MAX as nat
                    } else {
                        st.pending + chunk.len()
                    };
                    if grown >= FLUSH_THRESHOLD {
                        (
                            StateModel { task: Some(rest), pending: 0, ..st },
                            StepModel::Wrote { chunk, flush: true },
                        )
                    } else {
                        (
                            StateModel { task: Some(rest), pending: grown, ..st },
                            StepModel::Wrote { chunk, flush: false },
                        )
                    }
                }
            } else {
                (
                    StateModel { task: None, pending: 0, ..st },
                    StepModel::Completed { result: spec_task_result(t), flush: true },
                )
            }
        },
    }
}

impl WriterState {
    /// A fresh writer state.  The interactivity of the output stream is
    /// sampled once, here, and never re-evaluated.
    pub fn new(is_tty: bool) -> (st: WriterState)
        ensures
            st@ == spec_init(is_tty),
    {
        WriterState {
            is_tty,
            last_status: None,
            status_dirty: false,
            current_task: None,
            current_epoch: 0,
            should_quit: false,
            bytes_since_flush: 0,
        }
    }

    /// True when the writer has nothing to do and may block waiting for the
    /// next request.
    pub fn wants_request(&self) -> (r: bool)
        ensures
            r == (self@.task is None && !self@.status_dirty),
    {
        self.current_task.is_none() && !self.status_dirty
    }

    /// Apply one request, following the transition table of [`spec_apply`];
    /// the returned effect holds the bytes the caller must write (and
    /// whether to flush) for clear and cancel requests on an interactive
    /// stream.
    pub fn apply_msg(&mut self, msg: WriterRequest, enc: RowEncodings) -> (eff: ApplyEffect)
        ensures
            final(self)@ == spec_apply(old(self)@, msg, enc@).0,
            eff@ == spec_apply(old(self)@, msg, enc@).1,
    {
        match msg {
            WriterRequest::Shutdown => {
                self.should_quit = true;
                ApplyEffect { bytes: Vec::new(), flush: false }
            },
            WriterRequest::Status { text, size, indicator } => {
                self.last_status = Some(StatusLine { text, size, indicator });
                self.status_dirty = true;
                ApplyEffect { bytes: Vec::new(), flush: false }
            },
            WriterRequest::ClearAll { area: _, is_tmux: _ } => {
                self.current_task = None;
                if self.is_tty {
                    ApplyEffect { bytes: clear_all(&enc), flush: true }
                } else {
                    ApplyEffect { bytes: Vec::new(), flush: false }
                }
            },
            WriterRequest::CancelImage { kgp_id: _, is_tmux: _, area: _, epoch } => {
                if epoch >= self.current_epoch {
                    self.current_epoch = epoch;
                    self.current_task = None;
                }
                if self.is_tty {
                    let mut bytes: Vec<u8> = Vec::new();
                    push_sgr_reset(&mut bytes);
                    proof {
                        assert(bytes@ =~= sgr_reset());
                    }
                    ApplyEffect { bytes, flush: true }
                } else {
                    ApplyEffect { bytes: Vec::new(), flush: false }
                }
            },
            WriterRequest::ImageTransmit { encoded_chunks, area: _, kgp_id, old_area: _, epoch } => {
                if epoch < self.current_epoch {
                    ApplyEffect { bytes: Vec::new(), flush: false }
                } else {
                    self.current_epoch = epoch;
                    self.current_task = Some(task_transmit(encoded_chunks, enc, kgp_id, epoch));
                    ApplyEffect { bytes: Vec::new(), flush: false }
                }
            },
            WriterRequest::ImagePlace { area: _, kgp_id, old_area: _, epoch } => {
                if epoch < self.current_epoch {
                    ApplyEffect { bytes: Vec::new(), flush: false }
                } else {
                    self.current_epoch = epoch;
                    self.current_task = Some(task_place(enc, kgp_id, epoch));
                    ApplyEffect { bytes: Vec::new(), flush: false }
                }
            },
        }
    }

    /// Render the cached status if it is dirty, following
    /// [`spec_flush_status`].
    pub fn flush_status(&mut self) -> (eff: ApplyEffect)
        ensures
            final(self)@ == spec_flush_status(old(self)@).0,
            eff@ == spec_flush_status(old(self)@).1,
    {
        if !self.status_dirty {
            return ApplyEffect { bytes: Vec::new(), flush: false };
        }
        let eff = if self.last_status.is_some() {
            self.bytes_since_flush = 0;
            if self.is_tty {
                let line = self.last_status.as_ref().unwrap();
                let bytes = render_status(line.text.as_str(), line.size, line.indicator);
                ApplyEffect { bytes, flush: true }
            } else {
                ApplyEffect { bytes: Vec::new(), flush: false }
            }
        } else {
            ApplyEffect { bytes: Vec::new(), flush: false }
        };
        self.status_dirty = false;
        eff
    }

    /// Advance the current task by one scheduling step, following
    /// [`spec_step`].
    pub fn step_task(&mut self) -> (step: TaskStep)
        ensures
            final(self)@ == spec_step(old(self)@).0,
            step@ == spec_step(old(self)@).1,
    {
        if self.current_task.is_none() {
            return TaskStep::Idle;
        }
        let stale = self.current_task.as_ref().unwrap().epoch != self.current_epoch;
        if stale {
            self.current_task = None;
            return TaskStep::Discarded;
        }
        if !self.is_tty {
            let t = self.current_task.take().unwrap();
            let result = match t.complete {
                Some(kind) => Some(WriterResult { kind, epoch: t.epoch }),
                None => None,
            };
            return TaskStep::Completed { result, flush: false };
        }
        let mut t = self.current_task.take().unwrap();
        match t.chunks.pop_front() {
            Some(chunk) => {
                proof {
                    assert(t@.chunks =~= old(self)@.task.unwrap().chunks.drop_first());
                }
                self.current_task = Some(t);
                if chunk.len() == 0 {
                    TaskStep::Wrote { chunk, flush: false }
                } else {
                    self.bytes_since_flush = self.bytes_since_flush.saturating_add(chunk.len());
                    if self.bytes_since_flush >= FLUSH_THRESHOLD {
                        self.bytes_since_flush = 0;
                        TaskStep::Wrote { chunk, flush: true }
                    } else {
                        TaskStep::Wrote { chunk, flush: false }
                    }
                }
            },
            None => {
                self.bytes_since_flush = 0;
                let result = match t.complete {
                    Some(kind) => Some(WriterResult { kind, epoch: t.epoch }),
                    None => None,
                };
                TaskStep::Completed { result, flush: true }
            },
        }
    }
}

} // verus!
