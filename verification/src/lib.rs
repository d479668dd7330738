//! Serialized terminal output: a verified single-consumer writer state machine.
//!
//! Many producers hand requests (status updates, image transmissions and
//! placements, cancellations) to one writer, which owns the terminal stream.
//! This crate holds the verified core: the request protocol, the UTF-8-safe
//! status clipping and rendering, the task builder, and the writer's state
//! machine with its epoch-based preemption of stale image work.  The thin
//! layer that runs the loop over real channels and a real stdout lives
//! outside the verified library.

pub mod clip;
pub mod protocol;
pub mod render;
pub mod task;
pub mod writer;
pub mod laws;
