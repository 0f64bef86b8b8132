//! Turns a stream of foreground-window changes into timestamped activity
//! segments: "application X showed window Y from t0 to t1".
//!
//! The heart of the crate is [`SessionTracker`], a state machine that holds
//! at most one open segment and, on every focus change, either closes it
//! into an [`ActivitySegment`] or drops it as sub-second flicker.

pub mod laws;
pub mod monitor;
pub mod orchestrator;
pub mod segment;
pub mod timestamp;
pub mod tracker;

pub use monitor::ActivityEvent;
pub use orchestrator::{LoopAction, LoopInput, Orchestrator};
pub use segment::{ActivityRow, ActivitySegment, OpenSegment};
pub use timestamp::Timestamp;
pub use tracker::SessionTracker;
