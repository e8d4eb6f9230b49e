//! Bounded in-memory capture of diagnostic output.
//!
//! The crate keeps the most recent bytes ever written to it, up to a fixed
//! capacity, behind a shared, lock-protected handle. At any moment the
//! retained window can be captured as an immutable snapshot, tagged with an
//! identifier, for saving to disk.

pub mod feedback;
pub mod ring;

pub use crate::feedback::CodexFeedback;
pub use crate::feedback::CodexLogSnapshot;
pub use crate::feedback::FeedbackMakeWriter;
pub use crate::feedback::FeedbackWriter;
pub use crate::feedback::RingPred;
pub use crate::feedback::SinkError;
pub use crate::feedback::UploadError;
pub use crate::feedback::DEFAULT_MAX_BYTES;
pub use crate::feedback::display_classification;
pub use crate::feedback::fallback_thread_id;
pub use crate::ring::RingBuffer;
