//! Shared, lock-protected access to one ring buffer: writer handles for a
//! logging layer to push bytes through, and point-in-time snapshots of the
//! retained window, taggable with an identifier and ready to be persisted.

use crate::ring::RingBuffer;
use std::sync::Arc;
use vstd::prelude::*;
use vstd::rwlock::{RwLock, RwLockPredicate};
use vstd::string::*;

verus! {

/// Default retained size: 4 MiB.
pub const DEFAULT_MAX_BYTES: usize = 4 * 1024 * 1024;

/// The lock invariant on the shared ring buffer: every value stored in the
/// lock is a consistent buffer of this fixed capacity.
pub struct RingPred {
    pub max: usize,
}

impl RwLockPredicate<RingBuffer> for RingPred {
    open spec fn inv(self, v: RingBuffer) -> bool {
        v.wf() && v.max == self.max
    }
}

struct FeedbackInner {
    ring: RwLock<RingBuffer, RingPred>,
}

/// Relies on std's `Arc::clone`: the returned handle refers to the same
/// allocation as the argument, so as a value it equals it.
#[verifier::external_body]
fn clone_handle(inner: &Arc<FeedbackInner>) -> (r: Arc<FeedbackInner>)
    ensures
        r == *inner,
{
    Arc::clone(inner)
}

/// Relies on uuid's `Uuid::new_v4` and its `Display` form: a freshly drawn
/// random version-4 UUID rendered hyphenated, which is exactly 36
/// characters. Nothing more is assumed of a random value.
#[verifier::external_body]
fn fresh_unique_id() -> (r: String)
    ensures
        r@.len() == 36,
{
    uuid::Uuid::new_v4().to_string()
}

/// A handle on one shared feedback buffer. Clones of the handle, and every
/// writer made from it, share the same buffer behind the same lock.
pub struct CodexFeedback {
    inner: Arc<FeedbackInner>,
}

/// A factory bound to one shared buffer; each writer it makes feeds that
/// buffer.
pub struct FeedbackMakeWriter {
    inner: Arc<FeedbackInner>,
}

/// A byte sink bound to one shared buffer: the point where log text enters
/// the ring.
pub struct FeedbackWriter {
    inner: Arc<FeedbackInner>,
}

/// The failure the write path would report if the sink could not accept
/// bytes. The verified lock cannot fail to be acquired, so no operation of
/// this crate ever constructs one; the type keeps the sink interface whole.
#[derive(Debug)]
pub struct SinkError;

/// The failure the disabled upload path would report. The operation is a
/// no-op that always succeeds, so no operation ever constructs one.
#[derive(Debug)]
pub struct UploadError;

impl CodexFeedback {
    /// The lock, with its invariant, guarding the shared ring buffer.
    pub closed spec fn state(&self) -> RwLock<RingBuffer, RingPred> {
        self.inner.ring
    }

    /// Fixed capacity of the shared buffer, in bytes.
    pub open spec fn capacity(&self) -> usize {
        self.state().pred().max
    }

    /// A buffer of the default capacity.
    pub fn new() -> (r: Self)
        ensures
            r.capacity() == DEFAULT_MAX_BYTES,
    {
        Self::with_capacity(DEFAULT_MAX_BYTES)
    }

    /// A buffer that retains at most `max_bytes` bytes.
    pub fn with_capacity(max_bytes: usize) -> (r: Self)
        requires
            1 <= max_bytes,
        ensures
            r.capacity() == max_bytes,
    {
        let ring = RingBuffer::new(max_bytes);
        let lock = RwLock::new(ring, Ghost(RingPred { max: max_bytes }));
        CodexFeedback { inner: Arc::new(FeedbackInner { ring: lock }) }
    }

    /// A new writer factory backed by the same shared buffer.
    pub fn make_writer(&self) -> (r: FeedbackMakeWriter)
        ensures
            r.state() == self.state(),
            r.capacity() == self.capacity(),
    {
        FeedbackMakeWriter { inner: clone_handle(&self.inner) }
    }

    /// Capture the current contents as an immutable snapshot, tagged with
    /// the given session identifier, or with a synthesized one — a fixed
    /// marker followed by a fresh unique value — when none is supplied.
    pub fn snapshot(&self, session_id: Option<String>) -> (r: CodexLogSnapshot)
        ensures
            r.contents().len() <= self.capacity(),
            exists|v: RingBuffer| #[trigger] self.state().inv(v) && r.contents() == v.buf@,
            session_id matches Some(id) ==> r.identifier() == id@,
            session_id is None ==> {
                &&& r.identifier().len() == "no-active-thread-"@.len() + 36
                &&& r.identifier().subrange(0, "no-active-thread-"@.len() as int)
                    == "no-active-thread-"@
            },
    {
        let handle = self.inner.ring.acquire_read();
        let ghost observed: RingBuffer = handle.view();
        let ring = handle.borrow();
        let bytes = ring.snapshot_bytes();
        handle.release_read();
        proof {
            assert(self.state().inv(observed) && bytes@ == observed.buf@);
        }
        let thread_id = match session_id {
            Some(id) => id,
            None => {
                let fresh = fresh_unique_id();
                let id = fallback_thread_id(fresh.as_str());
                proof {
                    let ghost p = "no-active-thread-"@;
                    assert((p + fresh@).subrange(0, p.len() as int) =~= p);
                }
                id
            },
        };
        CodexLogSnapshot { bytes, thread_id }
    }
}

impl Clone for CodexFeedback {
    fn clone(&self) -> (r: Self)
        ensures
            r.state() == self.state(),
            r.capacity() == self.capacity(),
    {
        CodexFeedback { inner: clone_handle(&self.inner) }
    }
}

impl Default for CodexFeedback {
    fn default() -> (r: Self)
        ensures
            r.capacity() == DEFAULT_MAX_BYTES,
    {
        CodexFeedback::new()
    }
}

impl FeedbackMakeWriter {
    /// The lock, with its invariant, guarding the shared ring buffer.
    pub closed spec fn state(&self) -> RwLock<RingBuffer, RingPred> {
        self.inner.ring
    }

    /// Fixed capacity of the shared buffer, in bytes.
    pub open spec fn capacity(&self) -> usize {
        self.state().pred().max
    }

    /// A new writer feeding the same shared buffer.
    pub fn make_writer(&self) -> (r: FeedbackWriter)
        ensures
            r.state() == self.state(),
            r.capacity() == self.capacity(),
    {
        FeedbackWriter { inner: clone_handle(&self.inner) }
    }
}

impl Clone for FeedbackMakeWriter {
    fn clone(&self) -> (r: Self)
        ensures
            r.state() == self.state(),
            r.capacity() == self.capacity(),
    {
        FeedbackMakeWriter { inner: clone_handle(&self.inner) }
    }
}

impl FeedbackWriter {
    /// The lock, with its invariant, guarding the shared ring buffer.
    pub closed spec fn state(&self) -> RwLock<RingBuffer, RingPred> {
        self.inner.ring
    }

    /// Fixed capacity of the shared buffer, in bytes.
    pub open spec fn capacity(&self) -> usize {
        self.state().pred().max
    }

    /// Push a chunk of bytes into the shared buffer and report the whole
    /// chunk as consumed: the push is total over any chunk length, so there
    /// is never a short write, and the verified lock cannot fail, so the
    /// error branch of the sink interface is never taken.
    pub fn write(&mut self, buf: &[u8]) -> (r: Result<usize, SinkError>)
        ensures
            final(self).state() == old(self).state(),
            r matches Ok(n) && n == buf@.len(),
    {
        let (mut ring, handle) = self.inner.ring.acquire_write();
        ring.push_bytes(buf);
        handle.release_write(ring);
        Ok(buf.len())
    }

    /// There is no buffering layer beyond the ring itself: flushing is a
    /// no-op that always succeeds.
    pub fn flush(&mut self) -> (r: Result<(), SinkError>)
        ensures
            final(self).state() == old(self).state(),
            r matches Ok(u) && u == (),
    {
        Ok(())
    }
}

/// Character-for-character equality of two string slices.
fn str_eq(a: &str, b: &str) -> (r: bool)
    ensures
        r == (a@ == b@),
{
    let alen: usize = a.unicode_len();
    let blen: usize = b.unicode_len();
    if alen != blen {
        return false;
    }
    let mut i: usize = 0;
    while i < alen
        invariant
            i <= alen,
            alen == a@.len(),
            blen == b@.len(),
            alen == blen,
            forall|j: int| 0 <= j < i ==> a@[j] == b@[j],
        decreases alen - i,
    {
        if a.get_char(i) != b.get_char(i) {
            return false;
        }
        i += 1;
    }
    proof {
        assert(a@ =~= b@);
    }
    true
}

/// The human-readable label of a feedback classification tag.
pub open spec fn classification_label(c: Seq<char>) -> Seq<char> {
    if c == "bug"@ {
        "Bug"@
    } else if c == "bad_result"@ {
        "Bad result"@
    } else if c == "good_result"@ {
        "Good result"@
    } else {
        "Other"@
    }
}

/// The display form of a feedback classification tag.
pub fn display_classification(classification: &str) -> (r: String)
    ensures
        r@ == classification_label(classification@),
{
    if str_eq(classification, "bug") {
        String::from_str("Bug")
    } else if str_eq(classification, "bad_result") {
        String::from_str("Bad result")
    } else if str_eq(classification, "good_result") {
        String::from_str("Good result")
    } else {
        String::from_str("Other")
    }
}

/// The synthesized identifier used when no session identifier is supplied:
/// a fixed, clearly distinguishable marker followed by a fresh unique
/// value, so untagged snapshots never collide with session-tagged ones.
pub fn fallback_thread_id(fresh: &str) -> (r: String)
    ensures
        r@ == "no-active-thread-"@ + fresh@,
{
    String::from_str("no-active-thread-").concat(fresh)
}

/// An immutable capture of the buffer's contents at one instant, tagged
/// with an identifier used to name the file it may be persisted to.
pub struct CodexLogSnapshot {
    bytes: Vec<u8>,
    /// The identifier of the session the capture belongs to, or the
    /// synthesized fallback.
    pub thread_id: String,
}

impl CodexLogSnapshot {
    /// The captured bytes.
    pub closed spec fn contents(&self) -> Seq<u8> {
        self.bytes@
    }

    /// The identifier the capture is tagged with.
    pub closed spec fn identifier(&self) -> Seq<char> {
        self.thread_id@
    }

    /// The identifier, as the callers read it.
    pub fn thread_id(&self) -> (r: &String)
        ensures
            r@ == self.identifier(),
    {
        &self.thread_id
    }

    /// The captured bytes, oldest first.
    pub fn as_bytes(&self) -> (r: &[u8])
        ensures
            r@ == self.contents(),
    {
        self.bytes.as_slice()
    }

    /// The file name a persisted snapshot is stored under: a fixed prefix,
    /// the identifier, and a fixed suffix.
    pub fn snapshot_filename(&self) -> (r: String)
        ensures
            r@ == "codex-feedback-"@ + self.identifier() + ".log"@,
    {
        String::from_str("codex-feedback-").concat(self.thread_id.as_str()).concat(".log")
    }

    /// Disabled upload: a no-op that performs no network or filesystem
    /// action and always succeeds, whatever the parameters say. The
    /// parameters are kept for interface compatibility only.
    pub fn upload_feedback(
        &self,
        _classification: &str,
        _reason: Option<&str>,
        _include_logs: bool,
        _rollout_path: Option<&str>,
    ) -> (r: Result<(), UploadError>)
        ensures
            r matches Ok(u) && u == (),
    {
        Ok(())
    }
}

} // verus!
