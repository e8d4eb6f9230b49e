use codex_feedback::CodexFeedback;
use codex_feedback::RingBuffer;
use codex_feedback::display_classification;
use codex_feedback::fallback_thread_id;

#[test]
fn ring_buffer_drops_front_when_full() {
    let fb = CodexFeedback::with_capacity(8);
    {
        let mw = fb.make_writer();
        let mut w = mw.make_writer();
        w.write(b"abcdefgh").unwrap();
        w.write(b"ij").unwrap();
    }
    let snap = fb.snapshot(None);
    // Capacity 8: after writing 10 bytes, we should keep the last 8.
    assert_eq!(std::str::from_utf8(snap.as_bytes()).unwrap(), "cdefghij");
}

#[test]
fn oversized_chunk_keeps_only_its_tail() {
    let mut rb = RingBuffer::new(4);
    rb.push_bytes(b"abcdefg");
    assert_eq!(rb.snapshot_bytes(), b"defg".to_vec());
    assert_eq!(rb.len(), 4);
}

#[test]
fn eviction_is_minimal_and_order_preserving() {
    let mut rb = RingBuffer::new(8);
    rb.push_bytes(b"abcdefgh");
    rb.push_bytes(b"ij");
    assert_eq!(rb.snapshot_bytes(), b"cdefghij".to_vec());
}

#[test]
fn empty_chunk_changes_nothing() {
    let mut rb = RingBuffer::new(8);
    rb.push_bytes(b"");
    assert_eq!(rb.len(), 0);
    rb.push_bytes(b"abc");
    rb.push_bytes(b"");
    assert_eq!(rb.snapshot_bytes(), b"abc".to_vec());
    assert_eq!(rb.len(), 3);
}

#[test]
fn empty_write_leaves_buffer_unchanged() {
    let fb = CodexFeedback::with_capacity(8);
    let mut w = fb.make_writer().make_writer();
    w.write(b"abc").unwrap();
    let n = w.write(b"").unwrap();
    assert_eq!(n, 0);
    assert_eq!(fb.snapshot(None).as_bytes(), b"abc");
}

#[test]
fn length_stays_bounded_after_every_push() {
    let mut rb = RingBuffer::new(4);
    let chunks: Vec<&[u8]> = vec![b"a", b"bc", b"defg", b"hijklmnop", b"", b"qr"];
    for chunk in chunks {
        rb.push_bytes(chunk);
        assert!(rb.len() <= 4);
    }
}

#[test]
fn contents_equal_suffix_of_full_history() {
    let mut rb = RingBuffer::new(5);
    let chunks: Vec<&[u8]> = vec![b"one", b"two", b"three", b"4", b"55"];
    let mut history: Vec<u8> = Vec::new();
    for chunk in chunks {
        rb.push_bytes(chunk);
        history.extend_from_slice(chunk);
    }
    assert!(history.len() >= 5);
    let expected = &history[history.len() - 5..];
    assert_eq!(rb.snapshot_bytes(), expected.to_vec());
}

#[test]
fn snapshot_twice_without_writes_is_identical() {
    let fb = CodexFeedback::with_capacity(16);
    let mut w = fb.make_writer().make_writer();
    w.write(b"stable bytes").unwrap();
    let first = fb.snapshot(Some("s".to_string()));
    let second = fb.snapshot(Some("s".to_string()));
    assert_eq!(first.as_bytes(), second.as_bytes());
}

#[test]
fn two_writers_fill_to_exactly_capacity() {
    let fb = CodexFeedback::with_capacity(8);
    let mw = fb.make_writer();
    let mut w1 = mw.make_writer();
    let mut w2 = mw.make_writer();
    w1.write(b"AAAA").unwrap();
    w2.write(b"BBBB").unwrap();
    let snap = fb.snapshot(None);
    assert_eq!(snap.as_bytes().len(), 8);
    assert_eq!(snap.as_bytes(), b"AAAABBBB");
}

#[test]
fn writes_report_full_length_and_flush_succeeds() {
    let fb = CodexFeedback::with_capacity(4);
    let mut w = fb.make_writer().make_writer();
    // Longer than the capacity: still reported fully consumed.
    assert_eq!(w.write(b"abcdefgh").unwrap(), 8);
    assert!(w.flush().is_ok());
}

#[test]
fn clones_share_the_same_buffer() {
    let fb = CodexFeedback::with_capacity(16);
    let fb2 = fb.clone();
    let mut w = fb.make_writer().make_writer();
    w.write(b"shared").unwrap();
    assert_eq!(fb2.snapshot(None).as_bytes(), b"shared");
}

#[test]
fn default_buffer_accepts_writes() {
    let fb = CodexFeedback::default();
    let mut w = fb.make_writer().make_writer();
    w.write(b"hello").unwrap();
    assert_eq!(fb.snapshot(None).as_bytes(), b"hello");
}

#[test]
fn snapshot_keeps_supplied_identifier() {
    let fb = CodexFeedback::with_capacity(8);
    let snap = fb.snapshot(Some("sess-1".to_string()));
    assert_eq!(snap.thread_id, "sess-1");
}

#[test]
fn snapshot_synthesizes_identifier_when_none_supplied() {
    let fb = CodexFeedback::with_capacity(8);
    let first = fb.snapshot(None);
    assert!(first.thread_id.starts_with("no-active-thread-"));
    assert_eq!(first.thread_id.len(), "no-active-thread-".len() + 36);
    let second = fb.snapshot(None);
    assert_ne!(first.thread_id, second.thread_id);
}

#[test]
fn fallback_identifier_concatenates_marker_and_fresh_value() {
    assert_eq!(fallback_thread_id("xyz"), "no-active-thread-xyz");
}

#[test]
fn snapshot_filename_contains_the_identifier() {
    let fb = CodexFeedback::with_capacity(8);
    let snap = fb.snapshot(Some("abc".to_string()));
    let name = snap.snapshot_filename();
    assert_eq!(name, "codex-feedback-abc.log");
    assert!(name.contains(&snap.thread_id));
}

#[test]
fn upload_feedback_is_inert_and_succeeds() {
    let fb = CodexFeedback::with_capacity(8);
    let snap = fb.snapshot(Some("abc".to_string()));
    assert!(snap.upload_feedback("bug", Some("a reason"), true, Some("/tmp/rollout")).is_ok());
    assert!(snap.upload_feedback("other", None, false, None).is_ok());
}

#[test]
fn classification_labels() {
    assert_eq!(display_classification("bug"), "Bug");
    assert_eq!(display_classification("bad_result"), "Bad result");
    assert_eq!(display_classification("good_result"), "Good result");
    assert_eq!(display_classification("anything else"), "Other");
    assert_eq!(display_classification(""), "Other");
}
