//! The bounded byte ring: it retains the most recent bytes appended to it,
//! up to a fixed capacity, evicting the oldest bytes first.

use vstd::prelude::*;

verus! {

/// What a buffer of capacity `cap` retains out of the full append history
/// `h`: all of `h` while it fits, otherwise exactly the trailing `cap` bytes.
pub open spec fn retained(h: Seq<u8>, cap: nat) -> Seq<u8> {
    if h.len() <= cap {
        h
    } else {
        h.skip(h.len() - cap)
    }
}

/// A chunk at least as large as the capacity makes the retained window a
/// window of the chunk alone: whatever history came before it is gone.
proof fn lemma_retained_oversized(h: Seq<u8>, d: Seq<u8>, cap: nat)
    requires
        1 <= cap,
        cap <= d.len(),
    ensures
        retained(h + d, cap) == d.subrange(d.len() - cap, d.len() as int),
{
    assert(retained(h + d, cap) =~= d.subrange(d.len() - cap, d.len() as int));
}

/// Appending a chunk smaller than the capacity and evicting exactly the
/// overflow from the front of the old contents lands on the retained
/// window of the grown history.
proof fn lemma_retained_append(h: Seq<u8>, d: Seq<u8>, cap: nat, b: Seq<u8>, e: int)
    requires
        1 <= cap,
        d.len() < cap,
        b == retained(h, cap),
        e == if b.len() + d.len() > cap {
            b.len() + d.len() - cap
        } else {
            0
        },
    ensures
        retained(h + d, cap) == b.skip(e) + d,
{
    assert(retained(h + d, cap) =~= b.skip(e) + d);
}

/// A bounded byte store. Appends evict from the front once the fixed
/// capacity is reached, so the live contents are always the most recent
/// `max` bytes of everything ever pushed, in original order.
pub struct RingBuffer {
    /// Fixed positive capacity, in bytes.
    pub max: usize,
    /// Live contents, oldest first.
    pub buf: Vec<u8>,
    /// Every byte ever pushed, in order: the model the contracts speak of.
    pub history: Ghost<Seq<u8>>,
}

impl RingBuffer {
    /// The buffer is consistent: its contents are exactly the retained
    /// suffix of its append history and never exceed the capacity.
    pub open spec fn wf(&self) -> bool {
        &&& 1 <= self.max
        &&& self.buf@ == retained(self.history@, self.max as nat)
        &&& self.buf@.len() <= self.max
    }

    pub fn new(capacity: usize) -> (r: Self)
        requires
            1 <= capacity,
        ensures
            r.wf(),
            r.max == capacity,
            r.history@ == Seq::<u8>::empty(),
            r.buf@ == Seq::<u8>::empty(),
    {
        RingBuffer { max: capacity, buf: Vec::with_capacity(capacity), history: Ghost(Seq::empty()) }
    }

    pub fn len(&self) -> (r: usize)
        ensures
            r == self.buf@.len(),
    {
        self.buf.len()
    }

    /// Append `data`, evicting the oldest bytes as needed so the contents
    /// stay within capacity. An empty chunk changes nothing; a chunk at
    /// least as large as the capacity replaces the contents with its own
    /// trailing bytes; otherwise exactly as many bytes leave the front as
    /// the append would overflow by.
    pub fn push_bytes(&mut self, data: &[u8])
        requires
            old(self).wf(),
        ensures
            final(self).wf(),
            final(self).max == old(self).max,
            final(self).history@ == old(self).history@ + data@,
            data@.len() == 0 ==> final(self).buf@ == old(self).buf@,
    {
        let ghost old_hist: Seq<u8> = self.history@;
        self.history = Ghost(old_hist + data@);
        if data.len() == 0 {
            proof {
                assert(old_hist + data@ =~= old_hist);
            }
            return;
        }
        // An oversized chunk: only its own trailing bytes survive.
        if data.len() >= self.max {
            self.buf.clear();
            let start: usize = data.len() - self.max;
            proof {
                assert(self.buf@ =~= data@.subrange(start as int, start as int));
            }
            let mut i: usize = start;
            while i < data.len()
                invariant
                    start <= i <= data@.len(),
                    self.buf@ == data@.subrange(start as int, i as int),
                    self.max == old(self).max,
                    self.history@ == old_hist + data@,
                decreases data@.len() - i,
            {
                let b: u8 = data[i];
                self.buf.push(b);
                proof {
                    assert(data@.subrange(start as int, i as int).push(b) =~= data@.subrange(
                        start as int,
                        i + 1,
                    ));
                }
                i += 1;
            }
            proof {
                lemma_retained_oversized(old_hist, data@, self.max as nat);
            }
            return;
        }
        // Evict from the front exactly what the append would overflow by.
        let room: usize = self.max - self.buf.len();
        let ghost evicted: int = if data@.len() > room { data@.len() - room } else { 0 };
        if data.len() > room {
            let to_drop: usize = data.len() - room;
            let tail = self.buf.split_off(to_drop);
            self.buf = tail;
        }
        let ghost kept: Seq<u8> = self.buf@;
        proof {
            assert(kept =~= old(self).buf@.skip(evicted));
            assert(self.buf@ =~= kept + data@.subrange(0, 0));
        }
        let mut i: usize = 0;
        while i < data.len()
            invariant
                i <= data@.len(),
                self.buf@ == kept + data@.subrange(0, i as int),
                self.max == old(self).max,
                self.history@ == old_hist + data@,
            decreases data@.len() - i,
        {
            let b: u8 = data[i];
            self.buf.push(b);
            proof {
                let ghost grown: Seq<u8> = kept + data@.subrange(0, i + 1);
                assert((kept + data@.subrange(0, i as int)).push(b) =~= grown);
            }
            i += 1;
        }
        proof {
            assert(data@.subrange(0, data@.len() as int) =~= data@);
            lemma_retained_append(old_hist, data@, self.max as nat, old(self).buf@, evicted);
        }
    }

    /// A full, independently owned copy of the current contents.
    pub fn snapshot_bytes(&self) -> (r: Vec<u8>)
        ensures
            r@ == self.buf@,
    {
        vstd::slice::slice_to_vec(self.buf.as_slice())
    }
}

/// Law: in every consistent state, however it was reached, the live
/// contents never exceed the capacity.
pub proof fn lemma_contents_bounded(rb: RingBuffer)
    requires
        rb.wf(),
    ensures
        rb.buf@.len() <= rb.max,
{
}

/// Law: once the total append history has reached the capacity, the live
/// contents are exactly the trailing `max` bytes of that history, in
/// original order.
pub proof fn lemma_suffix_retention(rb: RingBuffer)
    requires
        rb.wf(),
        rb.history@.len() >= rb.max,
    ensures
        rb.buf@ == rb.history@.skip(rb.history@.len() - rb.max),
{
    if rb.history@.len() == rb.max {
        assert(rb.history@.skip(0) =~= rb.history@);
    }
}

/// Law: two snapshots taken from the same state, with no write between
/// them, return identical byte sequences.
pub proof fn lemma_snapshot_repeatable(rb: RingBuffer, r1: Vec<u8>, r2: Vec<u8>)
    requires
        call_ensures(RingBuffer::snapshot_bytes, (&rb,), r1),
        call_ensures(RingBuffer::snapshot_bytes, (&rb,), r2),
    ensures
        r1@ == r2@,
{
}

} // verus!
