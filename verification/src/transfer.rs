//! A bounded, read-once byte budget for a response body.
//!
//! A `TransferStream` captures a byte limit when it is constructed and
//! accounts for every byte handed out afterwards. The caller that owns the
//! underlying byte source asks `budget` how many bytes it may deliver next
//! and reports with `record` how many it actually delivered; the accounting
//! guarantees that the total never exceeds the limit, no matter how the
//! source behaves (in particular, even if a file grows after the limit was
//! captured from its metadata).

use vstd::prelude::*;

verus! {

pub struct TransferStream {
    limit: u64,
    delivered: u64,
}

impl TransferStream {
    /// The byte limit fixed at construction; it never changes afterwards.
    pub closed spec fn spec_limit(&self) -> u64 {
        self.limit
    }

    /// Total bytes recorded as delivered so far.
    pub closed spec fn spec_delivered(&self) -> u64 {
        self.delivered
    }

    /// Bytes still allowed to be delivered.
    pub open spec fn spec_remaining(&self) -> int {
        self.spec_limit() - self.spec_delivered()
    }

    pub open spec fn wf(&self) -> bool {
        self.spec_delivered() <= self.spec_limit()
    }

    pub fn new(limit: u64) -> (s: Self)
        ensures
            s.wf(),
            s.spec_limit() == limit,
            s.spec_delivered() == 0,
    {
        TransferStream { limit, delivered: 0 }
    }

    /// Bytes still allowed to be delivered.
    pub fn remaining(&self) -> (r: u64)
        requires
            self.wf(),
        ensures
            r == self.spec_remaining(),
    {
        self.limit - self.delivered
    }

    /// The total length still to be served, in the shape the host's body
    /// interface asks for.
    pub fn len(&self) -> (r: Option<u64>)
        requires
            self.wf(),
        ensures
            r == Some((self.spec_remaining()) as u64),
    {
        Some(self.limit - self.delivered)
    }

    /// How many bytes may be delivered into a buffer of `buf_len` bytes:
    /// the buffer size capped by what is left of the limit.
    pub fn budget(&self, buf_len: usize) -> (n: usize)
        requires
            self.wf(),
        ensures
            n == if buf_len as int <= self.spec_remaining() {
                buf_len as int
            } else {
                self.spec_remaining()
            },
            n <= buf_len,
            n as int <= self.spec_remaining(),
    {
        let rem = self.limit - self.delivered;
        if (buf_len as u64) <= rem {
            buf_len
        } else {
            rem as usize
        }
    }

    /// Account for `n` bytes actually delivered; `n` must not exceed what
    /// `budget` allowed, so the running total stays within the limit.
    pub fn record(&mut self, n: usize)
        requires
            old(self).wf(),
            n as int <= old(self).spec_remaining(),
        ensures
            final(self).wf(),
            final(self).spec_limit() == old(self).spec_limit(),
            final(self).spec_delivered() == old(self).spec_delivered() + n,
    {
        self.delivered = self.delivered + n as u64;
    }
}

/// Transfer bound: however many reads were made, the total number of bytes
/// a well-formed stream has delivered never exceeds the limit fixed at
/// construction. `new` establishes well-formedness and `budget`/`record`
/// preserve it, so this holds in every reachable state.
pub proof fn lemma_transfer_bound(s: TransferStream)
    requires
        s.wf(),
    ensures
        s.spec_delivered() <= s.spec_limit(),
{
}

} // verus!
