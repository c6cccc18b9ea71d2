//! Reusable read-buffer pool with a bounded number of parked buffers.
//!
//! The pool is an explicit object handed to the sessions that use it, not
//! ambient state; each session takes a buffer for its lifetime and parks it
//! again on the way out. At most `POOL_LIMIT` buffers are kept; beyond that a
//! returned buffer is simply dropped.

use vstd::prelude::*;

verus! {

/// Most buffers ever parked in one pool.
pub const POOL_LIMIT: usize = 32;

/// A bounded stack of cleared byte buffers ready for reuse.
pub struct BufferPool {
    buffers: Vec<Vec<u8>>,
    buffer_size: usize,
}

impl BufferPool {
    /// The contents of the parked buffers, newest last.
    pub closed spec fn parked(&self) -> Seq<Seq<u8>> {
        self.buffers@.map_values(|b: Vec<u8>| b@)
    }

    /// Never more parked buffers than the limit.
    pub open spec fn wf(&self) -> bool {
        self.parked().len() <= POOL_LIMIT
    }

    /// An empty pool; fresh buffers are sized for one read of the
    /// configured buffer size.
    pub fn new(buffer_size: usize) -> (r: BufferPool)
        ensures
            r.wf(),
            r.parked().len() == 0,
    {
        BufferPool { buffers: Vec::new(), buffer_size }
    }

    /// How many buffers are parked now.
    pub fn parked_count(&self) -> (r: usize)
        ensures
            r == self.parked().len(),
    {
        self.buffers.len()
    }

    /// Takes the most recently parked buffer, or hands out a fresh empty one
    /// if none is parked.
    pub fn get_buffer(&mut self) -> (r: Vec<u8>)
        requires
            old(self).wf(),
        ensures
            final(self).wf(),
            if old(self).parked().len() > 0 {
                r@ == old(self).parked().last() && final(self).parked() == old(
                    self,
                ).parked().drop_last()
            } else {
                r@ == Seq::<u8>::empty() && final(self).parked() == old(self).parked()
            },
    {
        match self.buffers.pop() {
            Some(buf) => {
                proof {
                    assert(self.parked() =~= old(self).parked().drop_last());
                }
                buf
            },
            None => Vec::with_capacity(self.buffer_size),
        }
    }

    /// Clears a buffer and parks it for reuse, unless the pool is full; a
    /// buffer returned to a full pool is dropped.
    pub fn return_buffer(&mut self, buf: Vec<u8>)
        requires
            old(self).wf(),
        ensures
            final(self).wf(),
            if old(self).parked().len() < POOL_LIMIT {
                final(self).parked() == old(self).parked().push(Seq::<u8>::empty())
            } else {
                final(self).parked() == old(self).parked()
            },
    {
        let mut buf = buf;
        buf.clear();
        if self.buffers.len() < POOL_LIMIT {
            self.buffers.push(buf);
            proof {
                assert(self.parked() =~= old(self).parked().push(Seq::<u8>::empty()));
            }
        }
    }
}

} // verus!
