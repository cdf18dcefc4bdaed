//! The fixed-capacity single-producer/single-consumer sample queue that
//! bridges the decode-and-control context and the hardware callback context.
//!
//! This is the sequential model of the queue: its capacity is fixed at open
//! time and never resized, the producer appends at the back, the consumer
//! takes from the front, and occupancy never exceeds the capacity.  The
//! simulated stream and the testable laws are stated over it; the threaded
//! production path keeps the same discipline behind its own handles.

use vstd::prelude::*;

verus! {

/// A bounded FIFO of interleaved samples: the view is the pending samples in
/// arrival order, oldest first.
pub struct RingBuffer<S> {
    pub data: Vec<S>,
    pub cap: usize,
}

impl<S: Copy> RingBuffer<S> {
    /// The pending samples, oldest first.
    pub open spec fn view(self) -> Seq<S> {
        self.data@
    }

    pub open spec fn wf(self) -> bool {
        self.data@.len() <= self.cap
    }

    pub open spec fn capacity_spec(self) -> nat {
        self.cap as nat
    }

    /// Creates an empty queue whose capacity is fixed forever after.
    pub fn new(capacity: usize) -> (r: RingBuffer<S>)
        ensures
            r.wf(),
            r.view() == Seq::<S>::empty(),
            r.capacity_spec() == capacity,
    {
        let r = RingBuffer { data: Vec::new(), cap: capacity };
        proof {
            assert(r.view() =~= Seq::<S>::empty());
        }
        r
    }

    /// The fixed capacity.
    pub fn capacity(&self) -> (r: usize)
        ensures
            r == self.capacity_spec(),
    {
        self.cap
    }

    /// The number of samples pending.
    pub fn len(&self) -> (r: usize)
        ensures
            r == self.view().len(),
    {
        self.data.len()
    }

    /// The number of samples that can still be accepted.
    pub fn free(&self) -> (r: usize)
        requires
            self.wf(),
        ensures
            r == self.capacity_spec() - self.view().len(),
    {
        self.cap - self.data.len()
    }

    /// Appends `samples[start..]` as far as capacity allows and reports how
    /// many samples were accepted: the lesser of what was offered and the
    /// free space.  Accepted samples are queued behind the pending ones in
    /// their given order; nothing already queued moves.
    pub fn push_slice(&mut self, samples: &Vec<S>, start: usize) -> (n: usize)
        requires
            old(self).wf(),
            start <= samples@.len(),
        ensures
            final(self).wf(),
            final(self).capacity_spec() == old(self).capacity_spec(),
            n == vstd::math::min(
                samples@.len() - start,
                old(self).capacity_spec() - old(self).view().len(),
            ),
            final(self).view() == old(self).view() + samples@.subrange(
                start as int,
                start + n,
            ),
    {
        let space: usize = self.cap - self.data.len();
        let offered: usize = samples.len() - start;
        let n: usize = if offered < space {
            offered
        } else {
            space
        };
        let mut k: usize = 0;
        while k < n
            invariant
                k <= n,
                start + n <= samples@.len(),
                samples@.len() <= usize::MAX,
                self.cap == old(self).cap,
                self.data@.len() == old(self).data@.len() + k,
                self.data@ == old(self).data@ + samples@.subrange(start as int, start + k),
            decreases n - k,
        {
            self.data.push(samples[start + k]);
            proof {
                assert(self.data@ =~= old(self).data@ + samples@.subrange(
                    start as int,
                    start + k + 1,
                ));
            }
            k += 1;
        }
        n
    }

    /// Takes up to `n` samples from the front, in arrival order: the result
    /// is the longest prefix of the pending samples no longer than `n`, and
    /// exactly those samples leave the queue.
    pub fn read_front(&mut self, n: usize) -> (out: Vec<S>)
        requires
            old(self).wf(),
        ensures
            final(self).wf(),
            final(self).capacity_spec() == old(self).capacity_spec(),
            out@.len() == vstd::math::min(n as int, old(self).view().len() as int),
            out@ == old(self).view().take(out@.len() as int),
            final(self).view() == old(self).view().skip(out@.len() as int),
    {
        let avail: usize = self.data.len();
        let take: usize = if n < avail {
            n
        } else {
            avail
        };
        let mut out: Vec<S> = Vec::new();
        let mut k: usize = 0;
        while k < take
            invariant
                k <= take,
                take <= self.data@.len(),
                self == old(self),
                out@ == self.data@.subrange(0, k as int),
            decreases take - k,
        {
            out.push(self.data[k]);
            proof {
                assert(out@ =~= self.data@.subrange(0, k + 1));
            }
            k += 1;
        }
        let mut rest: Vec<S> = Vec::new();
        let mut j: usize = take;
        while j < self.data.len()
            invariant
                take <= j <= self.data@.len(),
                self == old(self),
                rest@ == self.data@.subrange(take as int, j as int),
            decreases self.data@.len() - j,
        {
            rest.push(self.data[j]);
            proof {
                assert(rest@ =~= self.data@.subrange(take as int, j + 1));
            }
            j += 1;
        }
        self.data = rest;
        proof {
            assert(out@ =~= old(self).view().take(take as int));
            assert(self.view() =~= old(self).view().skip(take as int));
        }
        out
    }
}

} // verus!
