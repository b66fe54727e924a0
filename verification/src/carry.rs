//! Carry-over bookkeeping for the streaming rate converter.
//!
//! The converter consumes input in chunks whose size it announces before each
//! processing step. Capture callbacks deliver blocks of arbitrary length, so
//! a block may hold zero or more full chunks plus a remainder; the remainder
//! is retained and prepended to the next block. [`SampleCarry`] is that
//! buffer, with ghost bookkeeping that lets callers prove that no sample is
//! dropped, duplicated or reordered across block boundaries.

use vstd::prelude::*;

verus! {

/// Buffers mono samples between capture blocks and hands them to the
/// converter in exact chunks, oldest samples first.
///
/// Ghost bookkeeping: `fed()` is every sample ever pushed, in order;
/// `consumed()` is every sample handed out in a chunk, in order. The
/// well-formedness invariant says the two sides balance exactly.
pub struct SampleCarry<S> {
    pending: Vec<S>,
    consumed: Ghost<Seq<S>>,
    fed: Ghost<Seq<S>>,
}

impl<S> SampleCarry<S> {
    /// The samples currently held over, oldest first.
    pub closed spec fn pending(self) -> Seq<S> {
        self.pending@
    }

    /// Every sample handed out to the converter so far, in order.
    pub closed spec fn consumed(self) -> Seq<S> {
        self.consumed@
    }

    /// Every sample ever pushed into the carry, in order.
    pub closed spec fn fed(self) -> Seq<S> {
        self.fed@
    }

    /// Conservation: the samples handed out, followed by the samples still
    /// pending, are exactly the samples pushed — in order, none dropped,
    /// none duplicated.
    pub open spec fn wf(self) -> bool {
        self.consumed() + self.pending() == self.fed()
    }

    /// An empty carry.
    pub fn new() -> (r: SampleCarry<S>)
        ensures
            r.wf(),
            r.pending() == Seq::<S>::empty(),
            r.consumed() == Seq::<S>::empty(),
            r.fed() == Seq::<S>::empty(),
    {
        let r = SampleCarry {
            pending: Vec::new(),
            consumed: Ghost(Seq::empty()),
            fed: Ghost(Seq::empty()),
        };
        proof {
            assert(r.consumed() + r.pending() =~= r.fed());
        }
        r
    }

    /// Appends one capture block's mono samples after the held-over
    /// remainder.
    pub fn push_samples(&mut self, mut block: Vec<S>)
        requires
            old(self).wf(),
        ensures
            final(self).wf(),
            final(self).pending() == old(self).pending() + block@,
            final(self).consumed() == old(self).consumed(),
            final(self).fed() == old(self).fed() + block@,
    {
        let ghost b = block@;
        self.pending.append(&mut block);
        proof {
            self.fed@ = self.fed@ + b;
            assert(self.consumed() + self.pending() =~= self.fed());
        }
    }

    /// Hands out the next chunk of exactly `chunk_len` samples, oldest
    /// first, if that many are pending; a chunk holds at least one sample.
    /// When fewer than `chunk_len` samples are pending, nothing is handed
    /// out and everything is carried forward — the caller is at most one
    /// chunk behind the input.
    pub fn take_chunk(&mut self, chunk_len: usize) -> (r: Option<Vec<S>>)
        requires
            old(self).wf(),
        ensures
            final(self).wf(),
            final(self).fed() == old(self).fed(),
            chunk_len == 0 || old(self).pending().len() < chunk_len ==> r is None
                && final(self).pending() == old(self).pending()
                && final(self).consumed() == old(self).consumed(),
            chunk_len >= 1 && old(self).pending().len() >= chunk_len ==> match r {
                Some(chunk) => {
                    &&& chunk@ == old(self).pending().subrange(0, chunk_len as int)
                    &&& final(self).pending() == old(self).pending().subrange(
                        chunk_len as int,
                        old(self).pending().len() as int,
                    )
                    &&& final(self).consumed() == old(self).consumed() + chunk@
                },
                None => false,
            },
    {
        if chunk_len == 0 || self.pending.len() < chunk_len {
            return None;
        }
        let mut rest = self.pending.split_off(chunk_len);
        core::mem::swap(&mut self.pending, &mut rest);
        let chunk = rest;
        proof {
            self.consumed@ = self.consumed@ + chunk@;
            assert(self.consumed() + self.pending() =~= self.fed());
        }
        Some(chunk)
    }

    /// How many samples are currently carried over.
    pub fn pending_len(&self) -> (n: usize)
        ensures
            n == self.pending().len(),
    {
        self.pending.len()
    }
}

/// Law (carry-over correctness): at every point between calls, the samples a
/// well-formed carry has handed out in chunks, followed by the samples it
/// still holds, are exactly the samples that were pushed into it, in order.
/// No input sample is dropped, duplicated or reordered across block
/// boundaries.
pub proof fn lemma_carry_conserves_samples<S>(c: SampleCarry<S>)
    requires
        c.wf(),
    ensures
        c.consumed() + c.pending() == c.fed(),
        c.consumed().len() + c.pending().len() == c.fed().len(),
{
}

} // verus!
