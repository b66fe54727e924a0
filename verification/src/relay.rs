//! Frame Relay: the bounded FIFO hand-off between the real-time capture
//! thread and the resampler worker.
//!
//! The producer must never block, so when the relay is full the newest frame
//! is dropped (bounded memory, bounded latency) and a drop counter is
//! incremented for observability.

use vstd::prelude::*;

verus! {

/// A bounded FIFO queue of frames. `offer` never blocks and never panics:
/// when the relay is full the offered frame is discarded and `dropped`
/// grows by one.
pub struct FrameRelay<T> {
    queue: Vec<T>,
    capacity: usize,
    dropped: u64,
}

impl<T> FrameRelay<T> {
    /// The frames currently queued, oldest first.
    pub closed spec fn frames(self) -> Seq<T> {
        self.queue@
    }

    /// The fixed capacity the relay was created with.
    pub closed spec fn cap(self) -> nat {
        self.capacity as nat
    }

    /// How many offered frames have been dropped because the relay was full.
    pub closed spec fn drop_count(self) -> nat {
        self.dropped as nat
    }

    /// A relay never holds more frames than its capacity.
    pub open spec fn wf(self) -> bool {
        self.frames().len() <= self.cap()
    }

    /// Creates an empty relay that will hold at most `capacity` frames.
    pub fn new(capacity: usize) -> (r: FrameRelay<T>)
        requires
            capacity >= 1,
        ensures
            r.wf(),
            r.frames() == Seq::<T>::empty(),
            r.cap() == capacity,
            r.drop_count() == 0,
    {
        FrameRelay { queue: Vec::new(), capacity, dropped: 0 }
    }

    /// Offers a frame from the producer side. If the relay is full, the
    /// offered frame is dropped and the drop counter grows by one; the queue
    /// itself is never reordered or shortened by an offer. Returns whether
    /// the frame was accepted. The drop counter only ever grows.
    pub fn offer(&mut self, frame: T) -> (accepted: bool)
        requires
            old(self).wf(),
            old(self).drop_count() < u64::MAX,
        ensures
            final(self).wf(),
            final(self).cap() == old(self).cap(),
            accepted <==> old(self).frames().len() < old(self).cap(),
            accepted ==> final(self).frames() == old(self).frames().push(frame)
                && final(self).drop_count() == old(self).drop_count(),
            !accepted ==> final(self).frames() == old(self).frames()
                && final(self).drop_count() == old(self).drop_count() + 1,
            final(self).drop_count() >= old(self).drop_count(),
    {
        if self.queue.len() < self.capacity {
            self.queue.push(frame);
            true
        } else {
            self.dropped = self.dropped + 1;
            false
        }
    }

    /// Takes the oldest queued frame, if any. Frames leave in the order they
    /// were accepted (FIFO).
    pub fn take(&mut self) -> (r: Option<T>)
        requires
            old(self).wf(),
        ensures
            final(self).wf(),
            final(self).cap() == old(self).cap(),
            final(self).drop_count() == old(self).drop_count(),
            old(self).frames().len() == 0 ==> r is None
                && final(self).frames() == old(self).frames(),
            old(self).frames().len() > 0 ==> r == Some(old(self).frames()[0])
                && final(self).frames() == old(self).frames().drop_first(),
    {
        if self.queue.len() == 0 {
            None
        } else {
            let frame = self.queue.remove(0);
            proof {
                assert(self.queue@ =~= old(self).queue@.drop_first());
            }
            Some(frame)
        }
    }

    /// How many frames are queued right now.
    pub fn len(&self) -> (n: usize)
        ensures
            n == self.frames().len(),
    {
        self.queue.len()
    }

    /// The drop counter, for the observability surface.
    pub fn dropped_frames(&self) -> (n: u64)
        ensures
            n == self.drop_count(),
    {
        self.dropped
    }
}

} // verus!
