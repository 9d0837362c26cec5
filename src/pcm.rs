use vstd::prelude::*;
use std::collections::VecDeque;

verus! {

/// What a bounded PCM queue holds: its samples, oldest first, and the most it
/// may hold.
pub struct PcmQueueView {
    pub samples: Seq<i32>,
    pub capacity: nat,
}

impl PcmQueueView {
    pub open spec fn is_full(self) -> bool {
        self.samples.len() >= self.capacity
    }

    /// A producer's write: taken when there is room, refused when full.
    pub open spec fn pushed(self, x: i32) -> PcmQueueView {
        if self.is_full() {
            self
        } else {
            PcmQueueView { samples: self.samples.push(x), capacity: self.capacity }
        }
    }

    /// A run of producer writes with no read in between.
    pub open spec fn pushed_all(self, xs: Seq<i32>) -> PcmQueueView
        decreases xs.len(),
    {
        if xs.len() == 0 {
            self
        } else {
            self.pushed(xs[0]).pushed_all(xs.subrange(1, xs.len() as int))
        }
    }
}

/// A fixed-capacity FIFO of samples between one producer and one consumer.
pub struct PcmQueue {
    buf: VecDeque<i32>,
    capacity: usize,
}

impl View for PcmQueue {
    type V = PcmQueueView;

    closed spec fn view(&self) -> PcmQueueView {
        PcmQueueView { samples: self.buf@, capacity: self.capacity as nat }
    }
}

impl PcmQueue {
    /// The queue never holds more than its capacity, and the capacity is
    /// positive.
    pub open spec fn wf(&self) -> bool {
        &&& self@.samples.len() <= self@.capacity
        &&& self@.capacity > 0
    }

    /// An empty queue that holds at most `capacity` samples.
    pub fn new(capacity: usize) -> (q: PcmQueue)
        requires
            capacity > 0,
        ensures
            q.wf(),
            q@.samples == Seq::<i32>::empty(),
            q@.capacity == capacity,
    {
        PcmQueue { buf: VecDeque::new(), capacity }
    }

    pub fn len(&self) -> (r: usize)
        ensures
            r == self@.samples.len(),
    {
        self.buf.len()
    }

    pub fn capacity(&self) -> (r: usize)
        ensures
            r == self@.capacity,
    {
        self.capacity
    }

    pub fn is_full(&self) -> (r: bool)
        ensures
            r == self@.is_full(),
    {
        self.buf.len() >= self.capacity
    }

    pub fn is_empty(&self) -> (r: bool)
        ensures
            r == (self@.samples.len() == 0),
    {
        self.buf.len() == 0
    }

    /// Appends `x` if there is room. On a full queue nothing changes and
    /// `false` comes back: the producer has to wait for the consumer.
    pub fn try_push(&mut self, x: i32) -> (r: bool)
        requires
            old(self).wf(),
        ensures
            final(self).wf(),
            r == !old(self)@.is_full(),
            final(self)@ == old(self)@.pushed(x),
    {
        if self.buf.len() >= self.capacity {
            false
        } else {
            self.buf.push_back(x);
            true
        }
    }

    /// Takes the oldest sample, if any.
    pub fn pop(&mut self) -> (r: Option<i32>)
        requires
            old(self).wf(),
        ensures
            final(self).wf(),
            final(self)@.capacity == old(self)@.capacity,
            match r {
                Some(x) => old(self)@.samples.len() > 0 && x == old(self)@.samples[0]
                    && final(self)@.samples == old(self)@.samples.drop_first(),
                None => old(self)@.samples.len() == 0 && final(self)@ == old(self)@,
            },
    {
        self.buf.pop_front()
    }

    /// Drops every sample held (a cancelled run's leftovers).
    pub fn clear(&mut self)
        requires
            old(self).wf(),
        ensures
            final(self).wf(),
            final(self)@.capacity == old(self)@.capacity,
            final(self)@.samples == Seq::<i32>::empty(),
    {
        self.buf.clear();
    }
}

/// However many samples a producer writes without the consumer reading, the
/// queue never holds more than its capacity.
pub proof fn lemma_writes_stay_bounded(q: PcmQueueView, xs: Seq<i32>)
    requires
        q.samples.len() <= q.capacity,
    ensures
        q.pushed_all(xs).samples.len() <= q.capacity,
        q.pushed_all(xs).capacity == q.capacity,
    decreases xs.len(),
{
    if xs.len() > 0 {
        lemma_writes_stay_bounded(q.pushed(xs[0]), xs.subrange(1, xs.len() as int));
    }
}

} // verus!
