//! A fixed-capacity sliding window over a series of samples.

use std::collections::VecDeque;
use vstd::prelude::*;

verus! {

/// The `capacity` most recent samples of `samples`, oldest first; all of
/// them while there are no more than `capacity`.
pub open spec fn latest<T>(samples: Seq<T>, capacity: nat) -> Seq<T> {
    if samples.len() <= capacity {
        samples
    } else {
        samples.subrange(samples.len() - capacity, samples.len() as int)
    }
}

/// What a window of the given capacity holds after `value` is appended to
/// `window`: the appended sample is the newest, and the oldest has left if
/// there was no room.
pub open spec fn pushed<T>(window: Seq<T>, capacity: nat, value: T) -> Seq<T> {
    latest(window.push(value), capacity)
}

/// The window after every sample of `values` has been pushed, in order,
/// onto an empty buffer of the given capacity.
pub open spec fn after_pushes<T>(capacity: nat, values: Seq<T>) -> Seq<T>
    decreases values.len(),
{
    if values.len() == 0 {
        Seq::empty()
    } else {
        pushed(after_pushes(capacity, values.drop_last()), capacity, values.last())
    }
}

/// After any series of pushes the buffer holds exactly the `capacity` most
/// recently pushed samples, oldest first, or all of them if fewer were
/// pushed; its length is the smaller of the two numbers.
pub proof fn lemma_pushes_keep_latest<T>(capacity: nat, values: Seq<T>)
    ensures
        after_pushes(capacity, values) == latest(values, capacity),
        after_pushes(capacity, values).len() == if values.len() <= capacity {
            values.len()
        } else {
            capacity
        },
    decreases values.len(),
{
    if values.len() > 0 {
        lemma_pushes_keep_latest(capacity, values.drop_last());
    }
}

/// A rolling window that keeps the most recent samples of a series.
pub struct HistoryBuffer<T> {
    samples: VecDeque<T>,
    capacity: usize,
}

impl<T> View for HistoryBuffer<T> {
    type V = Seq<T>;

    /// The samples held, oldest first.
    closed spec fn view(&self) -> Seq<T> {
        self.samples@
    }
}

impl<T: Copy> HistoryBuffer<T> {
    /// The buffer holds no more samples than its capacity.
    pub closed spec fn wf(&self) -> bool {
        self.samples@.len() <= self.capacity
    }

    /// The largest number of samples the buffer holds.
    pub closed spec fn capacity_spec(&self) -> usize {
        self.capacity
    }

    /// A well-formed buffer holds no more samples than its capacity.
    pub proof fn lemma_wf_bounds(&self)
        requires
            self.wf(),
        ensures
            self@.len() <= self.capacity(),
    {
    }

    /// An empty buffer that will hold up to `capacity` samples.
    pub fn new(capacity: usize) -> (buffer: Self)
        ensures
            buffer.wf(),
            buffer@ == Seq::<T>::empty(),
            buffer.capacity() == capacity,
    {
        HistoryBuffer { samples: VecDeque::new(), capacity }
    }

    /// The largest number of samples the buffer holds.
    #[verifier::when_used_as_spec(capacity_spec)]
    pub fn capacity(&self) -> (capacity: usize)
        ensures
            capacity == self.capacity(),
    {
        self.capacity
    }

    /// The number of samples held, never more than the capacity.
    pub fn len(&self) -> (len: usize)
        requires
            self.wf(),
        ensures
            len == self@.len(),
            len <= self.capacity(),
    {
        self.samples.len()
    }

    /// Appends a sample; once the buffer is full the oldest sample leaves
    /// to make room.
    pub fn push(&mut self, value: T)
        requires
            old(self).wf(),
        ensures
            final(self).wf(),
            final(self)@ == pushed(old(self)@, old(self).capacity() as nat, value),
            final(self).capacity() == old(self).capacity(),
    {
        if self.capacity == 0 {
            return ;
        }
        if self.samples.len() == self.capacity {
            self.samples.pop_front();
        }
        self.samples.push_back(value);
    }

    /// The samples held, oldest first.
    pub fn values(&self) -> (values: Vec<T>)
        ensures
            values@ == self@,
    {
        let mut values: Vec<T> = Vec::new();
        let mut i: usize = 0;
        while i < self.samples.len()
            invariant
                i <= self.samples@.len(),
                values@ == self.samples@.take(i as int),
            decreases self.samples@.len() - i,
        {
            values.push(self.samples[i]);
            i += 1;
            assert(self.samples@.take(i as int) =~= self.samples@.take(i - 1).push(
                self.samples@[i - 1],
            ));
        }
        values
    }
}

} // verus!
