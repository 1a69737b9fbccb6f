//! Batches: how a stream of items is cut into bulk writes, and the buffer
//! that collects one batch at a time.

use vstd::prelude::*;

verus! {

/// Number of items in a full batch.
pub const BATCH_CAPACITY: usize = 1000;

/// Number of full batches among `n` items.
pub open spec fn full_batches(n: nat) -> nat {
    n / (BATCH_CAPACITY as nat)
}

/// Number of items that are left over when `n` items are cut into full
/// batches.
pub open spec fn leftover(n: nat) -> nat {
    n % (BATCH_CAPACITY as nat)
}

/// Number of batches that `n` items are written in: the full batches, and one
/// more for the items that are left over, if there are any.
pub open spec fn batch_count(n: nat) -> nat {
    if leftover(n) == 0 {
        full_batches(n)
    } else {
        full_batches(n) + 1
    }
}

/// End of the batch with index `i` in a stream of `n` items.
pub open spec fn batch_end(n: nat, i: int) -> int {
    if (i + 1) * BATCH_CAPACITY <= n {
        (i + 1) * BATCH_CAPACITY
    } else {
        n as int
    }
}

/// The batch with index `i` of `items`.
pub open spec fn batch_at<T>(items: Seq<T>, i: int) -> Seq<T> {
    items.subrange(i * BATCH_CAPACITY, batch_end(items.len(), i))
}

/// The batches that `items` are written in, in order.
pub open spec fn batches<T>(items: Seq<T>) -> Seq<Seq<T>> {
    Seq::new(batch_count(items.len()), |i: int| batch_at(items, i))
}

/// Cutting `items` into batches yields the full batches, followed by one
/// batch of the items left over if there are any. No item is lost or moved:
/// the item at position `n` is found in batch `n / BATCH_CAPACITY` at offset
/// `n % BATCH_CAPACITY`.
pub proof fn lemma_batches_shape<T>(items: Seq<T>)
    ensures
        batches(items).len() == batch_count(items.len()),
        forall|i: int|
            0 <= i < full_batches(items.len()) ==> (#[trigger] batches(items)[i]).len()
                == BATCH_CAPACITY,
        leftover(items.len()) != 0 ==> batches(items).last().len() == leftover(items.len()),
        forall|n: int|
            0 <= n < items.len() ==> batches(items)[n / (BATCH_CAPACITY as int)][n % (
            BATCH_CAPACITY as int)] == #[trigger] items[n],
{
}

/// A buffer that collects the items of one batch.
///
/// It never holds more than `BATCH_CAPACITY` items. When it holds that many
/// the batch is ready: it is taken out, or the buffer is reset, before the
/// next item is pushed.
pub struct BatchAccumulator<T> {
    buffer: Vec<T>,
}

impl<T> View for BatchAccumulator<T> {
    type V = Seq<T>;

    closed spec fn view(&self) -> Seq<T> {
        self.buffer@
    }
}

impl<T> BatchAccumulator<T> {
    #[verifier::type_invariant]
    spec fn within_capacity(self) -> bool {
        self.buffer@.len() <= BATCH_CAPACITY
    }

    /// An empty buffer with room for one full batch.
    pub fn new() -> (accumulator: Self)
        ensures
            accumulator@ == Seq::<T>::empty(),
    {
        BatchAccumulator { buffer: Vec::with_capacity(BATCH_CAPACITY) }
    }

    /// Number of items in the buffer.
    pub fn len(&self) -> (n: usize)
        ensures
            n == self@.len(),
            n <= BATCH_CAPACITY,
    {
        proof {
            use_type_invariant(self);
        }
        self.buffer.len()
    }

    /// Whether the buffer holds nothing.
    pub fn is_empty(&self) -> (empty: bool)
        ensures
            empty == (self@.len() == 0),
    {
        self.buffer.len() == 0
    }

    /// Whether the buffer holds a full batch.
    pub fn is_ready(&self) -> (ready: bool)
        ensures
            ready == (self@.len() == BATCH_CAPACITY),
            !ready ==> self@.len() < BATCH_CAPACITY,
    {
        proof {
            use_type_invariant(self);
        }
        self.buffer.len() == BATCH_CAPACITY
    }

    /// Appends `item`, and says whether the batch is ready now.
    pub fn push(&mut self, item: T) -> (ready: bool)
        requires
            old(self)@.len() < BATCH_CAPACITY,
        ensures
            final(self)@ == old(self)@.push(item),
            ready == (final(self)@.len() == BATCH_CAPACITY),
    {
        let mut buffer: Vec<T> = Vec::new();
        std::mem::swap(&mut buffer, &mut self.buffer);
        buffer.push(item);
        let ready = buffer.len() == BATCH_CAPACITY;
        self.buffer = buffer;
        ready
    }

    /// The items collected so far, in the order in which they were pushed.
    pub fn batch(&self) -> (items: &Vec<T>)
        ensures
            items@ == self@,
    {
        &self.buffer
    }

    /// Empties the buffer. Its capacity stays as it is.
    pub fn reset(&mut self)
        ensures
            final(self)@ == Seq::<T>::empty(),
    {
        let mut buffer: Vec<T> = Vec::new();
        std::mem::swap(&mut buffer, &mut self.buffer);
        buffer.clear();
        self.buffer = buffer;
    }

    /// Takes the collected items out and leaves the buffer empty, with room
    /// for one full batch.
    pub fn take(&mut self) -> (items: Vec<T>)
        ensures
            items@ == old(self)@,
            final(self)@ == Seq::<T>::empty(),
    {
        let mut items: Vec<T> = Vec::with_capacity(BATCH_CAPACITY);
        std::mem::swap(&mut items, &mut self.buffer);
        items
    }
}

} // verus!
