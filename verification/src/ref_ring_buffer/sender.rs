//! The producer's endpoint of a ring.

use super::slot_store;
use super::writer_chunk;
use super::writer_chunk::WriteChunk;
use super::RefRingBuffer;
use crate::atomic_extension::AtomicExtension;
use crate::cursor;
use crate::cursor::copyable;
use crate::cursor::granted;
use crate::cursor::writable;
use vstd::prelude::*;

verus! {

/// The endpoint that reserves slots, fills them and publishes them. A ring has
/// one.
#[verifier::reject_recursive_types(T)]
pub struct Sender<'a, T> {
    ring_buffer: &'a RefRingBuffer<'a, T>,
}

impl<'a, T> Sender<'a, T> {
    /// The ring that the endpoint writes to.
    pub closed spec fn ring(&self) -> RefRingBuffer<'a, T> {
        *self.ring_buffer
    }

    pub(crate) fn new(ring_buffer: &'a RefRingBuffer<'a, T>) -> (sender: Self)
        ensures
            sender.ring() == *ring_buffer,
    {
        Self { ring_buffer }
    }

    /// The ring that the endpoint writes to.
    pub fn ring_buffer(&self) -> (ring: &RefRingBuffer<'a, T>)
        ensures
            *ring == self.ring(),
    {
        self.ring_buffer
    }
}

impl<'a, T: Copy + Send> Sender<'a, T> {
    /// Reserves `size` slots in one piece. The chunk borrows the endpoint, so a
    /// second reservation has to wait until the first is committed or dropped.
    /// What [`WriteChunk::try_reserve`] says holds here.
    pub fn try_reserve(&mut self, size: usize) -> (reserved: Option<WriteChunk<'_, T>>)
        ensures
            final(self).ring() == old(self).ring(),
            size == 0 ==> reserved.is_some(),
            size > old(self).ring().capacity() ==> reserved.is_none(),
            exists|head: usize, tail: usize|
                writer_chunk::window_of(reserved) == #[trigger] granted(
                    head,
                    tail,
                    old(self).ring().capacity(),
                    size,
                ),
            reserved matches Some(chunk) ==> {
                &&& chunk.ring() == old(self).ring()
                &&& chunk.len() == size
                &&& chunk.window().contiguous(old(self).ring().capacity())
                &&& size <= writable(chunk.seen(), chunk.window().start, old(self).ring().capacity())
            },
    {
        let reserved = WriteChunk::try_reserve(self.ring_buffer, size);
        proof {
            let capacity = old(self).ring().capacity();
            let (head, tail) = choose|head: usize, tail: usize|
                writer_chunk::window_of(reserved) == #[trigger] granted(head, tail, capacity, size);
            assert(writer_chunk::window_of(reserved) == granted(head, tail, capacity, size));
        }
        reserved
    }

    /// Copies as many elements of `data` as are free on the cursors given,
    /// wrapping around the end of the array where it has to, and publishes them
    /// by a release store of the new tail. Returns how many were copied. Which
    /// element goes to which slot is what [`cursor::placement`] gives.
    pub fn write_at(&mut self, head: usize, tail: usize, data: &[T]) -> (written: usize)
        requires
            data@.len() <= usize::MAX,
        ensures
            final(self).ring() == old(self).ring(),
            written == copyable(head, tail, old(self).ring().capacity(), data@.len() as usize),
    {
        let capacity: usize = self.ring_buffer.buffer_size();
        let written: usize = cursor::copyable_of(head, tail, capacity, data.len());
        if written == 0 {
            return 0;
        }
        let first: usize = cursor::first_segment(tail, capacity, written);
        let slots = self.ring_buffer.buffer_slice();
        let mut index: usize = 0;
        while index < first
            invariant
                index <= first <= written,
                written <= data@.len(),
                written <= capacity == slots@.len(),
                capacity > 0,
            decreases first - index,
        {
            let (slot, element) = cursor::placement(tail, capacity, data, index);
            slot_store(&slots[slot], element);
            index += 1;
        }
        while index < written
            invariant
                first <= index <= written,
                written <= data@.len(),
                written <= capacity == slots@.len(),
                capacity > 0,
            decreases written - index,
        {
            let (slot, element) = cursor::placement(tail, capacity, data, index);
            slot_store(&slots[slot], element);
            index += 1;
        }
        self.ring_buffer.tail_ref().store_release(tail.wrapping_add(written));
        written
    }

    /// Copies up to `data.len()` elements into the ring and publishes them.
    /// The elements need not lie in one piece. The cursors are loaded first, and
    /// the consumer may move `head` at any time, so the contract says what holds
    /// of every outcome: the result is what [`copyable`] gives on some pair of
    /// cursors, and never more than `data` or the ring holds.
    pub fn write(&mut self, data: &[T]) -> (written: usize)
        requires
            data@.len() <= usize::MAX,
        ensures
            final(self).ring() == old(self).ring(),
            written <= data@.len(),
            written <= old(self).ring().capacity(),
            exists|head: usize, tail: usize|
                written == #[trigger] copyable(
                    head,
                    tail,
                    old(self).ring().capacity(),
                    data@.len() as usize,
                ),
    {
        let head: usize = self.ring_buffer.head_ref().load_acquire();
        let tail: usize = self.ring_buffer.tail_ref().load_relaxed();
        self.write_at(head, tail, data)
    }
}

} // verus!
