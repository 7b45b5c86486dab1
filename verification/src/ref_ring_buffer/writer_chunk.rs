//! The producer's exclusive window of reserved slots.

use super::slot_store;
use super::RefRingBuffer;
use crate::atomic_extension::AtomicExtension;
use crate::cursor;
use crate::cursor::granted;
use crate::cursor::writable;
use crate::cursor::Window;
use vstd::prelude::*;

verus! {

/// The window of a reservation, if there is one.
pub open spec fn window_of<T>(reserved: Option<WriteChunk<'_, T>>) -> Option<Window> {
    match reserved {
        Some(chunk) => Some(chunk.window()),
        None => None,
    }
}

/// A run of reserved slots that lies in one piece of the slot array. The slots
/// are the producer's to write until it commits the chunk. A chunk that is
/// dropped without a commit leaves the ring as it was.
///
/// A chunk remembers the head on which it was granted: that many slots were
/// free when the consumer stood there, and the consumer only moves on.
#[verifier::reject_recursive_types(T)]
pub struct WriteChunk<'a, T> {
    ring_buffer: &'a RefRingBuffer<'a, T>,
    start: usize,
    end: usize,
    head_seen: usize,
}

impl<'a, T> WriteChunk<'a, T> {
    #[verifier::type_invariant]
    spec fn well_formed(self) -> bool {
        &&& (Window { start: self.start, end: self.end }).contiguous(self.ring_buffer.capacity())
        &&& self.end.wrapping_sub(self.start) <= writable(self.head_seen, self.start, self.ring_buffer.capacity())
    }

    /// The positions that the chunk covers.
    pub closed spec fn window(&self) -> Window {
        Window { start: self.start, end: self.end }
    }

    /// The ring that the chunk belongs to.
    pub closed spec fn ring(&self) -> RefRingBuffer<'a, T> {
        *self.ring_buffer
    }

    /// The head on which the chunk was granted.
    pub closed spec fn seen(&self) -> usize {
        self.head_seen
    }

    pub open spec fn spec_len(&self) -> usize {
        self.window().len()
    }

    /// Number of reserved slots. They lie in one piece, and as many slots were
    /// free on the head that the chunk was granted on.
    #[verifier::when_used_as_spec(spec_len)]
    pub fn len(&self) -> (n: usize)
        ensures
            n == self.spec_len(),
            self.window().contiguous(self.ring().capacity()),
            n <= writable(self.seen(), self.window().start, self.ring().capacity()),
    {
        proof {
            use_type_invariant(self);
        }
        self.end.wrapping_sub(self.start)
    }

    /// The cursor position of the first reserved slot.
    pub fn start(&self) -> (start: usize)
        ensures
            start == self.window().start,
    {
        self.start
    }

    /// The head on which the chunk was granted.
    pub fn head_seen(&self) -> (head: usize)
        ensures
            head == self.seen(),
    {
        self.head_seen
    }

    /// The cursor position behind the last reserved slot: the tail that a commit
    /// publishes.
    pub fn end(&self) -> (end: usize)
        ensures
            end == self.window().end,
    {
        self.end
    }

    /// Index in the slot array of the first reserved slot. The chunk occupies the
    /// slots from there on, `len()` of them, in one piece.
    pub fn offset(&self) -> (slot: usize)
        ensures
            slot == self.window().offset(self.ring().capacity()),
            slot + self.len() <= self.ring().capacity(),
    {
        proof {
            use_type_invariant(self);
        }
        self.start % self.ring_buffer.buffer_size()
    }
}

impl<'a, T: Copy + Send> WriteChunk<'a, T> {
    /// Answers a request for `size` slots on the cursors given: see [`granted`].
    /// Nothing is loaded and nothing stored.
    pub fn reserve_at(ring_buffer: &'a RefRingBuffer<'a, T>, head: usize, tail: usize, size: usize) -> (reserved:
        Option<Self>)
        ensures
            window_of(reserved) == granted(head, tail, ring_buffer.capacity(), size),
            reserved.is_some() <==> size <= writable(head, tail, ring_buffer.capacity()),
            reserved matches Some(chunk) ==> {
                &&& chunk.ring() == *ring_buffer
                &&& chunk.window() == Window::at(tail, size)
                &&& chunk.seen() == head
                &&& chunk.len() == size
                &&& chunk.window().contiguous(ring_buffer.capacity())
            },
    {
        let capacity: usize = ring_buffer.buffer_size();
        match cursor::reserve(head, tail, capacity, size) {
            Some(window) => Some(Self { ring_buffer, start: window.start, end: window.end, head_seen: head }),
            None => None,
        }
    }

    /// Loads the cursors, `head` with acquire ordering and the producer's own
    /// `tail` relaxed, and answers the request on them. The consumer may move
    /// `head` at any time, so the contract says what holds of every outcome: the
    /// result is what [`granted`] gives on some pair of cursors, and a chunk
    /// names the head of that pair; a request for no slots is granted, one for
    /// more slots than the ring has is refused.
    pub fn try_reserve(ring_buffer: &'a RefRingBuffer<'a, T>, size: usize) -> (reserved: Option<Self>)
        ensures
            size == 0 ==> reserved.is_some(),
            size > ring_buffer.capacity() ==> reserved.is_none(),
            exists|head: usize, tail: usize|
                window_of(reserved) == #[trigger] granted(head, tail, ring_buffer.capacity(), size),
            reserved matches Some(chunk) ==> {
                &&& chunk.ring() == *ring_buffer
                &&& chunk.len() == size
                &&& chunk.window().contiguous(ring_buffer.capacity())
                &&& size <= writable(chunk.seen(), chunk.window().start, ring_buffer.capacity())
            },
    {
        let head: usize = ring_buffer.head_ref().load_acquire();
        let tail: usize = ring_buffer.tail_ref().load_relaxed();
        let reserved = Self::reserve_at(ring_buffer, head, tail, size);
        reserved
    }

    /// Writes `value` into the reserved slot number `index`, which is the slot
    /// that [`Window::slot`] gives.
    pub fn write(&mut self, index: usize, value: T)
        requires
            index < old(self).len(),
        ensures
            final(self).window() == old(self).window(),
            final(self).ring() == old(self).ring(),
            final(self).seen() == old(self).seen(),
    {
        proof {
            use_type_invariant(&*self);
        }
        let capacity: usize = self.ring_buffer.buffer_size();
        let slot: usize = (Window { start: self.start, end: self.end }).slot(capacity, index);
        slot_store(&self.ring_buffer.buffer_slice()[slot], value);
    }

    /// Writes the elements of `source` into the reserved slots, in order: each
    /// to the slot that [`Window::placement`] gives.
    pub fn copy_from_slice(&mut self, source: &[T])
        requires
            source@.len() == old(self).len(),
        ensures
            final(self).window() == old(self).window(),
            final(self).ring() == old(self).ring(),
            final(self).seen() == old(self).seen(),
    {
        proof {
            use_type_invariant(&*self);
        }
        let window = Window { start: self.start, end: self.end };
        let len: usize = window.len();
        let capacity: usize = self.ring_buffer.buffer_size();
        let slots = self.ring_buffer.buffer_slice();
        let mut index: usize = 0;
        while index < len
            invariant
                index <= len,
                len == source@.len(),
                len == window.len(),
                window.contiguous(capacity),
                capacity == slots@.len(),
            decreases len - index,
        {
            let (slot, element) = window.placement(capacity, source, index);
            slot_store(&slots[slot], element);
            index += 1;
        }
    }

    /// Publishes the chunk: stores its end as the new tail, with release ordering.
    pub fn commit(&mut self)
        ensures
            final(self).window() == old(self).window(),
            final(self).ring() == old(self).ring(),
            final(self).seen() == old(self).seen(),
    {
        self.ring_buffer.tail_ref().store_release(self.end());
    }
}

} // verus!
