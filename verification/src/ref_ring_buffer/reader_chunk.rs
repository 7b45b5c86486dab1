//! The consumer's window of published elements.

use super::slot_load;
use super::RefRingBuffer;
use crate::atomic_extension::AtomicExtension;
use crate::cursor;
use crate::cursor::available;
use crate::cursor::found;
use crate::cursor::readable;
use crate::cursor::Window;
use vstd::prelude::*;

verus! {

/// The window of a chunk, if there is one.
pub open spec fn window_of<T>(read: Option<ReadChunk<'_, T>>) -> Option<Window> {
    match read {
        Some(chunk) => Some(chunk.window()),
        None => None,
    }
}

/// A run of published elements that lies in one piece of the slot array. The
/// elements stay in the ring until the chunk is committed.
///
/// A chunk remembers the tail on which it was granted: that many elements were
/// published when the producer stood there, and the producer only moves on.
#[verifier::reject_recursive_types(T)]
pub struct ReadChunk<'a, T> {
    ring_buffer: &'a RefRingBuffer<'a, T>,
    start: usize,
    end: usize,
    tail_seen: usize,
}

impl<'a, T> ReadChunk<'a, T> {
    #[verifier::type_invariant]
    spec fn well_formed(self) -> bool {
        &&& (Window { start: self.start, end: self.end }).contiguous(self.ring_buffer.capacity())
        &&& self.end.wrapping_sub(self.start) <= readable(self.start, self.tail_seen, self.ring_buffer.capacity())
    }

    /// The positions that the chunk covers.
    pub closed spec fn window(&self) -> Window {
        Window { start: self.start, end: self.end }
    }

    /// The ring that the chunk belongs to.
    pub closed spec fn ring(&self) -> RefRingBuffer<'a, T> {
        *self.ring_buffer
    }

    /// The tail on which the chunk was granted.
    pub closed spec fn seen(&self) -> usize {
        self.tail_seen
    }

    pub open spec fn spec_len(&self) -> usize {
        self.window().len()
    }

    /// Number of elements in the chunk. They lie in one piece, and as many
    /// elements were published on the tail that the chunk was granted on.
    #[verifier::when_used_as_spec(spec_len)]
    pub fn len(&self) -> (n: usize)
        ensures
            n == self.spec_len(),
            self.window().contiguous(self.ring().capacity()),
            n <= readable(self.window().start, self.seen(), self.ring().capacity()),
    {
        proof {
            use_type_invariant(self);
        }
        self.end.wrapping_sub(self.start)
    }

    /// The cursor position of the first element.
    pub fn start(&self) -> (start: usize)
        ensures
            start == self.window().start,
    {
        self.start
    }

    /// The tail on which the chunk was granted.
    pub fn tail_seen(&self) -> (tail: usize)
        ensures
            tail == self.seen(),
    {
        self.tail_seen
    }

    /// The cursor position behind the last element: the head that a commit
    /// publishes.
    pub fn end(&self) -> (end: usize)
        ensures
            end == self.window().end,
    {
        self.end
    }

    /// Index in the slot array of the first element. The chunk occupies the slots
    /// from there on, `len()` of them, in one piece.
    pub fn offset(&self) -> (slot: usize)
        ensures
            slot == self.window().offset(self.ring().capacity()),
            slot + self.len() <= self.ring().capacity(),
    {
        proof {
            use_type_invariant(self);
        }
        self.start % self.ring_buffer.buffer_size()
    }
}

impl<'a, T: Copy + Send> ReadChunk<'a, T> {
    /// Answers a request to read exactly `len` elements on the cursors given: see
    /// [`found`]. Nothing is loaded and nothing stored.
    pub fn exact_at(ring_buffer: &'a RefRingBuffer<'a, T>, head: usize, tail: usize, len: usize) -> (read: Option<
        Self,
    >)
        ensures
            window_of(read) == found(head, tail, ring_buffer.capacity(), len),
            read.is_some() <==> len <= readable(head, tail, ring_buffer.capacity()),
            read matches Some(chunk) ==> {
                &&& chunk.ring() == *ring_buffer
                &&& chunk.window() == Window::at(head, len)
                &&& chunk.seen() == tail
                &&& chunk.len() == len
                &&& chunk.window().contiguous(ring_buffer.capacity())
            },
    {
        let capacity: usize = ring_buffer.buffer_size();
        match cursor::read_exact(head, tail, capacity, len) {
            Some(window) => Some(Self { ring_buffer, start: window.start, end: window.end, tail_seen: tail }),
            None => None,
        }
    }

    /// The chunk of all elements that can be read in one piece on the cursors
    /// given: see [`available`]. It is empty where the cursors are equal.
    pub fn available_at(ring_buffer: &'a RefRingBuffer<'a, T>, head: usize, tail: usize) -> (chunk: Self)
        ensures
            chunk.ring() == *ring_buffer,
            chunk.window() == available(head, tail, ring_buffer.capacity()),
            chunk.seen() == tail,
            chunk.len() == readable(head, tail, ring_buffer.capacity()),
            chunk.window().contiguous(ring_buffer.capacity()),
    {
        let capacity: usize = ring_buffer.buffer_size();
        let window = cursor::read_available(head, tail, capacity);
        Self { ring_buffer, start: window.start, end: window.end, tail_seen: tail }
    }

    /// Reads the element number `index` of the chunk, from the slot that
    /// [`Window::slot`] gives.
    pub fn get(&self, index: usize) -> (value: T)
        requires
            index < self.len(),
    {
        proof {
            use_type_invariant(self);
        }
        let capacity: usize = self.ring_buffer.buffer_size();
        let slot: usize = (Window { start: self.start, end: self.end }).slot(capacity, index);
        slot_load(&self.ring_buffer.buffer_slice()[slot])
    }

    /// Reads all elements of the chunk, in order.
    pub fn to_vec(&self) -> (values: Vec<T>)
        ensures
            values@.len() == self.len(),
    {
        proof {
            use_type_invariant(self);
        }
        let window = Window { start: self.start, end: self.end };
        let len: usize = window.len();
        let capacity: usize = self.ring_buffer.buffer_size();
        let slots = self.ring_buffer.buffer_slice();
        let mut values: Vec<T> = Vec::new();
        let mut index: usize = 0;
        while index < len
            invariant
                index <= len,
                len == window.len(),
                values@.len() == index,
                window.contiguous(capacity),
                capacity == slots@.len(),
            decreases len - index,
        {
            let slot: usize = window.slot(capacity, index);
            values.push(slot_load(&slots[slot]));
            index += 1;
        }
        values
    }

    /// Releases the elements of the chunk: stores its end as the new head, with
    /// release ordering.
    pub fn commit(&mut self)
        ensures
            final(self).window() == old(self).window(),
            final(self).ring() == old(self).ring(),
            final(self).seen() == old(self).seen(),
    {
        self.ring_buffer.head_ref().store_release(self.end());
    }
}

} // verus!
