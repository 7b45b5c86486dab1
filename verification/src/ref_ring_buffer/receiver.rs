//! The consumer's endpoint of a ring.

use super::reader_chunk;
use super::reader_chunk::ReadChunk;
use super::RefRingBuffer;
use crate::atomic_extension::AtomicExtension;
use crate::cursor::available;
use crate::cursor::found;
use crate::cursor::readable;
use vstd::prelude::*;

verus! {

/// The endpoint that reads published elements and releases their slots. A ring
/// has one.
#[verifier::reject_recursive_types(T)]
pub struct Receiver<'a, T> {
    ring_buffer: &'a RefRingBuffer<'a, T>,
}

impl<'a, T> Receiver<'a, T> {
    /// The ring that the endpoint reads from.
    pub closed spec fn ring(&self) -> RefRingBuffer<'a, T> {
        *self.ring_buffer
    }

    pub(crate) fn new(ring_buffer: &'a RefRingBuffer<'a, T>) -> (receiver: Self)
        ensures
            receiver.ring() == *ring_buffer,
    {
        Self { ring_buffer }
    }

    /// The ring that the endpoint reads from.
    pub fn ring_buffer(&self) -> (ring: &RefRingBuffer<'a, T>)
        ensures
            *ring == self.ring(),
    {
        self.ring_buffer
    }
}

impl<'a, T: Copy + Send> Receiver<'a, T> {
    /// A chunk of exactly `len` published elements in one piece, or nothing where
    /// fewer can be read in one piece. The chunk borrows the endpoint, so a
    /// second read has to wait until the first is committed or dropped.
    ///
    /// The cursors are loaded first, the consumer's own `head` relaxed and `tail`
    /// with acquire ordering, and the producer may move `tail` at any time, so
    /// the contract says what holds of every outcome: the result is what
    /// [`found`] gives on some pair of cursors; a request for no
    /// elements is granted, one for more elements than the ring has slots is
    /// refused.
    pub fn read_exact(&mut self, len: usize) -> (read: Option<ReadChunk<'_, T>>)
        ensures
            final(self).ring() == old(self).ring(),
            len == 0 ==> read.is_some(),
            len > old(self).ring().capacity() ==> read.is_none(),
            exists|head: usize, tail: usize|
                reader_chunk::window_of(read) == #[trigger] found(
                    head,
                    tail,
                    old(self).ring().capacity(),
                    len,
                ),
            read matches Some(chunk) ==> {
                &&& chunk.ring() == old(self).ring()
                &&& chunk.len() == len
                &&& chunk.window().contiguous(old(self).ring().capacity())
                &&& len <= readable(chunk.window().start, chunk.seen(), old(self).ring().capacity())
            },
    {
        let head: usize = self.ring_buffer.head_ref().load_relaxed();
        let tail: usize = self.ring_buffer.tail_ref().load_acquire();
        let read = ReadChunk::exact_at(self.ring_buffer, head, tail, len);
        assert(reader_chunk::window_of(read) == found(
            head,
            tail,
            old(self).ring().capacity(),
            len,
        ));
        read
    }

    /// A chunk of all published elements that can be read in one piece, whether
    /// or not the ring wraps around. It is empty where nothing is published.
    ///
    /// The cursors are loaded first, so the contract says what holds of every
    /// outcome: the chunk is what [`available`] gives on some pair
    /// of cursors.
    pub fn read(&mut self) -> (chunk: ReadChunk<'_, T>)
        ensures
            final(self).ring() == old(self).ring(),
            chunk.ring() == old(self).ring(),
            chunk.window().contiguous(old(self).ring().capacity()),
            chunk.len() == readable(chunk.window().start, chunk.seen(), old(self).ring().capacity()),
            exists|head: usize, tail: usize|
                chunk.window() == #[trigger] available(
                    head,
                    tail,
                    old(self).ring().capacity(),
                ),
    {
        let head: usize = self.ring_buffer.head_ref().load_relaxed();
        let tail: usize = self.ring_buffer.tail_ref().load_acquire();
        let chunk = ReadChunk::available_at(self.ring_buffer, head, tail);
        chunk
    }
}

} // verus!
