//! A ring seen through references: two cursors and a slot array that live
//! elsewhere, and the two endpoints that a ring is split into.

use crate::cursor::granted;
use crate::cursor::writable;
use crossbeam::atomic::AtomicCell;
use std::sync::atomic::AtomicUsize;
use vstd::prelude::*;

pub mod reader_chunk;
pub mod receiver;
pub mod sender;
pub mod writer_chunk;

use self::receiver::Receiver;
use self::sender::Sender;
use self::writer_chunk::WriteChunk;

verus! {

/// `AtomicCell`: a memory location that threads may share. Nothing is known of
/// what a cell holds.
#[verifier::external_type_specification]
#[verifier::external_body]
#[verifier::reject_recursive_types(T)]
pub struct ExAtomicCell<T>(AtomicCell<T>);

/// One cell of the slot array. A cell of an element that fits a machine word
/// is read and written with a single atomic instruction, so that neither
/// endpoint ever waits for the other. Before the producer has written a cell it
/// holds a value that means nothing.
pub type Slot<T> = AtomicCell<T>;

/// `AtomicCell::load`: a copy of what the cell holds at the moment of the call.
/// The cell is shared with the other endpoint, so nothing is claimed of the value.
#[verifier::external_body]
pub(crate) fn slot_load<T: Copy>(slot: &Slot<T>) -> T {
    slot.load()
}

/// `AtomicCell::store`: puts `value` in the cell. The cell is opaque, so the
/// contract says nothing of what a later load returns.
#[verifier::external_body]
pub(crate) fn slot_store<T: Copy>(slot: &Slot<T>, value: T) {
    slot.store(value)
}

/// A ring that borrows its cursors and its slots. The ring must not outlive them.
#[verifier::reject_recursive_types(T)]
pub struct RefRingBuffer<'a, T> {
    head: &'a AtomicUsize,
    tail: &'a AtomicUsize,
    buffer: &'a [Slot<T>],
}

impl<'a, T> RefRingBuffer<'a, T> {
    #[verifier::type_invariant]
    spec fn well_formed(self) -> bool {
        1 <= self.buffer@.len() <= usize::MAX
    }

    /// Number of slots of the ring.
    pub closed spec fn capacity(&self) -> usize {
        self.buffer@.len() as usize
    }

    /// The slot array that the ring was made of.
    pub closed spec fn slots(&self) -> Seq<Slot<T>> {
        self.buffer@
    }

    /// The consumer's cursor.
    pub closed spec fn head_cursor(&self) -> AtomicUsize {
        *self.head
    }

    /// The producer's cursor.
    pub closed spec fn tail_cursor(&self) -> AtomicUsize {
        *self.tail
    }

    /// Number of slots of the ring.
    pub fn buffer_size(&self) -> (size: usize)
        ensures
            size == self.capacity(),
            size >= 1,
    {
        proof {
            use_type_invariant(self);
        }
        self.buffer.len()
    }

    /// The consumer's cursor.
    pub fn head_ref(&self) -> (head: &AtomicUsize)
        ensures
            *head == self.head_cursor(),
    {
        self.head
    }

    /// The producer's cursor.
    pub fn tail_ref(&self) -> (tail: &AtomicUsize)
        ensures
            *tail == self.tail_cursor(),
    {
        self.tail
    }
}

impl<'a, T: Send + Copy> RefRingBuffer<'a, T> {
    /// Makes a ring of cursors and slots that live elsewhere. A ring has at least
    /// one slot.
    pub fn from_raw_parts(head: &'a AtomicUsize, tail: &'a AtomicUsize, buffer: &'a [Slot<T>]) -> (ring: Self)
        requires
            buffer@.len() >= 1,
        ensures
            ring.capacity() == buffer@.len(),
            ring.slots() == buffer@,
            ring.head_cursor() == *head,
            ring.tail_cursor() == *tail,
    {
        assert(buffer.len() == buffer@.len());
        Self { head, tail, buffer }
    }

    /// The whole slot array, for a caller that registers it with a device.
    pub fn buffer_slice(&self) -> (slots: &[Slot<T>])
        ensures
            slots@ == self.slots(),
            slots@.len() == self.capacity(),
    {
        proof {
            use_type_invariant(self);
        }
        self.buffer
    }

    /// Splits the ring into its two endpoints. Both refer to this ring. The
    /// exclusive borrow keeps a second pair from being made while they live; that
    /// no other ring is made of the same cursors and slots is the caller's
    /// promise, and nothing checks it.
    pub fn split(&mut self) -> (endpoints: (Sender<'_, T>, Receiver<'_, T>))
        ensures
            *final(self) == *old(self),
            endpoints.0.ring() == *old(self),
            endpoints.1.ring() == *old(self),
    {
        let sender = Sender::new(self);
        let receiver = Receiver::new(self);
        (sender, receiver)
    }

    /// Reserves `len` slots in one piece, whether or not the ring wraps around.
    /// What [`WriteChunk::try_reserve`] says holds here.
    pub fn reserve_write(&self, len: usize) -> (reserved: Option<WriteChunk<'_, T>>)
        ensures
            len == 0 ==> reserved.is_some(),
            len > self.capacity() ==> reserved.is_none(),
            exists|head: usize, tail: usize|
                writer_chunk::window_of(reserved) == #[trigger] granted(
                    head,
                    tail,
                    self.capacity(),
                    len,
                ),
            reserved matches Some(chunk) ==> {
                &&& chunk.ring() == *self
                &&& chunk.len() == len
                &&& chunk.window().contiguous(self.capacity())
                &&& len <= writable(chunk.seen(), chunk.window().start, self.capacity())
            },
    {
        WriteChunk::try_reserve(self, len)
    }
}

} // verus!
