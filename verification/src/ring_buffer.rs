//! Rings that own their cursors and their slots.
//!
//! Each cursor sits in a cache line of its own, so that the producer's stores of
//! `tail` and the consumer's stores of `head` do not contend for one line.

use crate::ref_ring_buffer::RefRingBuffer;
use crate::ref_ring_buffer::Slot;
use crossbeam::atomic::AtomicCell;
use crossbeam::utils::CachePadded;
use std::sync::atomic::AtomicUsize;
use vstd::prelude::*;

verus! {

/// `CachePadded`: a value padded and aligned to the length of a cache line.
#[verifier::external_type_specification]
#[verifier::external_body]
#[verifier::reject_recursive_types(T)]
pub struct ExCachePadded<T>(CachePadded<T>);

/// The cursor that a padded cell holds.
pub uninterp spec fn padded_counter(padded: CachePadded<AtomicUsize>) -> AtomicUsize;

/// `CachePadded::new`: pads and aligns `counter` to the length of a cache line.
/// The padded cell holds `counter`.
#[verifier::external_body]
fn pad_counter(counter: AtomicUsize) -> (padded: CachePadded<AtomicUsize>)
    ensures
        padded_counter(padded) == counter,
{
    CachePadded::new(counter)
}

/// `Deref::deref` of `CachePadded`: a reference to the cursor that the padded
/// cell holds.
#[verifier::external_body]
fn counter_of(padded: &CachePadded<AtomicUsize>) -> (counter: &AtomicUsize)
    ensures
        *counter == padded_counter(*padded),
{
    padded
}

/// `AtomicCell::new`: a cell that holds `value`. The cell is opaque, so the
/// contract says nothing of what a later load returns.
#[verifier::external_body]
fn slot_new<T>(value: T) -> Slot<T> {
    AtomicCell::new(value)
}

/// An array of `len` slots that the producer has not written yet.
fn empty_slots<T: Default>(len: usize) -> (slots: Vec<Slot<T>>)
    ensures
        slots@.len() == len,
{
    let mut slots: Vec<Slot<T>> = Vec::new();
    let mut index: usize = 0;
    while index < len
        invariant
            index <= len,
            slots@.len() == index,
        decreases len - index,
    {
        slots.push(slot_new(T::default()));
        index += 1;
    }
    slots
}

/// A ring whose number of slots is fixed in its type.
#[verifier::reject_recursive_types(T)]
pub struct RingBufferConst<T, const N: usize> {
    head: CachePadded<AtomicUsize>,
    tail: CachePadded<AtomicUsize>,
    buffer: Vec<Slot<T>>,
}

impl<T, const N: usize> RingBufferConst<T, N> {
    #[verifier::type_invariant]
    spec fn well_formed(self) -> bool {
        N >= 1 && self.buffer@.len() == N
    }

    /// The consumer's cursor.
    pub closed spec fn head_cursor(&self) -> AtomicUsize {
        padded_counter(self.head)
    }

    /// The producer's cursor.
    pub closed spec fn tail_cursor(&self) -> AtomicUsize {
        padded_counter(self.tail)
    }

    /// The slot array.
    pub closed spec fn slots(&self) -> Seq<Slot<T>> {
        self.buffer@
    }

    /// The consumer's cursor.
    pub fn head(&self) -> (head: &AtomicUsize)
        ensures
            *head == self.head_cursor(),
    {
        counter_of(&self.head)
    }

    /// The producer's cursor.
    pub fn tail(&self) -> (tail: &AtomicUsize)
        ensures
            *tail == self.tail_cursor(),
    {
        counter_of(&self.tail)
    }
}

impl<T: Send + Copy + Default, const N: usize> RingBufferConst<T, N> {
    /// An empty ring of `N` slots: both cursors start at zero and no slot is
    /// written.
    pub fn new() -> (ring: Self)
        requires
            N >= 1,
        ensures
            ring.slots().len() == N,
    {
        Self {
            head: pad_counter(AtomicUsize::new(0)),
            tail: pad_counter(AtomicUsize::new(0)),
            buffer: empty_slots(N),
        }
    }

    /// The ring seen through references to its cursors and slots.
    pub fn to_ref(&mut self) -> (ring: RefRingBuffer<'_, T>)
        ensures
            ring.capacity() == N,
            ring.slots() == old(self).slots(),
            ring.head_cursor() == old(self).head_cursor(),
            ring.tail_cursor() == old(self).tail_cursor(),
    {
        proof {
            use_type_invariant(&*self);
        }
        RefRingBuffer::from_raw_parts(counter_of(&self.head), counter_of(&self.tail), self.buffer.as_slice())
    }
}

/// A ring whose number of slots is chosen when it is made.
#[verifier::reject_recursive_types(T)]
pub struct RingBufferAlloc<T> {
    head: CachePadded<AtomicUsize>,
    tail: CachePadded<AtomicUsize>,
    buffer: Vec<Slot<T>>,
}

impl<T> RingBufferAlloc<T> {
    #[verifier::type_invariant]
    spec fn well_formed(self) -> bool {
        self.buffer@.len() >= 1
    }

    /// The consumer's cursor.
    pub closed spec fn head_cursor(&self) -> AtomicUsize {
        padded_counter(self.head)
    }

    /// The producer's cursor.
    pub closed spec fn tail_cursor(&self) -> AtomicUsize {
        padded_counter(self.tail)
    }

    /// The slot array.
    pub closed spec fn slots(&self) -> Seq<Slot<T>> {
        self.buffer@
    }

    /// The consumer's cursor.
    pub fn head(&self) -> (head: &AtomicUsize)
        ensures
            *head == self.head_cursor(),
    {
        counter_of(&self.head)
    }

    /// The producer's cursor.
    pub fn tail(&self) -> (tail: &AtomicUsize)
        ensures
            *tail == self.tail_cursor(),
    {
        counter_of(&self.tail)
    }
}

impl<T: Send + Copy + Default> RingBufferAlloc<T> {
    /// An empty ring of `size` slots: both cursors start at zero and no slot is
    /// written.
    pub fn new(size: usize) -> (ring: Self)
        requires
            size >= 1,
        ensures
            ring.slots().len() == size,
    {
        Self {
            head: pad_counter(AtomicUsize::new(0)),
            tail: pad_counter(AtomicUsize::new(0)),
            buffer: empty_slots(size),
        }
    }

    /// The ring seen through references to its cursors and slots.
    pub fn to_ref(&mut self) -> (ring: RefRingBuffer<'_, T>)
        ensures
            ring.capacity() == old(self).slots().len(),
            ring.slots() == old(self).slots(),
            ring.head_cursor() == old(self).head_cursor(),
            ring.tail_cursor() == old(self).tail_cursor(),
    {
        proof {
            use_type_invariant(&*self);
        }
        RefRingBuffer::from_raw_parts(counter_of(&self.head), counter_of(&self.tail), self.buffer.as_slice())
    }
}

} // verus!
