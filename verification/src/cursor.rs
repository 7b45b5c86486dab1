//! Arithmetic on the two cursors of a ring.
//!
//! `head` is the consumer's cursor and `tail` the producer's. Both only ever grow
//! and wrap in the machine word; a cursor is reduced modulo the capacity only to
//! find the slot it names. Everything here is a function of plain integers, so an
//! endpoint can apply it to whatever cursor values it loaded.

use vstd::prelude::*;

verus! {

/// Number of elements between the cursors: `tail − head` in the unsigned word.
pub open spec fn occupancy(head: usize, tail: usize) -> usize {
    tail.wrapping_sub(head)
}

/// Number of slots the producer may still fill. Cursors that claim more elements
/// than the ring holds leave nothing free.
pub open spec fn free_slots(head: usize, tail: usize, capacity: usize) -> usize {
    if occupancy(head, tail) <= capacity {
        (capacity - occupancy(head, tail)) as usize
    } else {
        0
    }
}

/// Slot of the array that a cursor names.
pub open spec fn slot_of(cursor: usize, capacity: usize) -> usize
    recommends
        capacity > 0,
{
    cursor % capacity
}

/// Number of slots from the one a cursor names up to the end of the array.
pub open spec fn to_end(cursor: usize, capacity: usize) -> usize
    recommends
        capacity > 0,
{
    (capacity - slot_of(cursor, capacity)) as usize
}

/// Largest number of slots that can be reserved in one piece at `tail`.
pub open spec fn writable(head: usize, tail: usize, capacity: usize) -> usize
    recommends
        capacity > 0,
{
    if free_slots(head, tail, capacity) <= to_end(tail, capacity) {
        free_slots(head, tail, capacity)
    } else {
        to_end(tail, capacity)
    }
}

/// Largest number of elements that can be read in one piece at `head`.
pub open spec fn readable(head: usize, tail: usize, capacity: usize) -> usize
    recommends
        capacity > 0,
{
    if occupancy(head, tail) <= to_end(head, capacity) {
        occupancy(head, tail)
    } else {
        to_end(head, capacity)
    }
}

/// Number of elements that an uncommitted copy of `len` elements may place.
pub open spec fn copyable(head: usize, tail: usize, capacity: usize, len: usize) -> usize {
    if len <= free_slots(head, tail, capacity) {
        len
    } else {
        free_slots(head, tail, capacity)
    }
}

/// A run of consecutive cursor positions, from `start` up to but not including
/// `end`. The positions may pass the wrap of the word, so `end` can be the
/// smaller number.
#[derive(Clone, Copy, Debug, PartialEq, Eq, Structural)]
pub struct Window {
    pub start: usize,
    pub end: usize,
}

impl Window {
    pub open spec fn spec_len(&self) -> usize {
        self.end.wrapping_sub(self.start)
    }

    /// Number of positions in the window.
    #[verifier::when_used_as_spec(spec_len)]
    pub fn len(&self) -> (n: usize)
        ensures
            n == self.spec_len(),
    {
        self.end.wrapping_sub(self.start)
    }

    pub open spec fn spec_is_empty(&self) -> bool {
        self.start == self.end
    }

    /// Whether the window holds no position.
    #[verifier::when_used_as_spec(spec_is_empty)]
    pub fn is_empty(&self) -> (b: bool)
        ensures
            b == self.spec_is_empty(),
            b <==> self.len() == 0,
    {
        self.start == self.end
    }

    pub open spec fn spec_offset(&self, capacity: usize) -> usize
        recommends
            capacity > 0,
    {
        slot_of(self.start, capacity)
    }

    /// Slot of the array at which the window begins.
    #[verifier::when_used_as_spec(spec_offset)]
    pub fn offset(&self, capacity: usize) -> (slot: usize)
        requires
            capacity > 0,
        ensures
            slot == self.spec_offset(capacity),
            slot < capacity,
    {
        self.start % capacity
    }

    /// The window lies in one piece of an array of `capacity` slots: it does not
    /// run over the end of the array.
    pub open spec fn contiguous(self, capacity: usize) -> bool {
        capacity > 0 && self.offset(capacity) + self.len() <= capacity
    }

    /// The window of `len` positions that begins at `start`.
    pub open spec fn at(start: usize, len: usize) -> Window {
        Window { start, end: start.wrapping_add(len) }
    }

    /// The slot of the position number `index` of a window that lies in one
    /// piece: `index` slots behind the first.
    pub open spec fn spec_slot(&self, capacity: usize, index: usize) -> usize {
        (self.offset(capacity) + index) as usize
    }

    /// Computes the slot of the position number `index` of the window.
    #[verifier::when_used_as_spec(spec_slot)]
    pub fn slot(&self, capacity: usize, index: usize) -> (slot: usize)
        requires
            self.contiguous(capacity),
            index < self.len(),
        ensures
            slot == self.spec_slot(capacity, index),
            slot == self.offset(capacity) + index,
            slot < capacity,
    {
        self.start % capacity + index
    }

    /// The slot and the element of the place number `index` when `source` is
    /// copied into the window: the elements go to the slots of the window in
    /// their order.
    pub fn placement<T: Copy>(&self, capacity: usize, source: &[T], index: usize) -> (place: (usize, T))
        requires
            self.contiguous(capacity),
            index < self.len(),
            index < source@.len(),
        ensures
            place.0 == self.spec_slot(capacity, index),
            place.0 < capacity,
            place.1 == source@[index as int],
    {
        (self.slot(capacity, index), source[index])
    }
}

/// The slot in which the element number `index` of a copy lands that begins at
/// `tail` and wraps around the end of the array: the first elements fill the
/// slots from the one of the tail to the end, the others go on at slot 0.
pub open spec fn copy_slot(tail: usize, capacity: usize, index: usize) -> usize
    recommends
        capacity > 0,
        index < capacity,
{
    if index < to_end(tail, capacity) {
        (slot_of(tail, capacity) + index) as usize
    } else {
        (index - to_end(tail, capacity)) as usize
    }
}

/// What a request for `size` slots in one piece is answered with, on given
/// cursors: the window of `size` positions at `tail` where that many slots are
/// free before the end of the array, and nothing otherwise.
pub open spec fn granted(head: usize, tail: usize, capacity: usize, size: usize) -> Option<Window> {
    if size <= writable(head, tail, capacity) {
        Some(Window::at(tail, size))
    } else {
        None
    }
}

/// What a request to read exactly `len` elements in one piece is answered with,
/// on given cursors: the window of `len` positions at `head` where that many
/// elements are published before the end of the array, and nothing otherwise.
pub open spec fn found(head: usize, tail: usize, capacity: usize, len: usize) -> Option<Window> {
    if len <= readable(head, tail, capacity) {
        Some(Window::at(head, len))
    } else {
        None
    }
}

/// The window of all elements that can be read in one piece, on given cursors.
pub open spec fn available(head: usize, tail: usize, capacity: usize) -> Window {
    Window::at(head, readable(head, tail, capacity))
}

/// Computes [`free_slots`].
pub fn free_slots_of(head: usize, tail: usize, capacity: usize) -> (free: usize)
    ensures
        free == free_slots(head, tail, capacity),
        free <= capacity,
{
    let used: usize = tail.wrapping_sub(head);
    if used <= capacity {
        capacity - used
    } else {
        0
    }
}

/// Computes [`writable`].
pub fn writable_at(head: usize, tail: usize, capacity: usize) -> (n: usize)
    requires
        capacity > 0,
    ensures
        n == writable(head, tail, capacity),
        slot_of(tail, capacity) + n <= capacity,
{
    let free: usize = free_slots_of(head, tail, capacity);
    let to_end: usize = capacity - tail % capacity;
    if free <= to_end {
        free
    } else {
        to_end
    }
}

/// Computes [`readable`].
pub fn readable_at(head: usize, tail: usize, capacity: usize) -> (n: usize)
    requires
        capacity > 0,
    ensures
        n == readable(head, tail, capacity),
        slot_of(head, capacity) + n <= capacity,
{
    let used: usize = tail.wrapping_sub(head);
    let to_end: usize = capacity - head % capacity;
    if used <= to_end {
        used
    } else {
        to_end
    }
}

/// Decides a request for `n` slots in one piece at `tail`, given the cursors as
/// the producer sees them. The request is granted exactly when `n` is at most
/// both the free space and the distance to the end of the array; the window then
/// begins at `tail`.
pub fn reserve(head: usize, tail: usize, capacity: usize, n: usize) -> (reserved: Option<Window>)
    requires
        capacity > 0,
    ensures
        reserved == granted(head, tail, capacity, n),
        reserved.is_some() <==> n <= writable(head, tail, capacity),
        reserved matches Some(window) ==> {
            &&& window == Window::at(tail, n)
            &&& window.len() == n
            &&& window.contiguous(capacity)
        },
{
    if n <= writable_at(head, tail, capacity) {
        Some(Window { start: tail, end: tail.wrapping_add(n) })
    } else {
        None
    }
}

/// Decides a request to read exactly `n` elements in one piece at `head`, given
/// the cursors as the consumer sees them. The request is granted exactly when `n`
/// is at most both the number of published elements and the distance to the end
/// of the array; the window then begins at `head`.
pub fn read_exact(head: usize, tail: usize, capacity: usize, n: usize) -> (read: Option<Window>)
    requires
        capacity > 0,
    ensures
        read == found(head, tail, capacity, n),
        read.is_some() <==> n <= readable(head, tail, capacity),
        read matches Some(window) ==> {
            &&& window == Window::at(head, n)
            &&& window.len() == n
            &&& window.contiguous(capacity)
        },
{
    if n <= readable_at(head, tail, capacity) {
        Some(Window { start: head, end: head.wrapping_add(n) })
    } else {
        None
    }
}

/// The window of all elements that can be read in one piece at `head`. It is
/// empty when the cursors are equal.
pub fn read_available(head: usize, tail: usize, capacity: usize) -> (window: Window)
    requires
        capacity > 0,
    ensures
        window == available(head, tail, capacity),
        window.len() == readable(head, tail, capacity),
        window.contiguous(capacity),
{
    let n: usize = readable_at(head, tail, capacity);
    Window { start: head, end: head.wrapping_add(n) }
}

/// Computes [`copyable`]: how many of `len` elements fit in the free space.
pub fn copyable_of(head: usize, tail: usize, capacity: usize, len: usize) -> (k: usize)
    ensures
        k == copyable(head, tail, capacity, len),
        k <= len,
        k <= capacity,
{
    let free: usize = free_slots_of(head, tail, capacity);
    if len <= free {
        len
    } else {
        free
    }
}

/// Splits a copy of `k` elements that begins at `tail` into the piece that reaches
/// at most the end of the array and the piece that continues at slot 0. Returns
/// the length of the first piece.
pub fn first_segment(tail: usize, capacity: usize, k: usize) -> (first: usize)
    requires
        capacity > 0,
        k <= capacity,
    ensures
        first == if k <= to_end(tail, capacity) { k } else { to_end(tail, capacity) },
        first <= k,
        slot_of(tail, capacity) + first <= capacity,
        k - first <= slot_of(tail, capacity),
{
    let to_end: usize = capacity - tail % capacity;
    if k <= to_end {
        k
    } else {
        to_end
    }
}

/// The slot and the element of the place number `index` when `data` is copied
/// into the ring from `tail` on: the slot is [`copy_slot`], the element is the
/// one of that number.
pub fn placement<T: Copy>(tail: usize, capacity: usize, data: &[T], index: usize) -> (place: (usize, T))
    requires
        capacity > 0,
        index < capacity,
        index < data@.len(),
    ensures
        place.0 == copy_slot(tail, capacity, index),
        place.0 < capacity,
        place.1 == data@[index as int],
{
    let to_end: usize = capacity - tail % capacity;
    let slot: usize = if index < to_end {
        tail % capacity + index
    } else {
        index - to_end
    };
    (slot, data[index])
}

/// A producer that commits what it reserved keeps the occupancy within the
/// capacity. The head it saw when it reserved may be stale: the consumer can only
/// have moved on since, which frees slots and takes none.
pub proof fn lemma_commit_write_keeps_bound(
    head_seen: usize,
    head: usize,
    tail: usize,
    capacity: usize,
    n: usize,
)
    requires
        occupancy(head_seen, tail) <= capacity,
        occupancy(head, tail) <= occupancy(head_seen, tail),
        n <= free_slots(head_seen, tail, capacity),
    ensures
        occupancy(head, tail.wrapping_add(n)) == occupancy(head, tail) + n,
        occupancy(head, tail.wrapping_add(n)) <= capacity,
{
}

/// A consumer that commits what it read leaves the occupancy within the capacity
/// and never moves `head` past `tail`. The tail it saw when it read may be stale:
/// the producer can only have published more since.
pub proof fn lemma_commit_read_keeps_bound(
    head: usize,
    tail_seen: usize,
    tail: usize,
    capacity: usize,
    k: usize,
)
    requires
        occupancy(head, tail) <= capacity,
        occupancy(head, tail_seen) <= occupancy(head, tail),
        k <= occupancy(head, tail_seen),
    ensures
        occupancy(head.wrapping_add(k), tail) == occupancy(head, tail) - k,
        occupancy(head.wrapping_add(k), tail) <= capacity,
{
}

/// A reservation that is given up changes neither cursor, so the same request
/// is granted again over the same positions, also when the consumer has moved on
/// in between.
pub proof fn lemma_abandoned_reservation_repeats(
    head: usize,
    head_later: usize,
    tail: usize,
    capacity: usize,
    n: usize,
)
    requires
        capacity > 0,
        occupancy(head, tail) <= capacity,
        occupancy(head_later, tail) <= occupancy(head, tail),
        n <= writable(head, tail, capacity),
    ensures
        granted(head_later, tail, capacity, n) == granted(head, tail, capacity, n),
        granted(head, tail, capacity, n) == Some(Window::at(tail, n)),
        Window::at(tail, n).contiguous(capacity),
        Window::at(tail, n).len() == n,
{
}

/// A request for no slots is always granted, yields an empty window, and a commit
/// of it stores the tail it began at.
pub proof fn lemma_empty_reservation(head: usize, tail: usize, capacity: usize)
    requires
        capacity > 0,
    ensures
        granted(head, tail, capacity, 0) == Some(Window::at(tail, 0)),
        Window::at(tail, 0).is_empty(),
        Window::at(tail, 0).end == tail,
{
}

/// A request that would run over the end of the array is refused, however much
/// space is free.
pub proof fn lemma_straddling_reservation_refused(
    head: usize,
    tail: usize,
    capacity: usize,
    n: usize,
)
    requires
        capacity > 0,
        to_end(tail, capacity) < n,
    ensures
        granted(head, tail, capacity, n).is_none(),
{
}

/// With equal cursors nothing can be read: the window of available elements is
/// empty.
pub proof fn lemma_empty_ring_reads_nothing(cursor: usize, capacity: usize)
    requires
        capacity > 0,
    ensures
        readable(cursor, cursor, capacity) == 0,
        available(cursor, cursor, capacity).is_empty(),
        found(cursor, cursor, capacity, 0) == Some(available(cursor, cursor, capacity)),
{
}

} // verus!
