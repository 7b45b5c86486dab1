//! The cursor protocol as a transition system, and what holds of every run.
//!
//! The state counts the elements produced and consumed with unbounded numbers;
//! the cursors of a real ring are these counts reduced to the machine word. A
//! step is a commit of the producer or of the consumer. Each side decides on the
//! cursor of the other as it last saw it, which may be stale by the time it
//! commits. The conditions under which a step is taken are those under which the
//! functions of [`crate::cursor`] grant a request, so the endpoints of a ring
//! take these steps and no others, as long as there is one producer and one
//! consumer.
//!
//! A position names a slot by its count. A real ring has the cursor word only,
//! and the slot it computes from the word is the slot of the count as long as
//! the capacity divides the range of the word or the count has not passed that
//! range ([`lemma_slot_of_word`]). A ring of any other capacity is right up to
//! the wrap of the word and not beyond.

use crate::cursor::copy_slot;
use crate::cursor::copyable;
use crate::cursor::free_slots;
use crate::cursor::occupancy;
use crate::cursor::readable;
use crate::cursor::slot_of;
use crate::cursor::to_end;
use crate::cursor::writable;
use crate::cursor::Window;
use vstd::arithmetic::div_mod::lemma_fundamental_div_mod;
use vstd::arithmetic::div_mod::lemma_mod_equivalence;
use vstd::arithmetic::div_mod::lemma_mod_mod;
use vstd::arithmetic::div_mod::lemma_small_mod;
use vstd::prelude::*;

verus! {

/// Number of values that a cursor word takes.
pub open spec fn word_range() -> int {
    usize::MAX as int + 1
}

/// The cursor word that stands for a count.
pub open spec fn word(count: nat) -> usize {
    (count as int % word_range()) as usize
}

/// The capacity divides the range of the cursor word, as every power of two
/// that fits the word does. Only then does a cursor name the slot that follows
/// the last one when it wraps.
pub open spec fn wraps_evenly(capacity: usize) -> bool {
    capacity > 0 && word_range() % (capacity as int) == 0
}

/// A ring at one moment of a run.
pub struct RingState<T> {
    pub capacity: usize,
    /// Number of elements that the consumer has released.
    pub head: nat,
    /// Number of elements that the producer has published.
    pub tail: nat,
    pub slots: Seq<Option<T>>,
    /// Every element published so far, in the order of publication.
    pub produced: Seq<T>,
    /// Every value that the consumer has read from a slot and released, in the
    /// order in which it read them.
    pub consumed: Seq<Option<T>>,
}

/// A commit of one of the two sides.
pub enum Step<T> {
    /// The producer publishes `values`. It had seen `head_seen` elements
    /// released when it asked for the room.
    Produce { head_seen: nat, values: Seq<T> },
    /// The consumer releases `count` elements. It had seen `tail_seen` elements
    /// published when it asked for them.
    Consume { tail_seen: nat, count: nat },
}

impl<T> RingState<T> {
    /// A ring in which nothing was published yet.
    pub open spec fn empty(capacity: usize) -> Self {
        RingState {
            capacity,
            head: 0,
            tail: 0,
            slots: Seq::new(capacity as nat, |slot: int| None),
            produced: Seq::empty(),
            consumed: Seq::empty(),
        }
    }

    /// The consumer's cursor as the ring stores it.
    pub open spec fn head_word(self) -> usize {
        word(self.head)
    }

    /// The producer's cursor as the ring stores it.
    pub open spec fn tail_word(self) -> usize {
        word(self.tail)
    }

    /// What the slot holds that the position `index` names.
    pub open spec fn slot_at(self, index: nat) -> Option<T> {
        self.slots[index as int % (self.capacity as int)]
    }

    /// What holds of a ring between any two steps: the consumer is not ahead of
    /// the producer, the producer is at most one capacity ahead of the consumer,
    /// the slots between the cursors hold the elements published at their
    /// positions, and the consumer has read the elements before its cursor, each
    /// once and in the order of publication.
    pub open spec fn inv(self) -> bool {
        &&& self.capacity >= 1
        &&& self.slots.len() == self.capacity
        &&& self.head <= self.tail <= self.head + self.capacity
        &&& self.produced.len() == self.tail
        &&& self.consumed.len() == self.head
        &&& forall|index: nat|
            self.head <= index < self.tail ==> #[trigger] self.slot_at(index) == Some(
                self.produced[index as int],
            )
        &&& forall|index: int|
            0 <= index < self.head ==> #[trigger] self.consumed[index] == Some(self.produced[index])
    }

    /// Whether a side that keeps to the protocol may take the step.
    pub open spec fn enabled(self, step: Step<T>) -> bool {
        match step {
            Step::Produce { head_seen, values } => {
                &&& head_seen <= self.head
                &&& self.tail <= head_seen + self.capacity
                &&& values.len() <= free_slots(word(head_seen), self.tail_word(), self.capacity)
            },
            Step::Consume { tail_seen, count } => {
                &&& self.head <= tail_seen <= self.tail
                &&& count <= occupancy(self.head_word(), word(tail_seen))
            },
        }
    }

    /// The ring after the producer has written `value` at its cursor and moved
    /// the cursor by one.
    pub open spec fn push(self, value: T) -> Self {
        RingState {
            tail: self.tail + 1,
            slots: self.slots.update(self.tail as int % (self.capacity as int), Some(value)),
            produced: self.produced.push(value),
            ..self
        }
    }

    /// The ring after the producer has published `values`.
    pub open spec fn produce(self, values: Seq<T>) -> Self
        decreases values.len(),
    {
        if values.len() == 0 {
            self
        } else {
            self.produce(values.drop_last()).push(values.last())
        }
    }

    /// What the consumer reads from the `count` slots at its cursor.
    pub open spec fn observe(self, count: nat) -> Seq<Option<T>> {
        Seq::new(count, |offset: int| self.slot_at((self.head + offset) as nat))
    }

    /// The ring after the consumer has read and released `count` elements.
    pub open spec fn consume(self, count: nat) -> Self {
        RingState {
            head: self.head + count,
            consumed: self.consumed + self.observe(count),
            ..self
        }
    }

    /// The ring after a step.
    pub open spec fn next(self, step: Step<T>) -> Self {
        match step {
            Step::Produce { head_seen, values } => self.produce(values),
            Step::Consume { tail_seen, count } => self.consume(count),
        }
    }

    /// The ring after an attempt at each of `steps` in turn. A step that is not
    /// enabled is not taken.
    pub open spec fn run(self, steps: Seq<Step<T>>) -> Self
        decreases steps.len(),
    {
        if steps.len() == 0 {
            self
        } else {
            let before = self.run(steps.drop_last());
            if before.enabled(steps.last()) {
                before.next(steps.last())
            } else {
                before
            }
        }
    }
}

/// Two counts that are less than the range of the word apart have cursor words
/// whose difference in the word is the difference of the counts. So the
/// occupancy that an endpoint computes from the stored cursors is the true one,
/// also after a cursor has wrapped.
pub proof fn lemma_word_difference(low: nat, high: nat)
    requires
        low <= high,
        high - low < word_range(),
    ensures
        occupancy(word(low), word(high)) == high - low,
{
    lemma_fundamental_div_mod(high as int, word_range());
}

/// Two different positions that are less than a capacity apart name different
/// slots.
pub proof fn lemma_slots_differ(low: nat, high: nat, capacity: usize)
    requires
        capacity > 0,
        low < high,
        high - low < capacity,
    ensures
        low as int % (capacity as int) != high as int % (capacity as int),
{
    lemma_mod_equivalence(high as int, low as int, capacity as int);
    lemma_small_mod((high - low) as nat, capacity as nat);
}

/// Where the capacity divides the range of the word, or the count has not yet
/// passed the range, the cursor word names the slot of the count.
pub proof fn lemma_slot_of_word(count: nat, capacity: usize)
    requires
        capacity > 0,
        wraps_evenly(capacity) || count < word_range(),
    ensures
        slot_of(word(count), capacity) == count as int % (capacity as int),
{
    if count < word_range() {
        lemma_small_mod(count, word_range() as nat);
    } else {
        let per_word = word_range() / (capacity as int);
        lemma_fundamental_div_mod(word_range(), capacity as int);
        lemma_mod_mod(count as int, capacity as int, per_word);
    }
}

/// The slots of a window that lies in one piece are the slots that the protocol
/// gives its positions: the element number `index` of a window that begins at
/// the count `start` lies `index` slots behind the first.
pub proof fn lemma_window_slots(start: nat, capacity: usize, len: usize, index: nat)
    requires
        capacity > 0,
        wraps_evenly(capacity) || start < word_range(),
        Window::at(word(start), len).contiguous(capacity),
        index < len,
    ensures
        Window::at(word(start), len).slot(capacity, index as usize) == (start + index) as int % (
        capacity as int),
        Window::at(word(start), len).offset(capacity) + index == (start + index) as int % (
        capacity as int),
{
    lemma_slot_of_word(start, capacity);
    let first = start as int % (capacity as int);
    lemma_fundamental_div_mod(start as int, capacity as int);
    let quotient = start as int / (capacity as int);
    assert((start + index) as int % (capacity as int) == first + index) by (nonlinear_arith)
        requires
            start as int == (capacity as int) * quotient + first,
            0 <= first + index < capacity,
            index >= 0,
    ;
}

/// The slots that a copy in two pieces fills are the slots that the protocol
/// gives its positions: the first piece runs from the slot of the tail to the
/// end of the array, the second goes on at slot 0.
pub proof fn lemma_copy_slots(tail: nat, capacity: usize, index: nat)
    requires
        capacity > 0,
        wraps_evenly(capacity) || tail < word_range(),
        index < capacity,
    ensures
        (tail + index) as int % (capacity as int) == copy_slot(word(tail), capacity, index as usize),
        (tail + index) as int % (capacity as int) == if index < to_end(word(tail), capacity) {
            slot_of(word(tail), capacity) + index
        } else {
            index - to_end(word(tail), capacity)
        },
{
    lemma_slot_of_word(tail, capacity);
    let first = tail as int % (capacity as int);
    lemma_fundamental_div_mod(tail as int, capacity as int);
    let quotient = tail as int / (capacity as int);
    if first + index < capacity {
        assert((tail + index) as int % (capacity as int) == first + index) by (nonlinear_arith)
            requires
                tail as int == (capacity as int) * quotient + first,
                0 <= first + index < capacity,
                index >= 0,
        ;
    } else {
        assert((tail + index) as int % (capacity as int) == first + index - capacity) by (nonlinear_arith)
            requires
                tail as int == (capacity as int) * quotient + first,
                capacity <= first + index < 2 * capacity,
                index >= 0,
        ;
    }
}

/// The cursors that a ring stores are as far apart as the counts of a state
/// that keeps the invariant: the occupancy computed from them is exact and
/// within the capacity.
pub proof fn lemma_stored_occupancy<T>(state: RingState<T>)
    requires
        state.inv(),
    ensures
        occupancy(state.head_word(), state.tail_word()) == state.tail - state.head,
        occupancy(state.head_word(), state.tail_word()) <= state.capacity,
{
    lemma_word_difference(state.head, state.tail);
}

/// Writing one element at the producer's cursor keeps the invariant where a slot
/// is free.
pub proof fn lemma_push_keeps_invariant<T>(state: RingState<T>, value: T)
    requires
        state.inv(),
        state.tail < state.head + state.capacity,
    ensures
        state.push(value).inv(),
        state.push(value).head == state.head,
        state.push(value).tail == state.tail + 1,
        state.push(value).capacity == state.capacity,
        state.push(value).consumed == state.consumed,
        state.push(value).produced == state.produced.push(value),
{
    let after = state.push(value);
    assert forall|index: nat| after.head <= index < after.tail implies #[trigger] after.slot_at(index)
        == Some(after.produced[index as int]) by {
        if index < state.tail {
            lemma_slots_differ(index, state.tail, state.capacity);
            assert(state.slot_at(index) == Some(state.produced[index as int]));
        }
    }
}

/// Publishing `values` keeps the invariant where that many slots are free, and
/// appends `values` to what was published.
pub proof fn lemma_produce_keeps_invariant<T>(state: RingState<T>, values: Seq<T>)
    requires
        state.inv(),
        state.tail + values.len() <= state.head + state.capacity,
    ensures
        state.produce(values).inv(),
        state.produce(values).head == state.head,
        state.produce(values).tail == state.tail + values.len(),
        state.produce(values).capacity == state.capacity,
        state.produce(values).consumed == state.consumed,
        state.produce(values).produced == state.produced + values,
    decreases values.len(),
{
    if values.len() > 0 {
        lemma_produce_keeps_invariant(state, values.drop_last());
        lemma_push_keeps_invariant(state.produce(values.drop_last()), values.last());
    }
}

/// The consumer reads the elements in the order of their publication: what it
/// finds in the `count` slots at its cursor are the elements published at those
/// positions. Releasing them keeps the invariant.
pub proof fn lemma_consume_keeps_invariant<T>(state: RingState<T>, count: nat)
    requires
        state.inv(),
        state.head + count <= state.tail,
    ensures
        state.observe(count).len() == count,
        forall|offset: int|
            0 <= offset < count ==> #[trigger] state.observe(count)[offset] == Some(
                state.produced[state.head + offset],
            ),
        state.consume(count).inv(),
        state.consume(count).head == state.head + count,
        state.consume(count).tail == state.tail,
        state.consume(count).capacity == state.capacity,
        state.consume(count).produced == state.produced,
{
    let after = state.consume(count);
    assert forall|index: nat| after.head <= index < after.tail implies #[trigger] after.slot_at(index)
        == Some(after.produced[index as int]) by {
        assert(state.slot_at(index) == Some(state.produced[index as int]));
    }
}

/// What the producer's endpoint commits is a step of the protocol: a
/// reservation that was granted on the cursors it saw, and a copy of as many
/// elements as fitted on them, both publish no more than was free.
pub proof fn lemma_producer_commits_are_steps<T>(state: RingState<T>, head_seen: nat, values: Seq<T>, wanted: usize)
    requires
        state.capacity >= 1,
        head_seen <= state.head,
        state.tail <= head_seen + state.capacity,
        values.len() <= writable(word(head_seen), state.tail_word(), state.capacity) || values.len()
            == copyable(word(head_seen), state.tail_word(), state.capacity, wanted),
    ensures
        state.enabled(Step::Produce { head_seen, values }),
{
}

/// What the consumer's endpoint commits is a step of the protocol: a chunk that
/// was granted on the cursors it saw releases no more than was published.
pub proof fn lemma_consumer_commits_are_steps<T>(state: RingState<T>, tail_seen: nat, count: nat)
    requires
        state.capacity >= 1,
        state.head <= tail_seen <= state.tail,
        count <= readable(state.head_word(), word(tail_seen), state.capacity),
    ensures
        state.enabled(Step::Consume { tail_seen, count }),
{
}

/// A step that is enabled keeps the invariant, whichever side takes it and
/// however stale the cursor was that it had seen.
pub proof fn lemma_step_keeps_invariant<T>(state: RingState<T>, step: Step<T>)
    requires
        state.inv(),
        state.enabled(step),
    ensures
        state.next(step).inv(),
        state.next(step).capacity == state.capacity,
{
    match step {
        Step::Produce { head_seen, values } => {
            lemma_word_difference(head_seen, state.tail);
            lemma_produce_keeps_invariant(state, values);
        },
        Step::Consume { tail_seen, count } => {
            lemma_word_difference(state.head, tail_seen);
            lemma_consume_keeps_invariant(state, count);
        },
    }
}

/// Every run from a state that keeps the invariant ends in one that keeps it.
pub proof fn lemma_run_keeps_invariant<T>(state: RingState<T>, steps: Seq<Step<T>>)
    requires
        state.inv(),
    ensures
        state.run(steps).inv(),
        state.run(steps).capacity == state.capacity,
    decreases steps.len(),
{
    if steps.len() > 0 {
        lemma_run_keeps_invariant(state, steps.drop_last());
        let before = state.run(steps.drop_last());
        if before.enabled(steps.last()) {
            lemma_step_keeps_invariant(before, steps.last());
        }
    }
}

/// The occupancy never exceeds the capacity: after any interleaving of commits
/// of the two sides on a ring that began empty, the stored cursors are at most
/// one capacity apart, and the consumer's is not ahead.
pub proof fn lemma_occupancy_is_bounded<T>(capacity: usize, steps: Seq<Step<T>>)
    requires
        capacity >= 1,
    ensures
        ({
            let state = RingState::<T>::empty(capacity).run(steps);
            &&& state.head <= state.tail
            &&& occupancy(state.head_word(), state.tail_word()) == state.tail - state.head
            &&& occupancy(state.head_word(), state.tail_word()) <= capacity
        }),
{
    let start = RingState::<T>::empty(capacity);
    lemma_run_keeps_invariant(start, steps);
    lemma_stored_occupancy(start.run(steps));
}

/// The ring is first in, first out: after any interleaving of commits of the two
/// sides on a ring that began empty, what the consumer has read is what the
/// producer published, element by element and in the same order, up to the
/// consumer's cursor. Once the consumer has caught up it has read everything
/// that was published, with no gap and nothing twice.
pub proof fn lemma_first_in_first_out<T>(capacity: usize, steps: Seq<Step<T>>)
    requires
        capacity >= 1,
    ensures
        ({
            let state = RingState::<T>::empty(capacity).run(steps);
            &&& state.consumed.len() == state.head
            &&& state.produced.len() == state.tail
            &&& state.consumed =~= state.produced.take(state.head as int).map_values(
                |value: T| Some(value),
            )
            &&& state.head == state.tail ==> state.consumed =~= state.produced.map_values(
                |value: T| Some(value),
            )
        }),
{
    lemma_run_keeps_invariant(RingState::<T>::empty(capacity), steps);
}

} // verus!
