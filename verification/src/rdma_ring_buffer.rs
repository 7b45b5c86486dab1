//! A ring with a single owner, which writes to it and reads from it in turn.
//!
//! The ring keeps to the cursor protocol of [`crate::protocol`]: a write is a
//! commit of the producer, a read a commit of the consumer. With one owner the
//! cursors are plain words and the slots plain memory, so what the ring holds
//! is known at every moment: the elements written and not yet read, oldest
//! first.
//!
//! Such a ring can be mirrored on another machine: the writer keeps one ring and
//! the reader another, and [`Message`]s keep the two in step. Sending and
//! receiving them is the owner's part; what they do to the ring is decided
//! here.

use crate::communication_manager::CommunicationManager;
use crate::cursor::copyable;
use crate::cursor::copyable_of;
use crate::cursor::free_slots;
use crate::cursor::free_slots_of;
use crate::cursor::occupancy;
use crate::protocol::lemma_consume_keeps_invariant;
use crate::protocol::lemma_push_keeps_invariant;
use crate::protocol::lemma_slot_of_word;
use crate::protocol::lemma_word_difference;
use crate::protocol::word;
use crate::protocol::word_range;
use crate::protocol::wraps_evenly;
use crate::protocol::RingState;
use vstd::prelude::*;

verus! {

/// What the two sides of a ring tell each other where the ring is mirrored on
/// two machines.
#[derive(Debug, Clone, Copy)]
pub enum Message<T> {
    /// The reader has read this many elements.
    Read(usize),
    /// The writer has written this element.
    Write { data: T },
}

/// Why the messages of a peer cannot be taken.
#[derive(Debug, Clone, Copy, PartialEq, Eq, Structural)]
pub enum ExchangeError {
    /// A message is of the kind that this side sends, not of the kind it
    /// receives: there is a second writer, or a second reader.
    Unexpected,
    /// The peer tells of more elements than the ring holds, or has room for.
    Overrun,
}

/// Why an exchange with the peer came to nothing.
pub enum Failure<E> {
    /// The carrier could not receive or send.
    Manager(E),
    /// The messages of the peer cannot be taken.
    Exchange(ExchangeError),
}

/// Number of elements that the messages of a reader tell of.
pub open spec fn total_read<T>(messages: Seq<Message<T>>) -> int
    decreases messages.len(),
{
    if messages.len() == 0 {
        0
    } else {
        total_read(messages.drop_last()) + match messages.last() {
            Message::Read(count) => count as int,
            Message::Write { data } => 0,
        }
    }
}

/// The elements that the messages of a writer carry, in their order.
pub open spec fn payload<T>(messages: Seq<Message<T>>) -> Seq<T>
    decreases messages.len(),
{
    if messages.len() == 0 {
        Seq::empty()
    } else {
        match messages.last() {
            Message::Read(count) => payload(messages.drop_last()),
            Message::Write { data } => payload(messages.drop_last()).push(data),
        }
    }
}

/// How far the messages of a reader move the head of a ring that holds `held`
/// elements: by the number of elements they tell of.
pub open spec fn acknowledgement<T>(messages: Seq<Message<T>>, held: int) -> Result<int, ExchangeError> {
    if exists|index: int| 0 <= index < messages.len() && #[trigger] messages[index] is Write {
        Err(ExchangeError::Unexpected)
    } else if total_read(messages) > held {
        Err(ExchangeError::Overrun)
    } else {
        Ok(total_read(messages))
    }
}

/// The elements that the messages of a writer add to a ring with room for
/// `room` elements.
pub open spec fn delivery<T>(messages: Seq<Message<T>>, room: int) -> Result<Seq<T>, ExchangeError> {
    if exists|index: int| 0 <= index < messages.len() && #[trigger] messages[index] is Read {
        Err(ExchangeError::Unexpected)
    } else if messages.len() > room {
        Err(ExchangeError::Overrun)
    } else {
        Ok(payload(messages))
    }
}

/// The messages that tell a reader of `data`: one for each element, in their
/// order.
pub open spec fn announced<T>(data: Seq<T>) -> Seq<Message<T>> {
    Seq::new(data.len(), |index: int| Message::Write { data: data[index] })
}

/// Computes [`acknowledgement`].
pub fn acknowledged<T: Copy>(messages: &[Message<T>], held: usize) -> (moved: Result<usize, ExchangeError>)
    ensures
        match acknowledgement(messages@, held as int) {
            Ok(count) => moved == Ok::<usize, ExchangeError>(count as usize) && 0 <= count <= held,
            Err(error) => moved == Err::<usize, ExchangeError>(error),
        },
{
    let mut index: usize = 0;
    while index < messages.len()
        invariant
            index <= messages@.len(),
            forall|before: int| 0 <= before < index ==> !(#[trigger] messages@[before] is Write),
        decreases messages@.len() - index,
    {
        match messages[index] {
            Message::Write { data } => {
                return Err(ExchangeError::Unexpected);
            },
            Message::Read(count) => {},
        }
        index += 1;
    }
    let mut total: usize = 0;
    index = 0;
    while index < messages.len()
        invariant
            index <= messages@.len(),
            forall|any: int| 0 <= any < messages@.len() ==> !(#[trigger] messages@[any] is Write),
            total == total_read(messages@.take(index as int)),
            total <= held,
        decreases messages@.len() - index,
    {
        proof {
            assert(messages@.take(index + 1).drop_last() =~= messages@.take(index as int));
            lemma_total_read_grows(messages@, index + 1);
        }
        match messages[index] {
            Message::Read(count) => {
                if count > held - total {
                    return Err(ExchangeError::Overrun);
                }
                total += count;
            },
            Message::Write { data } => {},
        }
        index += 1;
    }
    assert(messages@.take(messages@.len() as int) =~= messages@);
    Ok(total)
}

/// What a longer run of a reader's messages tells of is at least what a shorter
/// run of them tells of.
pub proof fn lemma_total_read_grows<T>(messages: Seq<Message<T>>, shorter: int)
    requires
        0 <= shorter <= messages.len(),
    ensures
        0 <= total_read(messages.take(shorter)) <= total_read(messages),
    decreases messages.len() - shorter,
{
    if shorter == messages.len() {
        assert(messages.take(shorter) =~= messages);
        lemma_total_read_is_natural(messages);
    } else {
        assert(messages.take(shorter + 1).drop_last() =~= messages.take(shorter));
        lemma_total_read_is_natural(messages.take(shorter));
        lemma_total_read_grows(messages, shorter + 1);
    }
}

/// The messages of a reader tell of no negative number of elements.
pub proof fn lemma_total_read_is_natural<T>(messages: Seq<Message<T>>)
    ensures
        0 <= total_read(messages),
    decreases messages.len(),
{
    if messages.len() > 0 {
        lemma_total_read_is_natural(messages.drop_last());
    }
}

/// Computes [`delivery`].
pub fn delivered<T: Copy>(messages: &[Message<T>], room: usize) -> (elements: Result<Vec<T>, ExchangeError>)
    ensures
        match delivery(messages@, room as int) {
            Ok(data) => elements matches Ok(carried) && carried@ == data && data.len() == messages@.len(),
            Err(error) => elements matches Err(refused) && refused == error,
        },
{
    let mut elements: Vec<T> = Vec::new();
    let mut index: usize = 0;
    while index < messages.len()
        invariant
            index <= messages@.len(),
            forall|before: int| 0 <= before < index ==> !(#[trigger] messages@[before] is Read),
            elements@ == payload(messages@.take(index as int)),
            elements@.len() == index,
        decreases messages@.len() - index,
    {
        proof {
            assert(messages@.take(index + 1).drop_last() =~= messages@.take(index as int));
        }
        match messages[index] {
            Message::Read(count) => {
                return Err(ExchangeError::Unexpected);
            },
            Message::Write { data } => {
                elements.push(data);
            },
        }
        index += 1;
    }
    assert(messages@.take(messages@.len() as int) =~= messages@);
    if messages.len() > room {
        return Err(ExchangeError::Overrun);
    }
    Ok(elements)
}

/// The messages that tell a reader of the first `count` elements of `buffer`,
/// see [`announced`].
pub fn announce<T: Copy>(buffer: &[T], count: usize) -> (messages: Vec<Message<T>>)
    requires
        count <= buffer@.len(),
    ensures
        messages@ == announced(buffer@.take(count as int)),
{
    let mut messages: Vec<Message<T>> = Vec::new();
    let mut index: usize = 0;
    while index < count
        invariant
            index <= count <= buffer@.len(),
            messages@.len() == index,
            forall|before: int|
                0 <= before < index ==> #[trigger] messages@[before] == (Message::Write { data: buffer@[before] }),
        decreases count - index,
    {
        messages.push(Message::Write { data: buffer[index] });
        index += 1;
    }
    assert(messages@ =~= announced(buffer@.take(count as int)));
    messages
}

/// A ring of `N` slots that one owner writes and reads.
pub struct RingBuffer<T, const N: usize> {
    head: usize,
    tail: usize,
    buffer: Vec<Option<T>>,
    history: Ghost<RingState<T>>,
}

/// Number of elements that a read of at most `count` elements takes: all that
/// are there where `count` is zero, and at most `count` of them otherwise.
pub open spec fn taken(available: int, count: usize) -> int {
    if count > 0 && available > count {
        count as int
    } else {
        available
    }
}

/// Moving a cursor by less than the range of the word moves the count it stands
/// for by as much.
pub proof fn lemma_word_advances(count: nat, by: usize)
    ensures
        word((count + by) as nat) == word(count).wrapping_add(by),
{
    lemma_word_difference(count, (count + by) as nat);
}

impl<T: Copy, const N: usize> View for RingBuffer<T, N> {
    type V = Seq<T>;

    /// The elements in the ring, oldest first.
    closed spec fn view(&self) -> Seq<T> {
        self.history@.produced.subrange(self.history@.head as int, self.history@.tail as int)
    }
}

impl<T: Copy, const N: usize> RingBuffer<T, N> {
    /// The ring is in a state that the protocol reaches.
    pub closed spec fn wf(&self) -> bool {
        &&& N >= 1
        &&& self.buffer@ == self.history@.slots
        &&& self.history@.capacity == N
        &&& self.history@.inv()
        &&& self.head == word(self.history@.head)
        &&& self.tail == word(self.history@.tail)
        &&& wraps_evenly(N) || self.history@.tail < word_range()
    }

    /// The consumer's cursor.
    pub closed spec fn head_cursor(&self) -> usize {
        self.head
    }

    /// The producer's cursor.
    pub closed spec fn tail_cursor(&self) -> usize {
        self.tail
    }

    /// Everything that was ever written to the ring, in the order of writing.
    pub closed spec fn written(&self) -> Seq<T> {
        self.history@.produced
    }

    /// Number of elements that were read from the ring so far.
    pub closed spec fn released(&self) -> nat {
        self.history@.head
    }

    /// What the ring holds is what was written and not yet read, and never more
    /// than the capacity; the cursors are as far apart as the ring holds
    /// elements.
    pub proof fn lemma_view(&self)
        requires
            self.wf(),
        ensures
            self@ == self.written().skip(self.released() as int),
            self@.len() <= N,
            self@.len() == occupancy(self.head_cursor(), self.tail_cursor()),
            self.released() + self@.len() == self.written().len(),
    {
        lemma_word_difference(self.history@.head, self.history@.tail);
    }

    /// An empty ring of `N` slots.
    pub fn new() -> (ring: Self)
        requires
            N >= 1,
        ensures
            ring.wf(),
            ring@ == Seq::<T>::empty(),
            ring.written() == Seq::<T>::empty(),
            ring.released() == 0,
            ring.head_cursor() == 0,
            ring.tail_cursor() == 0,
    {
        let mut buffer: Vec<Option<T>> = Vec::new();
        let mut index: usize = 0;
        while index < N
            invariant
                index <= N,
                buffer@.len() == index,
                forall|slot: int| 0 <= slot < index ==> buffer@[slot] == None::<T>,
            decreases N - index,
        {
            buffer.push(None);
            index += 1;
        }
        let ring = Self { head: 0, tail: 0, buffer, history: Ghost(RingState::empty(N)) };
        proof {
            assert(ring.buffer@ =~= ring.history@.slots);
        }
        ring
    }

    /// An empty ring of `N` slots on memory of its own.
    pub fn new_alloc() -> (ring: Self)
        requires
            N >= 1,
        ensures
            ring.wf(),
            ring@ == Seq::<T>::empty(),
            ring.written() == Seq::<T>::empty(),
            ring.released() == 0,
            ring.head_cursor() == 0,
            ring.tail_cursor() == 0,
    {
        Self::new()
    }

    /// Number of elements that can be read.
    pub fn avaliable_read(&self) -> (available: usize)
        requires
            self.wf(),
        ensures
            available == self@.len(),
            available == occupancy(self.head_cursor(), self.tail_cursor()),
            available <= N,
    {
        proof {
            self.lemma_view();
        }
        self.tail.wrapping_sub(self.head)
    }

    /// Number of slots that can be written.
    pub fn avaliable_write(&self) -> (available: usize)
        requires
            self.wf(),
        ensures
            available == N - self@.len(),
            available == free_slots(self.head_cursor(), self.tail_cursor(), N),
    {
        proof {
            self.lemma_view();
        }
        free_slots_of(self.head, self.tail, N)
    }

    /// The ring can take `more` elements and still name the right slot with
    /// every cursor. A ring whose capacity divides the range of the cursor word
    /// always can; any other ring can until its tail wraps, and is of no use
    /// beyond.
    pub open spec fn lasts(&self, more: usize) -> bool {
        wraps_evenly(N) || self.written().len() + more <= usize::MAX
    }

    /// Copies the first elements of `buffer` into the ring, as many of
    /// `write_size` as are free, and returns their number. They follow what the
    /// ring holds already.
    pub fn write(&mut self, buffer: &[T], write_size: usize) -> (count: usize)
        requires
            old(self).wf(),
            write_size <= buffer@.len(),
        ensures
            count == copyable(old(self).head_cursor(), old(self).tail_cursor(), N, write_size),
            count == if write_size <= N - old(self)@.len() {
                write_size as int
            } else {
                N - old(self)@.len()
            },
            final(self).head_cursor() == old(self).head_cursor(),
            final(self).tail_cursor() == old(self).tail_cursor().wrapping_add(count),
            old(self).lasts(count) ==> {
                &&& final(self).wf()
                &&& final(self)@ == old(self)@ + buffer@.take(count as int)
                &&& final(self).written() == old(self).written() + buffer@.take(count as int)
                &&& final(self).released() == old(self).released()
            },
    {
        proof {
            old(self).lemma_view();
        }
        let count: usize = copyable_of(self.head, self.tail, N, write_size);
        let ghost before = self.history@;
        let ghost safe = wraps_evenly(N) || before.tail + count < word_range();
        let mut index: usize = 0;
        while index < count
            invariant
                N >= 1,
                index <= count <= N,
                count <= buffer@.len(),
                self.head == old(self).head,
                self.tail == old(self).tail,
                self.buffer@.len() == N,
                before == old(self).history@,
                before.tail + count <= before.head + N,
                safe == (wraps_evenly(N) || before.tail + count < word_range()),
                safe ==> {
                    &&& self.tail == word(before.tail)
                    &&& self.buffer@ == self.history@.slots
                    &&& self.history@.inv()
                    &&& self.history@.capacity == N
                    &&& self.history@.head == before.head
                    &&& self.history@.tail == before.tail + index
                    &&& self.history@.consumed == before.consumed
                    &&& self.history@.produced == before.produced + buffer@.take(index as int)
                },
            decreases count - index,
        {
            let slot: usize = self.tail.wrapping_add(index) % N;
            let value: T = buffer[index];
            proof {
                if safe {
                    lemma_word_advances(before.tail, index);
                    lemma_slot_of_word(self.history@.tail, N);
                    lemma_push_keeps_invariant(self.history@, value);
                }
            }
            self.buffer.set(slot, Some(value));
            proof {
                if safe {
                    self.history@ = self.history@.push(value);
                }
            }
            index += 1;
        }
        proof {
            lemma_word_advances(before.tail, count);
        }
        self.tail = self.tail.wrapping_add(count);
        count
    }

    /// Releases the `count` oldest elements without reading them.
    fn release(&mut self, count: usize)
        requires
            old(self).wf(),
            count <= old(self)@.len(),
        ensures
            final(self).wf(),
            final(self)@ == old(self)@.skip(count as int),
            final(self).written() == old(self).written(),
            final(self).released() == old(self).released() + count,
            final(self).head_cursor() == old(self).head_cursor().wrapping_add(count),
            final(self).tail_cursor() == old(self).tail_cursor(),
    {
        proof {
            old(self).lemma_view();
            lemma_consume_keeps_invariant(self.history@, count as nat);
            lemma_word_advances(self.history@.head, count);
            self.history@ = self.history@.consume(count as nat);
        }
        self.head = self.head.wrapping_add(count);
    }

    /// The writing side of a ring that is mirrored on another machine: first
    /// the elements of `buffer` are written, as [`RingBuffer::write`] does, then
    /// the peer's messages are taken note of, each of which says how many
    /// elements the peer has read; as many are released. Returns the number of
    /// elements written and the messages that tell the peer of them, one for
    /// each element and in their order.
    ///
    /// A message that carries an element has no place on this side, and the
    /// peer cannot have read more than the ring held: either leaves the ring as
    /// it was.
    pub fn write_with(&mut self, received: &[Message<T>], buffer: &[T], write_size: usize) -> (result: Result<
        (usize, Vec<Message<T>>),
        ExchangeError,
    >)
        requires
            old(self).wf(),
            write_size <= buffer@.len(),
            old(self).lasts(copyable(old(self).head_cursor(), old(self).tail_cursor(), N, write_size)),
        ensures
            final(self).wf(),
            ({
                let count = copyable(old(self).head_cursor(), old(self).tail_cursor(), N, write_size);
                match acknowledgement(received@, old(self)@.len() + count) {
                    Ok(read) => {
                        &&& result matches Ok(sent)
                        &&& sent.0 == count
                        &&& sent.1@ == announced(buffer@.take(count as int))
                        &&& final(self)@ == (old(self)@ + buffer@.take(count as int)).skip(read)
                        &&& final(self).written() == old(self).written() + buffer@.take(count as int)
                        &&& final(self).released() == old(self).released() + read
                    },
                    Err(error) => {
                        &&& result == Err::<(usize, Vec<Message<T>>), ExchangeError>(error)
                        &&& final(self)@ == old(self)@
                        &&& final(self).written() == old(self).written()
                        &&& final(self).released() == old(self).released()
                        &&& final(self).head_cursor() == old(self).head_cursor()
                        &&& final(self).tail_cursor() == old(self).tail_cursor()
                    },
                }
            }),
    {
        proof {
            old(self).lemma_view();
        }
        let count: usize = copyable_of(self.head, self.tail, N, write_size);
        let held: usize = self.avaliable_read();
        let read: usize = match acknowledged(received, held + count) {
            Ok(read) => read,
            Err(error) => {
                return Err(error);
            },
        };
        let written: usize = self.write(buffer, write_size);
        self.release(read);
        Ok((written, announce(buffer, written)))
    }

    /// Writes to a ring that is mirrored on another machine: receives the
    /// peer's messages, writes and releases as [`RingBuffer::write_with`] does,
    /// and sends the messages that tell the peer of what was written, in one
    /// call. Returns the number of elements written.
    ///
    /// What arrives is the peer's to decide and whether the calls succeed is the
    /// carrier's, so the contract says what holds of every outcome. Where the
    /// messages received cannot be taken, or none were received, the ring is as
    /// it was. Where sending fails the ring has been written to all the same.
    pub fn write_through<CM: CommunicationManager>(&mut self, manager: &mut CM, buffer: &[T], write_size: usize) -> (result:
        Result<usize, Failure<CM::Error>>)
        requires
            old(self).wf(),
            write_size <= buffer@.len(),
            old(self).lasts(copyable(old(self).head_cursor(), old(self).tail_cursor(), N, write_size)),
        ensures
            final(self).wf(),
            ({
                let count = copyable(old(self).head_cursor(), old(self).tail_cursor(), N, write_size);
                let written = exists|received: Seq<Message<T>>|
                    #[trigger] acknowledgement(received, old(self)@.len() + count) matches Ok(read) && final(self)@
                        == (old(self)@ + buffer@.take(count as int)).skip(read) && final(self).written() == old(
                        self,
                    ).written() + buffer@.take(count as int);
                let untouched = final(self)@ == old(self)@ && final(self).written() == old(self).written()
                    && final(self).released() == old(self).released();
                match result {
                    Ok(told) => told == count && written,
                    Err(Failure::Exchange(error)) => untouched,
                    Err(Failure::Manager(error)) => untouched || written,
                }
            }),
    {
        let received: Vec<Message<T>> = match manager.recv_message() {
            Ok(received) => received,
            Err(error) => {
                return Err(Failure::Manager(error));
            },
        };
        let (count, told) = match self.write_with(received.as_slice(), buffer, write_size) {
            Ok(sent) => sent,
            Err(error) => {
                return Err(Failure::Exchange(error));
            },
        };
        match manager.send_message(told.as_slice()) {
            Ok(()) => Ok(count),
            Err(error) => Err(Failure::Manager(error)),
        }
    }

    /// Reads from a ring that is mirrored on another machine: receives the
    /// peer's messages, reads and writes as [`RingBuffer::read_with`] does, and
    /// sends the message that tells the peer of what was read, where anything
    /// was. Returns the number of elements read.
    ///
    /// What arrives is the peer's to decide and whether the calls succeed is the
    /// carrier's, so the contract says what holds of every outcome. Where the
    /// messages received cannot be taken, or none were received, the ring and
    /// `buffer` are as they were. Where sending fails the elements have been
    /// read all the same.
    pub fn read_through<CM: CommunicationManager>(&mut self, manager: &mut CM, buffer: &mut Vec<T>, count: usize) -> (result:
        Result<usize, Failure<CM::Error>>)
        requires
            old(self).wf(),
            old(self).lasts(N),
        ensures
            final(self).wf(),
            ({
                let due = taken(old(self)@.len() as int, count);
                let read = exists|received: Seq<Message<T>>|
                    #[trigger] delivery(received, N - old(self)@.len() + due) matches Ok(elements) && final(self)@
                        == old(self)@.skip(due) + elements && final(buffer)@ == old(buffer)@ + old(self)@.take(due);
                let untouched = final(self)@ == old(self)@ && final(self).written() == old(self).written()
                    && final(self).released() == old(self).released() && final(buffer)@ == old(buffer)@;
                match result {
                    Ok(told) => told == due && read,
                    Err(Failure::Exchange(error)) => untouched,
                    Err(Failure::Manager(error)) => untouched || read,
                }
            }),
    {
        let received: Vec<Message<T>> = match manager.recv_message() {
            Ok(received) => received,
            Err(error) => {
                return Err(Failure::Manager(error));
            },
        };
        let (read, notice) = match self.read_with(received.as_slice(), buffer, count) {
            Ok(sent) => sent,
            Err(error) => {
                return Err(Failure::Exchange(error));
            },
        };
        match notice {
            Some(message) => {
                let told: [Message<T>; 1] = [message];
                match manager.send_message(told.as_slice()) {
                    Ok(()) => Ok(read),
                    Err(error) => Err(Failure::Manager(error)),
                }
            },
            None => Ok(read),
        }
    }

    /// The reading side of a ring that is mirrored on another machine: first
    /// the oldest elements are moved out, as [`RingBuffer::read`] does, then the
    /// elements that the peer's messages carry are written behind what is left.
    /// Returns the number of elements read and, where any was read, the message
    /// that tells the peer of it.
    ///
    /// A message that tells of elements read has no place on this side, and the
    /// peer cannot have written more than the ring had room for: either leaves
    /// the ring and `buffer` as they were.
    pub fn read_with(&mut self, received: &[Message<T>], buffer: &mut Vec<T>, count: usize) -> (result: Result<
        (usize, Option<Message<T>>),
        ExchangeError,
    >)
        requires
            old(self).wf(),
            old(self).lasts(N),
        ensures
            final(self).wf(),
            ({
                let read = taken(old(self)@.len() as int, count);
                match delivery(received@, N - old(self)@.len() + read) {
                    Ok(elements) => {
                        &&& result matches Ok(sent)
                        &&& sent.0 == read
                        &&& sent.1 == if read == 0 {
                            None
                        } else {
                            Some(Message::<T>::Read(read as usize))
                        }
                        &&& final(buffer)@ == old(buffer)@ + old(self)@.take(read)
                        &&& final(self)@ == old(self)@.skip(read) + elements
                        &&& final(self).written() == old(self).written() + elements
                        &&& final(self).released() == old(self).released() + read
                    },
                    Err(error) => {
                        &&& result == Err::<(usize, Option<Message<T>>), ExchangeError>(error)
                        &&& final(buffer)@ == old(buffer)@
                        &&& final(self)@ == old(self)@
                        &&& final(self).written() == old(self).written()
                        &&& final(self).released() == old(self).released()
                        &&& final(self).head_cursor() == old(self).head_cursor()
                        &&& final(self).tail_cursor() == old(self).tail_cursor()
                    },
                }
            }),
    {
        proof {
            old(self).lemma_view();
        }
        let held: usize = self.avaliable_read();
        let due: usize = if count > 0 && held > count {
            count
        } else {
            held
        };
        let elements: Vec<T> = match delivered(received, N - held + due) {
            Ok(elements) => elements,
            Err(error) => {
                return Err(error);
            },
        };
        let read: usize = self.read(buffer, count);
        proof {
            self.lemma_view();
        }
        let written: usize = self.write(elements.as_slice(), elements.len());
        assert(elements@.take(written as int) =~= elements@);
        let notice = if read == 0 {
            None
        } else {
            Some(Message::Read(read))
        };
        Ok((read, notice))
    }

    /// Moves the oldest elements out of the ring and appends them to `buffer`:
    /// all of them where `count` is zero, and at most `count` otherwise. Returns
    /// their number.
    pub fn read(&mut self, buffer: &mut Vec<T>, count: usize) -> (read: usize)
        requires
            old(self).wf(),
        ensures
            final(self).wf(),
            read == taken(old(self)@.len() as int, count),
            final(buffer)@ == old(buffer)@ + old(self)@.take(read as int),
            final(self)@ == old(self)@.skip(read as int),
            final(self).written() == old(self).written(),
            final(self).released() == old(self).released() + read,
            final(self).head_cursor() == old(self).head_cursor().wrapping_add(read),
            final(self).tail_cursor() == old(self).tail_cursor(),
    {
        proof {
            old(self).lemma_view();
        }
        let available: usize = self.tail.wrapping_sub(self.head);
        let read: usize = if count > 0 && available > count {
            count
        } else {
            available
        };
        let ghost state = self.history@;
        let ghost taken_before = buffer@;
        proof {
            lemma_consume_keeps_invariant(state, read as nat);
        }
        let mut index: usize = 0;
        while index < read
            invariant
                N >= 1,
                index <= read,
                state == self.history@,
                state == old(self).history@,
                state.inv(),
                state.capacity == N,
                state.head + read <= state.tail,
                wraps_evenly(N) || state.tail < word_range(),
                self.head == word(state.head),
                self.head == old(self).head,
                self.tail == old(self).tail,
                self.buffer@ == state.slots,
                buffer@ == taken_before + state.produced.subrange(state.head as int, state.head + index),
            decreases read - index,
        {
            let slot: usize = self.head.wrapping_add(index) % N;
            proof {
                lemma_word_advances(state.head, index);
                lemma_slot_of_word((state.head + index) as nat, N);
                assert(state.slot_at((state.head + index) as nat) == Some(state.produced[state.head + index]));
            }
            match self.buffer[slot] {
                Some(value) => {
                    buffer.push(value);
                },
                None => {},
            }
            index += 1;
        }
        proof {
            lemma_word_advances(state.head, read);
            self.history@ = state.consume(read as nat);
        }
        self.head = self.head.wrapping_add(read);
        read
    }
}

} // verus!
