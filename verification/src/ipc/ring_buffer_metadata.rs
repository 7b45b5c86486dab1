//! The record that describes a ring placed in shared memory.
//!
//! The process that creates the segment sends the record once, and the process
//! that opens it reads exactly [`RECORD_SIZE`] bytes. The record is packed and
//! little-endian:
//!
//! | bytes  | field                                               |
//! |--------|-----------------------------------------------------|
//! | 0..8   | offset of the head cursor within the segment        |
//! | 8..16  | offset of the tail cursor within the segment        |
//! | 16..24 | offset of the slot array within the segment         |
//! | 24..32 | number of slots (elements, not bytes)               |
//! | 32..64 | name of the segment, padded with NUL bytes          |

use vstd::bytes::lemma_auto_spec_u64_to_from_le_bytes;
use vstd::bytes::spec_u64_from_le_bytes;
use vstd::bytes::spec_u64_to_le_bytes;
use vstd::bytes::u64_from_le_bytes;
use vstd::bytes::u64_to_le_bytes;
use vstd::prelude::*;
use vstd::slice::slice_subrange;

verus! {

/// Number of bytes of an encoded record.
pub const RECORD_SIZE: usize = 64;

/// Number of bytes that the record keeps for the name of the segment.
pub const NAME_SIZE: usize = 32;

/// Where the parts of a ring lie in its shared-memory segment, and the name by
/// which the segment is opened.
#[derive(Debug, Clone, Copy)]
pub struct RingBufferMetaData {
    pub head_offset: u64,
    pub tail_offset: u64,
    pub buffer_offset: u64,
    pub ring_buffer_len: u64,
    pub shared_memory_name: [u8; 32],
}

/// The fields of a record as plain values.
pub struct RingBufferFields {
    pub head_offset: u64,
    pub tail_offset: u64,
    pub buffer_offset: u64,
    pub ring_buffer_len: u64,
    pub shared_memory_name: Seq<u8>,
}

impl View for RingBufferMetaData {
    type V = RingBufferFields;

    open spec fn view(&self) -> RingBufferFields {
        RingBufferFields {
            head_offset: self.head_offset,
            tail_offset: self.tail_offset,
            buffer_offset: self.buffer_offset,
            ring_buffer_len: self.ring_buffer_len,
            shared_memory_name: self.shared_memory_name@,
        }
    }
}

/// The bytes that stand for `fields`.
pub open spec fn encoding(fields: RingBufferFields) -> Seq<u8> {
    spec_u64_to_le_bytes(fields.head_offset) + spec_u64_to_le_bytes(fields.tail_offset)
        + spec_u64_to_le_bytes(fields.buffer_offset) + spec_u64_to_le_bytes(fields.ring_buffer_len)
        + fields.shared_memory_name
}

/// The fields that `bytes` stand for. Only a sequence of exactly [`RECORD_SIZE`]
/// bytes is a record.
pub open spec fn decoding(bytes: Seq<u8>) -> Option<RingBufferFields> {
    if bytes.len() == RECORD_SIZE {
        Some(
            RingBufferFields {
                head_offset: spec_u64_from_le_bytes(bytes.subrange(0, 8)),
                tail_offset: spec_u64_from_le_bytes(bytes.subrange(8, 16)),
                buffer_offset: spec_u64_from_le_bytes(bytes.subrange(16, 24)),
                ring_buffer_len: spec_u64_from_le_bytes(bytes.subrange(24, 32)),
                shared_memory_name: bytes.subrange(32, 64),
            },
        )
    } else {
        None
    }
}

/// `length` is the number of bytes of the name in a padded field: the bytes
/// before the first NUL, or the whole field where it holds none.
pub open spec fn is_name_length(padded: Seq<u8>, length: int) -> bool {
    &&& 0 <= length <= padded.len()
    &&& forall|index: int| 0 <= index < length ==> padded[index] != 0
    &&& length < padded.len() ==> padded[length] == 0
}

/// `name` followed by NUL bytes up to [`NAME_SIZE`].
pub open spec fn padded_name(name: Seq<u8>) -> Seq<u8> {
    Seq::new(NAME_SIZE as nat, |index: int| if index < name.len() { name[index] } else { 0u8 })
}

/// A name that the record can carry: it fits the field and holds no NUL byte.
pub open spec fn is_name(name: Seq<u8>) -> bool {
    &&& name.len() <= NAME_SIZE
    &&& forall|index: int| 0 <= index < name.len() ==> name[index] != 0
}

/// The bytes from `offset` on, `size` of them, lie in a segment of `segment_len`
/// bytes and begin at a multiple of `align`.
pub open spec fn placed_within(offset: u64, size: int, align: u64, segment_len: u64) -> bool {
    &&& offset + size <= segment_len
    &&& align > 0 && offset as int % (align as int) == 0
}

/// Two runs of bytes have no byte in common.
pub open spec fn apart(first: u64, first_size: int, second: u64, second_size: int) -> bool {
    first + first_size <= second || second + second_size <= first
}

/// The record describes a ring that lies in a segment of `segment_len` bytes,
/// with cursors of `cursor_size` bytes and elements of `element_size` bytes: the
/// ring has a slot, the two cursors and the slot array lie in the segment, each
/// at a multiple of its size, and no two of them overlap.
pub open spec fn describes_ring(fields: RingBufferFields, segment_len: u64, cursor_size: u64, element_size: u64) -> bool {
    let slots = fields.ring_buffer_len * element_size;
    &&& fields.ring_buffer_len >= 1
    &&& placed_within(fields.head_offset, cursor_size as int, cursor_size, segment_len)
    &&& placed_within(fields.tail_offset, cursor_size as int, cursor_size, segment_len)
    &&& placed_within(fields.buffer_offset, slots, element_size, segment_len)
    &&& apart(fields.head_offset, cursor_size as int, fields.tail_offset, cursor_size as int)
    &&& apart(fields.head_offset, cursor_size as int, fields.buffer_offset, slots)
    &&& apart(fields.tail_offset, cursor_size as int, fields.buffer_offset, slots)
}

impl RingBufferMetaData {
    /// Whether the record describes a ring in a segment of `segment_len` bytes,
    /// see [`describes_ring`]. A process that opens a ring asks this before it
    /// touches the segment at the offsets of the record.
    pub fn fits(&self, segment_len: u64, cursor_size: u64, element_size: u64) -> (fits: bool)
        ensures
            fits == describes_ring(self@, segment_len, cursor_size, element_size),
    {
        if self.ring_buffer_len < 1 || cursor_size == 0 || element_size == 0 {
            return false;
        }
        let slots: u64 = match self.ring_buffer_len.checked_mul(element_size) {
            Some(slots) => slots,
            None => {
                return false;
            },
        };
        let head_end: Option<u64> = self.head_offset.checked_add(cursor_size);
        let tail_end: Option<u64> = self.tail_offset.checked_add(cursor_size);
        let buffer_end: Option<u64> = self.buffer_offset.checked_add(slots);
        match (head_end, tail_end, buffer_end) {
            (Some(head_end), Some(tail_end), Some(buffer_end)) => {
                head_end <= segment_len && tail_end <= segment_len && buffer_end <= segment_len
                    && self.head_offset % cursor_size == 0 && self.tail_offset % cursor_size == 0
                    && self.buffer_offset % element_size == 0 && (head_end <= self.tail_offset || tail_end
                    <= self.head_offset) && (head_end <= self.buffer_offset || buffer_end <= self.head_offset)
                    && (tail_end <= self.buffer_offset || buffer_end <= self.tail_offset)
            },
            _ => false,
        }
    }

    /// A record with the given offsets, slot count and segment name, or nothing
    /// where the name does not fit the field or holds a NUL byte.
    pub fn new(head_offset: u64, tail_offset: u64, buffer_offset: u64, ring_buffer_len: u64, name: &[u8]) -> (record:
        Option<Self>)
        ensures
            record.is_some() <==> is_name(name@),
            record matches Some(made) ==> made@ == (RingBufferFields {
                head_offset,
                tail_offset,
                buffer_offset,
                ring_buffer_len,
                shared_memory_name: padded_name(name@),
            }),
    {
        if name.len() > NAME_SIZE {
            return None;
        }
        let mut shared_memory_name: [u8; 32] = [0u8; 32];
        let mut index: usize = 0;
        while index < name.len()
            invariant
                index <= name@.len() <= NAME_SIZE,
                forall|before: int| 0 <= before < index ==> name@[before] != 0,
                forall|at: int|
                    0 <= at < 32 ==> shared_memory_name@[at] == if at < index {
                        name@[at]
                    } else {
                        0u8
                    },
            decreases name@.len() - index,
        {
            if name[index] == 0 {
                return None;
            }
            shared_memory_name[index] = name[index];
            index += 1;
        }
        assert(shared_memory_name@ =~= padded_name(name@));
        Some(Self { head_offset, tail_offset, buffer_offset, ring_buffer_len, shared_memory_name })
    }

    /// The name of the segment: the bytes of the field before its padding.
    pub fn name(&self) -> (name: Vec<u8>)
        ensures
            is_name_length(self@.shared_memory_name, name@.len() as int),
            name@ == self@.shared_memory_name.take(name@.len() as int),
    {
        let mut name: Vec<u8> = Vec::new();
        let mut index: usize = 0;
        while index < NAME_SIZE && self.shared_memory_name[index] != 0
            invariant
                index <= NAME_SIZE,
                name@.len() == index,
                name@ == self.shared_memory_name@.take(index as int),
                forall|before: int| 0 <= before < index ==> self.shared_memory_name@[before] != 0,
            decreases NAME_SIZE - index,
        {
            name.push(self.shared_memory_name[index]);
            index += 1;
        }
        name
    }

    /// Appends the encoded record to `writer`.
    pub fn write_to(&self, writer: &mut Vec<u8>)
        ensures
            final(writer)@ == old(writer)@ + encoding(self@),
            encoding(self@).len() == RECORD_SIZE,
    {
        let ghost before = writer@;
        let mut head_offset = u64_to_le_bytes(self.head_offset);
        let mut tail_offset = u64_to_le_bytes(self.tail_offset);
        let mut buffer_offset = u64_to_le_bytes(self.buffer_offset);
        let mut ring_buffer_len = u64_to_le_bytes(self.ring_buffer_len);
        writer.append(&mut head_offset);
        writer.append(&mut tail_offset);
        writer.append(&mut buffer_offset);
        writer.append(&mut ring_buffer_len);
        let mut index: usize = 0;
        while index < NAME_SIZE
            invariant
                index <= NAME_SIZE,
                writer@ == before + spec_u64_to_le_bytes(self.head_offset) + spec_u64_to_le_bytes(
                    self.tail_offset,
                ) + spec_u64_to_le_bytes(self.buffer_offset) + spec_u64_to_le_bytes(self.ring_buffer_len)
                    + self.shared_memory_name@.take(index as int),
            decreases NAME_SIZE - index,
        {
            writer.push(self.shared_memory_name[index]);
            index += 1;
        }
    }

    /// Decodes a record from `reader`, which has to hold exactly [`RECORD_SIZE`]
    /// bytes; nothing is returned for any other length.
    pub fn read_from(reader: &[u8]) -> (record: Option<Self>)
        ensures
            record.is_some() <==> reader@.len() == RECORD_SIZE,
            match record {
                Some(read) => decoding(reader@) == Some(read@),
                None => decoding(reader@).is_none(),
            },
    {
        if reader.len() != RECORD_SIZE {
            return None;
        }
        let head_offset = u64_from_le_bytes(slice_subrange(reader, 0, 8));
        let tail_offset = u64_from_le_bytes(slice_subrange(reader, 8, 16));
        let buffer_offset = u64_from_le_bytes(slice_subrange(reader, 16, 24));
        let ring_buffer_len = u64_from_le_bytes(slice_subrange(reader, 24, 32));
        let mut shared_memory_name: [u8; 32] = [0u8; 32];
        let mut index: usize = 0;
        while index < NAME_SIZE
            invariant
                index <= NAME_SIZE,
                reader@.len() == RECORD_SIZE,
                forall|before: int| 0 <= before < index ==> shared_memory_name@[before] == reader@[32 + before],
            decreases NAME_SIZE - index,
        {
            shared_memory_name[index] = reader[32 + index];
            index += 1;
        }
        assert(shared_memory_name@ =~= reader@.subrange(32, 64));
        Some(Self { head_offset, tail_offset, buffer_offset, ring_buffer_len, shared_memory_name })
    }
}

/// Encoding a record and decoding the bytes gives the record back, field by
/// field.
pub proof fn lemma_round_trip(fields: RingBufferFields)
    requires
        fields.shared_memory_name.len() == NAME_SIZE,
    ensures
        encoding(fields).len() == RECORD_SIZE,
        decoding(encoding(fields)) == Some(fields),
{
    lemma_auto_spec_u64_to_from_le_bytes();
    let bytes = encoding(fields);
    assert(bytes.subrange(0, 8) =~= spec_u64_to_le_bytes(fields.head_offset));
    assert(bytes.subrange(8, 16) =~= spec_u64_to_le_bytes(fields.tail_offset));
    assert(bytes.subrange(16, 24) =~= spec_u64_to_le_bytes(fields.buffer_offset));
    assert(bytes.subrange(24, 32) =~= spec_u64_to_le_bytes(fields.ring_buffer_len));
    assert(bytes.subrange(32, 64) =~= fields.shared_memory_name);
}

/// The name of a record made of a name is that name: the padding is not part of
/// it.
pub proof fn lemma_name_of_padded(name: Seq<u8>)
    requires
        is_name(name),
    ensures
        is_name_length(padded_name(name), name.len() as int),
        padded_name(name).take(name.len() as int) == name,
        forall|length: int| is_name_length(padded_name(name), length) ==> length == name.len(),
{
    assert forall|length: int| is_name_length(padded_name(name), length) implies length == name.len() by {
        if length < name.len() {
        } else if length > name.len() {
            assert(padded_name(name)[name.len() as int] == 0);
        }
    }
}

} // verus!
