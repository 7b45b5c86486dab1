//! The identifier record that the two adapters exchange before they connect
//! their queue pairs.
//!
//! The record is packed and little-endian:
//!
//! | bytes  | field                                   |
//! |--------|-----------------------------------------|
//! | 0..2   | local identifier of the port (`lid`)    |
//! | 2..6   | number of the queue pair (`qpn`)        |
//! | 6..10  | first packet sequence number (`psn`)    |
//! | 10..26 | global identifier of the port (`gid`)   |

use vstd::bytes::lemma_auto_spec_u16_to_from_le_bytes;
use vstd::bytes::lemma_auto_spec_u32_to_from_le_bytes;
use vstd::bytes::spec_u16_from_le_bytes;
use vstd::bytes::spec_u16_to_le_bytes;
use vstd::bytes::spec_u32_from_le_bytes;
use vstd::bytes::spec_u32_to_le_bytes;
use vstd::bytes::u16_from_le_bytes;
use vstd::bytes::u16_to_le_bytes;
use vstd::bytes::u32_from_le_bytes;
use vstd::bytes::u32_to_le_bytes;
use vstd::prelude::*;
use vstd::slice::slice_subrange;

verus! {

/// Number of bytes of an encoded identifier record.
pub const INFO_SIZE: usize = 26;

/// Number of bytes of a global identifier.
pub const GID_SIZE: usize = 16;

/// What one adapter has to know of the queue pair of the other.
#[derive(Debug, Clone, Copy)]
pub struct DestQpInfo {
    pub lid: u16,
    pub qpn: u32,
    pub psn: u32,
    pub gid: [u8; 16],
}

/// The fields of an identifier record as plain values.
pub struct QpInfoFields {
    pub lid: u16,
    pub qpn: u32,
    pub psn: u32,
    pub gid: Seq<u8>,
}

impl View for DestQpInfo {
    type V = QpInfoFields;

    open spec fn view(&self) -> QpInfoFields {
        QpInfoFields { lid: self.lid, qpn: self.qpn, psn: self.psn, gid: self.gid@ }
    }
}

/// The bytes that stand for `fields`.
pub open spec fn encoding(fields: QpInfoFields) -> Seq<u8> {
    spec_u16_to_le_bytes(fields.lid) + spec_u32_to_le_bytes(fields.qpn) + spec_u32_to_le_bytes(fields.psn)
        + fields.gid
}

/// The fields that `bytes` stand for. Only a sequence of exactly [`INFO_SIZE`]
/// bytes is a record: a shorter or longer one is not what a peer sends.
pub open spec fn decoding(bytes: Seq<u8>) -> Option<QpInfoFields> {
    if bytes.len() == INFO_SIZE {
        Some(
            QpInfoFields {
                lid: spec_u16_from_le_bytes(bytes.subrange(0, 2)),
                qpn: spec_u32_from_le_bytes(bytes.subrange(2, 6)),
                psn: spec_u32_from_le_bytes(bytes.subrange(6, 10)),
                gid: bytes.subrange(10, 26),
            },
        )
    } else {
        None
    }
}

/// Every byte of the global identifier is zero: the port has none, and packets
/// to it carry no global routing header.
pub open spec fn gid_is_zero(gid: Seq<u8>) -> bool {
    forall|index: int| 0 <= index < gid.len() ==> gid[index] == 0
}

impl DestQpInfo {
    /// Whether packets to this queue pair carry a global routing header: they do
    /// unless the global identifier is all zeros.
    pub fn is_global(&self) -> (global: bool)
        ensures
            global == !gid_is_zero(self@.gid),
    {
        let mut index: usize = 0;
        while index < GID_SIZE
            invariant
                index <= GID_SIZE,
                forall|before: int| 0 <= before < index ==> self.gid@[before] == 0,
            decreases GID_SIZE - index,
        {
            if self.gid[index] != 0 {
                return true;
            }
            index += 1;
        }
        false
    }

    /// The encoded record.
    pub fn to_bytes(&self) -> (bytes: Vec<u8>)
        ensures
            bytes@ == encoding(self@),
            bytes@.len() == INFO_SIZE,
    {
        let mut bytes = u16_to_le_bytes(self.lid);
        let mut qpn = u32_to_le_bytes(self.qpn);
        let mut psn = u32_to_le_bytes(self.psn);
        bytes.append(&mut qpn);
        bytes.append(&mut psn);
        let mut index: usize = 0;
        while index < GID_SIZE
            invariant
                index <= GID_SIZE,
                bytes@ == spec_u16_to_le_bytes(self.lid) + spec_u32_to_le_bytes(self.qpn)
                    + spec_u32_to_le_bytes(self.psn) + self.gid@.take(index as int),
            decreases GID_SIZE - index,
        {
            bytes.push(self.gid[index]);
            index += 1;
        }
        bytes
    }

    /// Decodes the record that a peer sent, or nothing where `bytes` is not
    /// exactly [`INFO_SIZE`] bytes long.
    pub fn from_bytes(bytes: &[u8]) -> (record: Option<Self>)
        ensures
            record.is_some() <==> bytes@.len() == INFO_SIZE,
            match record {
                Some(read) => decoding(bytes@) == Some(read@),
                None => decoding(bytes@).is_none(),
            },
    {
        if bytes.len() != INFO_SIZE {
            return None;
        }
        let lid = u16_from_le_bytes(slice_subrange(bytes, 0, 2));
        let qpn = u32_from_le_bytes(slice_subrange(bytes, 2, 6));
        let psn = u32_from_le_bytes(slice_subrange(bytes, 6, 10));
        let mut gid: [u8; 16] = [0u8; 16];
        let mut index: usize = 0;
        while index < GID_SIZE
            invariant
                index <= GID_SIZE,
                bytes@.len() == INFO_SIZE,
                forall|before: int| 0 <= before < index ==> gid@[before] == bytes@[10 + before],
            decreases GID_SIZE - index,
        {
            gid[index] = bytes[10 + index];
            index += 1;
        }
        assert(gid@ =~= bytes@.subrange(10, 26));
        Some(Self { lid, qpn, psn, gid })
    }
}

/// Encoding an identifier record and decoding the bytes gives the record back,
/// field by field.
pub proof fn lemma_round_trip(fields: QpInfoFields)
    requires
        fields.gid.len() == GID_SIZE,
    ensures
        encoding(fields).len() == INFO_SIZE,
        decoding(encoding(fields)) == Some(fields),
{
    lemma_auto_spec_u16_to_from_le_bytes();
    lemma_auto_spec_u32_to_from_le_bytes();
    let bytes = encoding(fields);
    assert(bytes.subrange(0, 2) =~= spec_u16_to_le_bytes(fields.lid));
    assert(bytes.subrange(2, 6) =~= spec_u32_to_le_bytes(fields.qpn));
    assert(bytes.subrange(6, 10) =~= spec_u32_to_le_bytes(fields.psn));
    assert(bytes.subrange(10, 26) =~= fields.gid);
}

} // verus!
