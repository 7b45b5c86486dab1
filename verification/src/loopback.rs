//! A run in which both adapters and both hosts live in one process: its
//! parameters, and the traffic that the hosts exchange to see that nothing is
//! lost, repeated or reordered on the way.

use std::time::Duration;
use vstd::prelude::*;

verus! {

/// The parameters of a loopback run.
#[derive(Debug, Clone, Copy)]
pub struct Spec {
    pub port: u16,
    /// Number of elements that an adapter moves at once.
    pub message_size: usize,
    /// Number of elements that a host writes or reads at once.
    pub batch_size: usize,
    /// Number of slots of each ring.
    pub buffer_size: usize,
    pub duration: Duration,
}

/// The element number `index` of the traffic: the hosts count up from zero and
/// wrap in 64 bits.
pub open spec fn element(first: u64, index: int) -> u64 {
    ((first + index) % 0x1_0000_0000_0000_0000) as u64
}

/// An element that is not the one that was due.
#[derive(Debug, Clone, Copy, PartialEq, Eq, Structural)]
pub struct Mismatch {
    /// Place of the element in the batch.
    pub index: usize,
    pub expected: u64,
    /// What was found.
    pub got: u64,
}

/// The next `len` elements of the traffic, the first of which is `first`.
pub fn batch(first: u64, len: usize) -> (values: Vec<u64>)
    ensures
        values@.len() == len,
        forall|index: int| 0 <= index < len ==> values@[index] == element(first, index),
{
    let mut values: Vec<u64> = Vec::new();
    let mut next: u64 = first;
    let mut index: usize = 0;
    while index < len
        invariant
            index <= len,
            values@.len() == index,
            next == element(first, index as int),
            forall|before: int| 0 <= before < index ==> values@[before] == element(first, before),
        decreases len - index,
    {
        values.push(next);
        next = next.wrapping_add(1);
        index += 1;
    }
    values
}

/// Compares a batch that was read with the traffic that is due, the first
/// element of which is `first`. A batch that is as expected gives the element
/// that is due after it; otherwise the first element that differs is reported.
pub fn check(values: &[u64], first: u64) -> (result: Result<u64, Mismatch>)
    ensures
        match result {
            Ok(next) => {
                &&& forall|index: int|
                    0 <= index < values@.len() ==> values@[index] == element(first, index)
                &&& next == element(first, values@.len() as int)
            },
            Err(mismatch) => {
                &&& mismatch.index < values@.len()
                &&& forall|index: int|
                    0 <= index < mismatch.index ==> values@[index] == element(first, index)
                &&& mismatch.expected == element(first, mismatch.index as int)
                &&& mismatch.got == values@[mismatch.index as int]
                &&& mismatch.got != mismatch.expected
            },
        },
{
    let mut next: u64 = first;
    let mut index: usize = 0;
    while index < values.len()
        invariant
            index <= values@.len(),
            next == element(first, index as int),
            forall|before: int| 0 <= before < index ==> values@[before] == element(first, before),
        decreases values@.len() - index,
    {
        let got = values[index];
        if got != next {
            return Err(Mismatch { index, expected: next, got });
        }
        next = next.wrapping_add(1);
        index += 1;
    }
    Ok(next)
}

} // verus!
