//! The way by which the two sides of a mirrored ring reach each other.

use crate::rdma_ring_buffer::Message;
use vstd::prelude::*;

verus! {

/// Something that carries messages to the peer and brings the peer's messages.
/// What arrives is the peer's to decide, and whether a call succeeds is the
/// carrier's: nothing is promised of either.
pub trait CommunicationManager {
    /// Why a message could not be carried.
    type Error;

    /// Sends the messages to the peer, in their order.
    fn send_message<T: Copy>(&mut self, message: &[Message<T>]) -> Result<(), Self::Error>;

    /// Waits for messages of the peer and returns them in the order of their
    /// arrival.
    fn recv_message<T: Copy>(&mut self) -> Result<Vec<Message<T>>, Self::Error>;

    /// Returns the messages of the peer that have arrived, or none where there
    /// is nothing yet.
    fn try_recv_message<T: Copy>(&mut self) -> Result<Option<Vec<Message<T>>>, Self::Error>;
}

} // verus!
