//! Work requests: what is posted to the send and to the receive queue.
//!
//! Every request names its bytes by a single scatter-gather element, which is
//! why the ring hands out chunks in one piece only.

use super::memory_region::MemoryRegion;
use super::IbResource;
use super::RdmaError;
use vstd::prelude::*;

verus! {

/// A run of registered bytes: where it begins, how long it is, and the key of
/// the region it lies in.
#[derive(Debug, Clone, Copy, PartialEq, Eq, Structural)]
pub struct Sge {
    pub addr: u64,
    pub length: u32,
    pub lkey: u32,
}

/// How a send request is to be handled.
#[derive(Debug, Clone, Copy, PartialEq, Eq, Structural)]
pub struct SendFlags {
    /// The request produces a completion.
    pub signaled: bool,
    /// The request waits for the reads and atomic operations before it.
    pub fenced: bool,
    /// The bytes are copied into the request when it is posted.
    pub inline: bool,
    /// The receiver is notified.
    pub solicited: bool,
}

/// A request to send the bytes of one scatter-gather element.
#[derive(Debug, Clone, Copy, PartialEq, Eq, Structural)]
pub struct SendRequest {
    pub wr_id: u64,
    pub sge: Sge,
    pub flags: SendFlags,
}

/// A request to receive into the bytes of one scatter-gather element.
#[derive(Debug, Clone, Copy, PartialEq, Eq, Structural)]
pub struct RecvRequest {
    pub wr_id: u64,
    pub sge: Sge,
}

/// The element that names `elements` elements of `element_size` bytes each from
/// `addr` on. There is one exactly where the bytes can be counted in 32 bits and
/// lie in the region.
pub open spec fn element_of(region: MemoryRegion, addr: u64, elements: usize, element_size: usize) -> Option<Sge> {
    if elements * element_size <= u32::MAX && region.covers(addr, (elements * element_size) as u64) {
        Some(Sge { addr, length: (elements * element_size) as u32, lkey: region.lkey() })
    } else {
        None
    }
}

/// Computes [`element_of`]; where there is no element the bytes are refused.
pub fn scatter_gather(region: &MemoryRegion, addr: u64, elements: usize, element_size: usize) -> (sge: Result<
    Sge,
    RdmaError,
>)
    ensures
        sge == match element_of(*region, addr, elements, element_size) {
            Some(element) => Ok::<Sge, RdmaError>(element),
            None => Err::<Sge, RdmaError>(RdmaError::OutOfRegion),
        },
{
    let bytes: usize = match elements.checked_mul(element_size) {
        Some(bytes) => bytes,
        None => {
            return Err(RdmaError::OutOfRegion);
        },
    };
    if bytes > u32::MAX as usize {
        return Err(RdmaError::OutOfRegion);
    }
    if !region.covers(addr, bytes as u64) {
        return Err(RdmaError::OutOfRegion);
    }
    Ok(Sge { addr, length: bytes as u32, lkey: region.lkey() })
}

impl IbResource {
    /// The request that sends `elements` elements of `element_size` bytes each
    /// from `addr` on, tagged `wr_id`, with a completion where `signal` is set.
    /// Bytes that do not all lie in `mr`, or that are more than one request can
    /// name, are refused. Posting the request is the driver's part.
    pub fn post_send(
        &self,
        wr_id: u64,
        mr: &MemoryRegion,
        addr: u64,
        elements: usize,
        element_size: usize,
        signal: bool,
    ) -> (request: Result<SendRequest, RdmaError>)
        ensures
            request == match element_of(*mr, addr, elements, element_size) {
                Some(sge) => Ok::<SendRequest, RdmaError>(
                    SendRequest {
                        wr_id,
                        sge,
                        flags: SendFlags { signaled: signal, fenced: false, inline: false, solicited: false },
                    },
                ),
                None => Err::<SendRequest, RdmaError>(RdmaError::OutOfRegion),
            },
    {
        match scatter_gather(mr, addr, elements, element_size) {
            Ok(sge) => {
                let flags = if signal {
                    SendFlagBuilder::new().signaled().build()
                } else {
                    SendFlagBuilder::new().build()
                };
                Ok(SendRequest { wr_id, sge, flags })
            },
            Err(error) => Err(error),
        }
    }

    /// The request that receives into `elements` elements of `element_size`
    /// bytes each from `addr` on, tagged `wr_id`. Bytes that do not all lie in
    /// `mr`, or that are more than one request can name, are refused. Posting
    /// the request is the driver's part.
    pub fn post_recv(&self, wr_id: u64, mr: &MemoryRegion, addr: u64, elements: usize, element_size: usize) -> (request:
        Result<RecvRequest, RdmaError>)
        ensures
            request == match element_of(*mr, addr, elements, element_size) {
                Some(sge) => Ok::<RecvRequest, RdmaError>(RecvRequest { wr_id, sge }),
                None => Err::<RecvRequest, RdmaError>(RdmaError::OutOfRegion),
            },
    {
        match scatter_gather(mr, addr, elements, element_size) {
            Ok(sge) => Ok(RecvRequest { wr_id, sge }),
            Err(error) => Err(error),
        }
    }
}

/// Chooses the flags of a send request one by one.
pub struct SendFlagBuilder {
    flags: SendFlags,
}

impl SendFlagBuilder {
    /// The flags chosen so far.
    pub closed spec fn chosen(&self) -> SendFlags {
        self.flags
    }

    /// A builder with no flag set.
    pub fn new() -> (builder: Self)
        ensures
            builder.chosen() == (SendFlags { signaled: false, fenced: false, inline: false, solicited: false }),
    {
        Self { flags: SendFlags { signaled: false, fenced: false, inline: false, solicited: false } }
    }

    /// Asks for a completion.
    pub fn signaled(self) -> (builder: Self)
        ensures
            builder.chosen() == (SendFlags { signaled: true, ..self.chosen() }),
    {
        Self { flags: SendFlags { signaled: true, ..self.flags } }
    }

    /// Makes the request wait for the reads and atomic operations before it.
    pub fn fenced(self) -> (builder: Self)
        ensures
            builder.chosen() == (SendFlags { fenced: true, ..self.chosen() }),
    {
        Self { flags: SendFlags { fenced: true, ..self.flags } }
    }

    /// Has the bytes copied into the request when it is posted.
    pub fn inline(self) -> (builder: Self)
        ensures
            builder.chosen() == (SendFlags { inline: true, ..self.chosen() }),
    {
        Self { flags: SendFlags { inline: true, ..self.flags } }
    }

    /// Has the receiver notified.
    pub fn solicited(self) -> (builder: Self)
        ensures
            builder.chosen() == (SendFlags { solicited: true, ..self.chosen() }),
    {
        Self { flags: SendFlags { solicited: true, ..self.flags } }
    }

    /// The flags chosen.
    pub fn build(self) -> (flags: SendFlags)
        ensures
            flags == self.chosen(),
    {
        self.flags
    }
}

} // verus!
