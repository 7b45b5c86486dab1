//! The loop that couples a ring to the queue pair, one message at a time.
//!
//! An adapter moves messages in one direction. It takes a chunk of one message
//! from its endpoint of the ring, posts a request that names the chunk's bytes,
//! polls until the request has completed, and commits the chunk. It never waits
//! inside a poll: a poll that finds nothing is followed by the next. The stop
//! flag is read before every poll, and an adapter that sees it set leaves at
//! once, without waiting for the request in flight and without committing.

use super::memory_region::MemoryRegion;
use super::send::element_of;
use super::send::scatter_gather;
use super::send::RecvRequest;
use super::send::SendFlags;
use super::send::SendRequest;
use super::send::Sge;
use super::work_completion::decided_at;
use super::work_completion::is_verdict;
use super::work_completion::scan;
use super::work_completion::Opcode;
use super::work_completion::Verdict;
use super::work_completion::WorkCompletion;
use super::RdmaError;
use super::POLL_BATCH;
use vstd::prelude::*;

verus! {

/// The identifier that tags every request of the data plane.
pub const DATA_WR_ID: u64 = 2;

/// The way the messages go.
#[derive(Debug, Clone, Copy, PartialEq, Eq, Structural)]
pub enum Direction {
    /// From the host to the wire: chunks are read from the ring and sent.
    Outbound,
    /// From the wire to the host: chunks are reserved in the ring and received
    /// into.
    Inbound,
}

impl Direction {
    pub open spec fn spec_opcode(&self) -> Opcode {
        match *self {
            Direction::Outbound => Opcode::Send,
            Direction::Inbound => Opcode::Recv,
        }
    }

    /// The kind of completion that ends a request of this direction.
    #[verifier::when_used_as_spec(spec_opcode)]
    pub fn opcode(&self) -> (opcode: Opcode)
        ensures
            opcode == self.spec_opcode(),
    {
        match *self {
            Direction::Outbound => Opcode::Send,
            Direction::Inbound => Opcode::Recv,
        }
    }
}

/// Where the loop stands.
#[derive(Debug, Clone, Copy, PartialEq, Eq, Structural)]
pub enum Phase {
    /// No chunk is held.
    Idle,
    /// A chunk is held and the request for its bytes is to be posted.
    Posting { sge: Sge },
    /// The request is in flight.
    Polling,
    /// The request has completed and the chunk is to be committed.
    Committing,
    /// The loop has ended, by the stop flag or by an error.
    Stopped,
}

/// What the driver is to do next.
#[derive(Debug, Clone, Copy, PartialEq, Eq, Structural)]
pub enum Work {
    /// Ask the endpoint of the ring for a chunk of `len` elements in one piece:
    /// the receiver for exactly `len` published elements when sending, the
    /// sender for `len` free slots when receiving.
    TakeChunk { len: usize },
    PostSend { send: SendRequest },
    PostRecv { recv: RecvRequest },
    /// Read the stop flag, then poll the completion queue once for at most
    /// `batch` entries.
    Poll { batch: usize },
    /// Commit the chunk.
    Commit,
    /// Leave the loop.
    Exit,
}

/// The data plane of one adapter.
#[derive(Debug, Clone, Copy)]
pub struct Transfer {
    direction: Direction,
    message_size: usize,
    element_size: usize,
    base: u64,
    region: MemoryRegion,
    phase: Phase,
}

impl Transfer {
    /// The way the messages go.
    pub closed spec fn direction(&self) -> Direction {
        self.direction
    }

    /// Number of elements of one message.
    pub closed spec fn message_size(&self) -> usize {
        self.message_size
    }

    /// Number of bytes of one element.
    pub closed spec fn element_size(&self) -> usize {
        self.element_size
    }

    /// Address of the first slot of the ring.
    pub closed spec fn base(&self) -> u64 {
        self.base
    }

    /// The registered memory that the slots lie in.
    pub closed spec fn region(&self) -> MemoryRegion {
        self.region
    }

    pub closed spec fn spec_phase(&self) -> Phase {
        self.phase
    }

    /// Everything of a transfer but its phase is fixed when it is made.
    pub open spec fn same_setup(&self, other: &Transfer) -> bool {
        &&& self.direction() == other.direction()
        &&& self.message_size() == other.message_size()
        &&& self.element_size() == other.element_size()
        &&& self.base() == other.base()
        &&& self.region() == other.region()
    }

    /// The element that names the bytes of a chunk which begins at the slot
    /// `offset`: one message from the address of that slot on. There is none
    /// where the bytes do not lie in the registered memory or cannot be counted
    /// in 32 bits.
    pub open spec fn element_at(&self, offset: usize) -> Option<Sge> {
        if self.base() + offset * self.element_size() <= u64::MAX {
            element_of(
                self.region(),
                (self.base() + offset * self.element_size()) as u64,
                self.message_size(),
                self.element_size(),
            )
        } else {
            None
        }
    }

    /// The work of a phase.
    pub open spec fn planned(&self) -> Work {
        match self.spec_phase() {
            Phase::Idle => Work::TakeChunk { len: self.message_size() },
            Phase::Posting { sge } => match self.direction() {
                Direction::Outbound => Work::PostSend {
                    send: SendRequest {
                        wr_id: DATA_WR_ID,
                        sge,
                        flags: SendFlags { signaled: true, fenced: false, inline: false, solicited: false },
                    },
                },
                Direction::Inbound => Work::PostRecv { recv: RecvRequest { wr_id: DATA_WR_ID, sge } },
            },
            Phase::Polling => Work::Poll { batch: POLL_BATCH },
            Phase::Committing => Work::Commit,
            Phase::Stopped => Work::Exit,
        }
    }

    /// A transfer of messages of `message_size` elements of `element_size`
    /// bytes each, over a ring whose first slot lies at `base` in `region`. It
    /// holds no chunk.
    pub fn new(direction: Direction, message_size: usize, element_size: usize, base: u64, region: MemoryRegion) -> (transfer:
        Self)
        ensures
            transfer.direction() == direction,
            transfer.message_size() == message_size,
            transfer.element_size() == element_size,
            transfer.base() == base,
            transfer.region() == region,
            transfer.phase() == Phase::Idle,
    {
        Self { direction, message_size, element_size, base, region, phase: Phase::Idle }
    }

    /// Where the loop stands.
    #[verifier::when_used_as_spec(spec_phase)]
    pub fn phase(&self) -> (phase: Phase)
        ensures
            phase == self.spec_phase(),
    {
        self.phase
    }

    /// What to do next.
    pub fn next(&self) -> (work: Work)
        ensures
            work == self.planned(),
    {
        match self.phase {
            Phase::Idle => Work::TakeChunk { len: self.message_size },
            Phase::Posting { sge } => match self.direction {
                Direction::Outbound => Work::PostSend {
                    send: SendRequest {
                        wr_id: DATA_WR_ID,
                        sge,
                        flags: SendFlags { signaled: true, fenced: false, inline: false, solicited: false },
                    },
                },
                Direction::Inbound => Work::PostRecv { recv: RecvRequest { wr_id: DATA_WR_ID, sge } },
            },
            Phase::Polling => Work::Poll { batch: POLL_BATCH },
            Phase::Committing => Work::Commit,
            Phase::Stopped => Work::Exit,
        }
    }

    /// Takes note of what the endpoint of the ring answered: the slot at which
    /// the chunk begins, or none where it gave no chunk. Without a chunk the
    /// transfer stays idle, and the driver yields and asks again. With one, the
    /// request for its bytes is next; bytes outside the registered memory end
    /// the transfer. In any other phase nothing was asked of the ring, which
    /// ends the transfer as well.
    pub fn chunk(&mut self, offset: Option<usize>) -> (result: Result<(), RdmaError>)
        ensures
            final(self).same_setup(old(self)),
            old(self).phase() == Phase::Idle ==> match offset {
                None => result.is_ok() && final(self).phase() == Phase::Idle,
                Some(slot) => match old(self).element_at(slot) {
                    Some(sge) => result.is_ok() && final(self).phase() == (Phase::Posting { sge }),
                    None => result == Err::<(), RdmaError>(RdmaError::OutOfRegion) && final(self).phase()
                        == Phase::Stopped,
                },
            },
            old(self).phase() != Phase::Idle ==> result == Err::<(), RdmaError>(RdmaError::UnexpectedOutcome)
                && final(self).phase() == Phase::Stopped,
    {
        match self.phase {
            Phase::Idle => {},
            _ => {
                self.phase = Phase::Stopped;
                return Err(RdmaError::UnexpectedOutcome);
            },
        }
        let slot: usize = match offset {
            Some(slot) => slot,
            None => {
                return Ok(());
            },
        };
        let address: Option<u64> = match (slot as u64).checked_mul(self.element_size as u64) {
            Some(bytes) => self.base.checked_add(bytes),
            None => None,
        };
        let sge = match address {
            Some(addr) => scatter_gather(&self.region, addr, self.message_size, self.element_size),
            None => Err(RdmaError::OutOfRegion),
        };
        match sge {
            Ok(element) => {
                self.phase = Phase::Posting { sge: element };
                Ok(())
            },
            Err(error) => {
                self.phase = Phase::Stopped;
                Err(error)
            },
        }
    }

    /// Takes note of what the device returned when the request was posted. Zero
    /// puts the request in flight; anything else ends the transfer.
    pub fn posted(&mut self, ret: i32) -> (result: Result<(), RdmaError>)
        ensures
            final(self).same_setup(old(self)),
            result == match old(self).phase() {
                Phase::Posting { sge } => if ret == 0 {
                    Ok(())
                } else {
                    match old(self).direction() {
                        Direction::Outbound => Err(RdmaError::PostSendError(ret)),
                        Direction::Inbound => Err(RdmaError::PostRecvError(ret)),
                    }
                },
                _ => Err(RdmaError::UnexpectedOutcome),
            },
            final(self).phase() == if result.is_ok() {
                Phase::Polling
            } else {
                Phase::Stopped
            },
    {
        match self.phase {
            Phase::Posting { sge } => {
                if ret == 0 {
                    self.phase = Phase::Polling;
                    Ok(())
                } else {
                    self.phase = Phase::Stopped;
                    match self.direction {
                        Direction::Outbound => Err(RdmaError::PostSendError(ret)),
                        Direction::Inbound => Err(RdmaError::PostRecvError(ret)),
                    }
                }
            },
            _ => {
                self.phase = Phase::Stopped;
                Err(RdmaError::UnexpectedOutcome)
            },
        }
    }

    /// Takes note of the stop flag and of the batch that a poll took. A set flag
    /// ends the transfer, whatever the batch holds. Otherwise the batch is
    /// scanned for the completion of the request in flight: it leads on to the
    /// commit, a failure before it ends the transfer, and a batch with neither
    /// leaves the request in flight.
    pub fn polled(&mut self, stop: bool, batch: &[WorkCompletion]) -> (result: Result<(), RdmaError>)
        ensures
            final(self).same_setup(old(self)),
            old(self).phase() != Phase::Polling ==> result == Err::<(), RdmaError>(RdmaError::UnexpectedOutcome)
                && final(self).phase() == Phase::Stopped,
            old(self).phase() == Phase::Polling && stop ==> result.is_ok() && final(self).phase()
                == Phase::Stopped,
            old(self).phase() == Phase::Polling && !stop ==> exists|verdict: Verdict|
                {
                    &&& #[trigger] is_verdict(batch@, DATA_WR_ID, old(self).direction().opcode(), verdict)
                    &&& match verdict {
                        Verdict::Pending => result.is_ok() && final(self).phase() == Phase::Polling,
                        Verdict::Completed => result.is_ok() && final(self).phase() == Phase::Committing,
                        Verdict::Failed(failed) => result == Err::<(), RdmaError>(
                            RdmaError::WorkCompletionError(failed),
                        ) && final(self).phase() == Phase::Stopped,
                    }
                },
    {
        match self.phase {
            Phase::Polling => {},
            _ => {
                self.phase = Phase::Stopped;
                return Err(RdmaError::UnexpectedOutcome);
            },
        }
        if stop {
            self.phase = Phase::Stopped;
            return Ok(());
        }
        let verdict = scan(batch, DATA_WR_ID, self.direction.opcode());
        match verdict {
            Verdict::Pending => Ok(()),
            Verdict::Completed => {
                self.phase = Phase::Committing;
                Ok(())
            },
            Verdict::Failed(failed) => {
                self.phase = Phase::Stopped;
                Err(RdmaError::WorkCompletionError(failed))
            },
        }
    }

    /// Takes note that the chunk was committed: the transfer holds no chunk and
    /// asks for the next.
    pub fn committed(&mut self) -> (result: Result<(), RdmaError>)
        ensures
            final(self).same_setup(old(self)),
            result == if old(self).phase() == Phase::Committing {
                Ok::<(), RdmaError>(())
            } else {
                Err::<(), RdmaError>(RdmaError::UnexpectedOutcome)
            },
            final(self).phase() == if old(self).phase() == Phase::Committing {
                Phase::Idle
            } else {
                Phase::Stopped
            },
    {
        match self.phase {
            Phase::Committing => {
                self.phase = Phase::Idle;
                Ok(())
            },
            _ => {
                self.phase = Phase::Stopped;
                Err(RdmaError::UnexpectedOutcome)
            },
        }
    }
}

/// A chunk is committed only after its request has completed with success: the
/// transfer comes to its commit from a poll only, and only on a batch that holds
/// the completion of the request in flight with no failure before it.
pub proof fn lemma_commit_follows_completion(batch: Seq<WorkCompletion>, direction: Direction, verdict: Verdict)
    requires
        is_verdict(batch, DATA_WR_ID, direction.opcode(), verdict),
        verdict is Completed,
    ensures
        exists|index: int|
            0 <= index < batch.len() && (#[trigger] batch[index]).completes(DATA_WR_ID, direction.opcode())
                && forall|before: int| 0 <= before < index ==> (#[trigger] batch[before]).success,
{
    let index = choose|index: int| #[trigger] decided_at(batch, index, DATA_WR_ID, direction.opcode(), verdict);
    assert(batch[index].completes(DATA_WR_ID, direction.opcode()));
}

} // verus!
