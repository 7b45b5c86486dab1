//! The exchange of one byte in each direction that shows, once both queue pairs
//! are ready to send, that the peers reach each other.

use super::memory_region::MemoryRegion;
use super::memory_region::Registration;
use super::queue_pair::AccessFlags;
use super::send::RecvRequest;
use super::send::SendFlags;
use super::send::SendRequest;
use super::send::Sge;
use super::work_completion::FailedCompletion;
use super::work_completion::Opcode;
use super::work_completion::WorkCompletion;
use super::RdmaError;
use vstd::prelude::*;

verus! {

/// The identifier that tags both requests of the handshake.
pub const HANDSHAKE_WR_ID: u64 = 1;

/// Number of bytes that the handshake registers: the byte it sends and the byte
/// it receives into.
pub const HANDSHAKE_BYTES: u64 = 2;

/// `rand::random`: a byte drawn from the thread's random generator. Any byte may
/// come back.
#[verifier::external_body]
fn random_byte() -> u8 {
    rand::random()
}

/// How far a handshake has come.
#[derive(Debug, Clone, Copy, PartialEq, Eq, Structural)]
pub struct RdmaHandShake {
    /// The byte that is sent to the peer.
    pub signal: u8,
    /// The send has completed.
    pub sent: bool,
    /// The byte of the peer has arrived.
    pub received: bool,
}

/// What an entry of the completion queue adds to a handshake. A handshake that
/// is complete looks at nothing more; before that, an entry with a status other
/// than success ends it, and an entry that is tagged as the handshake's
/// completes the send or the receive according to its kind.
pub open spec fn noted(progress: RdmaHandShake, entry: WorkCompletion) -> Result<RdmaHandShake, FailedCompletion> {
    if progress.sent && progress.received {
        Ok(progress)
    } else if !entry.success {
        Err(entry.failure())
    } else if entry.wr_id == HANDSHAKE_WR_ID && entry.opcode == Opcode::Send {
        Ok(RdmaHandShake { sent: true, ..progress })
    } else if entry.wr_id == HANDSHAKE_WR_ID && entry.opcode == Opcode::Recv {
        Ok(RdmaHandShake { received: true, ..progress })
    } else {
        Ok(progress)
    }
}

/// What a polled batch adds to a handshake, entry by entry in the order in which
/// they were polled.
pub open spec fn absorbed(progress: RdmaHandShake, batch: Seq<WorkCompletion>) -> Result<
    RdmaHandShake,
    FailedCompletion,
>
    decreases batch.len(),
{
    if batch.len() == 0 {
        Ok(progress)
    } else {
        match absorbed(progress, batch.drop_last()) {
            Ok(before) => noted(before, batch.last()),
            Err(failed) => Err(failed),
        }
    }
}

impl RdmaHandShake {
    /// A handshake that has not begun and will send `signal`.
    pub fn new(signal: u8) -> (handshake: Self)
        ensures
            handshake == (RdmaHandShake { signal, sent: false, received: false }),
    {
        Self { signal, sent: false, received: false }
    }

    /// A handshake that has not begun and will send a byte drawn at random.
    pub fn random() -> (handshake: Self)
        ensures
            !handshake.sent,
            !handshake.received,
    {
        Self::new(random_byte())
    }

    pub open spec fn spec_is_complete(&self) -> bool {
        self.sent && self.received
    }

    /// Both completions have arrived.
    #[verifier::when_used_as_spec(spec_is_complete)]
    pub fn is_complete(&self) -> (complete: bool)
        ensures
            complete == self.spec_is_complete(),
    {
        self.sent && self.received
    }

    /// The request to register the two bytes of the handshake.
    pub fn registration() -> (registration: Registration)
        ensures
            registration == handshake_registration(),
    {
        Registration {
            length: 2,
            access: AccessFlags { local_write: true, remote_write: true, remote_read: true, remote_atomic: false },
        }
    }

    /// The request that sends the first byte of `region`, signalled.
    pub fn send_request(region: &MemoryRegion) -> (request: SendRequest)
        requires
            region.spec_length() >= HANDSHAKE_BYTES,
        ensures
            request == handshake_send(*region),
    {
        SendRequest {
            wr_id: HANDSHAKE_WR_ID,
            sge: Sge { addr: region.addr(), length: 1, lkey: region.lkey() },
            flags: SendFlags { signaled: true, fenced: false, inline: false, solicited: false },
        }
    }

    /// The request that receives into the second byte of `region`.
    pub fn recv_request(region: &MemoryRegion) -> (request: RecvRequest)
        requires
            region.spec_length() >= HANDSHAKE_BYTES,
        ensures
            request == handshake_recv(*region),
    {
        let _ = region.length();
        RecvRequest { wr_id: HANDSHAKE_WR_ID, sge: Sge { addr: region.addr() + 1, length: 1, lkey: region.lkey() } }
    }

    /// Takes note of a polled batch, see [`absorbed`]. A completion with a status
    /// other than success is an error and leaves the handshake as it was.
    pub fn absorb(&mut self, batch: &[WorkCompletion]) -> (result: Result<(), RdmaError>)
        ensures
            match absorbed(*old(self), batch@) {
                Ok(progress) => result.is_ok() && *final(self) == progress,
                Err(failed) => {
                    &&& result == Err::<(), RdmaError>(RdmaError::WorkCompletionError(failed))
                    &&& *final(self) == *old(self)
                },
            },
    {
        let mut progress = *self;
        let mut index: usize = 0;
        while index < batch.len()
            invariant
                index <= batch@.len(),
                absorbed(*self, batch@.take(index as int)) == Ok::<RdmaHandShake, FailedCompletion>(progress),
            decreases batch@.len() - index,
        {
            let entry = batch[index];
            proof {
                assert(batch@.take(index + 1).drop_last() =~= batch@.take(index as int));
            }
            if progress.sent && progress.received {
            } else if !entry.success {
                let failed = FailedCompletion {
                    wr_id: entry.wr_id,
                    opcode: entry.opcode,
                    status: entry.status,
                    vendor_err: entry.vendor_err,
                };
                proof {
                    lemma_failure_is_final(*self, batch@, index as int);
                }
                return Err(RdmaError::WorkCompletionError(failed));
            } else if entry.wr_id == HANDSHAKE_WR_ID && entry.opcode == Opcode::Send {
                progress.sent = true;
            } else if entry.wr_id == HANDSHAKE_WR_ID && entry.opcode == Opcode::Recv {
                progress.received = true;
            }
            index += 1;
        }
        assert(batch@.take(batch@.len() as int) =~= batch@);
        *self = progress;
        Ok(())
    }
}

/// The two bytes of a handshake, registered as the slots of a ring are.
pub open spec fn handshake_registration() -> Registration {
    Registration {
        length: 2,
        access: AccessFlags { local_write: true, remote_write: true, remote_read: true, remote_atomic: false },
    }
}

/// The send request of a handshake on `region`.
pub open spec fn handshake_send(region: MemoryRegion) -> SendRequest {
    SendRequest {
        wr_id: HANDSHAKE_WR_ID,
        sge: Sge { addr: region.addr(), length: 1, lkey: region.lkey() },
        flags: SendFlags { signaled: true, fenced: false, inline: false, solicited: false },
    }
}

/// The receive request of a handshake on `region`.
pub open spec fn handshake_recv(region: MemoryRegion) -> RecvRequest {
    RecvRequest {
        wr_id: HANDSHAKE_WR_ID,
        sge: Sge { addr: (region.addr() + 1) as u64, length: 1, lkey: region.lkey() },
    }
}

/// Once a prefix of a batch has ended a handshake in a failure, the whole batch
/// ends it in that failure.
pub proof fn lemma_failure_is_final(progress: RdmaHandShake, batch: Seq<WorkCompletion>, index: int)
    requires
        0 <= index < batch.len(),
        absorbed(progress, batch.take(index + 1)) is Err,
    ensures
        absorbed(progress, batch) == absorbed(progress, batch.take(index + 1)),
    decreases batch.len() - index,
{
    if index + 1 < batch.len() {
        assert(batch.take(index + 2).drop_last() =~= batch.take(index + 1));
        lemma_failure_is_final(progress, batch, index + 1);
    } else {
        assert(batch.take(index + 1) =~= batch);
    }
}

/// A handshake is complete only after a send and a receive that carry its tag
/// have both completed with success: a batch that completes it holds the one
/// that was still missing.
pub proof fn lemma_completion_needs_both(progress: RdmaHandShake, batch: Seq<WorkCompletion>)
    requires
        absorbed(progress, batch) matches Ok(after) && after.is_complete(),
    ensures
        progress.sent || exists|index: int|
            0 <= index < batch.len() && (#[trigger] batch[index]).completes(HANDSHAKE_WR_ID, Opcode::Send),
        progress.received || exists|index: int|
            0 <= index < batch.len() && (#[trigger] batch[index]).completes(HANDSHAKE_WR_ID, Opcode::Recv),
{
    lemma_progress_is_earned(progress, batch);
}

/// Whatever a batch adds to a handshake, it adds because of a completion in it.
pub proof fn lemma_progress_is_earned(progress: RdmaHandShake, batch: Seq<WorkCompletion>)
    requires
        absorbed(progress, batch) is Ok,
    ensures
        ({
            let after = absorbed(progress, batch)->Ok_0;
            &&& after.signal == progress.signal
            &&& progress.sent ==> after.sent
            &&& progress.received ==> after.received
            &&& after.sent && !progress.sent ==> exists|index: int|
                0 <= index < batch.len() && (#[trigger] batch[index]).completes(HANDSHAKE_WR_ID, Opcode::Send)
            &&& after.received && !progress.received ==> exists|index: int|
                0 <= index < batch.len() && (#[trigger] batch[index]).completes(HANDSHAKE_WR_ID, Opcode::Recv)
        }),
    decreases batch.len(),
{
    if batch.len() > 0 {
        lemma_progress_is_earned(progress, batch.drop_last());
        let before = absorbed(progress, batch.drop_last())->Ok_0;
        let after = absorbed(progress, batch)->Ok_0;
        let last = batch.len() - 1;
        if after.sent && !progress.sent {
            if before.sent {
                let index = choose|index: int|
                    0 <= index < batch.drop_last().len() && (#[trigger] batch.drop_last()[index]).completes(
                        HANDSHAKE_WR_ID,
                        Opcode::Send,
                    );
            } else {
            }
        }
        if after.received && !progress.received {
            if before.received {
                let index = choose|index: int|
                    0 <= index < batch.drop_last().len() && (#[trigger] batch.drop_last()[index]).completes(
                        HANDSHAKE_WR_ID,
                        Opcode::Recv,
                    );
            } else {
            }
        }
    }
}

} // verus!
