//! Work completions as the adapter reads them, and the scan of a polled batch
//! for the completion it waits for.

use vstd::prelude::*;

verus! {

/// The kind of work request that a completion reports.
#[derive(Debug, Clone, Copy, PartialEq, Eq, Structural)]
pub enum Opcode {
    Send,
    Recv,
    Other,
}

/// What the adapter reads of one entry of the completion queue.
#[derive(Debug, Clone, Copy, PartialEq, Eq, Structural)]
pub struct WorkCompletion {
    pub wr_id: u64,
    /// The status that the device reports; `success` tells whether it stands for
    /// a completed request.
    pub status: u32,
    pub success: bool,
    pub opcode: Opcode,
    pub vendor_err: u32,
    pub byte_len: u32,
}

/// A completion with a status other than success, as far as an error report
/// names it.
#[derive(Debug, Clone, Copy, PartialEq, Eq, Structural)]
pub struct FailedCompletion {
    pub wr_id: u64,
    pub opcode: Opcode,
    pub status: u32,
    pub vendor_err: u32,
}

impl WorkCompletion {
    /// The completion is the successful end of the request `wr_id` of the kind
    /// `opcode`.
    pub open spec fn completes(self, wr_id: u64, opcode: Opcode) -> bool {
        self.success && self.wr_id == wr_id && self.opcode == opcode
    }

    /// What an error report says of the completion.
    pub open spec fn failure(self) -> FailedCompletion {
        FailedCompletion {
            wr_id: self.wr_id,
            opcode: self.opcode,
            status: self.status,
            vendor_err: self.vendor_err,
        }
    }
}

/// The entries of `batch` before `index` are successful and none of them ends
/// the awaited request.
pub open spec fn undecided_before(batch: Seq<WorkCompletion>, index: int, wr_id: u64, opcode: Opcode) -> bool {
    forall|before: int|
        0 <= before < index ==> (#[trigger] batch[before]).success && !batch[before].completes(
            wr_id,
            opcode,
        )
}

/// What a polled batch means to an adapter that waits for the request `wr_id`
/// of the kind `opcode`. The entries count in the order in which they were
/// polled, and the first one that is a failure or the awaited completion
/// decides; what follows it in the batch is not looked at.
pub enum Verdict {
    /// Neither a failure nor the awaited completion is in the batch.
    Pending,
    /// The awaited completion arrived.
    Completed,
    /// A completion with a status other than success arrived first.
    Failed(FailedCompletion),
}

/// The entry at `index` is the first that decides, and it decides `verdict`.
pub open spec fn decided_at(
    batch: Seq<WorkCompletion>,
    index: int,
    wr_id: u64,
    opcode: Opcode,
    verdict: Verdict,
) -> bool {
    &&& 0 <= index < batch.len()
    &&& undecided_before(batch, index, wr_id, opcode)
    &&& match verdict {
        Verdict::Pending => false,
        Verdict::Completed => batch[index].completes(wr_id, opcode),
        Verdict::Failed(failed) => !batch[index].success && failed == batch[index].failure(),
    }
}

/// The verdict on `batch` is `verdict`.
pub open spec fn is_verdict(batch: Seq<WorkCompletion>, wr_id: u64, opcode: Opcode, verdict: Verdict) -> bool {
    match verdict {
        Verdict::Pending => undecided_before(batch, batch.len() as int, wr_id, opcode),
        _ => exists|index: int| #[trigger] decided_at(batch, index, wr_id, opcode, verdict),
    }
}

/// Scans a polled batch for the completion of the request `wr_id` of the kind
/// `opcode`.
pub fn scan(batch: &[WorkCompletion], wr_id: u64, opcode: Opcode) -> (verdict: Verdict)
    ensures
        is_verdict(batch@, wr_id, opcode, verdict),
{
    let mut index: usize = 0;
    while index < batch.len()
        invariant
            index <= batch@.len(),
            undecided_before(batch@, index as int, wr_id, opcode),
        decreases batch@.len() - index,
    {
        let entry = batch[index];
        if !entry.success {
            let failed = FailedCompletion {
                wr_id: entry.wr_id,
                opcode: entry.opcode,
                status: entry.status,
                vendor_err: entry.vendor_err,
            };
            assert(decided_at(batch@, index as int, wr_id, opcode, Verdict::Failed(failed)));
            return Verdict::Failed(failed);
        }
        if entry.wr_id == wr_id && entry.opcode == opcode {
            assert(decided_at(batch@, index as int, wr_id, opcode, Verdict::Completed));
            return Verdict::Completed;
        }
        index += 1;
    }
    Verdict::Pending
}

/// A batch has one verdict only.
pub proof fn lemma_verdict_is_unique(
    batch: Seq<WorkCompletion>,
    wr_id: u64,
    opcode: Opcode,
    first: Verdict,
    second: Verdict,
)
    requires
        is_verdict(batch, wr_id, opcode, first),
        is_verdict(batch, wr_id, opcode, second),
    ensures
        first == second,
{
    if first is Pending {
        if !(second is Pending) {
            let index = choose|index: int| #[trigger] decided_at(batch, index, wr_id, opcode, second);
            assert(batch[index].success && !batch[index].completes(wr_id, opcode));
        }
    } else {
        let at_first = choose|index: int| #[trigger] decided_at(batch, index, wr_id, opcode, first);
        if second is Pending {
            assert(batch[at_first].success && !batch[at_first].completes(wr_id, opcode));
        } else {
            let at_second = choose|index: int| #[trigger] decided_at(batch, index, wr_id, opcode, second);
            if at_first < at_second {
                assert(batch[at_first].success && !batch[at_first].completes(wr_id, opcode));
            } else if at_second < at_first {
                assert(batch[at_second].success && !batch[at_second].completes(wr_id, opcode));
            }
        }
    }
}

} // verus!
