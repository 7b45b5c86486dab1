//! What the two processes tell each other over the rendezvous channel.
//!
//! The process that created the shared memory sends the record that describes
//! the ring, once, and then waits. The process that opens the ring reads the
//! record, uses the ring, and at the end of its run sends a single byte back;
//! the creator tears the segment down when that byte arrives, or anything else,
//! or the end of the channel. Nothing else is ever sent. The channel itself is the driver's: this module says what to
//! write and what to read, and is told when that was done.

use self::ring_buffer_metadata::decoding;
use self::ring_buffer_metadata::encoding;
use self::ring_buffer_metadata::RingBufferMetaData;
use self::ring_buffer_metadata::RECORD_SIZE;
use vstd::prelude::*;

pub mod ring_buffer_metadata;

verus! {

/// The byte that asks the creator to tear the segment down.
pub const TEARDOWN: u8 = 1;

/// The side of the channel.
#[derive(Debug, Clone, Copy, PartialEq, Eq, Structural)]
pub enum Role {
    /// The process that made the shared memory and the channel.
    Creator,
    /// The process that attaches to them.
    Opener,
}

/// Where the exchange stands.
#[derive(Debug, Clone, Copy, PartialEq, Eq, Structural)]
pub enum Phase {
    /// The record is on its way.
    Handoff,
    /// The record has arrived and the ring is in use.
    Running,
    /// The opener has finished its run and the teardown byte is to be sent.
    Teardown,
    /// The exchange is over.
    Closed,
    /// Something was sent or reported that the exchange has no place for.
    Broken,
}

/// What the driver is to do with the channel next.
pub enum Step {
    /// Write these bytes.
    Send { bytes: Vec<u8> },
    /// Read exactly `len` bytes and report them.
    Receive { len: usize },
    /// Use the ring; report the end of the run when it has come.
    Run,
    /// Nothing more: the creator tears the segment down, the opener leaves.
    Done,
}

/// Why an exchange broke.
#[derive(Debug, Clone, Copy, PartialEq, Eq, Structural)]
pub enum IpcError {
    /// The bytes read are not what the other side sends at this point.
    Malformed,
    /// A report was made that the step in progress does not end in.
    OutOfTurn,
}

/// One side of the rendezvous.
pub struct Ipc {
    role: Role,
    phase: Phase,
    metadata: Option<RingBufferMetaData>,
}

impl Ipc {
    #[verifier::type_invariant]
    spec fn well_formed(self) -> bool {
        self.role == Role::Creator || self.phase == Phase::Running || self.phase == Phase::Teardown
            || self.phase == Phase::Closed ==> self.metadata.is_some()
    }

    /// The side of the channel that this is.
    pub closed spec fn role(&self) -> Role {
        self.role
    }

    pub closed spec fn spec_phase(&self) -> Phase {
        self.phase
    }

    /// The record of the ring: what the creator sends, and what the opener has
    /// read once the handoff is over.
    pub closed spec fn record(&self) -> Option<RingBufferMetaData> {
        self.metadata
    }

    /// The bytes that the side is to write now, if it is to write: the creator
    /// the record at the handoff, the opener the teardown byte at the end.
    pub open spec fn outgoing(&self) -> Option<Seq<u8>> {
        match (self.role(), self.spec_phase(), self.record()) {
            (Role::Creator, Phase::Handoff, Some(record)) => Some(encoding(record@)),
            (Role::Opener, Phase::Teardown, _) => Some(seq![TEARDOWN]),
            _ => None,
        }
    }

    /// The number of bytes that the side is to read now, if it is to read: the
    /// opener the record at the handoff, the creator the teardown byte after it.
    pub open spec fn incoming(&self) -> Option<usize> {
        match (self.role(), self.spec_phase()) {
            (Role::Opener, Phase::Handoff) => Some(RECORD_SIZE),
            (Role::Creator, Phase::Running) => Some(1),
            _ => None,
        }
    }

    /// The creator's side, which hands `metadata` off.
    pub fn create(metadata: RingBufferMetaData) -> (ipc: Self)
        ensures
            ipc.role() == Role::Creator,
            ipc.phase() == Phase::Handoff,
            ipc.record() == Some(metadata),
    {
        Self { role: Role::Creator, phase: Phase::Handoff, metadata: Some(metadata) }
    }

    /// The opener's side, which has no record yet.
    pub fn open() -> (ipc: Self)
        ensures
            ipc.role() == Role::Opener,
            ipc.phase() == Phase::Handoff,
            ipc.record().is_none(),
    {
        Self { role: Role::Opener, phase: Phase::Handoff, metadata: None }
    }

    /// Where the exchange stands.
    #[verifier::when_used_as_spec(spec_phase)]
    pub fn phase(&self) -> (phase: Phase)
        ensures
            phase == self.spec_phase(),
    {
        self.phase
    }

    /// The record of the ring, see [`Ipc::record`].
    pub fn metadata(&self) -> (metadata: Option<RingBufferMetaData>)
        ensures
            metadata == self.record(),
            self.phase() == Phase::Running ==> metadata.is_some(),
    {
        proof {
            use_type_invariant(self);
        }
        self.metadata
    }

    /// What to do with the channel next.
    pub fn step(&self) -> (step: Step)
        ensures
            match step {
                Step::Send { bytes } => self.outgoing() == Some(bytes@),
                Step::Receive { len } => self.incoming() == Some(len),
                Step::Run => self.role() == Role::Opener && self.phase() == Phase::Running,
                Step::Done => self.outgoing().is_none() && self.incoming().is_none() && !(self.role()
                    == Role::Opener && self.phase() == Phase::Running),
            },
    {
        match (self.role, self.phase) {
            (Role::Creator, Phase::Handoff) => match self.metadata {
                Some(record) => {
                    let mut bytes: Vec<u8> = Vec::new();
                    record.write_to(&mut bytes);
                    Step::Send { bytes }
                },
                None => Step::Done,
            },
            (Role::Creator, Phase::Running) => Step::Receive { len: 1 },
            (Role::Opener, Phase::Handoff) => Step::Receive { len: RECORD_SIZE },
            (Role::Opener, Phase::Running) => Step::Run,
            (Role::Opener, Phase::Teardown) => {
                let mut bytes: Vec<u8> = Vec::new();
                bytes.push(TEARDOWN);
                Step::Send { bytes }
            },
            _ => Step::Done,
        }
    }

    /// Takes note that the bytes of the step were written. The creator then
    /// waits for the teardown byte; the opener is done.
    pub fn sent(&mut self) -> (result: Result<(), IpcError>)
        ensures
            final(self).role() == old(self).role(),
            final(self).record() == old(self).record(),
            result == if old(self).outgoing().is_some() {
                Ok::<(), IpcError>(())
            } else {
                Err::<(), IpcError>(IpcError::OutOfTurn)
            },
            final(self).phase() == if old(self).outgoing().is_none() {
                Phase::Broken
            } else if old(self).role() == Role::Creator {
                Phase::Running
            } else {
                Phase::Closed
            },
    {
        proof {
            use_type_invariant(&*self);
        }
        match (self.role, self.phase, self.metadata) {
            (Role::Creator, Phase::Handoff, Some(_)) => {
                self.phase = Phase::Running;
                Ok(())
            },
            (Role::Opener, Phase::Teardown, _) => {
                self.phase = Phase::Closed;
                Ok(())
            },
            _ => {
                self.phase = Phase::Broken;
                Err(IpcError::OutOfTurn)
            },
        }
    }

    /// Takes note of the bytes that were read for the step. The opener takes
    /// them for the record of the ring and may use the ring from then on; bytes
    /// that are no record break the exchange. The creator is done with whatever
    /// arrives after the handoff, also with nothing at the end of the channel:
    /// the opener has only the teardown byte to send.
    pub fn received(&mut self, bytes: &[u8]) -> (result: Result<(), IpcError>)
        ensures
            final(self).role() == old(self).role(),
            old(self).incoming().is_none() ==> {
                &&& result == Err::<(), IpcError>(IpcError::OutOfTurn)
                &&& final(self).phase() == Phase::Broken
                &&& final(self).record() == old(self).record()
            },
            old(self).incoming().is_some() && old(self).role() == Role::Opener ==> match decoding(bytes@) {
                Some(fields) => {
                    &&& result.is_ok()
                    &&& final(self).phase() == Phase::Running
                    &&& final(self).record() matches Some(record) && record@ == fields
                },
                None => {
                    &&& result == Err::<(), IpcError>(IpcError::Malformed)
                    &&& final(self).phase() == Phase::Broken
                    &&& final(self).record() == old(self).record()
                },
            },
            old(self).incoming().is_some() && old(self).role() == Role::Creator ==> {
                &&& final(self).record() == old(self).record()
                &&& result.is_ok()
                &&& final(self).phase() == Phase::Closed
            },
    {
        proof {
            use_type_invariant(&*self);
        }
        match (self.role, self.phase) {
            (Role::Opener, Phase::Handoff) => match RingBufferMetaData::read_from(bytes) {
                Some(record) => {
                    self.metadata = Some(record);
                    self.phase = Phase::Running;
                    Ok(())
                },
                None => {
                    self.phase = Phase::Broken;
                    Err(IpcError::Malformed)
                },
            },
            (Role::Creator, Phase::Running) => {
                self.phase = Phase::Closed;
                Ok(())
            },
            _ => {
                self.phase = Phase::Broken;
                Err(IpcError::OutOfTurn)
            },
        }
    }

    /// Takes note that the opener's run has ended: the teardown byte is to be
    /// sent next.
    pub fn finish(&mut self) -> (result: Result<(), IpcError>)
        ensures
            final(self).role() == old(self).role(),
            final(self).record() == old(self).record(),
            result == if old(self).role() == Role::Opener && old(self).phase() == Phase::Running {
                Ok::<(), IpcError>(())
            } else {
                Err::<(), IpcError>(IpcError::OutOfTurn)
            },
            final(self).phase() == if result.is_ok() {
                Phase::Teardown
            } else {
                Phase::Broken
            },
    {
        proof {
            use_type_invariant(&*self);
        }
        match (self.role, self.phase) {
            (Role::Opener, Phase::Running) => {
                self.phase = Phase::Teardown;
                Ok(())
            },
            _ => {
                self.phase = Phase::Broken;
                Err(IpcError::OutOfTurn)
            },
        }
    }
}

} // verus!
