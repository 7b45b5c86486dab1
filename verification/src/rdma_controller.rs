//! The adapter's side of the transport: the records that the two adapters
//! exchange, the parameters of the queue pair, and the order in which a
//! connection is brought up and used.
//!
//! The device, the sockets and the memory are not in reach of this module. It
//! says what to do next, is told how that went, and keeps track of where the
//! bring-up stands; whoever drives it performs the actions.

use self::config::Config;
use self::config::ConnectionType;
use self::config::ServerAddress;
use self::handshake::handshake_recv;
use self::handshake::handshake_registration;
use self::handshake::handshake_send;
use self::handshake::RdmaHandShake;
use self::handshake::HANDSHAKE_BYTES;
use self::memory_region::MemoryRegion;
use self::memory_region::Registration;
use self::qp_info::DestQpInfo;
use self::qp_info::INFO_SIZE;
use self::queue_pair::after_modify;
use self::queue_pair::modification_from;
use self::queue_pair::Modification;
use self::queue_pair::QpState;
use self::queue_pair::QpType;
use self::queue_pair::QueuePair;
use self::send::RecvRequest;
use self::send::SendRequest;
use self::work_completion::FailedCompletion;
use self::work_completion::WorkCompletion;
use vstd::array::spec_array_fill_for_copy_type;
use vstd::prelude::*;

pub mod config;
pub mod data_plane;
pub mod handshake;
pub mod memory_region;
pub mod qp_info;
pub mod queue_pair;
pub mod report;
pub mod send;
pub mod work_completion;

verus! {

/// The port of the device that the adapter uses.
pub const PORT_NUM: u8 = 1;

/// The service level of the connection.
pub const SERVICE_LEVEL: u8 = 0;

/// Number of work requests that each queue of the queue pair holds.
pub const QUEUE_DEPTH: u32 = 8192;

/// Number of scatter-gather elements of a work request.
pub const MAX_SGE: u32 = 1;

/// Number of entries of the completion queue: as many as there are requests in
/// flight at once, which is the two of the handshake.
pub const CQ_CAPACITY: u32 = 2;

/// Largest number of completions that one poll takes.
pub const POLL_BATCH: usize = 16;

/// Whether the connection of an adapter stands. A bring-up makes it `Connected`
/// with its last step and changes nothing before, also where a step fails.
#[derive(Debug, Clone, Copy, PartialEq, Eq, Structural)]
pub enum State {
    Init,
    Connected,
    Disconnected,
    Error,
}

/// What went wrong on the out-of-band connection.
#[derive(Debug, Clone, Copy, PartialEq, Eq, Structural)]
pub enum ConnectionError {
    TcpListenerError,
    TcpStreamError,
}

/// Why a connection could not be brought up or used. Every one of these is
/// fatal: the adapter has no state worth keeping after it.
#[derive(Debug, Clone, Copy, PartialEq, Eq, Structural)]
pub enum RdmaError {
    GetIbDeviceError,
    /// The device list names no device as the configuration does.
    NoSuchDevice,
    OpenIbDeviceError,
    AllocPdError,
    QueryPortError(i32),
    /// The port answered the query but is not active.
    PortNotActive,
    QueryDeviceError(i32),
    QueryGidError(i32),
    CreateCqError,
    CreateQpError,
    ModifyQpError { from_state: QpState, to_state: QpState },
    RegMrError,
    /// The out-of-band connection failed.
    Connection(ConnectionError),
    /// What the peer sent is not an identifier record.
    PeerMismatch,
    /// The poll of the completion queue failed.
    PollCqError(i32),
    /// The device refused a send request.
    PostSendError(i32),
    /// The device refused a receive request.
    PostRecvError(i32),
    /// A polled completion had a status other than success.
    WorkCompletionError(FailedCompletion),
    /// The bytes of a request do not lie in the registered memory, or are more
    /// than one request can name.
    OutOfRegion,
    /// An outcome was reported that the step in progress does not end in.
    UnexpectedOutcome,
}

/// The steps of a bring-up. Each is one action; the next begins when the action
/// has succeeded.
#[derive(Debug, Clone, Copy, PartialEq, Eq, Structural)]
pub enum Stage {
    /// Nothing was asked for yet.
    Idle,
    GetDeviceList,
    OpenDevice,
    AllocPd,
    QueryPort,
    QueryDevice,
    CreateCq,
    CreateQp,
    QueryGid,
    /// The out-of-band connection is made: the server listens and accepts, the
    /// client dials.
    Connect,
    SendInfo,
    ReceiveInfo,
    /// The queue pair is moved to its next state, once for each state that it
    /// has to pass.
    ModifyQp,
    RegisterMemory,
    PostSend,
    PostRecv,
    PollCq,
    Connected,
    Failed,
}

/// What the driver is to do next.
#[derive(Debug, Clone, Copy)]
pub enum Action {
    /// Nothing: no bring-up is in progress.
    Rest,
    GetDeviceList,
    /// Open the device at this place of the device list.
    OpenDevice { device: usize },
    AllocPd,
    QueryPort { port_num: u8 },
    QueryDevice,
    CreateCq { capacity: u32 },
    CreateQp { qp_type: QpType, max_send_wr: u32, max_recv_wr: u32, max_send_sge: u32, max_recv_sge: u32 },
    QueryGid { port_num: u8, index: i32 },
    /// Bind to `port` on every address and accept one connection.
    Listen { port: u16 },
    /// Connect to the server.
    Dial { server_addr: ServerAddress, port: u16 },
    /// Write the encoded identifier record to the connection.
    SendInfo { info: DestQpInfo },
    /// Read `length` bytes from the connection and decode them.
    ReceiveInfo { length: usize },
    ModifyQp { modification: Modification },
    RegisterMemory { registration: Registration },
    /// Store `signal` in the first registered byte and post the request.
    PostSend { send: SendRequest, signal: u8 },
    PostRecv { recv: RecvRequest },
    /// Poll the completion queue once, for at most `batch` entries, without
    /// blocking.
    PollCq { batch: usize },
}

/// How an action went.
pub enum Outcome {
    /// The names of the devices that the device list holds, in the order of the
    /// list, or none where there is no list.
    DeviceList { names: Option<Vec<String>> },
    /// The device gave the object asked for, or none.
    Handle { found: bool },
    /// The device gave a queue pair with this number, or none.
    Created { found: bool, qp_num: u32 },
    /// The answer to a port query: zero for success, whether the port is active,
    /// and its local identifier.
    Port { ret: i32, active: bool, lid: u16 },
    /// The number that the device returned.
    Code { ret: i32 },
    /// The answer to a query for a global identifier.
    Gid { ret: i32, gid: [u8; 16] },
    /// Whether the connection stands, or the bytes were written.
    Link { up: bool },
    /// What the bytes read from the peer decode to.
    Info { info: Option<DestQpInfo> },
    /// The region that the device registered, or none.
    Registered { region: Option<MemoryRegion> },
    /// The entries that one poll took from the completion queue, in order.
    Polled { batch: Vec<WorkCompletion> },
}

/// Where a bring-up stands and what it has learnt so far.
#[derive(Debug, Clone, Copy)]
pub struct Bringup {
    pub state: State,
    pub stage: Stage,
    pub connection_type: ConnectionType,
    pub gid_index: Option<i32>,
    /// Place in the device list of the device to open, once the list was read.
    pub device: usize,
    /// The identifier record of this side, as far as it is known.
    pub local: DestQpInfo,
    /// The identifier record of the peer, once received.
    pub peer: Option<DestQpInfo>,
    pub qp: QueuePair,
    /// The registered bytes of the handshake.
    pub region: Option<MemoryRegion>,
    pub handshake: RdmaHandShake,
}

/// The device at `index` is the first of the list that bears the name `device`.
pub open spec fn first_named(names: Seq<String>, device: Seq<char>, index: int) -> bool {
    &&& 0 <= index < names.len()
    &&& names[index]@ == device
    &&& forall|before: int| 0 <= before < index ==> (#[trigger] names[before])@ != device
}

/// The place in the device list of the device to open: the first that bears the
/// name `device`, or none where the list names no such device.
pub open spec fn device_index(names: Seq<String>, device: Seq<char>) -> Option<int> {
    if exists|index: int| first_named(names, device, index) {
        Some(choose|index: int| first_named(names, device, index))
    } else {
        None
    }
}

/// Finds the device to open in the device list, see [`device_index`].
pub fn select_device(names: &[String], device: &String) -> (found: Option<usize>)
    ensures
        match found {
            Some(index) => first_named(names@, device@, index as int),
            None => forall|index: int| 0 <= index < names@.len() ==> (#[trigger] names@[index])@ != device@,
        },
        found.is_some() <==> device_index(names@, device@).is_some(),
        found matches Some(index) ==> device_index(names@, device@) == Some(index as int),
{
    let mut index: usize = 0;
    while index < names.len()
        invariant
            index <= names@.len(),
            forall|before: int| 0 <= before < index ==> (#[trigger] names@[before])@ != device@,
        decreases names@.len() - index,
    {
        if names[index] == *device {
            proof {
                lemma_first_named_is_unique(names@, device@, index as int);
            }
            return Some(index);
        }
        index += 1;
    }
    assert forall|other: int| !first_named(names@, device@, other) by {
        if 0 <= other < names@.len() {
            assert(names@[other]@ != device@);
        }
    }
    None
}

/// A list has one first device of a name only.
pub proof fn lemma_first_named_is_unique(names: Seq<String>, device: Seq<char>, index: int)
    requires
        first_named(names, device, index),
    ensures
        device_index(names, device) == Some(index),
{
    let chosen = choose|other: int| first_named(names, device, other);
    if chosen < index {
        assert(names[chosen]@ != device);
    } else if index < chosen {
        assert(names[index]@ != device);
    }
}

/// The region can carry a handshake.
pub open spec fn carries_handshake(region: Option<MemoryRegion>) -> bool {
    region matches Some(registered) && registered.spec_length() >= HANDSHAKE_BYTES
}

impl Bringup {
    /// The action of the step in progress.
    pub open spec fn planned(self) -> Action {
        match self.stage {
            Stage::Idle | Stage::Connected | Stage::Failed => Action::Rest,
            Stage::GetDeviceList => Action::GetDeviceList,
            Stage::OpenDevice => Action::OpenDevice { device: self.device },
            Stage::AllocPd => Action::AllocPd,
            Stage::QueryPort => Action::QueryPort { port_num: PORT_NUM },
            Stage::QueryDevice => Action::QueryDevice,
            Stage::CreateCq => Action::CreateCq { capacity: CQ_CAPACITY },
            Stage::CreateQp => Action::CreateQp {
                qp_type: QpType::ReliableConnected,
                max_send_wr: QUEUE_DEPTH,
                max_recv_wr: QUEUE_DEPTH,
                max_send_sge: MAX_SGE,
                max_recv_sge: MAX_SGE,
            },
            Stage::QueryGid => match self.gid_index {
                Some(index) => Action::QueryGid { port_num: PORT_NUM, index },
                None => Action::Rest,
            },
            Stage::Connect => match self.connection_type {
                ConnectionType::Server { port, .. } => Action::Listen { port },
                ConnectionType::Client { server_addr, port, .. } => Action::Dial { server_addr, port },
            },
            Stage::SendInfo => Action::SendInfo { info: self.local },
            Stage::ReceiveInfo => Action::ReceiveInfo { length: INFO_SIZE },
            Stage::ModifyQp => match self.peer {
                Some(peer) => match modification_from(self.qp.state, SERVICE_LEVEL, PORT_NUM, peer) {
                    Some(modification) => Action::ModifyQp { modification },
                    None => Action::Rest,
                },
                None => Action::Rest,
            },
            Stage::RegisterMemory => Action::RegisterMemory { registration: handshake_registration() },
            Stage::PostSend => match self.region {
                Some(region) => if region.spec_length() >= HANDSHAKE_BYTES {
                    Action::PostSend { send: handshake_send(region), signal: self.handshake.signal }
                } else {
                    Action::Rest
                },
                None => Action::Rest,
            },
            Stage::PostRecv => match self.region {
                Some(region) => if region.spec_length() >= HANDSHAKE_BYTES {
                    Action::PostRecv { recv: handshake_recv(region) }
                } else {
                    Action::Rest
                },
                None => Action::Rest,
            },
            Stage::PollCq => Action::PollCq { batch: POLL_BATCH },
        }
    }

    /// What the outcome of the action in progress adds to what is known, or the
    /// error that it amounts to.
    pub open spec fn learnt(self, device: Seq<char>, outcome: Outcome) -> Result<Bringup, RdmaError> {
        match (self.stage, outcome) {
            (Stage::GetDeviceList, Outcome::DeviceList { names }) => match names {
                Some(list) => match device_index(list@, device) {
                    Some(index) => Ok(Bringup { device: index as usize, ..self }),
                    None => Err(RdmaError::NoSuchDevice),
                },
                None => Err(RdmaError::GetIbDeviceError),
            },
            (Stage::OpenDevice, Outcome::Handle { found }) => if found {
                Ok(self)
            } else {
                Err(RdmaError::OpenIbDeviceError)
            },
            (Stage::AllocPd, Outcome::Handle { found }) => if found {
                Ok(self)
            } else {
                Err(RdmaError::AllocPdError)
            },
            (Stage::QueryPort, Outcome::Port { ret, active, lid }) => if ret != 0 {
                Err(RdmaError::QueryPortError(ret))
            } else if !active {
                Err(RdmaError::PortNotActive)
            } else {
                Ok(Bringup { local: DestQpInfo { lid, ..self.local }, ..self })
            },
            (Stage::QueryDevice, Outcome::Code { ret }) => if ret != 0 {
                Err(RdmaError::QueryDeviceError(ret))
            } else {
                Ok(self)
            },
            (Stage::CreateCq, Outcome::Handle { found }) => if found {
                Ok(self)
            } else {
                Err(RdmaError::CreateCqError)
            },
            (Stage::CreateQp, Outcome::Created { found, qp_num }) => if found {
                Ok(Bringup { local: DestQpInfo { qpn: qp_num, ..self.local }, ..self })
            } else {
                Err(RdmaError::CreateQpError)
            },
            (Stage::QueryGid, Outcome::Gid { ret, gid }) => if ret != 0 {
                Err(RdmaError::QueryGidError(ret))
            } else {
                Ok(Bringup { local: DestQpInfo { gid, ..self.local }, ..self })
            },
            (Stage::Connect, Outcome::Link { up }) => if up {
                Ok(self)
            } else if self.connection_type.is_server() {
                Err(RdmaError::Connection(ConnectionError::TcpListenerError))
            } else {
                Err(RdmaError::Connection(ConnectionError::TcpStreamError))
            },
            (Stage::SendInfo, Outcome::Link { up }) => if up {
                Ok(self)
            } else {
                Err(RdmaError::Connection(ConnectionError::TcpStreamError))
            },
            (Stage::ReceiveInfo, Outcome::Info { info }) => match info {
                Some(peer) => Ok(Bringup { peer: Some(peer), ..self }),
                None => Err(RdmaError::PeerMismatch),
            },
            (Stage::ModifyQp, Outcome::Code { ret }) => match self.qp.state.successor() {
                Some(next) => if ret == 0 {
                    Ok(Bringup { qp: QueuePair { state: next }, ..self })
                } else {
                    Err(RdmaError::ModifyQpError { from_state: self.qp.state, to_state: next })
                },
                None => Err(RdmaError::UnexpectedOutcome),
            },
            (Stage::RegisterMemory, Outcome::Registered { region }) => if carries_handshake(region) {
                Ok(Bringup { region, ..self })
            } else {
                Err(RdmaError::RegMrError)
            },
            (Stage::PostSend, Outcome::Code { ret }) => if ret != 0 {
                Err(RdmaError::PostSendError(ret))
            } else {
                Ok(self)
            },
            (Stage::PostRecv, Outcome::Code { ret }) => if ret != 0 {
                Err(RdmaError::PostRecvError(ret))
            } else {
                Ok(self)
            },
            (Stage::PollCq, Outcome::Polled { batch }) => match handshake::absorbed(self.handshake, batch@) {
                Ok(handshake) => Ok(Bringup { handshake, ..self }),
                Err(failed) => Err(RdmaError::WorkCompletionError(failed)),
            },
            _ => Err(RdmaError::UnexpectedOutcome),
        }
    }

    /// The step that follows the one in progress, once its action has
    /// succeeded. The server reads the peer's record before it writes its own;
    /// the client writes first. A side that was given no index of a global
    /// identifier does not ask for one.
    pub open spec fn following(self) -> Stage {
        match self.stage {
            Stage::Idle => Stage::Idle,
            Stage::GetDeviceList => Stage::OpenDevice,
            Stage::OpenDevice => Stage::AllocPd,
            Stage::AllocPd => Stage::QueryPort,
            Stage::QueryPort => Stage::QueryDevice,
            Stage::QueryDevice => Stage::CreateCq,
            Stage::CreateCq => Stage::CreateQp,
            Stage::CreateQp => if self.connection_type.is_server() || self.gid_index.is_none() {
                Stage::Connect
            } else {
                Stage::QueryGid
            },
            Stage::QueryGid => if self.connection_type.is_server() {
                Stage::SendInfo
            } else {
                Stage::Connect
            },
            Stage::Connect => if self.connection_type.is_server() {
                Stage::ReceiveInfo
            } else {
                Stage::SendInfo
            },
            Stage::SendInfo => if self.connection_type.is_server() {
                Stage::ModifyQp
            } else {
                Stage::ReceiveInfo
            },
            Stage::ReceiveInfo => if !self.connection_type.is_server() {
                Stage::ModifyQp
            } else if self.gid_index.is_some() {
                Stage::QueryGid
            } else {
                Stage::SendInfo
            },
            Stage::ModifyQp => if self.qp.state == QpState::Rts {
                Stage::RegisterMemory
            } else {
                Stage::ModifyQp
            },
            Stage::RegisterMemory => Stage::PostSend,
            Stage::PostSend => Stage::PostRecv,
            Stage::PostRecv => Stage::PollCq,
            Stage::PollCq => if self.handshake.is_complete() {
                Stage::Connected
            } else {
                Stage::PollCq
            },
            Stage::Connected => Stage::Connected,
            Stage::Failed => Stage::Failed,
        }
    }

    /// A bring-up is in progress: an action is due and an outcome awaited.
    pub open spec fn in_progress(self) -> bool {
        self.stage != Stage::Idle && self.stage != Stage::Connected && self.stage != Stage::Failed
    }

    /// The bring-up of the device named `device` after an outcome was reported,
    /// and whether it goes on. An error ends a bring-up that is in progress for
    /// good; whether the connection stands is not touched by it. Where none is
    /// in progress the outcome is refused and nothing changes.
    pub open spec fn advanced(self, device: Seq<char>, outcome: Outcome) -> (Bringup, Result<(), RdmaError>) {
        match self.learnt(device, outcome) {
            Ok(learnt) => (
                Bringup {
                    stage: learnt.following(),
                    state: if learnt.following() == Stage::Connected {
                        State::Connected
                    } else {
                        learnt.state
                    },
                    ..learnt
                },
                Ok(()),
            ),
            Err(error) => if self.in_progress() {
                (Bringup { stage: Stage::Failed, ..self }, Err(error))
            } else {
                (self, Err(error))
            },
        }
    }

    /// The bring-up after one outcome after the other was reported.
    pub open spec fn after(self, device: Seq<char>, outcomes: Seq<Outcome>) -> Bringup
        decreases outcomes.len(),
    {
        if outcomes.len() == 0 {
            self
        } else {
            self.after(device, outcomes.drop_last()).advanced(device, outcomes.last()).0
        }
    }

    /// A resource for which no bring-up was asked yet.
    pub open spec fn idle() -> Bringup {
        Bringup {
            state: State::Init,
            stage: Stage::Idle,
            connection_type: ConnectionType::Server { port: 0, message_size: 0 },
            gid_index: None,
            device: 0,
            local: DestQpInfo { lid: 0, qpn: 0, psn: 0, gid: spec_array_fill_for_copy_type(0u8) },
            peer: None,
            qp: QueuePair { state: QpState::Reset },
            region: None,
            handshake: RdmaHandShake { signal: 0, sent: false, received: false },
        }
    }

    /// A bring-up that was asked for with `config` and has not yet taken a
    /// step.
    pub open spec fn begun(connection_type: ConnectionType, gid_index: Option<i32>, signal: u8) -> Bringup {
        Bringup {
            state: State::Init,
            stage: Stage::GetDeviceList,
            connection_type,
            gid_index,
            device: 0,
            local: DestQpInfo { lid: 0, qpn: 0, psn: 0, gid: spec_array_fill_for_copy_type(0u8) },
            peer: None,
            qp: QueuePair { state: QpState::Reset },
            region: None,
            handshake: RdmaHandShake { signal, sent: false, received: false },
        }
    }

    /// What holds of a bring-up at every step: the peer is known from the moment
    /// its record was read; the queue pair is in RESET until its first
    /// modification and ready to send, for good, from the handshake on; the
    /// handshake has its memory while its requests are posted and polled, and
    /// nothing has completed before they are; and the connection counts as made
    /// exactly when the last step is done, with the handshake complete. A step
    /// that fails leaves the connection as it stood.
    pub open spec fn inv(self) -> bool {
        &&& self.stage == Stage::ModifyQp ==> self.peer.is_some() && self.qp.state != QpState::Rts
        &&& self.connection_type.is_server() && (self.stage == Stage::QueryGid || self.stage == Stage::SendInfo)
            ==> self.peer.is_some()
        &&& self.stage == Stage::QueryGid ==> self.gid_index.is_some()
        &&& self.past_modifications() ==> self.peer.is_some() && self.qp.state == QpState::Rts
        &&& !self.past_modifications() && self.stage != Stage::ModifyQp && self.stage != Stage::Failed
            ==> self.qp.state == QpState::Reset
        &&& (self.stage == Stage::PostSend || self.stage == Stage::PostRecv || self.stage == Stage::PollCq)
            ==> carries_handshake(self.region)
        &&& self.stage != Stage::PollCq && self.stage != Stage::Connected && self.stage != Stage::Failed
            ==> !self.handshake.sent && !self.handshake.received
        &&& self.stage == Stage::PollCq ==> !self.handshake.is_complete()
        &&& self.stage == Stage::Connected ==> self.handshake.is_complete()
        &&& self.state == State::Connected <==> self.stage == Stage::Connected
    }

    /// The queue pair has passed all its modifications.
    pub open spec fn past_modifications(self) -> bool {
        self.stage == Stage::RegisterMemory || self.stage == Stage::PostSend || self.stage == Stage::PostRecv
            || self.stage == Stage::PollCq || self.stage == Stage::Connected
    }
}

/// The bring-up of one connection: the device objects are the driver's, the
/// order of the steps and what each is given are decided here.
pub struct IbResource {
    inner: Bringup,
    dev_name: String,
}

impl View for IbResource {
    type V = Bringup;

    closed spec fn view(&self) -> Bringup {
        self.inner
    }
}

impl IbResource {
    #[verifier::type_invariant]
    spec fn well_formed(self) -> bool {
        self.inner.inv()
    }

    /// The name of the device to open.
    pub closed spec fn device(&self) -> Seq<char> {
        self.dev_name@
    }

    /// A resource for which no bring-up was asked yet.
    pub fn new() -> (resource: Self)
        ensures
            resource@ == Bringup::idle(),
            resource@.inv(),
    {
        Self {
            inner: Bringup {
                state: State::Init,
                stage: Stage::Idle,
                connection_type: ConnectionType::Server { port: 0, message_size: 0 },
                gid_index: None,
                device: 0,
                local: DestQpInfo { lid: 0, qpn: 0, psn: 0, gid: [0u8; 16] },
                peer: None,
                qp: QueuePair::new(),
                region: None,
                handshake: RdmaHandShake::new(0),
            },
            dev_name: String::new(),
        }
    }

    /// Begins the bring-up that `config` describes; [`IbResource::action`] then
    /// names its first step. The byte that the handshake will send is drawn at
    /// random, so the contract leaves it open. A resource that was already
    /// asked to bring a connection up refuses and stays as it is.
    pub fn setup_ib(&mut self, config: Config) -> (result: Result<(), RdmaError>)
        ensures
            final(self)@.inv(),
            old(self)@.stage == Stage::Idle ==> {
                &&& result.is_ok()
                &&& final(self).device() == config.dev_name@
                &&& final(self)@ == Bringup::begun(
                    config.connection_type,
                    config.gid_index,
                    final(self)@.handshake.signal,
                )
            },
            old(self)@.stage != Stage::Idle ==> {
                &&& result == Err::<(), RdmaError>(RdmaError::UnexpectedOutcome)
                &&& final(self)@ == old(self)@
                &&& final(self).device() == old(self).device()
            },
    {
        proof {
            use_type_invariant(&*self);
        }
        if self.inner.stage != Stage::Idle {
            return Err(RdmaError::UnexpectedOutcome);
        }
        let inner = Bringup {
            state: State::Init,
            stage: Stage::GetDeviceList,
            connection_type: config.connection_type,
            gid_index: config.gid_index,
            device: 0,
            local: DestQpInfo { lid: 0, qpn: 0, psn: 0, gid: [0u8; 16] },
            peer: None,
            qp: QueuePair::new(),
            region: None,
            handshake: RdmaHandShake::random(),
        };
        self.inner = inner;
        self.dev_name = config.dev_name;
        Ok(())
    }

    /// Whether the connection stands.
    pub fn state(&self) -> (state: State)
        ensures
            state == self@.state,
    {
        self.inner.state
    }

    /// The step in progress.
    pub fn stage(&self) -> (stage: Stage)
        ensures
            stage == self@.stage,
    {
        self.inner.stage
    }

    /// The state of the queue pair.
    pub fn qp_state(&self) -> (state: QpState)
        ensures
            state == self@.qp.state,
    {
        self.inner.qp.state
    }

    /// The name of the device to open.
    pub fn dev_name(&self) -> (name: &String)
        ensures
            name@ == self.device(),
    {
        &self.dev_name
    }

    /// The identifier record of the peer, once it was received.
    pub fn peer(&self) -> (peer: Option<DestQpInfo>)
        ensures
            peer == self@.peer,
    {
        self.inner.peer
    }

    /// What to do next. While a bring-up is in progress there is always
    /// something to do.
    pub fn action(&self) -> (action: Action)
        ensures
            action == self@.planned(),
            self@.stage != Stage::Idle && self@.stage != Stage::Connected && self@.stage != Stage::Failed
                ==> !(action is Rest),
    {
        proof {
            use_type_invariant(self);
        }
        match self.inner.stage {
            Stage::Idle | Stage::Connected | Stage::Failed => Action::Rest,
            Stage::GetDeviceList => Action::GetDeviceList,
            Stage::OpenDevice => Action::OpenDevice { device: self.inner.device },
            Stage::AllocPd => Action::AllocPd,
            Stage::QueryPort => Action::QueryPort { port_num: PORT_NUM },
            Stage::QueryDevice => Action::QueryDevice,
            Stage::CreateCq => Action::CreateCq { capacity: CQ_CAPACITY },
            Stage::CreateQp => Action::CreateQp {
                qp_type: QpType::ReliableConnected,
                max_send_wr: QUEUE_DEPTH,
                max_recv_wr: QUEUE_DEPTH,
                max_send_sge: MAX_SGE,
                max_recv_sge: MAX_SGE,
            },
            Stage::QueryGid => match self.inner.gid_index {
                Some(index) => Action::QueryGid { port_num: PORT_NUM, index },
                None => Action::Rest,
            },
            Stage::Connect => match self.inner.connection_type {
                ConnectionType::Server { port, .. } => Action::Listen { port },
                ConnectionType::Client { server_addr, port, .. } => Action::Dial { server_addr, port },
            },
            Stage::SendInfo => Action::SendInfo { info: self.inner.local },
            Stage::ReceiveInfo => Action::ReceiveInfo { length: INFO_SIZE },
            Stage::ModifyQp => match self.inner.peer {
                Some(peer) => match self.inner.qp.next_modification(SERVICE_LEVEL, PORT_NUM, &peer) {
                    Some(modification) => Action::ModifyQp { modification },
                    None => Action::Rest,
                },
                None => Action::Rest,
            },
            Stage::RegisterMemory => Action::RegisterMemory { registration: RdmaHandShake::registration() },
            Stage::PostSend => match self.inner.region {
                Some(region) => if region.length() >= HANDSHAKE_BYTES {
                    Action::PostSend {
                        send: RdmaHandShake::send_request(&region),
                        signal: self.inner.handshake.signal,
                    }
                } else {
                    Action::Rest
                },
                None => Action::Rest,
            },
            Stage::PostRecv => match self.inner.region {
                Some(region) => if region.length() >= HANDSHAKE_BYTES {
                    Action::PostRecv { recv: RdmaHandShake::recv_request(&region) }
                } else {
                    Action::Rest
                },
                None => Action::Rest,
            },
            Stage::PollCq => Action::PollCq { batch: POLL_BATCH },
        }
    }

    /// Takes note of how the action went that [`IbResource::action`] named, and
    /// moves on to the next step or fails for good: see [`Bringup::advanced`].
    /// A failure leaves [`IbResource::state`] as it was.
    pub fn handle(&mut self, outcome: Outcome) -> (result: Result<(), RdmaError>)
        ensures
            (final(self)@, result) == old(self)@.advanced(old(self).device(), outcome),
            final(self).device() == old(self).device(),
            final(self)@.inv(),
    {
        proof {
            use_type_invariant(&*self);
        }
        match self.learn(outcome) {
            Ok(learnt) => {
                let stage = Self::next_stage(&learnt);
                let state = if stage == Stage::Connected {
                    State::Connected
                } else {
                    learnt.state
                };
                self.inner = Bringup { stage, state, ..learnt };
                Ok(())
            },
            Err(error) => {
                match self.inner.stage {
                    Stage::Idle | Stage::Connected | Stage::Failed => {},
                    _ => {
                        self.inner = Bringup { stage: Stage::Failed, ..self.inner };
                    },
                }
                Err(error)
            },
        }
    }

    /// The completions that a poll took: the first `polled` entries of the
    /// buffer that was handed to the device, in order. A negative count is the
    /// device's report of a failure, and a count beyond the buffer is no answer
    /// to the poll. Polling is the driver's part.
    pub fn poll_cq(&self, polled: i32, buffer: &[WorkCompletion]) -> (batch: Result<Vec<WorkCompletion>, RdmaError>)
        ensures
            match batch {
                Ok(completions) => 0 <= polled <= buffer@.len() && completions@ == buffer@.take(polled as int),
                Err(error) => (polled < 0 || polled > buffer@.len()) && error == RdmaError::PollCqError(polled),
            },
    {
        if polled < 0 || polled as usize > buffer.len() {
            return Err(RdmaError::PollCqError(polled));
        }
        let count: usize = polled as usize;
        let mut completions: Vec<WorkCompletion> = Vec::new();
        let mut index: usize = 0;
        while index < count
            invariant
                index <= count <= buffer@.len(),
                completions@ == buffer@.take(index as int),
            decreases count - index,
        {
            completions.push(buffer[index]);
            index += 1;
        }
        Ok(completions)
    }

    fn learn(&self, outcome: Outcome) -> (learnt: Result<Bringup, RdmaError>)
        ensures
            learnt == self@.learnt(self.device(), outcome),
    {
        let known = self.inner;
        match (known.stage, outcome) {
            (Stage::GetDeviceList, Outcome::DeviceList { names }) => match names {
                Some(list) => match select_device(list.as_slice(), &self.dev_name) {
                    Some(index) => Ok(Bringup { device: index, ..known }),
                    None => Err(RdmaError::NoSuchDevice),
                },
                None => Err(RdmaError::GetIbDeviceError),
            },
            (Stage::OpenDevice, Outcome::Handle { found }) => if found {
                Ok(known)
            } else {
                Err(RdmaError::OpenIbDeviceError)
            },
            (Stage::AllocPd, Outcome::Handle { found }) => if found {
                Ok(known)
            } else {
                Err(RdmaError::AllocPdError)
            },
            (Stage::QueryPort, Outcome::Port { ret, active, lid }) => if ret != 0 {
                Err(RdmaError::QueryPortError(ret))
            } else if !active {
                Err(RdmaError::PortNotActive)
            } else {
                Ok(Bringup { local: DestQpInfo { lid, ..known.local }, ..known })
            },
            (Stage::QueryDevice, Outcome::Code { ret }) => if ret != 0 {
                Err(RdmaError::QueryDeviceError(ret))
            } else {
                Ok(known)
            },
            (Stage::CreateCq, Outcome::Handle { found }) => if found {
                Ok(known)
            } else {
                Err(RdmaError::CreateCqError)
            },
            (Stage::CreateQp, Outcome::Created { found, qp_num }) => if found {
                Ok(Bringup { local: DestQpInfo { qpn: qp_num, ..known.local }, ..known })
            } else {
                Err(RdmaError::CreateQpError)
            },
            (Stage::QueryGid, Outcome::Gid { ret, gid }) => if ret != 0 {
                Err(RdmaError::QueryGidError(ret))
            } else {
                Ok(Bringup { local: DestQpInfo { gid, ..known.local }, ..known })
            },
            (Stage::Connect, Outcome::Link { up }) => if up {
                Ok(known)
            } else if known.connection_type.is_server() {
                Err(RdmaError::Connection(ConnectionError::TcpListenerError))
            } else {
                Err(RdmaError::Connection(ConnectionError::TcpStreamError))
            },
            (Stage::SendInfo, Outcome::Link { up }) => if up {
                Ok(known)
            } else {
                Err(RdmaError::Connection(ConnectionError::TcpStreamError))
            },
            (Stage::ReceiveInfo, Outcome::Info { info }) => match info {
                Some(peer) => Ok(Bringup { peer: Some(peer), ..known }),
                None => Err(RdmaError::PeerMismatch),
            },
            (Stage::ModifyQp, Outcome::Code { ret }) => {
                let mut qp = known.qp;
                match known.qp.state().successor() {
                    Some(next) => match qp.modified(ret) {
                        Ok(()) => Ok(Bringup { qp, ..known }),
                        Err(error) => Err(error),
                    },
                    None => Err(RdmaError::UnexpectedOutcome),
                }
            },
            (Stage::RegisterMemory, Outcome::Registered { region }) => {
                let carries = match region {
                    Some(registered) => registered.length() >= HANDSHAKE_BYTES,
                    None => false,
                };
                if carries {
                    Ok(Bringup { region, ..known })
                } else {
                    Err(RdmaError::RegMrError)
                }
            },
            (Stage::PostSend, Outcome::Code { ret }) => if ret != 0 {
                Err(RdmaError::PostSendError(ret))
            } else {
                Ok(known)
            },
            (Stage::PostRecv, Outcome::Code { ret }) => if ret != 0 {
                Err(RdmaError::PostRecvError(ret))
            } else {
                Ok(known)
            },
            (Stage::PollCq, Outcome::Polled { batch }) => {
                let mut handshake = known.handshake;
                match handshake.absorb(batch.as_slice()) {
                    Ok(()) => Ok(Bringup { handshake, ..known }),
                    Err(error) => Err(error),
                }
            },
            _ => Err(RdmaError::UnexpectedOutcome),
        }
    }

    fn next_stage(known: &Bringup) -> (stage: Stage)
        ensures
            stage == known.following(),
    {
        let server = known.connection_type.is_server();
        match known.stage {
            Stage::Idle => Stage::Idle,
            Stage::GetDeviceList => Stage::OpenDevice,
            Stage::OpenDevice => Stage::AllocPd,
            Stage::AllocPd => Stage::QueryPort,
            Stage::QueryPort => Stage::QueryDevice,
            Stage::QueryDevice => Stage::CreateCq,
            Stage::CreateCq => Stage::CreateQp,
            Stage::CreateQp => if server || known.gid_index.is_none() {
                Stage::Connect
            } else {
                Stage::QueryGid
            },
            Stage::QueryGid => if server {
                Stage::SendInfo
            } else {
                Stage::Connect
            },
            Stage::Connect => if server {
                Stage::ReceiveInfo
            } else {
                Stage::SendInfo
            },
            Stage::SendInfo => if server {
                Stage::ModifyQp
            } else {
                Stage::ReceiveInfo
            },
            Stage::ReceiveInfo => if !server {
                Stage::ModifyQp
            } else if known.gid_index.is_some() {
                Stage::QueryGid
            } else {
                Stage::SendInfo
            },
            Stage::ModifyQp => if known.qp.state() == QpState::Rts {
                Stage::RegisterMemory
            } else {
                Stage::ModifyQp
            },
            Stage::RegisterMemory => Stage::PostSend,
            Stage::PostSend => Stage::PostRecv,
            Stage::PostRecv => Stage::PollCq,
            Stage::PollCq => if known.handshake.is_complete() {
                Stage::Connected
            } else {
                Stage::PollCq
            },
            Stage::Connected => Stage::Connected,
            Stage::Failed => Stage::Failed,
        }
    }
}

/// A bring-up that was just asked for keeps the invariant.
pub proof fn lemma_begun_keeps_invariant(connection_type: ConnectionType, gid_index: Option<i32>, signal: u8)
    ensures
        Bringup::begun(connection_type, gid_index, signal).inv(),
{
}

/// Every report of an outcome keeps the invariant. In a bring-up that keeps it,
/// every step that is in progress has an action to take.
pub proof fn lemma_advance_keeps_invariant(bringup: Bringup, device: Seq<char>, outcome: Outcome)
    requires
        bringup.inv(),
    ensures
        bringup.advanced(device, outcome).0.inv(),
        bringup.in_progress() ==> !(bringup.planned() is Rest),
{
}

/// A step that fails ends the bring-up and leaves untouched whether the
/// connection stands: after a null device list the resource is as it was made,
/// but for the step it failed in, and nothing more is asked of the device.
pub proof fn lemma_failure_keeps_state(bringup: Bringup, device: Seq<char>, outcome: Outcome)
    requires
        bringup.advanced(device, outcome).1 is Err,
    ensures
        ({
            let after = bringup.advanced(device, outcome).0;
            &&& after.state == bringup.state
            &&& after == (Bringup { stage: after.stage, ..bringup })
            &&& bringup.in_progress() ==> after.stage == Stage::Failed && after.planned() is Rest
            &&& !bringup.in_progress() ==> after == bringup
        }),
{
}

/// The device that is opened is the first of the device list that bears the
/// configured name; a list without it ends the bring-up.
pub proof fn lemma_named_device_is_opened(bringup: Bringup, device: Seq<char>, names: Vec<String>)
    requires
        bringup.stage == Stage::GetDeviceList,
    ensures
        ({
            let reported = bringup.advanced(device, Outcome::DeviceList { names: Some(names) });
            match device_index(names@, device) {
                Some(index) => {
                    &&& reported.1 is Ok
                    &&& reported.0.planned() == (Action::OpenDevice { device: index as usize })
                    &&& first_named(names@, device, index)
                },
                None => reported.1 == Err::<(), RdmaError>(RdmaError::NoSuchDevice),
            }
        }),
{
}

/// The queue pair of a bring-up passes through RESET, INIT, RTR and RTS in this
/// order: a report moves it to the state that follows or leaves it where it is,
/// and it moves only when the device has answered zero to the modification that
/// names that state. The connection counts as made only with the queue pair
/// ready to send.
pub proof fn lemma_queue_pair_in_order(bringup: Bringup, device: Seq<char>, outcome: Outcome)
    requires
        bringup.inv(),
    ensures
        ({
            let after = bringup.advanced(device, outcome).0;
            &&& after.qp.state == bringup.qp.state || Some(after.qp.state) == bringup.qp.state.successor()
            &&& after.qp.state != bringup.qp.state ==> {
                &&& bringup.stage == Stage::ModifyQp
                &&& outcome == (Outcome::Code { ret: 0 })
                &&& bringup.planned() matches Action::ModifyQp { modification }
                &&& modification.attr.qp_state == after.qp.state
                &&& after.qp.state == after_modify(bringup.qp.state, 0)
            }
            &&& after.state == State::Connected ==> after.qp.state == QpState::Rts
        }),
{
}

/// Whatever is reported to a bring-up, and in whatever order, its queue pair
/// never goes back to a state it has left: it is at every moment at least as
/// far as it was at any moment before. Together with
/// [`lemma_queue_pair_in_order`] this means that it passes through its states
/// in order, one at a time, and makes no transition twice.
pub proof fn lemma_queue_pair_never_goes_back(
    bringup: Bringup,
    device: Seq<char>,
    outcomes: Seq<Outcome>,
    earlier: int,
)
    requires
        bringup.inv(),
        0 <= earlier <= outcomes.len(),
    ensures
        bringup.after(device, outcomes).inv(),
        bringup.after(device, outcomes.take(earlier)).qp.state.rank() <= bringup.after(
            device,
            outcomes,
        ).qp.state.rank(),
        bringup.after(device, outcomes).state == State::Connected ==> bringup.after(device, outcomes).qp.state
            == QpState::Rts,
    decreases outcomes.len(),
{
    if earlier == outcomes.len() {
        assert(outcomes.take(earlier) =~= outcomes);
        if outcomes.len() > 0 {
            lemma_queue_pair_never_goes_back(bringup, device, outcomes.drop_last(), earlier - 1);
        }
    } else {
        assert(outcomes.drop_last().take(earlier) =~= outcomes.take(earlier));
        lemma_queue_pair_never_goes_back(bringup, device, outcomes.drop_last(), earlier);
    }
}

} // verus!
