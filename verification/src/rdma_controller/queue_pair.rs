//! The states of a reliable-connected queue pair and the attributes with which
//! it is moved from one to the next.

use super::qp_info::gid_is_zero;
use super::qp_info::DestQpInfo;
use super::RdmaError;
use vstd::prelude::*;

verus! {

/// Size in bytes of the largest packet on the path.
pub const PATH_MTU: u32 = 4096;

/// Shortest wait before a receiver that was not ready is tried again, as the
/// device encodes it.
pub const MIN_RNR_TIMER: u8 = 12;

/// Wait for an acknowledgement, as the device encodes it.
pub const TIMEOUT: u8 = 14;

/// Number of times a request is sent again before it fails.
pub const RETRY_COUNT: u8 = 7;

/// Number of times a request is sent again to a receiver that was not ready.
pub const RNR_RETRY: u8 = 7;

/// Number of reads and atomic operations in flight as initiator.
pub const MAX_RD_ATOMIC: u8 = 1;

/// Number of reads and atomic operations in flight as target.
pub const MAX_DEST_RD_ATOMIC: u8 = 1;

/// Index of the local global identifier in a global routing header.
pub const SGID_INDEX: u8 = 0;

/// Number of routers that a packet with a global routing header may pass.
pub const HOP_LIMIT: u8 = 1;

/// Traffic class of a packet with a global routing header.
pub const TRAFFIC_CLASS: u8 = 0;

/// The service that a queue pair gives.
#[derive(Debug, Clone, Copy, PartialEq, Eq, Structural)]
pub enum QpType {
    /// Messages arrive once and in order, or the send fails.
    ReliableConnected,
    /// Messages may be lost.
    UnreliableConnected,
    /// Single packets to any peer, which may be lost.
    UnreliableDatagram,
}

/// The states that a queue pair passes from its creation until it can send.
#[derive(Debug, Clone, Copy, PartialEq, Eq, Structural)]
pub enum QpState {
    Reset,
    Init,
    Rtr,
    Rts,
}

impl QpState {
    /// Place of the state in the order of a bring-up.
    pub open spec fn rank(self) -> nat {
        match self {
            QpState::Reset => 0,
            QpState::Init => 1,
            QpState::Rtr => 2,
            QpState::Rts => 3,
        }
    }

    pub open spec fn spec_successor(&self) -> Option<QpState> {
        match *self {
            QpState::Reset => Some(QpState::Init),
            QpState::Init => Some(QpState::Rtr),
            QpState::Rtr => Some(QpState::Rts),
            QpState::Rts => None,
        }
    }

    /// The state that a bring-up moves the queue pair to next, or none once it
    /// is ready to send.
    #[verifier::when_used_as_spec(spec_successor)]
    pub fn successor(&self) -> (next: Option<QpState>)
        ensures
            next == self.spec_successor(),
            next matches Some(state) ==> state.rank() == self.rank() + 1,
            next.is_none() <==> *self == QpState::Rts,
    {
        match *self {
            QpState::Reset => Some(QpState::Init),
            QpState::Init => Some(QpState::Rtr),
            QpState::Rtr => Some(QpState::Rts),
            QpState::Rts => None,
        }
    }
}

/// What a peer or the device itself may do to registered memory.
#[derive(Debug, Clone, Copy, PartialEq, Eq, Structural)]
pub struct AccessFlags {
    pub local_write: bool,
    pub remote_write: bool,
    pub remote_read: bool,
    pub remote_atomic: bool,
}

/// The part of an address handle that the global routing header is filled from.
#[derive(Debug, Clone, Copy)]
pub struct GlobalRoute {
    pub dgid: [u8; 16],
    pub sgid_index: u8,
    pub hop_limit: u8,
    pub traffic_class: u8,
}

/// How packets reach the peer. They carry a global routing header exactly where
/// `global_route` is given.
#[derive(Debug, Clone, Copy)]
pub struct AddressHandle {
    pub dlid: u16,
    pub sl: u8,
    pub src_path_bits: u8,
    pub port_num: u8,
    pub global_route: Option<GlobalRoute>,
}

/// The attributes of a queue pair that a bring-up sets. A field that a
/// modification does not name in its mask is zero and the device does not read
/// it.
#[derive(Debug, Clone, Copy)]
pub struct QpAttr {
    pub qp_state: QpState,
    pub pkey_index: u16,
    pub port_num: u8,
    pub qp_access_flags: AccessFlags,
    pub path_mtu: u32,
    pub dest_qp_num: u32,
    pub rq_psn: u32,
    pub max_dest_rd_atomic: u8,
    pub min_rnr_timer: u8,
    pub ah_attr: AddressHandle,
    pub timeout: u8,
    pub retry_cnt: u8,
    pub rnr_retry: u8,
    pub sq_psn: u32,
    pub max_rd_atomic: u8,
}

/// The attributes that a modification asks the device to read.
#[derive(Debug, Clone, Copy, PartialEq, Eq, Structural)]
pub struct AttrMask {
    pub state: bool,
    pub pkey_index: bool,
    pub port: bool,
    pub access_flags: bool,
    pub av: bool,
    pub path_mtu: bool,
    pub dest_qpn: bool,
    pub rq_psn: bool,
    pub max_dest_rd_atomic: bool,
    pub min_rnr_timer: bool,
    pub timeout: bool,
    pub retry_cnt: bool,
    pub rnr_retry: bool,
    pub sq_psn: bool,
    pub max_qp_rd_atomic: bool,
}

/// One call of the device's modify operation.
#[derive(Debug, Clone, Copy)]
pub struct Modification {
    pub attr: QpAttr,
    pub mask: AttrMask,
}

/// Attributes that name nothing: every number zero, no access, no global route.
pub open spec fn blank_attr(state: QpState) -> QpAttr {
    QpAttr {
        qp_state: state,
        pkey_index: 0,
        port_num: 0,
        qp_access_flags: AccessFlags {
            local_write: false,
            remote_write: false,
            remote_read: false,
            remote_atomic: false,
        },
        path_mtu: 0,
        dest_qp_num: 0,
        rq_psn: 0,
        max_dest_rd_atomic: 0,
        min_rnr_timer: 0,
        ah_attr: AddressHandle { dlid: 0, sl: 0, src_path_bits: 0, port_num: 0, global_route: None },
        timeout: 0,
        retry_cnt: 0,
        rnr_retry: 0,
        sq_psn: 0,
        max_rd_atomic: 0,
    }
}

/// A mask that names nothing.
pub open spec fn blank_mask() -> AttrMask {
    AttrMask {
        state: false,
        pkey_index: false,
        port: false,
        access_flags: false,
        av: false,
        path_mtu: false,
        dest_qpn: false,
        rq_psn: false,
        max_dest_rd_atomic: false,
        min_rnr_timer: false,
        timeout: false,
        retry_cnt: false,
        rnr_retry: false,
        sq_psn: false,
        max_qp_rd_atomic: false,
    }
}

/// How packets reach `dest` through the local port `port` at service level
/// `sl`. A peer whose global identifier is all zeros is reached without a global
/// routing header.
pub open spec fn route_to(sl: u8, port: u8, dest: DestQpInfo) -> AddressHandle {
    AddressHandle {
        dlid: dest.lid,
        sl,
        src_path_bits: 0,
        port_num: port,
        global_route: if gid_is_zero(dest@.gid) {
            None
        } else {
            Some(
                GlobalRoute {
                    dgid: dest.gid,
                    sgid_index: SGID_INDEX,
                    hop_limit: HOP_LIMIT,
                    traffic_class: TRAFFIC_CLASS,
                },
            )
        },
    }
}

/// The modification from RESET to INIT: the queue pair is bound to a port and
/// told what access peers have.
pub open spec fn init_modification(port: u8) -> Modification {
    Modification {
        attr: QpAttr {
            pkey_index: 0,
            port_num: port,
            qp_access_flags: AccessFlags {
                local_write: true,
                remote_write: true,
                remote_read: true,
                remote_atomic: true,
            },
            ..blank_attr(QpState::Init)
        },
        mask: AttrMask { state: true, pkey_index: true, port: true, access_flags: true, ..blank_mask() },
    }
}

/// The modification from INIT to RTR: the queue pair learns whom it receives
/// from.
pub open spec fn rtr_modification(sl: u8, port: u8, dest: DestQpInfo) -> Modification {
    Modification {
        attr: QpAttr {
            path_mtu: PATH_MTU,
            dest_qp_num: dest.qpn,
            rq_psn: dest.psn,
            max_dest_rd_atomic: MAX_DEST_RD_ATOMIC,
            min_rnr_timer: MIN_RNR_TIMER,
            ah_attr: route_to(sl, port, dest),
            ..blank_attr(QpState::Rtr)
        },
        mask: AttrMask {
            state: true,
            av: true,
            path_mtu: true,
            dest_qpn: true,
            rq_psn: true,
            max_dest_rd_atomic: true,
            min_rnr_timer: true,
            ..blank_mask()
        },
    }
}

/// The modification from RTR to RTS: the queue pair learns how it sends. The
/// attributes of the step before stay in place; the mask names the new ones.
pub open spec fn rts_modification(sl: u8, port: u8, dest: DestQpInfo) -> Modification {
    Modification {
        attr: QpAttr {
            qp_state: QpState::Rts,
            timeout: TIMEOUT,
            retry_cnt: RETRY_COUNT,
            rnr_retry: RNR_RETRY,
            sq_psn: dest.psn,
            max_rd_atomic: MAX_RD_ATOMIC,
            ..rtr_modification(sl, port, dest).attr
        },
        mask: AttrMask {
            state: true,
            timeout: true,
            retry_cnt: true,
            rnr_retry: true,
            sq_psn: true,
            max_qp_rd_atomic: true,
            ..blank_mask()
        },
    }
}

/// The modification that moves a queue pair on from `from`, or none once it is
/// ready to send. Each names the state that follows `from` and no other.
pub open spec fn modification_from(from: QpState, sl: u8, port: u8, dest: DestQpInfo) -> Option<Modification> {
    match from {
        QpState::Reset => Some(init_modification(port)),
        QpState::Init => Some(rtr_modification(sl, port, dest)),
        QpState::Rtr => Some(rts_modification(sl, port, dest)),
        QpState::Rts => None,
    }
}

fn blank() -> (attr: QpAttr)
    ensures
        attr == blank_attr(QpState::Reset),
{
    QpAttr {
        qp_state: QpState::Reset,
        pkey_index: 0,
        port_num: 0,
        qp_access_flags: AccessFlags {
            local_write: false,
            remote_write: false,
            remote_read: false,
            remote_atomic: false,
        },
        path_mtu: 0,
        dest_qp_num: 0,
        rq_psn: 0,
        max_dest_rd_atomic: 0,
        min_rnr_timer: 0,
        ah_attr: AddressHandle { dlid: 0, sl: 0, src_path_bits: 0, port_num: 0, global_route: None },
        timeout: 0,
        retry_cnt: 0,
        rnr_retry: 0,
        sq_psn: 0,
        max_rd_atomic: 0,
    }
}

fn no_mask() -> (mask: AttrMask)
    ensures
        mask == blank_mask(),
{
    AttrMask {
        state: false,
        pkey_index: false,
        port: false,
        access_flags: false,
        av: false,
        path_mtu: false,
        dest_qpn: false,
        rq_psn: false,
        max_dest_rd_atomic: false,
        min_rnr_timer: false,
        timeout: false,
        retry_cnt: false,
        rnr_retry: false,
        sq_psn: false,
        max_qp_rd_atomic: false,
    }
}

/// One end of a reliable connection, as far as its state goes.
#[derive(Debug, Clone, Copy)]
pub struct QueuePair {
    pub state: QpState,
}

impl QueuePair {
    pub open spec fn spec_state(&self) -> QpState {
        self.state
    }

    /// A queue pair as the device creates it.
    pub fn new() -> (qp: Self)
        ensures
            qp.state() == QpState::Reset,
    {
        Self { state: QpState::Reset }
    }

    /// The state of the queue pair.
    #[verifier::when_used_as_spec(spec_state)]
    pub fn state(&self) -> (state: QpState)
        ensures
            state == self.spec_state(),
    {
        self.state
    }

    /// The modification to ask of the device next, see [`modification_from`].
    pub fn next_modification(&self, sl: u8, port: u8, dest: &DestQpInfo) -> (next: Option<Modification>)
        ensures
            next == modification_from(self.state(), sl, port, *dest),
            next.is_some() <==> self.state() != QpState::Rts,
            next matches Some(modification) ==> {
                &&& modification.mask.state
                &&& Some(modification.attr.qp_state) == self.state().successor()
            },
    {
        match self.state {
            QpState::Reset => {
                let mut attr = blank();
                attr.qp_state = QpState::Init;
                attr.port_num = port;
                attr.qp_access_flags = AccessFlags {
                    local_write: true,
                    remote_write: true,
                    remote_read: true,
                    remote_atomic: true,
                };
                let mut mask = no_mask();
                mask.state = true;
                mask.pkey_index = true;
                mask.port = true;
                mask.access_flags = true;
                Some(Modification { attr, mask })
            },
            QpState::Init => {
                let attr = Self::receive_attr(sl, port, dest);
                let mut mask = no_mask();
                mask.state = true;
                mask.av = true;
                mask.path_mtu = true;
                mask.dest_qpn = true;
                mask.rq_psn = true;
                mask.max_dest_rd_atomic = true;
                mask.min_rnr_timer = true;
                Some(Modification { attr, mask })
            },
            QpState::Rtr => {
                let mut attr = Self::receive_attr(sl, port, dest);
                attr.qp_state = QpState::Rts;
                attr.timeout = TIMEOUT;
                attr.retry_cnt = RETRY_COUNT;
                attr.rnr_retry = RNR_RETRY;
                attr.sq_psn = dest.psn;
                attr.max_rd_atomic = MAX_RD_ATOMIC;
                let mut mask = no_mask();
                mask.state = true;
                mask.timeout = true;
                mask.retry_cnt = true;
                mask.rnr_retry = true;
                mask.sq_psn = true;
                mask.max_qp_rd_atomic = true;
                Some(Modification { attr, mask })
            },
            QpState::Rts => None,
        }
    }

    fn receive_attr(sl: u8, port: u8, dest: &DestQpInfo) -> (attr: QpAttr)
        ensures
            attr == rtr_modification(sl, port, *dest).attr,
    {
        let mut attr = blank();
        attr.qp_state = QpState::Rtr;
        attr.path_mtu = PATH_MTU;
        attr.dest_qp_num = dest.qpn;
        attr.rq_psn = dest.psn;
        attr.max_dest_rd_atomic = MAX_DEST_RD_ATOMIC;
        attr.min_rnr_timer = MIN_RNR_TIMER;
        attr.ah_attr.dlid = dest.lid;
        attr.ah_attr.sl = sl;
        attr.ah_attr.port_num = port;
        if dest.is_global() {
            attr.ah_attr.global_route = Some(
                GlobalRoute {
                    dgid: dest.gid,
                    sgid_index: SGID_INDEX,
                    hop_limit: HOP_LIMIT,
                    traffic_class: TRAFFIC_CLASS,
                },
            );
        }
        attr
    }

    /// Takes note of what the device answered to the modification that
    /// [`QueuePair::next_modification`] gave: zero moves the queue pair to the
    /// next state, anything else leaves it where it was and is an error that
    /// names both states. A queue pair that is ready to send stays so.
    pub fn modified(&mut self, ret: i32) -> (result: Result<(), RdmaError>)
        ensures
            final(self).state() == after_modify(old(self).state(), ret),
            result == match old(self).state().successor() {
                Some(next) => if ret == 0 {
                    Ok(())
                } else {
                    Err(RdmaError::ModifyQpError { from_state: old(self).state(), to_state: next })
                },
                None => Ok(()),
            },
    {
        match self.state.successor() {
            Some(next) => {
                if ret == 0 {
                    self.state = next;
                    Ok(())
                } else {
                    Err(RdmaError::ModifyQpError { from_state: self.state, to_state: next })
                }
            },
            None => Ok(()),
        }
    }
}

/// The state of a queue pair after the device has answered `ret` to the
/// modification that leads on from `state`.
pub open spec fn after_modify(state: QpState, ret: i32) -> QpState {
    match state.successor() {
        Some(next) => if ret == 0 {
            next
        } else {
            state
        },
        None => state,
    }
}

/// The state of a queue pair that began in RESET, after the device has given the
/// answers `answers` to one modification after the other.
pub open spec fn after_answers(answers: Seq<i32>) -> QpState
    decreases answers.len(),
{
    if answers.len() == 0 {
        QpState::Reset
    } else {
        after_modify(after_answers(answers.drop_last()), answers.last())
    }
}

/// Number of answers among `answers` that report success.
pub open spec fn successes(answers: Seq<i32>) -> nat
    decreases answers.len(),
{
    if answers.len() == 0 {
        0
    } else {
        successes(answers.drop_last()) + if answers.last() == 0 {
            1nat
        } else {
            0nat
        }
    }
}

/// A bring-up passes through RESET, INIT, RTR and RTS in this order. Each
/// answer of the device moves the queue pair by one state or not at all, so no
/// state is skipped; the place of the state is the number of modifications that
/// succeeded, up to the three there are, so no transition is made twice and none
/// is undone.
pub proof fn lemma_bring_up_in_order(answers: Seq<i32>)
    ensures
        after_answers(answers).rank() == if successes(answers) <= 3 {
            successes(answers)
        } else {
            3
        },
        answers.len() > 0 ==> {
            let before = after_answers(answers.drop_last());
            let after = after_answers(answers);
            after == before || Some(after) == before.successor()
        },
    decreases answers.len(),
{
    if answers.len() > 0 {
        lemma_bring_up_in_order(answers.drop_last());
    }
}

} // verus!
