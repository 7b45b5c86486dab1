//! The text of an error, for the report that ends the process.

use super::queue_pair::QpState;
use super::work_completion::Opcode;
use super::ConnectionError;
use super::RdmaError;
use vstd::prelude::*;
use vstd::string::StringExecFns;

verus! {

/// The character of a decimal digit.
pub open spec fn digit(value: int) -> char {
    if value == 0 {
        '0'
    } else if value == 1 {
        '1'
    } else if value == 2 {
        '2'
    } else if value == 3 {
        '3'
    } else if value == 4 {
        '4'
    } else if value == 5 {
        '5'
    } else if value == 6 {
        '6'
    } else if value == 7 {
        '7'
    } else if value == 8 {
        '8'
    } else {
        '9'
    }
}

/// A natural number in decimal digits, without leading zeros.
pub open spec fn natural(value: nat) -> Seq<char>
    decreases value,
{
    if value < 10 {
        seq![digit(value as int)]
    } else {
        natural(value / 10).push(digit(value as int % 10))
    }
}

/// An integer in decimal digits, with a minus sign before a negative one.
pub open spec fn decimal(value: int) -> Seq<char> {
    if value < 0 {
        seq!['-'] + natural((-value) as nat)
    } else {
        natural(value as nat)
    }
}

/// `ToString::to_string` of an integer: its decimal digits, with a minus sign
/// before a negative number.
#[verifier::external_body]
fn decimal_string(value: i128) -> (text: String)
    ensures
        text@ == decimal(value as int),
{
    value.to_string()
}

impl QpState {
    /// The name of the state.
    pub open spec fn name(self) -> Seq<char> {
        match self {
            QpState::Reset => "RESET"@,
            QpState::Init => "INIT"@,
            QpState::Rtr => "RTR"@,
            QpState::Rts => "RTS"@,
        }
    }

    fn name_str(&self) -> (name: &'static str)
        ensures
            name@ == self.name(),
    {
        match *self {
            QpState::Reset => "RESET",
            QpState::Init => "INIT",
            QpState::Rtr => "RTR",
            QpState::Rts => "RTS",
        }
    }
}

impl Opcode {
    /// The name of the kind of request.
    pub open spec fn name(self) -> Seq<char> {
        match self {
            Opcode::Send => "SEND"@,
            Opcode::Recv => "RECV"@,
            Opcode::Other => "OTHER"@,
        }
    }

    fn name_str(&self) -> (name: &'static str)
        ensures
            name@ == self.name(),
    {
        match *self {
            Opcode::Send => "SEND",
            Opcode::Recv => "RECV",
            Opcode::Other => "OTHER",
        }
    }
}

/// `prefix` followed by the decimal digits of `value`.
fn numbered(prefix: &str, value: i128) -> (text: String)
    ensures
        text@ == prefix@ + decimal(value as int),
{
    let mut text = String::from_str(prefix);
    let number = decimal_string(value);
    text.append(number.as_str());
    text
}

impl RdmaError {
    /// What the report says of the error.
    pub open spec fn text(self) -> Seq<char> {
        match self {
            RdmaError::GetIbDeviceError => "Failed to get IB device list"@,
            RdmaError::NoSuchDevice => "No IB device of that name"@,
            RdmaError::OpenIbDeviceError => "Failed to open IB device"@,
            RdmaError::AllocPdError => "Failed to allocate protection domain"@,
            RdmaError::QueryPortError(ret) => "Failed to query port with return value "@ + decimal(ret as int),
            RdmaError::PortNotActive => "Port is not active"@,
            RdmaError::QueryDeviceError(ret) => "Failed to query device with return value "@ + decimal(
                ret as int,
            ),
            RdmaError::QueryGidError(ret) => "Failed to query gid with return value "@ + decimal(ret as int),
            RdmaError::CreateCqError => "Failed to create completion queue"@,
            RdmaError::CreateQpError => "Failed to create queue pair"@,
            RdmaError::ModifyQpError { from_state, to_state } => "Failed to modify QP from "@
                + from_state.name() + " to "@ + to_state.name(),
            RdmaError::RegMrError => "Failed to register memory region"@,
            RdmaError::Connection(ConnectionError::TcpListenerError) => "Failed to accept the peer"@,
            RdmaError::Connection(ConnectionError::TcpStreamError) => "Failed to talk to the peer"@,
            RdmaError::PeerMismatch => "Peer sent a malformed identifier"@,
            RdmaError::PollCqError(ret) => "Failed to poll completion queue with return value "@ + decimal(
                ret as int,
            ),
            RdmaError::PostSendError(ret) => "Failed to post send with return value "@ + decimal(ret as int),
            RdmaError::PostRecvError(ret) => "Failed to post recv with return value "@ + decimal(ret as int),
            RdmaError::WorkCompletionError(failed) => "Work completion failed: wr_id "@ + decimal(
                failed.wr_id as int,
            ) + ", opcode "@ + failed.opcode.name() + ", status "@ + decimal(failed.status as int)
                + ", vendor error "@ + decimal(failed.vendor_err as int),
            RdmaError::OutOfRegion => "Buffer is not part of the memory region"@,
            RdmaError::UnexpectedOutcome => "Outcome does not belong to the step in progress"@,
        }
    }

    /// The text of the error, see [`RdmaError::text`].
    pub fn message(&self) -> (message: String)
        ensures
            message@ == self.text(),
    {
        match *self {
            RdmaError::GetIbDeviceError => String::from_str("Failed to get IB device list"),
            RdmaError::NoSuchDevice => String::from_str("No IB device of that name"),
            RdmaError::OpenIbDeviceError => String::from_str("Failed to open IB device"),
            RdmaError::AllocPdError => String::from_str("Failed to allocate protection domain"),
            RdmaError::QueryPortError(ret) => numbered("Failed to query port with return value ", ret as i128),
            RdmaError::PortNotActive => String::from_str("Port is not active"),
            RdmaError::QueryDeviceError(ret) => numbered(
                "Failed to query device with return value ",
                ret as i128,
            ),
            RdmaError::QueryGidError(ret) => numbered("Failed to query gid with return value ", ret as i128),
            RdmaError::CreateCqError => String::from_str("Failed to create completion queue"),
            RdmaError::CreateQpError => String::from_str("Failed to create queue pair"),
            RdmaError::ModifyQpError { from_state, to_state } => {
                let mut text = String::from_str("Failed to modify QP from ");
                text.append(from_state.name_str());
                text.append(" to ");
                text.append(to_state.name_str());
                text
            },
            RdmaError::RegMrError => String::from_str("Failed to register memory region"),
            RdmaError::Connection(ConnectionError::TcpListenerError) => String::from_str(
                "Failed to accept the peer",
            ),
            RdmaError::Connection(ConnectionError::TcpStreamError) => String::from_str(
                "Failed to talk to the peer",
            ),
            RdmaError::PeerMismatch => String::from_str("Peer sent a malformed identifier"),
            RdmaError::PollCqError(ret) => numbered(
                "Failed to poll completion queue with return value ",
                ret as i128,
            ),
            RdmaError::PostSendError(ret) => numbered("Failed to post send with return value ", ret as i128),
            RdmaError::PostRecvError(ret) => numbered("Failed to post recv with return value ", ret as i128),
            RdmaError::WorkCompletionError(failed) => {
                let mut text = numbered("Work completion failed: wr_id ", failed.wr_id as i128);
                text.append(", opcode ");
                text.append(failed.opcode.name_str());
                text.append(", status ");
                text.append(decimal_string(failed.status as i128).as_str());
                text.append(", vendor error ");
                text.append(decimal_string(failed.vendor_err as i128).as_str());
                text
            },
            RdmaError::OutOfRegion => String::from_str("Buffer is not part of the memory region"),
            RdmaError::UnexpectedOutcome => String::from_str("Outcome does not belong to the step in progress"),
        }
    }
}

} // verus!
