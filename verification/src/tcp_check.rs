//! The TCP liveness probe, as an explicit state machine.
//!
//! The probe opens a connection, optionally consumes a greeting banner,
//! signals intent to close by sending `QUIT`, and confirms the peer is
//! still responsive with one final read. The caller owns the socket and the
//! deadline; it reports each I/O step's result as a [`TcpIoEvent`] and this
//! module decides, verified, what the probe's next state and final outcome
//! are. Every failure is a normal outcome carrying a reason, never an
//! error.

use vstd::prelude::*;

use crate::check_result::StatusCheckResult;
use crate::net_addr::SockAddr;
use crate::options::{ConfigError, Options};

verus! {

/// Probes liveness of a line-oriented TCP service.
pub struct NetworkConnectionCheck {
    /// The address the probe connects to.
    pub target_address: SockAddr,
    /// Whether the probe reads and discards a greeting banner before
    /// sending its terminator.
    pub read_initial_response: bool,
}

/// Where the probe stands in its `connect`, optional banner read, `QUIT`
/// write, final read sequence.
pub enum TcpProbeState {
    /// Waiting for the connection to open.
    Connecting,
    /// Connected; waiting for the greeting banner to arrive.
    AwaitingBanner,
    /// Ready to send the `QUIT` terminator.
    SendingTerminator,
    /// Terminator sent; waiting for the peer's acknowledgment.
    AwaitingResponse,
    /// The probe finished with this outcome.
    Done(StatusCheckResult),
}

/// What one I/O step of the caller observed.
pub enum TcpIoEvent {
    /// The connection opened.
    Connected,
    /// The connect failed, with the error text.
    ConnectFailed(String),
    /// The deadline tripped while connecting.
    ConnectTimedOut,
    /// A read returned (its content is discarded, never inspected).
    ReadCompleted,
    /// A read failed, with the error text.
    ReadFailed(String),
    /// The terminator write completed.
    WriteCompleted,
    /// The terminator write failed, with the error text.
    WriteFailed(String),
}

impl TcpProbeState {
    /// Which events can be reported in which state: connect results while
    /// connecting, read results while awaiting bytes, write results while
    /// sending, and nothing once done.
    pub open spec fn accepts(self, event: TcpIoEvent) -> bool {
        match self {
            TcpProbeState::Connecting => event is Connected || event is ConnectFailed
                || event is ConnectTimedOut,
            TcpProbeState::AwaitingBanner => event is ReadCompleted || event is ReadFailed,
            TcpProbeState::SendingTerminator => event is WriteCompleted || event is WriteFailed,
            TcpProbeState::AwaitingResponse => event is ReadCompleted || event is ReadFailed,
            TcpProbeState::Done(_) => false,
        }
    }
}

impl NetworkConnectionCheck {
    /// Builds the probe when a socket address is configured; reading the
    /// initial banner defaults to off.
    pub fn from_options(options: &Options) -> (r: Result<Option<Self>, ConfigError>)
        ensures
            (match options.socket_check_addr {
                None => r matches Ok(None),
                Some(addr) => r matches Ok(Some(c)) && c.target_address == addr
                    && c.read_initial_response == (match options
                    .socket_check_read_initial_response {
                    Some(b) => b,
                    None => false,
                }),
            }),
    {
        match &options.socket_check_addr {
            None => Ok(None),
            Some(addr) => {
                let read_initial_response = match options.socket_check_read_initial_response {
                    Some(b) => b,
                    None => false,
                };
                Ok(Some(Self { target_address: *addr, read_initial_response }))
            },
        }
    }

    /// The stable display name of this check, naming the target.
    pub open spec fn spec_check_name(self) -> Seq<char> {
        "network connection check "@ + self.target_address.spec_chars()
    }

    /// The stable display name of this check, naming the target.
    pub fn check_name(&self) -> (s: String)
        ensures
            s@ == self.spec_check_name(),
    {
        let mut s = "network connection check ".to_owned();
        let addr = self.target_address.to_text();
        s.append(addr.as_str());
        s
    }

    /// The probe's starting state.
    pub fn initial_state(&self) -> (s: TcpProbeState)
        ensures
            s == TcpProbeState::Connecting,
    {
        TcpProbeState::Connecting
    }

    /// Advances the probe by one observed I/O step.
    ///
    /// A refused or timed-out connect, a failed read or a failed write ends
    /// the probe with a failed outcome whose reason distinguishes the step
    /// and, for connect and write errors, names the target address. A
    /// successful connect moves on to the banner read only when one was
    /// asked for; the final read completing ends the probe successfully. No
    /// outcome of this probe is exclusive.
    pub fn step(&self, state: TcpProbeState, event: TcpIoEvent) -> (next: TcpProbeState)
        requires
            state.accepts(event),
        ensures
            (match (state, event) {
                (TcpProbeState::Connecting, TcpIoEvent::Connected) => next == (
                if self.read_initial_response {
                    TcpProbeState::AwaitingBanner
                } else {
                    TcpProbeState::SendingTerminator
                }),
                (TcpProbeState::Connecting, TcpIoEvent::ConnectTimedOut) => next matches
                    TcpProbeState::Done(r) && r@.failure_reason == Some(
                    "timeout connecting to "@ + self.target_address.spec_chars(),
                ) && !r@.ignore_other_results,
                (TcpProbeState::Connecting, TcpIoEvent::ConnectFailed(e)) => next matches
                    TcpProbeState::Done(r) && r@.failure_reason == Some(
                    "error connecting to "@ + self.target_address.spec_chars() + ": "@ + e@,
                ) && !r@.ignore_other_results,
                (TcpProbeState::AwaitingBanner, TcpIoEvent::ReadCompleted) => next
                    == TcpProbeState::SendingTerminator,
                (TcpProbeState::SendingTerminator, TcpIoEvent::WriteCompleted) => next
                    == TcpProbeState::AwaitingResponse,
                (TcpProbeState::SendingTerminator, TcpIoEvent::WriteFailed(e)) => next matches
                    TcpProbeState::Done(r) && r@.failure_reason == Some(
                    "error sending QUIT message to "@ + self.target_address.spec_chars() + ": "@
                        + e@,
                ) && !r@.ignore_other_results,
                (TcpProbeState::AwaitingResponse, TcpIoEvent::ReadCompleted) => next matches
                    TcpProbeState::Done(r) && r@.failure_reason is None
                    && !r@.ignore_other_results,
                (_, TcpIoEvent::ReadFailed(e)) => next matches TcpProbeState::Done(r)
                    && r@.failure_reason == Some("error receiving response: "@ + e@)
                    && !r@.ignore_other_results,
                _ => true,
            }),
    {
        match (state, event) {
            (TcpProbeState::Connecting, TcpIoEvent::Connected) => {
                if self.read_initial_response {
                    TcpProbeState::AwaitingBanner
                } else {
                    TcpProbeState::SendingTerminator
                }
            },
            (TcpProbeState::Connecting, TcpIoEvent::ConnectTimedOut) => {
                let mut reason = "timeout connecting to ".to_owned();
                let addr = self.target_address.to_text();
                reason.append(addr.as_str());
                TcpProbeState::Done(StatusCheckResult::new_failure(reason))
            },
            (TcpProbeState::Connecting, TcpIoEvent::ConnectFailed(e)) => {
                let mut reason = "error connecting to ".to_owned();
                let addr = self.target_address.to_text();
                reason.append(addr.as_str());
                reason.append(": ");
                reason.append(e.as_str());
                TcpProbeState::Done(StatusCheckResult::new_failure(reason))
            },
            (TcpProbeState::AwaitingBanner, TcpIoEvent::ReadCompleted) => {
                TcpProbeState::SendingTerminator
            },
            (TcpProbeState::SendingTerminator, TcpIoEvent::WriteCompleted) => {
                TcpProbeState::AwaitingResponse
            },
            (TcpProbeState::SendingTerminator, TcpIoEvent::WriteFailed(e)) => {
                let mut reason = "error sending QUIT message to ".to_owned();
                let addr = self.target_address.to_text();
                reason.append(addr.as_str());
                reason.append(": ");
                reason.append(e.as_str());
                TcpProbeState::Done(StatusCheckResult::new_failure(reason))
            },
            (TcpProbeState::AwaitingResponse, TcpIoEvent::ReadCompleted) => {
                TcpProbeState::Done(StatusCheckResult::new_success())
            },
            (_, TcpIoEvent::ReadFailed(e)) => {
                let mut reason = "error receiving response: ".to_owned();
                reason.append(e.as_str());
                TcpProbeState::Done(StatusCheckResult::new_failure(reason))
            },
            (other, _) => other,
        }
    }
}

/// The sentinel line the probe writes to signal intent to close:
/// the bytes of `QUIT` followed by a newline.
pub open spec fn spec_terminator() -> Seq<u8> {
    seq![0x51u8, 0x55u8, 0x49u8, 0x54u8, 0x0au8]
}

/// The sentinel line the probe writes to signal intent to close.
pub fn terminator() -> (r: Vec<u8>)
    ensures
        r@ == spec_terminator(),
{
    let mut out: Vec<u8> = Vec::new();
    out.push(0x51);
    out.push(0x55);
    out.push(0x49);
    out.push(0x54);
    out.push(0x0a);
    assert(out@ =~= spec_terminator());
    out
}

} // verus!
