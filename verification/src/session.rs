//! The rendezvous state machines for the two transfer roles.
//!
//! Each role is a straight-line protocol: the host shell performs one socket
//! operation at a time and feeds its outcome back as an event; the step
//! function decides the next state and the next action.  All decisions —
//! which address to bind or dial, what to send as the trigger notification,
//! and which message the session ends with — are made here; the shell only
//! executes them.
//!
//! Send side (the device holding the file): bind a listener on the supplied
//! rendezvous port, accept one inbound connection purely to learn the peer's
//! address, dial the peer back on the fixed data port, and pump the file
//! into that connection.
//!
//! Receive side (the device wanting the file): bind a listener on the fixed
//! data port, dial the peer's rendezvous port and send the trigger
//! notification, then accept the peer's dial-back and pump the connection
//! into the file.
//!
//! The data connection is only ever reached through the rendezvous steps:
//! from the initial state, `RunPump` is issued only after a bind, an
//! accept (send side: to discover the peer) or a notification (receive
//! side), and a second accept or dial have all succeeded, as the step
//! contracts pin transition by transition.

use vstd::prelude::*;
use vstd::string::StrSliceExecFns;
use vstd::string::StringExecFns;

use crate::pump::PumpOutcome;
use crate::report::accept_error_message;
use crate::report::accept_error_text;
use crate::report::bind_error_message;
use crate::report::bind_error_text;
use crate::report::connect_back_error_message;
use crate::report::connect_back_error_text;
use crate::report::dec_rep;
use crate::report::local_bind_error_message;
use crate::report::local_bind_error_text;
use crate::report::notify_error_message;
use crate::report::notify_error_text;
use crate::report::receive_incomplete_message;
use crate::report::receive_incomplete_text;
use crate::report::receive_success_message;
use crate::report::receive_success_text;
use crate::report::send_incomplete_message;
use crate::report::send_incomplete_text;
use crate::report::send_success_message;
use crate::report::send_success_text;
use crate::report::u64_to_decimal;

verus! {

/// The fixed port the data-plane connection uses.
pub const DATA_PORT: u16 = 24243;

/// Text of a local listening address on the given port, on all interfaces.
pub open spec fn listen_addr_text(port: int) -> Seq<char> {
    "0.0.0.0:"@ + dec_rep(port)
}

/// Text of a peer address from its host and port.
pub open spec fn peer_addr_text(host: Seq<char>, port: int) -> Seq<char> {
    host + ":"@ + dec_rep(port)
}

/// The bytes of the trigger notification the receiver sends to the peer's
/// rendezvous port: the ASCII text `NOTIFY_RECEIVE_READY`.
pub open spec fn notify_payload_text() -> Seq<char> {
    "NOTIFY_RECEIVE_READY"@
}

/// Builds the local listening address for the given port.
pub fn listen_addr(port: u16) -> (r: String)
    ensures
        r@ == listen_addr_text(port as int),
{
    let mut s = "0.0.0.0:".to_owned();
    let num = u64_to_decimal(port as u64);
    s.append(num.as_str());
    s
}

/// Builds the listening address for the fixed data port.
pub fn data_listen_addr() -> (r: String)
    ensures
        r@ == listen_addr_text(DATA_PORT as int),
{
    listen_addr(DATA_PORT)
}

/// Builds a peer address from its host and port.
pub fn peer_addr(host: &str, port: u16) -> (r: String)
    ensures
        r@ == peer_addr_text(host@, port as int),
{
    let mut s = host.to_owned();
    s.append(":");
    let num = u64_to_decimal(port as u64);
    s.append(num.as_str());
    proof {
        assert(s@ =~= peer_addr_text(host@, port as int));
    }
    s
}

/// Builds the address the send side dials back: the discovered peer host on
/// the fixed data port.
pub fn dial_back_addr(host: &str) -> (r: String)
    ensures
        r@ == peer_addr_text(host@, DATA_PORT as int),
{
    peer_addr(host, DATA_PORT)
}

/// The phases of a send session, in protocol order.
#[derive(Clone, Copy, PartialEq, Eq, Structural, Debug)]
pub enum SendState {
    /// Binding the rendezvous listener.
    AwaitBind,
    /// Waiting for the peer's inbound connection, to learn its address.
    AwaitAccept,
    /// Dialing the peer back on the data port.
    AwaitConnect,
    /// Pumping the file into the data connection.
    Streaming,
    /// The session ended; its result message was issued.
    Done,
}

/// The outcome of the socket operation a send session last asked for.
/// Failure events carry the system error text.
#[derive(Debug)]
pub enum SendEvent {
    BindOk,
    BindFailed(String),
    /// The accepted connection's remote host, as text.
    AcceptOk(String),
    AcceptFailed(String),
    ConnectOk,
    ConnectFailed(String),
    PumpDone(PumpOutcome),
}

/// What the host shell is to do next for a send session.
#[derive(Debug)]
pub enum SendAction {
    /// Wait for one inbound connection on the rendezvous listener.
    WaitAccept,
    /// Open an outbound connection to the given address.
    Dial(String),
    /// Pump the file into the data connection.
    RunPump,
    /// The session is over; hand this message to the caller.
    Finish(String),
}

/// Which events can occur in which send-session phase.
pub open spec fn send_event_fits(s: SendState, e: SendEvent) -> bool {
    match s {
        SendState::AwaitBind => e is BindOk || e is BindFailed,
        SendState::AwaitAccept => e is AcceptOk || e is AcceptFailed,
        SendState::AwaitConnect => e is ConnectOk || e is ConnectFailed,
        SendState::Streaming => e is PumpDone,
        SendState::Done => false,
    }
}

/// One step of the send session: from the current phase and the outcome of
/// the last socket operation to the next phase and the next action.
///
/// Every failure is terminal: the session moves to `Done` with a message
/// naming the failed step, and never retries.  In particular, a bind
/// failure (the rendezvous port already taken) ends the session with the
/// bind failure message rather than aborting the caller.
pub fn send_step(s: SendState, e: SendEvent) -> (r: (SendState, SendAction))
    requires
        send_event_fits(s, e),
    ensures
        e is BindOk ==> r.0 is AwaitAccept && r.1 is WaitAccept,
        e matches SendEvent::BindFailed(d) ==> {
            &&& r.0 is Done
            &&& r.1 matches SendAction::Finish(m) && m@ == bind_error_text(d@)
        },
        e matches SendEvent::AcceptOk(host) ==> {
            &&& r.0 is AwaitConnect
            &&& r.1 matches SendAction::Dial(a) && a@ == peer_addr_text(
                host@,
                DATA_PORT as int,
            )
        },
        e matches SendEvent::AcceptFailed(d) ==> {
            &&& r.0 is Done
            &&& r.1 matches SendAction::Finish(m) && m@ == accept_error_text(d@)
        },
        e is ConnectOk ==> r.0 is Streaming && r.1 is RunPump,
        e matches SendEvent::ConnectFailed(d) ==> {
            &&& r.0 is Done
            &&& r.1 matches SendAction::Finish(m) && m@ == connect_back_error_text(d@)
        },
        e == SendEvent::PumpDone(PumpOutcome::Complete) ==> {
            &&& r.0 is Done
            &&& r.1 matches SendAction::Finish(m) && m@ == send_success_text()
        },
        e == SendEvent::PumpDone(PumpOutcome::Aborted) ==> {
            &&& r.0 is Done
            &&& r.1 matches SendAction::Finish(m) && m@ == send_incomplete_text()
        },
{
    match e {
        SendEvent::BindOk => (SendState::AwaitAccept, SendAction::WaitAccept),
        SendEvent::BindFailed(d) => (
            SendState::Done,
            SendAction::Finish(bind_error_message(d.as_str())),
        ),
        SendEvent::AcceptOk(host) => (
            SendState::AwaitConnect,
            SendAction::Dial(dial_back_addr(host.as_str())),
        ),
        SendEvent::AcceptFailed(d) => (
            SendState::Done,
            SendAction::Finish(accept_error_message(d.as_str())),
        ),
        SendEvent::ConnectOk => (SendState::Streaming, SendAction::RunPump),
        SendEvent::ConnectFailed(d) => (
            SendState::Done,
            SendAction::Finish(connect_back_error_message(d.as_str())),
        ),
        SendEvent::PumpDone(PumpOutcome::Complete) => (
            SendState::Done,
            SendAction::Finish(send_success_message()),
        ),
        SendEvent::PumpDone(PumpOutcome::Aborted) => (
            SendState::Done,
            SendAction::Finish(send_incomplete_message()),
        ),
    }
}

/// The phases of a receive session, in protocol order.
#[derive(Clone, Copy, PartialEq, Eq, Structural, Debug)]
pub enum RecvState {
    /// Binding the data-port listener.
    AwaitBind,
    /// Dialing the peer's rendezvous port to send the trigger notification.
    AwaitNotify,
    /// Waiting for the peer's dial-back on the data port.
    AwaitAccept,
    /// Pumping the data connection into the file.
    Streaming,
    /// The session ended; its result message was issued.
    Done,
}

/// The outcome of the socket operation a receive session last asked for.
///
/// `NotifyOk` means the notification connection was established; whether
/// writing the payload itself succeeded is deliberately ignored, as the
/// notification is best-effort once the peer is reachable.
#[derive(Debug)]
pub enum RecvEvent {
    BindOk,
    BindFailed(String),
    NotifyOk,
    NotifyFailed,
    AcceptOk,
    AcceptFailed(String),
    PumpDone(PumpOutcome),
}

/// What the host shell is to do next for a receive session.
#[derive(Debug)]
pub enum RecvAction {
    /// Dial the peer's rendezvous address and send the notification payload.
    Notify,
    /// Wait for one inbound connection on the data-port listener.
    WaitAccept,
    /// Pump the data connection into the file.
    RunPump,
    /// The session is over; hand this message to the caller.
    Finish(String),
}

/// Which events can occur in which receive-session phase.
pub open spec fn recv_event_fits(s: RecvState, e: RecvEvent) -> bool {
    match s {
        RecvState::AwaitBind => e is BindOk || e is BindFailed,
        RecvState::AwaitNotify => e is NotifyOk || e is NotifyFailed,
        RecvState::AwaitAccept => e is AcceptOk || e is AcceptFailed,
        RecvState::Streaming => e is PumpDone,
        RecvState::Done => false,
    }
}

/// One step of the receive session: from the current phase and the outcome
/// of the last socket operation to the next phase and the next action.
///
/// Every failure is terminal.  When the peer cannot be reached with the
/// notification, the session ends at once with the notify failure message —
/// it does not go on to wait for a dial-back that can never come.
pub fn recv_step(s: RecvState, e: RecvEvent) -> (r: (RecvState, RecvAction))
    requires
        recv_event_fits(s, e),
    ensures
        e is BindOk ==> r.0 is AwaitNotify && r.1 is Notify,
        e matches RecvEvent::BindFailed(d) ==> {
            &&& r.0 is Done
            &&& r.1 matches RecvAction::Finish(m) && m@ == local_bind_error_text(d@)
        },
        e is NotifyOk ==> r.0 is AwaitAccept && r.1 is WaitAccept,
        e is NotifyFailed ==> {
            &&& r.0 is Done
            &&& r.1 matches RecvAction::Finish(m) && m@ == notify_error_text()
        },
        e is AcceptOk ==> r.0 is Streaming && r.1 is RunPump,
        e matches RecvEvent::AcceptFailed(d) ==> {
            &&& r.0 is Done
            &&& r.1 matches RecvAction::Finish(m) && m@ == accept_error_text(d@)
        },
        e == RecvEvent::PumpDone(PumpOutcome::Complete) ==> {
            &&& r.0 is Done
            &&& r.1 matches RecvAction::Finish(m) && m@ == receive_success_text()
        },
        e == RecvEvent::PumpDone(PumpOutcome::Aborted) ==> {
            &&& r.0 is Done
            &&& r.1 matches RecvAction::Finish(m) && m@ == receive_incomplete_text()
        },
{
    match e {
        RecvEvent::BindOk => (RecvState::AwaitNotify, RecvAction::Notify),
        RecvEvent::BindFailed(d) => (
            RecvState::Done,
            RecvAction::Finish(local_bind_error_message(d.as_str())),
        ),
        RecvEvent::NotifyOk => (RecvState::AwaitAccept, RecvAction::WaitAccept),
        RecvEvent::NotifyFailed => (RecvState::Done, RecvAction::Finish(notify_error_message())),
        RecvEvent::AcceptOk => (RecvState::Streaming, RecvAction::RunPump),
        RecvEvent::AcceptFailed(d) => (
            RecvState::Done,
            RecvAction::Finish(accept_error_message(d.as_str())),
        ),
        RecvEvent::PumpDone(PumpOutcome::Complete) => (
            RecvState::Done,
            RecvAction::Finish(receive_success_message()),
        ),
        RecvEvent::PumpDone(PumpOutcome::Aborted) => (
            RecvState::Done,
            RecvAction::Finish(receive_incomplete_message()),
        ),
    }
}

/// Builds the trigger notification payload: the bytes of
/// `NOTIFY_RECEIVE_READY`.
pub fn notify_payload() -> (r: Vec<u8>)
    ensures
        r@ == notify_payload_text().map_values(|c: char| c as u8),
        r@.len() == notify_payload_text().len(),
{
    proof {
        reveal_strlit("NOTIFY_RECEIVE_READY");
    }
    let mut v: Vec<u8> = Vec::new();
    v.push(78);
    v.push(79);
    v.push(84);
    v.push(73);
    v.push(70);
    v.push(89);
    v.push(95);
    v.push(82);
    v.push(69);
    v.push(67);
    v.push(69);
    v.push(73);
    v.push(86);
    v.push(69);
    v.push(95);
    v.push(82);
    v.push(69);
    v.push(65);
    v.push(68);
    v.push(89);
    proof {
        assert(v@ =~= notify_payload_text().map_values(|c: char| c as u8));
    }
    v
}

} // verus!
