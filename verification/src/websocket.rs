//! The streaming-client side: the listen address the acceptor task
//! binds, and the acceptor's failure policy. Binding, accepting and
//! the protocol handshake are I/O and live with the caller; a
//! successfully handshaken connection goes into the registry through
//! `Registry::insert`.

use vstd::prelude::*;
use vstd::string::StringExecFns;

use crate::decimal::decimal_seq;
use crate::decimal::decimal_string;

verus! {

/// Remembers the address the transport listener will bind.
pub struct WebSocketHandler {
    addr: String,
}

impl WebSocketHandler {
    /// The listen address, as `host:port`.
    pub closed spec fn addr_view(&self) -> Seq<char> {
        self.addr@
    }

    /// Joins host and port into the listen address `host:port`, the
    /// port rendered in decimal.
    pub fn new(host: &str, port: i32) -> (h: WebSocketHandler)
        ensures
            h.addr_view() == host@ + seq![':'] + decimal_seq(port as int),
    {
        let mut addr = String::from_str(host);
        addr.append(":");
        let p = decimal_string(port);
        addr.append(p.as_str());
        proof {
            reveal_strlit(":");
            assert(addr@ =~= host@ + seq![':'] + decimal_seq(port as int));
        }
        WebSocketHandler { addr }
    }

    /// Hands the stored listen address back, exactly as `new` built it.
    pub fn addr(&self) -> (a: &str)
        ensures
            a@ == self.addr_view(),
    {
        self.addr.as_str()
    }
}

/// What happened on the accept side.
#[derive(Clone, Copy, PartialEq, Eq, Debug)]
pub enum AcceptorEvent {
    /// The listener could not be bound.
    BindFailed,
    /// An inbound connection arrived but its handshake failed.
    HandshakeFailed,
    /// An inbound connection completed the handshake.
    Accepted,
}

/// What the acceptor task does next.
#[derive(Clone, Copy, PartialEq, Eq, Debug)]
pub enum AcceptorAction {
    /// End the accepting task; the rest of the process keeps running.
    Exit,
    /// Discard the inbound connection and keep accepting.
    Continue,
    /// Insert the new connection at the end of the registry, then keep
    /// accepting.
    Insert,
}

/// The acceptor's decision for one event.
pub open spec fn acceptor_decision(ev: AcceptorEvent) -> AcceptorAction {
    match ev {
        AcceptorEvent::BindFailed => AcceptorAction::Exit,
        AcceptorEvent::HandshakeFailed => AcceptorAction::Continue,
        AcceptorEvent::Accepted => AcceptorAction::Insert,
    }
}

/// The acceptor task's failure policy: a bind failure is fatal to the
/// accepting task alone (the relay keeps serving the connections it
/// has); a
/// failed handshake discards just that inbound connection; a completed
/// handshake inserts the connection at the end of the registry.
pub fn acceptor_step(ev: &AcceptorEvent) -> (a: AcceptorAction)
    ensures
        a == acceptor_decision(*ev),
{
    match ev {
        AcceptorEvent::BindFailed => AcceptorAction::Exit,
        AcceptorEvent::HandshakeFailed => AcceptorAction::Continue,
        AcceptorEvent::Accepted => AcceptorAction::Insert,
    }
}

} // verus!
