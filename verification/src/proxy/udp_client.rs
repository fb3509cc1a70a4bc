use vstd::prelude::*;
use crate::proxy::{Ending, Flow, PeerAddr};
use crate::table::Table;

verus! {

/// How long, in milliseconds, a udp proxy endpoint waits for traffic before it ends.
pub const ENDPOINT_IDLE_MILLIS: u64 = 1000;

/// What the client-facing socket of a udp proxy saw in one turn of its loop.
#[derive(Debug, Clone, Copy, PartialEq, Eq, Structural)]
pub enum UdpEndpointEvent {
    /// A datagram came from a client and was handed to the router (`true`),
    /// or the router no longer takes datagrams.
    FromClient(bool),
    /// A reply for a client came from the router and was sent (`true`), or
    /// sending it failed.
    ToClient(bool),
    /// No traffic for the idle period.
    NoTraffic,
}

/// What the client-facing socket of a udp proxy reports to its handler.
#[derive(Debug, Clone, Copy, PartialEq, Eq, Structural)]
pub enum ProxyClientMsg {
    /// The socket's loop ended.
    EndpointEnded {},
}

/// Decides whether the client-facing socket of a udp proxy goes on: it ends
/// when the router or the socket fails, or after the idle period, and then
/// reports its end to its handler.
pub fn endpoint_step(e: UdpEndpointEvent) -> (f: Ending<ProxyClientMsg>)
    ensures
        f == match e {
            UdpEndpointEvent::FromClient(true) => Ending::<ProxyClientMsg>::Continue,
            UdpEndpointEvent::ToClient(true) => Ending::<ProxyClientMsg>::Continue,
            _ => Ending::Stop { report: ProxyClientMsg::EndpointEnded {} },
        },
{
    match e {
        UdpEndpointEvent::FromClient(ok) => if ok {
            Ending::Continue
        } else {
            Ending::Stop { report: ProxyClientMsg::EndpointEnded {} }
        },
        UdpEndpointEvent::ToClient(ok) => if ok {
            Ending::Continue
        } else {
            Ending::Stop { report: ProxyClientMsg::EndpointEnded {} }
        },
        UdpEndpointEvent::NoTraffic => Ending::Stop { report: ProxyClientMsg::EndpointEnded {} },
    }
}

/// What the router of a udp proxy learnt.
pub enum RouterEvent<H> {
    /// A datagram came from the client at `from`.
    Datagram { from: PeerAddr },
    /// The target-facing client for `from` was set up (`Some`) or could not be.
    ClientCreated { from: PeerAddr, client: Option<H> },
    /// The datagram was handed to its client (`true`), or the client is gone.
    Delivered(bool),
    /// No more datagrams can come.
    InputClosed,
}

/// What the router of a udp proxy does next.
#[derive(Debug, Clone, Copy, PartialEq, Eq, Structural)]
pub enum RouterAction {
    /// Hand the datagram to the client recorded for `to`.
    Deliver { to: PeerAddr },
    /// Set up a target-facing client for `peer`, then report it.
    CreateClient { peer: PeerAddr },
    /// Wait for the next datagram.
    Continue,
    /// End the router.
    Stop,
}

/// The target-facing clients of a udp proxy, one for each client address.
pub struct ProxyRouterClient<H> {
    clients: Table<PeerAddr, H>,
}

/// How the router answers `e`, going from the clients `old` to `new`.
pub open spec fn router_step<H>(old: Map<PeerAddr, H>, e: RouterEvent<H>, new: Map<PeerAddr, H>, a: RouterAction) -> bool {
    match e {
        RouterEvent::Datagram { from } => new == old && a == if old.contains_key(from) {
            RouterAction::Deliver { to: from }
        } else {
            RouterAction::CreateClient { peer: from }
        },
        RouterEvent::ClientCreated { from, client: Some(h) } => new == old.insert(from, h) && a
            == RouterAction::Deliver { to: from },
        RouterEvent::ClientCreated { from, client: None } => new == old && a == RouterAction::Stop,
        RouterEvent::Delivered(ok) => new == old && a == if ok { RouterAction::Continue } else { RouterAction::Stop },
        RouterEvent::InputClosed => new == old && a == RouterAction::Stop,
    }
}

impl<H> ProxyRouterClient<H> {
    pub closed spec fn wf(&self) -> bool {
        self.clients.wf()
    }

    pub closed spec fn clients(&self) -> Map<PeerAddr, H> {
        self.clients.view()
    }

    pub fn new() -> (r: ProxyRouterClient<H>)
        ensures
            r.wf(),
            r.clients() == Map::<PeerAddr, H>::empty(),
    {
        ProxyRouterClient { clients: Table::new() }
    }

    /// The client recorded for `peer`.
    pub fn client(&self, peer: &PeerAddr) -> (c: Option<&H>)
        requires
            self.wf(),
        ensures
            match c {
                Some(h) => self.clients().contains_key(*peer) && self.clients()[*peer] == *h,
                None => !self.clients().contains_key(*peer),
            },
    {
        self.clients.get(peer)
    }

    /// Routes each datagram to the client of its sender, setting one up for
    /// a new sender; ends when a client cannot be set up or reached, or when
    /// no more datagrams can come.
    pub fn run_step(&mut self, e: RouterEvent<H>) -> (a: RouterAction)
        requires
            old(self).wf(),
        ensures
            final(self).wf(),
            router_step(old(self).clients(), e, final(self).clients(), a),
    {
        match e {
            RouterEvent::Datagram { from } => if self.clients.contains_key(&from) {
                RouterAction::Deliver { to: from }
            } else {
                RouterAction::CreateClient { peer: from }
            },
            RouterEvent::ClientCreated { from, client } => match client {
                Some(h) => {
                    self.clients.insert(from, h);
                    RouterAction::Deliver { to: from }
                },
                None => RouterAction::Stop,
            },
            RouterEvent::Delivered(ok) => if ok {
                RouterAction::Continue
            } else {
                RouterAction::Stop
            },
            RouterEvent::InputClosed => RouterAction::Stop,
        }
    }
}

/// What the target-facing socket of a udp proxy saw in one turn of its loop.
#[derive(Debug, Clone, Copy, PartialEq, Eq, Structural)]
pub enum UdpClientEvent {
    /// A reply came from the target and was handed back (`true`), or the way
    /// back is closed.
    FromTarget(bool),
    /// Receiving from the target failed.
    ReceiveFailed,
    /// A datagram for the target was sent (`true`), or sending failed.
    ToTarget(bool),
    /// No more datagrams for the target can come.
    InputClosed,
}

/// Decides whether the target-facing socket of a udp proxy goes on: it ends
/// at the first failure in either direction.
pub fn client_step(e: UdpClientEvent) -> (f: Flow)
    ensures
        f == match e {
            UdpClientEvent::FromTarget(ok) => if ok { Flow::Continue } else { Flow::Stop },
            UdpClientEvent::ToTarget(ok) => if ok { Flow::Continue } else { Flow::Stop },
            _ => Flow::Stop,
        },
{
    match e {
        UdpClientEvent::FromTarget(ok) => if ok {
            Flow::Continue
        } else {
            Flow::Stop
        },
        UdpClientEvent::ToTarget(ok) => if ok {
            Flow::Continue
        } else {
            Flow::Stop
        },
        _ => Flow::Stop,
    }
}

/// Once the client for a sender is set up, a later datagram from that sender
/// goes to that client and no second client is set up.
pub proof fn law_router_reuses_client<H>(
    c0: Map<PeerAddr, H>,
    from: PeerAddr,
    h: H,
    c1: Map<PeerAddr, H>,
    a1: RouterAction,
    c2: Map<PeerAddr, H>,
    a2: RouterAction,
)
    requires
        router_step(c0, RouterEvent::ClientCreated { from, client: Some(h) }, c1, a1),
        router_step(c1, RouterEvent::Datagram { from }, c2, a2),
    ensures
        a1 == (RouterAction::Deliver { to: from }),
        a2 == (RouterAction::Deliver { to: from }),
        c2 == c1,
        c2[from] == h,
{
}

} // verus!
