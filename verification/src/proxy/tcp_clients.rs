use vstd::prelude::*;
use crate::proxy::{Endpoint, EndpointView, Ending, PeerAddr, ProxyClientMsg, ProxyManagerMsg};
use crate::table::Table;

verus! {

/// What one non-blocking read from a stream gave.
#[derive(Debug, Clone, Copy, PartialEq, Eq, Structural)]
pub enum ReadResult {
    /// This many bytes were read; 0 means the peer closed the stream.
    Bytes(usize),
    /// No bytes were ready after all.
    WouldBlock,
    /// The read failed.
    Failed,
}

/// What to do after a read from one side of a tcp connection.
#[derive(Debug, Clone, Copy, PartialEq, Eq, Structural)]
pub enum Transfer {
    /// Write the first `len` bytes read to the other side.
    Forward { len: usize },
    /// Nothing was read; the connection stays up.
    Idle,
    /// The connection is over.
    Closed,
}

/// Decides what a read from one side of a proxied tcp connection leads to:
/// bytes are passed on, an empty read or a failure ends the connection.
pub fn read_and_write(r: ReadResult) -> (t: Transfer)
    ensures
        t == match r {
            ReadResult::Bytes(n) => if n == 0 { Transfer::Closed } else { Transfer::Forward { len: n } },
            ReadResult::WouldBlock => Transfer::Idle,
            ReadResult::Failed => Transfer::Closed,
        },
{
    match r {
        ReadResult::Bytes(n) => if n == 0 {
            Transfer::Closed
        } else {
            Transfer::Forward { len: n }
        },
        ReadResult::WouldBlock => Transfer::Idle,
        ReadResult::Failed => Transfer::Closed,
    }
}

/// What happened while waiting to write to a stream.
#[derive(Debug, Clone, Copy, PartialEq, Eq, Structural)]
pub enum WriteEvent {
    /// The stream took the bytes.
    Written,
    /// The stream was writable but the write failed.
    WriteFailed,
    /// The stream did not become writable in time.
    TimedOut,
}

/// What to do after waiting to write.
#[derive(Debug, Clone, Copy, PartialEq, Eq, Structural)]
pub enum WriteStep {
    Done,
    Retry,
    GiveUp,
}

/// Decides how a write to a stream goes on: a failed write is tried again
/// until the stream stays unwritable for the traffic timeout.
pub fn write_to_stream(e: WriteEvent) -> (s: WriteStep)
    ensures
        s == match e {
            WriteEvent::Written => WriteStep::Done,
            WriteEvent::WriteFailed => WriteStep::Retry,
            WriteEvent::TimedOut => WriteStep::GiveUp,
        },
{
    match e {
        WriteEvent::Written => WriteStep::Done,
        WriteEvent::WriteFailed => WriteStep::Retry,
        WriteEvent::TimedOut => WriteStep::GiveUp,
    }
}

/// What a proxied tcp connection saw in one turn of its loop.
#[derive(Debug, Clone, Copy, PartialEq, Eq, Structural)]
pub enum ClientEvent {
    /// Moving bytes in one direction went well (`true`) or ended the connection.
    Moved(bool),
    /// No traffic for the traffic timeout.
    NoTraffic,
}

/// Decides whether the proxied tcp connection from `addr` goes on: it ends
/// when a transfer fails or when it sees no traffic for the timeout, and then
/// reports its end to its endpoint.
pub fn client_step(addr: PeerAddr, e: ClientEvent) -> (f: Ending<ProxyClientMsg>)
    ensures
        f == match e {
            ClientEvent::Moved(true) => Ending::<ProxyClientMsg>::Continue,
            _ => Ending::Stop { report: ProxyClientMsg::ClientEnded { addr } },
        },
{
    match e {
        ClientEvent::Moved(ok) => if ok {
            Ending::Continue
        } else {
            Ending::Stop { report: ProxyClientMsg::ClientEnded { addr } }
        },
        ClientEvent::NoTraffic => Ending::Stop { report: ProxyClientMsg::ClientEnded { addr } },
    }
}

/// What a tcp proxy endpoint saw in one turn of its loop.
pub enum EndpointEvent<H> {
    /// A connection from `addr` was accepted; `client` is the running
    /// connection, or nothing where the target could not be reached.
    Accepted { addr: PeerAddr, client: Option<H> },
    /// Accepting failed.
    AcceptFailed,
    /// The connection from `addr` ended.
    ClientEnded { addr: PeerAddr },
    /// No more reports of ended connections can come.
    ReportsClosed,
    /// No traffic for the traffic timeout.
    NoTraffic,
}

/// A tcp proxy endpoint: the target it forwards to, and the connections it
/// serves, by peer address.
pub struct ProxyTcpEndpoint<H> {
    endpoint: Endpoint,
    clients: Table<PeerAddr, H>,
}

/// `f` ends the endpoint for `ep`, reporting that end to the proxy task.
pub open spec fn ends_endpoint(f: &Ending<ProxyManagerMsg>, ep: EndpointView) -> bool {
    f matches Ending::Stop { report: ProxyManagerMsg::TcpEndpointEnded { endpoint } } && endpoint@ == ep
}

/// How the tcp proxy endpoint for `ep` answers `e`, going from the
/// connections `old` to `new`.
pub open spec fn endpoint_step<H>(
    old: Map<PeerAddr, H>,
    e: EndpointEvent<H>,
    new: Map<PeerAddr, H>,
    ep: EndpointView,
    f: &Ending<ProxyManagerMsg>,
) -> bool {
    match e {
        EndpointEvent::Accepted { addr, client: Some(h) } => new == old.insert(addr, h) && f is Continue,
        EndpointEvent::Accepted { addr, client: None } => new == old && f is Continue,
        EndpointEvent::ClientEnded { addr } => {
            &&& new == old.remove(addr)
            &&& if new.len() == 0 { ends_endpoint(f, ep) } else { f is Continue }
        },
        _ => new == old && ends_endpoint(f, ep),
    }
}

impl<H> ProxyTcpEndpoint<H> {
    fn ended(&self) -> (f: Ending<ProxyManagerMsg>)
        ensures
            ends_endpoint(&f, self.endpoint()),
    {
        Ending::Stop { report: ProxyManagerMsg::TcpEndpointEnded { endpoint: self.endpoint.duplicate() } }
    }

    pub closed spec fn wf(&self) -> bool {
        self.clients.wf()
    }

    pub closed spec fn clients(&self) -> Map<PeerAddr, H> {
        self.clients.view()
    }

    pub closed spec fn endpoint(&self) -> EndpointView {
        self.endpoint@
    }

    /// The endpoint in front of `endpoint`, with no connections yet.
    pub fn new(endpoint: Endpoint) -> (e: ProxyTcpEndpoint<H>)
        ensures
            e.wf(),
            e.clients() == Map::<PeerAddr, H>::empty(),
            e.endpoint() == endpoint@,
    {
        ProxyTcpEndpoint { endpoint, clients: Table::new() }
    }

    /// Keeps the set of running connections and decides whether the endpoint
    /// goes on: it ends when accepting fails, when the reports stop, after
    /// a timeout without traffic, and when its last connection ends, and then
    /// reports its end to the proxy task.
    pub fn run_step(&mut self, e: EndpointEvent<H>) -> (f: Ending<ProxyManagerMsg>)
        requires
            old(self).wf(),
        ensures
            final(self).wf(),
            final(self).endpoint() == old(self).endpoint(),
            endpoint_step(old(self).clients(), e, final(self).clients(), old(self).endpoint(), &f),
    {
        match e {
            EndpointEvent::Accepted { addr, client } => {
                match client {
                    Some(h) => {
                        self.clients.insert(addr, h);
                    },
                    None => {},
                }
                Ending::Continue
            },
            EndpointEvent::ClientEnded { addr } => {
                self.clients.remove(&addr);
                if self.clients.len() == 0 {
                    self.ended()
                } else {
                    Ending::Continue
                }
            },
            _ => self.ended(),
        }
    }
}

/// Accepting never ends an endpoint: a connection whose target was reached
/// is recorded under its peer address, one whose target could not be reached
/// leaves the connections as they were, and either way the endpoint goes on,
/// whatever the number of connections. An endpoint ends only on a failure, a
/// timeout, or the end of its last connection, and then reports its own end.
pub proof fn law_accepting_never_ends_endpoint<H>(
    c0: Map<PeerAddr, H>,
    e: EndpointEvent<H>,
    c1: Map<PeerAddr, H>,
    ep: EndpointView,
    f: Ending<ProxyManagerMsg>,
)
    requires
        endpoint_step(c0, e, c1, ep, &f),
    ensures
        e is Accepted ==> f is Continue,
        e matches EndpointEvent::Accepted { addr, client: None } ==> c1 == c0,
        e matches EndpointEvent::Accepted { addr, client: Some(h) } ==> c1.contains_key(addr) && c1[addr] == h
            && c1.remove(addr) == c0.remove(addr),
        f is Stop ==> ends_endpoint(&f, ep) && (!(e is Accepted) && (e is ClientEnded ==> c1.len() == 0)),
{
    if let EndpointEvent::Accepted { addr, client: Some(h) } = e {
        assert(c1.remove(addr) =~= c0.remove(addr));
    }
}

/// A connection that is accepted and then ends leaves the endpoint with the
/// connections it had before, and the endpoint goes on exactly when some
/// remain; otherwise it reports its end to the proxy task.
pub proof fn law_connection_end_undoes_accept<H>(
    c0: Map<PeerAddr, H>,
    addr: PeerAddr,
    h: H,
    ep: EndpointView,
    c1: Map<PeerAddr, H>,
    f1: Ending<ProxyManagerMsg>,
    c2: Map<PeerAddr, H>,
    f2: Ending<ProxyManagerMsg>,
)
    requires
        !c0.contains_key(addr),
        endpoint_step(c0, EndpointEvent::Accepted { addr, client: Some(h) }, c1, ep, &f1),
        endpoint_step(c1, EndpointEvent::ClientEnded { addr }, c2, ep, &f2),
    ensures
        f1 is Continue,
        c2 == c0,
        if c0.len() == 0 { ends_endpoint(&f2, ep) } else { f2 is Continue },
{
    assert(c2 =~= c0);
}

} // verus!
