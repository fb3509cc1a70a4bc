pub mod tcp_clients;
pub mod udp_client;

use vstd::prelude::*;
use vstd::string::*;
use crate::decimal::{decimal_text, law_decimal_round_trip, parse_u16, parse_unsigned, push_decimal, IntErrorKind};
use crate::manager::models::{AllocateRequest, AllocateResponse};
use crate::table::{KeyView, Table};

verus! {

/// A session as the allocation service names it: a proxy port and a session id.
#[derive(Debug, Clone)]
pub struct Session {
    port: u16,
    session_id: String,
}

pub struct SessionView {
    pub port: u16,
    pub session_id: Seq<char>,
}

impl View for Session {
    type V = SessionView;

    closed spec fn view(&self) -> SessionView {
        SessionView { port: self.port, session_id: self.session_id@ }
    }
}

impl Session {
    pub fn new(port: u16, session_id: &str) -> (s: Session)
        ensures
            s@ == (SessionView { port, session_id: session_id@ }),
    {
        Session { port, session_id: String::from_str(session_id) }
    }
}

impl KeyView for Session {
    fn same_key(&self, other: &Self) -> (b: bool) {
        let b = self.port == other.port && self.session_id == other.session_id;
        proof {
            if self.port == other.port && self.session_id@ == other.session_id@ {
                assert(self@ =~= other@);
            }
        }
        b
    }
}

/// A target that a proxy forwards to: its address and port, and the session
/// that asked for it.
#[derive(Debug, Clone)]
pub struct Endpoint {
    port: u16,
    ip: String,
    session_id: String,
}

pub struct EndpointView {
    pub port: u16,
    pub ip: Seq<char>,
    pub session_id: Seq<char>,
}

impl View for Endpoint {
    type V = EndpointView;

    closed spec fn view(&self) -> EndpointView {
        EndpointView { port: self.port, ip: self.ip@, session_id: self.session_id@ }
    }
}

impl KeyView for Endpoint {
    fn same_key(&self, other: &Self) -> (b: bool) {
        let b = self.port == other.port && self.ip == other.ip && self.session_id
            == other.session_id;
        proof {
            if self.port == other.port && self.ip@ == other.ip@ && self.session_id@
                == other.session_id@ {
                assert(self@ =~= other@);
            }
        }
        b
    }
}

/// The text `ip:port` by which an endpoint is dialled.
pub open spec fn endpoint_address(e: EndpointView) -> Seq<char> {
    e.ip + seq![':'] + decimal_text(e.port as nat)
}

impl Endpoint {
    pub fn new(port: u16, ip: &str, session_id: &str) -> (e: Endpoint)
        ensures
            e@ == (EndpointView { port, ip: ip@, session_id: session_id@ }),
    {
        Endpoint { port, ip: String::from_str(ip), session_id: String::from_str(session_id) }
    }

    pub fn port(&self) -> (p: u16)
        ensures
            p == self@.port,
    {
        self.port
    }

    pub fn ip(&self) -> (s: &str)
        ensures
            s@ == self@.ip,
    {
        self.ip.as_str()
    }

    pub fn session_id(&self) -> (s: &str)
        ensures
            s@ == self@.session_id,
    {
        self.session_id.as_str()
    }

    /// A second endpoint equal to this one.
    pub fn duplicate(&self) -> (e: Endpoint)
        ensures
            e@ == self@,
    {
        Endpoint { port: self.port, ip: self.ip.clone(), session_id: self.session_id.clone() }
    }

    /// The endpoint as `ip:port`, the form in which it is shown and dialled.
    pub fn to_string(&self) -> (s: String)
        ensures
            s@ == endpoint_address(self@),
    {
        let mut s = self.ip.clone();
        s.push(':');
        push_decimal(&mut s, self.port as u64);
        s
    }

    /// The session under which the allocation service knows this endpoint once
    /// it is served on `port`.
    pub fn session_on(&self, port: u16) -> (s: Session)
        ensures
            s@ == (SessionView { port, session_id: self@.session_id }),
    {
        Session { port, session_id: self.session_id.clone() }
    }
}

/// The text after the address in an endpoint's `ip:port` form reads back as
/// its port.
pub proof fn law_endpoint_port_reads_back(e: EndpointView)
    ensures
        ({
            let t = endpoint_address(e);
            &&& t.subrange(0, e.ip.len() as int) == e.ip
            &&& t[e.ip.len() as int] == ':'
            &&& port_text_value(t.subrange(e.ip.len() as int + 1, t.len() as int)) == Ok::<int, IntErrorKind>(e.port as int)
        }),
{
    let t = endpoint_address(e);
    assert(t.subrange(0, e.ip.len() as int) =~= e.ip);
    assert(t.subrange(e.ip.len() as int + 1, t.len() as int) =~= decimal_text(e.port as nat));
    law_decimal_round_trip(e.port as nat, u16::MAX as int);
}

/// The text that the derived `Debug` of an endpoint gives.
pub uninterp spec fn endpoint_debug_text(port: u16, ip: Seq<char>, session_id: Seq<char>) -> Seq<char>;

/// Formats the endpoint with its derived `Debug` (std's `format!`). Claimed:
/// the text depends on the three fields alone; nothing is said of its shape.
#[verifier::external_body]
fn endpoint_debug(e: &Endpoint) -> (s: String)
    ensures
        s@ == endpoint_debug_text(e@.port, e@.ip, e@.session_id),
{
    format!("{:?}", e)
}

/// The error reported when there is no proxy to remove, given the endpoint's
/// debug text.
pub fn missing_proxy_message(endpoint_text: &str) -> (s: String)
    ensures
        s@ == "There aren't proxy to delete for "@ + endpoint_text@,
{
    let s = String::from_str("There aren't proxy to delete for ");
    s.concat(endpoint_text)
}

/// Why an operation of the proxy manager failed.
#[derive(Debug)]
pub enum ProxyError {
    /// No proxy is recorded for the session.
    NoSuchEndpoint,
    /// The proxy task no longer takes requests.
    ChannelClosed,
    /// A port arrived as text that is not a decimal `u16`.
    Parse(IntErrorKind),
    /// The udp proxy could not be set up, for no stated reason.
    UdpAllocationFailed,
    /// The request for a tcp proxy could not be handed to the proxy task.
    TcpRequestNotSent,
    /// The answer to a tcp proxy request never came.
    TcpResultMissing,
    /// The answer to a tcp proxy request was not one that such a request gets.
    BadMessage,
    /// The proxy task reported this error.
    Proxy(String),
}

impl ProxyError {
    /// The text of the error, as the service reports it.
    pub open spec fn text(&self) -> Seq<char> {
        match self {
            ProxyError::NoSuchEndpoint => "No such endpoint"@,
            ProxyError::ChannelClosed => "channel closed"@,
            ProxyError::Parse(IntErrorKind::Empty) => "cannot parse integer from empty string"@,
            ProxyError::Parse(IntErrorKind::InvalidDigit) => "invalid digit found in string"@,
            ProxyError::Parse(IntErrorKind::PosOverflow) => "number too large to fit in target type"@,
            ProxyError::UdpAllocationFailed => "Something happened"@,
            ProxyError::TcpRequestNotSent => "Can not initiate tcp proxy creation"@,
            ProxyError::TcpResultMissing => "Tcp allocation result has not been recieved"@,
            ProxyError::BadMessage => "Bad messsage"@,
            ProxyError::Proxy(s) => s@,
        }
    }

    pub fn message(&self) -> (s: String)
        ensures
            s@ == self.text(),
    {
        match self {
            ProxyError::NoSuchEndpoint => String::from_str("No such endpoint"),
            ProxyError::ChannelClosed => String::from_str("channel closed"),
            ProxyError::Parse(IntErrorKind::Empty) => String::from_str(
                "cannot parse integer from empty string",
            ),
            ProxyError::Parse(IntErrorKind::InvalidDigit) => String::from_str(
                "invalid digit found in string",
            ),
            ProxyError::Parse(IntErrorKind::PosOverflow) => String::from_str(
                "number too large to fit in target type",
            ),
            ProxyError::UdpAllocationFailed => String::from_str("Something happened"),
            ProxyError::TcpRequestNotSent => String::from_str("Can not initiate tcp proxy creation"),
            ProxyError::TcpResultMissing => String::from_str(
                "Tcp allocation result has not been recieved",
            ),
            ProxyError::BadMessage => String::from_str("Bad messsage"),
            ProxyError::Proxy(s) => s.clone(),
        }
    }
}

/// Turns a failed result into one whose error is plain text, which can cross
/// between tasks.
pub trait FixBoxError<T>: Sized {
    fn fix_box(self) -> Result<T, String>;
}

impl<T> FixBoxError<T> for Result<T, ProxyError> {
    fn fix_box(self) -> (r: Result<T, String>)
        ensures
            match self {
                Ok(t) => r == Ok::<T, String>(t),
                Err(e) => r matches Err(s) && s@ == e.text(),
            },
    {
        match self {
            Err(err) => Err(err.message()),
            Ok(t) => Ok(t),
        }
    }
}


/// The address of a peer of a proxy socket, as plain values: the ip address
/// as a number (an IPv4 address in the low 32 bits), whether it is IPv6, the
/// port, and for IPv6 the flow label and scope id. Two addresses are the same
/// when all of these are.
#[derive(Debug, Clone, Copy, PartialEq, Eq, Structural)]
pub struct PeerAddr {
    pub ip: u128,
    pub v6: bool,
    pub port: u16,
    pub flowinfo: u32,
    pub scope_id: u32,
}

impl View for PeerAddr {
    type V = PeerAddr;

    open spec fn view(&self) -> PeerAddr {
        *self
    }
}

impl KeyView for PeerAddr {
    fn same_key(&self, other: &Self) -> (b: bool) {
        *self == *other
    }
}

/// Whether a loop of a proxy task goes on.
#[derive(Debug, Clone, Copy, PartialEq, Eq, Structural)]
pub enum Flow {
    Continue,
    Stop,
}

/// Whether a loop of a proxy task goes on, or ends and sends `report` to
/// whoever waits for its end.
#[derive(Debug)]
pub enum Ending<R> {
    Continue,
    Stop { report: R },
}

/// What a connection of a tcp proxy reports to its endpoint.
#[derive(Debug, Clone, Copy, PartialEq, Eq, Structural)]
pub enum ProxyClientMsg {
    /// The connection from `addr` ended.
    ClientEnded { addr: PeerAddr },
}

/// The requests and answers that pass between the allocation service and the
/// task that owns the proxies. A request travels with the channel on which it
/// is to be answered; that channel is not part of the message here.
#[derive(Debug)]
pub enum ProxyManagerMsg {
    CreateUdpProxy { endpoint: Endpoint },
    CreateTcpProxy { endpoint: Endpoint },
    CreateUdpProxyRs { port: u16 },
    CreateTcpProxyRs { port: u16 },
    UdpProxyErrorRs { error: String },
    TcpProxyErrorRs { error: String },
    DeleteUdpProxy { endpoint: Endpoint },
    DeleteTcpProxy { endpoint: Endpoint },
    DeleteUdpProxyRs {},
    DeleteTcpProxyRs {},
    UdpEndpointEnded { endpoint: Endpoint },
    TcpEndpointEnded { endpoint: Endpoint },
}

/// The sessions that the allocation service has handed out, by protocol.
pub struct ProxyManager {
    udp_endpoints: Table<Session, Endpoint>,
    tcp_endpoints: Table<Session, Endpoint>,
}

pub struct ProxyManagerView {
    pub udp: Map<SessionView, EndpointView>,
    pub tcp: Map<SessionView, EndpointView>,
}

impl View for ProxyManager {
    type V = ProxyManagerView;

    closed spec fn view(&self) -> ProxyManagerView {
        ProxyManagerView {
            udp: self.udp_endpoints.view().map_values(|e: Endpoint| e@),
            tcp: self.tcp_endpoints.view().map_values(|e: Endpoint| e@),
        }
    }
}

/// What came back for a request handed to the proxy task.
pub enum ManagerReply {
    /// The request could not be handed over.
    NotSent,
    /// The request was handed over but no answer came.
    Dropped,
    /// This answer came.
    Received(ProxyManagerMsg),
}

/// Which proxy an allocation waits for.
#[derive(Debug, Clone, Copy, PartialEq, Eq, Structural)]
pub enum AllocationStage {
    Udp,
    Tcp,
    Ssl,
}

/// An allocation under way: the request, the proxy it waits for, the ports
/// found so far, and the endpoint of the proxy asked for.
pub struct Allocation {
    pub request: AllocateRequest,
    pub stage: AllocationStage,
    pub udp_port: u16,
    pub tcp_port: u16,
    pub endpoint: Endpoint,
}

/// What an allocation does next: send a request to the proxy task and wait,
/// or end with this outcome.
pub enum AllocationStep {
    Send { job: Allocation, request: ProxyManagerMsg },
    Finished(Result<AllocateResponse, ProxyError>),
}

pub open spec fn port_text_value(t: Seq<char>) -> Result<int, IntErrorKind> {
    parse_unsigned(t, u16::MAX as int)
}

/// `step` asks for a tcp proxy at `port` of the request's target, in `stage`.
pub open spec fn asks_tcp(
    step: AllocationStep,
    req: &AllocateRequest,
    stage: AllocationStage,
    udp: u16,
    tcp: u16,
    port: int,
) -> bool {
    &&& step matches AllocationStep::Send { job, request: ProxyManagerMsg::CreateTcpProxy { endpoint } }
    &&& endpoint@ == (EndpointView { port: port as u16, ip: req.target_ip@, session_id: req.session_id@ })
    &&& job.endpoint@ == endpoint@
    &&& job.stage == stage
    &&& job.udp_port == udp
    &&& job.tcp_port == tcp
    &&& same_request(job.request, *req)
}

pub open spec fn same_request(a: AllocateRequest, b: AllocateRequest) -> bool {
    &&& a.target_udp_port@ == b.target_udp_port@
    &&& a.target_tcp_port@ == b.target_tcp_port@
    &&& a.target_ssl_tcp_port@ == b.target_ssl_tcp_port@
    &&& a.target_ip@ == b.target_ip@
    &&& a.session_id@ == b.session_id@
}

/// What an allocation does once its udp port is `udp` and its tcp port `tcp`:
/// read the ssl port, and ask for that proxy unless it is 0.
pub open spec fn ssl_phase(step: AllocationStep, req: &AllocateRequest, udp: u16, tcp: u16) -> bool {
    match port_text_value(req.target_ssl_tcp_port@) {
        Err(k) => step matches AllocationStep::Finished(Err(ProxyError::Parse(k2))) && k2 == k,
        Ok(p) => if p == 0 {
            step == AllocationStep::Finished(
                Ok(AllocateResponse { proxy_udp_port: udp, proxy_tcp_port: tcp, proxy_ssl_tcp_port: 0 }),
            )
        } else {
            asks_tcp(step, req, AllocationStage::Ssl, udp, tcp, p)
        },
    }
}

/// What an allocation does once its udp port is `udp`: read the tcp port, and
/// ask for that proxy unless it is 0.
pub open spec fn tcp_phase(step: AllocationStep, req: &AllocateRequest, udp: u16) -> bool {
    match port_text_value(req.target_tcp_port@) {
        Err(k) => step matches AllocationStep::Finished(Err(ProxyError::Parse(k2))) && k2 == k,
        Ok(p) => if p == 0 {
            ssl_phase(step, req, udp, 0)
        } else {
            asks_tcp(step, req, AllocationStage::Tcp, udp, 0, p)
        },
    }
}

/// Every port that the allocation has found so far is recorded under its session.
pub open spec fn recorded_so_far(job: &Allocation, m: ProxyManagerView) -> bool {
    let sid = job.request.session_id@;
    &&& job.endpoint@.session_id == sid
    &&& job.stage != AllocationStage::Udp ==> m.udp.contains_key(SessionView { port: job.udp_port, session_id: sid })
    &&& job.tcp_port != 0 ==> m.tcp.contains_key(SessionView { port: job.tcp_port, session_id: sid })
    &&& job.stage == AllocationStage::Udp ==> job.tcp_port == 0
}

/// Every port of `resp` other than 0 is recorded under session `sid`, the udp one always.
pub open spec fn records_response(m: ProxyManagerView, resp: AllocateResponse, sid: Seq<char>) -> bool {
    &&& m.udp.contains_key(SessionView { port: resp.proxy_udp_port, session_id: sid })
    &&& resp.proxy_tcp_port != 0 ==> m.tcp.contains_key(SessionView { port: resp.proxy_tcp_port, session_id: sid })
    &&& resp.proxy_ssl_tcp_port != 0 ==> m.tcp.contains_key(SessionView { port: resp.proxy_ssl_tcp_port, session_id: sid })
}


/// How the udp stage of an allocation answers `reply`, taking the sessions
/// from `old` to `new`.
pub open spec fn after_udp_reply(
    old: ProxyManagerView,
    new: ProxyManagerView,
    job: &Allocation,
    reply: &ManagerReply,
    step: AllocationStep,
) -> bool {
    match reply {
        ManagerReply::NotSent => new == old && step == AllocationStep::Finished(Err(ProxyError::ChannelClosed)),
        ManagerReply::Dropped => new == old && step == AllocationStep::Finished(Err(ProxyError::UdpAllocationFailed)),
        ManagerReply::Received(ProxyManagerMsg::CreateUdpProxyRs { port }) => {
            &&& new.udp == old.udp.insert(SessionView { port: *port, session_id: job.endpoint@.session_id }, job.endpoint@)
            &&& new.tcp == old.tcp
            &&& tcp_phase(step, &job.request, *port)
        },
        ManagerReply::Received(ProxyManagerMsg::UdpProxyErrorRs { error }) => new == old
            && (step matches AllocationStep::Finished(Err(ProxyError::Proxy(e))) && e@ == error@),
        ManagerReply::Received(_) => new == old && step == AllocationStep::Finished(Err(ProxyError::UdpAllocationFailed)),
    }
}

/// How the tcp or ssl stage of an allocation answers `reply`, taking the
/// sessions from `old` to `new`.
pub open spec fn after_tcp_reply(
    old: ProxyManagerView,
    new: ProxyManagerView,
    job: &Allocation,
    reply: &ManagerReply,
    step: AllocationStep,
) -> bool {
    match reply {
        ManagerReply::NotSent => new == old && step == AllocationStep::Finished(Err(ProxyError::TcpRequestNotSent)),
        ManagerReply::Dropped => new == old && step == AllocationStep::Finished(Err(ProxyError::TcpResultMissing)),
        ManagerReply::Received(ProxyManagerMsg::CreateTcpProxyRs { port }) => {
            &&& new.tcp == old.tcp.insert(SessionView { port: *port, session_id: job.endpoint@.session_id }, job.endpoint@)
            &&& new.udp == old.udp
            &&& if job.stage == AllocationStage::Tcp {
                ssl_phase(step, &job.request, job.udp_port, *port)
            } else {
                step == AllocationStep::Finished(Ok(AllocateResponse {
                    proxy_udp_port: job.udp_port,
                    proxy_tcp_port: job.tcp_port,
                    proxy_ssl_tcp_port: *port,
                }))
            }
        },
        ManagerReply::Received(ProxyManagerMsg::TcpProxyErrorRs { error }) => new == old
            && (step matches AllocationStep::Finished(Err(ProxyError::Proxy(e))) && e@ == error@),
        ManagerReply::Received(_) => new == old && step == AllocationStep::Finished(Err(ProxyError::BadMessage)),
    }
}

fn ask_tcp(request: AllocateRequest, stage: AllocationStage, udp: u16, tcp: u16, port: u16) -> (step: AllocationStep)
    ensures
        asks_tcp(step, &request, stage, udp, tcp, port as int),
{
    let endpoint = Endpoint::new(port, request.target_ip.as_str(), request.session_id.as_str());
    let msg = ProxyManagerMsg::CreateTcpProxy { endpoint: endpoint.duplicate() };
    AllocationStep::Send { job: Allocation { request, stage, udp_port: udp, tcp_port: tcp, endpoint }, request: msg }
}

fn ssl_step(request: AllocateRequest, udp: u16, tcp: u16) -> (step: AllocationStep)
    ensures
        ssl_phase(step, &request, udp, tcp),
{
    match parse_u16(request.target_ssl_tcp_port.as_str()) {
        Err(k) => AllocationStep::Finished(Err(ProxyError::Parse(k))),
        Ok(p) => if p == 0 {
            AllocationStep::Finished(Ok(AllocateResponse { proxy_udp_port: udp, proxy_tcp_port: tcp, proxy_ssl_tcp_port: 0 }))
        } else {
            ask_tcp(request, AllocationStage::Ssl, udp, tcp, p)
        },
    }
}

fn tcp_step(request: AllocateRequest, udp: u16) -> (step: AllocationStep)
    ensures
        tcp_phase(step, &request, udp),
{
    match parse_u16(request.target_tcp_port.as_str()) {
        Err(k) => AllocationStep::Finished(Err(ProxyError::Parse(k))),
        Ok(p) => if p == 0 {
            ssl_step(request, udp, 0)
        } else {
            ask_tcp(request, AllocationStage::Tcp, udp, 0, p)
        },
    }
}

/// What a removal of the udp session `key` asks of the proxy task, given the
/// sessions `m`: the removal of that session's endpoint, or `NoSuchEndpoint`.
pub open spec fn udp_removal(m: ProxyManagerView, key: SessionView, r: &Result<ProxyManagerMsg, ProxyError>) -> bool {
    match r {
        Ok(msg) => m.udp.contains_key(key) && (msg matches ProxyManagerMsg::DeleteUdpProxy { endpoint }
            && endpoint@ == m.udp[key]),
        Err(e) => !m.udp.contains_key(key) && *e == ProxyError::NoSuchEndpoint,
    }
}

/// What a removal of the tcp session `key` asks of the proxy task, given the
/// sessions `m`: the removal of that session's endpoint, or `NoSuchEndpoint`.
pub open spec fn tcp_removal(m: ProxyManagerView, key: SessionView, r: &Result<ProxyManagerMsg, ProxyError>) -> bool {
    match r {
        Ok(msg) => m.tcp.contains_key(key) && (msg matches ProxyManagerMsg::DeleteTcpProxy { endpoint }
            && endpoint@ == m.tcp[key]),
        Err(e) => !m.tcp.contains_key(key) && *e == ProxyError::NoSuchEndpoint,
    }
}

/// A udp removal looks at the udp sessions alone: it asks for a removal
/// exactly when they hold the session, and then of exactly the endpoint
/// recorded there; otherwise it fails with `NoSuchEndpoint`, whatever the tcp
/// sessions hold. The same holds of a tcp removal and the tcp sessions.
pub proof fn law_removal_looks_at_its_protocol(
    m: ProxyManagerView,
    key: SessionView,
    r: Result<ProxyManagerMsg, ProxyError>,
    t: Result<ProxyManagerMsg, ProxyError>,
)
    requires
        udp_removal(m, key, &r),
        tcp_removal(m, key, &t),
    ensures
        r is Ok <==> m.udp.contains_key(key),
        r matches Ok(msg) ==> (msg matches ProxyManagerMsg::DeleteUdpProxy { endpoint } && endpoint@ == m.udp[key]),
        r matches Err(e) ==> e == ProxyError::NoSuchEndpoint,
        t is Ok <==> m.tcp.contains_key(key),
        t matches Ok(msg) ==> (msg matches ProxyManagerMsg::DeleteTcpProxy { endpoint } && endpoint@ == m.tcp[key]),
        t matches Err(e) ==> e == ProxyError::NoSuchEndpoint,
{
}

/// A removal leaves the handed-out sessions as they are (its functions take
/// the manager by shared reference), so removing the same session again asks
/// for the removal of the same endpoint again, and a removal that found
/// nothing finds nothing again.
pub proof fn law_removal_repeats(
    m: ProxyManagerView,
    key: SessionView,
    r1: Result<ProxyManagerMsg, ProxyError>,
    r2: Result<ProxyManagerMsg, ProxyError>,
    t1: Result<ProxyManagerMsg, ProxyError>,
    t2: Result<ProxyManagerMsg, ProxyError>,
)
    requires
        udp_removal(m, key, &r1),
        udp_removal(m, key, &r2),
        tcp_removal(m, key, &t1),
        tcp_removal(m, key, &t2),
    ensures
        r1 is Ok <==> r2 is Ok,
        r1 matches Ok(ProxyManagerMsg::DeleteUdpProxy { endpoint: a }) ==> (r2 matches Ok(
            ProxyManagerMsg::DeleteUdpProxy { endpoint: b },
        ) && a@ == b@),
        t1 is Ok <==> t2 is Ok,
        t1 matches Ok(ProxyManagerMsg::DeleteTcpProxy { endpoint: a }) ==> (t2 matches Ok(
            ProxyManagerMsg::DeleteTcpProxy { endpoint: b },
        ) && a@ == b@),
{
}

/// The ports an allocation reports are the ones its steps found. When an
/// allocation step ends with `Ok(resp)`, the reply it answered was a created
/// proxy, and:
/// - in the udp stage, `resp` holds that udp port and no tcp or ssl port, and
///   both the tcp and the ssl port text of the request read as 0;
/// - in the tcp stage, `resp` holds the udp port found before, the tcp port
///   just answered, and no ssl port, and the ssl port text reads as 0;
/// - in the ssl stage, `resp` holds the udp and tcp ports found before and the
///   ssl port just answered.
/// When it asks for a further proxy, the next stage carries the udp port (just
/// answered, or found before) and the tcp port (just answered in the tcp stage,
/// 0 where the tcp text read as 0).
pub proof fn law_allocation_reports_found_ports(
    old: ProxyManagerView,
    new: ProxyManagerView,
    job: Allocation,
    reply: ManagerReply,
    step: AllocationStep,
)
    requires
        job.stage == AllocationStage::Udp ==> after_udp_reply(old, new, &job, &reply, step),
        job.stage != AllocationStage::Udp ==> after_tcp_reply(old, new, &job, &reply, step),
    ensures
        step matches AllocationStep::Finished(Ok(resp)) ==> match job.stage {
            AllocationStage::Udp => reply matches ManagerReply::Received(ProxyManagerMsg::CreateUdpProxyRs { port })
                && resp.proxy_udp_port == port && resp.proxy_tcp_port == 0 && resp.proxy_ssl_tcp_port == 0
                && port_text_value(job.request.target_tcp_port@) == Ok::<int, IntErrorKind>(0)
                && port_text_value(job.request.target_ssl_tcp_port@) == Ok::<int, IntErrorKind>(0),
            AllocationStage::Tcp => reply matches ManagerReply::Received(ProxyManagerMsg::CreateTcpProxyRs { port })
                && resp.proxy_udp_port == job.udp_port && resp.proxy_tcp_port == port && resp.proxy_ssl_tcp_port == 0
                && port_text_value(job.request.target_ssl_tcp_port@) == Ok::<int, IntErrorKind>(0),
            AllocationStage::Ssl => reply matches ManagerReply::Received(ProxyManagerMsg::CreateTcpProxyRs { port })
                && resp.proxy_udp_port == job.udp_port && resp.proxy_tcp_port == job.tcp_port
                && resp.proxy_ssl_tcp_port == port,
        },
        step matches AllocationStep::Send { job: next, .. } ==> match job.stage {
            AllocationStage::Udp => reply matches ManagerReply::Received(ProxyManagerMsg::CreateUdpProxyRs { port })
                && next.udp_port == port && next.tcp_port == 0
                && (next.stage == AllocationStage::Tcp <==> port_text_value(job.request.target_tcp_port@)
                    != Ok::<int, IntErrorKind>(0)),
            AllocationStage::Tcp => reply matches ManagerReply::Received(ProxyManagerMsg::CreateTcpProxyRs { port })
                && next.stage == AllocationStage::Ssl && next.udp_port == job.udp_port && next.tcp_port == port,
            AllocationStage::Ssl => false,
        },
{
}

impl ProxyManager {
    pub closed spec fn wf(&self) -> bool {
        self.udp_endpoints.wf() && self.tcp_endpoints.wf()
    }

    pub fn new() -> (m: ProxyManager)
        ensures
            m.wf(),
            m@.udp == Map::<SessionView, EndpointView>::empty(),
            m@.tcp == Map::<SessionView, EndpointView>::empty(),
    {
        let m = ProxyManager { udp_endpoints: Table::new(), tcp_endpoints: Table::new() };
        assert(m@.udp =~= Map::<SessionView, EndpointView>::empty());
        assert(m@.tcp =~= Map::<SessionView, EndpointView>::empty());
        m
    }

    /// The request that removes the udp proxy of session `session_id` on
    /// `port`, or `NoSuchEndpoint` where no such session was handed out.
    pub fn delete_udp_proxy(&self, port: u16, session_id: String) -> (r: Result<ProxyManagerMsg, ProxyError>)
        requires
            self.wf(),
        ensures
            udp_removal(self@, SessionView { port, session_id: session_id@ }, &r),
    {
        let key = Session { port, session_id };
        match self.udp_endpoints.get(&key) {
            Some(endpoint) => Ok(ProxyManagerMsg::DeleteUdpProxy { endpoint: endpoint.duplicate() }),
            None => Err(ProxyError::NoSuchEndpoint),
        }
    }

    /// The request that removes the tcp proxy of session `session_id` on
    /// `port`, or `NoSuchEndpoint` where no such session was handed out.
    pub fn delete_tcp_proxy(&self, port: u16, session_id: String) -> (r: Result<ProxyManagerMsg, ProxyError>)
        requires
            self.wf(),
        ensures
            tcp_removal(self@, SessionView { port, session_id: session_id@ }, &r),
    {
        let key = Session { port, session_id };
        match self.tcp_endpoints.get(&key) {
            Some(endpoint) => Ok(ProxyManagerMsg::DeleteTcpProxy { endpoint: endpoint.duplicate() }),
            None => Err(ProxyError::NoSuchEndpoint),
        }
    }

    /// The outcome of a removal once its request went to the proxy task: the
    /// answer is awaited but what it says is not looked at, so the removal
    /// fails only where the request could not be handed over.
    pub fn deletion_result(reply: &ManagerReply) -> (r: Result<(), ProxyError>)
        ensures
            r == match reply {
                ManagerReply::NotSent => Err::<(), ProxyError>(ProxyError::ChannelClosed),
                _ => Ok::<(), ProxyError>(()),
            },
    {
        match reply {
            ManagerReply::NotSent => Err(ProxyError::ChannelClosed),
            _ => Ok(()),
        }
    }

    /// Starts an allocation: asks for the udp proxy in front of the request's
    /// target. The udp port must be decimal text of a `u16`.
    pub fn create_proxy(&self, request: AllocateRequest) -> (step: AllocationStep)
        requires
            port_text_value(request.target_udp_port@) is Ok,
        ensures
            step matches AllocationStep::Send { job, request: ProxyManagerMsg::CreateUdpProxy { endpoint } }
                && endpoint@ == (EndpointView {
                    port: port_text_value(request.target_udp_port@)->Ok_0 as u16,
                    ip: request.target_ip@,
                    session_id: request.session_id@,
                })
                && job.endpoint@ == endpoint@
                && job.stage == AllocationStage::Udp
                && job.udp_port == 0
                && job.tcp_port == 0
                && same_request(job.request, request)
                && recorded_so_far(&job, self@),
    {
        let udp = match parse_u16(request.target_udp_port.as_str()) {
            Ok(p) => p,
            Err(_) => 0,
        };
        let endpoint = Endpoint::new(udp, request.target_ip.as_str(), request.session_id.as_str());
        let msg = ProxyManagerMsg::CreateUdpProxy { endpoint: endpoint.duplicate() };
        AllocationStep::Send {
            job: Allocation { request, stage: AllocationStage::Udp, udp_port: 0, tcp_port: 0, endpoint },
            request: msg,
        }
    }

    /// Carries an allocation on with the reply to its last request: records
    /// the session of a proxy that was set up, then reads the next port of
    /// the request, or ends.
    pub fn advance(&mut self, job: Allocation, reply: ManagerReply) -> (step: AllocationStep)
        requires
            old(self).wf(),
            recorded_so_far(&job, old(self)@),
        ensures
            final(self).wf(),
            job.stage == AllocationStage::Udp ==> after_udp_reply(old(self)@, final(self)@, &job, &reply, step),
            job.stage != AllocationStage::Udp ==> after_tcp_reply(old(self)@, final(self)@, &job, &reply, step),
            step matches AllocationStep::Send { job: next, .. } ==> recorded_so_far(&next, final(self)@),
            step matches AllocationStep::Finished(Ok(resp)) ==> records_response(final(self)@, resp, job.request.session_id@),
    {
        let Allocation { request, stage, udp_port, tcp_port, endpoint } = job;
        let ghost old_view = self@;
        match stage {
            AllocationStage::Udp => match reply {
                ManagerReply::NotSent => AllocationStep::Finished(Err(ProxyError::ChannelClosed)),
                ManagerReply::Dropped => AllocationStep::Finished(Err(ProxyError::UdpAllocationFailed)),
                ManagerReply::Received(ProxyManagerMsg::CreateUdpProxyRs { port }) => {
                    let session = endpoint.session_on(port);
                    let ghost ev = endpoint@;
                    self.udp_endpoints.insert(session, endpoint);
                    assert(self@.udp =~= old_view.udp.insert(SessionView { port, session_id: ev.session_id }, ev));
                    assert(self@.tcp =~= old_view.tcp);
                    tcp_step(request, port)
                },
                ManagerReply::Received(ProxyManagerMsg::UdpProxyErrorRs { error }) => {
                    AllocationStep::Finished(Err(ProxyError::Proxy(error)))
                },
                ManagerReply::Received(_) => AllocationStep::Finished(Err(ProxyError::UdpAllocationFailed)),
            },
            _ => match reply {
                ManagerReply::NotSent => AllocationStep::Finished(Err(ProxyError::TcpRequestNotSent)),
                ManagerReply::Dropped => AllocationStep::Finished(Err(ProxyError::TcpResultMissing)),
                ManagerReply::Received(ProxyManagerMsg::CreateTcpProxyRs { port }) => {
                    let session = endpoint.session_on(port);
                    let ghost ev = endpoint@;
                    self.tcp_endpoints.insert(session, endpoint);
                    assert(self@.tcp =~= old_view.tcp.insert(SessionView { port, session_id: ev.session_id }, ev));
                    assert(self@.udp =~= old_view.udp);
                    if stage == AllocationStage::Tcp {
                        ssl_step(request, udp_port, port)
                    } else {
                        AllocationStep::Finished(Ok(AllocateResponse {
                            proxy_udp_port: udp_port,
                            proxy_tcp_port: tcp_port,
                            proxy_ssl_tcp_port: port,
                        }))
                    }
                },
                ManagerReply::Received(ProxyManagerMsg::TcpProxyErrorRs { error }) => {
                    AllocationStep::Finished(Err(ProxyError::Proxy(error)))
                },
                ManagerReply::Received(_) => AllocationStep::Finished(Err(ProxyError::BadMessage)),
            },
        }
    }
}

/// The proxies that the proxy task runs, by protocol: for each endpoint, the
/// local port it listens on and the handle of the running proxy.
pub struct ProxyTask<U, T> {
    udp_proxy: Table<Endpoint, (u16, U)>,
    tcp_proxy: Table<Endpoint, (u16, T)>,
}

pub struct ProxyTaskView<U, T> {
    pub udp: Map<EndpointView, (u16, U)>,
    pub tcp: Map<EndpointView, (u16, T)>,
}

impl<U, T> View for ProxyTask<U, T> {
    type V = ProxyTaskView<U, T>;

    closed spec fn view(&self) -> ProxyTaskView<U, T> {
        ProxyTaskView { udp: self.udp_proxy.view(), tcp: self.tcp_proxy.view() }
    }
}

/// What the proxy task does about a message.
pub enum TaskAction<U, T> {
    /// Answer the request with this message.
    Respond(ProxyManagerMsg),
    /// Set up a udp proxy for the endpoint, then report how that went.
    StartUdp(Endpoint),
    /// Set up a tcp proxy for the endpoint, then report how that went.
    StartTcp(Endpoint),
    /// Stop this udp proxy, then send the answer if there is one.
    StopUdp { udp: U, response: Option<ProxyManagerMsg> },
    /// Stop this tcp proxy, then send the answer if there is one.
    StopTcp { tcp: T, response: Option<ProxyManagerMsg> },
    /// A proxy reported its end but none was recorded for it: warn with this text.
    Warn(String),
    /// Nothing to do.
    Ignore,
}

/// The text of the error for a removal that found no proxy for `e`.
pub open spec fn missing_proxy_text(e: EndpointView) -> Seq<char> {
    "There aren't proxy to delete for "@ + endpoint_debug_text(e.port, e.ip, e.session_id)
}

/// How the proxy task answers `msg`, going from `old` to `new`.
pub open spec fn task_step<U, T>(
    old: ProxyTaskView<U, T>,
    msg: &ProxyManagerMsg,
    new: ProxyTaskView<U, T>,
    action: &TaskAction<U, T>,
) -> bool {
    match msg {
        ProxyManagerMsg::CreateUdpProxy { endpoint } => new == old && if old.udp.contains_key(endpoint@) {
            *action == TaskAction::<U, T>::Respond(ProxyManagerMsg::CreateUdpProxyRs { port: old.udp[endpoint@].0 })
        } else {
            action matches TaskAction::StartUdp(e) && e@ == endpoint@
        },
        ProxyManagerMsg::CreateTcpProxy { endpoint } => new == old && if old.tcp.contains_key(endpoint@) {
            *action == TaskAction::<U, T>::Respond(ProxyManagerMsg::CreateTcpProxyRs { port: old.tcp[endpoint@].0 })
        } else {
            action matches TaskAction::StartTcp(e) && e@ == endpoint@
        },
        ProxyManagerMsg::DeleteUdpProxy { endpoint } => if old.udp.contains_key(endpoint@) {
            &&& new.udp == old.udp.remove(endpoint@)
            &&& new.tcp == old.tcp
            &&& action matches TaskAction::StopUdp { udp: handler, response: Some(ProxyManagerMsg::DeleteUdpProxyRs {}) }
            &&& handler == old.udp[endpoint@].1
        } else {
            new == old && (action matches TaskAction::Respond(ProxyManagerMsg::UdpProxyErrorRs { error })
                && error@ == missing_proxy_text(endpoint@))
        },
        ProxyManagerMsg::DeleteTcpProxy { endpoint } => if old.tcp.contains_key(endpoint@) {
            &&& new.tcp == old.tcp.remove(endpoint@)
            &&& new.udp == old.udp
            &&& action matches TaskAction::StopTcp { tcp: handler, response: Some(ProxyManagerMsg::DeleteTcpProxyRs {}) }
            &&& handler == old.tcp[endpoint@].1
        } else {
            new == old && (action matches TaskAction::Respond(ProxyManagerMsg::TcpProxyErrorRs { error })
                && error@ == missing_proxy_text(endpoint@))
        },
        ProxyManagerMsg::UdpEndpointEnded { endpoint } => if old.udp.contains_key(endpoint@) {
            &&& new.udp == old.udp.remove(endpoint@)
            &&& new.tcp == old.tcp
            &&& action matches TaskAction::StopUdp { udp: handler, response: None }
            &&& handler == old.udp[endpoint@].1
        } else {
            new == old && (action matches TaskAction::Warn(text) && text@ == missing_proxy_text(endpoint@))
        },
        ProxyManagerMsg::TcpEndpointEnded { endpoint } => if old.tcp.contains_key(endpoint@) {
            &&& new.tcp == old.tcp.remove(endpoint@)
            &&& new.udp == old.udp
            &&& action matches TaskAction::StopTcp { tcp: handler, response: None }
            &&& handler == old.tcp[endpoint@].1
        } else {
            new == old && (action matches TaskAction::Warn(text) && text@ == missing_proxy_text(endpoint@))
        },
        _ => new == old && *action == TaskAction::<U, T>::Ignore,
    }
}

/// How the proxy task records the outcome of setting up a udp proxy for `e`.
pub open spec fn udp_started<U, T>(
    old: ProxyTaskView<U, T>,
    e: EndpointView,
    outcome: &Result<(u16, U), String>,
    new: ProxyTaskView<U, T>,
    answer: &ProxyManagerMsg,
) -> bool {
    match outcome {
        Ok((port, h)) => new.udp == old.udp.insert(e, (*port, *h)) && new.tcp == old.tcp
            && *answer == ProxyManagerMsg::CreateUdpProxyRs { port: *port },
        Err(error) => new == old && (answer matches ProxyManagerMsg::UdpProxyErrorRs { error: text } && text@ == error@),
    }
}

/// How the proxy task records the outcome of setting up a tcp proxy for `e`.
pub open spec fn tcp_started<U, T>(
    old: ProxyTaskView<U, T>,
    e: EndpointView,
    outcome: &Result<(u16, T), String>,
    new: ProxyTaskView<U, T>,
    answer: &ProxyManagerMsg,
) -> bool {
    match outcome {
        Ok((port, h)) => new.tcp == old.tcp.insert(e, (*port, *h)) && new.udp == old.udp
            && *answer == ProxyManagerMsg::CreateTcpProxyRs { port: *port },
        Err(error) => new == old && (answer matches ProxyManagerMsg::TcpProxyErrorRs { error: text } && text@ == error@),
    }
}

impl<U, T> ProxyTask<U, T> {
    pub closed spec fn wf(&self) -> bool {
        self.udp_proxy.wf() && self.tcp_proxy.wf()
    }

    pub fn new() -> (t: ProxyTask<U, T>)
        ensures
            t.wf(),
            t@.udp == Map::<EndpointView, (u16, U)>::empty(),
            t@.tcp == Map::<EndpointView, (u16, T)>::empty(),
    {
        ProxyTask { udp_proxy: Table::new(), tcp_proxy: Table::new() }
    }

    /// Decides what to do about `msg`, and records a removal.
    pub fn handle(&mut self, msg: ProxyManagerMsg) -> (action: TaskAction<U, T>)
        requires
            old(self).wf(),
        ensures
            final(self).wf(),
            task_step(old(self)@, &msg, final(self)@, &action),
    {
        match msg {
            ProxyManagerMsg::CreateUdpProxy { endpoint } => match self.udp_proxy.get(&endpoint) {
                Some(entry) => TaskAction::Respond(ProxyManagerMsg::CreateUdpProxyRs { port: entry.0 }),
                None => TaskAction::StartUdp(endpoint),
            },
            ProxyManagerMsg::CreateTcpProxy { endpoint } => match self.tcp_proxy.get(&endpoint) {
                Some(entry) => TaskAction::Respond(ProxyManagerMsg::CreateTcpProxyRs { port: entry.0 }),
                None => TaskAction::StartTcp(endpoint),
            },
            ProxyManagerMsg::DeleteUdpProxy { endpoint } => match self.udp_proxy.remove(&endpoint) {
                Some(entry) => TaskAction::StopUdp {
                    udp: entry.1,
                    response: Some(ProxyManagerMsg::DeleteUdpProxyRs {}),
                },
                None => {
                    assert(self@.udp =~= old(self)@.udp);
                    TaskAction::Respond(ProxyManagerMsg::UdpProxyErrorRs { error: Self::missing(&endpoint) })
                },
            },
            ProxyManagerMsg::DeleteTcpProxy { endpoint } => match self.tcp_proxy.remove(&endpoint) {
                Some(entry) => TaskAction::StopTcp {
                    tcp: entry.1,
                    response: Some(ProxyManagerMsg::DeleteTcpProxyRs {}),
                },
                None => {
                    assert(self@.tcp =~= old(self)@.tcp);
                    TaskAction::Respond(ProxyManagerMsg::TcpProxyErrorRs { error: Self::missing(&endpoint) })
                },
            },
            ProxyManagerMsg::UdpEndpointEnded { endpoint } => match self.udp_proxy.remove(&endpoint) {
                Some(entry) => TaskAction::StopUdp { udp: entry.1, response: None },
                None => {
                    assert(self@.udp =~= old(self)@.udp);
                    TaskAction::Warn(Self::missing(&endpoint))
                },
            },
            ProxyManagerMsg::TcpEndpointEnded { endpoint } => match self.tcp_proxy.remove(&endpoint) {
                Some(entry) => TaskAction::StopTcp { tcp: entry.1, response: None },
                None => {
                    assert(self@.tcp =~= old(self)@.tcp);
                    TaskAction::Warn(Self::missing(&endpoint))
                },
            },
            _ => TaskAction::Ignore,
        }
    }

    fn missing(endpoint: &Endpoint) -> (s: String)
        ensures
            s@ == missing_proxy_text(endpoint@),
    {
        let text = endpoint_debug(endpoint);
        missing_proxy_message(text.as_str())
    }

    /// Records a udp proxy that was set up for `endpoint`, or reports why it was not.
    pub fn udp_started(&mut self, endpoint: Endpoint, outcome: Result<(u16, U), String>) -> (answer: ProxyManagerMsg)
        requires
            old(self).wf(),
        ensures
            final(self).wf(),
            udp_started(old(self)@, endpoint@, &outcome, final(self)@, &answer),
    {
        match outcome {
            Ok((port, h)) => {
                self.udp_proxy.insert(endpoint, (port, h));
                ProxyManagerMsg::CreateUdpProxyRs { port }
            },
            Err(error) => ProxyManagerMsg::UdpProxyErrorRs { error },
        }
    }

    /// Records a tcp proxy that was set up for `endpoint`, or reports why it was not.
    pub fn tcp_started(&mut self, endpoint: Endpoint, outcome: Result<(u16, T), String>) -> (answer: ProxyManagerMsg)
        requires
            old(self).wf(),
        ensures
            final(self).wf(),
            tcp_started(old(self)@, endpoint@, &outcome, final(self)@, &answer),
    {
        match outcome {
            Ok((port, h)) => {
                self.tcp_proxy.insert(endpoint, (port, h));
                ProxyManagerMsg::CreateTcpProxyRs { port }
            },
            Err(error) => ProxyManagerMsg::TcpProxyErrorRs { error },
        }
    }
}

/// The endpoint that a message to the proxy task is about, if any.
pub open spec fn message_endpoint(msg: &ProxyManagerMsg) -> Option<EndpointView> {
    match msg {
        ProxyManagerMsg::CreateUdpProxy { endpoint } => Some(endpoint@),
        ProxyManagerMsg::CreateTcpProxy { endpoint } => Some(endpoint@),
        ProxyManagerMsg::DeleteUdpProxy { endpoint } => Some(endpoint@),
        ProxyManagerMsg::DeleteTcpProxy { endpoint } => Some(endpoint@),
        ProxyManagerMsg::UdpEndpointEnded { endpoint } => Some(endpoint@),
        ProxyManagerMsg::TcpEndpointEnded { endpoint } => Some(endpoint@),
        _ => None,
    }
}

/// The proxies recorded for `e`, udp and tcp, are the same in `v0` and `v1`.
pub open spec fn keeps_entry<U, T>(v0: ProxyTaskView<U, T>, v1: ProxyTaskView<U, T>, e: EndpointView) -> bool {
    &&& v1.udp.contains_key(e) == v0.udp.contains_key(e)
    &&& v0.udp.contains_key(e) ==> v1.udp[e] == v0.udp[e]
    &&& v1.tcp.contains_key(e) == v0.tcp.contains_key(e)
    &&& v0.tcp.contains_key(e) ==> v1.tcp[e] == v0.tcp[e]
}

/// After the proxy task handles a removal (or an end report) for an
/// endpoint, no proxy of that protocol is recorded for it, and the other
/// protocol's proxies are untouched.
pub proof fn law_removal_leaves_endpoint_absent<U, T>(
    v0: ProxyTaskView<U, T>,
    msg: ProxyManagerMsg,
    v1: ProxyTaskView<U, T>,
    action: TaskAction<U, T>,
    e: EndpointView,
)
    requires
        task_step(v0, &msg, v1, &action),
        message_endpoint(&msg) == Some(e),
    ensures
        (msg is DeleteUdpProxy || msg is UdpEndpointEnded) ==> !v1.udp.contains_key(e) && v1.tcp == v0.tcp,
        (msg is DeleteTcpProxy || msg is TcpEndpointEnded) ==> !v1.tcp.contains_key(e) && v1.udp == v0.udp,
{
}

/// Handling a message about another endpoint leaves what is recorded for `e` as it was.
pub proof fn law_other_messages_keep_entry<U, T>(
    v0: ProxyTaskView<U, T>,
    msg: ProxyManagerMsg,
    v1: ProxyTaskView<U, T>,
    action: TaskAction<U, T>,
    e: EndpointView,
)
    requires
        task_step(v0, &msg, v1, &action),
        message_endpoint(&msg) != Some(e),
    ensures
        keeps_entry(v0, v1, e),
{
}

/// Recording the set-up of a proxy for another endpoint leaves what is
/// recorded for `e` as it was.
pub proof fn law_other_starts_keep_entry<U, T>(
    v0: ProxyTaskView<U, T>,
    other: EndpointView,
    udp: Result<(u16, U), String>,
    tcp: Result<(u16, T), String>,
    v1: ProxyTaskView<U, T>,
    a1: ProxyManagerMsg,
    v2: ProxyTaskView<U, T>,
    a2: ProxyManagerMsg,
    e: EndpointView,
)
    requires
        other != e,
        udp_started(v0, other, &udp, v1, &a1),
        tcp_started(v0, other, &tcp, v2, &a2),
    ensures
        keeps_entry(v0, v1, e),
        keeps_entry(v0, v2, e),
{
}

/// Keeping an entry composes over any number of steps.
pub proof fn law_keeps_entry_chains<U, T>(
    v0: ProxyTaskView<U, T>,
    v1: ProxyTaskView<U, T>,
    v2: ProxyTaskView<U, T>,
    e: EndpointView,
)
    requires
        keeps_entry(v0, v1, e),
        keeps_entry(v1, v2, e),
    ensures
        keeps_entry(v0, v2, e),
{
}

/// A removal for an endpoint, then any steps that keep its entry (such as
/// messages about other endpoints), then a second removal for it: the second
/// is answered with the error that no proxy is there, and changes nothing.
pub proof fn law_second_removal_is_refused<U, T>(
    v0: ProxyTaskView<U, T>,
    first: ProxyManagerMsg,
    v1: ProxyTaskView<U, T>,
    a1: TaskAction<U, T>,
    v2: ProxyTaskView<U, T>,
    second: ProxyManagerMsg,
    v3: ProxyTaskView<U, T>,
    a3: TaskAction<U, T>,
    e: EndpointView,
)
    requires
        task_step(v0, &first, v1, &a1),
        keeps_entry(v1, v2, e),
        task_step(v2, &second, v3, &a3),
        (first is DeleteUdpProxy && second is DeleteUdpProxy) || (first is DeleteTcpProxy
            && second is DeleteTcpProxy),
        message_endpoint(&first) == Some(e),
        message_endpoint(&second) == Some(e),
    ensures
        v3 == v2,
        first is DeleteUdpProxy ==> (a3 matches TaskAction::Respond(ProxyManagerMsg::UdpProxyErrorRs { error })
            && error@ == missing_proxy_text(e)),
        first is DeleteTcpProxy ==> (a3 matches TaskAction::Respond(ProxyManagerMsg::TcpProxyErrorRs { error })
            && error@ == missing_proxy_text(e)),
{
}

/// The proxy task stops a proxy only with the handle recorded for it, and
/// warns of a missing proxy only where none is recorded. For a removal or an
/// end report about `e`:
/// - where a proxy of that protocol is recorded for `e`, the action stops it,
///   with the recorded handle, answering a removal with its confirmation and an
///   end report with nothing, and its record is dropped;
/// - where none is recorded, nothing changes, a removal is answered with the
///   error for a missing proxy and an end report gives a warning.
pub proof fn law_task_stops_recorded_proxies<U, T>(
    v0: ProxyTaskView<U, T>,
    msg: ProxyManagerMsg,
    v1: ProxyTaskView<U, T>,
    action: TaskAction<U, T>,
    e: EndpointView,
)
    requires
        task_step(v0, &msg, v1, &action),
        message_endpoint(&msg) == Some(e),
    ensures
        (msg is DeleteUdpProxy || msg is UdpEndpointEnded) && v0.udp.contains_key(e) ==> {
            &&& action matches TaskAction::StopUdp { udp, response } && udp == v0.udp[e].1
                && (response is Some <==> msg is DeleteUdpProxy)
                && (response matches Some(r) ==> r is DeleteUdpProxyRs)
            &&& !v1.udp.contains_key(e)
        },
        (msg is DeleteTcpProxy || msg is TcpEndpointEnded) && v0.tcp.contains_key(e) ==> {
            &&& action matches TaskAction::StopTcp { tcp, response } && tcp == v0.tcp[e].1
                && (response is Some <==> msg is DeleteTcpProxy)
                && (response matches Some(r) ==> r is DeleteTcpProxyRs)
            &&& !v1.tcp.contains_key(e)
        },
        (msg is DeleteUdpProxy || msg is UdpEndpointEnded) && !v0.udp.contains_key(e) ==> {
            &&& v1 == v0
            &&& msg is DeleteUdpProxy ==> (action matches TaskAction::Respond(ProxyManagerMsg::UdpProxyErrorRs { error })
                && error@ == missing_proxy_text(e))
            &&& msg is UdpEndpointEnded ==> (action matches TaskAction::Warn(text) && text@ == missing_proxy_text(e))
        },
        (msg is DeleteTcpProxy || msg is TcpEndpointEnded) && !v0.tcp.contains_key(e) ==> {
            &&& v1 == v0
            &&& msg is DeleteTcpProxy ==> (action matches TaskAction::Respond(ProxyManagerMsg::TcpProxyErrorRs { error })
                && error@ == missing_proxy_text(e))
            &&& msg is TcpEndpointEnded ==> (action matches TaskAction::Warn(text) && text@ == missing_proxy_text(e))
        },
        action is Warn ==> (msg is UdpEndpointEnded && !v0.udp.contains_key(e)) || (msg is TcpEndpointEnded
            && !v0.tcp.contains_key(e)),
{
}

/// Recording the set-up of a proxy for `e` answers a creation exactly when the
/// set-up succeeded, with the port it bound, and records that proxy; a failed
/// set-up is answered with the error of the protocol, carrying the failure's
/// text, and changes nothing.
pub proof fn law_start_answers_its_outcome<U, T>(
    v0: ProxyTaskView<U, T>,
    e: EndpointView,
    udp: Result<(u16, U), String>,
    v1: ProxyTaskView<U, T>,
    a1: ProxyManagerMsg,
    tcp: Result<(u16, T), String>,
    v2: ProxyTaskView<U, T>,
    a2: ProxyManagerMsg,
)
    requires
        udp_started(v0, e, &udp, v1, &a1),
        tcp_started(v0, e, &tcp, v2, &a2),
    ensures
        a1 is CreateUdpProxyRs <==> udp is Ok,
        udp matches Ok((port, h)) ==> a1 == (ProxyManagerMsg::CreateUdpProxyRs { port }) && v1.udp.contains_key(e)
            && v1.udp[e] == (port, h) && v1.tcp == v0.tcp,
        udp matches Err(t) ==> (a1 matches ProxyManagerMsg::UdpProxyErrorRs { error } && error@ == t@) && v1 == v0,
        a2 is CreateTcpProxyRs <==> tcp is Ok,
        tcp matches Ok((port, h)) ==> a2 == (ProxyManagerMsg::CreateTcpProxyRs { port }) && v2.tcp.contains_key(e)
            && v2.tcp[e] == (port, h) && v2.udp == v0.udp,
        tcp matches Err(t) ==> (a2 matches ProxyManagerMsg::TcpProxyErrorRs { error } && error@ == t@) && v2 == v0,
{
}

/// A second request for a udp proxy in front of an endpoint whose proxy was
/// set up is answered with the port of that proxy, and changes nothing.
pub proof fn law_udp_creation_is_idempotent<U, T>(
    v0: ProxyTaskView<U, T>,
    e: EndpointView,
    port: u16,
    h: U,
    v1: ProxyTaskView<U, T>,
    answer: ProxyManagerMsg,
    msg: ProxyManagerMsg,
    v2: ProxyTaskView<U, T>,
    action: TaskAction<U, T>,
)
    requires
        udp_started(v0, e, &Ok::<(u16, U), String>((port, h)), v1, &answer),
        msg matches ProxyManagerMsg::CreateUdpProxy { endpoint } && endpoint@ == e,
        task_step(v1, &msg, v2, &action),
    ensures
        answer == (ProxyManagerMsg::CreateUdpProxyRs { port }),
        action == TaskAction::<U, T>::Respond(ProxyManagerMsg::CreateUdpProxyRs { port }),
        v2 == v1,
{
}

/// A second request for a tcp proxy in front of an endpoint whose proxy was
/// set up is answered with the port of that proxy, and changes nothing.
pub proof fn law_tcp_creation_is_idempotent<U, T>(
    v0: ProxyTaskView<U, T>,
    e: EndpointView,
    port: u16,
    h: T,
    v1: ProxyTaskView<U, T>,
    answer: ProxyManagerMsg,
    msg: ProxyManagerMsg,
    v2: ProxyTaskView<U, T>,
    action: TaskAction<U, T>,
)
    requires
        tcp_started(v0, e, &Ok::<(u16, T), String>((port, h)), v1, &answer),
        msg matches ProxyManagerMsg::CreateTcpProxy { endpoint } && endpoint@ == e,
        task_step(v1, &msg, v2, &action),
    ensures
        answer == (ProxyManagerMsg::CreateTcpProxyRs { port }),
        action == TaskAction::<U, T>::Respond(ProxyManagerMsg::CreateTcpProxyRs { port }),
        v2 == v1,
{
}

/// Removing the udp proxy of an endpoint that had none before it was set up
/// gives back its handle and returns the task to where it was.
pub proof fn law_udp_removal_undoes_creation<U, T>(
    v0: ProxyTaskView<U, T>,
    e: EndpointView,
    port: u16,
    h: U,
    v1: ProxyTaskView<U, T>,
    answer: ProxyManagerMsg,
    msg: ProxyManagerMsg,
    v2: ProxyTaskView<U, T>,
    action: TaskAction<U, T>,
)
    requires
        !v0.udp.contains_key(e),
        udp_started(v0, e, &Ok::<(u16, U), String>((port, h)), v1, &answer),
        msg matches ProxyManagerMsg::DeleteUdpProxy { endpoint } && endpoint@ == e,
        task_step(v1, &msg, v2, &action),
    ensures
        v2.udp == v0.udp,
        v2.tcp == v0.tcp,
        action matches TaskAction::StopUdp { udp, response: Some(ProxyManagerMsg::DeleteUdpProxyRs {}) } && udp == h,
{
    assert(v2.udp =~= v0.udp);
}

/// Removing the tcp proxy of an endpoint that had none before it was set up
/// gives back its handle and returns the task to where it was.
pub proof fn law_tcp_removal_undoes_creation<U, T>(
    v0: ProxyTaskView<U, T>,
    e: EndpointView,
    port: u16,
    h: T,
    v1: ProxyTaskView<U, T>,
    answer: ProxyManagerMsg,
    msg: ProxyManagerMsg,
    v2: ProxyTaskView<U, T>,
    action: TaskAction<U, T>,
)
    requires
        !v0.tcp.contains_key(e),
        tcp_started(v0, e, &Ok::<(u16, T), String>((port, h)), v1, &answer),
        msg matches ProxyManagerMsg::DeleteTcpProxy { endpoint } && endpoint@ == e,
        task_step(v1, &msg, v2, &action),
    ensures
        v2.udp == v0.udp,
        v2.tcp == v0.tcp,
        action matches TaskAction::StopTcp { tcp, response: Some(ProxyManagerMsg::DeleteTcpProxyRs {}) } && tcp == h,
{
    assert(v2.tcp =~= v0.tcp);
}

} // verus!
