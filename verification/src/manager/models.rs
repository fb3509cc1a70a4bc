use vstd::prelude::*;

verus! {

/// A request to open proxy ports in front of a target: the target's ports
/// arrive as decimal text, `"0"` for a tcp port that is not wanted.
pub struct AllocateRequest {
    pub target_udp_port: String,
    pub target_tcp_port: String,
    pub target_ssl_tcp_port: String,
    pub target_ip: String,
    pub session_id: String,
}

/// The local ports that now forward to the target; 0 where none was opened.
#[derive(Debug, Clone, Copy, PartialEq, Eq, Structural)]
pub struct AllocateResponse {
    pub proxy_udp_port: u16,
    pub proxy_tcp_port: u16,
    pub proxy_ssl_tcp_port: u16,
}

/// The periodic load message sent to the registration service.
pub struct LoadReport {
    pub _type: &'static str,
    pub load: u32,
}

/// The message that announces this proxy to the registration service.
pub struct RegisterRequest {
    pub _type: &'static str,
    pub guid: String,
    pub public_ipv4: String,
    pub public_ipv6: String,
    pub private_ip: String,
    pub az: String,
}

/// The message that withdraws this proxy, giving the period it will drain for.
pub struct DeregisterRequest {
    pub _type: &'static str,
    pub drain_period_sec: u32,
}

impl LoadReport {
    /// A load report carrying `load`.
    pub fn new(load: u32) -> (r: LoadReport)
        ensures
            r._type@ == "load"@,
            r.load == load,
    {
        LoadReport { _type: "load", load }
    }
}

impl RegisterRequest {
    /// The registration message for a proxy with these identities and addresses.
    pub fn new(
        guid: String,
        public_ipv4: String,
        public_ipv6: String,
        private_ip: String,
        az: String,
    ) -> (r: RegisterRequest)
        ensures
            r._type@ == "register"@,
            r.guid@ == guid@,
            r.public_ipv4@ == public_ipv4@,
            r.public_ipv6@ == public_ipv6@,
            r.private_ip@ == private_ip@,
            r.az@ == az@,
    {
        RegisterRequest { _type: "register", guid, public_ipv4, public_ipv6, private_ip, az }
    }
}

impl DeregisterRequest {
    /// The withdrawal message announcing a drain of `drain_period_sec` seconds.
    pub fn new(drain_period_sec: u32) -> (r: DeregisterRequest)
        ensures
            r._type@ == "deregister"@,
            r.drain_period_sec == drain_period_sec,
    {
        DeregisterRequest { _type: "deregister", drain_period_sec }
    }
}

} // verus!
