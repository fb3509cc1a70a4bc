use rrr_proxy::decimal::parse_u16;
use rrr_proxy::decimal::IntErrorKind;
use rrr_proxy::manager::models::{AllocateRequest, AllocateResponse};
use rrr_proxy::proxy::{
    missing_proxy_message, AllocationStage, AllocationStep, Endpoint, FixBoxError, ManagerReply,
    ProxyError, ProxyManager, ProxyManagerMsg, ProxyTask, Session, TaskAction,
};

fn request(udp: &str, tcp: &str, ssl: &str) -> AllocateRequest {
    AllocateRequest {
        target_udp_port: udp.to_string(),
        target_tcp_port: tcp.to_string(),
        target_ssl_tcp_port: ssl.to_string(),
        target_ip: "10.0.0.5".to_string(),
        session_id: "s1".to_string(),
    }
}

fn send_parts(step: AllocationStep) -> (rrr_proxy::proxy::Allocation, ProxyManagerMsg) {
    match step {
        AllocationStep::Send { job, request } => (job, request),
        AllocationStep::Finished(_) => panic!("expected a request"),
    }
}

fn finished(step: AllocationStep) -> Result<AllocateResponse, ProxyError> {
    match step {
        AllocationStep::Finished(r) => r,
        AllocationStep::Send { .. } => panic!("expected an outcome"),
    }
}

#[test]
fn endpoint_shows_as_ip_and_port() {
    let e = Endpoint::new(8080, "10.0.0.5", "s1");
    assert_eq!(e.to_string(), "10.0.0.5:8080");
    assert_eq!(e.port(), 8080);
    assert_eq!(e.ip(), "10.0.0.5");
    assert_eq!(e.session_id(), "s1");
    let d = e.duplicate();
    assert_eq!(d.to_string(), "10.0.0.5:8080");
    assert_eq!(Endpoint::new(0, "::1", "x").to_string(), "::1:0");
}

#[test]
fn session_of_an_endpoint() {
    let e = Endpoint::new(8080, "10.0.0.5", "s1");
    let s = e.session_on(4000);
    assert_eq!(format!("{:?}", s), format!("{:?}", Session::new(4000, "s1")));
}

#[test]
fn error_texts() {
    assert_eq!(ProxyError::NoSuchEndpoint.message(), "No such endpoint");
    assert_eq!(ProxyError::Parse(IntErrorKind::Empty).message(), "".parse::<u16>().unwrap_err().to_string());
    assert_eq!(ProxyError::Parse(IntErrorKind::InvalidDigit).message(), "x".parse::<u16>().unwrap_err().to_string());
    assert_eq!(ProxyError::Parse(IntErrorKind::PosOverflow).message(), "70000".parse::<u16>().unwrap_err().to_string());
    assert_eq!(ProxyError::Proxy("boom".to_string()).message(), "boom");
    assert_eq!(ProxyError::BadMessage.message(), "Bad messsage");
}

#[test]
fn fix_box_keeps_values_and_texts_errors() {
    let ok: Result<u16, ProxyError> = Ok(5);
    assert_eq!(ok.fix_box(), Ok(5));
    let err: Result<u16, ProxyError> = Err(ProxyError::TcpResultMissing);
    assert_eq!(err.fix_box(), Err("Tcp allocation result has not been recieved".to_string()));
}

#[test]
fn missing_proxy_text() {
    assert_eq!(missing_proxy_message("E"), "There aren't proxy to delete for E");
}

#[test]
fn allocation_of_udp_tcp_and_ssl() {
    let mut m = ProxyManager::new();
    let (job, msg) = send_parts(m.create_proxy(request("5000", "6000", "6001")));
    assert_eq!(job.stage, AllocationStage::Udp);
    match &msg {
        ProxyManagerMsg::CreateUdpProxy { endpoint } => assert_eq!(endpoint.to_string(), "10.0.0.5:5000"),
        _ => panic!("expected a udp request"),
    }
    let (job, msg) = send_parts(m.advance(job, ManagerReply::Received(ProxyManagerMsg::CreateUdpProxyRs { port: 41000 })));
    assert_eq!(job.stage, AllocationStage::Tcp);
    match &msg {
        ProxyManagerMsg::CreateTcpProxy { endpoint } => assert_eq!(endpoint.to_string(), "10.0.0.5:6000"),
        _ => panic!("expected a tcp request"),
    }
    let (job, msg) = send_parts(m.advance(job, ManagerReply::Received(ProxyManagerMsg::CreateTcpProxyRs { port: 41001 })));
    assert_eq!(job.stage, AllocationStage::Ssl);
    match &msg {
        ProxyManagerMsg::CreateTcpProxy { endpoint } => assert_eq!(endpoint.to_string(), "10.0.0.5:6001"),
        _ => panic!("expected an ssl request"),
    }
    let r = finished(m.advance(job, ManagerReply::Received(ProxyManagerMsg::CreateTcpProxyRs { port: 41002 })));
    assert_eq!(r.unwrap(), AllocateResponse { proxy_udp_port: 41000, proxy_tcp_port: 41001, proxy_ssl_tcp_port: 41002 });
    // every reported port is recorded under the session
    match m.delete_udp_proxy(41000, "s1".to_string()) {
        Ok(ProxyManagerMsg::DeleteUdpProxy { endpoint }) => assert_eq!(endpoint.to_string(), "10.0.0.5:5000"),
        _ => panic!("udp session missing"),
    }
    match m.delete_tcp_proxy(41001, "s1".to_string()) {
        Ok(ProxyManagerMsg::DeleteTcpProxy { endpoint }) => assert_eq!(endpoint.to_string(), "10.0.0.5:6000"),
        _ => panic!("tcp session missing"),
    }
    match m.delete_tcp_proxy(41002, "s1".to_string()) {
        Ok(ProxyManagerMsg::DeleteTcpProxy { endpoint }) => assert_eq!(endpoint.to_string(), "10.0.0.5:6001"),
        _ => panic!("ssl session missing"),
    }
    assert!(matches!(m.delete_udp_proxy(41000, "s2".to_string()), Err(ProxyError::NoSuchEndpoint)));
    assert!(matches!(m.delete_tcp_proxy(41000, "s1".to_string()), Err(ProxyError::NoSuchEndpoint)));
}

#[test]
fn allocation_of_udp_only() {
    let mut m = ProxyManager::new();
    let (job, _) = send_parts(m.create_proxy(request("5000", "0", "0")));
    let r = finished(m.advance(job, ManagerReply::Received(ProxyManagerMsg::CreateUdpProxyRs { port: 40000 })));
    assert_eq!(r.unwrap(), AllocateResponse { proxy_udp_port: 40000, proxy_tcp_port: 0, proxy_ssl_tcp_port: 0 });
}

#[test]
fn allocation_with_ssl_only() {
    let mut m = ProxyManager::new();
    let (job, _) = send_parts(m.create_proxy(request("5000", "0", "443")));
    let (job, msg) = send_parts(m.advance(job, ManagerReply::Received(ProxyManagerMsg::CreateUdpProxyRs { port: 40000 })));
    assert_eq!(job.stage, AllocationStage::Ssl);
    assert!(matches!(msg, ProxyManagerMsg::CreateTcpProxy { .. }));
    let r = finished(m.advance(job, ManagerReply::Received(ProxyManagerMsg::CreateTcpProxyRs { port: 40001 })));
    assert_eq!(r.unwrap(), AllocateResponse { proxy_udp_port: 40000, proxy_tcp_port: 0, proxy_ssl_tcp_port: 40001 });
}

#[test]
fn allocation_errors() {
    let mut m = ProxyManager::new();
    let (job, _) = send_parts(m.create_proxy(request("5000", "abc", "0")));
    let r = finished(m.advance(job, ManagerReply::Received(ProxyManagerMsg::CreateUdpProxyRs { port: 40000 })));
    assert!(matches!(r, Err(ProxyError::Parse(IntErrorKind::InvalidDigit))));
    // the udp session stays recorded
    assert!(m.delete_udp_proxy(40000, "s1".to_string()).is_ok());

    let (job, _) = send_parts(m.create_proxy(request("5000", "0", "70000")));
    let r = finished(m.advance(job, ManagerReply::Received(ProxyManagerMsg::CreateUdpProxyRs { port: 40002 })));
    assert!(matches!(r, Err(ProxyError::Parse(IntErrorKind::PosOverflow))));

    let (job, _) = send_parts(m.create_proxy(request("5000", "0", "0")));
    assert!(matches!(finished(m.advance(job, ManagerReply::NotSent)), Err(ProxyError::ChannelClosed)));
    let (job, _) = send_parts(m.create_proxy(request("5000", "0", "0")));
    assert!(matches!(finished(m.advance(job, ManagerReply::Dropped)), Err(ProxyError::UdpAllocationFailed)));
    let (job, _) = send_parts(m.create_proxy(request("5000", "0", "0")));
    match finished(m.advance(job, ManagerReply::Received(ProxyManagerMsg::UdpProxyErrorRs { error: "no socket".to_string() }))) {
        Err(ProxyError::Proxy(e)) => assert_eq!(e, "no socket"),
        _ => panic!("expected the reported error"),
    }
    let (job, _) = send_parts(m.create_proxy(request("5000", "0", "0")));
    assert!(matches!(finished(m.advance(job, ManagerReply::Received(ProxyManagerMsg::DeleteUdpProxyRs {}))), Err(ProxyError::UdpAllocationFailed)));

    for (reply, expected) in [
        (ManagerReply::NotSent, "Can not initiate tcp proxy creation"),
        (ManagerReply::Dropped, "Tcp allocation result has not been recieved"),
        (ManagerReply::Received(ProxyManagerMsg::CreateUdpProxyRs { port: 1 }), "Bad messsage"),
        (ManagerReply::Received(ProxyManagerMsg::TcpProxyErrorRs { error: "bind failed".to_string() }), "bind failed"),
    ] {
        let (job, _) = send_parts(m.create_proxy(request("5000", "6000", "0")));
        let (job, _) = send_parts(m.advance(job, ManagerReply::Received(ProxyManagerMsg::CreateUdpProxyRs { port: 40000 })));
        let r = finished(m.advance(job, reply));
        assert_eq!(r.unwrap_err().message(), expected);
    }
}

#[test]
fn task_creates_once_and_removes() {
    let mut t: ProxyTask<&'static str, u8> = ProxyTask::new();
    let e = Endpoint::new(5000, "10.0.0.5", "s1");
    let started = match t.handle(ProxyManagerMsg::CreateUdpProxy { endpoint: e.duplicate() }) {
        TaskAction::StartUdp(ep) => ep,
        _ => panic!("expected a new udp proxy"),
    };
    assert_eq!(started.to_string(), "10.0.0.5:5000");
    match t.udp_started(started, Ok((41000, "h1"))) {
        ProxyManagerMsg::CreateUdpProxyRs { port } => assert_eq!(port, 41000),
        _ => panic!("expected the port"),
    }
    // a second request gets the same port
    match t.handle(ProxyManagerMsg::CreateUdpProxy { endpoint: e.duplicate() }) {
        TaskAction::Respond(ProxyManagerMsg::CreateUdpProxyRs { port }) => assert_eq!(port, 41000),
        _ => panic!("expected the running proxy's port"),
    }
    // removal gives the handle back
    match t.handle(ProxyManagerMsg::DeleteUdpProxy { endpoint: e.duplicate() }) {
        TaskAction::StopUdp { udp, response: Some(ProxyManagerMsg::DeleteUdpProxyRs {}) } => assert_eq!(udp, "h1"),
        _ => panic!("expected the proxy to stop"),
    }
    // and a second removal finds nothing
    match t.handle(ProxyManagerMsg::DeleteUdpProxy { endpoint: e.duplicate() }) {
        TaskAction::Respond(ProxyManagerMsg::UdpProxyErrorRs { error }) => {
            assert_eq!(error, format!("There aren't proxy to delete for {:?}", e))
        },
        _ => panic!("expected an error"),
    }
    match t.handle(ProxyManagerMsg::UdpEndpointEnded { endpoint: e.duplicate() }) {
        TaskAction::Warn(text) => assert!(text.starts_with("There aren't proxy to delete for ")),
        _ => panic!("expected a warning"),
    }
}

#[test]
fn task_tcp_side() {
    let mut t: ProxyTask<u8, u32> = ProxyTask::new();
    let e = Endpoint::new(6000, "10.0.0.5", "s1");
    assert!(matches!(t.handle(ProxyManagerMsg::CreateTcpProxy { endpoint: e.duplicate() }), TaskAction::StartTcp(_)));
    match t.tcp_started(e.duplicate(), Err("address in use".to_string())) {
        ProxyManagerMsg::TcpProxyErrorRs { error } => assert_eq!(error, "address in use"),
        _ => panic!("expected the error"),
    }
    assert!(matches!(t.handle(ProxyManagerMsg::CreateTcpProxy { endpoint: e.duplicate() }), TaskAction::StartTcp(_)));
    assert!(matches!(t.tcp_started(e.duplicate(), Ok((42000, 7))), ProxyManagerMsg::CreateTcpProxyRs { port: 42000 }));
    match t.handle(ProxyManagerMsg::TcpEndpointEnded { endpoint: e.duplicate() }) {
        TaskAction::StopTcp { tcp, response: None } => assert_eq!(tcp, 7),
        _ => panic!("expected the proxy to stop"),
    }
    assert!(matches!(t.handle(ProxyManagerMsg::DeleteUdpProxyRs {}), TaskAction::Ignore));
    // udp and tcp proxies are kept apart
    assert!(matches!(t.handle(ProxyManagerMsg::CreateUdpProxy { endpoint: e.duplicate() }), TaskAction::StartUdp(_)));
}

#[test]
fn deletion_waits_only_for_handing_over() {
    assert!(matches!(ProxyManager::deletion_result(&ManagerReply::NotSent), Err(ProxyError::ChannelClosed)));
    assert!(ProxyManager::deletion_result(&ManagerReply::Dropped).is_ok());
    assert!(ProxyManager::deletion_result(&ManagerReply::Received(ProxyManagerMsg::UdpProxyErrorRs { error: "x".to_string() })).is_ok());
    assert!(ProxyManager::deletion_result(&ManagerReply::Received(ProxyManagerMsg::DeleteUdpProxyRs {})).is_ok());
}

#[test]
fn endpoint_port_reads_back() {
    for (ip, port) in [("10.0.0.5", 0u16), ("example.org", 443), ("::1", 65535)] {
        let text = Endpoint::new(port, ip, "s").to_string();
        assert_eq!(&text[..ip.len()], ip);
        assert_eq!(&text[ip.len()..ip.len() + 1], ":");
        assert_eq!(parse_u16(&text[ip.len() + 1..]), Ok(port));
    }
}

#[test]
fn second_removal_after_other_traffic_is_refused() {
    let mut t: ProxyTask<u8, u8> = ProxyTask::new();
    let e = Endpoint::new(5000, "10.0.0.5", "s1");
    let o = Endpoint::new(5001, "10.0.0.5", "s2");
    t.udp_started(e.duplicate(), Ok((41000, 1)));
    t.tcp_started(e.duplicate(), Ok((41001, 2)));
    assert!(matches!(t.handle(ProxyManagerMsg::DeleteUdpProxy { endpoint: e.duplicate() }),
        TaskAction::StopUdp { udp: 1, response: Some(ProxyManagerMsg::DeleteUdpProxyRs {}) }));
    // traffic about another endpoint in between
    t.udp_started(o.duplicate(), Ok((42000, 3)));
    assert!(matches!(t.handle(ProxyManagerMsg::DeleteUdpProxy { endpoint: o.duplicate() }), TaskAction::StopUdp { udp: 3, .. }));
    assert!(matches!(t.handle(ProxyManagerMsg::CreateUdpProxy { endpoint: o.duplicate() }), TaskAction::StartUdp(_)));
    match t.handle(ProxyManagerMsg::DeleteUdpProxy { endpoint: e.duplicate() }) {
        TaskAction::Respond(ProxyManagerMsg::UdpProxyErrorRs { error }) => {
            assert_eq!(error, format!("There aren't proxy to delete for {:?}", e))
        },
        _ => panic!("expected the second removal to be refused"),
    }
    // the tcp proxy of the same endpoint is still there
    assert!(matches!(t.handle(ProxyManagerMsg::CreateTcpProxy { endpoint: e.duplicate() }),
        TaskAction::Respond(ProxyManagerMsg::CreateTcpProxyRs { port: 41001 })));
    assert!(matches!(t.handle(ProxyManagerMsg::DeleteTcpProxy { endpoint: e.duplicate() }), TaskAction::StopTcp { tcp: 2, .. }));
    assert!(matches!(t.handle(ProxyManagerMsg::DeleteTcpProxy { endpoint: e.duplicate() }),
        TaskAction::Respond(ProxyManagerMsg::TcpProxyErrorRs { .. })));
}

#[test]
fn session_removal_repeats() {
    let mut m = ProxyManager::new();
    let (job, _) = send_parts(m.create_proxy(request("5000", "0", "0")));
    let _ = m.advance(job, ManagerReply::Received(ProxyManagerMsg::CreateUdpProxyRs { port: 40000 }));
    for _ in 0..2 {
        let r = m.delete_udp_proxy(40000, "s1".to_string());
        assert!(matches!(&r, Ok(ProxyManagerMsg::DeleteUdpProxy { endpoint }) if endpoint.to_string() == "10.0.0.5:5000"));
        assert!(ProxyManager::deletion_result(&ManagerReply::Received(ProxyManagerMsg::DeleteUdpProxyRs {})).is_ok());
    }
    for _ in 0..2 {
        assert!(matches!(m.delete_tcp_proxy(40000, "s1".to_string()), Err(ProxyError::NoSuchEndpoint)));
    }
}
