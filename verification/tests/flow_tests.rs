use rrr_proxy::proxy::tcp_clients::{
    client_step, read_and_write, write_to_stream, ClientEvent, EndpointEvent, ProxyTcpEndpoint, ReadResult,
    Transfer, WriteEvent, WriteStep,
};
use rrr_proxy::proxy::udp_client::{
    client_step as udp_client_step, endpoint_step, ProxyClientMsg as UdpReport, ProxyRouterClient, RouterAction,
    RouterEvent, UdpClientEvent, UdpEndpointEvent, ENDPOINT_IDLE_MILLIS,
};
use rrr_proxy::proxy::{Endpoint, Ending, Flow, PeerAddr, ProxyClientMsg, ProxyManagerMsg};

fn peer(port: u16) -> PeerAddr {
    PeerAddr { ip: 0x7f000001, v6: false, port, flowinfo: 0, scope_id: 0 }
}

#[test]
fn reads_decide_transfers() {
    assert_eq!(read_and_write(ReadResult::Bytes(0)), Transfer::Closed);
    assert_eq!(read_and_write(ReadResult::Bytes(12)), Transfer::Forward { len: 12 });
    assert_eq!(read_and_write(ReadResult::WouldBlock), Transfer::Idle);
    assert_eq!(read_and_write(ReadResult::Failed), Transfer::Closed);
}

#[test]
fn writes_retry_until_timeout() {
    assert_eq!(write_to_stream(WriteEvent::Written), WriteStep::Done);
    assert_eq!(write_to_stream(WriteEvent::WriteFailed), WriteStep::Retry);
    assert_eq!(write_to_stream(WriteEvent::TimedOut), WriteStep::GiveUp);
}

fn ends_with(step: Ending<ProxyClientMsg>, addr: PeerAddr) -> bool {
    matches!(step, Ending::Stop { report: ProxyClientMsg::ClientEnded { addr: a } } if a == addr)
}

#[test]
fn tcp_connection_loop() {
    assert!(matches!(client_step(peer(5), ClientEvent::Moved(true)), Ending::Continue));
    assert!(ends_with(client_step(peer(5), ClientEvent::Moved(false)), peer(5)));
    assert!(ends_with(client_step(peer(6), ClientEvent::NoTraffic), peer(6)));
}

fn reports_end(step: Ending<ProxyManagerMsg>) -> bool {
    match step {
        Ending::Stop { report: ProxyManagerMsg::TcpEndpointEnded { endpoint } } => {
            endpoint.to_string() == "10.0.0.5:6000" && endpoint.session_id() == "s1"
        },
        _ => false,
    }
}

fn target() -> Endpoint {
    Endpoint::new(6000, "10.0.0.5", "s1")
}

#[test]
fn tcp_endpoint_ends_with_last_connection() {
    let mut e: ProxyTcpEndpoint<u32> = ProxyTcpEndpoint::new(target());
    assert!(matches!(e.run_step(EndpointEvent::Accepted { addr: peer(1), client: Some(1) }), Ending::Continue));
    assert!(matches!(e.run_step(EndpointEvent::Accepted { addr: peer(2), client: Some(2) }), Ending::Continue));
    assert!(matches!(e.run_step(EndpointEvent::Accepted { addr: peer(3), client: None }), Ending::Continue));
    assert!(matches!(e.run_step(EndpointEvent::ClientEnded { addr: peer(1) }), Ending::Continue));
    assert!(reports_end(e.run_step(EndpointEvent::ClientEnded { addr: peer(2) })));
}

#[test]
fn tcp_endpoint_stops_on_failures() {
    let mut e: ProxyTcpEndpoint<u32> = ProxyTcpEndpoint::new(target());
    assert!(reports_end(e.run_step(EndpointEvent::AcceptFailed)));
    assert!(reports_end(e.run_step(EndpointEvent::ReportsClosed)));
    assert!(reports_end(e.run_step(EndpointEvent::NoTraffic)));
    // an end report for an unknown connection with none left stops too
    assert!(reports_end(e.run_step(EndpointEvent::ClientEnded { addr: peer(9) })));
}

#[test]
fn udp_endpoint_loop() {
    assert_eq!(ENDPOINT_IDLE_MILLIS, 1000);
    let ended = |s: Ending<UdpReport>| matches!(s, Ending::Stop { report: UdpReport::EndpointEnded {} });
    assert!(matches!(endpoint_step(UdpEndpointEvent::FromClient(true)), Ending::Continue));
    assert!(ended(endpoint_step(UdpEndpointEvent::FromClient(false))));
    assert!(matches!(endpoint_step(UdpEndpointEvent::ToClient(true)), Ending::Continue));
    assert!(ended(endpoint_step(UdpEndpointEvent::ToClient(false))));
    assert!(ended(endpoint_step(UdpEndpointEvent::NoTraffic)));
}

#[test]
fn router_sets_up_one_client_per_sender() {
    let mut r: ProxyRouterClient<&'static str> = ProxyRouterClient::new();
    assert_eq!(r.run_step(RouterEvent::Datagram { from: peer(1) }), RouterAction::CreateClient { peer: peer(1) });
    assert_eq!(r.run_step(RouterEvent::ClientCreated { from: peer(1), client: Some("c1") }), RouterAction::Deliver { to: peer(1) });
    assert_eq!(r.client(&peer(1)), Some(&"c1"));
    assert_eq!(r.run_step(RouterEvent::Datagram { from: peer(1) }), RouterAction::Deliver { to: peer(1) });
    assert_eq!(r.run_step(RouterEvent::Delivered(true)), RouterAction::Continue);
    assert_eq!(r.run_step(RouterEvent::Datagram { from: peer(2) }), RouterAction::CreateClient { peer: peer(2) });
    assert_eq!(r.client(&peer(2)), None);
    assert_eq!(r.run_step(RouterEvent::ClientCreated { from: peer(2), client: None }), RouterAction::Stop);
    assert_eq!(r.run_step(RouterEvent::Delivered(false)), RouterAction::Stop);
    assert_eq!(r.run_step(RouterEvent::InputClosed), RouterAction::Stop);
}

#[test]
fn router_tells_v4_from_v6() {
    let mut r: ProxyRouterClient<u8> = ProxyRouterClient::new();
    let v4 = peer(1);
    let v6 = PeerAddr { v6: true, ..v4 };
    r.run_step(RouterEvent::ClientCreated { from: v4, client: Some(4) });
    assert_eq!(r.run_step(RouterEvent::Datagram { from: v6 }), RouterAction::CreateClient { peer: v6 });
}

#[test]
fn udp_client_loop() {
    assert_eq!(udp_client_step(UdpClientEvent::FromTarget(true)), Flow::Continue);
    assert_eq!(udp_client_step(UdpClientEvent::FromTarget(false)), Flow::Stop);
    assert_eq!(udp_client_step(UdpClientEvent::ReceiveFailed), Flow::Stop);
    assert_eq!(udp_client_step(UdpClientEvent::ToTarget(true)), Flow::Continue);
    assert_eq!(udp_client_step(UdpClientEvent::ToTarget(false)), Flow::Stop);
    assert_eq!(udp_client_step(UdpClientEvent::InputClosed), Flow::Stop);
}
