use rrr_proxy::decimal::decimal_string;
use rrr_proxy::consts::{
    guid_setting, text_setting, u16_setting, u32_setting, u64_setting, usize_setting, DEFAULT_DELETE_PATH,
    DEFAULT_METRICS_EXPOSE_PATH, DEFAULT_SERVICE_PORT,
};
use rrr_proxy::manager::client::ManagerClient;
use rrr_proxy::manager::endpoint::{
    allocate_proxy_status, contains, delete_proxy_status, handle_error, metric_labels, records_metrics,
    status_proxy, MiddlewareError,
};
use rrr_proxy::manager::models::{DeregisterRequest, LoadReport, RegisterRequest};
use rrr_proxy::manager::register::{
    heartbeat_report, heartbeat_sent, RegisterClient, RegisterError, RegistrationAttempts, RetryDecision,
};
use rrr_proxy::proxy::Flow;
use rrr_proxy::signaling::client::SignalingClient;

#[test]
fn settings_fall_back_to_defaults() {
    assert_eq!(u16_setting(None, DEFAULT_SERVICE_PORT), 3333);
    assert_eq!(u16_setting(Some("8080"), 3333), 8080);
    assert_eq!(u16_setting(Some("eighty"), 3333), 3333);
    assert_eq!(u16_setting(Some("70000"), 3333), 3333);
    assert_eq!(u64_setting(Some("2500"), 5), 2500);
    assert_eq!(u64_setting(Some(""), 5), 5);
    assert_eq!(u32_setting(Some("30"), 10), 30);
    assert_eq!(usize_setting(Some("-1"), 128), 128);
    assert_eq!(usize_setting(Some("256"), 128), 256);
    assert_eq!(text_setting(None, "a"), "a");
    assert_eq!(text_setting(Some("b".to_string()), "a"), "b");
}

#[test]
fn guid_is_given_or_drawn_from_the_bytes() {
    let bytes = [70u8, 235, 208, 238, 14, 109, 67, 201, 185, 13, 204, 195, 90, 145, 63, 62];
    assert_eq!(guid_setting(Some("proxy-1".to_string()), bytes), "proxy-1");
    let g = guid_setting(None, bytes);
    assert_eq!(g, uuid::Builder::from_random_bytes(bytes).into_uuid().to_string());
    assert_eq!(g, "46ebd0ee-0e6d-43c9-b90d-ccc35a913f3e");
    assert_eq!(guid_setting(None, [0u8; 16]), "00000000-0000-4000-8000-000000000000");
    assert_eq!(guid_setting(None, [0xffu8; 16]), "ffffffff-ffff-4fff-bfff-ffffffffffff");
    let chars: Vec<char> = g.chars().collect();
    assert_eq!(chars.len(), 36);
    for (i, c) in chars.iter().enumerate() {
        if i == 8 || i == 13 || i == 18 || i == 23 {
            assert_eq!(*c, '-');
        } else {
            assert!(c.is_ascii_hexdigit() && !c.is_ascii_uppercase());
        }
    }
    assert_eq!(chars[14], '4');
    assert!("89ab".contains(chars[19]));
}

#[test]
fn clients_start_with_the_usual_timeout() {
    let mut c = ManagerClient::new("ws://localhost:5555".to_string());
    assert_eq!(c.url(), "ws://localhost:5555");
    assert_eq!(c.timeout(), 5000);
    assert_eq!(c.register(), Ok(()));
    let mut s = SignalingClient::new("ws://signal".to_string());
    assert_eq!(s.url(), "ws://signal");
    assert_eq!(s.timeout(), 5000);
    assert_eq!(s.register(), Ok(()));
}

#[test]
fn messages_carry_their_type() {
    let l = LoadReport::new(42);
    assert_eq!(l._type, "load");
    assert_eq!(l.load, 42);
    let d = DeregisterRequest::new(10);
    assert_eq!(d._type, "deregister");
    assert_eq!(d.drain_period_sec, 10);
    let r = RegisterRequest::new("g".to_string(), "1.2.3.4".to_string(), "::1".to_string(), "10.0.0.1:3333".to_string(), "a".to_string());
    assert_eq!(r._type, "register");
    assert_eq!(r.guid, "g");
    assert_eq!(r.private_ip, "10.0.0.1:3333");
    let c = RegisterClient::new("ws://reg".to_string(), r);
    assert_eq!(c.url, "ws://reg");
    assert_eq!(c.data.az, "a");
}

#[test]
fn registration_gives_up_after_max_attempts() {
    let mut a = RegistrationAttempts::new(2, 10000);
    assert_eq!(a.failed(), RetryDecision::RetryAfter { millis: 10000 });
    assert_eq!(a.failed(), RetryDecision::RetryAfter { millis: 10000 });
    assert_eq!(a.failed(), RetryDecision::GiveUp(RegisterError::Exhausted));
    let mut none = RegistrationAttempts::new(0, 5);
    assert_eq!(none.failed(), RetryDecision::GiveUp(RegisterError::Exhausted));
    assert_eq!(RegisterError::Exhausted.message(), "error during registration happened");
    assert_eq!(RegisterError::ConnectionFailed.message(), "Connection failed");
}

#[test]
fn heartbeat_decisions() {
    let r = heartbeat_report(Some(37)).ok().unwrap();
    assert_eq!(r.load, 37);
    assert_eq!(r._type, "load");
    assert!(matches!(heartbeat_report(None), Err(RegisterError::NoLoad)));
    assert_eq!(RegisterError::NoLoad.message(), "Can not get load");
    assert_eq!(heartbeat_sent(true), Flow::Continue);
    assert_eq!(heartbeat_sent(false), Flow::Stop);
}

#[test]
fn refused_requests_are_answered() {
    assert_eq!(handle_error(MiddlewareError::Timeout), (408, "request timed out".to_string()));
    assert_eq!(handle_error(MiddlewareError::Overloaded), (503, "service is overloaded, try again later".to_string()));
    assert_eq!(handle_error(MiddlewareError::Other("disk".to_string())), (500, "Unhandled internal error: disk".to_string()));
}

#[test]
fn metrics_skip_their_own_path() {
    assert!(!records_metrics("/actuator/prometheus", DEFAULT_METRICS_EXPOSE_PATH));
    assert!(!records_metrics("/x/actuator/prometheus/y", DEFAULT_METRICS_EXPOSE_PATH));
    assert!(records_metrics("/api/v1/status", DEFAULT_METRICS_EXPOSE_PATH));
    assert!(contains("abc", ""));
    assert!(contains("abc", "bc"));
    assert!(!contains("abc", "cb"));
    assert!(!contains("ab", "abc"));
    assert!(contains(DEFAULT_DELETE_PATH, "{session_id}"));
    let labels = metric_labels("POST".to_string(), "/api/v1/proxy-ports".to_string(), 406);
    assert_eq!(labels, vec![("method", "POST".to_string()), ("path", "/api/v1/proxy-ports".to_string()), ("status", "406".to_string())]);
}

#[test]
fn handler_statuses() {
    assert_eq!(delete_proxy_status(true, false), 200);
    assert_eq!(delete_proxy_status(false, true), 200);
    assert_eq!(delete_proxy_status(false, false), 400);
    assert_eq!(allocate_proxy_status(true), 200);
    assert_eq!(allocate_proxy_status(false), 406);
    assert_eq!(status_proxy(), 200);
}

#[test]
fn settings_read_their_decimal_text() {
    for v in [0u16, 1, 3333, 65535] {
        assert_eq!(u16_setting(Some(&decimal_string(v as u64)), 7), v);
    }
    assert_eq!(u64_setting(Some(&decimal_string(u64::MAX)), 7), u64::MAX);
}
