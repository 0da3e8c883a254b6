use mocktail::mock::{Then, When};
use mocktail::server::{
    HostAddr, MockServer, MockServerConfig, ServerKind, StartAction, StartEvent, Startup, StartupError,
};

fn is_send<T: Send>() {}

#[test]
fn test_mock_server_send() {
    is_send::<MockServer>();
}

#[test]
fn default_config_values() {
    let c = MockServerConfig::default();
    assert_eq!(c.listen_addr, HostAddr::V4(0, 0, 0, 0));
    assert_eq!(c.port_range_start, 10000);
    assert_eq!(c.port_range_end, 30000);
    assert_eq!(c.bind_max_retries, 10);
    assert_eq!(c.ready_connect_max_retries, 30);
    assert_eq!(c.ready_connect_timeout_ms, 10);
    assert_eq!(MockServerConfig::new().port_range_end, 30000);
}

#[test]
fn draw_port_in_range() {
    let mut c = MockServerConfig::new();
    c.port_range_start = 20000;
    c.port_range_end = 20002;
    for _ in 0..20 {
        let p = c.draw_port().unwrap();
        assert!(p == 20000 || p == 20001);
    }
    c.port_range_end = 20000;
    assert_eq!(c.draw_port(), None);
}

#[test]
fn bind_retries_until_budget() {
    let mut c = MockServerConfig::new();
    c.bind_max_retries = 2;
    let mut s = Startup::begin();
    let (n, a) = s.step(&c, StartEvent::BindFailed);
    assert_eq!((n, a), (Startup::Binding { failures: 1 }, StartAction::Bind));
    s = n;
    let (n, a) = s.step(&c, StartEvent::BindFailed);
    assert_eq!((n, a), (Startup::Binding { failures: 2 }, StartAction::Bind));
    s = n;
    let (n, a) = s.step(&c, StartEvent::BindFailed);
    assert_eq!(n, Startup::Failed(StartupError::BindExhausted));
    assert_eq!(a, StartAction::Abort(StartupError::BindExhausted));
}

#[test]
fn probe_retries_then_publishes() {
    let c = MockServerConfig::new();
    let (s, a) = Startup::Binding { failures: 3 }.step(&c, StartEvent::Bound);
    assert_eq!((s, a), (Startup::Probing { failures: 0 }, StartAction::Probe));
    let (s, a) = s.step(&c, StartEvent::ProbeFailed);
    assert_eq!((s, a), (Startup::Probing { failures: 1 }, StartAction::WaitThenProbe));
    let (s, a) = s.step(&c, StartEvent::ProbeSucceeded);
    assert_eq!((s, a), (Startup::Ready, StartAction::Publish));
    let (s, a) = s.step(&c, StartEvent::Bound);
    assert_eq!((s, a), (Startup::Ready, StartAction::Ignore));
}

#[test]
fn probe_budget_exhausted() {
    let mut c = MockServerConfig::new();
    c.ready_connect_max_retries = 0;
    let (s, a) = Startup::Probing { failures: 0 }.step(&c, StartEvent::ProbeFailed);
    assert_eq!(s, Startup::Failed(StartupError::NotReady));
    assert_eq!(a, StartAction::Abort(StartupError::NotReady));
}

#[test]
fn second_start_fails_and_keeps_address() {
    let mut server = MockServer::new("svc");
    assert!(!server.is_running());
    assert_eq!(server.port(), None);
    assert_eq!(server.begin_start(), Ok(Startup::Binding { failures: 0 }));
    assert_eq!(server.publish("127.0.0.1".to_string(), 12345, "127.0.0.1:12345"), Err(StartupError::InvalidAddress));
    assert!(!server.is_running());
    assert_eq!(server.publish("0.0.0.0".to_string(), 12345, "0.0.0.0:12345"), Ok(()));
    assert!(server.is_running());
    assert_eq!(server.begin_start(), Err(StartupError::AlreadyRunning));
    assert_eq!(server.publish("10.0.0.1".to_string(), 999, "10.0.0.1:999"), Err(StartupError::AlreadyRunning));
    assert_eq!(server.hostname(), Some("0.0.0.0"));
    assert_eq!(server.port(), Some(12345));
    assert_eq!(server.base_url(), Some("http://0.0.0.0:12345/"));
    assert_eq!(server.addr().map(|a| a.port), Some(12345));
    assert_eq!(server.addr().map(|a| a.ip), Some(HostAddr::V4(0, 0, 0, 0)));
}

#[test]
fn port_outside_range_is_not_published() {
    let mut server = MockServer::new("svc");
    assert_eq!(server.publish("0.0.0.0".to_string(), 9999, "0.0.0.0:9999"), Err(StartupError::InvalidAddress));
    assert_eq!(server.publish("0.0.0.0".to_string(), 30000, "0.0.0.0:30000"), Err(StartupError::InvalidAddress));
    assert!(!server.is_running());
    assert_eq!(server.publish("0.0.0.0".to_string(), 10000, "0.0.0.0:10000"), Ok(()));
    assert_eq!(server.port(), Some(10000));
}

#[test]
fn url_joins_path() {
    let mut config = MockServerConfig::new();
    config.listen_addr = HostAddr::V6(0, 0, 0, 0, 0, 0, 0, 1);
    let mut server = MockServer::new_http("svc").with_config(config);
    assert_eq!(server.url("/health"), None);
    server.publish("::1".to_string(), 20000, "[::1]:20000").unwrap();
    assert_eq!(server.url("/health"), Some("http://[::1]:20000/health".to_string()));
    assert_eq!(server.url("a/b"), Some("http://[::1]:20000/a/b".to_string()));
}

#[test]
fn invalid_address_is_not_published() {
    let mut server = MockServer::new("svc");
    assert_eq!(server.publish("x".to_string(), 1, "[bad"), Err(StartupError::InvalidAddress));
    assert!(!server.is_running());
}

#[test]
fn server_kinds_and_settings() {
    let http = MockServer::new("a");
    assert_eq!(http.name(), "a");
    assert_eq!(http.kind(), ServerKind::Http);
    assert_eq!(http.kind().name(), "http");
    assert!(!http.kind().forces_http2());
    let grpc = MockServer::new_grpc("b");
    assert_eq!(grpc.kind(), ServerKind::Grpc);
    assert_eq!(grpc.kind().name(), "grpc");
    assert!(grpc.kind().forces_http2());
    assert_eq!(MockServer::new("c").grpc().kind(), ServerKind::Grpc);
    let mut c = MockServerConfig::new();
    c.bind_max_retries = 3;
    assert_eq!(MockServer::new("d").with_config(c).config().bind_max_retries, 3);
}

#[test]
fn server_registers_mocks() {
    let mut server = MockServer::new("svc");
    server.mock(When::any().path("/a"), Then::status(200));
    server.mock_with_options(9, Some(1), When::any().path("/a"), Then::status(201));
    let guard = server.mocks();
    assert_eq!(guard.get().len(), 2);
    assert_eq!(guard.get().mocks[1].priority, 9);
    assert_eq!(guard.get().mocks[1].limit, Some(1));
    guard.release();
    let state = server.state();
    let req = mocktail::request::Request::from_parts("GET", "/a", Vec::new(), Vec::new()).unwrap();
    assert_eq!(state.respond(&req).status, 201);
    assert_eq!(state.respond(&req).status, 200);
    let mut guard = server.mocks();
    guard.insert(mocktail::mock::Mock::new(When::any().path("/a"), Then::status(202)).with_priority(200));
    guard.release();
    assert_eq!(state.respond(&req).status, 202);
    assert_eq!(state.hits(), vec![1, 1, 1]);
    let mut guard = server.mocks();
    guard.replace(mocktail::mock_set::MockSet::new());
    guard.release();
    assert_eq!(state.respond(&req).status, 404);
    let replaced = server.with_mocks(mocktail::mock_set::MockSet::new());
    let guard = replaced.mocks();
    assert_eq!(guard.get().len(), 0);
    guard.release();
}

#[test]
fn ipv4_text_rendering() {
    assert_eq!(HostAddr::V4(0, 0, 0, 0).ipv4_string(), Some("0.0.0.0".to_string()));
    assert_eq!(HostAddr::V4(127, 0, 0, 1).ipv4_string(), Some("127.0.0.1".to_string()));
    assert_eq!(HostAddr::V4(255, 10, 99, 100).ipv4_string(), Some("255.10.99.100".to_string()));
    assert_eq!(HostAddr::V6(0, 0, 0, 0, 0, 0, 0, 1).ipv4_string(), None);
}
