//! Server configuration, startup decisions and the published address.
use std::sync::Arc;

use vstd::prelude::*;
use vstd::string::*;

use crate::mock::{Mock, Then, When};
use crate::mock_set::MockSet;
use crate::request::{opt_view, url_parse};
use crate::state::{MockServerState, MocksGuard};

verus! {

/// What `url::Url::join` makes of a path against a base URL: `None` when the
/// base or the join is refused, else the serialization of the joined URL.
pub uninterp spec fn url_join(base: Seq<char>, path: Seq<char>) -> Option<Seq<char>>;

/// Relies on `url::Url::parse` of the base and `Url::join` of the path.
#[verifier::external_body]
fn join_url(base: &str, path: &str) -> (r: Option<String>)
    ensures
        opt_view(r) == url_join(base@, path@),
{
    match url::Url::parse(base) {
        Ok(b) => match b.join(path) {
            Ok(u) => Some(u.as_str().to_string()),
            Err(_) => None,
        },
        Err(_) => None,
    }
}

/// Relies on `rand::random_range`, which panics on an empty range and
/// otherwise returns a value inside it.
#[verifier::external_body]
fn random_port(low: u16, high: u16) -> (r: u16)
    requires
        low < high,
    ensures
        low <= r < high,
{
    rand::random_range(low..high)
}

/// An IP address, as plain numbers.
#[derive(Debug, Clone, Copy, PartialEq, Eq, Structural)]
pub enum HostAddr {
    V4(u8, u8, u8, u8),
    V6(u16, u16, u16, u16, u16, u16, u16, u16),
}

/// The decimal digit `d`.
pub open spec fn digit_char(d: int) -> char {
    if d == 0 { '0' } else if d == 1 { '1' } else if d == 2 { '2' } else if d == 3 { '3' }
    else if d == 4 { '4' } else if d == 5 { '5' } else if d == 6 { '6' } else if d == 7 { '7' }
    else if d == 8 { '8' } else { '9' }
}

/// The decimal text of a byte, without leading zeros.
pub open spec fn decimal(n: u8) -> Seq<char> {
    let v = n as int;
    if v < 10 {
        seq![digit_char(v)]
    } else if v < 100 {
        seq![digit_char(v / 10), digit_char(v % 10)]
    } else {
        seq![digit_char(v / 100), digit_char((v / 10) % 10), digit_char(v % 10)]
    }
}

/// The dotted-decimal text of an IPv4 address.
pub open spec fn ipv4_text(a: u8, b: u8, c: u8, d: u8) -> Seq<char> {
    decimal(a) + seq!['.'] + decimal(b) + seq!['.'] + decimal(c) + seq!['.'] + decimal(d)
}

/// The text of one decimal digit.
fn digit_str(d: u8) -> (r: &'static str)
    requires
        d < 10,
    ensures
        r@ == seq![digit_char(d as int)],
{
    proof {
        reveal_strlit("0");
        reveal_strlit("1");
        reveal_strlit("2");
        reveal_strlit("3");
        reveal_strlit("4");
        reveal_strlit("5");
        reveal_strlit("6");
        reveal_strlit("7");
        reveal_strlit("8");
        reveal_strlit("9");
    }
    let r = if d == 0 { "0" } else if d == 1 { "1" } else if d == 2 { "2" } else if d == 3 { "3" }
    else if d == 4 { "4" } else if d == 5 { "5" } else if d == 6 { "6" } else if d == 7 { "7" }
    else if d == 8 { "8" } else { "9" };
    assert(r@ =~= seq![digit_char(d as int)]);
    r
}

/// Appends the decimal text of a byte.
fn push_decimal(s: &mut String, n: u8)
    ensures
        final(s)@ == old(s)@ + decimal(n),
{
    if n >= 100 {
        s.append(digit_str(n / 100));
    }
    if n >= 10 {
        s.append(digit_str((n / 10) % 10));
    }
    s.append(digit_str(n % 10));
    assert(s@ =~= old(s)@ + decimal(n));
}

impl HostAddr {
    /// The text of a V4 address; `None` for V6.
    pub fn ipv4_string(&self) -> (r: Option<String>)
        ensures
            match *self {
                HostAddr::V4(a, b, c, d) => r matches Some(t) && t@ == ipv4_text(a, b, c, d),
                HostAddr::V6(..) => r is None,
            },
    {
        match *self {
            HostAddr::V4(a, b, c, d) => {
                proof {
                    reveal_strlit(".");
                }
                let mut t = String::new();
                push_decimal(&mut t, a);
                t.append(".");
                push_decimal(&mut t, b);
                t.append(".");
                push_decimal(&mut t, c);
                t.append(".");
                push_decimal(&mut t, d);
                assert(t@ =~= ipv4_text(a, b, c, d));
                Some(t)
            },
            HostAddr::V6(..) => None,
        }
    }
}

/// A bound address may be published under these settings: the port lies in
/// the configured range, and an IPv4 listen address is named by its text.
pub open spec fn address_fits(c: MockServerConfig, hostname: Seq<char>, port: u16) -> bool {
    &&& c.port_range_start <= port < c.port_range_end
    &&& (c.listen_addr matches HostAddr::V4(a, b, cc, d) ==> hostname == ipv4_text(a, b, cc, d))
}

/// The wire protocol a server speaks.
#[derive(Debug, Clone, Copy, PartialEq, Eq, Structural)]
pub enum ServerKind {
    /// HTTP/1.1 or HTTP/2, chosen per connection.
    Http,
    /// gRPC, over HTTP/2 only.
    Grpc,
}

impl ServerKind {
    /// The kind's lower-case name.
    pub fn name(&self) -> (r: &'static str)
        ensures
            *self == ServerKind::Http ==> r@ == "http"@,
            *self == ServerKind::Grpc ==> r@ == "grpc"@,
    {
        match self {
            ServerKind::Http => "http",
            ServerKind::Grpc => "grpc",
        }
    }

    /// Connections of this kind skip negotiation and use HTTP/2 framing.
    pub fn forces_http2(&self) -> (r: bool)
        ensures
            r == (*self == ServerKind::Grpc),
    {
        match self {
            ServerKind::Http => false,
            ServerKind::Grpc => true,
        }
    }
}

/// Startup settings, captured when a server starts.
#[derive(Debug, Clone, Copy)]
pub struct MockServerConfig {
    pub listen_addr: HostAddr,
    /// First port of the candidate range (inclusive).
    pub port_range_start: u16,
    /// End of the candidate range (exclusive).
    pub port_range_end: u16,
    /// Bind attempts after the first one before startup fails.
    pub bind_max_retries: usize,
    /// Readiness probes after the first one before startup fails.
    pub ready_connect_max_retries: usize,
    /// Timeout of one readiness probe, in milliseconds.
    pub ready_connect_timeout_ms: u64,
}

/// The default settings: all interfaces, ports 10000 to 29999, ten bind
/// retries, thirty readiness retries, ten-millisecond probes.
pub open spec fn is_default_config(c: MockServerConfig) -> bool {
    &&& c.listen_addr == HostAddr::V4(0u8, 0u8, 0u8, 0u8)
    &&& c.port_range_start == 10000
    &&& c.port_range_end == 30000
    &&& c.bind_max_retries == 10
    &&& c.ready_connect_max_retries == 30
    &&& c.ready_connect_timeout_ms == 10
}

impl MockServerConfig {
    pub fn new() -> (r: MockServerConfig)
        ensures
            is_default_config(r),
    {
        let r = MockServerConfig {
            listen_addr: HostAddr::V4(0, 0, 0, 0),
            port_range_start: 10000,
            port_range_end: 30000,
            bind_max_retries: 10,
            ready_connect_max_retries: 30,
            ready_connect_timeout_ms: 10,
        };
        r
    }

    /// Draws a candidate port uniformly from the range; `None` when the range is empty.
    pub fn draw_port(&self) -> (r: Option<u16>)
        ensures
            r is None <==> self.port_range_start >= self.port_range_end,
            r matches Some(p) ==> self.port_range_start <= p < self.port_range_end,
    {
        if self.port_range_start < self.port_range_end {
            Some(random_port(self.port_range_start, self.port_range_end))
        } else {
            None
        }
    }
}

impl Default for MockServerConfig {
    fn default() -> (r: MockServerConfig)
        ensures
            is_default_config(r),
    {
        MockServerConfig::new()
    }
}

/// Why a start attempt failed.
#[derive(Debug, Clone, Copy, PartialEq, Eq, Structural)]
pub enum StartupError {
    /// The server already runs.
    AlreadyRunning,
    /// No port of the range could be bound within the attempt budget.
    BindExhausted,
    /// The bound address never accepted a connection within the probe budget.
    NotReady,
    /// The configured port range is empty.
    EmptyPortRange,
    /// The bound port lies outside the configured range, or the bound
    /// address does not form a valid base URL.
    InvalidAddress,
}

/// Where a start attempt stands.
#[derive(Debug, Clone, Copy, PartialEq, Eq, Structural)]
pub enum Startup {
    /// Looking for a free port; `failures` attempts have failed so far.
    Binding { failures: usize },
    /// Bound; waiting until the address accepts connections.
    Probing { failures: usize },
    /// Bound and connectable: the address may be published.
    Ready,
    /// The attempt ended without a running server.
    Failed(StartupError),
}

/// What happened since the last step.
#[derive(Debug, Clone, Copy, PartialEq, Eq, Structural)]
pub enum StartEvent {
    BindFailed,
    Bound,
    ProbeFailed,
    ProbeSucceeded,
}

/// What to do next.
#[derive(Debug, Clone, Copy, PartialEq, Eq, Structural)]
pub enum StartAction {
    /// Draw a new candidate port and try to bind it.
    Bind,
    /// Start accepting connections and probe the bound address.
    Probe,
    /// Sleep a short, fixed interval, then probe again.
    WaitThenProbe,
    /// Publish the bound address; startup is done.
    Publish,
    /// Give up with this error.
    Abort(StartupError),
    /// The event does not belong to the current phase; nothing changes.
    Ignore,
}

/// One decision of the startup sequence, as a function of phase, settings and event.
pub open spec fn step_spec(s: Startup, c: MockServerConfig, e: StartEvent) -> (Startup, StartAction) {
    match (s, e) {
        (Startup::Binding { failures }, StartEvent::BindFailed) => if failures >= c.bind_max_retries {
            (Startup::Failed(StartupError::BindExhausted), StartAction::Abort(StartupError::BindExhausted))
        } else {
            (Startup::Binding { failures: (failures + 1) as usize }, StartAction::Bind)
        },
        (Startup::Binding { .. }, StartEvent::Bound) => (Startup::Probing { failures: 0 }, StartAction::Probe),
        (Startup::Probing { failures }, StartEvent::ProbeFailed) => if failures >= c.ready_connect_max_retries {
            (Startup::Failed(StartupError::NotReady), StartAction::Abort(StartupError::NotReady))
        } else {
            (Startup::Probing { failures: (failures + 1) as usize }, StartAction::WaitThenProbe)
        },
        (Startup::Probing { .. }, StartEvent::ProbeSucceeded) => (Startup::Ready, StartAction::Publish),
        _ => (s, StartAction::Ignore),
    }
}

impl Startup {
    /// Counters stay within the configured budgets.
    pub open spec fn wf(self, c: MockServerConfig) -> bool {
        match self {
            Startup::Binding { failures } => failures <= c.bind_max_retries,
            Startup::Probing { failures } => failures <= c.ready_connect_max_retries,
            _ => true,
        }
    }

    /// The first phase of a start attempt.
    pub fn begin() -> (r: Startup)
        ensures
            r == (Startup::Binding { failures: 0 }),
    {
        Startup::Binding { failures: 0 }
    }

    /// One decision of the startup sequence. A failed bind is retried with a
    /// fresh port until `bind_max_retries` retries have failed; a failed probe
    /// is retried after a pause until `ready_connect_max_retries` retries have
    /// failed. Both loops therefore end after a bounded number of events.
    pub fn step(self, c: &MockServerConfig, e: StartEvent) -> (r: (Startup, StartAction))
        requires
            self.wf(*c),
        ensures
            r == step_spec(self, *c, e),
            r.0.wf(*c),
    {
        match (self, e) {
            (Startup::Binding { failures }, StartEvent::BindFailed) => {
                if failures == c.bind_max_retries {
                    (Startup::Failed(StartupError::BindExhausted), StartAction::Abort(StartupError::BindExhausted))
                } else {
                    (Startup::Binding { failures: failures + 1 }, StartAction::Bind)
                }
            },
            (Startup::Binding { .. }, StartEvent::Bound) => (Startup::Probing { failures: 0 }, StartAction::Probe),
            (Startup::Probing { failures }, StartEvent::ProbeFailed) => {
                if failures == c.ready_connect_max_retries {
                    (Startup::Failed(StartupError::NotReady), StartAction::Abort(StartupError::NotReady))
                } else {
                    (Startup::Probing { failures: failures + 1 }, StartAction::WaitThenProbe)
                }
            },
            (Startup::Probing { .. }, StartEvent::ProbeSucceeded) => (Startup::Ready, StartAction::Publish),
            _ => (self, StartAction::Ignore),
        }
    }
}

/// A failed bind is retried with a fresh port, not fatal, while the retry
/// budget lasts; only the failure after `bind_max_retries` retries ends startup.
pub proof fn lemma_bind_collision_retried(c: MockServerConfig, failures: usize)
    requires
        failures <= c.bind_max_retries,
    ensures
        failures < c.bind_max_retries ==> step_spec(Startup::Binding { failures }, c, StartEvent::BindFailed) == (
        Startup::Binding { failures: (failures + 1) as usize }, StartAction::Bind),
        failures == c.bind_max_retries ==> step_spec(Startup::Binding { failures }, c, StartEvent::BindFailed) == (
        Startup::Failed(StartupError::BindExhausted), StartAction::Abort(StartupError::BindExhausted)),
{
}

/// The address is published only right after a successful readiness probe:
/// no other phase or event leads to `Publish`.
pub proof fn lemma_publish_only_when_ready(s: Startup, c: MockServerConfig, e: StartEvent)
    requires
        s.wf(c),
        step_spec(s, c, e).1 == StartAction::Publish,
    ensures
        s is Probing,
        e == StartEvent::ProbeSucceeded,
        step_spec(s, c, e).0 == Startup::Ready,
{
}

} // verus!

verus! {

/// The address a running server publishes, once.
#[derive(Debug)]
pub struct BoundAddress {
    /// The listen address the server was bound on.
    pub ip: HostAddr,
    /// The bound IP address, as text.
    pub hostname: String,
    pub port: u16,
    /// The base URL, `http://` followed by the socket address, serialized.
    pub base_url: String,
}

/// A mock server: a name, a protocol kind, settings, the shared registry and,
/// once started, the published address.
pub struct MockServer {
    name: &'static str,
    kind: ServerKind,
    address: Option<BoundAddress>,
    state: Arc<MockServerState>,
    config: MockServerConfig,
}

impl MockServer {
    pub closed spec fn spec_name(&self) -> Seq<char> {
        self.name@
    }

    pub closed spec fn spec_kind(&self) -> ServerKind {
        self.kind
    }

    pub closed spec fn spec_address(&self) -> Option<BoundAddress> {
        self.address
    }

    pub closed spec fn spec_config(&self) -> MockServerConfig {
        self.config
    }

    /// The state shared with every connection task.
    pub closed spec fn spec_state(&self) -> Arc<MockServerState> {
        self.state
    }

    /// A stopped server of the given kind, with no mocks and default settings.
    fn with_kind(name: &'static str, kind: ServerKind) -> (r: MockServer)
        ensures
            r.spec_name() == name@,
            r.spec_kind() == kind,
            r.spec_address() is None,
            is_default_config(r.spec_config()),
    {
        MockServer {
            name,
            kind,
            address: None,
            state: Arc::new(MockServerState::empty()),
            config: MockServerConfig::new(),
        }
    }

    /// Creates a new HTTP server.
    pub fn new(name: &'static str) -> (r: MockServer)
        ensures
            r.spec_name() == name@,
            r.spec_kind() == ServerKind::Http,
            r.spec_address() is None,
            is_default_config(r.spec_config()),
    {
        MockServer::with_kind(name, ServerKind::Http)
    }

    /// Creates a new HTTP server.
    pub fn new_http(name: &'static str) -> (r: MockServer)
        ensures
            r.spec_name() == name@,
            r.spec_kind() == ServerKind::Http,
            r.spec_address() is None,
            is_default_config(r.spec_config()),
    {
        MockServer::with_kind(name, ServerKind::Http)
    }

    /// Creates a new gRPC server.
    pub fn new_grpc(name: &'static str) -> (r: MockServer)
        ensures
            r.spec_name() == name@,
            r.spec_kind() == ServerKind::Grpc,
            r.spec_address() is None,
            is_default_config(r.spec_config()),
    {
        MockServer::with_kind(name, ServerKind::Grpc)
    }

    /// Sets the server kind to gRPC.
    pub fn grpc(self) -> (r: MockServer)
        ensures
            r.spec_state() == self.spec_state(),
            r.spec_kind() == ServerKind::Grpc,
            r.spec_name() == self.spec_name(),
            r.spec_address() == self.spec_address(),
            r.spec_config() == self.spec_config(),
    {
        MockServer { kind: ServerKind::Grpc, ..self }
    }

    /// Replaces the server's mocks.
    pub fn with_mocks(self, mocks: MockSet) -> (r: MockServer)
        requires
            mocks.wf(),
        ensures
            r.spec_state() == self.spec_state(),
            r.spec_kind() == self.spec_kind(),
            r.spec_name() == self.spec_name(),
            r.spec_address() == self.spec_address(),
            r.spec_config() == self.spec_config(),
    {
        self.state.replace(mocks);
        self
    }

    /// Replaces the server's settings.
    pub fn with_config(self, config: MockServerConfig) -> (r: MockServer)
        ensures
            r.spec_state() == self.spec_state(),
            r.spec_config() == config,
            r.spec_kind() == self.spec_kind(),
            r.spec_name() == self.spec_name(),
            r.spec_address() == self.spec_address(),
    {
        MockServer { config, ..self }
    }

    pub fn name(&self) -> (r: &str)
        ensures
            r@ == self.spec_name(),
    {
        self.name
    }

    pub fn kind(&self) -> (r: ServerKind)
        ensures
            r == self.spec_kind(),
    {
        self.kind
    }

    pub fn config(&self) -> (r: &MockServerConfig)
        ensures
            *r == self.spec_config(),
    {
        &self.config
    }

    /// The shared registry, for the tasks that serve connections.
    pub fn state(&self) -> (r: Arc<MockServerState>)
        ensures
            r == self.spec_state(),
    {
        self.state.clone()
    }

    /// The published address; `None` before startup completes.
    pub fn addr(&self) -> (r: Option<&BoundAddress>)
        ensures
            r.is_some() == self.spec_address().is_some(),
            r matches Some(a) ==> *a == self.spec_address()->0,
    {
        match &self.address {
            Some(a) => Some(a),
            None => None,
        }
    }

    pub fn hostname(&self) -> (r: Option<&str>)
        ensures
            r.is_some() == self.spec_address().is_some(),
            r matches Some(h) ==> h@ == self.spec_address()->0.hostname@,
    {
        match &self.address {
            Some(a) => Some(a.hostname.as_str()),
            None => None,
        }
    }

    pub fn port(&self) -> (r: Option<u16>)
        ensures
            r.is_some() == self.spec_address().is_some(),
            r matches Some(p) ==> p == self.spec_address()->0.port,
    {
        match &self.address {
            Some(a) => Some(a.port),
            None => None,
        }
    }

    pub fn base_url(&self) -> (r: Option<&str>)
        ensures
            r.is_some() == self.spec_address().is_some(),
            r matches Some(u) ==> u@ == self.spec_address()->0.base_url@,
    {
        match &self.address {
            Some(a) => Some(a.base_url.as_str()),
            None => None,
        }
    }

    /// The URL of `path` on this server: `None` before startup completes, or
    /// when the path cannot be joined to the base URL.
    pub fn url(&self, path: &str) -> (r: Option<String>)
        ensures
            match self.spec_address() {
                Some(a) => opt_view(r) == url_join(a.base_url@, path@),
                None => r is None,
            },
    {
        match &self.address {
            Some(a) => join_url(a.base_url.as_str(), path),
            None => None,
        }
    }

    pub fn is_running(&self) -> (r: bool)
        ensures
            r == self.spec_address().is_some(),
    {
        self.address.is_some()
    }

    /// Opens a start attempt: refused without effect when the server already runs.
    pub fn begin_start(&self) -> (r: Result<Startup, StartupError>)
        ensures
            self.spec_address() is Some ==> r == Err::<Startup, StartupError>(StartupError::AlreadyRunning),
            self.spec_address() is None ==> r == Ok::<Startup, StartupError>(Startup::Binding { failures: 0 }),
    {
        if self.address.is_some() {
            Err(StartupError::AlreadyRunning)
        } else {
            Ok(Startup::begin())
        }
    }

    /// Publishes the bound address once startup is done. The address is the
    /// configured listen address with `port`, which must lie in the configured
    /// range; `hostname` is the listen address as text, checked for IPv4. The base URL is `http://` followed by `authority`, the socket
    /// address as text. A second publication fails and leaves the published
    /// address unchanged.
    pub fn publish(&mut self, hostname: String, port: u16, authority: &str) -> (r: Result<(), StartupError>)
        ensures
            final(self).spec_state() == old(self).spec_state(),
            final(self).spec_name() == old(self).spec_name(),
            final(self).spec_kind() == old(self).spec_kind(),
            final(self).spec_config() == old(self).spec_config(),
            old(self).spec_address() is Some ==> {
                &&& r == Err::<(), StartupError>(StartupError::AlreadyRunning)
                &&& final(self).spec_address() == old(self).spec_address()
            },
            old(self).spec_address() is None && !address_fits(old(self).spec_config(), hostname@, port) ==> {
                &&& r == Err::<(), StartupError>(StartupError::InvalidAddress)
                &&& final(self).spec_address() is None
            },
            old(self).spec_address() is None && address_fits(old(self).spec_config(), hostname@, port) ==> match url_parse("http://"@ + authority@) {
                None => r == Err::<(), StartupError>(StartupError::InvalidAddress) && final(self).spec_address() is None,
                Some(u) => {
                    &&& r is Ok
                    &&& final(self).spec_address() matches Some(a)
                    &&& a.ip == old(self).spec_config().listen_addr
                    &&& a.hostname@ == hostname@
                    &&& a.port == port
                    &&& a.base_url@ == u.0
                },
            },
    {
        if self.address.is_some() {
            return Err(StartupError::AlreadyRunning);
        }
        if !(self.config.port_range_start <= port && port < self.config.port_range_end) {
            return Err(StartupError::InvalidAddress);
        }
        if let Some(text) = self.config.listen_addr.ipv4_string() {
            if text != hostname {
                return Err(StartupError::InvalidAddress);
            }
        }
        let text = "http://".to_string().concat(authority);
        match crate::request::parse_url(text.as_str()) {
            Some((base_url, _path, _query)) => {
                self.address = Some(BoundAddress { ip: self.config.listen_addr, hostname, port, base_url });
                Ok(())
            },
            None => Err(StartupError::InvalidAddress),
        }
    }

    /// Exclusive access to the live registry, until the guard is released.
    pub fn mocks(&self) -> (r: MocksGuard<'_>)
        ensures
            r.wf(),
            r.lock() == self.spec_state().lock(),
    {
        self.state.write()
    }

    /// Registers a mock with the default priority and no use limit.
    pub fn mock(&mut self, matcher: When, response: Then)
        ensures
            final(self).spec_state() == old(self).spec_state(),
            final(self).spec_name() == old(self).spec_name(),
            final(self).spec_kind() == old(self).spec_kind(),
            final(self).spec_config() == old(self).spec_config(),
            final(self).spec_address() == old(self).spec_address(),
    {
        self.state.insert(Mock::new(matcher, response));
    }

    /// Registers a mock with a priority and an optional use limit.
    pub fn mock_with_options(&mut self, priority: u8, limit: Option<usize>, matcher: When, response: Then)
        ensures
            final(self).spec_state() == old(self).spec_state(),
            final(self).spec_name() == old(self).spec_name(),
            final(self).spec_kind() == old(self).spec_kind(),
            final(self).spec_config() == old(self).spec_config(),
            final(self).spec_address() == old(self).spec_address(),
    {
        let mut mock = Mock::new(matcher, response).with_priority(priority);
        if let Some(l) = limit {
            mock = mock.with_limit(l);
        }
        self.state.insert(mock);
    }
}

} // verus!
