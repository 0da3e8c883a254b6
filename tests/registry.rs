use std::sync::Arc;

use mocktail::method::{Method, ValidationError};
use mocktail::mock::{Mock, Then, When, DEFAULT_PRIORITY};
use mocktail::mock_set::{MockSet, FALLBACK_STATUS};
use mocktail::request::Request;
use mocktail::state::MockServerState;

fn get(path: &str) -> Request {
    Request::from_parts("GET", path, Vec::new(), Vec::new()).unwrap()
}

fn on_path(path: &str) -> When {
    When::any().path(path)
}

#[test]
fn health_scenario() {
    let mut set = MockSet::new();
    set.insert(Mock::new(When::any().method(Method::GET).path("/health"), Then::status(200)));
    assert_eq!(set.respond(&get("/health")).status, 200);
    assert_eq!(set.respond(&get("/health")).status, 200);
    let missing = set.respond(&get("/missing"));
    assert_eq!(missing.status, FALLBACK_STATUS);
    assert_eq!(missing.status, 404);
    assert!(missing.body.is_empty());
    assert!(missing.headers.is_empty());
    assert_eq!(set.hits(), vec![2]);
}

#[test]
fn method_condition_is_checked() {
    let mut set = MockSet::new();
    set.insert(Mock::new(When::any().method(Method::GET).path("/health"), Then::status(200)));
    let post = Request::from_parts("POST", "/health", Vec::new(), Vec::new()).unwrap();
    assert_eq!(set.respond(&post).status, 404);
    assert_eq!(set.hits(), vec![0]);
}

#[test]
fn higher_priority_always_selected() {
    let mut set = MockSet::new();
    set.insert(Mock::new(on_path("/x"), Then::status(201)).with_priority(1));
    set.insert(Mock::new(on_path("/x"), Then::status(210)).with_priority(10));
    for _ in 0..5 {
        assert_eq!(set.select(&get("/x")), Some(1));
        assert_eq!(set.respond(&get("/x")).status, 210);
    }
    assert_eq!(set.hits(), vec![0, 5]);
}

#[test]
fn priority_five_beats_one() {
    let mut set = MockSet::new();
    set.insert(Mock::new(on_path("/p"), Then::status(201)).with_priority(1));
    set.insert(Mock::new(on_path("/p"), Then::status(205)).with_priority(5));
    assert_eq!(set.respond(&get("/p")).status, 205);
    let mut other = MockSet::new();
    other.insert(Mock::new(on_path("/p"), Then::status(205)).with_priority(5));
    other.insert(Mock::new(on_path("/p"), Then::status(201)).with_priority(1));
    assert_eq!(other.respond(&get("/p")).status, 205);
}

#[test]
fn equal_priority_earliest_wins() {
    let mut set = MockSet::new();
    set.insert(Mock::new(on_path("/e"), Then::status(200)));
    set.insert(Mock::new(on_path("/e"), Then::status(202)));
    assert_eq!(set.select(&get("/e")), Some(0));
    assert_eq!(set.respond(&get("/e")).status, 200);
}

#[test]
fn default_mock_options() {
    let m = Mock::new(When::any(), Then::status(200));
    assert_eq!(m.priority, DEFAULT_PRIORITY);
    assert_eq!(m.priority, 5);
    assert_eq!(m.limit, None);
    assert_eq!(m.hits, 0);
    assert_eq!(m.remaining(), None);
    let bounded = m.with_limit(3);
    assert_eq!(bounded.remaining(), Some(3));
}

#[test]
fn limited_mock_fires_once() {
    let mut set = MockSet::new();
    set.insert(Mock::new(on_path("/once"), Then::status(200)).with_limit(1).with_priority(9));
    set.insert(Mock::new(on_path("/once"), Then::status(299)).with_priority(1));
    assert_eq!(set.respond(&get("/once")).status, 200);
    assert_eq!(set.respond(&get("/once")).status, 299);
    assert_eq!(set.respond(&get("/once")).status, 299);
    assert_eq!(set.hits(), vec![1, 2]);
    assert_eq!(set.mocks[0].remaining(), Some(0));
}

#[test]
fn exhausted_mock_alone_falls_back() {
    let mut set = MockSet::new();
    set.insert(Mock::new(on_path("/one"), Then::status(200)).with_limit(1));
    assert_eq!(set.respond(&get("/one")).status, 200);
    assert_eq!(set.select(&get("/one")), None);
    assert_eq!(set.respond(&get("/one")).status, 404);
}

#[test]
fn no_mocks_gives_fallback() {
    let mut set = MockSet::new();
    assert!(set.is_empty());
    assert_eq!(set.next_response(&get("/")).map(|t| t.status), None);
    assert_eq!(set.respond(&get("/anything")).status, 404);
}

#[test]
fn response_is_copied_whole() {
    let mut set = MockSet::new();
    let then = Then::status(200).header("content-type", "text/plain").body(b"ok".to_vec());
    set.insert(Mock::new(When::any().body(b"ping".to_vec()), then));
    let req = get("/").with_body(b"ping".to_vec());
    let resp = set.respond(&req);
    assert_eq!(resp.status, 200);
    assert_eq!(resp.headers, vec![("content-type".to_string(), "text/plain".to_string())]);
    assert_eq!(resp.body, b"ok".to_vec());
    assert_eq!(set.respond(&get("/")).status, 404);
}

#[test]
fn copy_keeps_every_mock() {
    let mut set = MockSet::new();
    set.insert(Mock::new(on_path("/a"), Then::status(200)).with_limit(2));
    set.respond(&get("/a"));
    let snapshot = set.copy();
    assert_eq!(snapshot.len(), 1);
    assert_eq!(snapshot.hits(), vec![1]);
    assert_eq!(snapshot.mocks[0].limit, Some(2));
    assert_eq!(snapshot.mocks[0].matcher.path.as_deref(), Some("/a"));
}

#[test]
fn state_counts_hits_under_concurrency() {
    let state = Arc::new(MockServerState::new(MockSet::new()));
    state.insert(Mock::new(on_path("/c"), Then::status(200)).with_limit(10));
    let runtime = tokio::runtime::Builder::new_multi_thread().worker_threads(4).build().unwrap();
    let matched = runtime.block_on(async {
        let mut handles = Vec::new();
        for i in 0..50 {
            let shared = state.clone();
            handles.push(tokio::spawn(async move {
                let path = if i % 2 == 0 { "/c" } else { "/d" };
                shared.respond(&get(path)).status
            }));
            if i == 25 {
                state.insert(Mock::new(on_path("/d"), Then::status(200)));
            }
        }
        let mut matched = 0usize;
        for h in handles {
            if h.await.unwrap() == 200 {
                matched += 1;
            }
        }
        matched
    });
    let hits = state.hits();
    assert_eq!(hits.iter().sum::<usize>(), matched);
    assert_eq!(hits[0], 10);
    let guard = state.mocks();
    assert_eq!(guard.get().len(), 2);
    guard.release();
}

#[test]
fn state_replace_and_respond() {
    let state = MockServerState::empty();
    assert_eq!(state.respond(&get("/r")).status, 404);
    let mut set = MockSet::new();
    set.insert(Mock::new(on_path("/r"), Then::status(200)));
    state.replace(set);
    assert_eq!(state.respond(&get("/r")).status, 200);
    assert_eq!(state.hits(), vec![1]);
}

#[test]
fn method_parse_any_case() {
    assert_eq!(Method::parse("get"), Ok(Method::GET));
    assert_eq!(Method::parse("GeT"), Ok(Method::GET));
    assert_eq!(Method::parse("head"), Ok(Method::HEAD));
    assert_eq!(Method::parse("Post"), Ok(Method::POST));
    assert_eq!(Method::parse("put"), Ok(Method::PUT));
    assert_eq!(Method::parse("delete"), Ok(Method::DELETE));
    assert_eq!(Method::parse("connect"), Ok(Method::CONNECT));
    assert_eq!(Method::parse("OPTIONS"), Ok(Method::OPTIONS));
    assert_eq!(Method::parse("trace"), Ok(Method::TRACE));
    assert_eq!(Method::parse("pAtCh"), Ok(Method::PATCH));
}

#[test]
fn method_parse_rejects_other_tokens() {
    assert_eq!(Method::parse("FETCH"), Err(ValidationError::InvalidMethod("FETCH".to_string())));
    assert!(Method::parse("").is_err());
    assert!(Method::parse("GETS").is_err());
    assert!(Method::parse("G3T").is_err());
}

#[test]
fn method_from_token_ignores_case() {
    assert_eq!(Method::from_token("PATCH"), Ok(Method::PATCH));
    assert_eq!(Method::from_token("GET"), Ok(Method::GET));
    assert_eq!(Method::from_token("get"), Ok(Method::GET));
    assert_eq!(Method::from_token("Delete"), Ok(Method::DELETE));
    assert_eq!(Method::from_token("brew"), Err(ValidationError::InvalidMethod("brew".to_string())));
    assert_eq!(Method::default(), Method::GET);
    assert!(Method::GET < Method::PATCH);
}

#[test]
fn request_from_relative_target() {
    let r = Request::from_parts("get", "/health?a=1&b=2", vec![("X-Id".to_string(), b"7".to_vec())], b"hi".to_vec()).unwrap();
    assert_eq!(*r.method(), Method::GET);
    assert_eq!(r.url(), "http://localhost/health?a=1&b=2");
    assert_eq!(r.path(), "/health");
    assert_eq!(r.query(), Some("a=1&b=2"));
    assert_eq!(r.headers(), &vec![("X-Id".to_string(), b"7".to_vec())]);
    assert_eq!(r.body(), &b"hi".to_vec());
    assert_eq!(
        r.query_pairs(),
        vec![("a".to_string(), "1".to_string()), ("b".to_string(), "2".to_string())]
    );
}

#[test]
fn request_from_absolute_target() {
    let r = Request::from_parts("POST", "http://example.com:8080/a/b", Vec::new(), Vec::new()).unwrap();
    assert_eq!(r.url(), "http://example.com:8080/a/b");
    assert_eq!(r.path(), "/a/b");
    assert_eq!(r.query(), None);
    assert!(r.query_pairs().is_empty());
}

#[test]
fn request_errors() {
    assert_eq!(
        Request::from_parts("BREW", "/", Vec::new(), Vec::new()).unwrap_err(),
        ValidationError::InvalidMethod("BREW".to_string())
    );
    assert_eq!(
        Request::from_parts("GET", "bad target", Vec::new(), Vec::new()).unwrap_err(),
        ValidationError::InvalidTarget("bad target".to_string())
    );
    assert_eq!(
        Request::new(Method::GET, "not a url").unwrap_err(),
        ValidationError::InvalidTarget("not a url".to_string())
    );
}

#[test]
fn request_new_parses_url() {
    let r = Request::new(Method::PUT, "https://host/x/y?q=1").unwrap();
    assert_eq!(r.path(), "/x/y");
    assert_eq!(r.query(), Some("q=1"));
    assert!(r.headers().is_empty());
    let r = r.with_headers(vec![("a".to_string(), vec![0xff, 0x00])]);
    assert_eq!(r.headers()[0].1, vec![0xff, 0x00]);
    let r = Request::new(Method::GET, "http://h/?name=%23first&v=a+b&&flag").unwrap();
    assert_eq!(
        r.query_pairs(),
        vec![
            ("name".to_string(), "#first".to_string()),
            ("v".to_string(), "a b".to_string()),
            ("flag".to_string(), String::new()),
        ]
    );
}

#[test]
fn method_token_round_trip() {
    let all = [
        Method::GET,
        Method::HEAD,
        Method::POST,
        Method::PUT,
        Method::DELETE,
        Method::CONNECT,
        Method::OPTIONS,
        Method::TRACE,
        Method::PATCH,
    ];
    for m in all {
        assert_eq!(Method::parse(m.as_str()), Ok(m));
        assert_eq!(Method::from_token(m.as_str()), Ok(m));
        assert_eq!(Method::parse(&m.as_str().to_lowercase()), Ok(m));
        assert_eq!(m.token_chars().iter().collect::<String>(), m.as_str());
    }
    assert_eq!(Method::DELETE.as_str(), "DELETE");
}
