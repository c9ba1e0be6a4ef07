use engineio_wss::diagnostic::debug_text;
use engineio_wss::endpoint::{contains_pair, secure_endpoint, Endpoint, EndpointError};
use url::Url;

const ENGINE_IO_VERSION: i32 = 4;
const SECURE_SERVER: &str = "https://localhost:4202/";

fn new_endpoint() -> Endpoint {
    let url = SECURE_SERVER.to_string() + "engine.io/?EIO=" + &ENGINE_IO_VERSION.to_string();
    secure_endpoint(&url).unwrap()
}

#[test]
fn websocket_secure_transport_base_url() {
    let transport = new_endpoint();
    let mut url = Url::parse(SECURE_SERVER).unwrap();
    url.set_path("/engine.io/");
    url.query_pairs_mut()
        .append_pair("EIO", &ENGINE_IO_VERSION.to_string())
        .append_pair("transport", "websocket");
    url.set_scheme("wss").unwrap();
    assert_eq!(transport.as_str(), url.to_string());

    let transport = secure_endpoint("https://127.0.0.1").unwrap();
    assert_eq!(transport.as_str(), "wss://127.0.0.1/?transport=websocket");
    assert_ne!(transport.as_str(), url.to_string());

    let transport = secure_endpoint("http://127.0.0.1/?transport=websocket").unwrap();
    assert_eq!(transport.as_str(), "wss://127.0.0.1/?transport=websocket");
    assert_ne!(transport.as_str(), url.to_string());
}

#[test]
fn websocket_secure_debug() {
    let transport = new_endpoint();
    let base_url: Result<Url, url::ParseError> = Url::parse(transport.as_str());
    let shown = format!("{:?}", base_url);
    assert_eq!(
        debug_text(&shown),
        format!("WebsocketSecureTransport(base_url: {:?})", base_url)
    );
}

#[test]
fn debug_text_frames_the_base_url() {
    assert_eq!(debug_text("x"), "WebsocketSecureTransport(base_url: x)");
    assert_eq!(debug_text(""), "WebsocketSecureTransport(base_url: )");
}

#[test]
fn new_endpoint_is_secure() {
    let e = new_endpoint();
    assert_eq!(e.scheme(), "wss");
    assert_eq!(
        e.as_str(),
        "wss://localhost:4202/engine.io/?EIO=4&transport=websocket"
    );
}

#[test]
fn secure_scheme_from_every_special_scheme() {
    for input in [
        "http://example.com/a",
        "https://example.com/a",
        "ws://example.com/a",
        "wss://example.com/a",
        "ftp://example.com/a",
    ] {
        let e = secure_endpoint(input).unwrap();
        assert_eq!(e.scheme(), "wss");
        assert_eq!(e.as_str(), "wss://example.com/a?transport=websocket");
    }
}

#[test]
fn secure_endpoint_keeps_host_path_and_pairs() {
    let e = Endpoint::parse("http://example.com:8080/engine.io/x?a=1&b=two").unwrap();
    let s = e.force_secure_scheme().unwrap();
    assert_eq!(
        s.as_str(),
        "wss://example.com:8080/engine.io/x?a=1&b=two&transport=websocket"
    );
    assert_eq!(s.host(), e.host());
    assert_eq!(s.host(), Some("example.com".to_string()));
    assert_eq!(s.path(), e.path());
    assert_eq!(s.path(), "/engine.io/x");
    let pairs = s.query_pairs();
    assert_eq!(
        pairs,
        vec![
            ("a".to_string(), "1".to_string()),
            ("b".to_string(), "two".to_string()),
            ("transport".to_string(), "websocket".to_string()),
        ]
    );
}

#[test]
fn secure_endpoint_drops_the_new_default_port() {
    let e = secure_endpoint("http://example.com:443/").unwrap();
    assert_eq!(e.as_str(), "wss://example.com/?transport=websocket");
}

#[test]
fn secure_endpoint_keeps_the_fragment() {
    let e = secure_endpoint("http://example.com/p?q=1#frag").unwrap();
    assert_eq!(e.as_str(), "wss://example.com/p?q=1&transport=websocket#frag");
}

#[test]
fn secure_endpoint_is_idempotent() {
    let once = secure_endpoint("https://127.0.0.1/engine.io/?EIO=4").unwrap();
    let twice = once.force_secure_scheme().unwrap();
    assert_eq!(once, twice);
    assert_eq!(
        twice.as_str(),
        "wss://127.0.0.1/engine.io/?EIO=4&transport=websocket"
    );
}

#[test]
fn secure_endpoint_keeps_a_secure_endpoint() {
    let e = Endpoint::parse("wss://h/?transport=websocket").unwrap();
    let s = e.force_secure_scheme().unwrap();
    assert_eq!(s, e);
}

#[test]
fn secure_endpoint_refuses_text_without_a_scheme() {
    let r = secure_endpoint("127.0.0.1/engine.io/");
    assert_eq!(
        r,
        Err(EndpointError::Parse(url::ParseError::RelativeUrlWithoutBase))
    );
}

#[test]
fn secure_endpoint_refuses_a_hostless_url() {
    let r = secure_endpoint("mailto:");
    assert_eq!(r, Err(EndpointError::SchemeRefused));
}

#[test]
fn endpoint_parse_gives_the_serialization() {
    let e = Endpoint::parse("HTTP://Example.COM").unwrap();
    assert_eq!(e.as_str(), "http://example.com/");
    assert_eq!(e.scheme(), "http");
    assert_eq!(e.host(), Some("example.com".to_string()));
    assert_eq!(e.path(), "/");
    assert!(e.query_pairs().is_empty());
}

#[test]
fn contains_pair_finds_exact_pairs() {
    let pairs = vec![
        ("a".to_string(), "1".to_string()),
        ("transport".to_string(), "polling".to_string()),
    ];
    assert!(contains_pair(&pairs, "a", "1"));
    assert!(!contains_pair(&pairs, "transport", "websocket"));
    assert!(!contains_pair(&pairs, "1", "a"));
    assert!(!contains_pair(&Vec::new(), "a", "1"));
}

#[test]
fn secure_endpoint_reads_other_schemes_under_the_secure_one() {
    let e = secure_endpoint("foo://example.com/a?b=1").unwrap();
    assert_eq!(e.as_str(), "wss://example.com/a?b=1&transport=websocket");
    assert_eq!(e.scheme(), "wss");
}
