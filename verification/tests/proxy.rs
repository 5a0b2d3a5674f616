use authentik_router::headers::{rewrite_proxy_headers, static_asset_headers, Header};
use authentik_router::uri::{
    default_backend_uri, make_uri_parts, make_ws_uri_parts, transport_for, Transport, UriParts,
};
use authentik_router::ws::{relay_frames, relay_step, ForwardStep, Frame};

fn header(name: &str, value: &str) -> Header {
    Header {
        name: name.to_string(),
        value: value.to_string(),
    }
}

fn pairs(headers: &[Header]) -> Vec<(String, String)> {
    headers
        .iter()
        .map(|h| (h.name.clone(), h.value.clone()))
        .collect()
}

fn tcp_backend() -> UriParts {
    UriParts {
        scheme: Some("http".to_string()),
        authority: Some("127.0.0.1:18000".to_string()),
        path_and_query: Some("/".to_string()),
    }
}

#[test]
fn target_uri_keeps_backend_scheme_and_authority_and_copies_the_path() {
    let r = make_uri_parts(&tcp_backend(), &Some("/x?a=1".to_string()));
    assert_eq!(r.scheme, Some("http".to_string()));
    assert_eq!(r.authority, Some("127.0.0.1:18000".to_string()));
    assert_eq!(r.path_and_query, Some("/x?a=1".to_string()));
}

#[test]
fn target_uri_round_trips_trailing_slashes_and_percent_encoding() {
    let odd = Some("/a%2Fb//?q=%20&r=".to_string());
    let r = make_uri_parts(&tcp_backend(), &odd);
    assert_eq!(r.path_and_query, odd);

    let none = make_uri_parts(&tcp_backend(), &None);
    assert_eq!(none.path_and_query, None);
}

#[test]
fn unix_backend_authority_is_the_socket_path() {
    let backend = UriParts {
        scheme: Some("unix".to_string()),
        authority: Some("/tmp/s.sock".to_string()),
        path_and_query: Some("/".to_string()),
    };
    let r = make_uri_parts(&backend, &Some("/x?a=1".to_string()));
    assert_eq!(r.scheme, Some("unix".to_string()));
    assert_eq!(r.authority, Some("/tmp/s.sock".to_string()));
    assert_eq!(r.path_and_query, Some("/x?a=1".to_string()));
}

#[test]
fn websocket_target_forces_the_ws_scheme() {
    let r = make_ws_uri_parts(&tcp_backend(), &Some("/ws".to_string()));
    assert_eq!(r.scheme, Some("ws".to_string()));
    assert_eq!(r.authority, Some("127.0.0.1:18000".to_string()));
    assert_eq!(r.path_and_query, Some("/ws".to_string()));
}

#[test]
fn transport_follows_the_scheme() {
    assert_eq!(transport_for(&tcp_backend()), Transport::Tcp);
    let unix = UriParts {
        scheme: Some("unix".to_string()),
        authority: Some("/tmp/s.sock".to_string()),
        path_and_query: None,
    };
    assert_eq!(transport_for(&unix), Transport::UnixSocket);
    let bare = UriParts {
        scheme: None,
        authority: None,
        path_and_query: None,
    };
    assert_eq!(transport_for(&bare), Transport::Tcp);
}

#[test]
fn default_backend_uri_by_mode() {
    let debug = default_backend_uri(true, "/tmp");
    assert_eq!(debug.scheme, Some("http".to_string()));
    assert_eq!(debug.authority, Some("localhost:8000".to_string()));

    let prod = default_backend_uri(false, "/tmp");
    assert_eq!(prod.scheme, Some("unix".to_string()));
    assert_eq!(prod.authority, Some("/tmp/authentik-core.sock".to_string()));
}

#[test]
fn rewrite_strips_server_and_stamps_powered_by() {
    let input = vec![
        header("server", "nginx"),
        header("content-type", "text/plain"),
        header("x-powered-by", "php"),
        header("server", "apache"),
    ];
    let out = rewrite_proxy_headers(input);
    assert_eq!(
        pairs(&out),
        vec![
            ("content-type".to_string(), "text/plain".to_string()),
            ("x-powered-by".to_string(), "authentik".to_string()),
        ]
    );
}

#[test]
fn rewrite_of_a_clean_response_only_adds_the_stamp() {
    let input = vec![header("content-length", "0")];
    let out = rewrite_proxy_headers(input);
    assert_eq!(
        pairs(&out),
        vec![
            ("content-length".to_string(), "0".to_string()),
            ("x-powered-by".to_string(), "authentik".to_string()),
        ]
    );
}

#[test]
fn rewrite_is_idempotent_on_concrete_headers() {
    let input = vec![
        header("server", "nginx"),
        header("etag", "abc"),
        header("x-powered-by", "php"),
    ];
    let once = rewrite_proxy_headers(input);
    let once_pairs = pairs(&once);
    let twice = rewrite_proxy_headers(once);
    assert_eq!(pairs(&twice), once_pairs);
    assert_eq!(
        once_pairs
            .iter()
            .filter(|(name, _)| name == "x-powered-by")
            .count(),
        1
    );
    assert!(once_pairs.iter().all(|(name, _)| name != "server"));
}

#[test]
fn proxied_exchange_keeps_the_request_and_rewrites_the_answer() {
    // A GET for /x?a=1 through a backend answering 204 with its own server
    // header: the target URI carries the path verbatim, and the answer comes
    // back stamped, with the backend's server header gone.
    let target = make_uri_parts(&tcp_backend(), &Some("/x?a=1".to_string()));
    assert_eq!(target.scheme, Some("http".to_string()));
    assert_eq!(target.authority, Some("127.0.0.1:18000".to_string()));
    assert_eq!(target.path_and_query, Some("/x?a=1".to_string()));

    let answer = vec![header("server", "backend"), header("content-length", "0")];
    let rewritten = pairs(&rewrite_proxy_headers(answer));
    assert!(rewritten.iter().all(|(name, _)| name != "server"));
    assert!(rewritten
        .iter()
        .any(|(name, value)| name == "x-powered-by" && value == "authentik"));
}

#[test]
fn static_asset_headers_shape() {
    let hs = static_asset_headers("2024.1");
    assert_eq!(
        pairs(&hs),
        vec![
            (
                "cache-control".to_string(),
                "public, no-transform".to_string()
            ),
            ("x-authentik-version".to_string(), "2024.1".to_string()),
            ("vary".to_string(), "X-authentik-version, Etag".to_string()),
        ]
    );
}

#[test]
fn data_and_control_frames_are_forwarded_unchanged() {
    match relay_step(Frame::Text("hi".to_string())) {
        ForwardStep::Forward(Frame::Text(s)) => assert_eq!(s, "hi"),
        _ => panic!("text frame must be forwarded as text"),
    }
    match relay_step(Frame::Binary(vec![0x01, 0x02])) {
        ForwardStep::Forward(Frame::Binary(b)) => assert_eq!(b, vec![0x01, 0x02]),
        _ => panic!("binary frame must be forwarded as binary"),
    }
    match relay_step(Frame::Ping(vec![9])) {
        ForwardStep::Forward(Frame::Ping(b)) => assert_eq!(b, vec![9]),
        _ => panic!("ping frame must be forwarded as ping"),
    }
    match relay_step(Frame::Pong(vec![])) {
        ForwardStep::Forward(Frame::Pong(b)) => assert!(b.is_empty()),
        _ => panic!("pong frame must be forwarded as pong"),
    }
}

#[test]
fn close_stops_the_direction_and_raw_frames_are_dropped() {
    assert!(matches!(relay_step(Frame::Close), ForwardStep::Stop));
    assert!(matches!(relay_step(Frame::Raw(vec![1])), ForwardStep::Skip));
}

#[test]
fn relay_delivers_everything_before_the_close_and_nothing_after() {
    let frames = vec![
        Frame::Text("hi".to_string()),
        Frame::Raw(vec![0xff]),
        Frame::Binary(vec![0x01, 0x02]),
        Frame::Close,
        Frame::Text("after".to_string()),
    ];
    let out = relay_frames(&frames);
    assert_eq!(out.len(), 2);
    assert!(matches!(&out[0], Frame::Text(s) if s == "hi"));
    assert!(matches!(&out[1], Frame::Binary(b) if *b == vec![0x01, 0x02]));
}

#[test]
fn relay_of_a_pure_data_stream_is_the_stream_itself() {
    let frames = vec![
        Frame::Text("a".to_string()),
        Frame::Ping(vec![1]),
        Frame::Pong(vec![2]),
        Frame::Binary(vec![3]),
    ];
    let out = relay_frames(&frames);
    assert_eq!(out.len(), 4);
    assert!(matches!(&out[0], Frame::Text(s) if s == "a"));
    assert!(matches!(&out[1], Frame::Ping(b) if *b == vec![1]));
    assert!(matches!(&out[2], Frame::Pong(b) if *b == vec![2]));
    assert!(matches!(&out[3], Frame::Binary(b) if *b == vec![3]));
}
