use firehose_client::client::XrpcUri;
use firehose_client::subscriptions::ProcessedPayload;

#[test]
fn to_uri_joins_host_and_method() {
    let uri = XrpcUri::new("bsky.network", "com.atproto.sync.subscribeRepos");
    assert_eq!(uri.to_uri(), "wss://bsky.network/xrpc/com.atproto.sync.subscribeRepos");
}

#[test]
fn to_uri_keeps_its_parts_as_they_are() {
    assert_eq!(XrpcUri::new("", "").to_uri(), "wss:///xrpc/");
    assert_eq!(XrpcUri::new("host:8080", "a.b/c?d").to_uri(), "wss://host:8080/xrpc/a.b/c?d");
}

#[test]
fn uris_compare_by_their_parts() {
    assert_eq!(XrpcUri::new("a", "b"), XrpcUri::new("a", "b").clone());
    assert_ne!(XrpcUri::new("a", "b"), XrpcUri::new("a", "c"));
    assert_ne!(XrpcUri::new("a", "b"), XrpcUri::new("b", "b"));
}

#[test]
fn map_keeps_the_sequence_number() {
    let payload = ProcessedPayload { seq: -5, data: 20u8 };
    let mapped = payload.map(|n| format!("<{n}>"));
    assert_eq!(mapped, ProcessedPayload { seq: -5, data: "<20>".to_string() });
    let mapped = ProcessedPayload { seq: i64::MAX, data: vec![1u8, 2] }.map(|v| v.len());
    assert_eq!(mapped, ProcessedPayload { seq: i64::MAX, data: 2usize });
}
