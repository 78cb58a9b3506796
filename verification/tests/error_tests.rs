use ya_etcd_rs::error::Error;

#[test]
fn messages_of_plain_kinds() {
    assert_eq!(Error::ChannelClosed.message(), "channel closed");
    assert_eq!(Error::CreateWatch.message(), "failed to create watch");
    assert_eq!(Error::KeepAliveLease.message(), "failed to keep alive lease");
    assert_eq!(Error::WatchEventExhausted.message(), "watch event exhausted");
    assert_eq!(Error::ExecuteFailed.message(), "execute failed");
    assert_eq!(Error::WatchChannelSend.message(), "watch channel send error: channel closed");
}

#[test]
fn messages_with_detail() {
    assert_eq!(Error::IOError("not found".to_string()).message(), "io error: not found");
    assert_eq!(Error::InvalidURI("empty string".to_string()).message(), "invalid URI: empty string");
    assert_eq!(Error::Transport("closed".to_string()).message(), "gRPC transport error: closed");
    assert_eq!(Error::WatchEvent("compacted".to_string()).message(), "unexpected watch event: compacted");
    assert_eq!(Error::InvalidMetadataToken("x".to_string()).message(), "invalid metadata token: x");
    assert_eq!(Error::ParseMetadataToken("y".to_string()).message(), "parse metadata token: y");
    assert_eq!(Error::PoisonError("z".to_string()).message(), "poison error: z");
    assert_eq!(Error::WatchEvent(String::new()).message(), "unexpected watch event: ");
}

#[test]
fn message_of_a_status_names_it() {
    let status = tonic::Status::new(tonic::Code::PermissionDenied, "role missing");
    let text = Error::Response(status.clone()).message();
    assert!(text.starts_with("response failed, status: "));
    assert_eq!(text, format!("response failed, status: {}", status));
    assert!(text.contains("role missing"));
}
