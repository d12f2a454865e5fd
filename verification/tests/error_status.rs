use pacom::error::PacomError;
use up_rust::{UCode, UStatus};

#[test]
fn errors_become_failed_statuses_with_their_code_and_message() {
    let status: UStatus = PacomError::ManifestViolation {
        operation: "rpc.provide".to_string(),
        name: "/rpc/test".to_string(),
    }
    .into();
    assert_eq!(status.get_code(), UCode::PERMISSION_DENIED);
    assert_eq!(
        status.message,
        Some("Manifest violation: operation 'rpc.provide' not declared for '/rpc/test'".to_string())
    );

    let status: UStatus = PacomError::DiscoveryTimeout { name: "/rpc/x".to_string(), timeout_ms: 5 }.into();
    assert_eq!(status.get_code(), UCode::DEADLINE_EXCEEDED);
    assert_eq!(
        status.message,
        Some("Discovery timeout: no provider for '/rpc/x' within 5ms".to_string())
    );

    let status: UStatus = PacomError::Config("bad".to_string()).into();
    assert_eq!(status.get_code(), UCode::INTERNAL);
    assert_eq!(status.message, Some("Configuration error: bad".to_string()));

    let status: UStatus = PacomError::IdCollision {
        name_a: "/a".to_string(),
        name_b: "/b".to_string(),
        id: 0x12,
    }
    .into();
    assert_eq!(status.get_code(), UCode::ALREADY_EXISTS);
    assert_eq!(status.message, Some("ID collision: '/a' and '/b' both resolve to ID 0x0012".to_string()));

    let status: UStatus = PacomError::RpcError("down".to_string()).into();
    assert_eq!(status.get_code(), UCode::INTERNAL);
    assert_eq!(status.message, Some("RPC error: down".to_string()));

    let status: UStatus = PacomError::EmptyResponse.into();
    assert_eq!(status.get_code(), UCode::NOT_FOUND);
    assert_eq!(status.message, Some("RPC returned empty response".to_string()));
}

#[test]
fn transport_errors_pass_their_status_through() {
    let original = UStatus::fail_with_code(UCode::UNAVAILABLE, "network down");
    let status: UStatus = PacomError::Transport(original.clone()).into();
    assert_eq!(status, original);
}

#[test]
fn status_with_code_carries_code_and_message() {
    let s = pacom::error::status_with_code(pacom::error::StatusCode::Unavailable, "No transport available".to_string());
    assert_eq!(s.get_code(), UCode::UNAVAILABLE);
    assert_eq!(s.message, Some("No transport available".to_string()));
    let t = PacomError::Transport(UStatus::fail_with_code(UCode::UNAVAILABLE, "x"));
    assert!(t.to_string().starts_with("Transport error: "));
}
