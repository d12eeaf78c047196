use share_invitations::{reply_from_exchange, Exchange, FailureKind, Reply, STATUS_OK};

#[test]
fn answered_ok_with_payload_is_success() {
    let r = reply_from_exchange(Exchange::Answered {
        status: STATUS_OK,
        payload: Some(7u32),
        message: String::new(),
    });
    assert!(r.is_successful());
    assert!(!r.is_failed());
    assert_eq!(r, Reply::Successful(7));
    assert_eq!(r.success(), Some(7));
}

#[test]
fn malformed_body_is_decode_failure() {
    let r: Reply<u32> = reply_from_exchange(Exchange::Answered {
        status: 200,
        payload: None,
        message: "bad cbor".to_string(),
    });
    assert!(r.is_failed());
    assert!(!r.is_successful());
    let f = r.failure().unwrap();
    assert_eq!(f.kind, FailureKind::Decode);
    assert_eq!(f.status, Some(200));
    assert_eq!(f.message, "bad cbor");
}

#[test]
fn server_status_is_server_failure() {
    let r = reply_from_exchange(Exchange::Answered {
        status: 404,
        payload: Some(1u8),
        message: "no such invitation".to_string(),
    });
    assert!(r.is_failed());
    let f = r.clone().failure().unwrap();
    assert_eq!(f.kind, FailureKind::Server);
    assert_eq!(f.status, Some(404));
    assert_eq!(r.success(), None);
}

#[test]
fn undelivered_is_transport_failure() {
    let r: Reply<String> = reply_from_exchange(Exchange::Undelivered("timed out".to_string()));
    assert!(r.is_failed());
    let f = r.failure().unwrap();
    assert_eq!(f.kind, FailureKind::Transport);
    assert_eq!(f.status, None);
    assert_eq!(f.message, "timed out");
}
