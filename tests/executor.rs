use request_runner::executor::{cancel_reply, settle, CancelSlot, Settlement};
use request_runner::request::RequestError;

#[test]
fn cancel_while_in_flight_cancels_that_request() {
    let mut slot = CancelSlot::new();
    let token = slot.begin();
    assert_eq!(slot.cancel(), Some(token));
    let r = settle(Settlement::Cancelled, 5, "curl -X GET 'u'".to_string(), "t".to_string());
    assert!(matches!(r, Err(RequestError::RequestCancelled)));
}

#[test]
fn second_request_takes_over_the_slot() {
    let mut slot = CancelSlot::new();
    let first = slot.begin();
    let second = slot.begin();
    assert_ne!(first, second);
    assert_eq!(slot.cancel(), Some(second));
    assert_eq!(slot.cancel(), None);
}

#[test]
fn finishing_an_older_request_keeps_the_newer_token() {
    let mut slot = CancelSlot::new();
    let first = slot.begin();
    let second = slot.begin();
    slot.finish(first);
    assert_eq!(slot.current(), Some(second));
    slot.finish(second);
    assert_eq!(slot.current(), None);
    assert_eq!(slot.cancel(), None);
}

#[test]
fn cancel_reply_cases() {
    assert!(cancel_reply(None).is_ok());
    assert!(cancel_reply(Some(true)).is_ok());
    assert!(matches!(cancel_reply(Some(false)), Err(RequestError::CancelSendFailed)));
}

#[test]
fn response_record_carries_byte_size() {
    let headers = vec![
        ("set-cookie".to_string(), "a=1".to_string()),
        ("set-cookie".to_string(), "b=2".to_string()),
    ];
    let r = settle(
        Settlement::Responded { status: 201, headers: headers.clone(), body: "héllo".to_string() },
        17,
        "curl -X POST 'u'".to_string(),
        "2024-01-01T00:00:00+00:00".to_string(),
    )
    .unwrap();
    assert_eq!(r.status, 201);
    assert_eq!(r.size_bytes, 6);
    assert_eq!(r.duration_ms, 17);
    assert_eq!(r.headers, headers);
    assert_eq!(r.body, "héllo");
    assert_eq!(r.curl_command, "curl -X POST 'u'");
    assert_eq!(r.timestamp, "2024-01-01T00:00:00+00:00");
    assert!(r.error.is_none());
}

#[test]
fn transport_failure_passes_cause_through() {
    let r = settle(
        Settlement::Failed { cause: "connection refused".to_string() },
        3,
        String::new(),
        String::new(),
    );
    match r {
        Err(RequestError::TransportFailure { cause }) => assert_eq!(cause, "connection refused"),
        other => panic!("unexpected {:?}", other),
    }
}
