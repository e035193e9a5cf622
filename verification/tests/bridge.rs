use rue::address::IpAddress;
use rue::bridge::{Bridge, DiscoveryReply, ErrorResponse, Record, RecordKind, SuccessResponse};
use rue::config::User;
use rue::errors::BridgeError;
use rue::string_map::StringMap;

fn map(entries: &[(&str, &str)]) -> StringMap {
    let mut m = StringMap::new();
    for (k, v) in entries {
        m.insert(k.to_string(), v.to_string());
    }
    m
}

const IP: IpAddress = IpAddress::V4(0xC0A8_0102);

#[test]
fn success_reply_with_username_gives_the_user() {
    let success = SuccessResponse { success: map(&[("username", "83b7780291a6ceffbe0bd049104df")]) };
    let user = Bridge::authorize_user_reply(IP, Some(success), None).unwrap();
    assert_eq!(user.username, "83b7780291a6ceffbe0bd049104df");
    assert_eq!(user.bridge_address, IP);
}

#[test]
fn success_reply_without_username_is_unknown_format() {
    let success = SuccessResponse { success: map(&[("clientkey", "x")]) };
    let error = ErrorResponse { error: map(&[("description", "Link button not pressed")]) };
    match Bridge::authorize_user_reply(IP, Some(success), Some(error)) {
        Err(BridgeError::ResponseError(m)) => assert_eq!(m, "Unknown response format"),
        other => panic!("unexpected {:?}", other),
    }
}

#[test]
fn link_button_error_reply_is_button_not_pressed() {
    let error = ErrorResponse {
        error: map(&[("type", "101"), ("address", ""), ("description", "Link button not pressed")]),
    };
    assert!(matches!(
        Bridge::authorize_user_reply(IP, None, Some(error)),
        Err(BridgeError::ButtonNotPressed)
    ));
}

#[test]
fn other_error_reply_is_unknown_format() {
    let error = ErrorResponse { error: map(&[("description", "invalid value")]) };
    match Bridge::authorize_user_reply(IP, None, Some(error)) {
        Err(BridgeError::ResponseError(m)) => assert_eq!(m, "Unknown response format"),
        other => panic!("unexpected {:?}", other),
    }
}

#[test]
fn unreadable_reply_is_unknown_format() {
    match Bridge::authorize_user_reply(IP, None, None) {
        Err(BridgeError::ResponseError(m)) => assert_eq!(m, "Unknown response format"),
        other => panic!("unexpected {:?}", other),
    }
}

fn user(name: &str) -> User {
    User { username: name.to_string(), bridge_address: IP }
}

#[test]
fn first_finished_request_decides() {
    let outcomes = vec![Ok(Err(BridgeError::ButtonNotPressed)), Ok(Ok(user("late")))];
    assert!(matches!(Bridge::create_user(outcomes), Err(BridgeError::ButtonNotPressed)));
    let outcomes = vec![Ok(Ok(user("first"))), Ok(Err(BridgeError::ButtonNotPressed))];
    assert_eq!(Bridge::create_user(outcomes).unwrap().username, "first");
}

#[test]
fn other_request_errors_become_internal_errors_with_their_text() {
    let outcome = Ok(Err(BridgeError::RequestError("connection refused".to_string())));
    match Bridge::request_report(outcome) {
        Err(BridgeError::InternalError(m)) => assert_eq!(m, "Error sending request"),
        other => panic!("unexpected {:?}", other),
    }
    match Bridge::request_report(Err("task panicked".to_string())) {
        Err(BridgeError::InternalError(m)) => assert_eq!(m, "task panicked"),
        other => panic!("unexpected {:?}", other),
    }
}

#[test]
fn address_records_give_addresses() {
    assert_eq!(Bridge::to_ip_addr(&Record { kind: RecordKind::A(7) }), Some(IpAddress::V4(7)));
    assert_eq!(Bridge::to_ip_addr(&Record { kind: RecordKind::AAAA(9) }), Some(IpAddress::V6(9)));
    assert_eq!(Bridge::to_ip_addr(&Record { kind: RecordKind::Other }), None);
}

#[test]
fn mdns_discovery_takes_the_first_address() {
    let records = vec![
        Record { kind: RecordKind::Other },
        Record { kind: RecordKind::AAAA(5) },
        Record { kind: RecordKind::A(6) },
    ];
    let bridges = Bridge::mdns_discovery(Some(records)).unwrap();
    assert_eq!(bridges, vec![Bridge::new(IpAddress::V6(5))]);
    assert_eq!(bridges[0].internal_ip_address(), IpAddress::V6(5));
}

#[test]
fn mdns_discovery_without_address_finds_no_bridge() {
    let records = vec![Record { kind: RecordKind::Other }];
    assert!(matches!(Bridge::mdns_discovery(Some(records)), Err(BridgeError::NoBridgesFound)));
    assert!(matches!(Bridge::mdns_discovery(Some(vec![])), Err(BridgeError::NoBridgesFound)));
}

#[test]
fn mdns_discovery_without_response_is_empty() {
    assert_eq!(Bridge::mdns_discovery(None).unwrap(), vec![]);
}

#[test]
fn discovery_reply_depends_on_status() {
    assert_eq!(Bridge::discovery_reply(200), DiscoveryReply::DecodeBridges);
    assert_eq!(Bridge::discovery_reply(404), DiscoveryReply::ReportFailure);
    assert_eq!(Bridge::discovery_reply(500), DiscoveryReply::ReportFailure);
}

#[test]
fn api_address_wraps_the_host() {
    assert_eq!(Bridge::api_address("192.168.1.2"), "http://192.168.1.2/api");
    assert_eq!(Bridge::api_address("fe80::1"), "http://fe80::1/api");
}
