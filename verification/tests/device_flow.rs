use device_flow::ipv4;
use device_flow::flow::DeviceAuthResponse;
use device_flow::flow::PollLookup;
use device_flow::flow::PollOutcome;
use device_flow::flow::StartError;
use device_flow::flow::classify;
use device_flow::flow::is_expired;
use device_flow::flow::poll;
use device_flow::flow::poll_lookup;
use device_flow::flow::poll_with_body;
use device_flow::flow::start;
use device_flow::flow::start_from_response;
use device_flow::github::GithubClient;
use device_flow::github::GithubStartAuth;
use device_flow::github::PollPayload;
use device_flow::github::encode_poll_body;
use device_flow::github::encode_start_body;
use device_flow::store::AttemptStore;

fn sample_auth() -> GithubStartAuth {
    GithubStartAuth {
        device_code: "D1".to_owned(),
        user_code: "ABCD-1234".to_owned(),
        verification_uri: "https://github.com/login/device".to_owned(),
        expires_in: 900,
        interval: 5,
    }
}

const START_BODY: &str = "{\"device_code\":\"D1\",\"user_code\":\"ABCD-1234\",\"verification_uri\":\"https://github.com/login/device\",\"expires_in\":900,\"interval\":5}";

#[test]
fn ipv4_packs_octets() {
    assert_eq!(ipv4(203, 0, 113, 5), 3_405_803_781);
    assert_eq!(ipv4(0, 0, 0, 0), 0);
    assert_eq!(ipv4(255, 255, 255, 255), u32::MAX);
}

#[test]
fn start_returns_response_without_device_code() {
    let mut store = AttemptStore::new();
    let ip = ipv4(203, 0, 113, 5);
    let r = start(&mut store, ip, Some(sample_auth()), 100);
    let resp: DeviceAuthResponse = r.expect("start should succeed");
    assert_eq!(resp.user_code, "ABCD-1234");
    assert_eq!(resp.verification_uri, "https://github.com/login/device");
    assert_eq!(resp.poll_interval_seconds, 5);
    assert_eq!(resp.attempt_id, 0);
    let shown = format!("{:?}", resp);
    assert!(!shown.contains("D1"));
    let stored = store.get_by_id(resp.attempt_id).expect("attempt stored");
    assert_eq!(stored.device_code, "D1");
    assert_eq!(stored.source_ip, ip);
}

#[test]
fn start_from_response_parses_upstream_json() {
    let mut store = AttemptStore::new();
    let ip = ipv4(203, 0, 113, 5);
    let r = start_from_response(&mut store, ip, Some((200, START_BODY.to_owned())), 100);
    let resp = r.expect("start should succeed");
    assert_eq!(resp.user_code, "ABCD-1234");
    assert_eq!(resp.verification_uri, "https://github.com/login/device");
    assert_eq!(resp.poll_interval_seconds, 5);
    let stored = store.get_by_id(resp.attempt_id).expect("attempt stored");
    assert_eq!(stored.device_code, "D1");
    assert_eq!(stored.expires_in, 900);
}

#[test]
fn start_twice_for_same_ip_conflicts() {
    let mut store = AttemptStore::new();
    let ip = ipv4(10, 0, 0, 1);
    start(&mut store, ip, Some(sample_auth()), 100).expect("first start succeeds");
    let second = start(&mut store, ip, Some(sample_auth()), 150);
    assert_eq!(second.err(), Some(StartError::Conflict));
    let other = start(&mut store, ipv4(10, 0, 0, 2), Some(sample_auth()), 150);
    assert!(other.is_ok());
}

#[test]
fn start_without_usable_upstream_is_unavailable() {
    let mut store = AttemptStore::new();
    let ip = ipv4(10, 0, 0, 3);
    assert_eq!(start(&mut store, ip, None, 100).err(), Some(StartError::UpstreamUnavailable));
    let bad_status = start_from_response(&mut store, ip, Some((500, START_BODY.to_owned())), 100);
    assert_eq!(bad_status.err(), Some(StartError::UpstreamUnavailable));
    let bad_body = start_from_response(&mut store, ip, Some((200, "not json".to_owned())), 100);
    assert_eq!(bad_body.err(), Some(StartError::UpstreamUnavailable));
    let missing_field = start_from_response(
        &mut store,
        ip,
        Some((200, "{\"device_code\":\"D1\"}".to_owned())),
        100,
    );
    assert_eq!(missing_field.err(), Some(StartError::UpstreamUnavailable));
    assert_eq!(start_from_response(&mut store, ip, None, 100).err(), Some(StartError::UpstreamUnavailable));
    assert!(!store.contains_ip(ip));
}

#[test]
fn poll_after_expiry_reports_expired_and_deletes() {
    let mut store = AttemptStore::new();
    let ip = ipv4(10, 0, 0, 4);
    let resp = start(&mut store, ip, Some(sample_auth()), 100).expect("start succeeds");
    let out = poll(&mut store, resp.attempt_id, 1001, None);
    assert_eq!(out, PollOutcome::Expired);
    assert!(store.get_by_id(resp.attempt_id).is_none());
    assert!(!store.contains_ip(ip));
    let again = poll(&mut store, resp.attempt_id, 1001, None);
    assert_eq!(again, PollOutcome::NotFound);
}

#[test]
fn poll_at_window_boundary_is_not_expired() {
    let mut store = AttemptStore::new();
    let resp = start(&mut store, ipv4(10, 0, 0, 5), Some(sample_auth()), 100).expect("start");
    let out = poll_with_body(
        &mut store,
        resp.attempt_id,
        1000,
        Some("{\"error\":\"authorization_pending\"}"),
    );
    assert_eq!(out, PollOutcome::Pending { interval: 5 });
}

#[test]
fn pending_polls_are_idempotent() {
    let mut store = AttemptStore::new();
    let resp = start(&mut store, ipv4(10, 0, 0, 6), Some(sample_auth()), 100).expect("start");
    for _ in 0..3 {
        let out = poll_with_body(
            &mut store,
            resp.attempt_id,
            200,
            Some("{\"error\":\"authorization_pending\"}"),
        );
        assert_eq!(out, PollOutcome::Pending { interval: 5 });
        let stored = store.get_by_id(resp.attempt_id).expect("attempt still present");
        assert_eq!(stored.device_code, "D1");
        assert_eq!(stored.interval, 5);
        assert_eq!(stored.created_at, 100);
    }
}

#[test]
fn token_poll_succeeds_and_deletes() {
    let mut store = AttemptStore::new();
    let ip = ipv4(10, 0, 0, 7);
    let resp = start(&mut store, ip, Some(sample_auth()), 100).expect("start");
    let out = poll_with_body(
        &mut store,
        resp.attempt_id,
        105,
        Some("{\"access_token\":\"tok123\",\"token_type\":\"bearer\"}"),
    );
    assert_eq!(out, PollOutcome::Success { token: "tok123".to_owned() });
    assert!(store.get_by_id(resp.attempt_id).is_none());
    assert!(!store.contains_ip(ip));
    let second = start(&mut store, ip, Some(sample_auth()), 110);
    assert!(second.is_ok());
}

#[test]
fn slow_down_reports_new_interval_and_keeps_attempt() {
    let mut store = AttemptStore::new();
    let resp = start(&mut store, ipv4(10, 0, 0, 8), Some(sample_auth()), 100).expect("start");
    let out = poll_with_body(
        &mut store,
        resp.attempt_id,
        110,
        Some("{\"error\":\"slow_down\",\"interval\":10}"),
    );
    assert_eq!(out, PollOutcome::Pending { interval: 10 });
    assert!(store.get_by_id(resp.attempt_id).is_some());
    let without_hint = poll_with_body(
        &mut store,
        resp.attempt_id,
        120,
        Some("{\"error\":\"slow_down\"}"),
    );
    assert_eq!(without_hint, PollOutcome::Pending { interval: 5 });
}

#[test]
fn denied_poll_deletes_and_later_polls_find_nothing() {
    let mut store = AttemptStore::new();
    let resp = start(&mut store, ipv4(10, 0, 0, 9), Some(sample_auth()), 100).expect("start");
    let out = poll_with_body(&mut store, resp.attempt_id, 110, Some("{\"error\":\"access_denied\"}"));
    assert_eq!(out, PollOutcome::Denied);
    assert!(store.get_by_id(resp.attempt_id).is_none());
    let again = poll_with_body(&mut store, resp.attempt_id, 115, Some("{\"error\":\"access_denied\"}"));
    assert_eq!(again, PollOutcome::NotFound);
}

#[test]
fn expired_token_payload_deletes() {
    let mut store = AttemptStore::new();
    let resp = start(&mut store, ipv4(10, 0, 0, 10), Some(sample_auth()), 100).expect("start");
    let out = poll_with_body(&mut store, resp.attempt_id, 110, Some("{\"error\":\"expired_token\"}"));
    assert_eq!(out, PollOutcome::Expired);
    assert!(store.get_by_id(resp.attempt_id).is_none());
}

#[test]
fn unusable_poll_payloads_leave_attempt_intact() {
    let mut store = AttemptStore::new();
    let resp = start(&mut store, ipv4(10, 0, 0, 11), Some(sample_auth()), 100).expect("start");
    assert_eq!(
        poll_with_body(&mut store, resp.attempt_id, 110, Some("{\"error\":\"server_error\"}")),
        PollOutcome::UpstreamUnavailable,
    );
    assert_eq!(
        poll_with_body(&mut store, resp.attempt_id, 110, Some("not json at all")),
        PollOutcome::UpstreamUnavailable,
    );
    assert_eq!(
        poll_with_body(&mut store, resp.attempt_id, 110, None),
        PollOutcome::UpstreamUnavailable,
    );
    assert!(store.get_by_id(resp.attempt_id).is_some());
}

#[test]
fn poll_lookup_hands_out_device_code() {
    let mut store = AttemptStore::new();
    let resp = start(&mut store, ipv4(10, 0, 0, 12), Some(sample_auth()), 100).expect("start");
    match poll_lookup(&mut store, resp.attempt_id, 110) {
        PollLookup::Active { device_code, interval } => {
            assert_eq!(device_code, "D1");
            assert_eq!(interval, 5);
        },
        other => panic!("expected an active attempt, got {:?}", other),
    }
    match poll_lookup(&mut store, resp.attempt_id, 1001) {
        PollLookup::Expired => {},
        other => panic!("expected expiry, got {:?}", other),
    }
    match poll_lookup(&mut store, resp.attempt_id, 1001) {
        PollLookup::NotFound => {},
        other => panic!("expected the attempt to be gone, got {:?}", other),
    }
}

#[test]
fn classify_reads_each_payload_shape() {
    let token = PollPayload {
        access_token: Some("t".to_owned()),
        error: None,
        interval: None,
    };
    assert_eq!(classify(&token, 5), (true, PollOutcome::Success { token: "t".to_owned() }));
    let pending = PollPayload {
        access_token: None,
        error: Some("authorization_pending".to_owned()),
        interval: None,
    };
    assert_eq!(classify(&pending, 5), (false, PollOutcome::Pending { interval: 5 }));
    let slow = PollPayload {
        access_token: None,
        error: Some("slow_down".to_owned()),
        interval: Some(9),
    };
    assert_eq!(classify(&slow, 5), (false, PollOutcome::Pending { interval: 9 }));
    let expired = PollPayload {
        access_token: None,
        error: Some("expired_token".to_owned()),
        interval: None,
    };
    assert_eq!(classify(&expired, 5), (true, PollOutcome::Expired));
    let denied = PollPayload {
        access_token: None,
        error: Some("access_denied".to_owned()),
        interval: None,
    };
    assert_eq!(classify(&denied, 5), (true, PollOutcome::Denied));
    let odd = PollPayload { access_token: None, error: None, interval: None };
    assert_eq!(classify(&odd, 5), (false, PollOutcome::UpstreamUnavailable));
}

#[test]
fn is_expired_is_strict() {
    assert!(!is_expired(100, 900, 1000));
    assert!(is_expired(100, 900, 1001));
    assert!(!is_expired(i64::MAX, i32::MAX, i64::MAX));
    assert!(is_expired(i64::MIN, 0, 0));
    assert!(is_expired(0, -1, 0));
    assert!(!is_expired(0, 0, 0));
}

#[test]
fn store_operations_round_trip() {
    let mut store = AttemptStore::new();
    assert_eq!(store.next_attempt_id(), 0);
    assert!(!store.contains_ip(1));
    let id = store.create(1, "code".to_owned(), 5, 900, 50);
    assert_eq!(id, 0);
    assert_eq!(store.next_attempt_id(), 1);
    assert!(store.contains_ip(1));
    let row = store.get_by_id(id).expect("present");
    assert_eq!(row.source_ip, 1);
    assert_eq!(row.device_code, "code");
    assert!(store.delete_by_id(id));
    assert!(!store.delete_by_id(id));
    assert!(store.get_by_id(id).is_none());
    assert_eq!(store.next_attempt_id(), 1);
}
