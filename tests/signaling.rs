use demo_webrtc::codec::{decode, encode};
use demo_webrtc::signaling::{
    is_signaling_path, route_request, Accepted, HttpMethod, RequestOutcome, SignalingSlot,
};

#[test]
fn signaling_path_is_exact() {
    assert!(is_signaling_path("/sdp"));
    assert!(!is_signaling_path("/sd"));
    assert!(!is_signaling_path("/sdp/"));
    assert!(!is_signaling_path("/SDP"));
    assert!(!is_signaling_path(""));
}

#[test]
fn route_statuses() {
    let fwd = route_request(HttpMethod::Post, "/sdp", b"abc".to_vec());
    assert_eq!(fwd.status(), 200);
    assert!(matches!(fwd, RequestOutcome::Forward(ref t) if t == "abc"));
    assert_eq!(route_request(HttpMethod::Get, "/sdp", Vec::new()).status(), 404);
    assert_eq!(route_request(HttpMethod::Post, "/other", b"x".to_vec()).status(), 404);
    assert_eq!(route_request(HttpMethod::Other, "/sdp", b"x".to_vec()).status(), 404);
    assert_eq!(route_request(HttpMethod::Post, "/sdp", vec![0xff, 0xfe]).status(), 400);
}

#[test]
fn get_leaves_slot_unchanged() {
    let mut slot = SignalingSlot::new();
    slot.install();
    assert!(matches!(slot.accept(HttpMethod::Get, "/sdp", b"offer".to_vec()), Accepted::NotFound));
    assert_eq!(slot.take(), None);
    assert!(matches!(slot.accept(HttpMethod::Post, "/sdp", b"one".to_vec()), Accepted::Queued));
    assert!(matches!(slot.accept(HttpMethod::Get, "/sdp", b"two".to_vec()), Accepted::NotFound));
    assert_eq!(slot.take(), Some("one".to_string()));
}

#[test]
fn bad_body_is_client_error() {
    let mut slot = SignalingSlot::new();
    slot.install();
    assert!(matches!(slot.accept(HttpMethod::Post, "/sdp", vec![0xc3]), Accepted::BadRequest));
    assert_eq!(slot.take(), None);
}

#[test]
fn full_queue_or_no_consumer_is_busy() {
    let mut slot = SignalingSlot::new();
    assert!(matches!(slot.accept(HttpMethod::Post, "/sdp", b"a".to_vec()), Accepted::Busy(ref t) if t == "a"));
    slot.install();
    assert!(matches!(slot.accept(HttpMethod::Post, "/sdp", b"a".to_vec()), Accepted::Queued));
    assert!(matches!(slot.accept(HttpMethod::Post, "/sdp", b"b".to_vec()), Accepted::Busy(ref t) if t == "b"));
    assert_eq!(slot.offer("c".to_string()), Err("c".to_string()));
    assert_eq!(slot.take(), Some("a".to_string()));
    assert_eq!(slot.offer("c".to_string()), Ok(()));
    slot.install();
    assert_eq!(slot.take(), None);
}

#[test]
fn offer_forwarded_and_answer_encoded() {
    let offer = "{\"type\":\"offer\",\"sdp\":\"v=0\"}";
    let mut slot = SignalingSlot::new();
    slot.install();
    let body = encode(offer).into_bytes();
    assert!(matches!(slot.accept(HttpMethod::Post, "/sdp", body), Accepted::Queued));
    let received = slot.take().unwrap();
    assert_eq!(decode(&received), Ok(offer.to_string()));
    let answer = "{\"type\":\"answer\",\"sdp\":\"v=0\"}";
    let printed = encode(answer);
    assert_eq!(printed, "eyJ0eXBlIjoiYW5zd2VyIiwic2RwIjoidj0wIn0=");
    assert_eq!(decode(&printed), Ok(answer.to_string()));
}
