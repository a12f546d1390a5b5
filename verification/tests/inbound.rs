use actr::ais_key_cache::{AisKeyCache, KeyLookup, VerifyingKey};
use actr::error::NetworkError;
use actr::protocol::{
    AIdCredential, ActrError, ActrId, ActrType, ErrorResponse, IdentityClaims, PayloadType, Realm,
    RpcEnvelope,
};
use actr::wire::websocket::gate::{
    read_step, reader_lanes, stream_read, Admission, EnvelopeRoute, LoopAction, LoopEvent,
    MessagePriority, ReadAction, StreamAction, WebSocketGate,
};
use actr::wire::websocket::server::{
    accept_step, bind_error, local_addr_error, read_headers, AcceptAction, AcceptEvent,
};
use bytes::Bytes;
use ed25519_dalek::{Signer, SigningKey};

fn test_actor_id(serial: u64) -> ActrId {
    ActrId {
        realm: Realm { realm_id: 1 },
        serial_number: serial,
        actr_type: ActrType {
            manufacturer: "test".to_string(),
            name: "node".to_string(),
            version: "v1".to_string(),
        },
    }
}

fn text_of(id: &ActrId) -> String {
    format!(
        "{}@{}:{}+{}:{}",
        id.serial_number,
        id.realm.realm_id,
        id.actr_type.manufacturer,
        id.actr_type.name,
        id.actr_type.version
    )
}

fn signing_key(seed: u8) -> SigningKey {
    SigningKey::from_bytes(&[seed; 32])
}

fn claims_octets(claims: &IdentityClaims) -> Vec<u8> {
    format!("{}|{}|{}", claims.actor_id, claims.expires_at, claims.realm_id).into_bytes()
}

fn make_valid_credential(
    sk: &SigningKey,
    actor_id: &ActrId,
    expires_at: u64,
    key_id: u32,
) -> (AIdCredential, IdentityClaims) {
    let claims = IdentityClaims {
        actor_id: text_of(actor_id),
        expires_at,
        realm_id: actor_id.realm.realm_id,
    };
    let octets = claims_octets(&claims);
    let signature = sk.sign(&octets);
    let credential =
        AIdCredential { key_id, claims: octets, signature: signature.to_bytes().to_vec() };
    (credential, claims)
}

fn now() -> u64 {
    std::time::SystemTime::now().duration_since(std::time::UNIX_EPOCH).unwrap().as_secs()
}

fn future_ts() -> u64 {
    now() + 3600
}

fn past_ts() -> u64 {
    now() - 1
}

fn cached_key(sk: &SigningKey, key_id: u32) -> Option<VerifyingKey> {
    let mut cache = AisKeyCache::new();
    cache.seed(key_id, sk.verifying_key().as_bytes()).unwrap();
    match cache.get_or_fetch(key_id) {
        KeyLookup::Hit(key) => Some(key),
        KeyLookup::Fetch { .. } => None,
    }
}

#[test]
fn verify_credential_valid_returns_some() {
    let sk = signing_key(1);
    let actor = test_actor_id(100);
    let (credential, claims) = make_valid_credential(&sk, &actor, future_ts(), 1);
    let result = WebSocketGate::verify_credential(
        &cached_key(&sk, 1),
        &credential,
        &Some(claims),
        &Some(text_of(&actor)),
    );
    assert!(result.is_some(), "valid credential should pass");
    assert_eq!(result, Some(text_of(&actor)));
}

#[test]
fn verify_credential_tampered_signature_returns_none() {
    let sk = signing_key(2);
    let actor = test_actor_id(101);
    let (mut credential, claims) = make_valid_credential(&sk, &actor, future_ts(), 1);
    credential.signature[0] ^= 0xFF;
    assert!(WebSocketGate::verify_credential(
        &cached_key(&sk, 1),
        &credential,
        &Some(claims),
        &Some(text_of(&actor)),
    )
    .is_none());
}

#[test]
fn verify_credential_short_signature_returns_none() {
    let sk = signing_key(3);
    let actor = test_actor_id(102);
    let (mut credential, claims) = make_valid_credential(&sk, &actor, future_ts(), 1);
    credential.signature = vec![0u8; 32];
    assert!(WebSocketGate::verify_credential(
        &cached_key(&sk, 1),
        &credential,
        &Some(claims),
        &Some(text_of(&actor)),
    )
    .is_none());
}

#[test]
fn verify_credential_expired_returns_none() {
    let sk = signing_key(4);
    let actor = test_actor_id(103);
    let (credential, claims) = make_valid_credential(&sk, &actor, past_ts(), 1);
    assert!(
        WebSocketGate::verify_credential(
            &cached_key(&sk, 1),
            &credential,
            &Some(claims),
            &Some(text_of(&actor)),
        )
        .is_none(),
        "expired credential should be rejected"
    );
}

#[test]
fn verify_credential_actor_id_mismatch_returns_none() {
    let sk = signing_key(5);
    let claimed_actor = test_actor_id(200);
    let actual_source = test_actor_id(201);
    let (credential, claims) = make_valid_credential(&sk, &claimed_actor, future_ts(), 1);
    assert!(
        WebSocketGate::verify_credential(
            &cached_key(&sk, 1),
            &credential,
            &Some(claims),
            &Some(text_of(&actual_source)),
        )
        .is_none(),
        "actor_id mismatch should be rejected"
    );
}

#[test]
fn verify_credential_invalid_claims_proto_returns_none() {
    let sk = signing_key(6);
    let actor = test_actor_id(104);
    let garbage = b"\xFF\xFF\xFF\xFF\xFF";
    let signature = sk.sign(garbage);
    let credential = AIdCredential {
        key_id: 1,
        claims: garbage.to_vec(),
        signature: signature.to_bytes().to_vec(),
    };
    assert!(WebSocketGate::verify_credential(
        &cached_key(&sk, 1),
        &credential,
        &None,
        &Some(text_of(&actor)),
    )
    .is_none());
}

#[test]
fn verify_credential_invalid_source_id_returns_none() {
    let sk = signing_key(7);
    let actor = test_actor_id(105);
    let (credential, claims) = make_valid_credential(&sk, &actor, future_ts(), 1);
    assert!(WebSocketGate::verify_credential(
        &cached_key(&sk, 1),
        &credential,
        &Some(claims),
        &None,
    )
    .is_none());
}

#[test]
fn verify_credential_unknown_key_id_returns_none() {
    let sk = signing_key(8);
    let actor = test_actor_id(106);
    let mut cache = AisKeyCache::new();
    let key = match cache.get_or_fetch(99) {
        KeyLookup::Hit(key) => Some(key),
        KeyLookup::Fetch { .. } => cache.fetched(Err("should not be called".to_string())).ok(),
    };
    let (credential, claims) = make_valid_credential(&sk, &actor, future_ts(), 99);
    assert!(WebSocketGate::verify_credential(
        &key,
        &credential,
        &Some(claims),
        &Some(text_of(&actor)),
    )
    .is_none());
}

#[test]
fn a_credential_is_good_up_to_its_last_second() {
    let sk = signing_key(9);
    let actor = test_actor_id(107);
    let (credential, claims) = make_valid_credential(&sk, &actor, 1000, 1);
    let key = cached_key(&sk, 1);
    let claims = Some(claims);
    let source = Some(text_of(&actor));
    assert!(
        WebSocketGate::verify_credential_at(&key, &credential, &claims, &source, 999).is_some()
    );
    assert!(
        WebSocketGate::verify_credential_at(&key, &credential, &claims, &source, 1000).is_none()
    );
}

// ── Routing ───────────────────────────────────────────────────────────────────

fn make_rpc_envelope(request_id: &str) -> RpcEnvelope {
    RpcEnvelope {
        request_id: request_id.to_string(),
        route_key: "test".to_string(),
        payload: Some(Bytes::from("hello")),
        traceparent: None,
        tracestate: None,
        metadata: vec![],
        timeout_ms: 5000,
        error: None,
    }
}

#[test]
fn handle_envelope_request_goes_to_mailbox_with_normal_priority() {
    let mut inbound = WebSocketGate::new(true);
    let route = inbound.handle_envelope(
        make_rpc_envelope("req-1"),
        vec![1u8, 2, 3],
        Bytes::from_static(b"raw"),
        PayloadType::RpcReliable,
    );
    match route {
        EnvelopeRoute::Enqueue { from, data, priority } => {
            assert_eq!(from, vec![1u8, 2, 3]);
            assert_eq!(data, Bytes::from_static(b"raw"));
            assert_eq!(priority, MessagePriority::Normal);
        }
        other => panic!("unexpected {other:?}"),
    }
}

#[test]
fn handle_envelope_rpc_signal_uses_high_priority() {
    let mut inbound = WebSocketGate::new(true);
    let route = inbound.handle_envelope(
        make_rpc_envelope("sig-1"),
        vec![],
        Bytes::from_static(b"raw"),
        PayloadType::RpcSignal,
    );
    match route {
        EnvelopeRoute::Enqueue { priority, .. } => assert_eq!(priority, MessagePriority::High),
        other => panic!("unexpected {other:?}"),
    }
}

#[test]
fn handle_envelope_response_resolves_pending_not_mailbox() {
    let mut inbound = WebSocketGate::new(true);
    inbound.await_reply("req-2".to_string(), 5);
    let mut envelope = make_rpc_envelope("req-2");
    envelope.payload = Some(Bytes::from("response-payload"));
    let route =
        inbound.handle_envelope(envelope, vec![], Bytes::new(), PayloadType::RpcReliable);
    match route {
        EnvelopeRoute::Resolve { waiter, result } => {
            assert_eq!(waiter, 5);
            assert_eq!(result.unwrap(), Bytes::from("response-payload"));
        }
        other => panic!("response must not go to mailbox: {other:?}"),
    }
}

#[test]
fn handle_envelope_response_both_payload_and_error_gives_decode_failure() {
    let mut inbound = WebSocketGate::new(true);
    inbound.await_reply("req-3".to_string(), 1);
    let mut envelope = make_rpc_envelope("req-3");
    envelope.payload = Some(Bytes::from("x"));
    envelope.error = Some(ErrorResponse { code: 500, message: "err".to_string() });
    let route =
        inbound.handle_envelope(envelope, vec![], Bytes::new(), PayloadType::RpcReliable);
    match route {
        EnvelopeRoute::Resolve { result, .. } => assert!(
            matches!(result, Err(ActrError::DecodeFailure(_))),
            "both payload+error should produce DecodeFailure: {result:?}"
        ),
        other => panic!("unexpected {other:?}"),
    }
}

#[test]
fn handle_envelope_response_error_only_gives_unavailable() {
    let mut inbound = WebSocketGate::new(true);
    inbound.await_reply("req-4".to_string(), 1);
    let mut envelope = make_rpc_envelope("req-4");
    envelope.payload = None;
    envelope.error = Some(ErrorResponse { code: 503, message: "unavailable".to_string() });
    let route =
        inbound.handle_envelope(envelope, vec![], Bytes::new(), PayloadType::RpcReliable);
    match route {
        EnvelopeRoute::Resolve { result, .. } => assert!(
            matches!(result, Err(ActrError::Unavailable(_))),
            "error-only response should produce Unavailable: {result:?}"
        ),
        other => panic!("unexpected {other:?}"),
    }
}

#[test]
fn handle_envelope_response_removes_pending_entry() {
    let mut inbound = WebSocketGate::new(true);
    inbound.await_reply("req-5".to_string(), 1);
    inbound.handle_envelope(
        make_rpc_envelope("req-5"),
        vec![],
        Bytes::new(),
        PayloadType::RpcReliable,
    );
    assert!(
        inbound.pending_requests.get("req-5").is_none(),
        "pending entry must be removed after response"
    );
    let again = inbound.handle_envelope(
        make_rpc_envelope("req-5"),
        vec![],
        Bytes::new(),
        PayloadType::RpcReliable,
    );
    assert!(matches!(again, EnvelopeRoute::Enqueue { .. }));
}

#[test]
fn a_message_that_is_no_envelope_goes_nowhere() {
    let mut inbound = WebSocketGate::new(true);
    assert!(inbound
        .envelope_read(None, vec![], Bytes::from_static(b"?"), PayloadType::RpcReliable)
        .is_none());
    assert!(inbound
        .envelope_read(
            Some(make_rpc_envelope("req-6")),
            vec![],
            Bytes::new(),
            PayloadType::RpcReliable
        )
        .is_some());
}

#[test]
fn the_receive_loop_is_started_once() {
    let mut inbound = WebSocketGate::new(false);
    inbound.start_receive_loop().unwrap();
    match inbound.start_receive_loop() {
        Err(ActrError::Internal(m)) => {
            assert_eq!(m, "WebSocketGate: start_receive_loop already called");
        }
        other => panic!("unexpected {other:?}"),
    }
}

#[test]
fn only_credentials_that_can_be_verified_are_let_in() {
    assert!(matches!(WebSocketGate::new(true).admission(true), Admission::Verify));
    assert!(matches!(WebSocketGate::new(true).admission(false), Admission::Reject));
    assert!(matches!(WebSocketGate::new(false).admission(true), Admission::Reject));
}

#[test]
fn readers_start_for_verified_connections_only() {
    let open = WebSocketGate::new(false);
    let gate = WebSocketGate::new(true);
    let arrived = |has_credential| LoopEvent::Arrived { has_credential };
    assert_eq!(gate.loop_step(arrived(true)), LoopAction::Verify);
    assert_eq!(gate.loop_step(arrived(false)), LoopAction::Drop);
    assert_eq!(open.loop_step(arrived(true)), LoopAction::Drop);
    let known = LoopEvent::Judged { identity: Some("actor".to_string()) };
    assert_eq!(gate.loop_step(known), LoopAction::StartReaders);
    assert_eq!(gate.loop_step(LoopEvent::Judged { identity: None }), LoopAction::Drop);
    assert_eq!(gate.loop_step(LoopEvent::Handled), LoopAction::Receive);
    assert_eq!(gate.loop_step(LoopEvent::Closed), LoopAction::Stop);
}

#[test]
fn each_lane_is_read_for_what_it_carries() {
    assert_eq!(
        reader_lanes(),
        vec![
            PayloadType::RpcReliable,
            PayloadType::RpcSignal,
            PayloadType::StreamReliable,
            PayloadType::StreamLatencyFirst,
        ]
    );
    let data = Bytes::from_static(b"m");
    match read_step(PayloadType::RpcSignal, Ok(data.clone())) {
        ReadAction::DecodeEnvelope { data: d } => assert_eq!(d, data),
        other => panic!("unexpected {other:?}"),
    }
    match read_step(PayloadType::StreamLatencyFirst, Ok(data.clone())) {
        ReadAction::DecodeStream { data: d } => assert_eq!(d, data),
        other => panic!("unexpected {other:?}"),
    }
    assert!(matches!(read_step(PayloadType::MediaRtp, Ok(data)), ReadAction::Ignore));
    assert!(matches!(
        read_step(PayloadType::RpcReliable, Err(NetworkError::ChannelClosed("x".to_string()))),
        ReadAction::Stop
    ));
}

#[test]
fn a_chunk_is_dispatched_if_its_sender_is_known() {
    match stream_read(true, Some(test_actor_id(3))) {
        StreamAction::Dispatch { sender } => assert_eq!(sender.serial_number, 3),
        other => panic!("unexpected {other:?}"),
    }
    assert!(matches!(stream_read(true, None), StreamAction::Drop));
    assert!(matches!(stream_read(false, Some(test_actor_id(3))), StreamAction::Drop));
}

// ── Accepting ─────────────────────────────────────────────────────────────────

#[test]
fn headers_name_the_peer() {
    let peer = read_headers(Some("deadbeef"), Some("AQID"));
    assert_eq!(peer.source_id, vec![0xde, 0xad, 0xbe, 0xef]);
    assert_eq!(peer.credential, Some(vec![1, 2, 3]));
}

#[test]
fn headers_that_cannot_be_read_are_left_out() {
    let peer = read_headers(Some("xyz"), Some("not base64!"));
    assert!(peer.source_id.is_empty());
    assert_eq!(peer.credential, None);
    let peer = read_headers(None, None);
    assert!(peer.source_id.is_empty());
    assert_eq!(peer.credential, None);
}

#[test]
fn accepting_goes_on_until_shutdown() {
    assert!(matches!(accept_step(AcceptEvent::Accepted), AcceptAction::Handshake));
    assert!(matches!(accept_step(AcceptEvent::Failed), AcceptAction::Sleep { millis: 100 }));
    assert!(matches!(accept_step(AcceptEvent::Woke), AcceptAction::Accept));
    assert!(matches!(accept_step(AcceptEvent::Shutdown), AcceptAction::Stop));
}

#[test]
fn a_port_that_cannot_be_bound_is_named() {
    match bind_error(8080, "in use") {
        ActrError::Internal(m) => {
            assert_eq!(m, "WebSocketServer: failed to bind port 8080: in use");
        }
        other => panic!("unexpected {other:?}"),
    }
    match local_addr_error("gone") {
        ActrError::Internal(m) => {
            assert_eq!(m, "WebSocketServer: failed to get local addr: gone");
        }
        other => panic!("unexpected {other:?}"),
    }
}
