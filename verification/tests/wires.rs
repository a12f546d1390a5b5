use actr::error::{NetworkError, NetworkResult};
use actr::protocol::{ActrId, ActrType, Dest, Realm};
use actr::transport::address_book::AddressBook;
use actr::transport::wire_builder::{
    BuildAction, BuildEvent, DefaultWireBuilder, DefaultWireBuilderConfig, WireHandle,
};

fn actor(serial_number: u64) -> ActrId {
    ActrId {
        realm: Realm { realm_id: 0 },
        serial_number,
        actr_type: ActrType {
            manufacturer: String::new(),
            name: String::new(),
            version: String::new(),
        },
    }
}

fn config(
    enable_websocket: bool,
    enable_webrtc: bool,
    discovered_ws_addresses: AddressBook,
) -> DefaultWireBuilderConfig {
    DefaultWireBuilderConfig {
        enable_websocket,
        enable_webrtc,
        local_id_hex: "deadbeef".to_string(),
        discovered_ws_addresses,
        has_credential: false,
    }
}

/// Builds, cancelled at the given poll if at all, with a peer connection if it can be made.
fn build(
    builder: &DefaultWireBuilder,
    dest: &Dest,
    cancel_at: Option<usize>,
    webrtc: Option<u64>,
) -> (NetworkResult<Vec<WireHandle>>, Vec<u64>) {
    let (mut task, mut action) = builder.create_connections();
    let mut polls = 0;
    let mut closed = vec![];
    loop {
        let event = match action {
            BuildAction::PollCancelled => {
                let cancelled = cancel_at == Some(polls);
                polls += 1;
                BuildEvent::Polled { cancelled }
            }
            BuildAction::EncodeCredential => BuildEvent::Encoded { credential: vec![1, 2, 3] },
            BuildAction::CreateWebRtc => BuildEvent::Attempted { connection: webrtc },
            BuildAction::CloseWebRtc { connection } => {
                closed.push(connection);
                BuildEvent::Closed
            }
            BuildAction::Finish(result) => return (result, closed),
        };
        action = builder.create_connections_with_cancel(dest, &mut task, event);
    }
}

#[test]
fn test_no_ws_connection_without_discovery() {
    let factory = DefaultWireBuilder::new(false, config(true, false, AddressBook::new()));
    let dest = Dest::actor(actor(0));
    let connections = build(&factory, &dest, None, None).0.unwrap();
    assert!(connections.is_empty());
}

#[test]
fn test_ws_connection_from_discovery() {
    let mut map = AddressBook::new();
    let actor_id = actor(0);
    map.insert(actor_id.clone(), "ws://localhost:9001".to_string());

    let factory = DefaultWireBuilder::new(false, config(true, false, map));
    let dest = Dest::actor(actor_id);
    let connections = build(&factory, &dest, None, None).0.unwrap();
    assert_eq!(connections.len(), 1);
    assert!(matches!(connections[0], WireHandle::WebSocket { .. }));
}

#[test]
fn a_web_socket_carries_the_credential() {
    let mut map = AddressBook::new();
    map.insert(actor(1), "ws://localhost:9001".to_string());
    let mut config = config(true, false, map);
    config.has_credential = true;
    let factory = DefaultWireBuilder::new(false, config);
    let connections = build(&factory, &Dest::actor(actor(1)), None, None).0.unwrap();
    match &connections[0] {
        WireHandle::WebSocket { url, local_id, credential_b64 } => {
            assert_eq!(url, "ws://localhost:9001");
            assert_eq!(local_id, "deadbeef");
            assert_eq!(credential_b64.as_deref(), Some("AQID"));
        }
        other => panic!("unexpected {other:?}"),
    }
}

#[test]
fn peers_are_reached_directly_where_there_is_a_coordinator() {
    let dest = Dest::actor(actor(1));
    let with = DefaultWireBuilder::new(true, config(false, true, AddressBook::new()));
    let connections = build(&with, &dest, None, Some(7)).0.unwrap();
    assert!(matches!(connections[..], [WireHandle::WebRtc { connection: 7 }]));
    assert!(build(&with, &dest, None, None).0.unwrap().is_empty());
    assert!(build(&with, &Dest::Local, None, Some(7)).0.unwrap().is_empty());

    let without = DefaultWireBuilder::new(false, config(false, true, AddressBook::new()));
    assert!(build(&without, &dest, None, Some(7)).0.unwrap().is_empty());
}

#[test]
fn a_cancelled_build_is_an_error() {
    let mut map = AddressBook::new();
    map.insert(actor(1), "ws://localhost:9001".to_string());
    let factory = DefaultWireBuilder::new(true, config(true, true, map));
    let dest = Dest::actor(actor(1));
    for poll in 0..5 {
        let (result, closed) = build(&factory, &dest, Some(poll), Some(7));
        match result {
            Err(NetworkError::ConnectionClosed(m)) => {
                assert_eq!(m, "Connection creation cancelled");
            }
            other => panic!("unexpected {other:?}"),
        }
        assert_eq!(closed, if poll == 4 { vec![7] } else { vec![] });
    }
    assert_eq!(build(&factory, &dest, Some(5), Some(7)).0.unwrap().len(), 2);
}

#[test]
fn an_address_is_found_under_its_actor() {
    let mut book = AddressBook::new();
    book.insert(actor(1), "ws://one".to_string());
    book.insert(actor(2), "ws://two".to_string());
    book.insert(actor(1), "ws://other".to_string());
    assert_eq!(book.get(&actor(1)).as_deref(), Some("ws://other"));
    assert_eq!(book.get(&actor(2)).as_deref(), Some("ws://two"));
    assert_eq!(book.get(&actor(3)), None);
}

#[test]
fn a_builder_prefers_nothing_by_default() {
    let config = DefaultWireBuilderConfig::default();
    assert!(config.enable_webrtc);
    assert!(config.enable_websocket);
    assert!(config.local_id_hex.is_empty());
    assert!(!config.has_credential);
}
