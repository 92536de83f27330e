use katana_native::codec::decode;
use katana_native::error::BridgeError;
use katana_native::midi::{
    endpoints_from_names, outgoing_bytes, relay_payload, resolve_port, BossMidiEndpoint,
    ConnectionSlot,
};

fn endpoint(name: &str) -> BossMidiEndpoint {
    BossMidiEndpoint { midi_entity_name_key: name.to_string() }
}

fn names(list: &[Option<&str>]) -> Vec<Option<String>> {
    list.iter().map(|n| n.map(|s| s.to_string())).collect()
}

#[test]
fn endpoints_keep_driver_order_and_name_unknown_ports() {
    let eps = endpoints_from_names(&names(&[Some("Synth A"), None, Some("Synth A")]));
    assert_eq!(eps, vec![endpoint("Synth A"), endpoint("Unknown"), endpoint("Synth A")]);
}

#[test]
fn endpoints_of_no_ports_is_empty() {
    assert!(endpoints_from_names(&Vec::new()).is_empty());
}

#[test]
fn resolve_takes_first_port_of_that_name() {
    let ports = names(&[Some("Other"), Some("Synth A"), Some("Synth A")]);
    assert_eq!(resolve_port(&ports, &endpoint("Synth A")).unwrap(), 1);
}

#[test]
fn resolve_unknown_name_is_port_not_found() {
    let ports = names(&[Some("Synth A")]);
    match resolve_port(&ports, &endpoint("Nonexistent Device")) {
        Err(e @ BridgeError::PortNotFound(_)) => {
            assert_eq!(e.message(), "Port 'Nonexistent Device' not found")
        }
        other => panic!("unexpected {:?}", other),
    }
}

#[test]
fn resolve_port_without_name_matches_only_empty_name() {
    let ports = names(&[None, Some("Synth A")]);
    assert_eq!(resolve_port(&ports, &endpoint("")).unwrap(), 0);
    assert_eq!(resolve_port(&ports, &endpoint("Unknown")).is_err(), true);
}

#[test]
fn second_connect_replaces_first_and_hands_it_back() {
    let mut slot: ConnectionSlot<&str> = ConnectionSlot::new();
    assert!(!slot.is_connected());
    assert_eq!(slot.connect(Ok("E1")).unwrap(), None);
    assert_eq!(slot.connect(Ok("E2")).unwrap(), Some("E1"));
    assert_eq!(slot.handle, Some("E2"));
    assert!(slot.is_connected());
}

#[test]
fn not_found_leaves_input_connection_untouched() {
    let mut slot: ConnectionSlot<&str> = ConnectionSlot::new();
    slot.connect(Ok("Synth A")).unwrap();
    let ports = names(&[Some("Synth A")]);
    let opened = resolve_port(&ports, &endpoint("Nonexistent Device")).map(|_| "other");
    assert!(matches!(slot.connect(opened), Err(BridgeError::PortNotFound(_))));
    assert_eq!(slot.handle, Some("Synth A"));
}

#[test]
fn failed_open_leaves_slot_untouched() {
    let mut slot: ConnectionSlot<u32> = ConnectionSlot::new();
    let r = slot.connect(Err(BridgeError::ConnectError("busy".to_string())));
    match r {
        Err(BridgeError::ConnectError(m)) => assert_eq!(m, "busy"),
        other => panic!("unexpected {:?}", other),
    }
    assert_eq!(slot.handle, None);
}

#[test]
fn send_without_connection_writes_nothing() {
    assert_eq!(outgoing_bytes("903C7F", false).unwrap(), None);
}

#[test]
fn send_bad_hex_fails_even_when_unconnected() {
    assert!(matches!(outgoing_bytes("9", false), Err(BridgeError::InvalidEncoding(_))));
    assert!(matches!(outgoing_bytes("GG", true), Err(BridgeError::InvalidEncoding(_))));
}

#[test]
fn enumerate_connect_and_send_three_bytes() {
    let eps = endpoints_from_names(&names(&[Some("Other"), Some("Synth A")]));
    assert!(eps.contains(&endpoint("Synth A")));
    let ports = names(&[Some("Other"), Some("Synth A")]);
    let index = resolve_port(&ports, &endpoint("Synth A")).unwrap();
    let mut slot: ConnectionSlot<usize> = ConnectionSlot::new();
    slot.connect(Ok(index)).unwrap();
    assert_eq!(slot.handle, Some(1));
    let bytes = outgoing_bytes("903C7F", slot.is_connected()).unwrap();
    assert_eq!(bytes, Some(vec![0x90, 0x3c, 0x7f]));
}

#[test]
fn inbound_message_is_relayed_as_upper_hex_with_stamp() {
    let ports = names(&[Some("Synth A")]);
    assert_eq!(resolve_port(&ports, &endpoint("Synth A")).unwrap(), 0);
    let (text, stamp) = relay_payload(&[0xb0, 0x07, 0x64], 12345);
    assert_eq!(text, "B00764");
    assert_eq!(stamp, 12345);
    assert_eq!(decode(&text).unwrap(), vec![0xb0, 0x07, 0x64]);
}
