use atlasserver::pubsub::relay::channel_for_topic;
use atlasserver::pubsub::relay::decode_msg;
use atlasserver::pubsub::relay::encode_msg;
use atlasserver::pubsub::relay::presence_key;
use atlasserver::pubsub::relay::relay_status_action;
use atlasserver::pubsub::relay::topic_from_channel;
use atlasserver::pubsub::relay::RelayStateAction;
use atlasserver::pubsub::relay::CONNECTION_STATE_TTL_SECONDS;
use atlasserver::pubsub::relay::RELAY_RETRY_SECONDS;
use atlasserver::pubsub::Msg;

#[test]
fn test_length() {
    let payload: Vec<u8> = vec![1; 1_000_000];

    let msg = Msg::Binary(payload.clone());
    let buffer = encode_msg(&msg);

    let msg2 = decode_msg(&buffer).unwrap();

    if let Msg::Binary(payload2) = &msg2 {
        assert_eq!(payload2, &payload);
    } else {
        panic!("wrong msg");
    }
}

#[test]
fn test_text_round_trip() {
    // A text message published through the relay arrives byte-identical.
    let msg = Msg::Text("hello".to_string());
    let wire = encode_msg(&msg);
    match decode_msg(&wire) {
        Some(Msg::Text(s)) => assert_eq!(s, "hello"),
        _ => panic!("wrong msg"),
    }

    let unicode = Msg::Text("grüße, 世界".to_string());
    let wire = encode_msg(&unicode);
    match decode_msg(&wire) {
        Some(Msg::Text(s)) => assert_eq!(s, "grüße, 世界"),
        _ => panic!("wrong msg"),
    }
}

#[test]
fn test_wire_format() {
    // Tag byte, varint length, payload.
    assert_eq!(encode_msg(&Msg::Text("hi".to_string())), vec![0, 2, 104, 105]);
    assert_eq!(encode_msg(&Msg::Binary(vec![9, 8, 7])), vec![1, 3, 9, 8, 7]);

    // A length needing several varint bytes: 300 = 44 + 2 * 128.
    let long = Msg::Binary(vec![5; 300]);
    let wire = encode_msg(&long);
    assert_eq!(wire[0], 1);
    assert_eq!(wire[1], 44 + 128);
    assert_eq!(wire[2], 2);
    assert_eq!(wire.len(), 3 + 300);
}

#[test]
fn test_decode_rejects_garbage() {
    assert!(decode_msg(&[]).is_none());
    // Unknown tag.
    assert!(decode_msg(&[7, 1, 0]).is_none());
    // Length does not match the remaining bytes.
    assert!(decode_msg(&[1, 5, 1, 2]).is_none());
    // Truncated varint.
    assert!(decode_msg(&[1, 200]).is_none());
    // Text payload that is not UTF-8.
    assert!(decode_msg(&[0, 1, 0xFF]).is_none());
    // The same payload as binary is fine.
    assert!(decode_msg(&[1, 1, 0xFF]).is_some());
}

#[test]
fn test_channel_framing() {
    let channel = channel_for_topic("user-1");
    assert_eq!(channel, "atlas/user-1");
    assert_eq!(topic_from_channel(&channel), Some("user-1".to_string()));
    assert_eq!(topic_from_channel("other/user-1"), None);
    assert_eq!(topic_from_channel("atlas"), None);
    assert_eq!(topic_from_channel("atlas/"), Some(String::new()));
}

#[test]
fn test_presence_marking() {
    assert_eq!(presence_key("uid"), "atlas/connected/uid");

    match relay_status_action("uid", true) {
        RelayStateAction::SetExpiring { key, ttl_seconds } => {
            assert_eq!(key, "atlas/connected/uid");
            assert_eq!(ttl_seconds, CONNECTION_STATE_TTL_SECONDS);
            assert_eq!(ttl_seconds, 10);
        }
        RelayStateAction::Remove { .. } => panic!("expected a presence write"),
    }

    match relay_status_action("uid", false) {
        RelayStateAction::Remove { key } => assert_eq!(key, "atlas/connected/uid"),
        RelayStateAction::SetExpiring { .. } => panic!("expected a presence delete"),
    }

    assert_eq!(RELAY_RETRY_SECONDS, 2);
}
