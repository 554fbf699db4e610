use atlasserver::pubsub::in_memory::InMemoryPubSub;
use atlasserver::pubsub::resources::PubSubSubscriberResource;
use atlasserver::pubsub::resources::WsEvent;
use atlasserver::pubsub::resources::CLOSE_SHUTDOWN_CODE;
use atlasserver::pubsub::Msg;

#[test]
fn test_registry_overwrite() {
    // A second connection for the same user id replaces the first: a
    // message published afterwards reaches the second channel only.
    let mut registry = PubSubSubscriberResource::new();
    registry.register("u1", 1);
    registry.register("u1", 2);

    let delivery = registry.on_text("u1", "hello".to_string()).unwrap();
    assert_eq!(delivery.channel, 2);
    assert!(matches!(delivery.msg, Msg::Text(s) if s == "hello"));
    assert_eq!(registry.count_connections(), 1);
}

#[test]
fn test_delivery_drop_on_absence() {
    // Publishing to a topic with no registered connection neither errors
    // nor blocks: the message is silently dropped.
    let mut registry = PubSubSubscriberResource::new();
    registry.register("present", 7);

    assert!(registry.on_text("absent", "hello".to_string()).is_none());
    assert!(registry.on_binary("absent", vec![1, 2, 3]).is_none());
    assert_eq!(registry.count_connections(), 1);
}

#[test]
fn test_binary_delivery() {
    let mut registry = PubSubSubscriberResource::new();
    registry.register("u", 9);
    let delivery = registry.on_binary("u", vec![0, 255, 3]).unwrap();
    assert_eq!(delivery.channel, 9);
    assert!(matches!(delivery.msg, Msg::Binary(b) if b == vec![0, 255, 3]));
}

#[test]
fn test_count_connections() {
    let mut registry = PubSubSubscriberResource::new();
    assert_eq!(registry.count_connections(), 0);
    registry.register("a", 1);
    registry.register("b", 2);
    assert_eq!(registry.count_connections(), 2);
    registry.unregister("a");
    assert_eq!(registry.count_connections(), 1);
    registry.unregister("never-there");
    assert_eq!(registry.count_connections(), 1);
}

#[test]
fn test_frame_handling() {
    let registry = PubSubSubscriberResource::new();

    let ping = registry.on_frame(WsEvent::Ping);
    assert!(ping.refresh_presence);
    assert!(!ping.disconnect);
    assert_eq!(ping.close_code, None);
    assert!(ping.dispatch.is_none());

    let close = registry.on_frame(WsEvent::Close);
    assert!(close.disconnect);
    assert_eq!(close.close_code, None);

    let err = registry.on_frame(WsEvent::TransportError);
    assert!(err.disconnect);

    let text = registry.on_frame(WsEvent::Text("hi".to_string()));
    assert!(matches!(text.dispatch, Some(Msg::Text(s)) if s == "hi"));
    assert!(!text.disconnect);

    let binary = registry.on_frame(WsEvent::Binary(vec![4, 5]));
    assert!(matches!(binary.dispatch, Some(Msg::Binary(b)) if b == vec![4, 5]));
}

#[test]
fn test_frame_handling_after_shutdown() {
    // After shutdown is requested, the next inbound event of a live
    // connection sends the distinguishing close code and ends the loop.
    let mut registry = PubSubSubscriberResource::new();
    registry.register("u", 1);
    registry.shutdown();

    let ping = registry.on_frame(WsEvent::Ping);
    assert_eq!(ping.close_code, Some(CLOSE_SHUTDOWN_CODE));
    assert_eq!(ping.close_code, Some(4000));
    assert!(ping.disconnect);

    let text = registry.on_frame(WsEvent::Text("x".to_string()));
    assert!(text.disconnect);
    assert_eq!(text.close_code, Some(CLOSE_SHUTDOWN_CODE));
}

#[test]
fn test_connection_state_tracking() {
    let mut pubsub = InMemoryPubSub::new();
    assert!(!pubsub.is_connected("u"));
    pubsub.update_status("u", true);
    assert!(pubsub.is_connected("u"));
    pubsub.update_status("u", true);
    assert!(pubsub.is_connected("u"));
    pubsub.update_status("u", false);
    assert!(!pubsub.is_connected("u"));
}

#[test]
fn test_local_publish_fan_out() {
    // The local backbone hands a published message straight to the one
    // registered receiver.
    let pubsub = InMemoryPubSub::new();
    let mut registry = PubSubSubscriberResource::new();
    registry.register("u1", 3);

    let delivery = pubsub
        .publish_text(&registry, "u1", "hello".to_string())
        .unwrap();
    assert_eq!(delivery.channel, 3);
    assert!(matches!(delivery.msg, Msg::Text(s) if s == "hello"));

    assert!(pubsub
        .publish_binary(&registry, "u2", vec![1])
        .is_none());
}
