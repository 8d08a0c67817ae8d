use zplugin_mqtt::adapter::{
    control_v3, control_v5, handshake_v3, handshake_v5, publish_v3, publish_v5, ControlEvent,
    DisconnectReasonCode, MqttPluginError, PublishAck, QoS, SinkOp, SubscribeRequest, V3Reply,
    V5Reply, ConnState,
};
use zplugin_mqtt::config::Config;
use zplugin_mqtt::encoding::EncodingTag;
use zplugin_mqtt::session::{
    route_zenoh_to_mqtt, MqttSessionState, PublishAction, SubscribeAction,
};
use zplugin_mqtt::BridgeError;

fn config_with(scope: Option<&[u8]>, allow: Vec<&[u8]>, deny: Vec<&[u8]>) -> Config {
    Config {
        port: 1883,
        scope: scope.map(|s| s.to_vec()),
        allow: allow.into_iter().map(|p| p.to_vec()).collect(),
        deny: deny.into_iter().map(|p| p.to_vec()).collect(),
        generalise_subs: Vec::new(),
        generalise_pubs: Vec::new(),
    }
}

fn subscribe_once(session: &mut MqttSessionState, topic: &[u8], sub_id: u64) -> bool {
    match session.map_mqtt_subscription(&topic.to_vec()) {
        SubscribeAction::Register { key: _ } => {
            session.record_subscription(topic.to_vec(), sub_id);
            true
        }
        SubscribeAction::NoEffect => false,
    }
}

#[test]
fn scenario_subscribe_and_deliver_without_scope() {
    // scope=none, allow-all: subscribe to "a/b"; an inbound sample on key
    // "a/b" is delivered as an MQTT publish on topic "a/b".
    let config = config_with(None, vec![], vec![]);
    let mut session = MqttSessionState::new(b"client-a".to_vec(), config);
    match session.map_mqtt_subscription(&b"a/b".to_vec()) {
        SubscribeAction::Register { key } => {
            assert_eq!(key, b"a/b".to_vec());
            session.record_subscription(b"a/b".to_vec(), 7);
        }
        SubscribeAction::NoEffect => panic!("expected a registration"),
    }
    let config = config_with(None, vec![], vec![]);
    let m = route_zenoh_to_mqtt(&b"a/b".to_vec(), &b"payload".to_vec(), &config).unwrap();
    assert_eq!(m.topic, b"a/b".to_vec());
    assert_eq!(m.payload, b"payload".to_vec());
}

#[test]
fn scenario_publish_with_scope() {
    // scope="home": a publish on MQTT topic "a/b" reaches the network on
    // key "home/a/b".
    let config = config_with(Some(b"home"), vec![], vec![]);
    let session = MqttSessionState::new(b"client-b".to_vec(), config);
    let r = session
        .route_mqtt_to_zenoh(&b"a/b".to_vec(), &b"hi".to_vec())
        .unwrap();
    match r {
        PublishAction::Put { key, payload, encoding } => {
            assert_eq!(key, b"home/a/b".to_vec());
            assert_eq!(payload, b"hi".to_vec());
            assert_eq!(encoding, EncodingTag::TextPlain);
        }
        PublishAction::NoEffect => panic!("expected a network publish"),
    }
}

#[test]
fn scenario_wildcard_subscription_delivery() {
    // scope=none: subscribing to "sensors/+/temp" registers the key
    // expression "sensors/*/temp"; a sample on "sensors/3/temp" is
    // delivered on MQTT topic "sensors/3/temp".
    let config = config_with(None, vec![], vec![]);
    let mut session = MqttSessionState::new(b"client-c".to_vec(), config);
    match session.map_mqtt_subscription(&b"sensors/+/temp".to_vec()) {
        SubscribeAction::Register { key } => {
            assert_eq!(key, b"sensors/*/temp".to_vec());
            session.record_subscription(b"sensors/+/temp".to_vec(), 1);
        }
        SubscribeAction::NoEffect => panic!("expected a registration"),
    }
    let config = config_with(None, vec![], vec![]);
    let m = route_zenoh_to_mqtt(&b"sensors/3/temp".to_vec(), &b"21".to_vec(), &config).unwrap();
    assert_eq!(m.topic, b"sensors/3/temp".to_vec());
}

#[test]
fn scenario_v5_auth_is_rejected() {
    // A v5 Auth control event is answered with a disconnect carrying the
    // implementation-specific-error reason, and the connection closes.
    let config = config_with(None, vec![], vec![]);
    let mut c = handshake_v5(b"client-d".to_vec(), config);
    assert_eq!(c.state, ConnState::Connected);
    let outcome = control_v5(&mut c, &ControlEvent::Auth);
    assert_eq!(
        outcome.reply,
        V5Reply::DisconnectWith(DisconnectReasonCode::ImplementationSpecificError)
    );
    assert_eq!(c.state, ConnState::Closed);
}

#[test]
fn scenario_denied_subscription_is_acknowledged_but_dead() {
    // "secret/#" is denied: a subscribe to "secret/data" is acknowledged,
    // but no subscription is created and no sample can ever be delivered.
    let config = config_with(None, vec![], vec![b"secret/#"]);
    let mut c = handshake_v3(b"client-e".to_vec(), config);
    let event = ControlEvent::Subscribe(vec![SubscribeRequest {
        topic: b"secret/data".to_vec(),
        qos: QoS::AtMostOnce,
    }]);
    let outcome = control_v3(&mut c, &event);
    assert_eq!(outcome.reply, V3Reply::Ack);
    assert_eq!(outcome.granted, vec![QoS::AtMostOnce]);
    assert!(outcome.registrations.is_empty());
    assert!(c.session.subs.is_empty());
}

#[test]
fn subscribe_twice_keeps_one_subscription() {
    let config = config_with(None, vec![], vec![]);
    let mut session = MqttSessionState::new(b"client-f".to_vec(), config);
    assert!(subscribe_once(&mut session, b"a/b", 1));
    assert!(!subscribe_once(&mut session, b"a/b", 2));
    assert_eq!(session.subs.len(), 1);
    assert_eq!(session.subs[0].topic, b"a/b".to_vec());
    assert_eq!(session.subs[0].sub_id, 1);
}

#[test]
fn untranslatable_subscription_is_silent() {
    let config = config_with(None, vec![], vec![]);
    let mut session = MqttSessionState::new(b"client-g".to_vec(), config);
    assert!(!subscribe_once(&mut session, b"a//b", 1));
    assert!(session.subs.is_empty());
}

#[test]
fn denied_publish_has_no_effect() {
    let config = config_with(None, vec![], vec![b"secret/#"]);
    let session = MqttSessionState::new(b"client-h".to_vec(), config);
    let r = session
        .route_mqtt_to_zenoh(&b"secret/data".to_vec(), &b"x".to_vec())
        .unwrap();
    assert!(matches!(r, PublishAction::NoEffect));
}

#[test]
fn untranslatable_publish_is_invalid_topic() {
    let config = config_with(None, vec![], vec![]);
    let session = MqttSessionState::new(b"client-i".to_vec(), config);
    let r = session.route_mqtt_to_zenoh(&b"a//b".to_vec(), &b"x".to_vec());
    assert_eq!(r.unwrap_err(), BridgeError::InvalidTopic);
}

#[test]
fn sample_with_foreign_scope_is_dropped() {
    let config = config_with(Some(b"home"), vec![], vec![]);
    let r = route_zenoh_to_mqtt(&b"other/a".to_vec(), &b"x".to_vec(), &config);
    assert_eq!(r.unwrap_err(), BridgeError::InvalidTopic);
}

#[test]
fn publish_v3_surfaces_translation_failure() {
    let config = config_with(None, vec![], vec![]);
    let c = handshake_v3(b"client-j".to_vec(), config);
    let r = publish_v3(&c, &b"a//b".to_vec(), &b"x".to_vec());
    assert_eq!(r.unwrap_err().err, BridgeError::InvalidTopic);
}

#[test]
fn publish_v5_acknowledges_success() {
    let config = config_with(None, vec![], vec![]);
    let c = handshake_v5(b"client-k".to_vec(), config);
    let (action, ack) = publish_v5(&c, &b"a/b".to_vec(), &b"x".to_vec()).unwrap();
    assert!(matches!(action, PublishAction::Put { .. }));
    assert_eq!(ack, PublishAck {});
}

#[test]
fn negative_ack_conversion_always_refuses() {
    let e = MqttPluginError { err: BridgeError::PubSubError };
    assert_eq!(PublishAck::try_from(e), Err(e));
    let e = MqttPluginError { err: BridgeError::InvalidTopic };
    assert_eq!(PublishAck::try_from(e), Err(e));
}

#[test]
fn subscribe_grants_at_most_once_regardless_of_request() {
    let config = config_with(None, vec![], vec![]);
    let mut c = handshake_v3(b"client-l".to_vec(), config);
    let event = ControlEvent::Subscribe(vec![
        SubscribeRequest { topic: b"a/b".to_vec(), qos: QoS::ExactlyOnce },
        SubscribeRequest { topic: b"c/d".to_vec(), qos: QoS::AtLeastOnce },
    ]);
    let outcome = control_v3(&mut c, &event);
    assert_eq!(outcome.granted, vec![QoS::AtMostOnce, QoS::AtMostOnce]);
    assert_eq!(outcome.registrations.len(), 2);
    assert_eq!(outcome.registrations[0].topic, b"a/b".to_vec());
    assert_eq!(outcome.registrations[0].key, b"a/b".to_vec());
}

#[test]
fn duplicate_topics_in_one_batch_register_once() {
    let config = config_with(None, vec![], vec![]);
    let mut c = handshake_v3(b"client-m".to_vec(), config);
    let event = ControlEvent::Subscribe(vec![
        SubscribeRequest { topic: b"a/b".to_vec(), qos: QoS::AtMostOnce },
        SubscribeRequest { topic: b"a/b".to_vec(), qos: QoS::AtMostOnce },
    ]);
    let outcome = control_v3(&mut c, &event);
    assert_eq!(outcome.granted.len(), 2);
    assert_eq!(outcome.registrations.len(), 1);
}

#[test]
fn unsubscribe_acknowledges_but_removes_nothing() {
    let config = config_with(None, vec![], vec![]);
    let mut c = handshake_v3(b"client-n".to_vec(), config);
    assert!(subscribe_once(&mut c.session, b"a/b", 1));
    let outcome = control_v3(&mut c, &ControlEvent::Unsubscribe(vec![b"a/b".to_vec()]));
    assert_eq!(outcome.reply, V3Reply::Ack);
    // Known quirk, kept deliberately: the table entry stays and delivery
    // continues after an unsubscribe.
    assert_eq!(c.session.subs.len(), 1);
}

#[test]
fn control_v3_lifecycle_arms() {
    let mut c = handshake_v3(b"p".to_vec(), config_with(None, vec![], vec![]));
    let o = control_v3(&mut c, &ControlEvent::Ping);
    assert_eq!((o.reply, o.sink), (V3Reply::Ack, SinkOp::KeepOpen));
    assert_eq!(c.state, ConnState::Connected);

    let o = control_v3(&mut c, &ControlEvent::Disconnect);
    assert_eq!((o.reply, o.sink), (V3Reply::Ack, SinkOp::Close));
    assert_eq!(c.state, ConnState::Closed);

    let mut c = handshake_v3(b"q".to_vec(), config_with(None, vec![], vec![]));
    let o = control_v3(&mut c, &ControlEvent::Closed);
    assert_eq!((o.reply, o.sink), (V3Reply::Ack, SinkOp::ForceClose));
    assert_eq!(c.state, ConnState::Closed);

    let mut c = handshake_v3(b"r".to_vec(), config_with(None, vec![], vec![]));
    let o = control_v3(
        &mut c,
        &ControlEvent::Error(MqttPluginError { err: BridgeError::PubSubError }),
    );
    assert_eq!((o.reply, o.sink), (V3Reply::Ack, SinkOp::KeepOpen));
    assert_eq!(c.state, ConnState::Connected);

    let o = control_v3(&mut c, &ControlEvent::ProtocolError);
    assert_eq!((o.reply, o.sink), (V3Reply::Disconnect, SinkOp::KeepOpen));
    assert_eq!(c.state, ConnState::Closed);
}

#[test]
fn control_v5_lifecycle_arms() {
    let mut c = handshake_v5(b"s".to_vec(), config_with(None, vec![], vec![]));
    let o = control_v5(&mut c, &ControlEvent::Ping);
    assert_eq!((o.reply, o.sink), (V5Reply::Ack, SinkOp::KeepOpen));

    let o = control_v5(
        &mut c,
        &ControlEvent::Error(MqttPluginError { err: BridgeError::PubSubError }),
    );
    assert_eq!(
        (o.reply, o.sink),
        (V5Reply::AckWithReason(DisconnectReasonCode::UnspecifiedError), SinkOp::KeepOpen)
    );
    assert_eq!(c.state, ConnState::Connected);

    let o = control_v5(&mut c, &ControlEvent::ProtocolError);
    assert_eq!(
        (o.reply, o.sink),
        (V5Reply::AckWithReason(DisconnectReasonCode::ProtocolError), SinkOp::Close)
    );
    assert_eq!(c.state, ConnState::Closed);

    let mut c = handshake_v5(b"t".to_vec(), config_with(None, vec![], vec![]));
    let o = control_v5(&mut c, &ControlEvent::Disconnect);
    assert_eq!((o.reply, o.sink), (V5Reply::Ack, SinkOp::Close));
    assert_eq!(c.state, ConnState::Closed);
}
