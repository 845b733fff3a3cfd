use tether_agent::InboundMessage;
use tether_agent::PlugOptionsBuilder;
use tether_agent::ReceiveOptions;
use tether_agent::TetherAgentOptionsBuilder;
use tether_agent::TetherOrCustomTopic;
use tether_agent::TIMEOUT_SECONDS;

fn message(topic: &str, payload: &[u8]) -> InboundMessage {
    InboundMessage { topic: topic.to_string(), payload: payload.to_vec() }
}

#[test]
fn broker_uri_defaults_to_local() {
    let agent = TetherAgentOptionsBuilder::new("robot").build();
    assert_eq!(agent.broker_uri(), "tcp://localhost:1883");
}

#[test]
fn broker_uri_follows_host_and_port() {
    let agent = TetherAgentOptionsBuilder::new("robot")
        .host("broker.example.com")
        .port(8883)
        .build();
    assert_eq!(agent.broker_uri(), "tcp://broker.example.com:8883");
}

#[test]
fn broker_uri_port_edges() {
    let agent = TetherAgentOptionsBuilder::new("robot").port(65535).build();
    assert_eq!(agent.broker_uri(), "tcp://localhost:65535");
    let agent = TetherAgentOptionsBuilder::new("robot").port(0).build();
    assert_eq!(agent.broker_uri(), "tcp://localhost:0");
    let agent = TetherAgentOptionsBuilder::new("robot").port(7).build();
    assert_eq!(agent.broker_uri(), "tcp://localhost:7");
}

#[test]
fn identity_defaults_and_setters() {
    let mut agent = TetherAgentOptionsBuilder::new("robot").build();
    assert_eq!(agent.description(), ("robot", "any"));
    agent.set_role("gateway");
    agent.set_id("main");
    assert_eq!(agent.description(), ("gateway", "main"));
}

#[test]
fn connection_state_is_observational() {
    let mut agent = TetherAgentOptionsBuilder::new("robot").build();
    assert!(!agent.is_connected());
    agent.set_connected(true);
    assert!(agent.is_connected());
    agent.set_connected(false);
    assert!(!agent.is_connected());
}

#[test]
fn connect_settings_defaults() {
    let options = TetherAgentOptionsBuilder::new("robot");
    let settings = options.connect_settings();
    assert_eq!(settings.username, "tether");
    assert_eq!(settings.password, "sp_ceB0ss!");
    assert_eq!(settings.connect_timeout_seconds, TIMEOUT_SECONDS);
    assert_eq!(settings.keep_alive_seconds, 10);
    assert!(settings.clean_session);
    assert!(options.should_auto_connect());
}

#[test]
fn connect_settings_overrides() {
    let options = TetherAgentOptionsBuilder::new("robot")
        .username("alice")
        .password("secret")
        .auto_connect(false);
    let settings = options.connect_settings();
    assert_eq!(settings.username, "alice");
    assert_eq!(settings.password, "secret");
    assert!(!options.should_auto_connect());
}

#[test]
fn check_messages_on_empty_queue_returns_nothing() {
    let mut agent = TetherAgentOptionsBuilder::new("robot").build();
    assert!(agent.check_messages().is_none());
}

#[test]
fn check_messages_drains_one_per_call() {
    // Three enqueued messages take exactly three calls to drain; the
    // fourth call finds the queue empty again.
    let mut agent = TetherAgentOptionsBuilder::new("robot").build();
    agent.enqueue_message(message("robot/arm1/status", b"a"));
    agent.enqueue_message(message("robot/arm1/status", b"b"));
    agent.enqueue_message(message("robot/arm1/status", b"c"));
    assert_eq!(agent.pending_count(), 3);

    let first = agent.check_messages().unwrap();
    assert_eq!(first.1.payload, b"a");
    assert_eq!(agent.pending_count(), 2);
    let second = agent.check_messages().unwrap();
    assert_eq!(second.1.payload, b"b");
    assert_eq!(agent.pending_count(), 1);
    let third = agent.check_messages().unwrap();
    assert_eq!(third.1.payload, b"c");
    assert_eq!(agent.pending_count(), 0);
    assert!(agent.check_messages().is_none());
}

#[test]
fn conforming_topics_are_classified_by_plug_name() {
    let mut agent = TetherAgentOptionsBuilder::new("robot").build();
    agent.enqueue_message(message("robot/arm1/status", b"payload"));
    let (classification, msg) = agent.check_messages().unwrap();
    match classification {
        TetherOrCustomTopic::Tether(t) => {
            assert_eq!(t.plug_name(), "status");
            assert_eq!(t.role(), "robot");
            assert_eq!(t.id(), "arm1");
        }
        TetherOrCustomTopic::Custom(_) => panic!("expected a conforming topic"),
    }
    assert_eq!(msg.topic, "robot/arm1/status");
    assert_eq!(msg.payload, b"payload");
}

#[test]
fn nonconforming_topics_still_deliver_their_payload() {
    let mut agent = TetherAgentOptionsBuilder::new("robot").build();
    agent.enqueue_message(message("weird-topic", b"still here"));
    let (classification, msg) = agent.check_messages().unwrap();
    assert_eq!(classification.plug_name_string(), "unknown");
    match classification {
        TetherOrCustomTopic::Custom(topic) => assert_eq!(topic, "weird-topic"),
        TetherOrCustomTopic::Tether(_) => panic!("weird-topic is not three segments"),
    }
    assert_eq!(msg.payload, b"still here");
}

#[test]
fn drain_all_empties_in_order() {
    let mut agent = TetherAgentOptionsBuilder::new("robot").build();
    agent.enqueue_message(message("robot/arm1/status", b"1"));
    agent.enqueue_message(message("weird-topic", b"2"));
    agent.enqueue_message(message("robot/arm1/position", b"3"));
    let drained = agent.drain_all();
    assert_eq!(drained.len(), 3);
    assert_eq!(drained[0].1.payload, b"1");
    assert_eq!(drained[1].1.payload, b"2");
    assert_eq!(drained[2].1.payload, b"3");
    assert_eq!(agent.pending_count(), 0);
}

#[test]
fn publish_carries_the_plug_settings() {
    let agent = TetherAgentOptionsBuilder::new("robot").id("arm1").build();
    let def = PlugOptionsBuilder::create_output("status").qos(2).retain(true).build(&agent);
    let message = agent.publish(&def, Some(b"hello"));
    assert_eq!(message.topic, "robot/arm1/status");
    assert_eq!(message.payload, b"hello");
    assert_eq!(message.qos, 2);
    assert!(message.retained);
}

#[test]
fn publish_without_payload_sends_empty_bytes() {
    let agent = TetherAgentOptionsBuilder::new("robot").id("arm1").build();
    let def = PlugOptionsBuilder::create_output("status").build(&agent);
    let message = agent.publish(&def, None);
    assert!(message.payload.is_empty());
    assert_eq!(message.qos, 1);
    assert!(!message.retained);
}

#[test]
fn publish_raw_bypasses_plug_definitions() {
    let agent = TetherAgentOptionsBuilder::new("robot").build();
    let message = agent.publish_raw("anything/at all", b"raw", None, None);
    assert_eq!(message.topic, "anything/at all");
    assert_eq!(message.payload, b"raw");
    assert_eq!(message.qos, 1);
    assert!(!message.retained);

    let message = agent.publish_raw("t", b"", Some(0), Some(true));
    assert_eq!(message.qos, 0);
    assert!(message.retained);
}

#[test]
fn receive_selection_modes() {
    // No fragments, no custom topic: subscribe to everything.
    let options = ReceiveOptions {
        subscribe_topic: None,
        subscribe_role: None,
        subscribe_id: None,
        subscribe_plug: None,
    };
    assert_eq!(options.subscription_topic(), "#");

    // A custom topic applies when no fragment is given.
    let options = ReceiveOptions {
        subscribe_topic: Some("custom/topic/here".to_string()),
        subscribe_role: None,
        subscribe_id: None,
        subscribe_plug: None,
    };
    assert_eq!(options.subscription_topic(), "custom/topic/here");

    // Any fragment switches to fragment mode and wins over the custom topic;
    // missing fragments stand in as the wildcard.
    let options = ReceiveOptions {
        subscribe_topic: Some("ignored".to_string()),
        subscribe_role: Some("robot".to_string()),
        subscribe_id: None,
        subscribe_plug: Some("status".to_string()),
    };
    assert_eq!(options.subscription_topic(), "robot/+/status");
}
