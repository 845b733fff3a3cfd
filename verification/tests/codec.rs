use rmpv::Value;
use tether_agent::decode;
use tether_agent::describe_payload;
use tether_agent::encode;
use tether_agent::value_to_json;
use tether_agent::PlugOptionsBuilder;
use tether_agent::TetherAgentOptionsBuilder;
use tether_agent::TetherError;

fn sample_value() -> Value {
    Value::Map(vec![
        (Value::String("name".into()), Value::String("arm1".into())),
        (Value::String("count".into()), Value::from(42)),
        (Value::String("ok".into()), Value::Boolean(true)),
        (
            Value::String("readings".into()),
            Value::Array(vec![Value::from(1), Value::from(2), Value::from(3)]),
        ),
    ])
}

#[test]
fn encode_then_decode_round_trips() {
    let value = sample_value();
    let bytes = encode(&value).expect("a plain map must encode");
    let back = decode(&bytes).expect("encoded bytes must decode");
    assert_eq!(back, value);
}

#[test]
fn scalar_values_round_trip() {
    for value in [
        Value::Nil,
        Value::Boolean(false),
        Value::from(-7),
        Value::String("just text".into()),
    ] {
        let bytes = encode(&value).unwrap();
        assert_eq!(decode(&bytes).unwrap(), value);
    }
}

#[test]
fn decode_rejects_garbage() {
    // 0xc1 is the one byte the binary map format never uses.
    assert_eq!(decode(&[0xc1]).unwrap_err(), TetherError::EncodingFailed);
}

#[test]
fn describe_payload_renders_json() {
    let bytes = encode(&sample_value()).unwrap();
    let text = describe_payload(&bytes).expect("a decodable payload has a rendering");
    assert!(text.contains("\"name\""));
    assert!(text.contains("\"arm1\""));
    assert!(text.contains("42"));
}

#[test]
fn describe_payload_of_empty_is_nothing() {
    assert_eq!(describe_payload(&[]), None);
}

#[test]
fn describe_payload_of_undecodable_is_nothing() {
    assert_eq!(describe_payload(&[0xc1, 0xff]), None);
}

#[test]
fn value_to_json_renders_plain_values() {
    assert_eq!(value_to_json(&Value::from(5)), Some("5".to_string()));
    assert_eq!(
        value_to_json(&Value::String("hi".into())),
        Some("\"hi\"".to_string())
    );
}

#[test]
fn encode_and_publish_carries_the_encoded_payload() {
    let agent = TetherAgentOptionsBuilder::new("robot").id("arm1").build();
    let def = PlugOptionsBuilder::create_output("status").build(&agent);
    let value = sample_value();
    let message = agent.encode_and_publish(&def, &value).expect("a plain map must encode");
    assert_eq!(message.topic, "robot/arm1/status");
    assert_eq!(message.qos, 1);
    assert!(!message.retained);
    assert_eq!(decode(&message.payload).unwrap(), value);
}
