use tether_agent::PlugDefinition;
use tether_agent::PlugOptionsBuilder;
use tether_agent::TetherAgentOptionsBuilder;

#[test]
fn output_plug_defaults() {
    // An agent with role "robot" and id "arm1"; an output plug named
    // "status" with no overrides resolves to the agent's own topic,
    // qos 1, retain off.
    let agent = TetherAgentOptionsBuilder::new("robot").id("arm1").build();
    let def = PlugOptionsBuilder::create_output("status").build(&agent);
    assert_eq!(def.topic(), "robot/arm1/status");
    assert_eq!(def.name(), "status");
    assert_eq!(def.qos(), 1);
    assert!(matches!(&def, PlugDefinition::OutputPlugDefinition(plug) if !plug.retain()));
}

#[test]
fn input_plug_defaults() {
    let agent = TetherAgentOptionsBuilder::new("robot").id("arm1").build();
    let def = PlugOptionsBuilder::create_input("status").build(&agent);
    assert_eq!(def.topic(), "+/+/status");
    assert_eq!(def.qos(), 1);
    assert!(matches!(def, PlugDefinition::InputPlugDefinition(_)));
}

#[test]
fn topic_override_wins_in_either_order() {
    let agent = TetherAgentOptionsBuilder::new("robot").id("arm1").build();

    let topic_then_role = PlugOptionsBuilder::create_output("status")
        .topic("custom/override/topic")
        .role(Some("ignored"))
        .build(&agent);
    assert_eq!(topic_then_role.topic(), "custom/override/topic");

    let role_then_topic = PlugOptionsBuilder::create_output("status")
        .role(Some("ignored"))
        .topic("custom/override/topic")
        .build(&agent);
    assert_eq!(role_then_topic.topic(), "custom/override/topic");
}

#[test]
fn role_and_id_overrides_combine_with_defaults() {
    let agent = TetherAgentOptionsBuilder::new("robot").id("arm1").build();

    let input = PlugOptionsBuilder::create_input("status")
        .role(Some("gateway"))
        .build(&agent);
    assert_eq!(input.topic(), "gateway/+/status");

    let input = PlugOptionsBuilder::create_input("status")
        .id(Some("main"))
        .build(&agent);
    assert_eq!(input.topic(), "+/main/status");

    let output = PlugOptionsBuilder::create_output("status")
        .role(Some("gateway"))
        .id(Some("main"))
        .build(&agent);
    assert_eq!(output.topic(), "gateway/main/status");
}

#[test]
fn clearing_an_override_restores_the_default() {
    let agent = TetherAgentOptionsBuilder::new("robot").id("arm1").build();
    let def = PlugOptionsBuilder::create_input("status")
        .role(Some("gateway"))
        .role(None)
        .build(&agent);
    assert_eq!(def.topic(), "+/+/status");
}

#[test]
fn qos_override_is_kept() {
    let agent = TetherAgentOptionsBuilder::new("robot").id("arm1").build();
    let def = PlugOptionsBuilder::create_output("status").qos(2).build(&agent);
    assert_eq!(def.qos(), 2);
    let def = PlugOptionsBuilder::create_input("status").qos(0).build(&agent);
    assert_eq!(def.qos(), 0);
}

#[test]
fn retain_choice_is_kept_on_outputs() {
    let agent = TetherAgentOptionsBuilder::new("robot").id("arm1").build();
    let def = PlugOptionsBuilder::create_output("status").retain(true).build(&agent);
    assert!(matches!(&def, PlugDefinition::OutputPlugDefinition(plug) if plug.retain()));
}

#[test]
fn custom_topic_passes_through_unvalidated() {
    // A custom override bypasses convention validation entirely: a raw
    // wildcard is legitimate.
    let agent = TetherAgentOptionsBuilder::new("robot").id("arm1").build();
    let def = PlugOptionsBuilder::create_input("everything").topic("#").build(&agent);
    assert_eq!(def.topic(), "#");
}

#[test]
fn definition_accessors_expose_the_common_part() {
    let agent = TetherAgentOptionsBuilder::new("robot").id("arm1").build();
    let mut def = PlugOptionsBuilder::create_output("status").build(&agent);
    assert_eq!(def.common().name, "status");
    assert_eq!(def.common().topic, "robot/arm1/status");
    assert_eq!(def.common().qos, 1);
    def.common_mut().qos = 2;
    assert_eq!(def.common().qos, 2);
    assert_eq!(def.name(), "status");
    assert_eq!(def.topic(), "robot/arm1/status");
}
