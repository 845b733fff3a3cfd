//! Fluent, variant-aware construction of plug definitions.
//!
//! A builder gathers a plug name and optional overrides, then `build` resolves
//! them — a full topic override wins outright over role/id overrides, in
//! whatever order they were configured — and finalizes an immutable
//! `PlugDefinition`.

use vstd::prelude::*;

use crate::agent::TetherAgent;
use crate::definitions::InputPlugDefinition;
use crate::definitions::OutputPlugDefinition;
use crate::definitions::PlugDefinition;
use crate::definitions::PlugDefinitionCommon;
use crate::topics::ThreePartTopic;

verus! {

/// The ghost image of a plug builder: which variant it is and each choice as
/// configured so far, `None` where a default still applies.
pub ghost struct PlugOptionsView {
    pub is_input: bool,
    pub plug_name: Seq<char>,
    pub qos: Option<i32>,
    pub role_override: Option<Seq<char>>,
    pub id_override: Option<Seq<char>>,
    pub topic_override: Option<Seq<char>>,
    pub retain: Option<bool>,
}

/// Choices gathered for a receive-direction plug.
pub struct InputPlugOptions {
    plug_name: String,
    qos: Option<i32>,
    override_subscribe_role: Option<String>,
    override_subscribe_id: Option<String>,
    override_topic: Option<String>,
}

/// Choices gathered for a send-direction plug.
pub struct OutputPlugOptions {
    plug_name: String,
    qos: Option<i32>,
    override_publish_role: Option<String>,
    override_publish_id: Option<String>,
    override_topic: Option<String>,
    retain: Option<bool>,
}

/// A plug definition in the making. Configure it by the chaining methods, then
/// call `build` once to finalize; the builder is consumed.
pub enum PlugOptionsBuilder {
    InputPlugOptions(InputPlugOptions),
    OutputPlugOptions(OutputPlugOptions),
}

impl View for PlugOptionsBuilder {
    type V = PlugOptionsView;

    closed spec fn view(&self) -> PlugOptionsView {
        match self {
            PlugOptionsBuilder::InputPlugOptions(options) => PlugOptionsView {
                is_input: true,
                plug_name: options.plug_name@,
                qos: options.qos,
                role_override: match options.override_subscribe_role {
                    Some(role) => Some(role@),
                    None => None,
                },
                id_override: match options.override_subscribe_id {
                    Some(id) => Some(id@),
                    None => None,
                },
                topic_override: match options.override_topic {
                    Some(topic) => Some(topic@),
                    None => None,
                },
                retain: None,
            },
            PlugOptionsBuilder::OutputPlugOptions(options) => PlugOptionsView {
                is_input: false,
                plug_name: options.plug_name@,
                qos: options.qos,
                role_override: match options.override_publish_role {
                    Some(role) => Some(role@),
                    None => None,
                },
                id_override: match options.override_publish_id {
                    Some(id) => Some(id@),
                    None => None,
                },
                topic_override: match options.override_topic {
                    Some(topic) => Some(topic@),
                    None => None,
                },
                retain: options.retain,
            },
        }
    }
}

/// The builder after a qos choice.
pub open spec fn with_qos(v: PlugOptionsView, qos: i32) -> PlugOptionsView {
    PlugOptionsView { qos: Some(qos), ..v }
}

/// The builder after a role-override choice: ignored when a full topic
/// override is already present, since that override would win anyway.
pub open spec fn with_role(v: PlugOptionsView, role: Option<Seq<char>>) -> PlugOptionsView {
    if v.topic_override is Some {
        v
    } else {
        PlugOptionsView { role_override: role, ..v }
    }
}

/// The builder after an id-override choice: ignored when a full topic override
/// is already present, since that override would win anyway.
pub open spec fn with_id(v: PlugOptionsView, id: Option<Seq<char>>) -> PlugOptionsView {
    if v.topic_override is Some {
        v
    } else {
        PlugOptionsView { id_override: id, ..v }
    }
}

/// The builder after a full topic override.
pub open spec fn with_topic(v: PlugOptionsView, topic: Seq<char>) -> PlugOptionsView {
    PlugOptionsView { topic_override: Some(topic), ..v }
}

/// The builder after a retain choice (output plugs only).
pub open spec fn with_retain(v: PlugOptionsView, retain: bool) -> PlugOptionsView {
    PlugOptionsView { retain: Some(retain), ..v }
}

/// The topic a build resolves to, given the building agent's identity: a full
/// topic override wins outright; otherwise the three-part topic is assembled
/// from the overrides and the variant's defaults — the wildcard `+` for an
/// input's role and id, the agent's own role and id for an output's.
pub open spec fn resolved_topic(
    v: PlugOptionsView,
    agent_role: Seq<char>,
    agent_id: Seq<char>,
) -> Seq<char> {
    match v.topic_override {
        Some(topic) => topic,
        None => {
            let role = match v.role_override {
                Some(role) => role,
                None => if v.is_input {
                    seq!['+']
                } else {
                    agent_role
                },
            };
            let id = match v.id_override {
                Some(id) => id,
                None => if v.is_input {
                    seq!['+']
                } else {
                    agent_id
                },
            };
            role + seq!['/'] + id + seq!['/'] + v.plug_name
        },
    }
}

/// The quality of service a build resolves to: 1 unless chosen.
pub open spec fn resolved_qos(v: PlugOptionsView) -> i32 {
    match v.qos {
        Some(qos) => qos,
        None => 1i32,
    }
}

/// The retain flag a build resolves to: off unless chosen.
pub open spec fn resolved_retain(v: PlugOptionsView) -> bool {
    match v.retain {
        Some(retain) => retain,
        None => false,
    }
}

/// Law: a full topic override wins over a role override no matter the order
/// the two were configured in — configuring the topic then the role resolves
/// to the topic override, and so does configuring the role then the topic.
pub proof fn lemma_topic_override_wins(
    v: PlugOptionsView,
    topic: Seq<char>,
    role: Option<Seq<char>>,
    agent_role: Seq<char>,
    agent_id: Seq<char>,
)
    ensures
        resolved_topic(with_role(with_topic(v, topic), role), agent_role, agent_id) == topic,
        resolved_topic(with_topic(with_role(v, role), topic), agent_role, agent_id) == topic,
{
}

impl PlugOptionsBuilder {
    /// Starts a receive-direction plug of the given name, every choice at its
    /// default.
    pub fn create_input(name: &str) -> (r: PlugOptionsBuilder)
        ensures
            r@ == (PlugOptionsView {
                is_input: true,
                plug_name: name@,
                qos: None,
                role_override: None,
                id_override: None,
                topic_override: None,
                retain: None,
            }),
    {
        PlugOptionsBuilder::InputPlugOptions(
            InputPlugOptions {
                plug_name: name.to_owned(),
                qos: None,
                override_subscribe_role: None,
                override_subscribe_id: None,
                override_topic: None,
            },
        )
    }

    /// Starts a send-direction plug of the given name, every choice at its
    /// default.
    pub fn create_output(name: &str) -> (r: PlugOptionsBuilder)
        ensures
            r@ == (PlugOptionsView {
                is_input: false,
                plug_name: name@,
                qos: None,
                role_override: None,
                id_override: None,
                topic_override: None,
                retain: None,
            }),
    {
        PlugOptionsBuilder::OutputPlugOptions(
            OutputPlugOptions {
                plug_name: name.to_owned(),
                qos: None,
                override_publish_role: None,
                override_publish_id: None,
                override_topic: None,
                retain: None,
            },
        )
    }

    /// Chooses the quality-of-service level for this plug.
    pub fn qos(self, qos: i32) -> (r: Self)
        ensures
            r@ == with_qos(self@, qos),
    {
        match self {
            PlugOptionsBuilder::InputPlugOptions(options) => PlugOptionsBuilder::InputPlugOptions(
                InputPlugOptions { qos: Some(qos), ..options },
            ),
            PlugOptionsBuilder::OutputPlugOptions(
                options,
            ) => PlugOptionsBuilder::OutputPlugOptions(
                OutputPlugOptions { qos: Some(qos), ..options },
            ),
        }
    }

    /// Overrides the role part of the topic generated for this plug. Ignored
    /// when the entire topic was already overridden with `topic`: that
    /// override takes precedence.
    pub fn role(self, role: Option<&str>) -> (r: Self)
        ensures
            r@ == with_role(
                self@,
                match role {
                    Some(s) => Some(s@),
                    None => None,
                },
            ),
    {
        let owned: Option<String> = match role {
            Some(s) => Some(s.to_owned()),
            None => None,
        };
        match self {
            PlugOptionsBuilder::InputPlugOptions(options) => {
                if options.override_topic.is_some() {
                    PlugOptionsBuilder::InputPlugOptions(options)
                } else {
                    PlugOptionsBuilder::InputPlugOptions(
                        InputPlugOptions { override_subscribe_role: owned, ..options },
                    )
                }
            },
            PlugOptionsBuilder::OutputPlugOptions(options) => {
                if options.override_topic.is_some() {
                    PlugOptionsBuilder::OutputPlugOptions(options)
                } else {
                    PlugOptionsBuilder::OutputPlugOptions(
                        OutputPlugOptions { override_publish_role: owned, ..options },
                    )
                }
            },
        }
    }

    /// Overrides the id part of the topic generated for this plug. Ignored
    /// when the entire topic was already overridden with `topic`: that
    /// override takes precedence.
    pub fn id(self, id: Option<&str>) -> (r: Self)
        ensures
            r@ == with_id(
                self@,
                match id {
                    Some(s) => Some(s@),
                    None => None,
                },
            ),
    {
        let owned: Option<String> = match id {
            Some(s) => Some(s.to_owned()),
            None => None,
        };
        match self {
            PlugOptionsBuilder::InputPlugOptions(options) => {
                if options.override_topic.is_some() {
                    PlugOptionsBuilder::InputPlugOptions(options)
                } else {
                    PlugOptionsBuilder::InputPlugOptions(
                        InputPlugOptions { override_subscribe_id: owned, ..options },
                    )
                }
            },
            PlugOptionsBuilder::OutputPlugOptions(options) => {
                if options.override_topic.is_some() {
                    PlugOptionsBuilder::OutputPlugOptions(options)
                } else {
                    PlugOptionsBuilder::OutputPlugOptions(
                        OutputPlugOptions { override_publish_id: owned, ..options },
                    )
                }
            },
        }
    }

    /// Overrides the final topic entirely. Role and id overrides are ignored
    /// once this is set. The topic is deliberately not validated against the
    /// three-part convention — a raw wildcard such as `#` is legitimate here.
    pub fn topic(self, override_topic: &str) -> (r: Self)
        ensures
            r@ == with_topic(self@, override_topic@),
    {
        match self {
            PlugOptionsBuilder::InputPlugOptions(options) => PlugOptionsBuilder::InputPlugOptions(
                InputPlugOptions { override_topic: Some(override_topic.to_owned()), ..options },
            ),
            PlugOptionsBuilder::OutputPlugOptions(
                options,
            ) => PlugOptionsBuilder::OutputPlugOptions(
                OutputPlugOptions { override_topic: Some(override_topic.to_owned()), ..options },
            ),
        }
    }

    /// Chooses whether the broker keeps the last message on the topic. Only a
    /// send-direction plug can retain: asking it of an input plug is a bug in
    /// the calling code, ruled out by precondition regardless of every other
    /// configured field.
    pub fn retain(self, should_retain: bool) -> (r: Self)
        requires
            !self@.is_input,
        ensures
            r@ == with_retain(self@, should_retain),
    {
        match self {
            PlugOptionsBuilder::InputPlugOptions(_) => vstd::pervasive::unreached(),
            PlugOptionsBuilder::OutputPlugOptions(
                options,
            ) => PlugOptionsBuilder::OutputPlugOptions(
                OutputPlugOptions { retain: Some(should_retain), ..options },
            ),
        }
    }

    /// Resolves the gathered choices into a finalized plug definition, using
    /// the agent's identity for an output's default role and id. An input
    /// definition still has to be handed to the transport for the actual
    /// subscribe call; an output needs no transport work at build time.
    pub fn build(self, tether_agent: &TetherAgent) -> (r: PlugDefinition)
        ensures
            r is InputPlugDefinition <==> self@.is_input,
            r.spec_common().name@ == self@.plug_name,
            r.spec_common().topic@ == resolved_topic(
                self@,
                tether_agent.role_spec(),
                tether_agent.id_spec(),
            ),
            r.spec_common().qos == resolved_qos(self@),
            r.spec_retain() == (if self@.is_input {
                false
            } else {
                resolved_retain(self@)
            }),
    {
        match self {
            PlugOptionsBuilder::InputPlugOptions(options) => {
                let topic: String = match options.override_topic {
                    Some(topic) => topic,
                    None => ThreePartTopic::new_for_subscribe(
                        options.override_subscribe_role,
                        options.override_subscribe_id,
                        options.plug_name.as_str(),
                    ).to_wire_string(),
                };
                let qos: i32 = match options.qos {
                    Some(qos) => qos,
                    None => 1,
                };
                PlugDefinition::InputPlugDefinition(
                    InputPlugDefinition::new(
                        PlugDefinitionCommon { name: options.plug_name, topic, qos },
                    ),
                )
            },
            PlugOptionsBuilder::OutputPlugOptions(options) => {
                let topic: String = match options.override_topic {
                    Some(topic) => topic,
                    None => ThreePartTopic::new_for_publish(
                        options.override_publish_role,
                        options.override_publish_id,
                        options.plug_name.as_str(),
                        tether_agent.description().0,
                        tether_agent.description().1,
                    ).to_wire_string(),
                };
                let qos: i32 = match options.qos {
                    Some(qos) => qos,
                    None => 1,
                };
                let retain: bool = match options.retain {
                    Some(retain) => retain,
                    None => false,
                };
                PlugDefinition::OutputPlugDefinition(
                    OutputPlugDefinition::new(
                        PlugDefinitionCommon { name: options.plug_name, topic, qos },
                        retain,
                    ),
                )
            },
        }
    }
}

} // verus!
