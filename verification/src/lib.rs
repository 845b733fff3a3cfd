//! Agent-to-agent messaging over a publish/subscribe transport, built around
//! a fixed topic convention: `role/id/plugName`.
//!
//! The library owns the convention layer: parsing and building three-part
//! topics, resolving plug-definition overrides, classifying inbound messages,
//! and preparing outbound ones. The transport itself (connecting, sending,
//! receiving over the network) is left to a thin unverified shell that calls
//! into this library for every decision.

mod agent;
mod codec;
mod definitions;
mod errors;
mod numfmt;
mod options;
mod receive;
mod topics;

pub use agent::ConnectSettings;
pub use agent::InboundMessage;
pub use agent::OutboundMessage;
pub use agent::TetherAgent;
pub use agent::TetherAgentOptionsBuilder;
pub use agent::TIMEOUT_SECONDS;
pub use codec::decode;
pub use codec::describe_payload;
pub use codec::encode;
pub use codec::value_to_json;
pub use definitions::InputPlugDefinition;
pub use definitions::OutputPlugDefinition;
pub use definitions::PlugDefinition;
pub use definitions::PlugDefinitionCommon;
pub use errors::TetherError;
pub use options::InputPlugOptions;
pub use options::OutputPlugOptions;
pub use options::PlugOptionsBuilder;
pub use receive::ReceiveOptions;
pub use topics::build_topic;
pub use topics::default_subscribe_topic;
pub use topics::parse;
pub use topics::parse_agent_id;
pub use topics::parse_agent_role;
pub use topics::parse_plug_name;
pub use topics::split_topic;
pub use topics::TetherOrCustomTopic;
pub use topics::ThreePartTopic;
