//! The codec boundary: structured values in and out of the canonical binary
//! map format.
//!
//! The format itself is owned by the outside codec; this module only carries
//! values across it and keeps the failure kinds straight — an encode problem
//! is a data problem (`EncodingFailed`), never confused with transport
//! trouble.

use vstd::prelude::*;

use crate::agent::OutboundMessage;
use crate::agent::TetherAgent;
use crate::definitions::PlugDefinition;
use crate::errors::TetherError;

verus! {

/// The outside codec's structured value type, carried through opaquely.
#[verifier::external_type_specification]
#[verifier::external_body]
pub struct ExValue(rmpv::Value);

/// Relies on `rmp_serde::to_vec_named`: serializes the value into the binary
/// map format, with field names kept. Serialization of a structured value can
/// fail on an unsupported shape; that is a data problem, reported as
/// `EncodingFailed`.
#[verifier::external_body]
pub fn encode(value: &rmpv::Value) -> (r: Result<Vec<u8>, TetherError>)
    ensures
        match r {
            Ok(_) => true,
            Err(e) => e == TetherError::EncodingFailed,
        },
{
    match rmp_serde::to_vec_named(value) {
        Ok(bytes) => Ok(bytes),
        Err(_) => Err(TetherError::EncodingFailed),
    }
}

/// Relies on `rmp_serde::from_slice`: parses binary map format bytes back
/// into a structured value. Failure is reported as `EncodingFailed`; callers
/// on the receive path treat it as non-fatal and keep the raw bytes.
#[verifier::external_body]
pub fn decode(bytes: &[u8]) -> (r: Result<rmpv::Value, TetherError>)
    ensures
        match r {
            Ok(_) => true,
            Err(e) => e == TetherError::EncodingFailed,
        },
{
    match rmp_serde::from_slice::<rmpv::Value>(bytes) {
        Ok(value) => Ok(value),
        Err(_) => Err(TetherError::EncodingFailed),
    }
}

/// Relies on `serde_json::to_string`: renders the structured value as JSON
/// text, for diagnostics only. `None` where the value has no JSON rendering
/// (a map with non-string keys, for instance).
#[verifier::external_body]
pub fn value_to_json(value: &rmpv::Value) -> (r: Option<String>)
{
    match serde_json::to_string(value) {
        Ok(text) => Some(text),
        Err(_) => None,
    }
}

/// A best-effort rendering of a payload for diagnostics: an empty payload has
/// none, any other is decoded from the binary map format and rendered as JSON
/// when both steps succeed. Never an error: the receive path must deliver the
/// message whatever its payload looks like.
pub fn describe_payload(bytes: &[u8]) -> (r: Option<String>)
    ensures
        bytes@.len() == 0 ==> r is None,
{
    if bytes.len() == 0 {
        return None;
    }
    match decode(bytes) {
        Ok(value) => value_to_json(&value),
        Err(_) => None,
    }
}

impl TetherAgent {
    /// Serializes the value through the codec boundary, then prepares the
    /// publish exactly as `publish` would. An encode failure comes back as
    /// `EncodingFailed` and nothing is prepared; it is distinct from any
    /// transport failure, so callers can tell a data problem from a
    /// connectivity problem.
    pub fn encode_and_publish(&self, plug_definition: &PlugDefinition, value: &rmpv::Value) -> (r:
        Result<OutboundMessage, TetherError>)
        requires
            plug_definition is OutputPlugDefinition,
        ensures
            match r {
                Ok(message) => {
                    &&& message.topic@ == plug_definition.spec_common().topic@
                    &&& message.qos == plug_definition.spec_common().qos
                    &&& message.retained == plug_definition.spec_retain()
                },
                Err(e) => e == TetherError::EncodingFailed,
            },
    {
        match encode(value) {
            Ok(payload) => Ok(self.publish(plug_definition, Some(payload.as_slice()))),
            Err(_) => Err(TetherError::EncodingFailed),
        }
    }
}

} // verus!
