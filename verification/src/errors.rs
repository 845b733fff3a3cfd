//! The recoverable error kinds the library reports.

use vstd::prelude::*;

verus! {

/// Every recoverable failure the library or its transport shell can report.
///
/// Misuse of the API (such as publishing through an input plug) is not an
/// error kind here: those conditions are ruled out by preconditions on the
/// functions concerned.
#[derive(Clone, Copy, Debug, PartialEq, Eq, Structural)]
pub enum TetherError {
    /// A topic did not split into exactly three non-empty `/`-separated segments.
    MalformedTopic,
    /// The transport could not connect to the broker.
    ConnectionFailed,
    /// The transport rejected a subscribe request while building an input plug.
    SubscribeFailed,
    /// The transport could not send an outbound message.
    PublishFailed,
    /// A value could not be encoded into (or decoded from) the binary map format.
    EncodingFailed,
}

} // verus!
