//! The messages that the node exchanges with its RPC clients.
use vstd::prelude::*;

pub mod astrixd_request;
pub mod astrixd_response;

verus! {

/// A request to the node, with the id that its response will carry.
#[derive(Debug, Clone, PartialEq, Eq)]
pub struct AstrixdRequest {
    pub id: u64,
    pub payload: Option<astrixd_request::Payload>,
}

/// A response or notification from the node.
#[derive(Debug, Clone, PartialEq, Eq)]
pub struct AstrixdResponse {
    pub id: u64,
    pub payload: Option<astrixd_response::Payload>,
}

/// An error reported in a response.
#[derive(Debug, Clone, PartialEq, Eq)]
pub struct RpcError {
    pub message: String,
}

/// What this library reads and writes of a response message: the error it reports, if any.
#[derive(Debug, Clone, PartialEq, Eq)]
pub struct ResponseMessage {
    pub error: Option<RpcError>,
}

/// Wire code of a notification command: start notifying.
pub const RPC_NOTIFY_COMMAND_START: i32 = 0;

/// Wire code of a notification command: stop notifying.
pub const RPC_NOTIFY_COMMAND_STOP: i32 = 1;

/// Subscribes to or unsubscribes from block-added notifications.
#[derive(Debug, Clone, PartialEq, Eq)]
pub struct NotifyBlockAddedRequestMessage {
    pub command: i32,
}

/// Subscribes to or unsubscribes from new-block-template notifications.
#[derive(Debug, Clone, PartialEq, Eq)]
pub struct NotifyNewBlockTemplateRequestMessage {
    pub command: i32,
}

/// Subscribes to or unsubscribes from UTXO changes of the given addresses (all, when empty).
#[derive(Debug, Clone, PartialEq, Eq)]
pub struct NotifyUtxosChangedRequestMessage {
    pub addresses: Vec<String>,
    pub command: i32,
}

/// Subscribes to or unsubscribes from pruning-point UTXO set overrides.
#[derive(Debug, Clone, PartialEq, Eq)]
pub struct NotifyPruningPointUtxoSetOverrideRequestMessage {
    pub command: i32,
}

/// Subscribes to or unsubscribes from finality conflicts and their resolution.
#[derive(Debug, Clone, PartialEq, Eq)]
pub struct NotifyFinalityConflictRequestMessage {
    pub command: i32,
}

/// Subscribes to or unsubscribes from virtual DAA score changes.
#[derive(Debug, Clone, PartialEq, Eq)]
pub struct NotifyVirtualDaaScoreChangedRequestMessage {
    pub command: i32,
}

/// Subscribes to or unsubscribes from virtual chain changes.
#[derive(Debug, Clone, PartialEq, Eq)]
pub struct NotifyVirtualChainChangedRequestMessage {
    pub include_accepted_transaction_ids: bool,
    pub command: i32,
}

/// Subscribes to or unsubscribes from sink blue score changes.
#[derive(Debug, Clone, PartialEq, Eq)]
pub struct NotifySinkBlueScoreChangedRequestMessage {
    pub command: i32,
}

/// Stops UTXO change notifications for the given addresses.
#[derive(Debug, Clone, PartialEq, Eq)]
pub struct StopNotifyingUtxosChangedRequestMessage {
    pub addresses: Vec<String>,
}

/// Stops pruning-point UTXO set override notifications.
#[derive(Debug, Clone, PartialEq, Eq)]
pub struct StopNotifyingPruningPointUtxoSetOverrideRequestMessage {}

} // verus!
