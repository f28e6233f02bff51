//! Payloads of requests to the node.
use vstd::prelude::*;

use super::{
    NotifyBlockAddedRequestMessage,
    NotifyNewBlockTemplateRequestMessage,
    NotifyUtxosChangedRequestMessage,
    NotifyPruningPointUtxoSetOverrideRequestMessage,
    NotifyFinalityConflictRequestMessage,
    NotifyVirtualDaaScoreChangedRequestMessage,
    NotifyVirtualChainChangedRequestMessage,
    NotifySinkBlueScoreChangedRequestMessage,
    StopNotifyingUtxosChangedRequestMessage,
    StopNotifyingPruningPointUtxoSetOverrideRequestMessage,
};

verus! {

/// What a request asks for. Subscription requests carry their message; other requests are
/// held by their kind alone.
#[derive(Debug, Clone, PartialEq, Eq)]
pub enum Payload {
    ShutdownRequest,
    SubmitBlockRequest,
    GetBlockTemplateRequest,
    GetBlockRequest,
    GetInfoRequest,
    GetCurrentNetworkRequest,
    GetPeerAddressesRequest,
    GetSinkRequest,
    GetMempoolEntryRequest,
    GetMempoolEntriesRequest,
    GetConnectedPeerInfoRequest,
    AddPeerRequest,
    SubmitTransactionRequest,
    GetSubnetworkRequest,
    GetVirtualChainFromBlockRequest,
    GetBlocksRequest,
    GetBlockCountRequest,
    GetBlockDagInfoRequest,
    ResolveFinalityConflictRequest,
    GetHeadersRequest,
    GetUtxosByAddressesRequest,
    GetBalanceByAddressRequest,
    GetBalancesByAddressesRequest,
    GetSinkBlueScoreRequest,
    BanRequest,
    UnbanRequest,
    EstimateNetworkHashesPerSecondRequest,
    GetMempoolEntriesByAddressesRequest,
    GetCoinSupplyRequest,
    PingRequest,
    GetMetricsRequest,
    GetServerInfoRequest,
    GetSyncStatusRequest,
    GetDaaScoreTimestampEstimateRequest,
    NotifyBlockAddedRequest(NotifyBlockAddedRequestMessage),
    NotifyNewBlockTemplateRequest(NotifyNewBlockTemplateRequestMessage),
    NotifyUtxosChangedRequest(NotifyUtxosChangedRequestMessage),
    NotifyPruningPointUtxoSetOverrideRequest(NotifyPruningPointUtxoSetOverrideRequestMessage),
    NotifyFinalityConflictRequest(NotifyFinalityConflictRequestMessage),
    NotifyVirtualDaaScoreChangedRequest(NotifyVirtualDaaScoreChangedRequestMessage),
    NotifyVirtualChainChangedRequest(NotifyVirtualChainChangedRequestMessage),
    NotifySinkBlueScoreChangedRequest(NotifySinkBlueScoreChangedRequestMessage),
    StopNotifyingUtxosChangedRequest(StopNotifyingUtxosChangedRequestMessage),
    StopNotifyingPruningPointUtxoSetOverrideRequest(StopNotifyingPruningPointUtxoSetOverrideRequestMessage),
}

} // verus!
