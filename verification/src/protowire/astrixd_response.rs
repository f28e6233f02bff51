//! Payloads of responses and notifications from the node.
use vstd::prelude::*;

use super::ResponseMessage;

verus! {

/// What a response answers, with the error it reports, or which event a notification reports.
#[derive(Debug, Clone, PartialEq, Eq)]
pub enum Payload {
    ShutdownResponse(ResponseMessage),
    SubmitBlockResponse(ResponseMessage),
    GetBlockTemplateResponse(ResponseMessage),
    GetBlockResponse(ResponseMessage),
    GetInfoResponse(ResponseMessage),
    GetCurrentNetworkResponse(ResponseMessage),
    GetPeerAddressesResponse(ResponseMessage),
    GetSinkResponse(ResponseMessage),
    GetMempoolEntryResponse(ResponseMessage),
    GetMempoolEntriesResponse(ResponseMessage),
    GetConnectedPeerInfoResponse(ResponseMessage),
    AddPeerResponse(ResponseMessage),
    SubmitTransactionResponse(ResponseMessage),
    GetSubnetworkResponse(ResponseMessage),
    GetVirtualChainFromBlockResponse(ResponseMessage),
    GetBlocksResponse(ResponseMessage),
    GetBlockCountResponse(ResponseMessage),
    GetBlockDagInfoResponse(ResponseMessage),
    ResolveFinalityConflictResponse(ResponseMessage),
    GetHeadersResponse(ResponseMessage),
    GetUtxosByAddressesResponse(ResponseMessage),
    GetBalanceByAddressResponse(ResponseMessage),
    GetBalancesByAddressesResponse(ResponseMessage),
    GetSinkBlueScoreResponse(ResponseMessage),
    BanResponse(ResponseMessage),
    UnbanResponse(ResponseMessage),
    EstimateNetworkHashesPerSecondResponse(ResponseMessage),
    GetMempoolEntriesByAddressesResponse(ResponseMessage),
    GetCoinSupplyResponse(ResponseMessage),
    PingResponse(ResponseMessage),
    GetMetricsResponse(ResponseMessage),
    GetServerInfoResponse(ResponseMessage),
    GetSyncStatusResponse(ResponseMessage),
    GetDaaScoreTimestampEstimateResponse(ResponseMessage),
    NotifyBlockAddedResponse(ResponseMessage),
    NotifyNewBlockTemplateResponse(ResponseMessage),
    NotifyUtxosChangedResponse(ResponseMessage),
    NotifyPruningPointUtxoSetOverrideResponse(ResponseMessage),
    NotifyFinalityConflictResponse(ResponseMessage),
    NotifyVirtualDaaScoreChangedResponse(ResponseMessage),
    NotifyVirtualChainChangedResponse(ResponseMessage),
    NotifySinkBlueScoreChangedResponse(ResponseMessage),
    StopNotifyingUtxosChangedResponse(ResponseMessage),
    StopNotifyingPruningPointUtxoSetOverrideResponse(ResponseMessage),
    BlockAddedNotification,
    VirtualChainChangedNotification,
    FinalityConflictNotification,
    FinalityConflictResolvedNotification,
    UtxosChangedNotification,
    SinkBlueScoreChangedNotification,
    VirtualDaaScoreChangedNotification,
    PruningPointUtxoSetOverrideNotification,
    NewBlockTemplateNotification,
}

} // verus!
