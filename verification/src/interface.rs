//! The method table of the RPC server: one method per operation, and a fallback for
//! operations that have none.
use vstd::prelude::*;

use crate::protowire::{astrixd_request, astrixd_response, AstrixdRequest, AstrixdResponse, ResponseMessage, RpcError};

verus! {

/// An RPC operation, one for each kind of request.
#[derive(Debug, Clone, Copy, PartialEq, Eq, Structural, Hash)]
pub enum AstrixdPayloadOps {
    Shutdown,
    SubmitBlock,
    GetBlockTemplate,
    GetBlock,
    GetInfo,
    GetCurrentNetwork,
    GetPeerAddresses,
    GetSink,
    GetMempoolEntry,
    GetMempoolEntries,
    GetConnectedPeerInfo,
    AddPeer,
    SubmitTransaction,
    GetSubnetwork,
    GetVirtualChainFromBlock,
    GetBlocks,
    GetBlockCount,
    GetBlockDagInfo,
    ResolveFinalityConflict,
    GetHeaders,
    GetUtxosByAddresses,
    GetBalanceByAddress,
    GetBalancesByAddresses,
    GetSinkBlueScore,
    Ban,
    Unban,
    EstimateNetworkHashesPerSecond,
    GetMempoolEntriesByAddresses,
    GetCoinSupply,
    Ping,
    GetMetrics,
    GetServerInfo,
    GetSyncStatus,
    GetDaaScoreTimestampEstimate,
    NotifyBlockAdded,
    NotifyNewBlockTemplate,
    NotifyUtxosChanged,
    NotifyPruningPointUtxoSetOverride,
    NotifyFinalityConflict,
    NotifyVirtualDaaScoreChanged,
    NotifyVirtualChainChanged,
    NotifySinkBlueScoreChanged,
    StopNotifyingUtxosChanged,
    StopNotifyingPruningPointUtxoSetOverride,
}

/// The wire position of an operation among the request kinds.
pub open spec fn op_code(op: AstrixdPayloadOps) -> nat {
    match op {
        AstrixdPayloadOps::Shutdown => 0,
        AstrixdPayloadOps::SubmitBlock => 1,
        AstrixdPayloadOps::GetBlockTemplate => 2,
        AstrixdPayloadOps::GetBlock => 3,
        AstrixdPayloadOps::GetInfo => 4,
        AstrixdPayloadOps::GetCurrentNetwork => 5,
        AstrixdPayloadOps::GetPeerAddresses => 6,
        AstrixdPayloadOps::GetSink => 7,
        AstrixdPayloadOps::GetMempoolEntry => 8,
        AstrixdPayloadOps::GetMempoolEntries => 9,
        AstrixdPayloadOps::GetConnectedPeerInfo => 10,
        AstrixdPayloadOps::AddPeer => 11,
        AstrixdPayloadOps::SubmitTransaction => 12,
        AstrixdPayloadOps::GetSubnetwork => 13,
        AstrixdPayloadOps::GetVirtualChainFromBlock => 14,
        AstrixdPayloadOps::GetBlocks => 15,
        AstrixdPayloadOps::GetBlockCount => 16,
        AstrixdPayloadOps::GetBlockDagInfo => 17,
        AstrixdPayloadOps::ResolveFinalityConflict => 18,
        AstrixdPayloadOps::GetHeaders => 19,
        AstrixdPayloadOps::GetUtxosByAddresses => 20,
        AstrixdPayloadOps::GetBalanceByAddress => 21,
        AstrixdPayloadOps::GetBalancesByAddresses => 22,
        AstrixdPayloadOps::GetSinkBlueScore => 23,
        AstrixdPayloadOps::Ban => 24,
        AstrixdPayloadOps::Unban => 25,
        AstrixdPayloadOps::EstimateNetworkHashesPerSecond => 26,
        AstrixdPayloadOps::GetMempoolEntriesByAddresses => 27,
        AstrixdPayloadOps::GetCoinSupply => 28,
        AstrixdPayloadOps::Ping => 29,
        AstrixdPayloadOps::GetMetrics => 30,
        AstrixdPayloadOps::GetServerInfo => 31,
        AstrixdPayloadOps::GetSyncStatus => 32,
        AstrixdPayloadOps::GetDaaScoreTimestampEstimate => 33,
        AstrixdPayloadOps::NotifyBlockAdded => 34,
        AstrixdPayloadOps::NotifyNewBlockTemplate => 35,
        AstrixdPayloadOps::NotifyUtxosChanged => 36,
        AstrixdPayloadOps::NotifyPruningPointUtxoSetOverride => 37,
        AstrixdPayloadOps::NotifyFinalityConflict => 38,
        AstrixdPayloadOps::NotifyVirtualDaaScoreChanged => 39,
        AstrixdPayloadOps::NotifyVirtualChainChanged => 40,
        AstrixdPayloadOps::NotifySinkBlueScoreChanged => 41,
        AstrixdPayloadOps::StopNotifyingUtxosChanged => 42,
        AstrixdPayloadOps::StopNotifyingPruningPointUtxoSetOverride => 43,
    }
}

/// The position of a request payload's kind, in the order of the operations.
pub open spec fn request_code(p: astrixd_request::Payload) -> nat {
    match p {
        astrixd_request::Payload::ShutdownRequest => 0,
        astrixd_request::Payload::SubmitBlockRequest => 1,
        astrixd_request::Payload::GetBlockTemplateRequest => 2,
        astrixd_request::Payload::GetBlockRequest => 3,
        astrixd_request::Payload::GetInfoRequest => 4,
        astrixd_request::Payload::GetCurrentNetworkRequest => 5,
        astrixd_request::Payload::GetPeerAddressesRequest => 6,
        astrixd_request::Payload::GetSinkRequest => 7,
        astrixd_request::Payload::GetMempoolEntryRequest => 8,
        astrixd_request::Payload::GetMempoolEntriesRequest => 9,
        astrixd_request::Payload::GetConnectedPeerInfoRequest => 10,
        astrixd_request::Payload::AddPeerRequest => 11,
        astrixd_request::Payload::SubmitTransactionRequest => 12,
        astrixd_request::Payload::GetSubnetworkRequest => 13,
        astrixd_request::Payload::GetVirtualChainFromBlockRequest => 14,
        astrixd_request::Payload::GetBlocksRequest => 15,
        astrixd_request::Payload::GetBlockCountRequest => 16,
        astrixd_request::Payload::GetBlockDagInfoRequest => 17,
        astrixd_request::Payload::ResolveFinalityConflictRequest => 18,
        astrixd_request::Payload::GetHeadersRequest => 19,
        astrixd_request::Payload::GetUtxosByAddressesRequest => 20,
        astrixd_request::Payload::GetBalanceByAddressRequest => 21,
        astrixd_request::Payload::GetBalancesByAddressesRequest => 22,
        astrixd_request::Payload::GetSinkBlueScoreRequest => 23,
        astrixd_request::Payload::BanRequest => 24,
        astrixd_request::Payload::UnbanRequest => 25,
        astrixd_request::Payload::EstimateNetworkHashesPerSecondRequest => 26,
        astrixd_request::Payload::GetMempoolEntriesByAddressesRequest => 27,
        astrixd_request::Payload::GetCoinSupplyRequest => 28,
        astrixd_request::Payload::PingRequest => 29,
        astrixd_request::Payload::GetMetricsRequest => 30,
        astrixd_request::Payload::GetServerInfoRequest => 31,
        astrixd_request::Payload::GetSyncStatusRequest => 32,
        astrixd_request::Payload::GetDaaScoreTimestampEstimateRequest => 33,
        astrixd_request::Payload::NotifyBlockAddedRequest(_) => 34,
        astrixd_request::Payload::NotifyNewBlockTemplateRequest(_) => 35,
        astrixd_request::Payload::NotifyUtxosChangedRequest(_) => 36,
        astrixd_request::Payload::NotifyPruningPointUtxoSetOverrideRequest(_) => 37,
        astrixd_request::Payload::NotifyFinalityConflictRequest(_) => 38,
        astrixd_request::Payload::NotifyVirtualDaaScoreChangedRequest(_) => 39,
        astrixd_request::Payload::NotifyVirtualChainChangedRequest(_) => 40,
        astrixd_request::Payload::NotifySinkBlueScoreChangedRequest(_) => 41,
        astrixd_request::Payload::StopNotifyingUtxosChangedRequest(_) => 42,
        astrixd_request::Payload::StopNotifyingPruningPointUtxoSetOverrideRequest(_) => 43,
    }
}

/// The position of the request kind that a response answers; `None` for a notification.
pub open spec fn response_code(p: astrixd_response::Payload) -> Option<nat> {
    match p {
        astrixd_response::Payload::ShutdownResponse(_) => Some(0nat),
        astrixd_response::Payload::SubmitBlockResponse(_) => Some(1nat),
        astrixd_response::Payload::GetBlockTemplateResponse(_) => Some(2nat),
        astrixd_response::Payload::GetBlockResponse(_) => Some(3nat),
        astrixd_response::Payload::GetInfoResponse(_) => Some(4nat),
        astrixd_response::Payload::GetCurrentNetworkResponse(_) => Some(5nat),
        astrixd_response::Payload::GetPeerAddressesResponse(_) => Some(6nat),
        astrixd_response::Payload::GetSinkResponse(_) => Some(7nat),
        astrixd_response::Payload::GetMempoolEntryResponse(_) => Some(8nat),
        astrixd_response::Payload::GetMempoolEntriesResponse(_) => Some(9nat),
        astrixd_response::Payload::GetConnectedPeerInfoResponse(_) => Some(10nat),
        astrixd_response::Payload::AddPeerResponse(_) => Some(11nat),
        astrixd_response::Payload::SubmitTransactionResponse(_) => Some(12nat),
        astrixd_response::Payload::GetSubnetworkResponse(_) => Some(13nat),
        astrixd_response::Payload::GetVirtualChainFromBlockResponse(_) => Some(14nat),
        astrixd_response::Payload::GetBlocksResponse(_) => Some(15nat),
        astrixd_response::Payload::GetBlockCountResponse(_) => Some(16nat),
        astrixd_response::Payload::GetBlockDagInfoResponse(_) => Some(17nat),
        astrixd_response::Payload::ResolveFinalityConflictResponse(_) => Some(18nat),
        astrixd_response::Payload::GetHeadersResponse(_) => Some(19nat),
        astrixd_response::Payload::GetUtxosByAddressesResponse(_) => Some(20nat),
        astrixd_response::Payload::GetBalanceByAddressResponse(_) => Some(21nat),
        astrixd_response::Payload::GetBalancesByAddressesResponse(_) => Some(22nat),
        astrixd_response::Payload::GetSinkBlueScoreResponse(_) => Some(23nat),
        astrixd_response::Payload::BanResponse(_) => Some(24nat),
        astrixd_response::Payload::UnbanResponse(_) => Some(25nat),
        astrixd_response::Payload::EstimateNetworkHashesPerSecondResponse(_) => Some(26nat),
        astrixd_response::Payload::GetMempoolEntriesByAddressesResponse(_) => Some(27nat),
        astrixd_response::Payload::GetCoinSupplyResponse(_) => Some(28nat),
        astrixd_response::Payload::PingResponse(_) => Some(29nat),
        astrixd_response::Payload::GetMetricsResponse(_) => Some(30nat),
        astrixd_response::Payload::GetServerInfoResponse(_) => Some(31nat),
        astrixd_response::Payload::GetSyncStatusResponse(_) => Some(32nat),
        astrixd_response::Payload::GetDaaScoreTimestampEstimateResponse(_) => Some(33nat),
        astrixd_response::Payload::NotifyBlockAddedResponse(_) => Some(34nat),
        astrixd_response::Payload::NotifyNewBlockTemplateResponse(_) => Some(35nat),
        astrixd_response::Payload::NotifyUtxosChangedResponse(_) => Some(36nat),
        astrixd_response::Payload::NotifyPruningPointUtxoSetOverrideResponse(_) => Some(37nat),
        astrixd_response::Payload::NotifyFinalityConflictResponse(_) => Some(38nat),
        astrixd_response::Payload::NotifyVirtualDaaScoreChangedResponse(_) => Some(39nat),
        astrixd_response::Payload::NotifyVirtualChainChangedResponse(_) => Some(40nat),
        astrixd_response::Payload::NotifySinkBlueScoreChangedResponse(_) => Some(41nat),
        astrixd_response::Payload::StopNotifyingUtxosChangedResponse(_) => Some(42nat),
        astrixd_response::Payload::StopNotifyingPruningPointUtxoSetOverrideResponse(_) => Some(43nat),
        _ => None,
    }
}

/// The error that a response reports; `None` for a notification.
pub open spec fn response_error(p: astrixd_response::Payload) -> Option<RpcError> {
    match p {
        astrixd_response::Payload::ShutdownResponse(m) => m.error,
        astrixd_response::Payload::SubmitBlockResponse(m) => m.error,
        astrixd_response::Payload::GetBlockTemplateResponse(m) => m.error,
        astrixd_response::Payload::GetBlockResponse(m) => m.error,
        astrixd_response::Payload::GetInfoResponse(m) => m.error,
        astrixd_response::Payload::GetCurrentNetworkResponse(m) => m.error,
        astrixd_response::Payload::GetPeerAddressesResponse(m) => m.error,
        astrixd_response::Payload::GetSinkResponse(m) => m.error,
        astrixd_response::Payload::GetMempoolEntryResponse(m) => m.error,
        astrixd_response::Payload::GetMempoolEntriesResponse(m) => m.error,
        astrixd_response::Payload::GetConnectedPeerInfoResponse(m) => m.error,
        astrixd_response::Payload::AddPeerResponse(m) => m.error,
        astrixd_response::Payload::SubmitTransactionResponse(m) => m.error,
        astrixd_response::Payload::GetSubnetworkResponse(m) => m.error,
        astrixd_response::Payload::GetVirtualChainFromBlockResponse(m) => m.error,
        astrixd_response::Payload::GetBlocksResponse(m) => m.error,
        astrixd_response::Payload::GetBlockCountResponse(m) => m.error,
        astrixd_response::Payload::GetBlockDagInfoResponse(m) => m.error,
        astrixd_response::Payload::ResolveFinalityConflictResponse(m) => m.error,
        astrixd_response::Payload::GetHeadersResponse(m) => m.error,
        astrixd_response::Payload::GetUtxosByAddressesResponse(m) => m.error,
        astrixd_response::Payload::GetBalanceByAddressResponse(m) => m.error,
        astrixd_response::Payload::GetBalancesByAddressesResponse(m) => m.error,
        astrixd_response::Payload::GetSinkBlueScoreResponse(m) => m.error,
        astrixd_response::Payload::BanResponse(m) => m.error,
        astrixd_response::Payload::UnbanResponse(m) => m.error,
        astrixd_response::Payload::EstimateNetworkHashesPerSecondResponse(m) => m.error,
        astrixd_response::Payload::GetMempoolEntriesByAddressesResponse(m) => m.error,
        astrixd_response::Payload::GetCoinSupplyResponse(m) => m.error,
        astrixd_response::Payload::PingResponse(m) => m.error,
        astrixd_response::Payload::GetMetricsResponse(m) => m.error,
        astrixd_response::Payload::GetServerInfoResponse(m) => m.error,
        astrixd_response::Payload::GetSyncStatusResponse(m) => m.error,
        astrixd_response::Payload::GetDaaScoreTimestampEstimateResponse(m) => m.error,
        astrixd_response::Payload::NotifyBlockAddedResponse(m) => m.error,
        astrixd_response::Payload::NotifyNewBlockTemplateResponse(m) => m.error,
        astrixd_response::Payload::NotifyUtxosChangedResponse(m) => m.error,
        astrixd_response::Payload::NotifyPruningPointUtxoSetOverrideResponse(m) => m.error,
        astrixd_response::Payload::NotifyFinalityConflictResponse(m) => m.error,
        astrixd_response::Payload::NotifyVirtualDaaScoreChangedResponse(m) => m.error,
        astrixd_response::Payload::NotifyVirtualChainChangedResponse(m) => m.error,
        astrixd_response::Payload::NotifySinkBlueScoreChangedResponse(m) => m.error,
        astrixd_response::Payload::StopNotifyingUtxosChangedResponse(m) => m.error,
        astrixd_response::Payload::StopNotifyingPruningPointUtxoSetOverrideResponse(m) => m.error,
        _ => None,
    }
}

/// The operation that a request payload asks for.
pub open spec fn request_op(p: astrixd_request::Payload) -> AstrixdPayloadOps {
    match p {
        astrixd_request::Payload::ShutdownRequest => AstrixdPayloadOps::Shutdown,
        astrixd_request::Payload::SubmitBlockRequest => AstrixdPayloadOps::SubmitBlock,
        astrixd_request::Payload::GetBlockTemplateRequest => AstrixdPayloadOps::GetBlockTemplate,
        astrixd_request::Payload::GetBlockRequest => AstrixdPayloadOps::GetBlock,
        astrixd_request::Payload::GetInfoRequest => AstrixdPayloadOps::GetInfo,
        astrixd_request::Payload::GetCurrentNetworkRequest => AstrixdPayloadOps::GetCurrentNetwork,
        astrixd_request::Payload::GetPeerAddressesRequest => AstrixdPayloadOps::GetPeerAddresses,
        astrixd_request::Payload::GetSinkRequest => AstrixdPayloadOps::GetSink,
        astrixd_request::Payload::GetMempoolEntryRequest => AstrixdPayloadOps::GetMempoolEntry,
        astrixd_request::Payload::GetMempoolEntriesRequest => AstrixdPayloadOps::GetMempoolEntries,
        astrixd_request::Payload::GetConnectedPeerInfoRequest => AstrixdPayloadOps::GetConnectedPeerInfo,
        astrixd_request::Payload::AddPeerRequest => AstrixdPayloadOps::AddPeer,
        astrixd_request::Payload::SubmitTransactionRequest => AstrixdPayloadOps::SubmitTransaction,
        astrixd_request::Payload::GetSubnetworkRequest => AstrixdPayloadOps::GetSubnetwork,
        astrixd_request::Payload::GetVirtualChainFromBlockRequest => AstrixdPayloadOps::GetVirtualChainFromBlock,
        astrixd_request::Payload::GetBlocksRequest => AstrixdPayloadOps::GetBlocks,
        astrixd_request::Payload::GetBlockCountRequest => AstrixdPayloadOps::GetBlockCount,
        astrixd_request::Payload::GetBlockDagInfoRequest => AstrixdPayloadOps::GetBlockDagInfo,
        astrixd_request::Payload::ResolveFinalityConflictRequest => AstrixdPayloadOps::ResolveFinalityConflict,
        astrixd_request::Payload::GetHeadersRequest => AstrixdPayloadOps::GetHeaders,
        astrixd_request::Payload::GetUtxosByAddressesRequest => AstrixdPayloadOps::GetUtxosByAddresses,
        astrixd_request::Payload::GetBalanceByAddressRequest => AstrixdPayloadOps::GetBalanceByAddress,
        astrixd_request::Payload::GetBalancesByAddressesRequest => AstrixdPayloadOps::GetBalancesByAddresses,
        astrixd_request::Payload::GetSinkBlueScoreRequest => AstrixdPayloadOps::GetSinkBlueScore,
        astrixd_request::Payload::BanRequest => AstrixdPayloadOps::Ban,
        astrixd_request::Payload::UnbanRequest => AstrixdPayloadOps::Unban,
        astrixd_request::Payload::EstimateNetworkHashesPerSecondRequest => AstrixdPayloadOps::EstimateNetworkHashesPerSecond,
        astrixd_request::Payload::GetMempoolEntriesByAddressesRequest => AstrixdPayloadOps::GetMempoolEntriesByAddresses,
        astrixd_request::Payload::GetCoinSupplyRequest => AstrixdPayloadOps::GetCoinSupply,
        astrixd_request::Payload::PingRequest => AstrixdPayloadOps::Ping,
        astrixd_request::Payload::GetMetricsRequest => AstrixdPayloadOps::GetMetrics,
        astrixd_request::Payload::GetServerInfoRequest => AstrixdPayloadOps::GetServerInfo,
        astrixd_request::Payload::GetSyncStatusRequest => AstrixdPayloadOps::GetSyncStatus,
        astrixd_request::Payload::GetDaaScoreTimestampEstimateRequest => AstrixdPayloadOps::GetDaaScoreTimestampEstimate,
        astrixd_request::Payload::NotifyBlockAddedRequest(_) => AstrixdPayloadOps::NotifyBlockAdded,
        astrixd_request::Payload::NotifyNewBlockTemplateRequest(_) => AstrixdPayloadOps::NotifyNewBlockTemplate,
        astrixd_request::Payload::NotifyUtxosChangedRequest(_) => AstrixdPayloadOps::NotifyUtxosChanged,
        astrixd_request::Payload::NotifyPruningPointUtxoSetOverrideRequest(_) => AstrixdPayloadOps::NotifyPruningPointUtxoSetOverride,
        astrixd_request::Payload::NotifyFinalityConflictRequest(_) => AstrixdPayloadOps::NotifyFinalityConflict,
        astrixd_request::Payload::NotifyVirtualDaaScoreChangedRequest(_) => AstrixdPayloadOps::NotifyVirtualDaaScoreChanged,
        astrixd_request::Payload::NotifyVirtualChainChangedRequest(_) => AstrixdPayloadOps::NotifyVirtualChainChanged,
        astrixd_request::Payload::NotifySinkBlueScoreChangedRequest(_) => AstrixdPayloadOps::NotifySinkBlueScoreChanged,
        astrixd_request::Payload::StopNotifyingUtxosChangedRequest(_) => AstrixdPayloadOps::StopNotifyingUtxosChanged,
        astrixd_request::Payload::StopNotifyingPruningPointUtxoSetOverrideRequest(_) => AstrixdPayloadOps::StopNotifyingPruningPointUtxoSetOverride,
    }
}

/// Operations with the same position are the same operation.
pub proof fn lemma_op_code_injective(a: AstrixdPayloadOps, b: AstrixdPayloadOps)
    requires
        op_code(a) == op_code(b),
    ensures
        a == b,
{
}

/// Why the server cannot answer a request.
#[derive(Debug, Clone, Copy, PartialEq, Eq, Structural)]
pub enum GrpcServerError {
    /// No method serves the request's operation.
    MethodNotImplemented,
    /// The request carries no payload.
    InvalidRequestPayload,
}

/// The text of a server error, as a response reports it.
pub open spec fn server_error_text(e: GrpcServerError) -> Seq<char> {
    match e {
        GrpcServerError::MethodNotImplemented => "method not implemented"@,
        GrpcServerError::InvalidRequestPayload => "invalid request payload"@,
    }
}

impl GrpcServerError {
    /// The error as a response reports it.
    pub fn to_rpc_error(&self) -> (r: RpcError)
        ensures
            r.message@ == server_error_text(*self),
    {
        match self {
            GrpcServerError::MethodNotImplemented => {
                proof {
                    reveal_strlit("method not implemented");
                }
                RpcError { message: "method not implemented".to_owned() }
            },
            GrpcServerError::InvalidRequestPayload => {
                proof {
                    reveal_strlit("invalid request payload");
                }
                RpcError { message: "invalid request payload".to_owned() }
            },
        }
    }
}

impl AstrixdPayloadOps {
    /// The operation that a request payload asks for.
    pub fn from_request_payload(payload: &astrixd_request::Payload) -> (r: Self)
        ensures
            r == request_op(*payload),
            op_code(r) == request_code(*payload),
    {
        match payload {
            astrixd_request::Payload::ShutdownRequest => AstrixdPayloadOps::Shutdown,
            astrixd_request::Payload::SubmitBlockRequest => AstrixdPayloadOps::SubmitBlock,
            astrixd_request::Payload::GetBlockTemplateRequest => AstrixdPayloadOps::GetBlockTemplate,
            astrixd_request::Payload::GetBlockRequest => AstrixdPayloadOps::GetBlock,
            astrixd_request::Payload::GetInfoRequest => AstrixdPayloadOps::GetInfo,
            astrixd_request::Payload::GetCurrentNetworkRequest => AstrixdPayloadOps::GetCurrentNetwork,
            astrixd_request::Payload::GetPeerAddressesRequest => AstrixdPayloadOps::GetPeerAddresses,
            astrixd_request::Payload::GetSinkRequest => AstrixdPayloadOps::GetSink,
            astrixd_request::Payload::GetMempoolEntryRequest => AstrixdPayloadOps::GetMempoolEntry,
            astrixd_request::Payload::GetMempoolEntriesRequest => AstrixdPayloadOps::GetMempoolEntries,
            astrixd_request::Payload::GetConnectedPeerInfoRequest => AstrixdPayloadOps::GetConnectedPeerInfo,
            astrixd_request::Payload::AddPeerRequest => AstrixdPayloadOps::AddPeer,
            astrixd_request::Payload::SubmitTransactionRequest => AstrixdPayloadOps::SubmitTransaction,
            astrixd_request::Payload::GetSubnetworkRequest => AstrixdPayloadOps::GetSubnetwork,
            astrixd_request::Payload::GetVirtualChainFromBlockRequest => AstrixdPayloadOps::GetVirtualChainFromBlock,
            astrixd_request::Payload::GetBlocksRequest => AstrixdPayloadOps::GetBlocks,
            astrixd_request::Payload::GetBlockCountRequest => AstrixdPayloadOps::GetBlockCount,
            astrixd_request::Payload::GetBlockDagInfoRequest => AstrixdPayloadOps::GetBlockDagInfo,
            astrixd_request::Payload::ResolveFinalityConflictRequest => AstrixdPayloadOps::ResolveFinalityConflict,
            astrixd_request::Payload::GetHeadersRequest => AstrixdPayloadOps::GetHeaders,
            astrixd_request::Payload::GetUtxosByAddressesRequest => AstrixdPayloadOps::GetUtxosByAddresses,
            astrixd_request::Payload::GetBalanceByAddressRequest => AstrixdPayloadOps::GetBalanceByAddress,
            astrixd_request::Payload::GetBalancesByAddressesRequest => AstrixdPayloadOps::GetBalancesByAddresses,
            astrixd_request::Payload::GetSinkBlueScoreRequest => AstrixdPayloadOps::GetSinkBlueScore,
            astrixd_request::Payload::BanRequest => AstrixdPayloadOps::Ban,
            astrixd_request::Payload::UnbanRequest => AstrixdPayloadOps::Unban,
            astrixd_request::Payload::EstimateNetworkHashesPerSecondRequest => AstrixdPayloadOps::EstimateNetworkHashesPerSecond,
            astrixd_request::Payload::GetMempoolEntriesByAddressesRequest => AstrixdPayloadOps::GetMempoolEntriesByAddresses,
            astrixd_request::Payload::GetCoinSupplyRequest => AstrixdPayloadOps::GetCoinSupply,
            astrixd_request::Payload::PingRequest => AstrixdPayloadOps::Ping,
            astrixd_request::Payload::GetMetricsRequest => AstrixdPayloadOps::GetMetrics,
            astrixd_request::Payload::GetServerInfoRequest => AstrixdPayloadOps::GetServerInfo,
            astrixd_request::Payload::GetSyncStatusRequest => AstrixdPayloadOps::GetSyncStatus,
            astrixd_request::Payload::GetDaaScoreTimestampEstimateRequest => AstrixdPayloadOps::GetDaaScoreTimestampEstimate,
            astrixd_request::Payload::NotifyBlockAddedRequest(_) => AstrixdPayloadOps::NotifyBlockAdded,
            astrixd_request::Payload::NotifyNewBlockTemplateRequest(_) => AstrixdPayloadOps::NotifyNewBlockTemplate,
            astrixd_request::Payload::NotifyUtxosChangedRequest(_) => AstrixdPayloadOps::NotifyUtxosChanged,
            astrixd_request::Payload::NotifyPruningPointUtxoSetOverrideRequest(_) => AstrixdPayloadOps::NotifyPruningPointUtxoSetOverride,
            astrixd_request::Payload::NotifyFinalityConflictRequest(_) => AstrixdPayloadOps::NotifyFinalityConflict,
            astrixd_request::Payload::NotifyVirtualDaaScoreChangedRequest(_) => AstrixdPayloadOps::NotifyVirtualDaaScoreChanged,
            astrixd_request::Payload::NotifyVirtualChainChangedRequest(_) => AstrixdPayloadOps::NotifyVirtualChainChanged,
            astrixd_request::Payload::NotifySinkBlueScoreChangedRequest(_) => AstrixdPayloadOps::NotifySinkBlueScoreChanged,
            astrixd_request::Payload::StopNotifyingUtxosChangedRequest(_) => AstrixdPayloadOps::StopNotifyingUtxosChanged,
            astrixd_request::Payload::StopNotifyingPruningPointUtxoSetOverrideRequest(_) => AstrixdPayloadOps::StopNotifyingPruningPointUtxoSetOverride,
        }
    }

    /// The response to this operation that reports `error`.
    pub fn to_error_response(&self, error: RpcError) -> (r: astrixd_response::Payload)
        ensures
            response_code(r) == Some(op_code(*self)),
            response_error(r) == Some(error),
    {
        let message = ResponseMessage { error: Some(error) };
        match self {
            AstrixdPayloadOps::Shutdown => astrixd_response::Payload::ShutdownResponse(message),
            AstrixdPayloadOps::SubmitBlock => astrixd_response::Payload::SubmitBlockResponse(message),
            AstrixdPayloadOps::GetBlockTemplate => astrixd_response::Payload::GetBlockTemplateResponse(message),
            AstrixdPayloadOps::GetBlock => astrixd_response::Payload::GetBlockResponse(message),
            AstrixdPayloadOps::GetInfo => astrixd_response::Payload::GetInfoResponse(message),
            AstrixdPayloadOps::GetCurrentNetwork => astrixd_response::Payload::GetCurrentNetworkResponse(message),
            AstrixdPayloadOps::GetPeerAddresses => astrixd_response::Payload::GetPeerAddressesResponse(message),
            AstrixdPayloadOps::GetSink => astrixd_response::Payload::GetSinkResponse(message),
            AstrixdPayloadOps::GetMempoolEntry => astrixd_response::Payload::GetMempoolEntryResponse(message),
            AstrixdPayloadOps::GetMempoolEntries => astrixd_response::Payload::GetMempoolEntriesResponse(message),
            AstrixdPayloadOps::GetConnectedPeerInfo => astrixd_response::Payload::GetConnectedPeerInfoResponse(message),
            AstrixdPayloadOps::AddPeer => astrixd_response::Payload::AddPeerResponse(message),
            AstrixdPayloadOps::SubmitTransaction => astrixd_response::Payload::SubmitTransactionResponse(message),
            AstrixdPayloadOps::GetSubnetwork => astrixd_response::Payload::GetSubnetworkResponse(message),
            AstrixdPayloadOps::GetVirtualChainFromBlock => astrixd_response::Payload::GetVirtualChainFromBlockResponse(message),
            AstrixdPayloadOps::GetBlocks => astrixd_response::Payload::GetBlocksResponse(message),
            AstrixdPayloadOps::GetBlockCount => astrixd_response::Payload::GetBlockCountResponse(message),
            AstrixdPayloadOps::GetBlockDagInfo => astrixd_response::Payload::GetBlockDagInfoResponse(message),
            AstrixdPayloadOps::ResolveFinalityConflict => astrixd_response::Payload::ResolveFinalityConflictResponse(message),
            AstrixdPayloadOps::GetHeaders => astrixd_response::Payload::GetHeadersResponse(message),
            AstrixdPayloadOps::GetUtxosByAddresses => astrixd_response::Payload::GetUtxosByAddressesResponse(message),
            AstrixdPayloadOps::GetBalanceByAddress => astrixd_response::Payload::GetBalanceByAddressResponse(message),
            AstrixdPayloadOps::GetBalancesByAddresses => astrixd_response::Payload::GetBalancesByAddressesResponse(message),
            AstrixdPayloadOps::GetSinkBlueScore => astrixd_response::Payload::GetSinkBlueScoreResponse(message),
            AstrixdPayloadOps::Ban => astrixd_response::Payload::BanResponse(message),
            AstrixdPayloadOps::Unban => astrixd_response::Payload::UnbanResponse(message),
            AstrixdPayloadOps::EstimateNetworkHashesPerSecond => astrixd_response::Payload::EstimateNetworkHashesPerSecondResponse(message),
            AstrixdPayloadOps::GetMempoolEntriesByAddresses => astrixd_response::Payload::GetMempoolEntriesByAddressesResponse(message),
            AstrixdPayloadOps::GetCoinSupply => astrixd_response::Payload::GetCoinSupplyResponse(message),
            AstrixdPayloadOps::Ping => astrixd_response::Payload::PingResponse(message),
            AstrixdPayloadOps::GetMetrics => astrixd_response::Payload::GetMetricsResponse(message),
            AstrixdPayloadOps::GetServerInfo => astrixd_response::Payload::GetServerInfoResponse(message),
            AstrixdPayloadOps::GetSyncStatus => astrixd_response::Payload::GetSyncStatusResponse(message),
            AstrixdPayloadOps::GetDaaScoreTimestampEstimate => astrixd_response::Payload::GetDaaScoreTimestampEstimateResponse(message),
            AstrixdPayloadOps::NotifyBlockAdded => astrixd_response::Payload::NotifyBlockAddedResponse(message),
            AstrixdPayloadOps::NotifyNewBlockTemplate => astrixd_response::Payload::NotifyNewBlockTemplateResponse(message),
            AstrixdPayloadOps::NotifyUtxosChanged => astrixd_response::Payload::NotifyUtxosChangedResponse(message),
            AstrixdPayloadOps::NotifyPruningPointUtxoSetOverride => astrixd_response::Payload::NotifyPruningPointUtxoSetOverrideResponse(message),
            AstrixdPayloadOps::NotifyFinalityConflict => astrixd_response::Payload::NotifyFinalityConflictResponse(message),
            AstrixdPayloadOps::NotifyVirtualDaaScoreChanged => astrixd_response::Payload::NotifyVirtualDaaScoreChangedResponse(message),
            AstrixdPayloadOps::NotifyVirtualChainChanged => astrixd_response::Payload::NotifyVirtualChainChangedResponse(message),
            AstrixdPayloadOps::NotifySinkBlueScoreChanged => astrixd_response::Payload::NotifySinkBlueScoreChangedResponse(message),
            AstrixdPayloadOps::StopNotifyingUtxosChanged => astrixd_response::Payload::StopNotifyingUtxosChangedResponse(message),
            AstrixdPayloadOps::StopNotifyingPruningPointUtxoSetOverride => astrixd_response::Payload::StopNotifyingPruningPointUtxoSetOverrideResponse(message),
        }
    }
}

impl From<&astrixd_request::Payload> for AstrixdPayloadOps {
    fn from(payload: &astrixd_request::Payload) -> (r: Self)
        ensures
            r == request_op(*payload),
    {
        Self::from_request_payload(payload)
    }
}

impl vstd::std_specs::convert::FromSpecImpl<&astrixd_request::Payload> for AstrixdPayloadOps {
    open spec fn obeys_from_spec() -> bool {
        true
    }

    open spec fn from_spec(payload: &astrixd_request::Payload) -> Self {
        request_op(*payload)
    }
}

/// Whether `response` is the "method not implemented" answer to `request`: same id, and a
/// response for the request's operation that reports that error.
pub open spec fn is_not_implemented_answer(request: AstrixdRequest, response: AstrixdResponse) -> bool {
    &&& response.id == request.id
    &&& request.payload matches Some(p)
    &&& response.payload matches Some(q)
    &&& response_code(q) == Some(request_code(p))
    &&& response_error(q) matches Some(e)
    &&& e.message@ == server_error_text(GrpcServerError::MethodNotImplemented)
}

/// Whether `r` is what the "not implemented" fallback answers to `request`: an invalid-payload
/// error for a request without a payload, and the "method not implemented" answer otherwise.
pub open spec fn is_not_implemented_result(
    request: AstrixdRequest,
    r: Result<AstrixdResponse, GrpcServerError>,
) -> bool {
    match request.payload {
        None => r == Err::<AstrixdResponse, GrpcServerError>(GrpcServerError::InvalidRequestPayload),
        Some(_) => r matches Ok(response) && is_not_implemented_answer(request, response),
    }
}

/// What the fallback method answers: for a request with a payload, a response with the same id
/// that reports "method not implemented" for the request's operation; for a request without
/// one, an invalid-payload error.
pub fn not_implemented_response(request: &AstrixdRequest) -> (r: Result<AstrixdResponse, GrpcServerError>)
    ensures
        is_not_implemented_result(*request, r),
{
    match &request.payload {
        Some(payload) => {
            let op = AstrixdPayloadOps::from_request_payload(payload);
            let error = GrpcServerError::MethodNotImplemented.to_rpc_error();
            Ok(AstrixdResponse { id: request.id, payload: Some(op.to_error_response(error)) })
        },
        None => Err(GrpcServerError::InvalidRequestPayload),
    }
}

/// A method implementation with its execution properties: the number of tasks serving it,
/// the size of its request queue, and how requests are routed to it.
pub struct Method<F, R> {
    pub method_fn: F,
    pub tasks: usize,
    pub queue_size: usize,
    pub routing_policy: R,
}

impl<F, R> Method<F, R> {
    /// The method implemented by `method_fn`, with the given execution properties.
    pub fn with_properties(method_fn: F, tasks: usize, queue_size: usize, routing_policy: R) -> (r:
        Self)
        ensures
            r == (Method { method_fn, tasks, queue_size, routing_policy }),
    {
        Method { method_fn, tasks, queue_size, routing_policy }
    }

    /// The implementation of the method.
    pub fn method_fn(&self) -> (r: &F)
        ensures
            *r == self.method_fn,
    {
        &self.method_fn
    }
}

/// No operation occurs twice among `entries`.
pub open spec fn ops_distinct<M>(entries: Seq<(AstrixdPayloadOps, M)>) -> bool {
    forall|i: int, j: int|
        0 <= i < entries.len() && 0 <= j < entries.len() && i != j ==> entries[i].0 != entries[j].0
}

/// The map from operation to method that `entries` describes.
pub open spec fn ops_view<M>(entries: Seq<(AstrixdPayloadOps, M)>) -> Map<AstrixdPayloadOps, M> {
    Map::new(
        |op: AstrixdPayloadOps| exists|i: int| 0 <= i < entries.len() && entries[i].0 == op,
        |op: AstrixdPayloadOps| entries[choose|i: int| 0 <= i < entries.len() && entries[i].0 == op].1,
    )
}

/// With distinct operations, the entry at `k` is what the map holds for its operation.
proof fn lemma_op_entry_in_view<M>(entries: Seq<(AstrixdPayloadOps, M)>, k: int)
    requires
        ops_distinct(entries),
        0 <= k < entries.len(),
    ensures
        ops_view(entries).dom().contains(entries[k].0),
        ops_view(entries)[entries[k].0] == entries[k].1,
{
    let op = entries[k].0;
    assert(ops_view(entries).dom().contains(op));
    let j = choose|j: int| 0 <= j < entries.len() && entries[j].0 == op;
    assert(j == k);
}

/// Setting the entry at `k` to one with the same operation keeps the operations distinct and
/// sets the map at that operation.
proof fn lemma_op_entry_update<M>(entries: Seq<(AstrixdPayloadOps, M)>, k: int, entry: (
    AstrixdPayloadOps,
    M,
))
    requires
        ops_distinct(entries),
        0 <= k < entries.len(),
        entries[k].0 == entry.0,
    ensures
        ops_distinct(entries.update(k, entry)),
        ops_view(entries.update(k, entry)) == ops_view(entries).insert(entry.0, entry.1),
{
    let new_entries = entries.update(k, entry);
    let op = entry.0;
    assert(new_entries[k] == entry);
    assert(forall|j: int| 0 <= j < new_entries.len() && j != k ==> new_entries[j] == entries[j]);
    assert(ops_distinct(new_entries));
    lemma_op_entry_in_view(new_entries, k);
    assert forall|g: AstrixdPayloadOps|
        g != op implies ops_view(new_entries).dom().contains(g) == ops_view(
        entries,
    ).dom().contains(g) && (ops_view(new_entries).dom().contains(g) ==> ops_view(new_entries)[g]
        == ops_view(entries)[g]) by {
        if ops_view(entries).dom().contains(g) {
            let j = choose|j: int| 0 <= j < entries.len() && entries[j].0 == g;
            lemma_op_entry_in_view(entries, j);
            assert(new_entries[j] == entries[j]);
            lemma_op_entry_in_view(new_entries, j);
        }
        if ops_view(new_entries).dom().contains(g) {
            let j = choose|j: int| 0 <= j < new_entries.len() && new_entries[j].0 == g;
            assert(j != k);
            assert(entries[j].0 == g);
        }
    }
    assert(ops_view(new_entries) =~= ops_view(entries).insert(op, entry.1));
}

/// The method that serves an operation: the one declared for it, or the built-in fallback,
/// which answers every request with `not_implemented_response`.
pub enum ServingMethod<'a, F, R> {
    Declared(&'a Method<F, R>),
    NotImplemented,
}

impl<'a, F, R> ServingMethod<'a, F, R> {
    /// What the built-in fallback answers to `request`; `None` for a declared method, which
    /// answers by its own implementation.
    pub fn fallback_answer(&self, request: &AstrixdRequest) -> (r: Option<
        Result<AstrixdResponse, GrpcServerError>,
    >)
        ensures
            (self is NotImplemented) <==> r is Some,
            r matches Some(answer) ==> is_not_implemented_result(*request, answer),
    {
        match self {
            ServingMethod::Declared(_) => None,
            ServingMethod::NotImplemented => Some(not_implemented_response(request)),
        }
    }
}

/// Method implementations by operation; an operation without one is served by the built-in
/// "not implemented" fallback. The server context is handed to every call.
pub struct Interface<C, F, R> {
    server_ctx: C,
    methods: Vec<(AstrixdPayloadOps, Method<F, R>)>,
}

impl<C, F, R> Interface<C, F, R> {
    /// No operation has two methods.
    #[verifier::type_invariant]
    closed spec fn wf(self) -> bool {
        ops_distinct(self.methods@)
    }

    /// The registered methods.
    pub closed spec fn methods(&self) -> Map<AstrixdPayloadOps, Method<F, R>> {
        ops_view(self.methods@)
    }

    /// The context handed to every call.
    pub closed spec fn context(&self) -> C {
        self.server_ctx
    }

    /// The declared method that serves `op`; `None` when the built-in "not implemented"
    /// fallback serves it.
    pub open spec fn method_for(&self, op: AstrixdPayloadOps) -> Option<Method<F, R>> {
        if self.methods().dom().contains(op) {
            Some(self.methods()[op])
        } else {
            None
        }
    }

    /// An interface with the given context and no declared methods, so that the built-in
    /// "not implemented" fallback serves every operation.
    pub fn new(server_ctx: C) -> (r: Self)
        ensures
            r.methods() == Map::<AstrixdPayloadOps, Method<F, R>>::empty(),
            r.context() == server_ctx,
    {
        let r = Interface { server_ctx, methods: Vec::new() };
        assert(r.methods() =~= Map::<AstrixdPayloadOps, Method<F, R>>::empty());
        r
    }

    /// The context handed to every call.
    pub fn server_ctx(&self) -> (r: &C)
        ensures
            *r == self.context(),
    {
        &self.server_ctx
    }

    /// Index of the entry for `op`, if there is one.
    fn find(&self, op: AstrixdPayloadOps) -> (r: Option<usize>)
        ensures
            r is None <==> !self.methods().dom().contains(op),
            r matches Some(i) ==> i < self.methods@.len() && self.methods@[i as int].0 == op
                && self.methods()[op] == self.methods@[i as int].1,
    {
        proof {
            use_type_invariant(self);
        }
        let mut i: usize = 0;
        while i < self.methods.len()
            invariant
                i <= self.methods@.len(),
                ops_distinct(self.methods@),
                forall|j: int| 0 <= j < i ==> self.methods@[j].0 != op,
            decreases self.methods@.len() - i,
        {
            if self.methods[i].0 == op {
                proof {
                    lemma_op_entry_in_view(self.methods@, i as int);
                }
                return Some(i);
            }
            i = i + 1;
        }
        None
    }

    /// Sets the method of `op`, replacing any method it had.
    fn put(&mut self, op: AstrixdPayloadOps, method: Method<F, R>)
        ensures
            final(self).methods() == old(self).methods().insert(op, method),
            final(self).context() == old(self).context(),
    {
        proof {
            use_type_invariant(&*self);
        }
        let ghost old_entries = self.methods@;
        let found = self.find(op);
        let mut entries: Vec<(AstrixdPayloadOps, Method<F, R>)> = Vec::new();
        std::mem::swap(&mut entries, &mut self.methods);
        let ghost n = old_entries.len() as int;
        let ghost idx: int;
        match found {
            Some(i) => {
                entries.set(i, (op, method));
                proof {
                    idx = i as int;
                }
            },
            None => {
                entries.push((op, method));
                proof {
                    idx = n;
                }
            },
        }
        let ghost new_entries = entries@;
        proof {
            assert(forall|k: int|
                0 <= k < new_entries.len() && k != idx ==> new_entries[k] == old_entries[k]);
            assert(forall|k: int| 0 <= k < new_entries.len() && k != idx ==> old_entries[k].0 != op);
            assert(ops_distinct(new_entries));
            lemma_op_entry_in_view(new_entries, idx);
            assert forall|g: AstrixdPayloadOps|
                g != op implies ops_view(new_entries).dom().contains(g) == old(
                self,
            ).methods().dom().contains(g) && (ops_view(new_entries).dom().contains(g)
                ==> ops_view(new_entries)[g] == old(self).methods()[g]) by {
                if old(self).methods().dom().contains(g) {
                    let k = choose|k: int| 0 <= k < old_entries.len() && old_entries[k].0 == g;
                    lemma_op_entry_in_view(old_entries, k);
                    assert(new_entries[k] == old_entries[k]);
                    lemma_op_entry_in_view(new_entries, k);
                }
                if ops_view(new_entries).dom().contains(g) {
                    let k = choose|k: int| 0 <= k < new_entries.len() && new_entries[k].0 == g;
                    assert(k != idx);
                    assert(old_entries[k].0 == g);
                }
            }
            assert(ops_view(new_entries) =~= old(self).methods().insert(op, new_entries[idx].1));
        }
        self.methods = entries;
    }

    /// Declares the method of `op`, which must not have one yet.
    pub fn method(&mut self, op: AstrixdPayloadOps, method: Method<F, R>)
        requires
            !old(self).methods().dom().contains(op),
        ensures
            final(self).methods() == old(self).methods().insert(op, method),
            final(self).context() == old(self).context(),
    {
        self.put(op, method);
    }

    /// Sets the method of `op`, replacing any method it had.
    pub fn replace_method(&mut self, op: AstrixdPayloadOps, method: Method<F, R>)
        ensures
            final(self).methods() == old(self).methods().insert(op, method),
            final(self).context() == old(self).context(),
    {
        self.put(op, method);
    }

    /// Rebuilds the method of `op`, if it has one, with its implementation and the given
    /// execution properties; the other methods stay as they are.
    pub fn set_method_properties(
        &mut self,
        op: AstrixdPayloadOps,
        tasks: usize,
        queue_size: usize,
        routing_policy: R,
    )
        ensures
            old(self).methods().dom().contains(op) ==> final(self).methods() == old(
                self,
            ).methods().insert(
                op,
                (Method {
                    method_fn: old(self).methods()[op].method_fn,
                    tasks,
                    queue_size,
                    routing_policy,
                }),
            ),
            !old(self).methods().dom().contains(op) ==> final(self).methods() == old(self).methods(),
            final(self).context() == old(self).context(),
    {
        proof {
            use_type_invariant(&*self);
        }
        match self.find(op) {
            Some(i) => {
                let ghost old_entries = self.methods@;
                let mut entries: Vec<(AstrixdPayloadOps, Method<F, R>)> = Vec::new();
                std::mem::swap(&mut entries, &mut self.methods);
                let (entry_op, method) = entries.remove(i);
                let rebuilt = Method::with_properties(
                    method.method_fn,
                    tasks,
                    queue_size,
                    routing_policy,
                );
                entries.insert(i, (entry_op, rebuilt));
                proof {
                    let entry = (op, Method {
                        method_fn: old_entries[i as int].1.method_fn,
                        tasks,
                        queue_size,
                        routing_policy,
                    });
                    assert(entries@ =~= old_entries.update(i as int, entry));
                    lemma_op_entry_update(old_entries, i as int, entry);
                }
                self.methods = entries;
            },
            None => {},
        }
    }

    /// The method that serves `op`: its declared one, or the built-in fallback.
    pub fn get_method(&self, op: &AstrixdPayloadOps) -> (r: ServingMethod<'_, F, R>)
        ensures
            self.methods().dom().contains(*op) ==> (r matches ServingMethod::Declared(m) && *m
                == self.methods()[*op]),
            !self.methods().dom().contains(*op) ==> r is NotImplemented,
    {
        match self.find(*op) {
            Some(i) => ServingMethod::Declared(&self.methods[i].1),
            None => ServingMethod::NotImplemented,
        }
    }
}

/// A method declared or replaced for an operation is the one that serves it.
pub proof fn lemma_declared_method_serves<C, F, R>(
    before: Interface<C, F, R>,
    after: Interface<C, F, R>,
    op: AstrixdPayloadOps,
    method: Method<F, R>,
)
    requires
        after.methods() == before.methods().insert(op, method),
    ensures
        after.method_for(op) == Some(method),
        forall|other: AstrixdPayloadOps|
            other != op ==> after.method_for(other) == #[trigger] before.method_for(other),
{
}

} // verus!
