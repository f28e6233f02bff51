//! Kinds of the messages that peers exchange.
use vstd::prelude::*;

verus! {

/// Number of message kinds; their wire codes are `0` to one less than this.
pub const PAYLOAD_TYPE_COUNT: u8 = 43;

/// The kind of a peer-to-peer message; its wire code is its position in this list, from zero.
#[derive(Debug, Copy, Clone, Eq, Hash, PartialEq, Structural)]
pub enum AstrixdMessagePayloadType {
    Addresses,
    Block,
    Transaction,
    BlockLocator,
    RequestAddresses,
    RequestRelayBlocks,
    RequestTransactions,
    IbdBlock,
    InvRelayBlock,
    InvTransactions,
    Ping,
    Pong,
    Verack,
    Version,
    TransactionNotFound,
    Reject,
    PruningPointUtxoSetChunk,
    RequestIbdBlocks,
    UnexpectedPruningPoint,
    IbdBlockLocator,
    IbdBlockLocatorHighestHash,
    RequestNextPruningPointUtxoSetChunk,
    DonePruningPointUtxoSetChunks,
    IbdBlockLocatorHighestHashNotFound,
    BlockWithTrustedData,
    DoneBlocksWithTrustedData,
    RequestPruningPointAndItsAnticone,
    BlockHeaders,
    RequestNextHeaders,
    DoneHeaders,
    RequestPruningPointUtxoSet,
    RequestHeaders,
    RequestBlockLocator,
    PruningPoints,
    RequestPruningPointProof,
    PruningPointProof,
    Ready,
    BlockWithTrustedDataV4,
    TrustedData,
    RequestIbdChainBlockLocator,
    IbdChainBlockLocator,
    RequestAntipast,
    RequestNextPruningPointAndItsAnticoneBlocks,
}

/// A peer-to-peer message: its kind, and its encoded body.
#[derive(Debug, Clone, PartialEq, Eq)]
pub enum AstrixdMessagePayload {
    Addresses(Vec<u8>),
    Block(Vec<u8>),
    Transaction(Vec<u8>),
    BlockLocator(Vec<u8>),
    RequestAddresses(Vec<u8>),
    RequestRelayBlocks(Vec<u8>),
    RequestTransactions(Vec<u8>),
    IbdBlock(Vec<u8>),
    InvRelayBlock(Vec<u8>),
    InvTransactions(Vec<u8>),
    Ping(Vec<u8>),
    Pong(Vec<u8>),
    Verack(Vec<u8>),
    Version(Vec<u8>),
    TransactionNotFound(Vec<u8>),
    Reject(Vec<u8>),
    PruningPointUtxoSetChunk(Vec<u8>),
    RequestIbdBlocks(Vec<u8>),
    UnexpectedPruningPoint(Vec<u8>),
    IbdBlockLocator(Vec<u8>),
    IbdBlockLocatorHighestHash(Vec<u8>),
    RequestNextPruningPointUtxoSetChunk(Vec<u8>),
    DonePruningPointUtxoSetChunks(Vec<u8>),
    IbdBlockLocatorHighestHashNotFound(Vec<u8>),
    BlockWithTrustedData(Vec<u8>),
    DoneBlocksWithTrustedData(Vec<u8>),
    RequestPruningPointAndItsAnticone(Vec<u8>),
    BlockHeaders(Vec<u8>),
    RequestNextHeaders(Vec<u8>),
    DoneHeaders(Vec<u8>),
    RequestPruningPointUtxoSet(Vec<u8>),
    RequestHeaders(Vec<u8>),
    RequestBlockLocator(Vec<u8>),
    PruningPoints(Vec<u8>),
    RequestPruningPointProof(Vec<u8>),
    PruningPointProof(Vec<u8>),
    Ready(Vec<u8>),
    BlockWithTrustedDataV4(Vec<u8>),
    TrustedData(Vec<u8>),
    RequestIbdChainBlockLocator(Vec<u8>),
    IbdChainBlockLocator(Vec<u8>),
    RequestAntipast(Vec<u8>),
    RequestNextPruningPointAndItsAnticoneBlocks(Vec<u8>),
}

/// The wire code of a message kind.
pub open spec fn payload_type_code(t: AstrixdMessagePayloadType) -> u8 {
    match t {
        AstrixdMessagePayloadType::Addresses => 0,
        AstrixdMessagePayloadType::Block => 1,
        AstrixdMessagePayloadType::Transaction => 2,
        AstrixdMessagePayloadType::BlockLocator => 3,
        AstrixdMessagePayloadType::RequestAddresses => 4,
        AstrixdMessagePayloadType::RequestRelayBlocks => 5,
        AstrixdMessagePayloadType::RequestTransactions => 6,
        AstrixdMessagePayloadType::IbdBlock => 7,
        AstrixdMessagePayloadType::InvRelayBlock => 8,
        AstrixdMessagePayloadType::InvTransactions => 9,
        AstrixdMessagePayloadType::Ping => 10,
        AstrixdMessagePayloadType::Pong => 11,
        AstrixdMessagePayloadType::Verack => 12,
        AstrixdMessagePayloadType::Version => 13,
        AstrixdMessagePayloadType::TransactionNotFound => 14,
        AstrixdMessagePayloadType::Reject => 15,
        AstrixdMessagePayloadType::PruningPointUtxoSetChunk => 16,
        AstrixdMessagePayloadType::RequestIbdBlocks => 17,
        AstrixdMessagePayloadType::UnexpectedPruningPoint => 18,
        AstrixdMessagePayloadType::IbdBlockLocator => 19,
        AstrixdMessagePayloadType::IbdBlockLocatorHighestHash => 20,
        AstrixdMessagePayloadType::RequestNextPruningPointUtxoSetChunk => 21,
        AstrixdMessagePayloadType::DonePruningPointUtxoSetChunks => 22,
        AstrixdMessagePayloadType::IbdBlockLocatorHighestHashNotFound => 23,
        AstrixdMessagePayloadType::BlockWithTrustedData => 24,
        AstrixdMessagePayloadType::DoneBlocksWithTrustedData => 25,
        AstrixdMessagePayloadType::RequestPruningPointAndItsAnticone => 26,
        AstrixdMessagePayloadType::BlockHeaders => 27,
        AstrixdMessagePayloadType::RequestNextHeaders => 28,
        AstrixdMessagePayloadType::DoneHeaders => 29,
        AstrixdMessagePayloadType::RequestPruningPointUtxoSet => 30,
        AstrixdMessagePayloadType::RequestHeaders => 31,
        AstrixdMessagePayloadType::RequestBlockLocator => 32,
        AstrixdMessagePayloadType::PruningPoints => 33,
        AstrixdMessagePayloadType::RequestPruningPointProof => 34,
        AstrixdMessagePayloadType::PruningPointProof => 35,
        AstrixdMessagePayloadType::Ready => 36,
        AstrixdMessagePayloadType::BlockWithTrustedDataV4 => 37,
        AstrixdMessagePayloadType::TrustedData => 38,
        AstrixdMessagePayloadType::RequestIbdChainBlockLocator => 39,
        AstrixdMessagePayloadType::IbdChainBlockLocator => 40,
        AstrixdMessagePayloadType::RequestAntipast => 41,
        AstrixdMessagePayloadType::RequestNextPruningPointAndItsAnticoneBlocks => 42,
    }
}

/// The wire code of the kind of a message.
pub open spec fn payload_code(p: AstrixdMessagePayload) -> u8 {
    match p {
        AstrixdMessagePayload::Addresses(_) => 0,
        AstrixdMessagePayload::Block(_) => 1,
        AstrixdMessagePayload::Transaction(_) => 2,
        AstrixdMessagePayload::BlockLocator(_) => 3,
        AstrixdMessagePayload::RequestAddresses(_) => 4,
        AstrixdMessagePayload::RequestRelayBlocks(_) => 5,
        AstrixdMessagePayload::RequestTransactions(_) => 6,
        AstrixdMessagePayload::IbdBlock(_) => 7,
        AstrixdMessagePayload::InvRelayBlock(_) => 8,
        AstrixdMessagePayload::InvTransactions(_) => 9,
        AstrixdMessagePayload::Ping(_) => 10,
        AstrixdMessagePayload::Pong(_) => 11,
        AstrixdMessagePayload::Verack(_) => 12,
        AstrixdMessagePayload::Version(_) => 13,
        AstrixdMessagePayload::TransactionNotFound(_) => 14,
        AstrixdMessagePayload::Reject(_) => 15,
        AstrixdMessagePayload::PruningPointUtxoSetChunk(_) => 16,
        AstrixdMessagePayload::RequestIbdBlocks(_) => 17,
        AstrixdMessagePayload::UnexpectedPruningPoint(_) => 18,
        AstrixdMessagePayload::IbdBlockLocator(_) => 19,
        AstrixdMessagePayload::IbdBlockLocatorHighestHash(_) => 20,
        AstrixdMessagePayload::RequestNextPruningPointUtxoSetChunk(_) => 21,
        AstrixdMessagePayload::DonePruningPointUtxoSetChunks(_) => 22,
        AstrixdMessagePayload::IbdBlockLocatorHighestHashNotFound(_) => 23,
        AstrixdMessagePayload::BlockWithTrustedData(_) => 24,
        AstrixdMessagePayload::DoneBlocksWithTrustedData(_) => 25,
        AstrixdMessagePayload::RequestPruningPointAndItsAnticone(_) => 26,
        AstrixdMessagePayload::BlockHeaders(_) => 27,
        AstrixdMessagePayload::RequestNextHeaders(_) => 28,
        AstrixdMessagePayload::DoneHeaders(_) => 29,
        AstrixdMessagePayload::RequestPruningPointUtxoSet(_) => 30,
        AstrixdMessagePayload::RequestHeaders(_) => 31,
        AstrixdMessagePayload::RequestBlockLocator(_) => 32,
        AstrixdMessagePayload::PruningPoints(_) => 33,
        AstrixdMessagePayload::RequestPruningPointProof(_) => 34,
        AstrixdMessagePayload::PruningPointProof(_) => 35,
        AstrixdMessagePayload::Ready(_) => 36,
        AstrixdMessagePayload::BlockWithTrustedDataV4(_) => 37,
        AstrixdMessagePayload::TrustedData(_) => 38,
        AstrixdMessagePayload::RequestIbdChainBlockLocator(_) => 39,
        AstrixdMessagePayload::IbdChainBlockLocator(_) => 40,
        AstrixdMessagePayload::RequestAntipast(_) => 41,
        AstrixdMessagePayload::RequestNextPruningPointAndItsAnticoneBlocks(_) => 42,
    }
}

/// The kind of a message.
pub open spec fn payload_kind(p: AstrixdMessagePayload) -> AstrixdMessagePayloadType {
    match p {
        AstrixdMessagePayload::Addresses(_) => AstrixdMessagePayloadType::Addresses,
        AstrixdMessagePayload::Block(_) => AstrixdMessagePayloadType::Block,
        AstrixdMessagePayload::Transaction(_) => AstrixdMessagePayloadType::Transaction,
        AstrixdMessagePayload::BlockLocator(_) => AstrixdMessagePayloadType::BlockLocator,
        AstrixdMessagePayload::RequestAddresses(_) => AstrixdMessagePayloadType::RequestAddresses,
        AstrixdMessagePayload::RequestRelayBlocks(_) => AstrixdMessagePayloadType::RequestRelayBlocks,
        AstrixdMessagePayload::RequestTransactions(_) => AstrixdMessagePayloadType::RequestTransactions,
        AstrixdMessagePayload::IbdBlock(_) => AstrixdMessagePayloadType::IbdBlock,
        AstrixdMessagePayload::InvRelayBlock(_) => AstrixdMessagePayloadType::InvRelayBlock,
        AstrixdMessagePayload::InvTransactions(_) => AstrixdMessagePayloadType::InvTransactions,
        AstrixdMessagePayload::Ping(_) => AstrixdMessagePayloadType::Ping,
        AstrixdMessagePayload::Pong(_) => AstrixdMessagePayloadType::Pong,
        AstrixdMessagePayload::Verack(_) => AstrixdMessagePayloadType::Verack,
        AstrixdMessagePayload::Version(_) => AstrixdMessagePayloadType::Version,
        AstrixdMessagePayload::TransactionNotFound(_) => AstrixdMessagePayloadType::TransactionNotFound,
        AstrixdMessagePayload::Reject(_) => AstrixdMessagePayloadType::Reject,
        AstrixdMessagePayload::PruningPointUtxoSetChunk(_) => AstrixdMessagePayloadType::PruningPointUtxoSetChunk,
        AstrixdMessagePayload::RequestIbdBlocks(_) => AstrixdMessagePayloadType::RequestIbdBlocks,
        AstrixdMessagePayload::UnexpectedPruningPoint(_) => AstrixdMessagePayloadType::UnexpectedPruningPoint,
        AstrixdMessagePayload::IbdBlockLocator(_) => AstrixdMessagePayloadType::IbdBlockLocator,
        AstrixdMessagePayload::IbdBlockLocatorHighestHash(_) => AstrixdMessagePayloadType::IbdBlockLocatorHighestHash,
        AstrixdMessagePayload::RequestNextPruningPointUtxoSetChunk(_) => AstrixdMessagePayloadType::RequestNextPruningPointUtxoSetChunk,
        AstrixdMessagePayload::DonePruningPointUtxoSetChunks(_) => AstrixdMessagePayloadType::DonePruningPointUtxoSetChunks,
        AstrixdMessagePayload::IbdBlockLocatorHighestHashNotFound(_) => AstrixdMessagePayloadType::IbdBlockLocatorHighestHashNotFound,
        AstrixdMessagePayload::BlockWithTrustedData(_) => AstrixdMessagePayloadType::BlockWithTrustedData,
        AstrixdMessagePayload::DoneBlocksWithTrustedData(_) => AstrixdMessagePayloadType::DoneBlocksWithTrustedData,
        AstrixdMessagePayload::RequestPruningPointAndItsAnticone(_) => AstrixdMessagePayloadType::RequestPruningPointAndItsAnticone,
        AstrixdMessagePayload::BlockHeaders(_) => AstrixdMessagePayloadType::BlockHeaders,
        AstrixdMessagePayload::RequestNextHeaders(_) => AstrixdMessagePayloadType::RequestNextHeaders,
        AstrixdMessagePayload::DoneHeaders(_) => AstrixdMessagePayloadType::DoneHeaders,
        AstrixdMessagePayload::RequestPruningPointUtxoSet(_) => AstrixdMessagePayloadType::RequestPruningPointUtxoSet,
        AstrixdMessagePayload::RequestHeaders(_) => AstrixdMessagePayloadType::RequestHeaders,
        AstrixdMessagePayload::RequestBlockLocator(_) => AstrixdMessagePayloadType::RequestBlockLocator,
        AstrixdMessagePayload::PruningPoints(_) => AstrixdMessagePayloadType::PruningPoints,
        AstrixdMessagePayload::RequestPruningPointProof(_) => AstrixdMessagePayloadType::RequestPruningPointProof,
        AstrixdMessagePayload::PruningPointProof(_) => AstrixdMessagePayloadType::PruningPointProof,
        AstrixdMessagePayload::Ready(_) => AstrixdMessagePayloadType::Ready,
        AstrixdMessagePayload::BlockWithTrustedDataV4(_) => AstrixdMessagePayloadType::BlockWithTrustedDataV4,
        AstrixdMessagePayload::TrustedData(_) => AstrixdMessagePayloadType::TrustedData,
        AstrixdMessagePayload::RequestIbdChainBlockLocator(_) => AstrixdMessagePayloadType::RequestIbdChainBlockLocator,
        AstrixdMessagePayload::IbdChainBlockLocator(_) => AstrixdMessagePayloadType::IbdChainBlockLocator,
        AstrixdMessagePayload::RequestAntipast(_) => AstrixdMessagePayloadType::RequestAntipast,
        AstrixdMessagePayload::RequestNextPruningPointAndItsAnticoneBlocks(_) => AstrixdMessagePayloadType::RequestNextPruningPointAndItsAnticoneBlocks,
    }
}

/// Message kinds with the same wire code are the same kind.
pub proof fn lemma_payload_type_code_injective(a: AstrixdMessagePayloadType, b: AstrixdMessagePayloadType)
    requires
        payload_type_code(a) == payload_type_code(b),
    ensures
        a == b,
{
}

/// Every message kind has a wire code below `PAYLOAD_TYPE_COUNT`, and every kind is the kind of
/// some message.
pub proof fn lemma_payload_type_codes(t: AstrixdMessagePayloadType)
    ensures
        payload_type_code(t) < PAYLOAD_TYPE_COUNT,
        exists|p: AstrixdMessagePayload| #[trigger] payload_code(p) == payload_type_code(t),
{
    let body: Vec<u8> = arbitrary();
    let p = match t {
        AstrixdMessagePayloadType::Addresses => AstrixdMessagePayload::Addresses(body),
        AstrixdMessagePayloadType::Block => AstrixdMessagePayload::Block(body),
        AstrixdMessagePayloadType::Transaction => AstrixdMessagePayload::Transaction(body),
        AstrixdMessagePayloadType::BlockLocator => AstrixdMessagePayload::BlockLocator(body),
        AstrixdMessagePayloadType::RequestAddresses => AstrixdMessagePayload::RequestAddresses(body),
        AstrixdMessagePayloadType::RequestRelayBlocks => AstrixdMessagePayload::RequestRelayBlocks(body),
        AstrixdMessagePayloadType::RequestTransactions => AstrixdMessagePayload::RequestTransactions(body),
        AstrixdMessagePayloadType::IbdBlock => AstrixdMessagePayload::IbdBlock(body),
        AstrixdMessagePayloadType::InvRelayBlock => AstrixdMessagePayload::InvRelayBlock(body),
        AstrixdMessagePayloadType::InvTransactions => AstrixdMessagePayload::InvTransactions(body),
        AstrixdMessagePayloadType::Ping => AstrixdMessagePayload::Ping(body),
        AstrixdMessagePayloadType::Pong => AstrixdMessagePayload::Pong(body),
        AstrixdMessagePayloadType::Verack => AstrixdMessagePayload::Verack(body),
        AstrixdMessagePayloadType::Version => AstrixdMessagePayload::Version(body),
        AstrixdMessagePayloadType::TransactionNotFound => AstrixdMessagePayload::TransactionNotFound(body),
        AstrixdMessagePayloadType::Reject => AstrixdMessagePayload::Reject(body),
        AstrixdMessagePayloadType::PruningPointUtxoSetChunk => AstrixdMessagePayload::PruningPointUtxoSetChunk(body),
        AstrixdMessagePayloadType::RequestIbdBlocks => AstrixdMessagePayload::RequestIbdBlocks(body),
        AstrixdMessagePayloadType::UnexpectedPruningPoint => AstrixdMessagePayload::UnexpectedPruningPoint(body),
        AstrixdMessagePayloadType::IbdBlockLocator => AstrixdMessagePayload::IbdBlockLocator(body),
        AstrixdMessagePayloadType::IbdBlockLocatorHighestHash => AstrixdMessagePayload::IbdBlockLocatorHighestHash(body),
        AstrixdMessagePayloadType::RequestNextPruningPointUtxoSetChunk => AstrixdMessagePayload::RequestNextPruningPointUtxoSetChunk(body),
        AstrixdMessagePayloadType::DonePruningPointUtxoSetChunks => AstrixdMessagePayload::DonePruningPointUtxoSetChunks(body),
        AstrixdMessagePayloadType::IbdBlockLocatorHighestHashNotFound => AstrixdMessagePayload::IbdBlockLocatorHighestHashNotFound(body),
        AstrixdMessagePayloadType::BlockWithTrustedData => AstrixdMessagePayload::BlockWithTrustedData(body),
        AstrixdMessagePayloadType::DoneBlocksWithTrustedData => AstrixdMessagePayload::DoneBlocksWithTrustedData(body),
        AstrixdMessagePayloadType::RequestPruningPointAndItsAnticone => AstrixdMessagePayload::RequestPruningPointAndItsAnticone(body),
        AstrixdMessagePayloadType::BlockHeaders => AstrixdMessagePayload::BlockHeaders(body),
        AstrixdMessagePayloadType::RequestNextHeaders => AstrixdMessagePayload::RequestNextHeaders(body),
        AstrixdMessagePayloadType::DoneHeaders => AstrixdMessagePayload::DoneHeaders(body),
        AstrixdMessagePayloadType::RequestPruningPointUtxoSet => AstrixdMessagePayload::RequestPruningPointUtxoSet(body),
        AstrixdMessagePayloadType::RequestHeaders => AstrixdMessagePayload::RequestHeaders(body),
        AstrixdMessagePayloadType::RequestBlockLocator => AstrixdMessagePayload::RequestBlockLocator(body),
        AstrixdMessagePayloadType::PruningPoints => AstrixdMessagePayload::PruningPoints(body),
        AstrixdMessagePayloadType::RequestPruningPointProof => AstrixdMessagePayload::RequestPruningPointProof(body),
        AstrixdMessagePayloadType::PruningPointProof => AstrixdMessagePayload::PruningPointProof(body),
        AstrixdMessagePayloadType::Ready => AstrixdMessagePayload::Ready(body),
        AstrixdMessagePayloadType::BlockWithTrustedDataV4 => AstrixdMessagePayload::BlockWithTrustedDataV4(body),
        AstrixdMessagePayloadType::TrustedData => AstrixdMessagePayload::TrustedData(body),
        AstrixdMessagePayloadType::RequestIbdChainBlockLocator => AstrixdMessagePayload::RequestIbdChainBlockLocator(body),
        AstrixdMessagePayloadType::IbdChainBlockLocator => AstrixdMessagePayload::IbdChainBlockLocator(body),
        AstrixdMessagePayloadType::RequestAntipast => AstrixdMessagePayload::RequestAntipast(body),
        AstrixdMessagePayloadType::RequestNextPruningPointAndItsAnticoneBlocks => AstrixdMessagePayload::RequestNextPruningPointAndItsAnticoneBlocks(body),
    };
    assert(payload_code(p) == payload_type_code(t));
}

/// Every message has a kind whose wire code is below `PAYLOAD_TYPE_COUNT`.
pub proof fn lemma_payload_codes_bounded(p: AstrixdMessagePayload)
    ensures
        payload_code(p) < PAYLOAD_TYPE_COUNT,
{
}

impl AstrixdMessagePayloadType {
    /// The wire code of the kind.
    pub fn as_u8(&self) -> (r: u8)
        ensures
            r == payload_type_code(*self),
    {
        match self {
            AstrixdMessagePayloadType::Addresses => 0,
            AstrixdMessagePayloadType::Block => 1,
            AstrixdMessagePayloadType::Transaction => 2,
            AstrixdMessagePayloadType::BlockLocator => 3,
            AstrixdMessagePayloadType::RequestAddresses => 4,
            AstrixdMessagePayloadType::RequestRelayBlocks => 5,
            AstrixdMessagePayloadType::RequestTransactions => 6,
            AstrixdMessagePayloadType::IbdBlock => 7,
            AstrixdMessagePayloadType::InvRelayBlock => 8,
            AstrixdMessagePayloadType::InvTransactions => 9,
            AstrixdMessagePayloadType::Ping => 10,
            AstrixdMessagePayloadType::Pong => 11,
            AstrixdMessagePayloadType::Verack => 12,
            AstrixdMessagePayloadType::Version => 13,
            AstrixdMessagePayloadType::TransactionNotFound => 14,
            AstrixdMessagePayloadType::Reject => 15,
            AstrixdMessagePayloadType::PruningPointUtxoSetChunk => 16,
            AstrixdMessagePayloadType::RequestIbdBlocks => 17,
            AstrixdMessagePayloadType::UnexpectedPruningPoint => 18,
            AstrixdMessagePayloadType::IbdBlockLocator => 19,
            AstrixdMessagePayloadType::IbdBlockLocatorHighestHash => 20,
            AstrixdMessagePayloadType::RequestNextPruningPointUtxoSetChunk => 21,
            AstrixdMessagePayloadType::DonePruningPointUtxoSetChunks => 22,
            AstrixdMessagePayloadType::IbdBlockLocatorHighestHashNotFound => 23,
            AstrixdMessagePayloadType::BlockWithTrustedData => 24,
            AstrixdMessagePayloadType::DoneBlocksWithTrustedData => 25,
            AstrixdMessagePayloadType::RequestPruningPointAndItsAnticone => 26,
            AstrixdMessagePayloadType::BlockHeaders => 27,
            AstrixdMessagePayloadType::RequestNextHeaders => 28,
            AstrixdMessagePayloadType::DoneHeaders => 29,
            AstrixdMessagePayloadType::RequestPruningPointUtxoSet => 30,
            AstrixdMessagePayloadType::RequestHeaders => 31,
            AstrixdMessagePayloadType::RequestBlockLocator => 32,
            AstrixdMessagePayloadType::PruningPoints => 33,
            AstrixdMessagePayloadType::RequestPruningPointProof => 34,
            AstrixdMessagePayloadType::PruningPointProof => 35,
            AstrixdMessagePayloadType::Ready => 36,
            AstrixdMessagePayloadType::BlockWithTrustedDataV4 => 37,
            AstrixdMessagePayloadType::TrustedData => 38,
            AstrixdMessagePayloadType::RequestIbdChainBlockLocator => 39,
            AstrixdMessagePayloadType::IbdChainBlockLocator => 40,
            AstrixdMessagePayloadType::RequestAntipast => 41,
            AstrixdMessagePayloadType::RequestNextPruningPointAndItsAnticoneBlocks => 42,
        }
    }

    /// The kind of a message.
    pub fn from_payload(payload: &AstrixdMessagePayload) -> (r: Self)
        ensures
            r == payload_kind(*payload),
            payload_type_code(r) == payload_code(*payload),
    {
        match payload {
            AstrixdMessagePayload::Addresses(_) => AstrixdMessagePayloadType::Addresses,
            AstrixdMessagePayload::Block(_) => AstrixdMessagePayloadType::Block,
            AstrixdMessagePayload::Transaction(_) => AstrixdMessagePayloadType::Transaction,
            AstrixdMessagePayload::BlockLocator(_) => AstrixdMessagePayloadType::BlockLocator,
            AstrixdMessagePayload::RequestAddresses(_) => AstrixdMessagePayloadType::RequestAddresses,
            AstrixdMessagePayload::RequestRelayBlocks(_) => AstrixdMessagePayloadType::RequestRelayBlocks,
            AstrixdMessagePayload::RequestTransactions(_) => AstrixdMessagePayloadType::RequestTransactions,
            AstrixdMessagePayload::IbdBlock(_) => AstrixdMessagePayloadType::IbdBlock,
            AstrixdMessagePayload::InvRelayBlock(_) => AstrixdMessagePayloadType::InvRelayBlock,
            AstrixdMessagePayload::InvTransactions(_) => AstrixdMessagePayloadType::InvTransactions,
            AstrixdMessagePayload::Ping(_) => AstrixdMessagePayloadType::Ping,
            AstrixdMessagePayload::Pong(_) => AstrixdMessagePayloadType::Pong,
            AstrixdMessagePayload::Verack(_) => AstrixdMessagePayloadType::Verack,
            AstrixdMessagePayload::Version(_) => AstrixdMessagePayloadType::Version,
            AstrixdMessagePayload::TransactionNotFound(_) => AstrixdMessagePayloadType::TransactionNotFound,
            AstrixdMessagePayload::Reject(_) => AstrixdMessagePayloadType::Reject,
            AstrixdMessagePayload::PruningPointUtxoSetChunk(_) => AstrixdMessagePayloadType::PruningPointUtxoSetChunk,
            AstrixdMessagePayload::RequestIbdBlocks(_) => AstrixdMessagePayloadType::RequestIbdBlocks,
            AstrixdMessagePayload::UnexpectedPruningPoint(_) => AstrixdMessagePayloadType::UnexpectedPruningPoint,
            AstrixdMessagePayload::IbdBlockLocator(_) => AstrixdMessagePayloadType::IbdBlockLocator,
            AstrixdMessagePayload::IbdBlockLocatorHighestHash(_) => AstrixdMessagePayloadType::IbdBlockLocatorHighestHash,
            AstrixdMessagePayload::RequestNextPruningPointUtxoSetChunk(_) => AstrixdMessagePayloadType::RequestNextPruningPointUtxoSetChunk,
            AstrixdMessagePayload::DonePruningPointUtxoSetChunks(_) => AstrixdMessagePayloadType::DonePruningPointUtxoSetChunks,
            AstrixdMessagePayload::IbdBlockLocatorHighestHashNotFound(_) => AstrixdMessagePayloadType::IbdBlockLocatorHighestHashNotFound,
            AstrixdMessagePayload::BlockWithTrustedData(_) => AstrixdMessagePayloadType::BlockWithTrustedData,
            AstrixdMessagePayload::DoneBlocksWithTrustedData(_) => AstrixdMessagePayloadType::DoneBlocksWithTrustedData,
            AstrixdMessagePayload::RequestPruningPointAndItsAnticone(_) => AstrixdMessagePayloadType::RequestPruningPointAndItsAnticone,
            AstrixdMessagePayload::BlockHeaders(_) => AstrixdMessagePayloadType::BlockHeaders,
            AstrixdMessagePayload::RequestNextHeaders(_) => AstrixdMessagePayloadType::RequestNextHeaders,
            AstrixdMessagePayload::DoneHeaders(_) => AstrixdMessagePayloadType::DoneHeaders,
            AstrixdMessagePayload::RequestPruningPointUtxoSet(_) => AstrixdMessagePayloadType::RequestPruningPointUtxoSet,
            AstrixdMessagePayload::RequestHeaders(_) => AstrixdMessagePayloadType::RequestHeaders,
            AstrixdMessagePayload::RequestBlockLocator(_) => AstrixdMessagePayloadType::RequestBlockLocator,
            AstrixdMessagePayload::PruningPoints(_) => AstrixdMessagePayloadType::PruningPoints,
            AstrixdMessagePayload::RequestPruningPointProof(_) => AstrixdMessagePayloadType::RequestPruningPointProof,
            AstrixdMessagePayload::PruningPointProof(_) => AstrixdMessagePayloadType::PruningPointProof,
            AstrixdMessagePayload::Ready(_) => AstrixdMessagePayloadType::Ready,
            AstrixdMessagePayload::BlockWithTrustedDataV4(_) => AstrixdMessagePayloadType::BlockWithTrustedDataV4,
            AstrixdMessagePayload::TrustedData(_) => AstrixdMessagePayloadType::TrustedData,
            AstrixdMessagePayload::RequestIbdChainBlockLocator(_) => AstrixdMessagePayloadType::RequestIbdChainBlockLocator,
            AstrixdMessagePayload::IbdChainBlockLocator(_) => AstrixdMessagePayloadType::IbdChainBlockLocator,
            AstrixdMessagePayload::RequestAntipast(_) => AstrixdMessagePayloadType::RequestAntipast,
            AstrixdMessagePayload::RequestNextPruningPointAndItsAnticoneBlocks(_) => AstrixdMessagePayloadType::RequestNextPruningPointAndItsAnticoneBlocks,
        }
    }
}

impl From<&AstrixdMessagePayload> for AstrixdMessagePayloadType {
    fn from(payload: &AstrixdMessagePayload) -> (r: Self)
        ensures
            r == payload_kind(*payload),
    {
        Self::from_payload(payload)
    }
}

impl vstd::std_specs::convert::FromSpecImpl<&AstrixdMessagePayload> for AstrixdMessagePayloadType {
    open spec fn obeys_from_spec() -> bool {
        true
    }

    open spec fn from_spec(payload: &AstrixdMessagePayload) -> Self {
        payload_kind(*payload)
    }
}

} // verus!
