//! Notification scopes and subscription commands.
use vstd::prelude::*;

verus! {

/// Start or stop a subscription.
#[derive(Debug, Clone, Copy, PartialEq, Eq, Structural)]
pub enum Command {
    Start,
    Stop,
}

/// Block-added events.
#[derive(Debug, Clone, PartialEq, Eq)]
pub struct BlockAddedScope {}

/// New block templates.
#[derive(Debug, Clone, PartialEq, Eq)]
pub struct NewBlockTemplateScope {}

/// Virtual chain changes, with or without the ids of accepted transactions.
#[derive(Debug, Clone, PartialEq, Eq)]
pub struct VirtualChainChangedScope {
    pub include_accepted_transaction_ids: bool,
}

/// Finality conflicts.
#[derive(Debug, Clone, PartialEq, Eq)]
pub struct FinalityConflictScope {}

/// Resolutions of finality conflicts.
#[derive(Debug, Clone, PartialEq, Eq)]
pub struct FinalityConflictResolvedScope {}

/// UTXO changes of the given addresses, each in its string form (all addresses when empty).
#[derive(Debug, Clone, PartialEq, Eq)]
pub struct UtxosChangedScope {
    pub addresses: Vec<String>,
}

/// Sink blue score changes.
#[derive(Debug, Clone, PartialEq, Eq)]
pub struct SinkBlueScoreChangedScope {}

/// Virtual DAA score changes.
#[derive(Debug, Clone, PartialEq, Eq)]
pub struct VirtualDaaScoreChangedScope {}

/// Pruning-point UTXO set overrides.
#[derive(Debug, Clone, PartialEq, Eq)]
pub struct PruningPointUtxoSetOverrideScope {}

/// The events a subscription is about.
#[derive(Debug, Clone, PartialEq, Eq)]
pub enum Scope {
    BlockAdded(BlockAddedScope),
    NewBlockTemplate(NewBlockTemplateScope),
    VirtualChainChanged(VirtualChainChangedScope),
    FinalityConflict(FinalityConflictScope),
    FinalityConflictResolved(FinalityConflictResolvedScope),
    UtxosChanged(UtxosChangedScope),
    SinkBlueScoreChanged(SinkBlueScoreChangedScope),
    VirtualDaaScoreChanged(VirtualDaaScoreChangedScope),
    PruningPointUtxoSetOverride(PruningPointUtxoSetOverrideScope),
}

} // verus!
