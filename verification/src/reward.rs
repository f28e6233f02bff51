//! Rewards of the blocks in a mergeset, and the parts of GHOSTDAG data that the coinbase reads.
use vstd::prelude::*;

use crate::payload::ScriptPublicKey;
use crate::tx::BlockHash;

verus! {

/// What a block earns, and where its miner wants it paid.
#[derive(Debug, PartialEq, Eq)]
pub struct BlockRewardData {
    pub subsidy: u64,
    pub total_fees: u64,
    pub script_public_key: ScriptPublicKey,
}

/// A block reward as plain values: subsidy, total fees, script public key.
pub type RewardView = (u64, u64, (u16, Seq<u8>));

impl View for BlockRewardData {
    type V = RewardView;

    open spec fn view(&self) -> RewardView {
        (self.subsidy, self.total_fees, self.script_public_key@)
    }
}

impl BlockRewardData {
    /// A reward of `subsidy` plus `total_fees`, paid to `script_public_key`.
    pub fn new(subsidy: u64, total_fees: u64, script_public_key: ScriptPublicKey) -> (r: Self)
        ensures
            r@ == (subsidy, total_fees, script_public_key@),
    {
        BlockRewardData { subsidy, total_fees, script_public_key }
    }
}

/// The amount a block reward pays: its subsidy plus its fees.
pub open spec fn reward_amount(r: RewardView) -> int {
    r.0 + r.1
}

/// No hash occurs twice among `entries`.
pub open spec fn keys_distinct(entries: Seq<(BlockHash, BlockRewardData)>) -> bool {
    forall|i: int, j: int|
        0 <= i < entries.len() && 0 <= j < entries.len() && i != j ==> entries[i].0 != entries[j].0
}

/// The map from block hash to reward that `entries` describes.
pub open spec fn entries_view(entries: Seq<(BlockHash, BlockRewardData)>) -> Map<BlockHash, RewardView> {
    Map::new(
        |h: BlockHash| exists|i: int| 0 <= i < entries.len() && entries[i].0 == h,
        |h: BlockHash| entries[choose|i: int| 0 <= i < entries.len() && entries[i].0 == h].1@,
    )
}

/// With distinct keys, the entry at `k` is what the map holds for its hash.
proof fn lemma_entry_in_view(entries: Seq<(BlockHash, BlockRewardData)>, k: int)
    requires
        keys_distinct(entries),
        0 <= k < entries.len(),
    ensures
        entries_view(entries).dom().contains(entries[k].0),
        entries_view(entries)[entries[k].0] == entries[k].1@,
{
    let h = entries[k].0;
    assert(entries_view(entries).dom().contains(h));
    let j = choose|j: int| 0 <= j < entries.len() && entries[j].0 == h;
    assert(j == k);
}

/// Block rewards keyed by block hash.
pub struct BlockRewardMap {
    entries: Vec<(BlockHash, BlockRewardData)>,
}

impl BlockRewardMap {
    /// No hash occurs twice among the entries.
    #[verifier::type_invariant]
    closed spec fn wf(self) -> bool {
        keys_distinct(self.entries@)
    }

    /// The map from block hash to reward.
    pub closed spec fn view(&self) -> Map<BlockHash, RewardView> {
        entries_view(self.entries@)
    }

    /// An empty map.
    pub fn new() -> (r: Self)
        ensures
            r.view() == Map::<BlockHash, RewardView>::empty(),
    {
        let r = BlockRewardMap { entries: Vec::new() };
        assert(r.view() =~= Map::<BlockHash, RewardView>::empty());
        r
    }

    /// Index of the entry for `h`, if there is one.
    fn find(&self, h: &BlockHash) -> (r: Option<usize>)
        ensures
            r is None <==> !self.view().dom().contains(*h),
            r matches Some(i) ==> i < self.entries@.len() && self.entries@[i as int].0 == *h
                && self.view()[*h] == self.entries@[i as int].1@,
    {
        proof {
            use_type_invariant(self);
        }
        let mut i: usize = 0;
        while i < self.entries.len()
            invariant
                i <= self.entries@.len(),
                keys_distinct(self.entries@),
                forall|j: int| 0 <= j < i ==> self.entries@[j].0 != *h,
            decreases self.entries@.len() - i,
        {
            if self.entries[i].0 == *h {
                proof {
                    lemma_entry_in_view(self.entries@, i as int);
                }
                return Some(i);
            }
            i = i + 1;
        }
        None
    }

    /// The reward of the block `h`, if there is one.
    pub fn get(&self, h: &BlockHash) -> (r: Option<&BlockRewardData>)
        ensures
            r is None <==> !self.view().dom().contains(*h),
            r matches Some(d) ==> d@ == self.view()[*h],
    {
        match self.find(h) {
            Some(i) => Some(&self.entries[i].1),
            None => None,
        }
    }

    /// Sets the reward of the block `h`, replacing any reward it had.
    pub fn insert(&mut self, h: BlockHash, data: BlockRewardData)
        ensures
            final(self).view() == old(self).view().insert(h, data@),
    {
        proof {
            use_type_invariant(&*self);
        }
        let ghost old_entries = self.entries@;
        let ghost dv = data@;
        let found = self.find(&h);
        let mut entries: Vec<(BlockHash, BlockRewardData)> = Vec::new();
        std::mem::swap(&mut entries, &mut self.entries);
        let ghost n = old_entries.len() as int;
        let ghost idx: int;
        match found {
            Some(i) => {
                entries.set(i, (h, data));
                proof {
                    idx = i as int;
                }
            },
            None => {
                entries.push((h, data));
                proof {
                    idx = n;
                }
            },
        }
        let ghost new_entries = entries@;
        proof {
            assert(new_entries[idx].0 == h && new_entries[idx].1@ == dv);
            assert(forall|k: int| 0 <= k < new_entries.len() && k != idx ==> new_entries[k] == old_entries[k]);
            assert(forall|k: int| 0 <= k < new_entries.len() && k != idx ==> old_entries[k].0 != h);
            assert(keys_distinct(new_entries));
            lemma_entry_in_view(new_entries, idx);
            assert forall|g: BlockHash| g != h implies entries_view(new_entries).dom().contains(g)
                == old(self).view().dom().contains(g) && (entries_view(new_entries).dom().contains(g)
                ==> entries_view(new_entries)[g] == old(self).view()[g]) by {
                if old(self).view().dom().contains(g) {
                    let k = choose|k: int| 0 <= k < old_entries.len() && old_entries[k].0 == g;
                    lemma_entry_in_view(old_entries, k);
                    assert(new_entries[k] == old_entries[k]);
                    lemma_entry_in_view(new_entries, k);
                }
                if entries_view(new_entries).dom().contains(g) {
                    let k = choose|k: int| 0 <= k < new_entries.len() && new_entries[k].0 == g;
                    assert(k != idx);
                    assert(old_entries[k].0 == g);
                }
            }
            assert(entries_view(new_entries) =~= old(self).view().insert(h, dv));
        }
        self.entries = entries;
    }
}

/// After setting the reward of a block, reading it gives that reward, and reading any other
/// block gives what it gave before.
pub proof fn lemma_reward_map_read_after_write(
    before: BlockRewardMap,
    after: BlockRewardMap,
    h: BlockHash,
    data: RewardView,
    other: BlockHash,
)
    requires
        after.view() == before.view().insert(h, data),
    ensures
        after.view().dom().contains(h),
        after.view()[h] == data,
        other != h ==> (after.view().dom().contains(other) == before.view().dom().contains(other)),
        other != h && before.view().dom().contains(other) ==> after.view()[other]
            == before.view()[other],
{
}

/// The parts of a block's GHOSTDAG data that the coinbase reads.
#[derive(Debug, PartialEq, Eq)]
pub struct GhostdagData {
    pub blue_score: u64,
    pub mergeset_blues: Vec<BlockHash>,
    pub mergeset_reds: Vec<BlockHash>,
}

} // verus!
