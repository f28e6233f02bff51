//! The coinbase manager: the block subsidy schedule, and the coinbase payload format.
use vstd::prelude::*;

use vstd::bytes::{u16_from_le_bytes, u16_to_le_bytes, u64_from_le_bytes, u64_to_le_bytes};
use vstd::slice::{slice_subrange, slice_to_vec};

use crate::payload::{
    miner_data_bytes, modified_payload_bytes, payload_bytes, payload_content, payload_error,
    CoinbaseData, CoinbaseError, MinerData, ScriptPublicKey, LENGTH_OF_BLUE_SCORE,
    LENGTH_OF_SCRIPT_PUB_KEY_LENGTH, LENGTH_OF_SCRIPT_PUB_KEY_VERSION, LENGTH_OF_SUBSIDY,
    MIN_PAYLOAD_LENGTH,
};
use crate::reward::{reward_amount, BlockRewardMap, GhostdagData, RewardView};
use crate::subsidy_table::{SECONDS_PER_MONTH, SUBSIDY_BY_MONTH_TABLE, SUBSIDY_BY_MONTH_TABLE_SIZE};
use crate::tx::{
    subnetwork_id_coinbase, is_coinbase_subnetwork, BlockHash, Transaction, TransactionOutput,
    TX_VERSION,
};

verus! {

/// `ceil(a / b)` for a non-negative `a` and a positive `b`.
pub open spec fn ceil_div(a: int, b: int) -> int {
    (a + b - 1) / b
}

/// The schedule at one block per second, as a sequence.
pub open spec fn base_subsidy_schedule() -> Seq<u64> {
    SUBSIDY_BY_MONTH_TABLE@
}

/// The per-block schedule of a network producing `bps` blocks per second: each monthly subsidy
/// is divided among the `bps` blocks of a second and rounded up, so that every month that pays a
/// subsidy at one block per second still pays one.
pub open spec fn bps_subsidy_schedule(bps: int) -> Seq<u64> {
    Seq::new(SUBSIDY_BY_MONTH_TABLE_SIZE as nat, |i: int| ceil_div(base_subsidy_schedule()[i] as int, bps) as u64)
}

/// `x / b + (x % b != 0)` is `ceil(x / b)`.
proof fn lemma_ceil_div_by_quotient(x: int, b: int)
    requires
        x >= 0,
        b > 0,
    ensures
        ceil_div(x, b) == x / b + (if x % b == 0 { 0int } else { 1int }),
        ceil_div(x, b) <= x,
        ceil_div(x, b) >= 0,
{
    let q = x / b;
    let r = x % b;
    assert(x == q * b + r && 0 <= r < b) by (nonlinear_arith)
        requires
            b > 0,
            q == x / b,
            r == x % b,
    ;
    assert(ceil_div(x, b) == q + (if r == 0 { 0int } else { 1int })) by (nonlinear_arith)
        requires
            b > 0,
            x == q * b + r,
            0 <= r < b,
    ;
    assert(q >= 0 && q <= x) by (nonlinear_arith)
        requires
            b > 0,
            x >= 0,
            x == q * b + r,
            0 <= r < b,
    ;
    if r != 0 {
        assert(q + 1 <= x) by (nonlinear_arith)
            requires
                b > 0,
                x == q * b + r,
                0 < r < b,
                q >= 0,
        ;
    }
}

/// The outputs paying the blue blocks of a mergeset, in mergeset order: one for each blue
/// block in the DAA window whose reward is positive, paying that reward to the block's script.
pub open spec fn blue_reward_outputs(
    blues: Seq<BlockHash>,
    non_daa: Seq<BlockHash>,
    rewards: Map<BlockHash, RewardView>,
) -> Seq<(u64, (u16, Seq<u8>))>
    decreases blues.len(),
{
    if blues.len() == 0 {
        seq![]
    } else {
        let earlier = blue_reward_outputs(blues.drop_last(), non_daa, rewards);
        let h = blues.last();
        if !non_daa.contains(h) && reward_amount(rewards[h]) > 0 {
            earlier.push((reward_amount(rewards[h]) as u64, rewards[h].2))
        } else {
            earlier
        }
    }
}

/// The total reward of the blocks of `hashes` that are in the DAA window.
pub open spec fn daa_window_reward_total(
    reds: Seq<BlockHash>,
    non_daa: Seq<BlockHash>,
    rewards: Map<BlockHash, RewardView>,
) -> int
    decreases reds.len(),
{
    if reds.len() == 0 {
        0
    } else {
        let earlier = daa_window_reward_total(reds.drop_last(), non_daa, rewards);
        let h = reds.last();
        if !non_daa.contains(h) {
            earlier + reward_amount(rewards[h])
        } else {
            earlier
        }
    }
}

/// Every block of `hashes` in the DAA window has a reward, and that reward fits a `u64`.
pub open spec fn rewards_known(
    hashes: Seq<BlockHash>,
    non_daa: Seq<BlockHash>,
    rewards: Map<BlockHash, RewardView>,
) -> bool {
    forall|i: int|
        0 <= i < hashes.len() && !non_daa.contains(#[trigger] hashes[i]) ==> rewards.dom().contains(
            hashes[i],
        ) && reward_amount(rewards[hashes[i]]) <= u64::MAX
}

/// The red total of a prefix is at most the red total of the whole.
proof fn lemma_red_total_prefix(
    reds: Seq<BlockHash>,
    non_daa: Seq<BlockHash>,
    rewards: Map<BlockHash, RewardView>,
    k: int,
)
    requires
        0 <= k <= reds.len(),
        rewards_known(reds, non_daa, rewards),
    ensures
        0 <= daa_window_reward_total(reds.take(k), non_daa, rewards) <= daa_window_reward_total(
            reds,
            non_daa,
            rewards,
        ),
    decreases reds.len(),
{
    if reds.len() == 0 {
        assert(reds.take(k) =~= reds);
    } else if k == reds.len() {
        assert(reds.take(k) =~= reds);
        lemma_red_total_prefix(reds.drop_last(), non_daa, rewards, reds.len() - 1);
        assert(reds.drop_last().take(reds.len() - 1) =~= reds.drop_last());
    } else {
        assert(reds.drop_last().take(k) =~= reds.take(k));
        lemma_red_total_prefix(reds.drop_last(), non_daa, rewards, k);
        lemma_red_total_prefix(reds.drop_last(), non_daa, rewards, reds.len() - 1);
        assert(reds.drop_last().take(reds.len() - 1) =~= reds.drop_last());
        let h = reds.last();
        if !non_daa.contains(h) {
            assert(reds[reds.len() - 1] == h);
        }
    }
}

/// Whether `h` occurs in `set`.
fn contains_hash(set: &Vec<BlockHash>, h: &BlockHash) -> (r: bool)
    ensures
        r == set@.contains(*h),
{
    let mut i: usize = 0;
    while i < set.len()
        invariant
            i <= set@.len(),
            forall|j: int| 0 <= j < i ==> set@[j] != *h,
        decreases set@.len() - i,
    {
        if set[i] == *h {
            assert(set@[i as int] == *h);
            return true;
        }
        i = i + 1;
    }
    false
}

/// A coinbase transaction, and whether it pays the merging block for red blocks.
#[derive(Debug, PartialEq, Eq)]
pub struct CoinbaseTransactionTemplate {
    pub tx: Transaction,
    pub has_red_reward: bool,
}

impl Clone for CoinbaseManager {
    fn clone(&self) -> (r: Self)
        ensures
            r.script_public_key_max_len() == self.script_public_key_max_len(),
            r.max_payload_len() == self.max_payload_len(),
            r.deflationary_daa_score() == self.deflationary_daa_score(),
            r.pre_deflationary_subsidy() == self.pre_deflationary_subsidy(),
            r.block_time() == self.block_time(),
            r.month_blocks() == self.month_blocks(),
            r.subsidy_table() == self.subsidy_table(),
    {
        proof {
            use_type_invariant(self);
        }
        CoinbaseManager {
            coinbase_payload_script_public_key_max_len: self.coinbase_payload_script_public_key_max_len,
            max_coinbase_payload_len: self.max_coinbase_payload_len,
            deflationary_phase_daa_score: self.deflationary_phase_daa_score,
            pre_deflationary_phase_base_subsidy: self.pre_deflationary_phase_base_subsidy,
            target_time_per_block: self.target_time_per_block,
            blocks_per_month: self.blocks_per_month,
            subsidy_by_month_table: slice_to_vec(self.subsidy_by_month_table.as_slice()),
        }
    }
}

/// Reads a payload front to back.
struct PayloadParser<'a> {
    /// The unparsed remainder
    remaining: &'a [u8],
}

impl<'a> PayloadParser<'a> {
    fn new(data: &'a [u8]) -> (r: Self)
        ensures
            r.remaining@ == data@,
    {
        Self { remaining: data }
    }

    /// Returns the first `n` bytes of `remaining`, and leaves the rest in `remaining`.
    fn take(&mut self, n: usize) -> (segment: &'a [u8])
        requires
            n <= old(self).remaining@.len(),
        ensures
            segment@ == old(self).remaining@.take(n as int),
            final(self).remaining@ == old(self).remaining@.skip(n as int),
    {
        let segment = slice_subrange(self.remaining, 0, n);
        self.remaining = slice_subrange(self.remaining, n, self.remaining.len());
        segment
    }
}

/// Appends the bytes of the miner data to `payload`.
fn push_miner_data(payload: &mut Vec<u8>, miner_data: &MinerData)
    requires
        miner_data.script_public_key.script@.len() <= u8::MAX,
    ensures
        final(payload)@ == old(payload)@ + miner_data_bytes(
            miner_data.script_public_key.version,
            miner_data.script_public_key.script@,
            miner_data.extra_data@,
        ),
{
    let mut version = u16_to_le_bytes(miner_data.script_public_key.version());
    payload.append(&mut version);
    payload.push(miner_data.script_public_key.script.len() as u8);
    let mut script = slice_to_vec(miner_data.script_public_key.script());
    payload.append(&mut script);
    let mut extra = slice_to_vec(miner_data.extra_data.as_slice());
    payload.append(&mut extra);
    assert(final(payload)@ =~= old(payload)@ + miner_data_bytes(
        miner_data.script_public_key.version,
        miner_data.script_public_key.script@,
        miner_data.extra_data@,
    ));
}

/// Derives block rewards from the subsidy schedule and builds, edits and reads coinbase payloads.
pub struct CoinbaseManager {
    coinbase_payload_script_public_key_max_len: u8,
    max_coinbase_payload_len: usize,
    deflationary_phase_daa_score: u64,
    pre_deflationary_phase_base_subsidy: u64,
    target_time_per_block: u64,
    /// Precomputed number of blocks per month
    blocks_per_month: u64,
    /// Precomputed subsidy by month table
    subsidy_by_month_table: Vec<u64>,
}

impl CoinbaseManager {
    /// The block rate divides a second evenly, and the precomputed values follow from it.
    #[verifier::type_invariant]
    closed spec fn wf(self) -> bool {
        &&& self.target_time_per_block > 0
        &&& 1000u64 % self.target_time_per_block == 0
        &&& self.blocks_per_month == SECONDS_PER_MONTH * (1000u64 / self.target_time_per_block)
        &&& self.subsidy_by_month_table@ == bps_subsidy_schedule(
            1000int / self.target_time_per_block as int,
        )
    }

    /// Largest script public key length a coinbase payload may carry.
    pub closed spec fn script_public_key_max_len(&self) -> u8 {
        self.coinbase_payload_script_public_key_max_len
    }

    /// Largest payload length that `deserialize_coinbase_payload` accepts.
    pub closed spec fn max_payload_len(&self) -> usize {
        self.max_coinbase_payload_len
    }

    /// DAA score at which the deflationary phase starts.
    pub closed spec fn deflationary_daa_score(&self) -> u64 {
        self.deflationary_phase_daa_score
    }

    /// Block subsidy before the deflationary phase.
    pub closed spec fn pre_deflationary_subsidy(&self) -> u64 {
        self.pre_deflationary_phase_base_subsidy
    }

    /// Target time between blocks, in milliseconds.
    pub closed spec fn block_time(&self) -> u64 {
        self.target_time_per_block
    }

    /// Blocks per second.
    pub open spec fn blocks_per_second(&self) -> int {
        1000int / self.block_time() as int
    }

    /// Blocks per month.
    pub closed spec fn month_blocks(&self) -> u64 {
        self.blocks_per_month
    }

    /// Per-block subsidy of each month of the deflationary phase.
    pub closed spec fn subsidy_table(&self) -> Seq<u64> {
        self.subsidy_by_month_table@
    }

    /// The subsidy of a block with the given DAA score.
    pub open spec fn block_subsidy(&self, daa_score: u64) -> u64 {
        if daa_score < self.deflationary_daa_score() {
            self.pre_deflationary_subsidy()
        } else {
            let months = (daa_score - self.deflationary_daa_score()) / (self.month_blocks() as int);
            if months >= SUBSIDY_BY_MONTH_TABLE_SIZE {
                self.subsidy_table()[SUBSIDY_BY_MONTH_TABLE_SIZE - 1]
            } else {
                self.subsidy_table()[months]
            }
        }
    }

    /// The subsidy of a block with the given DAA score, reading the one-block-per-second
    /// schedule with the DAA score difference taken as seconds.
    pub open spec fn legacy_block_subsidy(&self, daa_score: u64) -> u64 {
        if daa_score < self.deflationary_daa_score() {
            self.pre_deflationary_subsidy()
        } else {
            let months = (daa_score - self.deflationary_daa_score()) / (SECONDS_PER_MONTH as int);
            if months >= SUBSIDY_BY_MONTH_TABLE_SIZE {
                base_subsidy_schedule()[SUBSIDY_BY_MONTH_TABLE_SIZE - 1]
            } else {
                base_subsidy_schedule()[months]
            }
        }
    }

    /// Creates a manager; the block time, in milliseconds, must divide a second evenly.
    pub fn new(
        coinbase_payload_script_public_key_max_len: u8,
        max_coinbase_payload_len: usize,
        deflationary_phase_daa_score: u64,
        pre_deflationary_phase_base_subsidy: u64,
        target_time_per_block: u64,
    ) -> (m: Self)
        requires
            target_time_per_block > 0,
            1000u64 % target_time_per_block == 0,
        ensures
            m.script_public_key_max_len() == coinbase_payload_script_public_key_max_len,
            m.max_payload_len() == max_coinbase_payload_len,
            m.deflationary_daa_score() == deflationary_phase_daa_score,
            m.pre_deflationary_subsidy() == pre_deflationary_phase_base_subsidy,
            m.block_time() == target_time_per_block,
            m.month_blocks() == SECONDS_PER_MONTH * m.blocks_per_second(),
            m.subsidy_table() == bps_subsidy_schedule(m.blocks_per_second()),
    {
        let bps = 1000 / target_time_per_block;
        assert(1 <= bps <= 1000) by (nonlinear_arith)
            requires
                target_time_per_block > 0,
                1000u64 % target_time_per_block == 0,
                bps == 1000u64 / target_time_per_block,
        ;
        let blocks_per_month = SECONDS_PER_MONTH * bps;
        let mut subsidy_by_month_table: Vec<u64> = Vec::new();
        let mut i: usize = 0;
        while i < SUBSIDY_BY_MONTH_TABLE_SIZE
            invariant
                1 <= bps <= 1000,
                i <= SUBSIDY_BY_MONTH_TABLE_SIZE,
                subsidy_by_month_table@.len() == i,
                forall|j: int|
                    0 <= j < i ==> subsidy_by_month_table@[j] == bps_subsidy_schedule(
                        bps as int,
                    )[j],
            decreases SUBSIDY_BY_MONTH_TABLE_SIZE - i,
        {
            let base = SUBSIDY_BY_MONTH_TABLE[i];
            let rounded = base / bps + if base % bps == 0 {
                0
            } else {
                1
            };
            proof {
                lemma_ceil_div_by_quotient(base as int, bps as int);
            }
            subsidy_by_month_table.push(rounded);
            i = i + 1;
        }
        assert(subsidy_by_month_table@ =~= bps_subsidy_schedule(bps as int));
        CoinbaseManager {
            coinbase_payload_script_public_key_max_len,
            max_coinbase_payload_len,
            deflationary_phase_daa_score,
            pre_deflationary_phase_base_subsidy,
            target_time_per_block,
            blocks_per_month,
            subsidy_by_month_table,
        }
    }

    /// Blocks per second.
    pub fn bps(&self) -> (r: u64)
        ensures
            r == self.blocks_per_second(),
    {
        proof {
            use_type_invariant(self);
        }
        1000 / self.target_time_per_block
    }

    /// Largest script public key length a coinbase payload may carry.
    pub fn coinbase_payload_script_public_key_max_len(&self) -> (r: u8)
        ensures
            r == self.script_public_key_max_len(),
    {
        self.coinbase_payload_script_public_key_max_len
    }

    /// Largest payload length that `deserialize_coinbase_payload` accepts.
    pub fn max_coinbase_payload_len(&self) -> (r: usize)
        ensures
            r == self.max_payload_len(),
    {
        self.max_coinbase_payload_len
    }

    /// DAA score at which the deflationary phase starts.
    pub fn deflationary_phase_daa_score(&self) -> (r: u64)
        ensures
            r == self.deflationary_daa_score(),
    {
        self.deflationary_phase_daa_score
    }

    /// Block subsidy before the deflationary phase.
    pub fn pre_deflationary_phase_base_subsidy(&self) -> (r: u64)
        ensures
            r == self.pre_deflationary_subsidy(),
    {
        self.pre_deflationary_phase_base_subsidy
    }

    /// Target time between blocks, in milliseconds.
    pub fn target_time_per_block(&self) -> (r: u64)
        ensures
            r == self.block_time(),
    {
        self.target_time_per_block
    }

    /// Blocks per month.
    pub fn blocks_per_month(&self) -> (r: u64)
        ensures
            r == self.month_blocks(),
    {
        self.blocks_per_month
    }

    /// Per-block subsidy of each month of the deflationary phase.
    pub fn subsidy_by_month_table(&self) -> (r: &[u64])
        ensures
            r@ == self.subsidy_table(),
    {
        self.subsidy_by_month_table.as_slice()
    }

    /// The coinbase transaction of a block with the given DAA score, GHOSTDAG data and miner
    /// data: it pays each blue block of the mergeset in the DAA window its reward, and the
    /// merging block the rewards of the red blocks in the DAA window; its payload holds the
    /// block's blue score, its subsidy and the miner data. Refused when the miner's script
    /// public key is longer than the limit.
    pub fn expected_coinbase_transaction(
        &self,
        daa_score: u64,
        miner_data: MinerData,
        ghostdag_data: &GhostdagData,
        mergeset_rewards: &BlockRewardMap,
        mergeset_non_daa: &Vec<BlockHash>,
    ) -> (r: Result<CoinbaseTransactionTemplate, CoinbaseError>)
        requires
            rewards_known(ghostdag_data.mergeset_blues@, mergeset_non_daa@, mergeset_rewards.view()),
            rewards_known(ghostdag_data.mergeset_reds@, mergeset_non_daa@, mergeset_rewards.view()),
            daa_window_reward_total(ghostdag_data.mergeset_reds@, mergeset_non_daa@, mergeset_rewards.view())
                <= u64::MAX,
        ensures
            r is Err <==> miner_data.script_public_key.script@.len()
                > self.script_public_key_max_len(),
            r matches Err(e) ==> e == CoinbaseError::PayloadScriptPublicKeyLenAboveMax(
                miner_data.script_public_key.script@.len() as usize,
                self.script_public_key_max_len(),
            ),
            r matches Ok(t) ==> {
                let red = daa_window_reward_total(
                    ghostdag_data.mergeset_reds@,
                    mergeset_non_daa@,
                    mergeset_rewards.view(),
                );
                let blue_outputs = blue_reward_outputs(
                    ghostdag_data.mergeset_blues@,
                    mergeset_non_daa@,
                    mergeset_rewards.view(),
                );
                &&& t.tx.version == TX_VERSION
                &&& t.tx.output_views() == if red > 0 {
                    blue_outputs.push((red as u64, miner_data.script_public_key@))
                } else {
                    blue_outputs
                }
                &&& t.tx.lock_time == 0
                &&& is_coinbase_subnetwork(t.tx.subnetwork_id)
                &&& t.tx.gas == 0
                &&& t.tx.payload@ == payload_bytes(
                    ghostdag_data.blue_score,
                    self.block_subsidy(daa_score),
                    miner_data.script_public_key.version,
                    miner_data.script_public_key.script@,
                    miner_data.extra_data@,
                )
                &&& t.has_red_reward == (red > 0)
            },
    {
        let ghost non_daa = mergeset_non_daa@;
        let ghost rewards = mergeset_rewards.view();
        let ghost blues = ghostdag_data.mergeset_blues@;
        let ghost reds = ghostdag_data.mergeset_reds@;
        let mut outputs: Vec<TransactionOutput> = Vec::new();

        // An output for each mergeset blue block in the DAA window, paying to the script
        // reported by the block.
        let mut i: usize = 0;
        while i < ghostdag_data.mergeset_blues.len()
            invariant
                blues == ghostdag_data.mergeset_blues@,
                i <= blues.len(),
                rewards_known(blues, non_daa, rewards),
                non_daa == mergeset_non_daa@,
                rewards == mergeset_rewards.view(),
                outputs@.map_values(|o: TransactionOutput| o@) == blue_reward_outputs(
                    blues.take(i as int),
                    non_daa,
                    rewards,
                ),
            decreases blues.len() - i,
        {
            let blue = &ghostdag_data.mergeset_blues[i];
            assert(blues.take(i + 1).drop_last() =~= blues.take(i as int));
            assert(blues.take(i + 1).last() == blues[i as int]);
            let ghost before = outputs@;
            if !contains_hash(mergeset_non_daa, blue) {
                assert(rewards.dom().contains(blues[i as int]));
                let reward_data = mergeset_rewards.get(blue).unwrap();
                if reward_data.subsidy + reward_data.total_fees > 0 {
                    outputs.push(
                        TransactionOutput::new(
                            reward_data.subsidy + reward_data.total_fees,
                            reward_data.script_public_key.clone(),
                        ),
                    );
                    assert(outputs@.map_values(|o: TransactionOutput| o@) =~= before.map_values(
                        |o: TransactionOutput| o@,
                    ).push(outputs@[outputs@.len() - 1]@));
                }
            }
            i = i + 1;
        }
        assert(blues.take(blues.len() as int) =~= blues);

        // All rewards of the mergeset reds in the DAA window go to the merging block, in one
        // output.
        let mut red_reward: u64 = 0;
        let mut j: usize = 0;
        while j < ghostdag_data.mergeset_reds.len()
            invariant
                reds == ghostdag_data.mergeset_reds@,
                j <= reds.len(),
                rewards_known(reds, non_daa, rewards),
                daa_window_reward_total(reds, non_daa, rewards) <= u64::MAX,
                non_daa == mergeset_non_daa@,
                rewards == mergeset_rewards.view(),
                red_reward == daa_window_reward_total(reds.take(j as int), non_daa, rewards),
            decreases reds.len() - j,
        {
            let red = &ghostdag_data.mergeset_reds[j];
            assert(reds.take(j + 1).drop_last() =~= reds.take(j as int));
            assert(reds.take(j + 1).last() == reds[j as int]);
            proof {
                lemma_red_total_prefix(reds, non_daa, rewards, j + 1);
            }
            if !contains_hash(mergeset_non_daa, red) {
                assert(rewards.dom().contains(reds[j as int]));
                let reward_data = mergeset_rewards.get(red).unwrap();
                red_reward = red_reward + (reward_data.subsidy + reward_data.total_fees);
            }
            j = j + 1;
        }
        assert(reds.take(reds.len() as int) =~= reds);
        if red_reward > 0 {
            let ghost before = outputs@;
            outputs.push(TransactionOutput::new(red_reward, miner_data.script_public_key.clone()));
            assert(outputs@.map_values(|o: TransactionOutput| o@) =~= before.map_values(
                |o: TransactionOutput| o@,
            ).push((red_reward, miner_data.script_public_key@)));
        }

        // The current block's payload
        let subsidy = self.calc_block_subsidy(daa_score);
        let payload = self.serialize_coinbase_payload(
            &CoinbaseData { blue_score: ghostdag_data.blue_score, subsidy, miner_data },
        )?;

        Ok(
            CoinbaseTransactionTemplate {
                tx: Transaction {
                    version: TX_VERSION,
                    outputs,
                    lock_time: 0,
                    subnetwork_id: subnetwork_id_coinbase(),
                    gas: 0,
                    payload,
                },
                has_red_reward: red_reward > 0,
            },
        )
    }

    /// The payload that holds `data`; refused when the script public key is longer than the
    /// limit.
    pub fn serialize_coinbase_payload(&self, data: &CoinbaseData) -> (r: Result<
        Vec<u8>,
        CoinbaseError,
    >)
        ensures
            r is Err <==> data.miner_data.script_public_key.script@.len()
                > self.script_public_key_max_len(),
            r matches Err(e) ==> e == CoinbaseError::PayloadScriptPublicKeyLenAboveMax(
                data.miner_data.script_public_key.script@.len() as usize,
                self.script_public_key_max_len(),
            ),
            r matches Ok(p) ==> p@ == payload_bytes(
                data.blue_score,
                data.subsidy,
                data.miner_data.script_public_key.version,
                data.miner_data.script_public_key.script@,
                data.miner_data.extra_data@,
            ),
    {
        let script_pub_key_len = data.miner_data.script_public_key.script.len();
        if script_pub_key_len > self.coinbase_payload_script_public_key_max_len as usize {
            return Err(
                CoinbaseError::PayloadScriptPublicKeyLenAboveMax(
                    script_pub_key_len,
                    self.coinbase_payload_script_public_key_max_len,
                ),
            );
        }
        let mut payload = u64_to_le_bytes(data.blue_score);
        let mut subsidy = u64_to_le_bytes(data.subsidy);
        payload.append(&mut subsidy);
        push_miner_data(&mut payload, &data.miner_data);
        Ok(payload)
    }

    /// Replaces the miner data of `payload`, keeping its blue score and subsidy; refused when
    /// the script public key is longer than the limit.
    pub fn modify_coinbase_payload(&self, payload: Vec<u8>, miner_data: &MinerData) -> (r: Result<
        Vec<u8>,
        CoinbaseError,
    >)
        ensures
            r is Err <==> miner_data.script_public_key.script@.len()
                > self.script_public_key_max_len(),
            r matches Err(e) ==> e == CoinbaseError::PayloadScriptPublicKeyLenAboveMax(
                miner_data.script_public_key.script@.len() as usize,
                self.script_public_key_max_len(),
            ),
            r matches Ok(p) ==> p@ == modified_payload_bytes(
                payload@,
                miner_data.script_public_key.version,
                miner_data.script_public_key.script@,
                miner_data.extra_data@,
            ),
    {
        let mut payload = payload;
        let script_pub_key_len = miner_data.script_public_key.script.len();
        if script_pub_key_len > self.coinbase_payload_script_public_key_max_len as usize {
            return Err(
                CoinbaseError::PayloadScriptPublicKeyLenAboveMax(
                    script_pub_key_len,
                    self.coinbase_payload_script_public_key_max_len,
                ),
            );
        }
        // Keep only blue score and subsidy.
        payload.truncate(LENGTH_OF_BLUE_SCORE + LENGTH_OF_SUBSIDY);
        push_miner_data(&mut payload, miner_data);
        Ok(payload)
    }

    /// Reads the coinbase data of a payload; refused when the payload is shorter than the
    /// fixed fields, longer than the limit, announces a script public key longer than its
    /// limit, or is too short to hold the script public key it announces.
    pub fn deserialize_coinbase_payload(&self, payload: &[u8]) -> (r: Result<
        CoinbaseData,
        CoinbaseError,
    >)
        ensures
            r is Err <==> payload_error(
                payload@,
                self.script_public_key_max_len(),
                self.max_payload_len(),
            ) is Some,
            r matches Err(e) ==> Some(e) == payload_error(
                payload@,
                self.script_public_key_max_len(),
                self.max_payload_len(),
            ),
            r matches Ok(d) ==> d@ == payload_content(payload@),
    {
        if payload.len() < MIN_PAYLOAD_LENGTH {
            return Err(CoinbaseError::PayloadLenBelowMin(payload.len(), MIN_PAYLOAD_LENGTH));
        }
        if payload.len() > self.max_coinbase_payload_len {
            return Err(
                CoinbaseError::PayloadLenAboveMax(payload.len(), self.max_coinbase_payload_len),
            );
        }
        let mut parser = PayloadParser::new(payload);

        let ghost p = payload@;
        let blue_score_bytes = parser.take(LENGTH_OF_BLUE_SCORE);
        assert(blue_score_bytes@ =~= p.subrange(0, 8));
        assert(parser.remaining@ =~= p.skip(8));
        let blue_score = u64_from_le_bytes(blue_score_bytes);
        let subsidy_bytes = parser.take(LENGTH_OF_SUBSIDY);
        assert(subsidy_bytes@ =~= p.subrange(8, 16));
        assert(parser.remaining@ =~= p.skip(16));
        let subsidy = u64_from_le_bytes(subsidy_bytes);
        let version_bytes = parser.take(LENGTH_OF_SCRIPT_PUB_KEY_VERSION);
        assert(version_bytes@ =~= p.subrange(16, 18));
        assert(parser.remaining@ =~= p.skip(18));
        let script_pub_key_version = u16_from_le_bytes(version_bytes);
        let script_pub_key_len = parser.take(LENGTH_OF_SCRIPT_PUB_KEY_LENGTH)[0];
        assert(script_pub_key_len == p[18]);
        assert(parser.remaining@ =~= p.skip(MIN_PAYLOAD_LENGTH as int));

        if script_pub_key_len > self.coinbase_payload_script_public_key_max_len {
            return Err(
                CoinbaseError::PayloadScriptPublicKeyLenAboveMax(
                    script_pub_key_len as usize,
                    self.coinbase_payload_script_public_key_max_len,
                ),
            );
        }
        if parser.remaining.len() < script_pub_key_len as usize {
            return Err(
                CoinbaseError::PayloadCantContainScriptPublicKey(
                    payload.len(),
                    MIN_PAYLOAD_LENGTH + script_pub_key_len as usize,
                ),
            );
        }
        let script = slice_to_vec(parser.take(script_pub_key_len as usize));
        assert(script@ =~= p.subrange(MIN_PAYLOAD_LENGTH as int, MIN_PAYLOAD_LENGTH + p[18]));
        assert(parser.remaining@ =~= p.subrange(MIN_PAYLOAD_LENGTH + p[18], p.len() as int));
        let script_public_key = ScriptPublicKey::new(script_pub_key_version, script);
        let extra_data = slice_to_vec(parser.remaining);
        let r = CoinbaseData {
            blue_score,
            subsidy,
            miner_data: MinerData { script_public_key, extra_data },
        };
        assert(r@ =~~= payload_content(payload@));
        Ok(r)
    }

    /// The subsidy of a block with the given DAA score.
    pub fn calc_block_subsidy(&self, daa_score: u64) -> (r: u64)
        ensures
            r == self.block_subsidy(daa_score),
    {
        proof {
            use_type_invariant(self);
            assert(self.blocks_per_month > 0) by (nonlinear_arith)
                requires
                    self.target_time_per_block > 0,
                    1000u64 % self.target_time_per_block == 0,
                    self.blocks_per_month == SECONDS_PER_MONTH * (1000u64
                        / self.target_time_per_block),
            ;
        }
        if daa_score < self.deflationary_phase_daa_score {
            return self.pre_deflationary_phase_base_subsidy;
        }
        let months_since_deflationary_phase_started = (daa_score
            - self.deflationary_phase_daa_score) / self.blocks_per_month;
        if months_since_deflationary_phase_started >= SUBSIDY_BY_MONTH_TABLE_SIZE as u64 {
            self.subsidy_by_month_table[SUBSIDY_BY_MONTH_TABLE_SIZE - 1]
        } else {
            self.subsidy_by_month_table[months_since_deflationary_phase_started as usize]
        }
    }

    /// The subsidy of a block with the given DAA score, by the one-block-per-second schedule
    /// with the DAA score difference taken as seconds.
    pub fn legacy_calc_block_subsidy(&self, daa_score: u64) -> (r: u64)
        ensures
            r == self.legacy_block_subsidy(daa_score),
    {
        if daa_score < self.deflationary_phase_daa_score {
            return self.pre_deflationary_phase_base_subsidy;
        }
        let months_since_deflationary_phase_started = (daa_score
            - self.deflationary_phase_daa_score) / SECONDS_PER_MONTH;
        if months_since_deflationary_phase_started >= SUBSIDY_BY_MONTH_TABLE_SIZE as u64 {
            SUBSIDY_BY_MONTH_TABLE[SUBSIDY_BY_MONTH_TABLE_SIZE - 1]
        } else {
            SUBSIDY_BY_MONTH_TABLE[months_since_deflationary_phase_started as usize]
        }
    }
}

} // verus!
