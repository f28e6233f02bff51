//! Properties of the coinbase manager that relate several of its operations.
use vstd::prelude::*;
use vstd::bytes::{
    lemma_auto_spec_u16_to_from_le_bytes, lemma_auto_spec_u64_to_from_le_bytes,
    spec_u16_to_le_bytes, spec_u64_to_le_bytes,
};

use crate::coinbase::{
    base_subsidy_schedule, blue_reward_outputs, bps_subsidy_schedule, ceil_div,
    daa_window_reward_total, rewards_known, CoinbaseManager,
};
use crate::reward::{reward_amount, RewardView};
use crate::tx::BlockHash;
use crate::payload::{
    modified_payload_bytes, payload_bytes, payload_content, payload_error, payload_script,
    payload_script_len, MIN_PAYLOAD_LENGTH,
};
use crate::subsidy_table::{SECONDS_PER_MONTH, SUBSIDY_BY_MONTH_TABLE, SUBSIDY_BY_MONTH_TABLE_SIZE};

verus! {

/// Reading back a payload that `serialize_coinbase_payload` wrote gives the data that was
/// written, as long as the whole payload fits the manager's payload length limit.
pub proof fn lemma_payload_write_then_read(
    m: CoinbaseManager,
    blue_score: u64,
    subsidy: u64,
    version: u16,
    script: Seq<u8>,
    extra_data: Seq<u8>,
)
    requires
        script.len() <= m.script_public_key_max_len(),
        payload_bytes(blue_score, subsidy, version, script, extra_data).len()
            <= m.max_payload_len(),
    ensures
        ({
            let p = payload_bytes(blue_score, subsidy, version, script, extra_data);
            &&& payload_error(p, m.script_public_key_max_len(), m.max_payload_len()) is None
            &&& payload_content(p) == (blue_score, subsidy, ((version, script), extra_data))
        }),
{
    lemma_auto_spec_u64_to_from_le_bytes();
    lemma_auto_spec_u16_to_from_le_bytes();
    let p = payload_bytes(blue_score, subsidy, version, script, extra_data);
    let b = spec_u64_to_le_bytes(blue_score);
    let s = spec_u64_to_le_bytes(subsidy);
    let v = spec_u16_to_le_bytes(version);
    assert(p.subrange(0, 8) =~= b);
    assert(p.subrange(8, 16) =~= s);
    assert(p.subrange(16, 18) =~= v);
    assert(p[18] == script.len() as u8);
    assert(payload_script_len(p) == script.len());
    assert(payload_script(p) =~= script);
    assert(p.subrange(MIN_PAYLOAD_LENGTH + script.len(), p.len() as int) =~= extra_data);
}

/// Writing the data read from a readable payload gives back that payload; its script public
/// key is within the limit, so the write is not refused.
pub proof fn lemma_payload_read_then_write(m: CoinbaseManager, payload: Seq<u8>)
    requires
        payload_error(payload, m.script_public_key_max_len(), m.max_payload_len()) is None,
    ensures
        ({
            let (blue_score, subsidy, ((version, script), extra_data)) = payload_content(payload);
            &&& script.len() <= m.script_public_key_max_len()
            &&& payload_bytes(blue_score, subsidy, version, script, extra_data) == payload
        }),
{
    lemma_auto_spec_u64_to_from_le_bytes();
    lemma_auto_spec_u16_to_from_le_bytes();
    let (blue_score, subsidy, ((version, script), extra_data)) = payload_content(payload);
    assert(spec_u64_to_le_bytes(blue_score) == payload.subrange(0, 8));
    assert(spec_u64_to_le_bytes(subsidy) == payload.subrange(8, 16));
    assert(spec_u16_to_le_bytes(version) == payload.subrange(16, 18));
    assert(script.len() == payload[18]);
    assert(payload_bytes(blue_score, subsidy, version, script, extra_data) =~= payload);
}

/// Replacing the miner data of a written payload gives the payload written with the new
/// miner data and the old blue score and subsidy.
pub proof fn lemma_payload_modify(
    blue_score: u64,
    subsidy: u64,
    version: u16,
    script: Seq<u8>,
    extra_data: Seq<u8>,
    new_version: u16,
    new_script: Seq<u8>,
    new_extra_data: Seq<u8>,
)
    ensures
        modified_payload_bytes(
            payload_bytes(blue_score, subsidy, version, script, extra_data),
            new_version,
            new_script,
            new_extra_data,
        ) == payload_bytes(blue_score, subsidy, new_version, new_script, new_extra_data),
{
    lemma_auto_spec_u64_to_from_le_bytes();
    lemma_auto_spec_u16_to_from_le_bytes();
    let p = payload_bytes(blue_score, subsidy, version, script, extra_data);
    assert(p.take(16) =~= spec_u64_to_le_bytes(blue_score) + spec_u64_to_le_bytes(subsidy));
    assert(modified_payload_bytes(p, new_version, new_script, new_extra_data) =~= payload_bytes(
        blue_score,
        subsidy,
        new_version,
        new_script,
        new_extra_data,
    ));
}

/// The sum of the values of a list of outputs.
pub open spec fn output_total(outputs: Seq<(u64, (u16, Seq<u8>))>) -> int
    decreases outputs.len(),
{
    if outputs.len() == 0 {
        0
    } else {
        output_total(outputs.drop_last()) + outputs.last().0
    }
}

/// The outputs for the blue blocks pay, together, the rewards of the blue blocks in the DAA
/// window.
pub proof fn lemma_blue_outputs_pay_blue_rewards(
    blues: Seq<BlockHash>,
    non_daa: Seq<BlockHash>,
    rewards: Map<BlockHash, RewardView>,
)
    requires
        rewards_known(blues, non_daa, rewards),
    ensures
        output_total(blue_reward_outputs(blues, non_daa, rewards)) == daa_window_reward_total(
            blues,
            non_daa,
            rewards,
        ),
    decreases blues.len(),
{
    if blues.len() > 0 {
        let earlier = blues.drop_last();
        assert(rewards_known(earlier, non_daa, rewards)) by {
            assert forall|i: int|
                0 <= i < earlier.len() && !non_daa.contains(#[trigger] earlier[i]) implies rewards.dom().contains(
                earlier[i],
            ) && reward_amount(rewards[earlier[i]]) <= u64::MAX by {
                assert(earlier[i] == blues[i]);
            }
        }
        lemma_blue_outputs_pay_blue_rewards(earlier, non_daa, rewards);
        let h = blues.last();
        assert(blues[blues.len() - 1] == h);
        let outs = blue_reward_outputs(earlier, non_daa, rewards);
        if !non_daa.contains(h) && reward_amount(rewards[h]) > 0 {
            assert(outs.push((reward_amount(rewards[h]) as u64, rewards[h].2)).drop_last() =~= outs);
        }
    }
}

/// Before the deflationary phase, every block is paid the pre-deflationary subsidy, by the
/// schedule and by the one-block-per-second schedule alike.
pub proof fn lemma_pre_deflationary_subsidy(m: CoinbaseManager, daa_score: u64)
    requires
        daa_score < m.deflationary_daa_score(),
    ensures
        m.block_subsidy(daa_score) == m.pre_deflationary_subsidy(),
        m.legacy_block_subsidy(daa_score) == m.pre_deflationary_subsidy(),
{
}

/// A block mined in month `k` of the deflationary phase (counted in blocks of the network's
/// rate) is paid month `k` of the one-block-per-second schedule divided among the blocks of a
/// second, rounded up; from the end of the schedule on, it is paid nothing.
pub proof fn lemma_deflationary_subsidy_by_month(m: CoinbaseManager, daa_score: u64, k: int)
    requires
        m.block_time() > 0,
        1000u64 % m.block_time() == 0,
        m.month_blocks() == SECONDS_PER_MONTH * m.blocks_per_second(),
        m.subsidy_table() == bps_subsidy_schedule(m.blocks_per_second()),
        k >= 0,
        m.deflationary_daa_score() + k * m.month_blocks() <= daa_score,
        daa_score < m.deflationary_daa_score() + (k + 1) * m.month_blocks(),
    ensures
        k < SUBSIDY_BY_MONTH_TABLE_SIZE ==> m.block_subsidy(daa_score) == (SUBSIDY_BY_MONTH_TABLE@[k]
            + m.blocks_per_second() - 1) / m.blocks_per_second(),
        k >= SUBSIDY_BY_MONTH_TABLE_SIZE ==> m.block_subsidy(daa_score) == 0,
{
    let bps = m.blocks_per_second();
    assert(1 <= bps <= 1000) by (nonlinear_arith)
        requires
            m.block_time() > 0,
            1000u64 % m.block_time() == 0,
            bps == 1000int / m.block_time() as int,
    ;
    let bpm = m.month_blocks() as int;
    assert(bpm > 0) by (nonlinear_arith)
        requires
            bpm == SECONDS_PER_MONTH * bps,
            bps >= 1,
    ;
    let x = daa_score - m.deflationary_daa_score();
    let r = x - k * bpm;
    assert(x == k * bpm + r && 0 <= r < bpm) by (nonlinear_arith)
        requires
            r == x - k * bpm,
            k * bpm <= x,
            x < (k + 1) * bpm,
    ;
    vstd::arithmetic::div_mod::lemma_fundamental_div_mod_converse(x, bpm, k, r);
    assert(SUBSIDY_BY_MONTH_TABLE@[SUBSIDY_BY_MONTH_TABLE_SIZE - 1] == 0);
    assert((0 + bps - 1) / bps == 0) by (nonlinear_arith)
        requires
            bps >= 1,
    ;
}

/// The sum of subsidy plus fees over the blocks of `hashes` that are in the DAA window.
pub open spec fn window_subsidy_and_fees(
    hashes: Seq<BlockHash>,
    non_daa: Seq<BlockHash>,
    rewards: Map<BlockHash, RewardView>,
) -> int {
    hashes.filter(|h: BlockHash| !non_daa.contains(h)).fold_left(
        0int,
        |acc: int, h: BlockHash| acc + rewards[h].0 + rewards[h].1,
    )
}

/// The reward total of the DAA-window blocks is their subsidies plus their fees, whatever the
/// split between the two.
pub proof fn lemma_window_total_is_subsidy_and_fees(
    hashes: Seq<BlockHash>,
    non_daa: Seq<BlockHash>,
    rewards: Map<BlockHash, RewardView>,
)
    ensures
        daa_window_reward_total(hashes, non_daa, rewards) == window_subsidy_and_fees(
            hashes,
            non_daa,
            rewards,
        ),
    decreases hashes.len(),
{
    let pred = |h: BlockHash| !non_daa.contains(h);
    let f = |acc: int, h: BlockHash| acc + rewards[h].0 + rewards[h].1;
    reveal(Seq::filter);
    if hashes.len() > 0 {
        let earlier = hashes.drop_last();
        lemma_window_total_is_subsidy_and_fees(earlier, non_daa, rewards);
        let h = hashes.last();
        let filtered = earlier.filter(pred);
        assert(hashes.filter(pred) == if pred(h) {
            filtered.push(h)
        } else {
            filtered
        });
        if pred(h) {
            assert(filtered.push(h).drop_last() =~= filtered);
            assert(filtered.push(h).fold_left(0int, f) == f(filtered.fold_left(0int, f), h));
        }
    }
}

/// Adding a blue block to the mergeset adds, when the block is in the DAA window and its
/// subsidy plus fees is positive, one output paying exactly that sum to the block's own
/// script; otherwise the outputs stay as they were.
pub proof fn lemma_blue_output_of_a_block(
    blues: Seq<BlockHash>,
    h: BlockHash,
    non_daa: Seq<BlockHash>,
    rewards: Map<BlockHash, RewardView>,
)
    ensures
        blue_reward_outputs(blues.push(h), non_daa, rewards) == blue_reward_outputs(
            blues,
            non_daa,
            rewards,
        ) + if !non_daa.contains(h) && rewards[h].0 + rewards[h].1 > 0 {
            seq![((rewards[h].0 + rewards[h].1) as u64, rewards[h].2)]
        } else {
            Seq::<(u64, (u16, Seq<u8>))>::empty()
        },
{
    assert(blues.push(h).drop_last() =~= blues);
    let earlier = blue_reward_outputs(blues, non_daa, rewards);
    assert(earlier + Seq::<(u64, (u16, Seq<u8>))>::empty() =~= earlier);
    assert(earlier.push(((rewards[h].0 + rewards[h].1) as u64, rewards[h].2)) =~= earlier
        + seq![((rewards[h].0 + rewards[h].1) as u64, rewards[h].2)]);
}

/// Adding a red block to the mergeset adds its subsidy plus its fees to the red reward when
/// the block is in the DAA window, and nothing otherwise.
pub proof fn lemma_red_reward_of_a_block(
    reds: Seq<BlockHash>,
    h: BlockHash,
    non_daa: Seq<BlockHash>,
    rewards: Map<BlockHash, RewardView>,
)
    ensures
        daa_window_reward_total(reds.push(h), non_daa, rewards) == daa_window_reward_total(
            reds,
            non_daa,
            rewards,
        ) + if !non_daa.contains(h) {
            rewards[h].0 + rewards[h].1
        } else {
            0
        },
{
    assert(reds.push(h).drop_last() =~= reds);
}

/// A total of rewards is never negative.
proof fn lemma_window_total_nonnegative(
    hashes: Seq<BlockHash>,
    non_daa: Seq<BlockHash>,
    rewards: Map<BlockHash, RewardView>,
)
    ensures
        daa_window_reward_total(hashes, non_daa, rewards) >= 0,
    decreases hashes.len(),
{
    if hashes.len() > 0 {
        lemma_window_total_nonnegative(hashes.drop_last(), non_daa, rewards);
    }
}

/// A coinbase transaction pays, over all its outputs, exactly the subsidies plus fees of the
/// mergeset blocks in the DAA window, blue and red; its red output is the subsidies plus fees
/// of the red blocks in the window.
pub proof fn lemma_coinbase_pays_window_rewards(
    blues: Seq<BlockHash>,
    reds: Seq<BlockHash>,
    non_daa: Seq<BlockHash>,
    rewards: Map<BlockHash, RewardView>,
    miner_script_public_key: (u16, Seq<u8>),
)
    requires
        rewards_known(blues, non_daa, rewards),
        rewards_known(reds, non_daa, rewards),
        daa_window_reward_total(reds, non_daa, rewards) <= u64::MAX,
    ensures
        daa_window_reward_total(reds, non_daa, rewards) == window_subsidy_and_fees(
            reds,
            non_daa,
            rewards,
        ),
        ({
            let red = daa_window_reward_total(reds, non_daa, rewards);
            let blue_outputs = blue_reward_outputs(blues, non_daa, rewards);
            let outputs = if red > 0 {
                blue_outputs.push((red as u64, miner_script_public_key))
            } else {
                blue_outputs
            };
            output_total(outputs) == window_subsidy_and_fees(blues, non_daa, rewards)
                + window_subsidy_and_fees(reds, non_daa, rewards)
        }),
{
    lemma_blue_outputs_pay_blue_rewards(blues, non_daa, rewards);
    lemma_window_total_nonnegative(reds, non_daa, rewards);
    lemma_window_total_is_subsidy_and_fees(blues, non_daa, rewards);
    lemma_window_total_is_subsidy_and_fees(reds, non_daa, rewards);
    let red = daa_window_reward_total(reds, non_daa, rewards);
    let blue_outputs = blue_reward_outputs(blues, non_daa, rewards);
    if red > 0 {
        assert(blue_outputs.push((red as u64, miner_script_public_key)).drop_last() =~= blue_outputs);
    }
}

/// Months `0` to `n` of the base schedule never rise from one month to the next.
spec fn schedule_never_rises_upto(n: int) -> bool
    decreases n,
{
    if n <= 0 {
        true
    } else {
        schedule_never_rises_upto(n - 1) && base_subsidy_schedule()[n - 1]
            >= base_subsidy_schedule()[n]
    }
}

/// The base schedule never rises from one month to the next, up to its last month.
proof fn lemma_schedule_steps_never_rise()
    ensures
        schedule_never_rises_upto(SUBSIDY_BY_MONTH_TABLE_SIZE - 1),
{
    assert(schedule_never_rises_upto(60)) by {
        reveal_with_fuel(schedule_never_rises_upto, 61);
    }
    assert(schedule_never_rises_upto(120)) by {
        reveal_with_fuel(schedule_never_rises_upto, 61);
    }
    assert(schedule_never_rises_upto(180)) by {
        reveal_with_fuel(schedule_never_rises_upto, 61);
    }
    assert(schedule_never_rises_upto(240)) by {
        reveal_with_fuel(schedule_never_rises_upto, 61);
    }
    assert(schedule_never_rises_upto(300)) by {
        reveal_with_fuel(schedule_never_rises_upto, 61);
    }
    assert(schedule_never_rises_upto(360)) by {
        reveal_with_fuel(schedule_never_rises_upto, 61);
    }
    assert(schedule_never_rises_upto(420)) by {
        reveal_with_fuel(schedule_never_rises_upto, 61);
    }
    assert(schedule_never_rises_upto(426)) by {
        reveal_with_fuel(schedule_never_rises_upto, 61);
    }
}

/// Where the months up to `n` never rise step by step, an earlier month pays at least as much
/// as a later one.
proof fn lemma_steps_to_order(n: int, i: int, j: int)
    requires
        schedule_never_rises_upto(n),
        0 <= i <= j <= n,
    ensures
        base_subsidy_schedule()[i] >= base_subsidy_schedule()[j],
    decreases n,
{
    if j < n {
        lemma_steps_to_order(n - 1, i, j);
    } else if i < j {
        lemma_steps_to_order(n - 1, i, j - 1);
    }
}

/// The base schedule never rises: an earlier month pays at least as much as a later one.
pub proof fn lemma_base_schedule_never_rises(i: int, j: int)
    requires
        0 <= i <= j < SUBSIDY_BY_MONTH_TABLE_SIZE,
    ensures
        base_subsidy_schedule()[i] >= base_subsidy_schedule()[j],
{
    lemma_schedule_steps_never_rise();
    lemma_steps_to_order(SUBSIDY_BY_MONTH_TABLE_SIZE - 1, i, j);
}

/// Once the deflationary phase has started, the block subsidy never rises with the DAA score.
pub proof fn lemma_subsidy_never_rises(m: CoinbaseManager, earlier: u64, later: u64)
    requires
        m.block_time() > 0,
        1000u64 % m.block_time() == 0,
        m.month_blocks() == SECONDS_PER_MONTH * m.blocks_per_second(),
        m.subsidy_table() == bps_subsidy_schedule(m.blocks_per_second()),
        m.deflationary_daa_score() <= earlier <= later,
    ensures
        m.block_subsidy(later) <= m.block_subsidy(earlier),
{
    let bps = m.blocks_per_second();
    assert(1 <= bps <= 1000) by (nonlinear_arith)
        requires
            m.block_time() > 0,
            1000u64 % m.block_time() == 0,
            bps == 1000int / m.block_time() as int,
    ;
    let bpm = m.month_blocks() as int;
    assert(bpm > 0) by (nonlinear_arith)
        requires
            bpm == SECONDS_PER_MONTH * bps,
            bps >= 1,
    ;
    let dps = m.deflationary_daa_score();
    let m1 = (earlier - dps) / bpm;
    let m2 = (later - dps) / bpm;
    vstd::arithmetic::div_mod::lemma_div_is_ordered(earlier - dps, later - dps, bpm);
    assert(m1 >= 0) by (nonlinear_arith)
        requires
            earlier - dps >= 0,
            bpm > 0,
            m1 == (earlier - dps) / bpm,
    ;
    let last = SUBSIDY_BY_MONTH_TABLE_SIZE - 1;
    let i = if m1 >= SUBSIDY_BY_MONTH_TABLE_SIZE { last as int } else { m1 };
    let j = if m2 >= SUBSIDY_BY_MONTH_TABLE_SIZE { last as int } else { m2 };
    assert(0 <= i <= j <= last);
    lemma_base_schedule_never_rises(i, j);
    let bi = base_subsidy_schedule()[i] as int;
    let bj = base_subsidy_schedule()[j] as int;
    vstd::arithmetic::div_mod::lemma_div_is_ordered(bj + bps - 1, bi + bps - 1, bps);
    assert(m.block_subsidy(earlier) == bps_subsidy_schedule(bps)[i]);
    assert(m.block_subsidy(later) == bps_subsidy_schedule(bps)[j]);
}

/// At one block per second the per-block schedule is the base schedule itself.
pub proof fn lemma_one_bps_schedule_is_base()
    ensures
        bps_subsidy_schedule(1) == base_subsidy_schedule(),
{
    assert(bps_subsidy_schedule(1) =~= base_subsidy_schedule());
}

/// Each month's per-block subsidy is rounded up: the blocks of a second together pay at least
/// the one-block-per-second subsidy and less than one sompi per block more, and a month pays
/// a subsidy exactly when it does at one block per second.
pub proof fn lemma_schedule_rounds_up(bps: int, month: int)
    requires
        1 <= bps <= 1000,
        0 <= month < SUBSIDY_BY_MONTH_TABLE_SIZE,
    ensures
        ({
            let base = base_subsidy_schedule()[month] as int;
            let per_block = bps_subsidy_schedule(bps)[month] as int;
            &&& base <= per_block * bps < base + bps
            &&& (per_block == 0 <==> base == 0)
        }),
{
    let base = base_subsidy_schedule()[month] as int;
    let c = ceil_div(base, bps);
    let q = base / bps;
    let r = base % bps;
    assert(base == q * bps + r && 0 <= r < bps && q >= 0) by (nonlinear_arith)
        requires
            bps > 0,
            base >= 0,
            q == base / bps,
            r == base % bps,
    ;
    assert(c == q + (if r == 0 { 0int } else { 1int })) by (nonlinear_arith)
        requires
            bps > 0,
            base == q * bps + r,
            0 <= r < bps,
            c == (base + bps - 1) / bps,
    ;
    assert(c * bps == q * bps + (if r == 0 { 0int } else { bps })) by (nonlinear_arith)
        requires
            c == q + (if r == 0 { 0int } else { 1int }),
    ;
    assert(c <= base) by (nonlinear_arith)
        requires
            bps >= 1,
            base == q * bps + r,
            0 <= r < bps,
            q >= 0,
            c == q + (if r == 0 { 0int } else { 1int }),
    ;
    assert(c == 0 ==> base == 0) by (nonlinear_arith)
        requires
            base == q * bps + r,
            c == q + (if r == 0 { 0int } else { 1int }),
            q >= 0,
    ;
}

/// On a network of one block per second, the subsidy by the precomputed schedule and the
/// subsidy by the one-block-per-second schedule agree at every DAA score.
pub proof fn lemma_one_bps_subsidy_is_legacy(m: CoinbaseManager, daa_score: u64)
    requires
        m.block_time() == 1000,
        m.month_blocks() == SECONDS_PER_MONTH * m.blocks_per_second(),
        m.subsidy_table() == bps_subsidy_schedule(m.blocks_per_second()),
    ensures
        m.block_subsidy(daa_score) == m.legacy_block_subsidy(daa_score),
{
    lemma_one_bps_schedule_is_base();
}

} // verus!
