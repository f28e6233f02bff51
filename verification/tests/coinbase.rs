use astrix::coinbase::CoinbaseManager;
use astrix::payload::{CoinbaseData, CoinbaseError, MinerData, ScriptPublicKey};
use astrix::subsidy_table::{SECONDS_PER_MONTH, SUBSIDY_BY_MONTH_TABLE, SUBSIDY_BY_MONTH_TABLE_SIZE};

const SOMPI_PER_ASTRIX: u64 = 100_000_000;

/// A manager with the main network's coinbase limits and block rate.
fn create_mainnet_manager() -> CoinbaseManager {
    CoinbaseManager::new(150, 204, 15519600, 50000000000, 1000)
}

/// A manager with the given block time and the main network's other settings.
fn create_manager_with_block_time(target_time_per_block: u64) -> CoinbaseManager {
    CoinbaseManager::new(150, 204, 15519600, 50000000000, target_time_per_block)
}

/// Return a CoinbaseManager with legacy golang 1 BPS properties
fn create_legacy_manager() -> CoinbaseManager {
    CoinbaseManager::new(150, 204, 7, 5000000000000000, 1000)
}

fn hex_decode(s: &str) -> Vec<u8> {
    let digit = |c: u8| -> u8 {
        match c {
            b'0'..=b'9' => c - b'0',
            b'a'..=b'f' => c - b'a' + 10,
            b'A'..=b'F' => c - b'A' + 10,
            _ => panic!("not a hex digit"),
        }
    };
    s.as_bytes().chunks(2).map(|pair| digit(pair[0]) * 16 + digit(pair[1])).collect()
}

#[test]
fn calc_high_bps_total_rewards_delta() {
    const SECONDS_PER_MONTH: u64 = 2629800;

    let legacy_cbm = create_legacy_manager();
    let pre_deflationary_rewards = legacy_cbm.pre_deflationary_phase_base_subsidy() * legacy_cbm.deflationary_phase_daa_score();
    let total_rewards: u64 = pre_deflationary_rewards + SUBSIDY_BY_MONTH_TABLE.iter().map(|x| x * SECONDS_PER_MONTH).sum::<u64>();
    let testnet_11_bps = 10;
    let total_high_bps_rewards_rounded_up: u64 = pre_deflationary_rewards
        + SUBSIDY_BY_MONTH_TABLE
            .iter()
            .map(|x| ((x + testnet_11_bps - 1) / testnet_11_bps * testnet_11_bps) * SECONDS_PER_MONTH)
            .sum::<u64>();

    let cbm = create_manager_with_block_time(100);
    let total_high_bps_rewards: u64 =
        pre_deflationary_rewards + cbm.subsidy_by_month_table().iter().map(|x| x * cbm.blocks_per_month()).sum::<u64>();
    assert_eq!(total_high_bps_rewards_rounded_up, total_high_bps_rewards, "subsidy adjusted to bps must be rounded up");

    let delta = total_high_bps_rewards as i64 - total_rewards as i64;

    println!("Total rewards: {} sompi => {} AIX", total_rewards, total_rewards / SOMPI_PER_ASTRIX);
    println!("Total high bps rewards: {} sompi => {} AIX", total_high_bps_rewards, total_high_bps_rewards / SOMPI_PER_ASTRIX);
    println!("Delta: {} sompi => {} AIX", delta, delta / SOMPI_PER_ASTRIX as i64);
    // In a 10 BPS network, the induced increase in total rewards is 51 AIX
    assert_eq!(delta / SOMPI_PER_ASTRIX as i64, 51);
}

#[test]
fn subsidy_by_month_table_test() {
    let cbm = create_legacy_manager();
    cbm.subsidy_by_month_table().iter().enumerate().for_each(|(i, x)| {
        assert_eq!(SUBSIDY_BY_MONTH_TABLE[i], *x, "for 1 BPS, const table and precomputed values must match");
    });

    for target_time_per_block in [1000u64, 100] {
        let cbm = create_manager_with_block_time(target_time_per_block);
        cbm.subsidy_by_month_table().iter().enumerate().for_each(|(i, x)| {
            assert_eq!(
                (SUBSIDY_BY_MONTH_TABLE[i] + cbm.bps() - 1) / cbm.bps(),
                *x,
                "{}: locally computed and precomputed values must match",
                target_time_per_block
            );
        });
    }
}

#[test]
fn payload_serialization_test() {
    let cbm = create_mainnet_manager();

    let script_data = [33u8, 255];
    let extra_data = [2u8, 3];
    let data = CoinbaseData {
        blue_score: 56,
        subsidy: 44000000000,
        miner_data: MinerData {
            script_public_key: ScriptPublicKey::new(0, script_data.to_vec()),
            extra_data: extra_data.to_vec(),
        },
    };

    let payload = cbm.serialize_coinbase_payload(&data).unwrap();
    let deserialized_data = cbm.deserialize_coinbase_payload(&payload).unwrap();

    assert_eq!(data, deserialized_data);

    // Test an actual mainnet payload
    let payload_hex =
        "b612c90100000000041a763e07000000000022202b32443ff740012157716d81216d09aebc39e5493c93a7181d92cb756c02c560ac302e31322e382f";
    let payload = hex_decode(payload_hex);
    assert_eq!(payload.len(), payload_hex.len() / 2);
    let deserialized_data = cbm.deserialize_coinbase_payload(&payload).unwrap();

    let expected_data = CoinbaseData {
        blue_score: 29954742,
        subsidy: 31112698372,
        miner_data: MinerData {
            script_public_key: ScriptPublicKey::new(
                0,
                vec![
                    32, 43, 50, 68, 63, 247, 64, 1, 33, 87, 113, 109, 129, 33, 109, 9, 174, 188, 57, 229, 73, 60, 147, 167, 24,
                    29, 146, 203, 117, 108, 2, 197, 96, 172,
                ],
            ),
            extra_data: vec![48u8, 46, 49, 50, 46, 56, 47],
        },
    };
    assert_eq!(expected_data, deserialized_data);
}

#[test]
fn modify_payload_test() {
    let cbm = create_mainnet_manager();

    let script_data = [33u8, 255];
    let extra_data = [2u8, 3, 23, 98];
    let data = CoinbaseData {
        blue_score: 56345,
        subsidy: 44000000000,
        miner_data: MinerData {
            script_public_key: ScriptPublicKey::new(0, script_data.to_vec()),
            extra_data: extra_data.to_vec(),
        },
    };

    let data2 = CoinbaseData {
        blue_score: data.blue_score,
        subsidy: data.subsidy,
        miner_data: MinerData {
            // Modify only miner data
            script_public_key: ScriptPublicKey::new(0, vec![33u8, 255, 33]),
            extra_data: vec![2u8, 3, 23, 98, 34, 34],
        },
    };

    let mut payload = cbm.serialize_coinbase_payload(&data).unwrap();
    payload = cbm.modify_coinbase_payload(payload, &data2.miner_data).unwrap(); // Update the payload with the modified miner data
    let deserialized_data = cbm.deserialize_coinbase_payload(&payload).unwrap();

    assert_eq!(data2, deserialized_data);
}

#[test]
fn subsidy_test() {
    const PRE_DEFLATIONARY_PHASE_BASE_SUBSIDY: u64 = 50000000000;
    const DEFLATIONARY_PHASE_INITIAL_SUBSIDY: u64 = 44000000000;
    const SECONDS_PER_MONTH: u64 = 2629800;
    const SECONDS_PER_HALVING: u64 = SECONDS_PER_MONTH * 12;

    // one block per second (main network) and ten blocks per second (testnet 11)
    for (target_time_per_block, deflationary_phase_daa_score) in [(1000u64, 15519600u64), (100, 15519600 * 10)] {
        let bps = 1000 / target_time_per_block;
        let cbm = CoinbaseManager::new(
            150,
            204,
            deflationary_phase_daa_score,
            PRE_DEFLATIONARY_PHASE_BASE_SUBSIDY / bps,
            target_time_per_block,
        );
        assert_eq!(cbm.bps(), bps);

        let pre_deflationary_phase_base_subsidy = PRE_DEFLATIONARY_PHASE_BASE_SUBSIDY / bps;
        let deflationary_phase_initial_subsidy = DEFLATIONARY_PHASE_INITIAL_SUBSIDY / bps;
        let blocks_per_halving = SECONDS_PER_HALVING * bps;

        struct Test {
            name: &'static str,
            daa_score: u64,
            expected: u64,
        }

        let tests = vec![
            Test { name: "first mined block", daa_score: 1, expected: pre_deflationary_phase_base_subsidy },
            Test {
                name: "before deflationary phase",
                daa_score: deflationary_phase_daa_score - 1,
                expected: pre_deflationary_phase_base_subsidy,
            },
            Test {
                name: "start of deflationary phase",
                daa_score: deflationary_phase_daa_score,
                expected: deflationary_phase_initial_subsidy,
            },
            Test {
                name: "after one halving",
                daa_score: deflationary_phase_daa_score + blocks_per_halving,
                expected: deflationary_phase_initial_subsidy / 2,
            },
            Test {
                name: "after 2 halvings",
                daa_score: deflationary_phase_daa_score + 2 * blocks_per_halving,
                expected: deflationary_phase_initial_subsidy / 4,
            },
            Test {
                name: "after 5 halvings",
                daa_score: deflationary_phase_daa_score + 5 * blocks_per_halving,
                expected: deflationary_phase_initial_subsidy / 32,
            },
            Test {
                name: "after 32 halvings",
                daa_score: deflationary_phase_daa_score + 32 * blocks_per_halving,
                expected: ((DEFLATIONARY_PHASE_INITIAL_SUBSIDY / 2_u64.pow(32)) + cbm.bps() - 1) / cbm.bps(),
            },
            Test {
                name: "just before subsidy depleted",
                daa_score: deflationary_phase_daa_score + 35 * blocks_per_halving,
                expected: 1,
            },
            Test {
                name: "after subsidy depleted",
                daa_score: deflationary_phase_daa_score + 36 * blocks_per_halving,
                expected: 0,
            },
        ];

        for t in tests {
            assert_eq!(cbm.calc_block_subsidy(t.daa_score), t.expected, "{} test '{}' failed", bps, t.name);
            if bps == 1 {
                assert_eq!(cbm.legacy_calc_block_subsidy(t.daa_score), t.expected, "{} test '{}' failed", bps, t.name);
            }
        }
    }
}

#[test]
fn last_rewarding_month() {
    let cbm = create_legacy_manager();
    assert_eq!(cbm.calc_block_subsidy(0), 5000000000000000);
    assert_eq!(cbm.calc_block_subsidy(6), 5000000000000000);
    assert_eq!(cbm.calc_block_subsidy(7 + 425 * SECONDS_PER_MONTH - 1), 1);
    assert_eq!(cbm.calc_block_subsidy(7 + 426 * SECONDS_PER_MONTH - 1), 1);
    assert_eq!(cbm.calc_block_subsidy(7 + 426 * SECONDS_PER_MONTH), 0);
    assert_eq!(cbm.calc_block_subsidy(u64::MAX), 0);
}

#[test]
fn subsidy_never_rises() {
    for target_time_per_block in [1000u64, 100, 8] {
        let cbm = create_manager_with_block_time(target_time_per_block);
        let dps = cbm.deflationary_phase_daa_score();
        let mut previous = cbm.calc_block_subsidy(dps);
        for month in 1..(SUBSIDY_BY_MONTH_TABLE_SIZE as u64 + 3) {
            let subsidy = cbm.calc_block_subsidy(dps + month * cbm.blocks_per_month());
            assert!(subsidy <= previous);
            previous = subsidy;
        }
        assert_eq!(cbm.calc_block_subsidy(u64::MAX), 0);
    }
    for i in 1..SUBSIDY_BY_MONTH_TABLE_SIZE {
        assert!(SUBSIDY_BY_MONTH_TABLE[i] <= SUBSIDY_BY_MONTH_TABLE[i - 1]);
    }
}

#[test]
fn subsidy_at_ten_blocks_per_second_is_rounded_up() {
    let cbm = create_manager_with_block_time(100);
    assert_eq!(cbm.bps(), 10);
    assert_eq!(cbm.blocks_per_month(), SECONDS_PER_MONTH * 10);
    let dps = cbm.deflationary_phase_daa_score();
    assert_eq!(cbm.calc_block_subsidy(dps), 4400000000);
    assert_eq!(cbm.calc_block_subsidy(dps + cbm.blocks_per_month()), 4153046976);
    // the month that pays 1 sompi per second still pays 1 sompi per block
    let last_paying_month = SUBSIDY_BY_MONTH_TABLE_SIZE as u64 - 2;
    assert_eq!(cbm.calc_block_subsidy(dps + last_paying_month * cbm.blocks_per_month()), 1);
    assert_eq!(cbm.calc_block_subsidy(dps + (last_paying_month + 1) * cbm.blocks_per_month()), 0);
    for (i, x) in cbm.subsidy_by_month_table().iter().enumerate() {
        let base = SUBSIDY_BY_MONTH_TABLE[i];
        assert!(x * 10 >= base && x * 10 < base + 10);
        assert_eq!(*x == 0, base == 0);
    }
}

#[test]
fn legacy_subsidy_matches_at_one_block_per_second() {
    let cbm = create_mainnet_manager();
    let legacy = create_legacy_manager();
    for daa_score in [0u64, 1, 6, 7, 8, 15519599, 15519600, 15519600 + SECONDS_PER_MONTH * 100, u64::MAX] {
        assert_eq!(cbm.calc_block_subsidy(daa_score), cbm.legacy_calc_block_subsidy(daa_score));
        assert_eq!(legacy.calc_block_subsidy(daa_score), legacy.legacy_calc_block_subsidy(daa_score));
    }
    assert_eq!(legacy.legacy_calc_block_subsidy(6), 5000000000000000);
    assert_eq!(legacy.legacy_calc_block_subsidy(7), 44000000000);
    // the legacy schedule ignores the block rate
    let fast = create_manager_with_block_time(100);
    assert_eq!(fast.legacy_calc_block_subsidy(15519600), 44000000000);
    assert_eq!(fast.calc_block_subsidy(15519600), 4400000000);
}

#[test]
fn clone_keeps_the_schedule() {
    let cbm = create_manager_with_block_time(100);
    let copy = cbm.clone();
    assert_eq!(copy.subsidy_by_month_table(), cbm.subsidy_by_month_table());
    assert_eq!(copy.target_time_per_block(), 100);
    assert_eq!(copy.coinbase_payload_script_public_key_max_len(), 150);
    assert_eq!(copy.max_coinbase_payload_len(), 204);
    assert_eq!(copy.calc_block_subsidy(15519600 + 1000000), cbm.calc_block_subsidy(15519600 + 1000000));
}

#[test]
fn serialized_payload_layout() {
    let cbm = create_mainnet_manager();
    let data = CoinbaseData {
        blue_score: 0x0102030405060708,
        subsidy: 0x1112131415161718,
        miner_data: MinerData::new(ScriptPublicKey::new(0x2122, vec![0xaa, 0xbb, 0xcc]), vec![0xee]),
    };
    let payload = cbm.serialize_coinbase_payload(&data).unwrap();
    assert_eq!(
        payload,
        vec![
            8, 7, 6, 5, 4, 3, 2, 1, 0x18, 0x17, 0x16, 0x15, 0x14, 0x13, 0x12, 0x11, 0x22, 0x21, 3, 0xaa, 0xbb, 0xcc, 0xee
        ]
    );
}

#[test]
fn serialize_refuses_long_script() {
    let cbm = CoinbaseManager::new(2, 204, 7, 1, 1000);
    let data = CoinbaseData {
        blue_score: 1,
        subsidy: 2,
        miner_data: MinerData::new(ScriptPublicKey::new(0, vec![1, 2, 3]), vec![]),
    };
    assert_eq!(cbm.serialize_coinbase_payload(&data), Err(CoinbaseError::PayloadScriptPublicKeyLenAboveMax(3, 2)));
    let ok = CoinbaseData {
        blue_score: 1,
        subsidy: 2,
        miner_data: MinerData::new(ScriptPublicKey::new(0, vec![1, 2]), vec![]),
    };
    assert!(cbm.serialize_coinbase_payload(&ok).is_ok());
    assert_eq!(
        cbm.modify_coinbase_payload(vec![0; 19], &data.miner_data),
        Err(CoinbaseError::PayloadScriptPublicKeyLenAboveMax(3, 2))
    );
}

#[test]
fn modify_keeps_short_prefix() {
    let cbm = create_mainnet_manager();
    let miner_data = MinerData::new(ScriptPublicKey::new(1, vec![9]), vec![7, 7]);
    let payload = cbm.modify_coinbase_payload(vec![5, 6, 7], &miner_data).unwrap();
    assert_eq!(payload, vec![5, 6, 7, 1, 0, 1, 9, 7, 7]);
}

#[test]
fn deserialize_errors() {
    let cbm = CoinbaseManager::new(3, 30, 7, 1, 1000);
    // too short
    assert_eq!(cbm.deserialize_coinbase_payload(&[0u8; 18]), Err(CoinbaseError::PayloadLenBelowMin(18, 19)));
    // too long
    assert_eq!(cbm.deserialize_coinbase_payload(&[0u8; 31]), Err(CoinbaseError::PayloadLenAboveMax(31, 30)));
    // script length above its maximum
    let mut payload = vec![0u8; 25];
    payload[18] = 4;
    assert_eq!(cbm.deserialize_coinbase_payload(&payload), Err(CoinbaseError::PayloadScriptPublicKeyLenAboveMax(4, 3)));
    // payload too short for the announced script
    let mut payload = vec![0u8; 21];
    payload[18] = 3;
    assert_eq!(cbm.deserialize_coinbase_payload(&payload), Err(CoinbaseError::PayloadCantContainScriptPublicKey(21, 22)));
    // exactly enough
    let mut payload = vec![0u8; 22];
    payload[18] = 3;
    payload[19] = 1;
    payload[20] = 2;
    payload[21] = 3;
    let data = cbm.deserialize_coinbase_payload(&payload).unwrap();
    assert_eq!(data.miner_data.script_public_key.script(), &[1, 2, 3]);
    assert!(data.miner_data.extra_data.is_empty());
}

#[test]
fn read_then_write_gives_the_payload() {
    let cbm = create_mainnet_manager();
    let payload = hex_decode(
        "b612c90100000000041a763e07000000000022202b32443ff740012157716d81216d09aebc39e5493c93a7181d92cb756c02c560ac302e31322e382f",
    );
    let data = cbm.deserialize_coinbase_payload(&payload).unwrap();
    assert_eq!(cbm.serialize_coinbase_payload(&data).unwrap(), payload);
}

#[test]
fn written_payload_over_the_length_limit_is_not_read() {
    let cbm = create_mainnet_manager();
    let data = CoinbaseData {
        blue_score: 1,
        subsidy: 2,
        miner_data: MinerData::new(ScriptPublicKey::new(0, vec![1]), vec![0; 200]),
    };
    let payload = cbm.serialize_coinbase_payload(&data).unwrap();
    assert_eq!(payload.len(), 220);
    assert_eq!(cbm.deserialize_coinbase_payload(&payload), Err(CoinbaseError::PayloadLenAboveMax(220, 204)));
}

#[test]
fn script_public_key_accessors_and_clone() {
    let spk = ScriptPublicKey::new(7, vec![1, 2, 3]);
    assert_eq!(spk.version(), 7);
    assert_eq!(spk.script(), &[1, 2, 3]);
    let copy = spk.clone();
    assert_eq!(copy, spk);
}
