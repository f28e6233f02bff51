use astrix::coinbase::CoinbaseManager;
use astrix::payload::{MinerData, ScriptPublicKey};
use astrix::reward::{BlockRewardData, BlockRewardMap, GhostdagData};
use astrix::tx::{subnetwork_id_coinbase, BlockHash, TransactionOutput, TX_VERSION};

fn h(n: u64) -> BlockHash {
    BlockHash::from_u64_word(n)
}

fn spk(b: u8) -> ScriptPublicKey {
    ScriptPublicKey::new(0, vec![b, b])
}

#[test]
fn reward_map_insert_and_get() {
    let mut map = BlockRewardMap::new();
    assert!(map.get(&h(1)).is_none());
    map.insert(h(1), BlockRewardData::new(10, 1, spk(1)));
    map.insert(h(2), BlockRewardData::new(20, 2, spk(2)));
    assert_eq!(map.get(&h(1)).unwrap().subsidy, 10);
    assert_eq!(map.get(&h(2)).unwrap().total_fees, 2);
    map.insert(h(1), BlockRewardData::new(30, 3, spk(3)));
    assert_eq!(map.get(&h(1)), Some(&BlockRewardData::new(30, 3, spk(3))));
    assert!(map.get(&h(3)).is_none());
}

#[test]
fn hash_constructors() {
    assert_eq!(BlockHash::from_le_u64([0, 0, 0, 5]), BlockHash::from_u64_word(5));
    assert_ne!(BlockHash::from_le_u64([5, 0, 0, 0]), BlockHash::from_u64_word(5));
}

#[test]
fn expected_coinbase_transaction_pays_blues_and_reds() {
    let cbm = CoinbaseManager::new(150, 204, 100, 500, 1000);
    let mut rewards = BlockRewardMap::new();
    rewards.insert(h(1), BlockRewardData::new(50, 5, spk(1)));
    rewards.insert(h(2), BlockRewardData::new(0, 0, spk(2)));
    rewards.insert(h(3), BlockRewardData::new(40, 0, spk(3)));
    rewards.insert(h(4), BlockRewardData::new(7, 3, spk(4)));
    rewards.insert(h(5), BlockRewardData::new(1, 1, spk(5)));
    rewards.insert(h(6), BlockRewardData::new(100, 100, spk(6)));
    let ghostdag = GhostdagData { blue_score: 77, mergeset_blues: vec![h(1), h(2), h(3)], mergeset_reds: vec![h(4), h(5), h(6)] };
    // h(3) and h(6) are outside the DAA window
    let non_daa = vec![h(3), h(6)];
    let miner_data = MinerData::new(spk(9), vec![1, 2, 3]);
    let template = cbm.expected_coinbase_transaction(10, miner_data, &ghostdag, &rewards, &non_daa).unwrap();
    assert!(template.has_red_reward);
    assert_eq!(template.tx.version, TX_VERSION);
    assert_eq!(template.tx.lock_time, 0);
    assert_eq!(template.tx.gas, 0);
    assert_eq!(template.tx.subnetwork_id, subnetwork_id_coinbase());
    assert_eq!(template.tx.outputs, vec![TransactionOutput::new(55, spk(1)), TransactionOutput::new(12, spk(9))]);
    // everything the blocks in the DAA window earned is paid: blues 55 + 0, reds 10 + 2
    let paid: u64 = template.tx.outputs.iter().map(|o| o.value).sum();
    assert_eq!(paid, 55 + 0 + 10 + 2);
    let expected_payload = cbm
        .serialize_coinbase_payload(&astrix::payload::CoinbaseData {
            blue_score: 77,
            subsidy: 500,
            miner_data: MinerData::new(spk(9), vec![1, 2, 3]),
        })
        .unwrap();
    assert_eq!(template.tx.payload, expected_payload);
    assert_eq!(cbm.deserialize_coinbase_payload(&template.tx.payload).unwrap().subsidy, 500);
}

#[test]
fn expected_coinbase_transaction_without_reds() {
    let cbm = CoinbaseManager::new(150, 204, 100, 500, 1000);
    let mut rewards = BlockRewardMap::new();
    rewards.insert(h(1), BlockRewardData::new(50, 5, spk(1)));
    rewards.insert(h(4), BlockRewardData::new(0, 0, spk(4)));
    let ghostdag = GhostdagData { blue_score: 3, mergeset_blues: vec![h(1)], mergeset_reds: vec![h(4)] };
    let template = cbm.expected_coinbase_transaction(200, MinerData::new(spk(9), vec![]), &ghostdag, &rewards, &vec![]).unwrap();
    assert!(!template.has_red_reward);
    assert_eq!(template.tx.outputs, vec![TransactionOutput::new(55, spk(1))]);
    assert_eq!(cbm.deserialize_coinbase_payload(&template.tx.payload).unwrap().subsidy, 44000000000);
}

#[test]
fn expected_coinbase_transaction_refuses_long_script() {
    let cbm = CoinbaseManager::new(1, 204, 100, 500, 1000);
    let rewards = BlockRewardMap::new();
    let ghostdag = GhostdagData { blue_score: 3, mergeset_blues: vec![], mergeset_reds: vec![] };
    let r = cbm.expected_coinbase_transaction(200, MinerData::new(spk(9), vec![]), &ghostdag, &rewards, &vec![]);
    assert_eq!(r, Err(astrix::payload::CoinbaseError::PayloadScriptPublicKeyLenAboveMax(2, 1)));
}
