//! Block hashes, transaction outputs and the coinbase transaction.
use vstd::prelude::*;

use crate::payload::ScriptPublicKey;

verus! {

/// Transaction version of a coinbase transaction.
pub const TX_VERSION: u16 = 0;

/// Length of a subnetwork id, in bytes.
pub const SUBNETWORK_ID_SIZE: usize = 20;

/// A 256-bit block hash, as four little-endian 64-bit words.
#[derive(Debug, Clone, Copy, PartialEq, Eq, Structural, Hash)]
pub struct BlockHash(pub u64, pub u64, pub u64, pub u64);

impl BlockHash {
    /// The hash whose words are `words`, least significant first.
    pub fn from_le_u64(words: [u64; 4]) -> (r: Self)
        ensures
            r == BlockHash(words[0], words[1], words[2], words[3]),
    {
        BlockHash(words[0], words[1], words[2], words[3])
    }

    /// The hash whose most significant word is `word` and whose other words are zero.
    pub fn from_u64_word(word: u64) -> (r: Self)
        ensures
            r == BlockHash(0, 0, 0, word),
    {
        BlockHash(0, 0, 0, word)
    }
}

/// Identifies the subnetwork a transaction belongs to.
#[derive(Debug, Clone, Copy, PartialEq, Eq)]
pub struct SubnetworkId(pub [u8; SUBNETWORK_ID_SIZE]);

/// The subnetwork of coinbase transactions: a one, then zeros.
pub open spec fn is_coinbase_subnetwork(id: SubnetworkId) -> bool {
    &&& id.0@.len() == SUBNETWORK_ID_SIZE
    &&& id.0@[0] == 1
    &&& forall|i: int| 1 <= i < SUBNETWORK_ID_SIZE ==> id.0@[i] == 0
}

/// The subnetwork id of coinbase transactions.
pub fn subnetwork_id_coinbase() -> (r: SubnetworkId)
    ensures
        is_coinbase_subnetwork(r),
{
    SubnetworkId([1, 0, 0, 0, 0, 0, 0, 0, 0, 0, 0, 0, 0, 0, 0, 0, 0, 0, 0, 0])
}

/// An amount paid to a script public key.
#[derive(Debug, PartialEq, Eq)]
pub struct TransactionOutput {
    pub value: u64,
    pub script_public_key: ScriptPublicKey,
}

impl View for TransactionOutput {
    type V = (u64, (u16, Seq<u8>));

    open spec fn view(&self) -> (u64, (u16, Seq<u8>)) {
        (self.value, self.script_public_key@)
    }
}

impl TransactionOutput {
    /// An output paying `value` to `script_public_key`.
    pub fn new(value: u64, script_public_key: ScriptPublicKey) -> (r: Self)
        ensures
            r@ == (value, script_public_key@),
    {
        TransactionOutput { value, script_public_key }
    }
}

/// A transaction without inputs, as a coinbase transaction is.
#[derive(Debug, PartialEq, Eq)]
pub struct Transaction {
    pub version: u16,
    pub outputs: Vec<TransactionOutput>,
    pub lock_time: u64,
    pub subnetwork_id: SubnetworkId,
    pub gas: u64,
    pub payload: Vec<u8>,
}

impl Transaction {
    /// The views of the outputs, in order.
    pub open spec fn output_views(&self) -> Seq<(u64, (u16, Seq<u8>))> {
        self.outputs@.map_values(|o: TransactionOutput| o@)
    }
}

} // verus!
