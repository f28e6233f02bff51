//! Coinbase data and the byte layout of a coinbase payload.
//!
//! A payload is, in order: the blue score (`u64`, little endian), the subsidy (`u64`, little
//! endian), the script public key version (`u16`, little endian), the script public key length
//! (one byte), the script public key, and the miner's extra data up to the end.
use vstd::prelude::*;
use vstd::bytes::{
    spec_u16_from_le_bytes, spec_u16_to_le_bytes, spec_u64_from_le_bytes, spec_u64_to_le_bytes,
};

verus! {

/// Length of the blue score field.
pub const LENGTH_OF_BLUE_SCORE: usize = 8;

/// Length of the subsidy field.
pub const LENGTH_OF_SUBSIDY: usize = 8;

/// Length of the script public key version field.
pub const LENGTH_OF_SCRIPT_PUB_KEY_VERSION: usize = 2;

/// Length of the script public key length field.
pub const LENGTH_OF_SCRIPT_PUB_KEY_LENGTH: usize = 1;

/// Length of a payload with an empty script public key and no extra data.
pub const MIN_PAYLOAD_LENGTH: usize = LENGTH_OF_BLUE_SCORE + LENGTH_OF_SUBSIDY
    + LENGTH_OF_SCRIPT_PUB_KEY_VERSION + LENGTH_OF_SCRIPT_PUB_KEY_LENGTH;

/// A versioned locking script.
#[derive(Debug, PartialEq, Eq)]
pub struct ScriptPublicKey {
    pub version: u16,
    pub script: Vec<u8>,
}

impl View for ScriptPublicKey {
    type V = (u16, Seq<u8>);

    open spec fn view(&self) -> (u16, Seq<u8>) {
        (self.version, self.script@)
    }
}

impl ScriptPublicKey {
    /// A script public key of the given version and script.
    pub fn new(version: u16, script: Vec<u8>) -> (r: Self)
        ensures
            r@ == (version, script@),
    {
        ScriptPublicKey { version, script }
    }

    /// The script's version.
    pub fn version(&self) -> (r: u16)
        ensures
            r == self.version,
    {
        self.version
    }

    /// The script's bytes.
    pub fn script(&self) -> (r: &[u8])
        ensures
            r@ == self.script@,
    {
        self.script.as_slice()
    }
}

impl Clone for ScriptPublicKey {
    fn clone(&self) -> (r: Self)
        ensures
            r@ == self@,
    {
        ScriptPublicKey { version: self.version, script: vstd::slice::slice_to_vec(self.script.as_slice()) }
    }
}

/// What a miner puts in the coinbase payload: where the reward goes, and free-form extra data.
#[derive(Debug, PartialEq, Eq)]
pub struct MinerData {
    pub script_public_key: ScriptPublicKey,
    pub extra_data: Vec<u8>,
}

impl View for MinerData {
    type V = ((u16, Seq<u8>), Seq<u8>);

    open spec fn view(&self) -> ((u16, Seq<u8>), Seq<u8>) {
        (self.script_public_key@, self.extra_data@)
    }
}

impl MinerData {
    /// Miner data with the given script public key and extra data.
    pub fn new(script_public_key: ScriptPublicKey, extra_data: Vec<u8>) -> (r: Self)
        ensures
            r@ == (script_public_key@, extra_data@),
    {
        MinerData { script_public_key, extra_data }
    }
}

/// The content of a coinbase payload.
#[derive(Debug, PartialEq, Eq)]
pub struct CoinbaseData {
    pub blue_score: u64,
    pub subsidy: u64,
    pub miner_data: MinerData,
}

impl View for CoinbaseData {
    type V = (u64, u64, ((u16, Seq<u8>), Seq<u8>));

    open spec fn view(&self) -> (u64, u64, ((u16, Seq<u8>), Seq<u8>)) {
        (self.blue_score, self.subsidy, self.miner_data@)
    }
}

/// Why a coinbase payload cannot be built or read.
#[derive(Debug, Clone, Copy, PartialEq, Eq, Structural)]
pub enum CoinbaseError {
    /// The payload length, and the minimum payload length.
    PayloadLenBelowMin(usize, usize),
    /// The payload length, and the maximum payload length.
    PayloadLenAboveMax(usize, usize),
    /// The script public key length, and its maximum.
    PayloadScriptPublicKeyLenAboveMax(usize, u8),
    /// The payload length, and the length it needs to hold the announced script public key.
    PayloadCantContainScriptPublicKey(usize, usize),
}

/// The bytes that the miner data takes in a payload, after the blue score and the subsidy.
pub open spec fn miner_data_bytes(version: u16, script: Seq<u8>, extra_data: Seq<u8>) -> Seq<u8> {
    spec_u16_to_le_bytes(version) + seq![script.len() as u8] + script + extra_data
}

/// The payload that holds the given coinbase data.
pub open spec fn payload_bytes(
    blue_score: u64,
    subsidy: u64,
    version: u16,
    script: Seq<u8>,
    extra_data: Seq<u8>,
) -> Seq<u8> {
    spec_u64_to_le_bytes(blue_score) + spec_u64_to_le_bytes(subsidy) + miner_data_bytes(
        version,
        script,
        extra_data,
    )
}

/// A payload whose miner data is replaced: the blue score and subsidy bytes stay (as many of
/// them as there are), and the new miner data follows.
pub open spec fn modified_payload_bytes(
    payload: Seq<u8>,
    version: u16,
    script: Seq<u8>,
    extra_data: Seq<u8>,
) -> Seq<u8> {
    let kept = if payload.len() <= LENGTH_OF_BLUE_SCORE + LENGTH_OF_SUBSIDY {
        payload
    } else {
        payload.take((LENGTH_OF_BLUE_SCORE + LENGTH_OF_SUBSIDY) as int)
    };
    kept + miner_data_bytes(version, script, extra_data)
}

/// The blue score that a payload holds.
pub open spec fn payload_blue_score(payload: Seq<u8>) -> u64 {
    spec_u64_from_le_bytes(payload.subrange(0, 8))
}

/// The subsidy that a payload holds.
pub open spec fn payload_subsidy(payload: Seq<u8>) -> u64 {
    spec_u64_from_le_bytes(payload.subrange(8, 16))
}

/// The script public key version that a payload holds.
pub open spec fn payload_script_version(payload: Seq<u8>) -> u16 {
    spec_u16_from_le_bytes(payload.subrange(16, 18))
}

/// The script public key length that a payload announces.
pub open spec fn payload_script_len(payload: Seq<u8>) -> u8 {
    payload[18]
}

/// The script public key that a payload holds.
pub open spec fn payload_script(payload: Seq<u8>) -> Seq<u8> {
    payload.subrange(MIN_PAYLOAD_LENGTH as int, MIN_PAYLOAD_LENGTH + payload_script_len(payload))
}

/// The extra data that a payload holds.
pub open spec fn payload_extra_data(payload: Seq<u8>) -> Seq<u8> {
    payload.subrange(MIN_PAYLOAD_LENGTH + payload_script_len(payload), payload.len() as int)
}

/// Why a payload cannot be read under the given limits, checked in this order; `None` when it can.
pub open spec fn payload_error(payload: Seq<u8>, script_max_len: u8, payload_max_len: usize) -> Option<
    CoinbaseError,
> {
    if payload.len() < MIN_PAYLOAD_LENGTH {
        Some(CoinbaseError::PayloadLenBelowMin(payload.len() as usize, MIN_PAYLOAD_LENGTH))
    } else if payload.len() > payload_max_len {
        Some(CoinbaseError::PayloadLenAboveMax(payload.len() as usize, payload_max_len))
    } else if payload_script_len(payload) > script_max_len {
        Some(
            CoinbaseError::PayloadScriptPublicKeyLenAboveMax(
                payload_script_len(payload) as usize,
                script_max_len,
            ),
        )
    } else if payload.len() - MIN_PAYLOAD_LENGTH < payload_script_len(payload) {
        Some(
            CoinbaseError::PayloadCantContainScriptPublicKey(
                payload.len() as usize,
                (MIN_PAYLOAD_LENGTH + payload_script_len(payload)) as usize,
            ),
        )
    } else {
        None
    }
}

/// The coinbase data that a readable payload holds.
pub open spec fn payload_content(payload: Seq<u8>) -> (u64, u64, ((u16, Seq<u8>), Seq<u8>)) {
    (
        payload_blue_score(payload),
        payload_subsidy(payload),
        ((payload_script_version(payload), payload_script(payload)), payload_extra_data(payload)),
    )
}

} // verus!
