//! Coinbase construction and the subsidy schedule, RPC message classification and method
//! routing for the astrix node.
pub mod coinbase;
pub mod coinbase_laws;
pub mod ext;
pub mod interface;
pub mod notify;
pub mod payload;
pub mod payload_type;
pub mod protowire;
pub mod reward;
pub mod subsidy_table;
pub mod tx;
