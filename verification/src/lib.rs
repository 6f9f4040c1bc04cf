//! Expected-consensus block validation and chain-weight fork choice for a
//! Filecoin-style node, together with the small decision procedures of the
//! node's command line and JSON-RPC surface.
//!
//! Every executable function carries a contract over a mathematical model of
//! its arguments; calls into other crates are confined to a handful of
//! wrappers whose contracts are taken on trust and documented as such.

pub mod access;
pub mod beacon;
pub mod beacon_json;
pub mod beacon_json_vec;
pub mod bigint;
pub mod bitswap;
pub mod block;
pub mod bytes;
pub mod cid;
pub mod consensus;
pub mod errors;
pub mod fetch_params;
pub mod init_actor;
pub mod market_actor;
pub mod rpc_client;
pub mod text;
pub mod tipset;
pub mod validation;
pub mod weight;
