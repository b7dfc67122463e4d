//! Verified core of two IPFS-backed runtime modules: a storage miner that
//! pins data for a flat fee, and a module that mints artwork whose metadata
//! lives on IPFS. The runtime plumbing (origins, storage backend, balance
//! transfers, the off-chain IPFS node and signed transactions) stays with the
//! caller; every decision taken on the way is here, with its contract.

pub mod art_run;
pub mod art_worker;
pub mod byte_map;
pub mod mock;
pub mod mugwort_ipfs;
pub mod offchain;
pub mod primitives;
pub mod storage_miner;
pub mod storage_run;
pub mod storage_worker;
