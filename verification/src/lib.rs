//! Verified core of the Axionvera protocol contracts: the resource
//! lifecycle state machine, the shared protocol interface types, the
//! storage-layer rules and a token ledger used to exercise vaults.

pub mod interfaces;
pub mod resources;
pub mod storage;
pub mod token;
