//! Records exchanged with a node's RPC interface, and sample constructors for
//! the processed-deploy record.
use vstd::prelude::*;

verus! {

/// Sample values of a processed-deploy record: with two transfers given by
/// default values, with none, and with two populated transfers.
pub trait New: Sized {
    fn new_with_transfers() -> Self;

    fn new_without_transfers() -> Self;

    fn new_populated_transfers() -> Self;
}

/// A node's answer to a state-root-hash query.
#[derive(Clone, Debug)]
pub struct StateRootHashRpcResult {
    pub api_version: String,
    pub state_root_hash: String,
}

/// A node's answer to a balance query.
#[derive(Clone, Debug)]
pub struct BalanceRpcResult {
    pub api_version: String,
    pub balance_value: String,
    pub merkle_proof: String,
}

} // verus!
