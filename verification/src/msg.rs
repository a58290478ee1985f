//! The hub's command and query surface.
//!
//! Wire formats live at the host boundary; these are the plain shapes
//! the hub decides on.

use vstd::prelude::*;

verus! {

/// Provisioning-time input: which code to instantiate the collection
/// contract from, the unbonding delay, and the collection's naming.
#[derive(Clone, Debug, PartialEq, Eq)]
pub struct InstantiateMsg {
    pub cw721_code_id: u64,
    pub cw721_unbonding_seconds: u64,
    pub cw721_collection: CW721Collection,
}

#[derive(Clone, Debug, PartialEq, Eq)]
pub struct CW721Collection {
    /// Name of the NFT contract
    pub name: String,
    /// Symbol of the NFT contract
    pub symbol: String,
}

/// The five hub commands.
#[derive(Clone, Debug, PartialEq, Eq)]
pub enum ExecuteMsg {
    MsgDelegate {},
    MsgStartUnbonding { token_id: String },
    MsgRedelegate { token_id: String },
    MsgClaimRewards { token_id: String },
    MsgRedeemBond { token_id: String },
}

#[derive(Clone, Debug, PartialEq, Eq)]
pub enum QueryMsg {
    GetConfig {},
}

#[derive(Clone, Debug, PartialEq, Eq)]
pub enum MigrateMsg {
    Migrate {},
}

} // verus!
