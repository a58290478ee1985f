//! Query shapes of the host's alliance and token-factory modules.
//!
//! The hub only addresses these modules through the host; the shapes are
//! plain values, serialized at the boundary.

use vstd::prelude::*;

verus! {

#[derive(Clone, Debug, PartialEq, Eq)]
pub enum CosmosQueryMsg {
    Custom(CustomQueryMsg),
}

#[derive(Clone, Debug, PartialEq, Eq)]
pub enum CustomQueryMsg {
    Alliance(AllianceQueryMsg),
    Token(TokenFactoryQuery),
}

#[derive(Clone, Debug, PartialEq, Eq)]
pub enum AllianceQueryMsg {
    Alliance { denom: String },
    Delegation { denom: String, delegator: String, validator: String },
    DelegationRewards { denom: String, delegator: String, validator: String },
}

#[derive(Clone, Debug, PartialEq, Eq)]
pub enum TokenFactoryQuery {
    Metadata { denom: String },
}

} // verus!
