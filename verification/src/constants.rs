//! Reply identifiers correlating an emitted instruction with its later
//! acknowledgement.

use vstd::prelude::*;

verus! {

pub const INSTANTIATE_REPLY_ID: u64 = 1;

pub const MINT_NFT_REPLY_ID: u64 = 2;

pub const REDELEGATE_REPLY_ID: u64 = 3;

pub const UNBONDING_NFT_REPLY_ID: u64 = 4;

pub const REDEEM_BOND_REPLY_ID: u64 = 5;

} // verus!
