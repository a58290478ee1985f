//! The action orchestrator.
//!
//! Each command takes the loaded configuration, the block context and the
//! collaborator data the host fetched for it (the validator pool, the
//! claim token's owner and records), validates it, and produces the full
//! set of external instructions to emit together with the updated
//! metadata to persist.  Validation failures abort the whole command
//! before any instruction is produced; the metadata instruction, when
//! present, is tagged with a reply identifier and acknowledged later.

use vstd::prelude::*;

use crate::codec::{dec_str, format_u128, format_u64};
use crate::constants::{
    MINT_NFT_REPLY_ID, REDEEM_BOND_REPLY_ID, REDELEGATE_REPLY_ID, UNBONDING_NFT_REPLY_ID,
};
use crate::error::{ContractError, SpecContractError};
use crate::lifecycle::{
    rec_views, record_wf, redeem_eligible, redeemed_records, redelegating_records, retimed,
    spec_redeemed_records, spec_redelegating_records, spec_unbonding_records, unbonding_records,
    DelegationRecord, SpecRecord,
};
use crate::msg::ExecuteMsg;
use crate::response::{
    attr_views, msg_views, Attribute, HubMessage, HubResponse, SpecAttribute, SpecHubMessage,
    SpecResponse, SpecSubMessage, SubMessage,
};
use crate::selector::{get_pseudorandom, pick_index, pool_at};
use crate::state::{Cfg, DisplayType, SpecCfg};
use crate::wire::{
    encode_msg_claim_rewards, encode_msg_delegate, encode_msg_redelegate, encode_msg_undelegate,
    msg_claim_rewards_wire, msg_delegate_wire, msg_redelegate_wire, msg_undelegate_wire,
};

verus! {

/// Mathematical mirror of [`Coin`].
#[verifier::ext_equal]
pub struct SpecCoin {
    pub amount: int,
    pub denom: Seq<char>,
}

/// One deposited fund: an amount of some native denomination.
#[derive(Clone, Debug, PartialEq, Eq)]
pub struct Coin {
    pub amount: u128,
    pub denom: String,
}

impl View for Coin {
    type V = SpecCoin;

    open spec fn view(&self) -> SpecCoin {
        SpecCoin { amount: self.amount as int, denom: self.denom@ }
    }
}

pub open spec fn coin_views(v: Seq<Coin>) -> Seq<SpecCoin> {
    v.map_values(|c: Coin| c@)
}

/// Mathematical mirror of [`NftInfo`].
#[verifier::ext_equal]
pub struct SpecNftInfo {
    pub owner: Seq<char>,
    pub name: Option<Seq<char>>,
    pub records: Seq<SpecRecord>,
}

/// A claim token as loaded from the collection contract: its recorded
/// owner, its metadata name, and its decoded delegation records.
#[derive(Clone, Debug, PartialEq, Eq)]
pub struct NftInfo {
    pub owner: String,
    pub name: Option<String>,
    pub records: Vec<DelegationRecord>,
}

impl View for NftInfo {
    type V = SpecNftInfo;

    open spec fn view(&self) -> SpecNftInfo {
        SpecNftInfo {
            owner: self.owner@,
            name: match self.name {
                Option::Some(n) => Option::Some(n@),
                Option::None => Option::None,
            },
            records: rec_views(self.records@),
        }
    }
}

pub open spec fn validator_views(v: Seq<String>) -> Seq<Seq<char>> {
    v.map_values(|s: String| s@)
}

/// The validator chosen for the `k`-th unit of work of one selection
/// round over `validators`: the pool shrinks by one per pick already
/// made, while the candidate list itself stays whole.
pub open spec fn chosen_validator(validators: Seq<Seq<char>>, height: int, k: int) -> Seq<char> {
    validators[pick_index(height, pool_at(validators.len() as int, k))]
}

/// Whether an executable outcome is exactly the specified one.
pub open spec fn outcome_matches(
    r: Result<HubResponse, ContractError>,
    expected: Result<SpecResponse, SpecContractError>,
) -> bool {
    match r {
        Ok(resp) => expected == Ok::<SpecResponse, SpecContractError>(resp@),
        Err(e) => expected == Err::<SpecResponse, SpecContractError>(e@),
    }
}

/// The two attributes every command reports: its action name and its
/// sender.
pub open spec fn spec_action_attrs(action: Seq<char>, sender: Seq<char>) -> Seq<SpecAttribute> {
    seq![
        SpecAttribute { key: "action"@, value: action },
        SpecAttribute { key: "sender"@, value: sender },
    ]
}

/// The fresh records a delegate command mints: one per deposited coin,
/// delegated to the validator the selection round picks, effective now.
pub open spec fn delegate_records(
    funds: Seq<SpecCoin>,
    validators: Seq<Seq<char>>,
    height: int,
    time: int,
) -> Seq<SpecRecord> {
    Seq::new(
        funds.len(),
        |k: int|
            SpecRecord {
                validator: chosen_validator(validators, height, k),
                amount: funds[k].amount,
                denom: funds[k].denom,
                status: DisplayType::Delegated,
                effective_time: time,
            },
    )
}

/// The staking instructions a delegate command emits: one encoded
/// `MsgDelegate` per deposited coin.
pub open spec fn delegate_instructions(
    funds: Seq<SpecCoin>,
    validators: Seq<Seq<char>>,
    height: int,
    contract_addr: Seq<char>,
) -> Seq<SpecSubMessage> {
    Seq::new(
        funds.len(),
        |k: int|
            SpecSubMessage {
                msg: SpecHubMessage::Stargate {
                    type_url: "/alliance.alliance.MsgDelegate"@,
                    value: msg_delegate_wire(
                        contract_addr,
                        chosen_validator(validators, height, k),
                        dec_str(funds[k].amount),
                        funds[k].denom,
                    ),
                },
                reply_id: Option::None,
            },
    )
}

/// The mint instruction of a delegate command: the next token identifier
/// from the minted counter, the sender as owner, and the fresh records
/// as metadata, awaiting acknowledgement.
pub open spec fn spec_mint_submessage(
    cfg: SpecCfg,
    height: int,
    time: int,
    sender: Seq<char>,
    funds: Seq<SpecCoin>,
    validators: Seq<Seq<char>>,
) -> SpecSubMessage {
    SpecSubMessage {
        msg: SpecHubMessage::MintNft {
            contract_addr: cfg.nft_contract_addr->Some_0,
            token_id: dec_str(cfg.minted_nfts),
            owner: sender,
            metadata_name: "Alliance NFT #"@ + dec_str(cfg.minted_nfts),
            records: delegate_records(funds, validators, height, time),
        },
        reply_id: Option::Some(MINT_NFT_REPLY_ID as int),
    }
}

/// Everything a delegate command does, for every input: which inputs are
/// rejected with which error, and the exact instructions and attributes
/// produced otherwise.
pub open spec fn spec_try_delegate(
    cfg: SpecCfg,
    height: int,
    time: int,
    contract_addr: Seq<char>,
    sender: Seq<char>,
    funds: Seq<SpecCoin>,
    validators: Seq<Seq<char>>,
) -> Result<SpecResponse, SpecContractError> {
    if validators.len() == 0 {
        Err(SpecContractError::NoValidatorsFound)
    } else if funds.len() == 0 {
        Err(SpecContractError::NoFundsReceived)
    } else if exists|k: int| 0 <= k < funds.len() && (#[trigger] funds[k]).amount == 0 {
        Err(SpecContractError::NoFundsReceived)
    } else if cfg.nft_contract_addr is None {
        Err(SpecContractError::NoNftContractAddress)
    } else {
        Ok(
            SpecResponse {
                attributes: spec_action_attrs("delegate"@, sender),
                messages: seq![spec_mint_submessage(cfg, height, time, sender, funds, validators)]
                    + delegate_instructions(funds, validators, height, contract_addr),
            },
        )
    }
}

/// Delegates the deposited funds across the validator pool and mints the
/// claim token for them.
///
/// For each deposited coin one validator is picked by the shrinking-pool
/// rule and one encoded delegate instruction is emitted; the mint
/// instruction carries the fresh record set and awaits acknowledgement,
/// so the minted counter moves only once the mint is confirmed.
pub fn try_delegate(
    cfg: &Cfg,
    block_height: u64,
    block_time: u64,
    contract_addr: &String,
    sender: &String,
    funds: &Vec<Coin>,
    validators: &Vec<String>,
) -> (r: Result<HubResponse, ContractError>)
    requires
        validators@.len() < u64::MAX,
    ensures
        outcome_matches(
            r,
            spec_try_delegate(
                cfg@,
                block_height as int,
                block_time as int,
                contract_addr@,
                sender@,
                coin_views(funds@),
                validator_views(validators@),
            ),
        ),
{
    let ghost vals = validator_views(validators@);
    let ghost fs = coin_views(funds@);
    let ghost height = block_height as int;
    let ghost time = block_time as int;
    if validators.len() == 0 {
        return Err(ContractError::NoValidatorsFound {  });
    }
    if funds.len() == 0 {
        return Err(ContractError::NoFundsReceived {  });
    }
    let mut records: Vec<DelegationRecord> = Vec::new();
    let mut stargates: Vec<SubMessage> = Vec::new();
    let mut vals_len: usize = validators.len();
    let n = funds.len();
    let mut k: usize = 0;
    while k < n
        invariant
            0 <= k <= n,
            n == funds@.len(),
            vals == validator_views(validators@),
            fs == coin_views(funds@),
            height == block_height as int,
            time == block_time as int,
            1 <= validators@.len() < u64::MAX,
            vals.len() == validators@.len(),
            fs.len() == n,
            vals_len as int == pool_at(vals.len() as int, k as int),
            records@.len() == k,
            stargates@.len() == k,
            forall|j: int| 0 <= j < k ==> (#[trigger] fs[j]).amount != 0,
            forall|j: int|
                0 <= j < k ==> #[trigger] records@[j]@ == delegate_records(
                    fs,
                    vals,
                    height,
                    time,
                )[j],
            forall|j: int|
                0 <= j < k ==> #[trigger] stargates@[j]@ == delegate_instructions(
                    fs,
                    vals,
                    height,
                    contract_addr@,
                )[j],
        decreases n - k,
    {
        let coin = &funds[k];
        proof {
            assert(fs[k as int] == funds@[k as int]@);
        }
        if coin.amount == 0 {
            return Err(ContractError::NoFundsReceived {  });
        }
        let idx64 = get_pseudorandom(block_height, vals_len as u64);
        let idx = idx64 as usize;
        proof {
            assert(pool_at(vals.len() as int, k as int) <= vals.len());
            assert(idx as int == idx64 as int);
            assert(vals[idx as int] == validators@[idx as int]@);
        }
        let validator = &validators[idx];
        let amount_str = format_u128(coin.amount);
        let wire_bytes = encode_msg_delegate(contract_addr, validator, &amount_str, &coin.denom);
        records.push(
            DelegationRecord {
                validator: validator.clone(),
                amount: coin.amount,
                denom: coin.denom.clone(),
                status: DisplayType::Delegated,
                effective_time: block_time,
            },
        );
        stargates.push(
            SubMessage {
                msg: HubMessage::Stargate {
                    type_url: String::from_str("/alliance.alliance.MsgDelegate"),
                    value: wire_bytes,
                },
                reply_id: Option::None,
            },
        );
        proof {
            assert(records@[k as int]@ =~~= delegate_records(fs, vals, height, time)[k as int]);
            assert(stargates@[k as int]@ =~~= delegate_instructions(
                fs,
                vals,
                height,
                contract_addr@,
            )[k as int]);
        }
        if vals_len > 1 {
            vals_len = vals_len - 1;
        }
        k = k + 1;
    }
    let nft_contract_addr = match &cfg.nft_contract_addr {
        Option::Some(a) => a.clone(),
        Option::None => {
            return Err(ContractError::NoNftContractAddress {  });
        },
    };
    let token_id = format_u64(cfg.minted_nfts);
    let metadata_name = String::from_str("Alliance NFT #").concat(token_id.as_str());
    let ghost recsv = records@;
    let mint = SubMessage {
        msg: HubMessage::MintNft {
            contract_addr: nft_contract_addr,
            token_id,
            owner: sender.clone(),
            metadata_name,
            records,
        },
        reply_id: Option::Some(MINT_NFT_REPLY_ID),
    };
    let mut messages: Vec<SubMessage> = Vec::new();
    messages.push(mint);
    messages.append(&mut stargates);
    let mut attributes: Vec<Attribute> = Vec::new();
    attributes.push(Attribute::new("action", "delegate"));
    attributes.push(Attribute::new("sender", sender.as_str()));
    let resp = HubResponse { attributes, messages };
    proof {
        assert(rec_views(recsv) =~= delegate_records(fs, vals, height, time));
        assert(attr_views(resp.attributes@) =~~= spec_action_attrs("delegate"@, sender@));
        assert(msg_views(resp.messages@) =~~= seq![
            spec_mint_submessage(cfg@, height, time, sender@, fs, vals),
        ] + delegate_instructions(fs, vals, height, contract_addr@));
        assert(resp@ =~~= spec_try_delegate(
            cfg@,
            height,
            time,
            contract_addr@,
            sender@,
            fs,
            vals,
        )->Ok_0);
    }
    Ok(resp)
}

/// The metadata-update instruction of a record-mutating command: the
/// replacement record set under the token's unchanged name, awaiting
/// acknowledgement under `reply_id`.
pub open spec fn spec_update_submessage(
    cfg: SpecCfg,
    token_id: Seq<char>,
    name: Option<Seq<char>>,
    records: Seq<SpecRecord>,
    reply_id: int,
) -> SpecSubMessage {
    SpecSubMessage {
        msg: SpecHubMessage::UpdateNftMetadata {
            contract_addr: cfg.nft_contract_addr->Some_0,
            token_id: token_id,
            metadata_name: name,
            records: records,
        },
        reply_id: Option::Some(reply_id),
    }
}

/// The staking instructions a start-unbonding command emits: one encoded
/// `MsgUndelegate` per record, for the record's full stake.
pub open spec fn undelegate_instructions(
    records: Seq<SpecRecord>,
    contract_addr: Seq<char>,
) -> Seq<SpecSubMessage> {
    Seq::new(
        records.len(),
        |k: int|
            SpecSubMessage {
                msg: SpecHubMessage::Stargate {
                    type_url: "/alliance.alliance.MsgUndelegate"@,
                    value: msg_undelegate_wire(
                        contract_addr,
                        records[k].validator,
                        dec_str(records[k].amount),
                        records[k].denom,
                    ),
                },
                reply_id: Option::None,
            },
    )
}

/// The staking instructions a redelegate command emits: one encoded
/// `MsgRedelegate` per record, from the record's validator to the
/// destination the selection round picks.
pub open spec fn redelegate_instructions(
    records: Seq<SpecRecord>,
    validators: Seq<Seq<char>>,
    height: int,
    contract_addr: Seq<char>,
) -> Seq<SpecSubMessage> {
    Seq::new(
        records.len(),
        |k: int|
            SpecSubMessage {
                msg: SpecHubMessage::Stargate {
                    type_url: "/alliance.alliance.MsgRedelegate"@,
                    value: msg_redelegate_wire(
                        contract_addr,
                        records[k].validator,
                        chosen_validator(validators, height, k),
                        dec_str(records[k].amount),
                        records[k].denom,
                    ),
                },
                reply_id: Option::None,
            },
    )
}

/// The staking instructions a claim-rewards command emits: one encoded
/// `MsgClaimDelegationRewards` per record, in the record's denomination.
pub open spec fn claim_instructions(
    records: Seq<SpecRecord>,
    contract_addr: Seq<char>,
) -> Seq<SpecSubMessage> {
    Seq::new(
        records.len(),
        |k: int|
            SpecSubMessage {
                msg: SpecHubMessage::Stargate {
                    type_url: "/alliance.alliance.MsgClaimDelegationRewards"@,
                    value: msg_claim_rewards_wire(
                        contract_addr,
                        records[k].validator,
                        records[k].denom,
                    ),
                },
                reply_id: Option::None,
            },
    )
}

/// The payout instructions a redeem-bond command emits: each record's
/// full stake sent back to the caller.
pub open spec fn payout_instructions(
    records: Seq<SpecRecord>,
    sender: Seq<char>,
) -> Seq<SpecSubMessage> {
    Seq::new(
        records.len(),
        |k: int|
            SpecSubMessage {
                msg: SpecHubMessage::BankSend {
                    to_address: sender,
                    amount: records[k].amount,
                    denom: records[k].denom,
                },
                reply_id: Option::None,
            },
    )
}

/// Everything a start-unbonding command does, for every input.
pub open spec fn spec_try_start_unbonding(
    cfg: SpecCfg,
    time: int,
    contract_addr: Seq<char>,
    sender: Seq<char>,
    token_id: Seq<char>,
    nft: SpecNftInfo,
) -> Result<SpecResponse, SpecContractError> {
    if cfg.nft_contract_addr is None {
        Err(SpecContractError::NoNftContractAddress)
    } else if nft.owner != sender {
        Err(SpecContractError::UnauthorizedNFTOwnere(nft.owner, sender))
    } else if nft.records.len() == 0 {
        Err(SpecContractError::NoDelegationsFound(token_id))
    } else {
        match spec_unbonding_records(
            nft.records,
            time,
            time + cfg.unbonding_seconds * 1_000_000_000,
            token_id,
        ) {
            Ok(rs) => Ok(
                SpecResponse {
                    attributes: spec_action_attrs("start_unbonding"@, sender),
                    messages: seq![
                        spec_update_submessage(
                            cfg,
                            token_id,
                            nft.name,
                            rs,
                            UNBONDING_NFT_REPLY_ID as int,
                        ),
                    ] + undelegate_instructions(nft.records, contract_addr),
                },
            ),
            Err(e) => Err(e),
        }
    }
}

/// Everything a redelegate command does, for every input.
pub open spec fn spec_try_redelegate(
    cfg: SpecCfg,
    height: int,
    time: int,
    contract_addr: Seq<char>,
    sender: Seq<char>,
    token_id: Seq<char>,
    nft: SpecNftInfo,
    validators: Seq<Seq<char>>,
) -> Result<SpecResponse, SpecContractError> {
    if validators.len() == 0 {
        Err(SpecContractError::NoValidatorsFound)
    } else if cfg.nft_contract_addr is None {
        Err(SpecContractError::NoNftContractAddress)
    } else if nft.owner != sender {
        Err(SpecContractError::UnauthorizedNFTOwnere(nft.owner, sender))
    } else if nft.records.len() == 0 {
        Err(SpecContractError::NoDelegationsFound(token_id))
    } else {
        match spec_redelegating_records(
            nft.records,
            time,
            time + cfg.unbonding_seconds * 1_000_000_000,
            token_id,
        ) {
            Ok(rs) => Ok(
                SpecResponse {
                    attributes: spec_action_attrs("redelegate"@, sender),
                    messages: seq![
                        spec_update_submessage(
                            cfg,
                            token_id,
                            nft.name,
                            rs,
                            REDELEGATE_REPLY_ID as int,
                        ),
                    ] + redelegate_instructions(nft.records, validators, height, contract_addr),
                },
            ),
            Err(e) => Err(e),
        }
    }
}

/// Everything a claim-rewards command does, for every input: rewards are
/// claimed per record, and no record changes.
pub open spec fn spec_try_claim_rewards(
    cfg: SpecCfg,
    contract_addr: Seq<char>,
    sender: Seq<char>,
    token_id: Seq<char>,
    nft: SpecNftInfo,
) -> Result<SpecResponse, SpecContractError> {
    if cfg.nft_contract_addr is None {
        Err(SpecContractError::NoNftContractAddress)
    } else if nft.owner != sender {
        Err(SpecContractError::UnauthorizedNFTOwnere(nft.owner, sender))
    } else if nft.records.len() == 0 {
        Err(SpecContractError::NoDelegationsFound(token_id))
    } else {
        Ok(
            SpecResponse {
                attributes: spec_action_attrs("claim_rewards"@, sender),
                messages: claim_instructions(nft.records, contract_addr),
            },
        )
    }
}

/// Everything a redeem-bond command does, for every input.
pub open spec fn spec_try_redeem_bond(
    cfg: SpecCfg,
    time: int,
    contract_addr: Seq<char>,
    sender: Seq<char>,
    token_id: Seq<char>,
    nft: SpecNftInfo,
) -> Result<SpecResponse, SpecContractError> {
    if cfg.nft_contract_addr is None {
        Err(SpecContractError::NoNftContractAddress)
    } else if nft.owner != sender {
        Err(SpecContractError::UnauthorizedNFTOwnere(nft.owner, sender))
    } else if nft.records.len() == 0 {
        Err(SpecContractError::NoDelegationsFound(token_id))
    } else {
        match spec_redeemed_records(nft.records, time, token_id) {
            Ok(rs) => Ok(
                SpecResponse {
                    attributes: spec_action_attrs("redeem_bond"@, sender),
                    messages: seq![
                        spec_update_submessage(
                            cfg,
                            token_id,
                            nft.name,
                            rs,
                            REDEEM_BOND_REPLY_ID as int,
                        ),
                    ] + payout_instructions(nft.records, sender),
                },
            ),
            Err(e) => Err(e),
        }
    }
}

/// Clones the token's metadata name for the replacement metadata.
fn clone_name(name: &Option<String>) -> (r: Option<String>)
    ensures
        match r {
            Option::Some(n) => name is Some && n@ == name->0@,
            Option::None => name is None,
        },
{
    match name {
        Option::Some(n) => Option::Some(n.clone()),
        Option::None => Option::None,
    }
}

/// Starts unbonding every record of the claim token.
///
/// All records are validated atomically; one undelegate instruction per
/// record is emitted, and the replacement metadata restamps every record
/// to `Unbonding` effective after the configured unbonding period.
pub fn try_start_unbonding(
    cfg: &Cfg,
    block_time: u64,
    contract_addr: &String,
    sender: &String,
    token_id: String,
    nft: &NftInfo,
) -> (r: Result<HubResponse, ContractError>)
    requires
        block_time as int + cfg.unbonding_seconds as int * 1_000_000_000 <= u64::MAX as int,
    ensures
        outcome_matches(
            r,
            spec_try_start_unbonding(
                cfg@,
                block_time as int,
                contract_addr@,
                sender@,
                token_id@,
                nft@,
            ),
        ),
{
    let ghost time = block_time as int;
    let ghost tid = token_id@;
    let nft_contract_addr = match &cfg.nft_contract_addr {
        Option::Some(a) => a.clone(),
        Option::None => {
            return Err(ContractError::NoNftContractAddress {  });
        },
    };
    if !(nft.owner == *sender) {
        return Err(ContractError::UnauthorizedNFTOwnere(nft.owner.clone(), sender.clone()));
    }
    if nft.records.len() == 0 {
        return Err(ContractError::NoDelegationsFound(token_id));
    }
    let mut stargates: Vec<SubMessage> = Vec::new();
    let n = nft.records.len();
    let mut k: usize = 0;
    while k < n
        invariant
            0 <= k <= n,
            n == nft.records@.len(),
            stargates@.len() == k,
            forall|j: int|
                0 <= j < k ==> #[trigger] stargates@[j]@ == undelegate_instructions(
                    rec_views(nft.records@),
                    contract_addr@,
                )[j],
        decreases n - k,
    {
        let rec = &nft.records[k];
        let amount_str = format_u128(rec.amount);
        let wire_bytes = encode_msg_undelegate(
            contract_addr,
            &rec.validator,
            &amount_str,
            &rec.denom,
        );
        stargates.push(
            SubMessage {
                msg: HubMessage::Stargate {
                    type_url: String::from_str("/alliance.alliance.MsgUndelegate"),
                    value: wire_bytes,
                },
                reply_id: Option::None,
            },
        );
        proof {
            assert(rec_views(nft.records@)[k as int] == nft.records@[k as int]@);
            assert(stargates@[k as int]@ =~~= undelegate_instructions(
                rec_views(nft.records@),
                contract_addr@,
            )[k as int]);
        }
        k = k + 1;
    }
    let effective = block_time + cfg.unbonding_seconds * 1_000_000_000;
    let new_records = match unbonding_records(&nft.records, block_time, effective, &token_id) {
        Ok(rs) => rs,
        Err(e) => {
            return Err(e);
        },
    };
    let ghost new_recsv = rec_views(new_records@);
    let update = SubMessage {
        msg: HubMessage::UpdateNftMetadata {
            contract_addr: nft_contract_addr,
            token_id,
            metadata_name: clone_name(&nft.name),
            records: new_records,
        },
        reply_id: Option::Some(UNBONDING_NFT_REPLY_ID),
    };
    let mut messages: Vec<SubMessage> = Vec::new();
    messages.push(update);
    messages.append(&mut stargates);
    let mut attributes: Vec<Attribute> = Vec::new();
    attributes.push(Attribute::new("action", "start_unbonding"));
    attributes.push(Attribute::new("sender", sender.as_str()));
    let resp = HubResponse { attributes, messages };
    proof {
        let expected = spec_try_start_unbonding(cfg@, time, contract_addr@, sender@, tid, nft@);
        assert(attr_views(resp.attributes@) =~~= spec_action_attrs("start_unbonding"@, sender@));
        assert(resp@ =~~= expected->Ok_0);
    }
    Ok(resp)
}

/// Redelegates every record of the claim token to freshly picked
/// destination validators.
///
/// All records are validated atomically; one redelegate instruction per
/// record moves the stake from the record's validator to the pick, and
/// the replacement metadata restamps every record to `Redelegating`
/// while keeping the recorded source validator.
pub fn try_redelegate(
    cfg: &Cfg,
    block_height: u64,
    block_time: u64,
    contract_addr: &String,
    sender: &String,
    token_id: String,
    nft: &NftInfo,
    validators: &Vec<String>,
) -> (r: Result<HubResponse, ContractError>)
    requires
        validators@.len() < u64::MAX,
        block_time as int + cfg.unbonding_seconds as int * 1_000_000_000 <= u64::MAX as int,
    ensures
        outcome_matches(
            r,
            spec_try_redelegate(
                cfg@,
                block_height as int,
                block_time as int,
                contract_addr@,
                sender@,
                token_id@,
                nft@,
                validator_views(validators@),
            ),
        ),
{
    let ghost vals = validator_views(validators@);
    let ghost height = block_height as int;
    let ghost time = block_time as int;
    let ghost tid = token_id@;
    if validators.len() == 0 {
        return Err(ContractError::NoValidatorsFound {  });
    }
    let nft_contract_addr = match &cfg.nft_contract_addr {
        Option::Some(a) => a.clone(),
        Option::None => {
            return Err(ContractError::NoNftContractAddress {  });
        },
    };
    if !(nft.owner == *sender) {
        return Err(ContractError::UnauthorizedNFTOwnere(nft.owner.clone(), sender.clone()));
    }
    if nft.records.len() == 0 {
        return Err(ContractError::NoDelegationsFound(token_id));
    }
    let effective = block_time + cfg.unbonding_seconds * 1_000_000_000;
    let new_records = match redelegating_records(&nft.records, block_time, effective, &token_id) {
        Ok(rs) => rs,
        Err(e) => {
            return Err(e);
        },
    };
    let mut stargates: Vec<SubMessage> = Vec::new();
    let mut vals_len: usize = validators.len();
    let n = nft.records.len();
    let mut k: usize = 0;
    while k < n
        invariant
            0 <= k <= n,
            n == nft.records@.len(),
            vals == validator_views(validators@),
            height == block_height as int,
            1 <= validators@.len() < u64::MAX,
            vals.len() == validators@.len(),
            vals_len as int == pool_at(vals.len() as int, k as int),
            stargates@.len() == k,
            forall|j: int|
                0 <= j < k ==> #[trigger] stargates@[j]@ == redelegate_instructions(
                    rec_views(nft.records@),
                    vals,
                    height,
                    contract_addr@,
                )[j],
        decreases n - k,
    {
        let rec = &nft.records[k];
        let idx64 = get_pseudorandom(block_height, vals_len as u64);
        let idx = idx64 as usize;
        proof {
            assert(pool_at(vals.len() as int, k as int) <= vals.len());
            assert(idx as int == idx64 as int);
            assert(vals[idx as int] == validators@[idx as int]@);
            assert(rec_views(nft.records@)[k as int] == nft.records@[k as int]@);
        }
        let destination = &validators[idx];
        let amount_str = format_u128(rec.amount);
        let wire_bytes = encode_msg_redelegate(
            contract_addr,
            &rec.validator,
            destination,
            &amount_str,
            &rec.denom,
        );
        stargates.push(
            SubMessage {
                msg: HubMessage::Stargate {
                    type_url: String::from_str("/alliance.alliance.MsgRedelegate"),
                    value: wire_bytes,
                },
                reply_id: Option::None,
            },
        );
        proof {
            assert(stargates@[k as int]@ =~~= redelegate_instructions(
                rec_views(nft.records@),
                vals,
                height,
                contract_addr@,
            )[k as int]);
        }
        if vals_len > 1 {
            vals_len = vals_len - 1;
        }
        k = k + 1;
    }
    let update = SubMessage {
        msg: HubMessage::UpdateNftMetadata {
            contract_addr: nft_contract_addr,
            token_id,
            metadata_name: clone_name(&nft.name),
            records: new_records,
        },
        reply_id: Option::Some(REDELEGATE_REPLY_ID),
    };
    let mut messages: Vec<SubMessage> = Vec::new();
    messages.push(update);
    messages.append(&mut stargates);
    let mut attributes: Vec<Attribute> = Vec::new();
    attributes.push(Attribute::new("action", "redelegate"));
    attributes.push(Attribute::new("sender", sender.as_str()));
    let resp = HubResponse { attributes, messages };
    proof {
        let expected = spec_try_redelegate(
            cfg@,
            height,
            time,
            contract_addr@,
            sender@,
            tid,
            nft@,
            vals,
        );
        assert(attr_views(resp.attributes@) =~~= spec_action_attrs("redelegate"@, sender@));
        assert(resp@ =~~= expected->Ok_0);
    }
    Ok(resp)
}

/// Claims the accumulated rewards of every record of the claim token.
///
/// A pure side effect: one claim instruction per record is emitted and
/// no record or metadata changes.
pub fn try_claim_rewards(
    cfg: &Cfg,
    contract_addr: &String,
    sender: &String,
    token_id: String,
    nft: &NftInfo,
) -> (r: Result<HubResponse, ContractError>)
    ensures
        outcome_matches(
            r,
            spec_try_claim_rewards(cfg@, contract_addr@, sender@, token_id@, nft@),
        ),
{
    match &cfg.nft_contract_addr {
        Option::Some(_) => {
        },
        Option::None => {
            return Err(ContractError::NoNftContractAddress {  });
        },
    };
    if !(nft.owner == *sender) {
        return Err(ContractError::UnauthorizedNFTOwnere(nft.owner.clone(), sender.clone()));
    }
    if nft.records.len() == 0 {
        return Err(ContractError::NoDelegationsFound(token_id));
    }
    let mut messages: Vec<SubMessage> = Vec::new();
    let n = nft.records.len();
    let mut k: usize = 0;
    while k < n
        invariant
            0 <= k <= n,
            n == nft.records@.len(),
            messages@.len() == k,
            forall|j: int|
                0 <= j < k ==> #[trigger] messages@[j]@ == claim_instructions(
                    rec_views(nft.records@),
                    contract_addr@,
                )[j],
        decreases n - k,
    {
        let rec = &nft.records[k];
        let wire_bytes = encode_msg_claim_rewards(contract_addr, &rec.validator, &rec.denom);
        messages.push(
            SubMessage {
                msg: HubMessage::Stargate {
                    type_url: String::from_str("/alliance.alliance.MsgClaimDelegationRewards"),
                    value: wire_bytes,
                },
                reply_id: Option::None,
            },
        );
        proof {
            assert(rec_views(nft.records@)[k as int] == nft.records@[k as int]@);
            assert(messages@[k as int]@ =~~= claim_instructions(
                rec_views(nft.records@),
                contract_addr@,
            )[k as int]);
        }
        k = k + 1;
    }
    let mut attributes: Vec<Attribute> = Vec::new();
    attributes.push(Attribute::new("action", "claim_rewards"));
    attributes.push(Attribute::new("sender", sender.as_str()));
    let resp = HubResponse { attributes, messages };
    proof {
        assert(attr_views(resp.attributes@) =~~= spec_action_attrs("claim_rewards"@, sender@));
        assert(resp@ =~~= spec_try_claim_rewards(
            cfg@,
            contract_addr@,
            sender@,
            token_id@,
            nft@,
        )->Ok_0);
    }
    Ok(resp)
}

/// Redeems the principal of every record of the claim token.
///
/// All records must have fully unbonded; each record's stake is paid
/// back to the caller, and the replacement metadata restamps every
/// record to the terminal `Unbonded` status.
pub fn try_redeem_bond(
    cfg: &Cfg,
    block_time: u64,
    contract_addr: &String,
    sender: &String,
    token_id: String,
    nft: &NftInfo,
) -> (r: Result<HubResponse, ContractError>)
    ensures
        outcome_matches(
            r,
            spec_try_redeem_bond(
                cfg@,
                block_time as int,
                contract_addr@,
                sender@,
                token_id@,
                nft@,
            ),
        ),
{
    let ghost time = block_time as int;
    let ghost tid = token_id@;
    let nft_contract_addr = match &cfg.nft_contract_addr {
        Option::Some(a) => a.clone(),
        Option::None => {
            return Err(ContractError::NoNftContractAddress {  });
        },
    };
    if !(nft.owner == *sender) {
        return Err(ContractError::UnauthorizedNFTOwnere(nft.owner.clone(), sender.clone()));
    }
    if nft.records.len() == 0 {
        return Err(ContractError::NoDelegationsFound(token_id));
    }
    let mut payouts: Vec<SubMessage> = Vec::new();
    let n = nft.records.len();
    let mut k: usize = 0;
    while k < n
        invariant
            0 <= k <= n,
            n == nft.records@.len(),
            payouts@.len() == k,
            forall|j: int|
                0 <= j < k ==> #[trigger] payouts@[j]@ == payout_instructions(
                    rec_views(nft.records@),
                    sender@,
                )[j],
        decreases n - k,
    {
        let rec = &nft.records[k];
        payouts.push(
            SubMessage {
                msg: HubMessage::BankSend {
                    to_address: sender.clone(),
                    amount: rec.amount,
                    denom: rec.denom.clone(),
                },
                reply_id: Option::None,
            },
        );
        proof {
            assert(rec_views(nft.records@)[k as int] == nft.records@[k as int]@);
            assert(payouts@[k as int]@ =~~= payout_instructions(
                rec_views(nft.records@),
                sender@,
            )[k as int]);
        }
        k = k + 1;
    }
    let new_records = match redeemed_records(&nft.records, block_time, &token_id) {
        Ok(rs) => rs,
        Err(e) => {
            return Err(e);
        },
    };
    let update = SubMessage {
        msg: HubMessage::UpdateNftMetadata {
            contract_addr: nft_contract_addr,
            token_id,
            metadata_name: clone_name(&nft.name),
            records: new_records,
        },
        reply_id: Option::Some(REDEEM_BOND_REPLY_ID),
    };
    let mut messages: Vec<SubMessage> = Vec::new();
    messages.push(update);
    messages.append(&mut payouts);
    let mut attributes: Vec<Attribute> = Vec::new();
    attributes.push(Attribute::new("action", "redeem_bond"));
    attributes.push(Attribute::new("sender", sender.as_str()));
    let resp = HubResponse { attributes, messages };
    proof {
        let expected = spec_try_redeem_bond(cfg@, time, contract_addr@, sender@, tid, nft@);
        assert(attr_views(resp.attributes@) =~~= spec_action_attrs("redeem_bond"@, sender@));
        assert(resp@ =~~= expected->Ok_0);
    }
    Ok(resp)
}

/// Starting unbonding on a record set where every record is
/// `Delegated` succeeds, restamps every record to `Unbonding` with one
/// identical effective time — now plus the configured unbonding period —
/// and emits exactly one undelegate instruction per record, after the
/// metadata update.
pub proof fn lemma_start_unbonding_all_delegated(
    cfg: SpecCfg,
    time: int,
    contract_addr: Seq<char>,
    sender: Seq<char>,
    token_id: Seq<char>,
    nft: SpecNftInfo,
)
    requires
        cfg.nft_contract_addr is Some,
        nft.owner == sender,
        nft.records.len() > 0,
        forall|i: int|
            0 <= i < nft.records.len() ==> (#[trigger] nft.records[i]).status
                == DisplayType::Delegated,
    ensures
        ({
            let r = spec_try_start_unbonding(cfg, time, contract_addr, sender, token_id, nft);
            let effective = time + cfg.unbonding_seconds * 1_000_000_000;
            let new_records = retimed(nft.records, DisplayType::Unbonding, effective);
            &&& r is Ok
            &&& r->Ok_0.messages.len() == nft.records.len() + 1
            &&& r->Ok_0.messages[0] == spec_update_submessage(
                cfg,
                token_id,
                nft.name,
                new_records,
                UNBONDING_NFT_REPLY_ID as int,
            )
            &&& forall|k: int|
                0 <= k < nft.records.len() ==> #[trigger] r->Ok_0.messages[k + 1]
                    == undelegate_instructions(nft.records, contract_addr)[k]
            &&& forall|k: int|
                0 <= k < nft.records.len() ==> (#[trigger] new_records[k]).status
                    == DisplayType::Unbonding && new_records[k].effective_time == effective
                    && new_records[k].validator == nft.records[k].validator
                    && new_records[k].amount == nft.records[k].amount && new_records[k].denom
                    == nft.records[k].denom
        }),
{
}

/// A redeem-bond command on a record set holding any record whose
/// unbonding window has not yet elapsed — in particular one issued
/// before its `effective_time` — fails with `RedeeemBondImpossibel`, so
/// it produces no payout instruction and no metadata change.
pub proof fn lemma_redeem_bond_before_elapsed(
    cfg: SpecCfg,
    time: int,
    contract_addr: Seq<char>,
    sender: Seq<char>,
    token_id: Seq<char>,
    nft: SpecNftInfo,
    i: int,
)
    requires
        cfg.nft_contract_addr is Some,
        nft.owner == sender,
        nft.records.len() > 0,
        0 <= i < nft.records.len(),
        !redeem_eligible(nft.records[i], time),
    ensures
        spec_try_redeem_bond(cfg, time, contract_addr, sender, token_id, nft) == Err::<
            SpecResponse,
            SpecContractError,
        >(SpecContractError::RedeeemBondImpossibel(token_id)),
{
}

/// A delegate command that goes through only mints well-formed
/// records — each one stakes a positive amount and none is born
/// `Unbonded`.
pub proof fn lemma_delegate_mints_wf_records(
    cfg: SpecCfg,
    height: int,
    time: int,
    contract_addr: Seq<char>,
    sender: Seq<char>,
    funds: Seq<SpecCoin>,
    validators: Seq<Seq<char>>,
)
    requires
        forall|k: int| 0 <= k < funds.len() ==> (#[trigger] funds[k]).amount >= 0,
        spec_try_delegate(cfg, height, time, contract_addr, sender, funds, validators) is Ok,
    ensures
        forall|k: int|
            0 <= k < funds.len() ==> record_wf(
                #[trigger] delegate_records(funds, validators, height, time)[k],
            ),
{
}

/// Every record-mutating command issued by anyone but the token's
/// recorded owner fails with `UnauthorizedNFTOwnere` carrying both the
/// real owner and the caller.
pub proof fn lemma_non_owner_unauthorized(
    cfg: SpecCfg,
    height: int,
    time: int,
    contract_addr: Seq<char>,
    sender: Seq<char>,
    token_id: Seq<char>,
    nft: SpecNftInfo,
    validators: Seq<Seq<char>>,
)
    requires
        cfg.nft_contract_addr is Some,
        validators.len() > 0,
        nft.owner != sender,
    ensures
        spec_try_start_unbonding(cfg, time, contract_addr, sender, token_id, nft) == Err::<
            SpecResponse,
            SpecContractError,
        >(SpecContractError::UnauthorizedNFTOwnere(nft.owner, sender)),
        spec_try_redelegate(cfg, height, time, contract_addr, sender, token_id, nft, validators)
            == Err::<SpecResponse, SpecContractError>(
            SpecContractError::UnauthorizedNFTOwnere(nft.owner, sender),
        ),
        spec_try_claim_rewards(cfg, contract_addr, sender, token_id, nft) == Err::<
            SpecResponse,
            SpecContractError,
        >(SpecContractError::UnauthorizedNFTOwnere(nft.owner, sender)),
        spec_try_redeem_bond(cfg, time, contract_addr, sender, token_id, nft) == Err::<
            SpecResponse,
            SpecContractError,
        >(SpecContractError::UnauthorizedNFTOwnere(nft.owner, sender)),
{
}

/// Dispatches one hub command to its handler.
///
/// The host hands in whatever collaborator data the command needs: the
/// validator pool for delegate and redelegate, and the loaded claim
/// token for every record-touching command.
pub fn execute(
    cfg: &Cfg,
    block_height: u64,
    block_time: u64,
    contract_addr: &String,
    sender: &String,
    funds: &Vec<Coin>,
    validators: &Vec<String>,
    nft: &NftInfo,
    msg: ExecuteMsg,
) -> (r: Result<HubResponse, ContractError>)
    requires
        msg is MsgDelegate || msg is MsgRedelegate ==> validators@.len() < u64::MAX,
        msg is MsgStartUnbonding || msg is MsgRedelegate ==> block_time as int
            + cfg.unbonding_seconds as int * 1_000_000_000 <= u64::MAX as int,
    ensures
        ({
            let expected = match msg {
                ExecuteMsg::MsgDelegate {  } => spec_try_delegate(
                    cfg@,
                    block_height as int,
                    block_time as int,
                    contract_addr@,
                    sender@,
                    coin_views(funds@),
                    validator_views(validators@),
                ),
                ExecuteMsg::MsgStartUnbonding { token_id } => spec_try_start_unbonding(
                    cfg@,
                    block_time as int,
                    contract_addr@,
                    sender@,
                    token_id@,
                    nft@,
                ),
                ExecuteMsg::MsgRedelegate { token_id } => spec_try_redelegate(
                    cfg@,
                    block_height as int,
                    block_time as int,
                    contract_addr@,
                    sender@,
                    token_id@,
                    nft@,
                    validator_views(validators@),
                ),
                ExecuteMsg::MsgClaimRewards { token_id } => spec_try_claim_rewards(
                    cfg@,
                    contract_addr@,
                    sender@,
                    token_id@,
                    nft@,
                ),
                ExecuteMsg::MsgRedeemBond { token_id } => spec_try_redeem_bond(
                    cfg@,
                    block_time as int,
                    contract_addr@,
                    sender@,
                    token_id@,
                    nft@,
                ),
            };
            outcome_matches(r, expected)
        }),
{
    match msg {
        ExecuteMsg::MsgDelegate {  } => try_delegate(
            cfg,
            block_height,
            block_time,
            contract_addr,
            sender,
            funds,
            validators,
        ),
        ExecuteMsg::MsgStartUnbonding { token_id } => try_start_unbonding(
            cfg,
            block_time,
            contract_addr,
            sender,
            token_id,
            nft,
        ),
        ExecuteMsg::MsgRedelegate { token_id } => try_redelegate(
            cfg,
            block_height,
            block_time,
            contract_addr,
            sender,
            token_id,
            nft,
            validators,
        ),
        ExecuteMsg::MsgClaimRewards { token_id } => try_claim_rewards(
            cfg,
            contract_addr,
            sender,
            token_id,
            nft,
        ),
        ExecuteMsg::MsgRedeemBond { token_id } => try_redeem_bond(
            cfg,
            block_time,
            contract_addr,
            sender,
            token_id,
            nft,
        ),
    }
}

} // verus!
