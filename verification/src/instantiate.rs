//! Provisioning the hub.
//!
//! Instantiation computes the fresh configuration and the one
//! instruction that provisions the collection contract, tagged for
//! acknowledgement: only the acknowledgement, handled later, learns the
//! provisioned contract's address and records it.

use vstd::prelude::*;

use crate::constants::INSTANTIATE_REPLY_ID;
use crate::execute::spec_action_attrs;
use crate::msg::InstantiateMsg;
use crate::response::{
    attr_views, Attribute, HubMessage, HubResponse, SpecHubMessage, SpecResponse, SpecSubMessage,
    SubMessage,
};
use crate::state::{Cfg, SpecCfg};

verus! {

/// Everything instantiation asks the host to do: provision the
/// collection contract from `code_id`, with the hub as minter and
/// admin, awaiting acknowledgement.
pub open spec fn spec_instantiate_response(
    contract_addr: Seq<char>,
    sender: Seq<char>,
    code_id: int,
    name: Seq<char>,
    symbol: Seq<char>,
) -> SpecResponse {
    SpecResponse {
        attributes: spec_action_attrs("instantiate_alliance_hub"@, sender),
        messages: seq![
            SpecSubMessage {
                msg: SpecHubMessage::InstantiateNft {
                    code_id: code_id,
                    collection_name: name,
                    collection_symbol: symbol,
                    minter: contract_addr,
                    label: name,
                    admin: contract_addr,
                },
                reply_id: Option::Some(INSTANTIATE_REPLY_ID as int),
            },
        ],
    }
}

/// Creates the hub: a fresh configuration with the requested unbonding
/// period, and the provisioning instruction for the collection
/// contract.
pub fn instantiate(contract_addr: &String, sender: &String, msg: InstantiateMsg) -> (r: (
    Cfg,
    HubResponse,
))
    ensures
        r.0@ == (SpecCfg {
            minted_nfts: 0,
            unbonding_seconds: msg.cw721_unbonding_seconds as int,
            nft_contract_addr: Option::None,
        }),
        r.1@ == spec_instantiate_response(
            contract_addr@,
            sender@,
            msg.cw721_code_id as int,
            msg.cw721_collection.name@,
            msg.cw721_collection.symbol@,
        ),
{
    let cfg = Cfg::new(msg.cw721_unbonding_seconds);
    let mut messages: Vec<SubMessage> = Vec::new();
    messages.push(
        SubMessage {
            msg: HubMessage::InstantiateNft {
                code_id: msg.cw721_code_id,
                collection_name: msg.cw721_collection.name.clone(),
                collection_symbol: msg.cw721_collection.symbol,
                minter: contract_addr.clone(),
                label: msg.cw721_collection.name,
                admin: contract_addr.clone(),
            },
            reply_id: Option::Some(INSTANTIATE_REPLY_ID),
        },
    );
    let mut attributes: Vec<Attribute> = Vec::new();
    attributes.push(Attribute::new("action", "instantiate_alliance_hub"));
    attributes.push(Attribute::new("sender", sender.as_str()));
    let resp = HubResponse { attributes, messages };
    proof {
        assert(attr_views(resp.attributes@) =~~= spec_action_attrs(
            "instantiate_alliance_hub"@,
            sender@,
        ));
        assert(resp@ =~~= spec_instantiate_response(
            contract_addr@,
            sender@,
            msg.cw721_code_id as int,
            msg.cw721_collection.name@,
            msg.cw721_collection.symbol@,
        ));
    }
    (cfg, resp)
}

} // verus!
