use cw_alliance_hub::error::ContractError;
use cw_alliance_hub::execute::{try_claim_rewards, NftInfo};
use cw_alliance_hub::lifecycle::DelegationRecord;
use cw_alliance_hub::response::{Attribute, HubMessage, SubMessage};
use cw_alliance_hub::state::{Cfg, DisplayType};
use terra_proto_rs::alliance::alliance::MsgClaimDelegationRewards;
use terra_proto_rs::traits::Message;

const TIME: u64 = 1_571_797_419_879_305_533;
const SECOND: u64 = 1_000_000_000;

fn chain_with_contract_delegation() -> (Cfg, NftInfo) {
    let cfg = Cfg {
        minted_nfts: 1,
        unbonding_seconds: 100,
        nft_contract_addr: Some(String::from("terra...")),
    };
    let nft = NftInfo {
        owner: String::from("creator"),
        name: Some(String::from("Alliance NFT #0")),
        records: vec![DelegationRecord {
            validator: String::from("validator1"),
            amount: 100,
            denom: String::from("token"),
            status: DisplayType::Delegated,
            effective_time: 100 * SECOND,
        }],
    };
    (cfg, nft)
}

#[test]
fn test_claim_rewards() {
    // GIVEN
    let (cfg, nft) = chain_with_contract_delegation();

    // WHEN
    let res = try_claim_rewards(
        &cfg,
        &String::from("cosmos2contract"),
        &String::from("creator"),
        String::from("0"),
        &nft,
    )
    .unwrap();

    // THEN one claim instruction per record, and no metadata change.
    assert_eq!(res.messages.len(), 1);
    let claim_rewards_sub_msg = SubMessage {
        msg: HubMessage::Stargate {
            type_url: String::from("/alliance.alliance.MsgClaimDelegationRewards"),
            value: MsgClaimDelegationRewards {
                delegator_address: String::from("cosmos2contract"),
                validator_address: String::from("validator1"),
                denom: String::from("token"),
            }
            .encode_to_vec(),
        },
        reply_id: None,
    };
    assert_eq!(res.messages[0], claim_rewards_sub_msg);
    assert_eq!(
        res.attributes,
        vec![
            Attribute::new("action", "claim_rewards"),
            Attribute::new("sender", "creator"),
        ]
    );
}

#[test]
fn test_claim_rewards_with_no_access() {
    // GIVEN
    let (cfg, nft) = chain_with_contract_delegation();

    // WHEN
    let res = try_claim_rewards(
        &cfg,
        &String::from("cosmos2contract"),
        &String::from("invalid_creator"),
        String::from("0"),
        &nft,
    )
    .unwrap_err();

    // THEN
    assert_eq!(
        res,
        ContractError::UnauthorizedNFTOwnere(
            String::from("creator"),
            String::from("invalid_creator"),
        )
    );
}

#[test]
fn test_claim_rewards_wire_bytes() {
    // The exact protobuf bytes of a claim instruction: three string
    // fields under tags 1, 2 and 3.
    let cfg = Cfg {
        minted_nfts: 1,
        unbonding_seconds: 100,
        nft_contract_addr: Some(String::from("terra...")),
    };
    let nft = NftInfo {
        owner: String::from("o"),
        name: None,
        records: vec![DelegationRecord {
            validator: String::from("v"),
            amount: 1,
            denom: String::from("d"),
            status: DisplayType::Delegated,
            effective_time: 0,
        }],
    };

    let res = try_claim_rewards(
        &cfg,
        &String::from("c"),
        &String::from("o"),
        String::from("0"),
        &nft,
    )
    .unwrap();

    match &res.messages[0].msg {
        HubMessage::Stargate { value, .. } => {
            assert_eq!(value, &vec![0x0a, 1, b'c', 0x12, 1, b'v', 0x1a, 1, b'd']);
        }
        _ => panic!("Unexpected message type"),
    }
}
