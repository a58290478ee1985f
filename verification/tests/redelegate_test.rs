use cw_alliance_hub::error::ContractError;
use cw_alliance_hub::execute::{try_redelegate, NftInfo};
use cw_alliance_hub::lifecycle::DelegationRecord;
use cw_alliance_hub::response::{Attribute, HubMessage, SubMessage};
use cw_alliance_hub::state::{Cfg, DisplayType};
use terra_proto_rs::alliance::alliance::MsgRedelegate;
use terra_proto_rs::cosmos::base::v1beta1::Coin as CosmosNativeCoin;
use terra_proto_rs::traits::Message;

const HEIGHT: u64 = 12_345;
const TIME: u64 = 1_571_797_419_879_305_533;
const SECOND: u64 = 1_000_000_000;

fn chain_with_contract_delegation() -> (Cfg, NftInfo) {
    let cfg = Cfg {
        minted_nfts: 1,
        unbonding_seconds: 100,
        nft_contract_addr: Some(String::from("terra...")),
    };
    let nft = NftInfo {
        owner: String::from("creator"),
        name: Some(String::from("Alliance NFT #0")),
        records: vec![DelegationRecord {
            validator: String::from("validator1"),
            amount: 100,
            denom: String::from("token"),
            status: DisplayType::Delegated,
            effective_time: 100 * SECOND,
        }],
    };
    (cfg, nft)
}

fn validators() -> Vec<String> {
    vec![
        String::from("validator"),
        String::from("validator1"),
        String::from("validator2"),
        String::from("validator3"),
    ]
}

#[test]
fn test_redelegate() {
    // GIVEN a delegated claim token and the 4-validator pool,
    let (cfg, nft) = chain_with_contract_delegation();

    // WHEN the owner redelegates,
    let res = try_redelegate(
        &cfg,
        HEIGHT,
        TIME,
        &String::from("cosmos2contract"),
        &String::from("creator"),
        String::from("0"),
        &nft,
        &validators(),
    )
    .unwrap();

    // THEN the stake moves from the record's validator to the pick
    // (12345 % 5) % 4 = 0, the metadata turns Redelegating and keeps the
    // recorded source validator.
    assert_eq!(res.messages.len(), 2);

    let update_metadata = SubMessage {
        msg: HubMessage::UpdateNftMetadata {
            contract_addr: String::from("terra..."),
            token_id: String::from("0"),
            metadata_name: Some(String::from("Alliance NFT #0")),
            records: vec![DelegationRecord {
                validator: String::from("validator1"),
                amount: 100,
                denom: String::from("token"),
                status: DisplayType::Redelegating,
                effective_time: TIME + 100 * SECOND,
            }],
        },
        reply_id: Some(3),
    };
    assert_eq!(res.messages[0], update_metadata);

    let redelegate_sub_msg = SubMessage {
        msg: HubMessage::Stargate {
            type_url: String::from("/alliance.alliance.MsgRedelegate"),
            value: MsgRedelegate {
                delegator_address: String::from("cosmos2contract"),
                validator_src_address: String::from("validator1"),
                validator_dst_address: String::from("validator"),
                amount: Some(CosmosNativeCoin {
                    denom: String::from("token"),
                    amount: String::from("100"),
                }),
            }
            .encode_to_vec(),
        },
        reply_id: None,
    };
    assert_eq!(res.messages[1], redelegate_sub_msg);

    assert_eq!(
        res.attributes,
        vec![
            Attribute::new("action", "redelegate"),
            Attribute::new("sender", "creator"),
        ]
    );
}

#[test]
fn test_redelegate_pending_blocks() {
    let (cfg, mut nft) = chain_with_contract_delegation();
    nft.records[0].status = DisplayType::Redelegating;
    nft.records[0].effective_time = TIME + 1;

    let res = try_redelegate(
        &cfg,
        HEIGHT,
        TIME,
        &String::from("cosmos2contract"),
        &String::from("creator"),
        String::from("0"),
        &nft,
        &validators(),
    )
    .unwrap_err();

    assert_eq!(res, ContractError::RedelegatingImpossible(String::from("0")));
}
