use cw_alliance_hub::error::ContractError;
use cw_alliance_hub::execute::{try_delegate, Coin};
use cw_alliance_hub::lifecycle::DelegationRecord;
use cw_alliance_hub::reply::{reply, ReplyResult};
use cw_alliance_hub::response::{Attribute, HubMessage, SubMessage};
use cw_alliance_hub::state::{Cfg, DisplayType};
use terra_proto_rs::alliance::alliance::MsgDelegate;
use terra_proto_rs::cosmos::base::v1beta1::Coin as CosmosNativeCoin;
use terra_proto_rs::traits::Message;

const HEIGHT: u64 = 12_345;
const TIME: u64 = 1_571_797_419_879_305_533;

fn chain_with_contract() -> Cfg {
    Cfg {
        minted_nfts: 0,
        unbonding_seconds: 100,
        nft_contract_addr: Some(String::from("terra...")),
    }
}

fn validators() -> Vec<String> {
    vec![
        String::from("validator"),
        String::from("validator1"),
        String::from("validator2"),
        String::from("validator3"),
    ]
}

fn delegate_sub_msg(validator: &str, amount: &str, denom: &str) -> SubMessage {
    SubMessage {
        msg: HubMessage::Stargate {
            type_url: String::from("/alliance.alliance.MsgDelegate"),
            value: MsgDelegate {
                delegator_address: String::from("cosmos2contract"),
                validator_address: String::from(validator),
                amount: Some(CosmosNativeCoin {
                    denom: String::from(denom),
                    amount: String::from(amount),
                }),
            }
            .encode_to_vec(),
        },
        reply_id: None,
    }
}

#[test]
fn test_delegate() {
    // GIVEN
    let mut cfg = chain_with_contract();
    let funds = vec![Coin { amount: 100, denom: String::from("token") }];

    // WHEN
    let res = try_delegate(
        &cfg,
        HEIGHT,
        TIME,
        &String::from("cosmos2contract"),
        &String::from("creator"),
        &funds,
        &validators(),
    )
    .unwrap();

    // THEN the mint instruction and one delegate instruction come out.
    // The pick over the full 4-validator pool is (12345 % 5) % 4 = 0.
    assert_eq!(2, res.messages.len());

    let mint_sub_msg = SubMessage {
        msg: HubMessage::MintNft {
            contract_addr: String::from("terra..."),
            token_id: String::from("0"),
            owner: String::from("creator"),
            metadata_name: String::from("Alliance NFT #0"),
            records: vec![DelegationRecord {
                validator: String::from("validator"),
                amount: 100,
                denom: String::from("token"),
                status: DisplayType::Delegated,
                effective_time: TIME,
            }],
        },
        reply_id: Some(2),
    };
    assert_eq!(res.messages[0], mint_sub_msg);
    assert_eq!(res.messages[1], delegate_sub_msg("validator", "100", "token"));

    assert_eq!(
        vec![
            Attribute::new("action", "delegate"),
            Attribute::new("sender", "creator"),
        ],
        res.attributes
    );

    // REPLY: the counter moves only once the mint is acknowledged.
    assert_eq!(cfg.minted_nfts, 0);
    let reply_res = reply(&mut cfg, 2, ReplyResult::Succeeded { events: vec![] }).unwrap();
    assert_eq!(
        reply_res.attributes,
        vec![
            Attribute::new("action", "mint_nft_reply"),
            Attribute::new("minted_nfts", "1"),
        ]
    );
    assert_eq!(reply_res.messages.len(), 0);
    assert_eq!(cfg.minted_nfts, 1);
}

#[test]
fn test_delegate_multiple_tokens() {
    // GIVEN
    let mut cfg = chain_with_contract();
    let funds = vec![
        Coin { amount: 100, denom: String::from("token") },
        Coin { amount: 100, denom: String::from("stoken") },
    ];

    // WHEN
    let res = try_delegate(
        &cfg,
        HEIGHT,
        TIME,
        &String::from("cosmos2contract"),
        &String::from("creator"),
        &funds,
        &validators(),
    )
    .unwrap();

    // THEN two validators come out of the shrinking pool:
    // (12345 % 5) % 4 = 0, then (12345 % 4) % 3 = 1.
    assert_eq!(3, res.messages.len());

    let mint_sub_msg = SubMessage {
        msg: HubMessage::MintNft {
            contract_addr: String::from("terra..."),
            token_id: String::from("0"),
            owner: String::from("creator"),
            metadata_name: String::from("Alliance NFT #0"),
            records: vec![
                DelegationRecord {
                    validator: String::from("validator"),
                    amount: 100,
                    denom: String::from("token"),
                    status: DisplayType::Delegated,
                    effective_time: TIME,
                },
                DelegationRecord {
                    validator: String::from("validator1"),
                    amount: 100,
                    denom: String::from("stoken"),
                    status: DisplayType::Delegated,
                    effective_time: TIME,
                },
            ],
        },
        reply_id: Some(2),
    };
    assert_eq!(res.messages[0], mint_sub_msg);
    assert_eq!(res.messages[1], delegate_sub_msg("validator", "100", "token"));
    assert_eq!(res.messages[2], delegate_sub_msg("validator1", "100", "stoken"));

    assert_eq!(
        vec![
            Attribute::new("action", "delegate"),
            Attribute::new("sender", "creator"),
        ],
        res.attributes
    );

    // REPLY
    assert_eq!(cfg.minted_nfts, 0);
    let reply_res = reply(&mut cfg, 2, ReplyResult::Succeeded { events: vec![] }).unwrap();
    assert_eq!(
        reply_res.attributes,
        vec![
            Attribute::new("action", "mint_nft_reply"),
            Attribute::new("minted_nfts", "1"),
        ]
    );
    assert_eq!(cfg.minted_nfts, 1);
}

#[test]
fn test_delegate_reply_error() {
    // GIVEN
    let mut cfg = chain_with_contract();
    let funds = vec![Coin { amount: 100, denom: String::from("token") }];

    // WHEN
    let res = try_delegate(
        &cfg,
        HEIGHT,
        TIME,
        &String::from("cosmos2contract"),
        &String::from("creator"),
        &funds,
        &validators(),
    )
    .unwrap();

    // THEN
    assert_eq!(2, res.messages.len());
    assert_eq!(res.messages[1], delegate_sub_msg("validator", "100", "token"));
    assert_eq!(
        vec![
            Attribute::new("action", "delegate"),
            Attribute::new("sender", "creator"),
        ],
        res.attributes
    );

    // REPLY: a failed mint acknowledgement propagates upstream's message.
    let reply_res =
        reply(&mut cfg, 2, ReplyResult::Failed { error: String::from("Something went wrong") })
            .unwrap_err();
    assert_eq!(
        reply_res,
        ContractError::Std(String::from("Error minting nft: Something went wrong"))
    );
    assert_eq!(cfg.minted_nfts, 0);
}

#[test]
fn test_delegate_no_funds() {
    // GIVEN
    let cfg = chain_with_contract();
    let no_funds: Vec<Coin> = vec![];
    let zero_funds = vec![Coin { amount: 0, denom: String::from("token") }];

    // WHEN
    let res = try_delegate(
        &cfg,
        HEIGHT,
        TIME,
        &String::from("cosmos2contract"),
        &String::from("creator"),
        &no_funds,
        &validators(),
    )
    .unwrap_err();
    let res2 = try_delegate(
        &cfg,
        HEIGHT,
        TIME,
        &String::from("cosmos2contract"),
        &String::from("creator"),
        &zero_funds,
        &validators(),
    )
    .unwrap_err();

    // THEN
    assert_eq!(res, ContractError::NoFundsReceived {});
    assert_eq!(res2, ContractError::NoFundsReceived {});
}

#[test]
fn test_delegate_no_validators() {
    let cfg = chain_with_contract();
    let funds = vec![Coin { amount: 100, denom: String::from("token") }];
    let no_validators: Vec<String> = vec![];

    let res = try_delegate(
        &cfg,
        HEIGHT,
        TIME,
        &String::from("cosmos2contract"),
        &String::from("creator"),
        &funds,
        &no_validators,
    )
    .unwrap_err();

    assert_eq!(res, ContractError::NoValidatorsFound {});
}

#[test]
fn test_delegate_without_provisioned_collection() {
    let cfg = Cfg { minted_nfts: 0, unbonding_seconds: 100, nft_contract_addr: None };
    let funds = vec![Coin { amount: 100, denom: String::from("token") }];

    let res = try_delegate(
        &cfg,
        HEIGHT,
        TIME,
        &String::from("cosmos2contract"),
        &String::from("creator"),
        &funds,
        &validators(),
    )
    .unwrap_err();

    assert_eq!(res, ContractError::NoNftContractAddress {});
}
