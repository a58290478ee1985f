use cw_alliance_hub::error::ContractError;
use cw_alliance_hub::execute::{execute, Coin, NftInfo};
use cw_alliance_hub::instantiate::instantiate;
use cw_alliance_hub::lifecycle::DelegationRecord;
use cw_alliance_hub::msg::{CW721Collection, ExecuteMsg, InstantiateMsg};
use cw_alliance_hub::reply::{reply, ReplyEvent, ReplyResult};
use cw_alliance_hub::response::{Attribute, HubMessage};
use cw_alliance_hub::state::DisplayType;

const HEIGHT: u64 = 12_345;
const TIME: u64 = 1_571_797_419_879_305_533;
const SECOND: u64 = 1_000_000_000;

fn no_nft() -> NftInfo {
    NftInfo { owner: String::new(), name: None, records: vec![] }
}

#[test]
fn test_full_lifecycle() {
    let contract = String::from("cosmos2contract");
    let creator = String::from("creator");
    let validators = vec![
        String::from("validator"),
        String::from("validator1"),
        String::from("validator2"),
    ];

    // Instantiate, then acknowledge: the collection address is set.
    let (mut cfg, _) = instantiate(
        &contract,
        &creator,
        InstantiateMsg {
            cw721_code_id: 12345,
            cw721_unbonding_seconds: 100,
            cw721_collection: CW721Collection {
                name: String::from("Test Collection"),
                symbol: String::from("TST"),
            },
        },
    );
    assert_eq!(cfg.nft_contract_addr, None);
    reply(
        &mut cfg,
        1,
        ReplyResult::Succeeded {
            events: vec![ReplyEvent {
                ty: String::from("instantiate"),
                attributes: vec![Attribute::new("_contract_address", "terra...")],
            }],
        },
    )
    .unwrap();
    assert_eq!(cfg.nft_contract_addr, Some(String::from("terra...")));

    // Delegate 100 token against the 3-validator pool at height 12345:
    // the pick is index (12345 mod 4) mod 3 = 1, validator1.
    let funds = vec![Coin { amount: 100, denom: String::from("token") }];
    let res = execute(
        &cfg,
        HEIGHT,
        TIME,
        &contract,
        &creator,
        &funds,
        &validators,
        &no_nft(),
        ExecuteMsg::MsgDelegate {},
    )
    .unwrap();
    let minted_records = match &res.messages[0].msg {
        HubMessage::MintNft { token_id, owner, records, .. } => {
            assert_eq!(token_id, "0");
            assert_eq!(owner, "creator");
            assert_eq!(records.len(), 1);
            assert_eq!(records[0].validator, "validator1");
            assert_eq!(records[0].amount, 100);
            assert_eq!(records[0].denom, "token");
            assert_eq!(records[0].status, DisplayType::Delegated);
            records.clone()
        }
        _ => panic!("Unexpected message type"),
    };

    // Acknowledge the mint: the counter becomes 1.
    assert_eq!(cfg.minted_nfts, 0);
    reply(&mut cfg, 2, ReplyResult::Succeeded { events: vec![] }).unwrap();
    assert_eq!(cfg.minted_nfts, 1);

    // Start unbonding the minted token, and acknowledge the update.
    let nft = NftInfo {
        owner: creator.clone(),
        name: Some(String::from("Alliance NFT #0")),
        records: minted_records,
    };
    let res = execute(
        &cfg,
        HEIGHT,
        TIME,
        &contract,
        &creator,
        &vec![],
        &validators,
        &nft,
        ExecuteMsg::MsgStartUnbonding { token_id: String::from("0") },
    )
    .unwrap();
    let unbonding_records = match &res.messages[0].msg {
        HubMessage::UpdateNftMetadata { records, .. } => {
            assert_eq!(records[0].status, DisplayType::Unbonding);
            assert_eq!(records[0].effective_time, TIME + 100 * SECOND);
            records.clone()
        }
        _ => panic!("Unexpected message type"),
    };
    reply(&mut cfg, 4, ReplyResult::Succeeded { events: vec![] }).unwrap();

    // Redeeming before the unbonding period has elapsed fails.
    let nft = NftInfo {
        owner: creator.clone(),
        name: Some(String::from("Alliance NFT #0")),
        records: unbonding_records,
    };
    let early = execute(
        &cfg,
        HEIGHT,
        TIME,
        &contract,
        &creator,
        &vec![],
        &validators,
        &nft,
        ExecuteMsg::MsgRedeemBond { token_id: String::from("0") },
    )
    .unwrap_err();
    assert_eq!(early, ContractError::RedeeemBondImpossibel(String::from("0")));

    // After time advances past the window, redemption pays the owner
    // back and the record turns Unbonded.
    let later = TIME + 101 * SECOND;
    let res = execute(
        &cfg,
        HEIGHT,
        later,
        &contract,
        &creator,
        &vec![],
        &validators,
        &nft,
        ExecuteMsg::MsgRedeemBond { token_id: String::from("0") },
    )
    .unwrap();
    assert_eq!(res.messages.len(), 2);
    match &res.messages[0].msg {
        HubMessage::UpdateNftMetadata { records, .. } => {
            assert_eq!(
                records[0],
                DelegationRecord {
                    validator: String::from("validator1"),
                    amount: 100,
                    denom: String::from("token"),
                    status: DisplayType::Unbonded,
                    effective_time: later,
                }
            );
        }
        _ => panic!("Unexpected message type"),
    }
    assert_eq!(
        res.messages[1].msg,
        HubMessage::BankSend {
            to_address: String::from("creator"),
            amount: 100,
            denom: String::from("token"),
        }
    );
}
