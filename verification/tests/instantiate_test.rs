use cw_alliance_hub::instantiate::instantiate;
use cw_alliance_hub::msg::{CW721Collection, InstantiateMsg};
use cw_alliance_hub::reply::{reply, ReplyEvent, ReplyResult};
use cw_alliance_hub::response::{Attribute, HubMessage};
use cw_alliance_hub::error::ContractError;

fn inst_msg() -> InstantiateMsg {
    InstantiateMsg {
        cw721_code_id: 12345,
        cw721_unbonding_seconds: 100,
        cw721_collection: CW721Collection {
            name: String::from("Test Collection"),
            symbol: String::from("TST"),
        },
    }
}

fn contract_addr() -> String {
    String::from("cosmos2contract")
}

fn sender() -> String {
    String::from("creator")
}

#[test]
fn test_instantiate() {
    // GIVEN the provisioning input,
    // WHEN the hub is instantiated,
    let (cfg, res) = instantiate(&contract_addr(), &sender(), inst_msg());

    // THEN one provisioning instruction is emitted, tagged for reply 1.
    assert_eq!(1, res.messages.len());
    match &res.messages[0].msg {
        HubMessage::InstantiateNft {
            code_id,
            collection_name,
            collection_symbol,
            minter,
            label,
            admin,
        } => {
            assert_eq!(*code_id, 12345);
            assert_eq!(collection_name, "Test Collection");
            assert_eq!(collection_symbol, "TST");
            assert_eq!(minter, &contract_addr());
            assert_eq!(label, "Test Collection");
            assert_eq!(admin, &contract_addr());
        }
        _ => panic!("Unexpected message type"),
    }
    assert_eq!(res.messages[0].reply_id, Some(1));

    assert_eq!(2, res.attributes.len());
    assert_eq!(res.attributes[0], Attribute::new("action", "instantiate_alliance_hub"));
    assert_eq!(res.attributes[1], Attribute::new("sender", "creator"));

    assert_eq!(cfg.unbonding_seconds, 100);
    assert_eq!(cfg.minted_nfts, 0);
    assert_eq!(cfg.nft_contract_addr, None);
}

#[test]
fn test_instantiate_reply() {
    // GIVEN an instantiated hub,
    let (mut cfg, _) = instantiate(&contract_addr(), &sender(), inst_msg());
    let result = ReplyResult::Succeeded {
        events: vec![ReplyEvent {
            ty: String::from("instantiate"),
            attributes: vec![Attribute::new("_contract_address", "terra...")],
        }],
    };

    // WHEN the provisioning acknowledgement arrives,
    let res = reply(&mut cfg, 1, result).unwrap();

    // THEN the collection address is recorded exactly once.
    assert_eq!(0, res.messages.len());
    assert_eq!(2, res.attributes.len());
    assert_eq!(res.attributes[0], Attribute::new("action", "instantiate_nft_reply"));
    assert_eq!(res.attributes[1], Attribute::new("nft_contract_address", "terra..."));

    assert_eq!(cfg.unbonding_seconds, 100);
    assert_eq!(cfg.minted_nfts, 0);
    assert_eq!(cfg.nft_contract_addr, Some(String::from("terra...")));
}

#[test]
fn test_instantiate_reply_fail() {
    let (mut cfg, _) = instantiate(&contract_addr(), &sender(), inst_msg());
    let result = ReplyResult::Failed { error: String::from("Something went wrong") };

    let res = reply(&mut cfg, 1, result).unwrap_err();

    assert_eq!(
        res,
        ContractError::Std(String::from("Error instantiating nft: Something went wrong"))
    );
    assert_eq!(cfg.nft_contract_addr, None);
}

#[test]
fn test_instantiate_reply_without_instantiate_event() {
    let (mut cfg, _) = instantiate(&contract_addr(), &sender(), inst_msg());
    let result = ReplyResult::Succeeded { events: vec![] };

    let res = reply(&mut cfg, 1, result).unwrap_err();

    assert_eq!(res, ContractError::Std(String::from("No instantiate event found")));
}

#[test]
fn test_instantiate_reply_without_contract_addr_attribute() {
    let (mut cfg, _) = instantiate(&contract_addr(), &sender(), inst_msg());
    let result = ReplyResult::Succeeded {
        events: vec![ReplyEvent { ty: String::from("instantiate"), attributes: vec![] }],
    };

    let res = reply(&mut cfg, 1, result).unwrap_err();

    assert_eq!(res, ContractError::Std(String::from("No '_contract_address' attribute found")));
}

#[test]
fn test_reply_unknown_id() {
    let (mut cfg, _) = instantiate(&contract_addr(), &sender(), inst_msg());
    let result = ReplyResult::Succeeded { events: vec![] };

    let res = reply(&mut cfg, 9, result).unwrap_err();

    assert_eq!(res, ContractError::Std(String::from("Unknown reply id: 9")));
}
