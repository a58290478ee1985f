use cw_alliance_hub::error::ContractError;
use cw_alliance_hub::execute::{try_start_unbonding, NftInfo};
use cw_alliance_hub::lifecycle::DelegationRecord;
use cw_alliance_hub::response::{Attribute, HubMessage, SubMessage};
use cw_alliance_hub::state::{Cfg, DisplayType};
use terra_proto_rs::alliance::alliance::MsgUndelegate;
use terra_proto_rs::cosmos::base::v1beta1::Coin as CosmosNativeCoin;
use terra_proto_rs::traits::Message;

const TIME: u64 = 1_571_797_419_879_305_533;
const SECOND: u64 = 1_000_000_000;

fn chain_with_contract_delegation() -> (Cfg, NftInfo) {
    let cfg = Cfg {
        minted_nfts: 1,
        unbonding_seconds: 100,
        nft_contract_addr: Some(String::from("terra...")),
    };
    let nft = NftInfo {
        owner: String::from("creator"),
        name: Some(String::from("Alliance NFT #0")),
        records: vec![DelegationRecord {
            validator: String::from("validator1"),
            amount: 100,
            denom: String::from("token"),
            status: DisplayType::Delegated,
            effective_time: 100 * SECOND,
        }],
    };
    (cfg, nft)
}

#[test]
fn test_start_unbonding() {
    // GIVEN a delegated claim token,
    let (cfg, nft) = chain_with_contract_delegation();

    // WHEN its owner starts unbonding,
    let res = try_start_unbonding(
        &cfg,
        TIME,
        &String::from("cosmos2contract"),
        &String::from("creator"),
        String::from("0"),
        &nft,
    )
    .unwrap();

    // THEN the metadata moves to Unbonding effective after the
    // unbonding period, and one undelegate instruction is emitted.
    assert_eq!(res.messages.len(), 2);

    let update_metadata = SubMessage {
        msg: HubMessage::UpdateNftMetadata {
            contract_addr: String::from("terra..."),
            token_id: String::from("0"),
            metadata_name: Some(String::from("Alliance NFT #0")),
            records: vec![DelegationRecord {
                validator: String::from("validator1"),
                amount: 100,
                denom: String::from("token"),
                status: DisplayType::Unbonding,
                effective_time: TIME + 100 * SECOND,
            }],
        },
        reply_id: Some(4),
    };
    assert_eq!(res.messages[0], update_metadata);

    let undelegate_sub_msg = SubMessage {
        msg: HubMessage::Stargate {
            type_url: String::from("/alliance.alliance.MsgUndelegate"),
            value: MsgUndelegate {
                delegator_address: String::from("cosmos2contract"),
                validator_address: String::from("validator1"),
                amount: Some(CosmosNativeCoin {
                    denom: String::from("token"),
                    amount: String::from("100"),
                }),
            }
            .encode_to_vec(),
        },
        reply_id: None,
    };
    assert_eq!(res.messages[1], undelegate_sub_msg);

    assert_eq!(
        res.attributes,
        vec![
            Attribute::new("action", "start_unbonding"),
            Attribute::new("sender", "creator"),
        ]
    );
}

#[test]
fn test_start_unbonding_with_no_access() {
    // GIVEN
    let (cfg, nft) = chain_with_contract_delegation();

    // WHEN someone else tries,
    let res = try_start_unbonding(
        &cfg,
        TIME,
        &String::from("cosmos2contract"),
        &String::from("invalid_creator"),
        String::from("0"),
        &nft,
    )
    .unwrap_err();

    // THEN
    assert_eq!(
        res,
        ContractError::UnauthorizedNFTOwnere(
            String::from("creator"),
            String::from("invalid_creator"),
        )
    );
}

#[test]
fn test_start_unbonding_already_unbonding() {
    let (cfg, mut nft) = chain_with_contract_delegation();
    nft.records[0].status = DisplayType::Unbonding;

    let res = try_start_unbonding(
        &cfg,
        TIME,
        &String::from("cosmos2contract"),
        &String::from("creator"),
        String::from("0"),
        &nft,
    )
    .unwrap_err();

    assert_eq!(res, ContractError::UnbondingImpossible(String::from("0")));
}

#[test]
fn test_start_unbonding_no_delegations() {
    let (cfg, mut nft) = chain_with_contract_delegation();
    nft.records = vec![];

    let res = try_start_unbonding(
        &cfg,
        TIME,
        &String::from("cosmos2contract"),
        &String::from("creator"),
        String::from("0"),
        &nft,
    )
    .unwrap_err();

    assert_eq!(res, ContractError::NoDelegationsFound(String::from("0")));
}

#[test]
fn test_start_unbonding_stale_redelegation_proceeds() {
    // A record whose redelegation window has already passed counts as
    // resolved and may start unbonding.
    let (cfg, mut nft) = chain_with_contract_delegation();
    nft.records[0].status = DisplayType::Redelegating;
    nft.records[0].effective_time = TIME - 1;

    let res = try_start_unbonding(
        &cfg,
        TIME,
        &String::from("cosmos2contract"),
        &String::from("creator"),
        String::from("0"),
        &nft,
    )
    .unwrap();

    match &res.messages[0].msg {
        HubMessage::UpdateNftMetadata { records, .. } => {
            assert_eq!(records[0].status, DisplayType::Unbonding);
            assert_eq!(records[0].effective_time, TIME + 100 * SECOND);
        }
        _ => panic!("Unexpected message type"),
    }
}

#[test]
fn test_start_unbonding_pending_redelegation_blocks() {
    // A pending redelegation blocks the whole operation, and names the
    // redelegation as the obstacle.
    let (cfg, mut nft) = chain_with_contract_delegation();
    nft.records[0].status = DisplayType::Redelegating;
    nft.records[0].effective_time = TIME + 1;

    let res = try_start_unbonding(
        &cfg,
        TIME,
        &String::from("cosmos2contract"),
        &String::from("creator"),
        String::from("0"),
        &nft,
    )
    .unwrap_err();

    assert_eq!(res, ContractError::RedelegatingImpossible(String::from("0")));
}
