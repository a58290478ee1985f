//! What a hub command hands back to the host.
//!
//! A command never performs its side effects itself: it returns the
//! external instructions to emit — staking instructions already encoded
//! for the wire, bank payouts, and collection-contract operations carried
//! as plain values — together with the attributes describing the action.
//! An instruction tagged with a reply identifier is to be acknowledged in
//! a later invocation, handled by the acknowledgement module.

use vstd::prelude::*;

use crate::lifecycle::{rec_views, DelegationRecord, SpecRecord};

verus! {

/// Mathematical mirror of [`Attribute`].
#[verifier::ext_equal]
pub struct SpecAttribute {
    pub key: Seq<char>,
    pub value: Seq<char>,
}

/// One key/value pair describing the performed action.
#[derive(Clone, Debug, PartialEq, Eq)]
pub struct Attribute {
    pub key: String,
    pub value: String,
}

impl View for Attribute {
    type V = SpecAttribute;

    open spec fn view(&self) -> SpecAttribute {
        SpecAttribute { key: self.key@, value: self.value@ }
    }
}

impl Attribute {
    pub fn new(key: &str, value: &str) -> (r: Attribute)
        ensures
            r@ == (SpecAttribute { key: key@, value: value@ }),
    {
        Attribute { key: key.to_owned(), value: value.to_owned() }
    }
}

/// Mathematical mirror of [`HubMessage`].
#[verifier::ext_equal]
pub enum SpecHubMessage {
    Stargate { type_url: Seq<char>, value: Seq<u8> },
    BankSend { to_address: Seq<char>, amount: int, denom: Seq<char> },
    InstantiateNft {
        code_id: int,
        collection_name: Seq<char>,
        collection_symbol: Seq<char>,
        minter: Seq<char>,
        label: Seq<char>,
        admin: Seq<char>,
    },
    MintNft {
        contract_addr: Seq<char>,
        token_id: Seq<char>,
        owner: Seq<char>,
        metadata_name: Seq<char>,
        records: Seq<SpecRecord>,
    },
    UpdateNftMetadata {
        contract_addr: Seq<char>,
        token_id: Seq<char>,
        metadata_name: Option<Seq<char>>,
        records: Seq<SpecRecord>,
    },
}

/// One external instruction the host is to emit.
///
/// `Stargate` carries an already protobuf-encoded staking instruction
/// under its type URL; `BankSend` pays principal out to an address; the
/// remaining variants address the collection contract and carry their
/// metadata as plain records, to be serialized at the boundary.
#[derive(Clone, Debug, PartialEq, Eq)]
pub enum HubMessage {
    Stargate { type_url: String, value: Vec<u8> },
    BankSend { to_address: String, amount: u128, denom: String },
    InstantiateNft {
        code_id: u64,
        collection_name: String,
        collection_symbol: String,
        minter: String,
        label: String,
        admin: String,
    },
    MintNft {
        contract_addr: String,
        token_id: String,
        owner: String,
        metadata_name: String,
        records: Vec<DelegationRecord>,
    },
    UpdateNftMetadata {
        contract_addr: String,
        token_id: String,
        metadata_name: Option<String>,
        records: Vec<DelegationRecord>,
    },
}

impl View for HubMessage {
    type V = SpecHubMessage;

    open spec fn view(&self) -> SpecHubMessage {
        match self {
            HubMessage::Stargate { type_url, value } => SpecHubMessage::Stargate {
                type_url: type_url@,
                value: value@,
            },
            HubMessage::BankSend { to_address, amount, denom } => SpecHubMessage::BankSend {
                to_address: to_address@,
                amount: *amount as int,
                denom: denom@,
            },
            HubMessage::InstantiateNft {
                code_id,
                collection_name,
                collection_symbol,
                minter,
                label,
                admin,
            } => SpecHubMessage::InstantiateNft {
                code_id: *code_id as int,
                collection_name: collection_name@,
                collection_symbol: collection_symbol@,
                minter: minter@,
                label: label@,
                admin: admin@,
            },
            HubMessage::MintNft { contract_addr, token_id, owner, metadata_name, records } => (
                SpecHubMessage::MintNft {
                    contract_addr: contract_addr@,
                    token_id: token_id@,
                    owner: owner@,
                    metadata_name: metadata_name@,
                    records: rec_views(records@),
                }
            ),
            HubMessage::UpdateNftMetadata { contract_addr, token_id, metadata_name, records } => (
                SpecHubMessage::UpdateNftMetadata {
                    contract_addr: contract_addr@,
                    token_id: token_id@,
                    metadata_name: match metadata_name {
                        Option::Some(n) => Option::Some(n@),
                        Option::None => Option::None,
                    },
                    records: rec_views(records@),
                }
            ),
        }
    }
}

/// Mathematical mirror of [`SubMessage`].
#[verifier::ext_equal]
pub struct SpecSubMessage {
    pub msg: SpecHubMessage,
    pub reply_id: Option<int>,
}

/// An instruction together with the reply identifier under which its
/// acknowledgement will come back, if one is awaited.
#[derive(Clone, Debug, PartialEq, Eq)]
pub struct SubMessage {
    pub msg: HubMessage,
    pub reply_id: Option<u64>,
}

impl View for SubMessage {
    type V = SpecSubMessage;

    open spec fn view(&self) -> SpecSubMessage {
        SpecSubMessage {
            msg: self.msg@,
            reply_id: match self.reply_id {
                Option::Some(id) => Option::Some(id as int),
                Option::None => Option::None,
            },
        }
    }
}

/// Mathematical mirror of [`HubResponse`].
#[verifier::ext_equal]
pub struct SpecResponse {
    pub attributes: Seq<SpecAttribute>,
    pub messages: Seq<SpecSubMessage>,
}

pub open spec fn attr_views(v: Seq<Attribute>) -> Seq<SpecAttribute> {
    v.map_values(|a: Attribute| a@)
}

pub open spec fn msg_views(v: Seq<SubMessage>) -> Seq<SpecSubMessage> {
    v.map_values(|m: SubMessage| m@)
}

/// Everything one command execution asks the host to do.
#[derive(Clone, Debug, PartialEq, Eq)]
pub struct HubResponse {
    pub attributes: Vec<Attribute>,
    pub messages: Vec<SubMessage>,
}

impl View for HubResponse {
    type V = SpecResponse;

    open spec fn view(&self) -> SpecResponse {
        SpecResponse { attributes: attr_views(self.attributes@), messages: msg_views(self.messages@) }
    }
}

} // verus!
