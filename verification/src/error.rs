//! The hub's error taxonomy.
//!
//! Every validation failure aborts the whole command before any external
//! instruction is emitted; the acknowledgement handler turns upstream
//! failures into a `Std` error carrying the action's human-readable name
//! and the upstream message, so that no failure is silently swallowed.

use vstd::prelude::*;

verus! {

/// Mathematical mirror of [`ContractError`]: text is a sequence of
/// characters, so contracts can speak about the exact identifiers an
/// error carries.
#[verifier::ext_equal]
pub enum SpecContractError {
    Std(Seq<char>),
    UnauthorizedNFTOwnere(Seq<char>, Seq<char>),
    NoDelegationsFound(Seq<char>),
    RedeeemBondImpossibel(Seq<char>),
    UnbondingImpossible(Seq<char>),
    RedelegatingImpossible(Seq<char>),
    NoValidatorsFound,
    NoNftContractAddress,
    Serialize,
    NFTMintError,
    NFTContractInstantiateError,
    NoFundsReceived,
    MalformedRecord,
}

/// What a hub command can fail with.
///
/// `Unauthorized` carries both the recorded owner and the caller, and the
/// record-set errors carry the token identifier, so an operator can
/// diagnose the failure from the reason alone.  `Std` carries a plain
/// message, used for acknowledgement failures propagated from upstream.
#[derive(Clone, Debug, PartialEq, Eq)]
pub enum ContractError {
    Std(String),
    UnauthorizedNFTOwnere(String, String),
    NoDelegationsFound(String),
    RedeeemBondImpossibel(String),
    UnbondingImpossible(String),
    RedelegatingImpossible(String),
    NoValidatorsFound {},
    NoNftContractAddress {},
    Serialize {},
    NFTMintError {},
    NFTContractInstantiateError {},
    NoFundsReceived {},
    MalformedRecord {},
}

impl View for ContractError {
    type V = SpecContractError;

    open spec fn view(&self) -> SpecContractError {
        match self {
            ContractError::Std(m) => SpecContractError::Std(m@),
            ContractError::UnauthorizedNFTOwnere(expected, actual) => (
                SpecContractError::UnauthorizedNFTOwnere(expected@, actual@)
            ),
            ContractError::NoDelegationsFound(t) => SpecContractError::NoDelegationsFound(t@),
            ContractError::RedeeemBondImpossibel(t) => SpecContractError::RedeeemBondImpossibel(
                t@,
            ),
            ContractError::UnbondingImpossible(t) => SpecContractError::UnbondingImpossible(t@),
            ContractError::RedelegatingImpossible(t) => SpecContractError::RedelegatingImpossible(
                t@,
            ),
            ContractError::NoValidatorsFound {  } => SpecContractError::NoValidatorsFound,
            ContractError::NoNftContractAddress {  } => SpecContractError::NoNftContractAddress,
            ContractError::Serialize {  } => SpecContractError::Serialize,
            ContractError::NFTMintError {  } => SpecContractError::NFTMintError,
            ContractError::NFTContractInstantiateError {  } => (
                SpecContractError::NFTContractInstantiateError
            ),
            ContractError::NoFundsReceived {  } => SpecContractError::NoFundsReceived,
            ContractError::MalformedRecord {  } => SpecContractError::MalformedRecord,
        }
    }
}

/// The failure reason text of an error, as a character sequence.
pub open spec fn spec_message(e: SpecContractError) -> Seq<char> {
    match e {
        SpecContractError::Std(m) => m,
        SpecContractError::UnauthorizedNFTOwnere(expected, actual) => (
            "Unauthorized NFT owner, expected '"@ + expected + "', received '"@ + actual + "'"@
        ),
        SpecContractError::NoDelegationsFound(t) => "NFT '"@ + t + "' has no delegations"@,
        SpecContractError::RedeeemBondImpossibel(t) => "Cannot redeem bond for NFT '"@ + t + "'"@,
        SpecContractError::UnbondingImpossible(t) => "Cannot unbond the '"@ + t + "' NFT"@,
        SpecContractError::RedelegatingImpossible(t) => "Cannot redelegate the '"@ + t + "' NFT"@,
        SpecContractError::NoValidatorsFound => (
            "Something went wrong querying the validators of the network"@
        ),
        SpecContractError::NoNftContractAddress => (
            "Nft contract address not setup in the hub contract config"@
        ),
        SpecContractError::Serialize => "Serialization errors"@,
        SpecContractError::NFTMintError => "Something went wrong minting the NFT"@,
        SpecContractError::NFTContractInstantiateError => (
            "Something went wrong trying to instantiate the NFT"@
        ),
        SpecContractError::NoFundsReceived => "Funds were not received"@,
        SpecContractError::MalformedRecord => "Malformed delegation record"@,
    }
}

impl ContractError {
    /// The failure reason, including the offending identifiers.
    pub fn message(&self) -> (r: String)
        ensures
            r@ == spec_message(self@),
    {
        match self {
            ContractError::Std(m) => m.clone(),
            ContractError::UnauthorizedNFTOwnere(expected, actual) => String::from_str(
                "Unauthorized NFT owner, expected '",
            ).concat(expected.as_str()).concat("', received '").concat(actual.as_str()).concat(
                "'",
            ),
            ContractError::NoDelegationsFound(t) => String::from_str("NFT '").concat(
                t.as_str(),
            ).concat("' has no delegations"),
            ContractError::RedeeemBondImpossibel(t) => String::from_str(
                "Cannot redeem bond for NFT '",
            ).concat(t.as_str()).concat("'"),
            ContractError::UnbondingImpossible(t) => String::from_str("Cannot unbond the '")
                .concat(t.as_str()).concat("' NFT"),
            ContractError::RedelegatingImpossible(t) => String::from_str(
                "Cannot redelegate the '",
            ).concat(t.as_str()).concat("' NFT"),
            ContractError::NoValidatorsFound {  } => String::from_str(
                "Something went wrong querying the validators of the network",
            ),
            ContractError::NoNftContractAddress {  } => String::from_str(
                "Nft contract address not setup in the hub contract config",
            ),
            ContractError::Serialize {  } => String::from_str("Serialization errors"),
            ContractError::NFTMintError {  } => String::from_str(
                "Something went wrong minting the NFT",
            ),
            ContractError::NFTContractInstantiateError {  } => String::from_str(
                "Something went wrong trying to instantiate the NFT",
            ),
            ContractError::NoFundsReceived {  } => String::from_str("Funds were not received"),
            ContractError::MalformedRecord {  } => String::from_str("Malformed delegation record"),
        }
    }
}

} // verus!
