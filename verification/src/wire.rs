//! Protobuf encoding of the staking instructions.
//!
//! The host ledger's staking module takes its instructions as
//! protobuf-encoded payloads under a type URL.  The encodings are
//! performed by the `terra_proto_rs` crate; each is a pure function of
//! the message's string fields, so its result is given a name here and
//! every contract downstream speaks of that name.

use vstd::prelude::*;

verus! {

/// The protobuf encoding of an alliance `MsgDelegate` with the given
/// field values.
pub uninterp spec fn msg_delegate_wire(
    delegator: Seq<char>,
    validator: Seq<char>,
    amount: Seq<char>,
    denom: Seq<char>,
) -> Seq<u8>;

/// The protobuf encoding of an alliance `MsgUndelegate` with the given
/// field values.
pub uninterp spec fn msg_undelegate_wire(
    delegator: Seq<char>,
    validator: Seq<char>,
    amount: Seq<char>,
    denom: Seq<char>,
) -> Seq<u8>;

/// The protobuf encoding of an alliance `MsgRedelegate` with the given
/// field values.
pub uninterp spec fn msg_redelegate_wire(
    delegator: Seq<char>,
    src_validator: Seq<char>,
    dst_validator: Seq<char>,
    amount: Seq<char>,
    denom: Seq<char>,
) -> Seq<u8>;

/// The protobuf encoding of an alliance `MsgClaimDelegationRewards`
/// with the given field values.
pub uninterp spec fn msg_claim_rewards_wire(
    delegator: Seq<char>,
    validator: Seq<char>,
    denom: Seq<char>,
) -> Seq<u8>;

/// Relies on `prost::Message::encode_to_vec` for
/// `terra_proto_rs::alliance::alliance::MsgDelegate`: the protobuf
/// encoding is determined by the message's fields alone.
#[verifier::external_body]
pub(crate) fn encode_msg_delegate(
    delegator: &String,
    validator: &String,
    amount: &String,
    denom: &String,
) -> (r: Vec<u8>)
    ensures
        r@ == msg_delegate_wire(delegator@, validator@, amount@, denom@),
{
    terra_proto_rs::traits::Message::encode_to_vec(
        &terra_proto_rs::alliance::alliance::MsgDelegate {
            delegator_address: delegator.clone(),
            validator_address: validator.clone(),
            amount: Some(terra_proto_rs::cosmos::base::v1beta1::Coin {
                denom: denom.clone(),
                amount: amount.clone(),
            }),
        },
    )
}

/// Relies on `prost::Message::encode_to_vec` for
/// `terra_proto_rs::alliance::alliance::MsgUndelegate`: the protobuf
/// encoding is determined by the message's fields alone.
#[verifier::external_body]
pub(crate) fn encode_msg_undelegate(
    delegator: &String,
    validator: &String,
    amount: &String,
    denom: &String,
) -> (r: Vec<u8>)
    ensures
        r@ == msg_undelegate_wire(delegator@, validator@, amount@, denom@),
{
    terra_proto_rs::traits::Message::encode_to_vec(
        &terra_proto_rs::alliance::alliance::MsgUndelegate {
            delegator_address: delegator.clone(),
            validator_address: validator.clone(),
            amount: Some(terra_proto_rs::cosmos::base::v1beta1::Coin {
                denom: denom.clone(),
                amount: amount.clone(),
            }),
        },
    )
}

/// Relies on `prost::Message::encode_to_vec` for
/// `terra_proto_rs::alliance::alliance::MsgRedelegate`: the protobuf
/// encoding is determined by the message's fields alone.
#[verifier::external_body]
pub(crate) fn encode_msg_redelegate(
    delegator: &String,
    src_validator: &String,
    dst_validator: &String,
    amount: &String,
    denom: &String,
) -> (r: Vec<u8>)
    ensures
        r@ == msg_redelegate_wire(delegator@, src_validator@, dst_validator@, amount@, denom@),
{
    terra_proto_rs::traits::Message::encode_to_vec(
        &terra_proto_rs::alliance::alliance::MsgRedelegate {
            delegator_address: delegator.clone(),
            validator_src_address: src_validator.clone(),
            validator_dst_address: dst_validator.clone(),
            amount: Some(terra_proto_rs::cosmos::base::v1beta1::Coin {
                denom: denom.clone(),
                amount: amount.clone(),
            }),
        },
    )
}

/// Relies on `prost::Message::encode_to_vec` for
/// `terra_proto_rs::alliance::alliance::MsgClaimDelegationRewards`: the
/// protobuf encoding is determined by the message's fields alone.
#[verifier::external_body]
pub(crate) fn encode_msg_claim_rewards(
    delegator: &String,
    validator: &String,
    denom: &String,
) -> (r: Vec<u8>)
    ensures
        r@ == msg_claim_rewards_wire(delegator@, validator@, denom@),
{
    terra_proto_rs::traits::Message::encode_to_vec(
        &terra_proto_rs::alliance::alliance::MsgClaimDelegationRewards {
            delegator_address: delegator.clone(),
            validator_address: validator.clone(),
            denom: denom.clone(),
        },
    )
}

} // verus!
