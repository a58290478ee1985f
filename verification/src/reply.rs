//! The acknowledgement handler.
//!
//! Every instruction tagged with a reply identifier is acknowledged in a
//! later, separate invocation.  On failure the handler propagates a
//! fatal error carrying the action's name and the upstream message — the
//! hub never retries, and the host's transactional rollback takes care
//! of the side effects queued alongside.  On success, the instantiation
//! acknowledgement records the provisioned collection address exactly
//! once, the mint acknowledgement moves the minted counter exactly once,
//! and the metadata-update acknowledgements only confirm.

use vstd::prelude::*;

use crate::codec::{dec_str, format_u64, str_eq};
use crate::constants::{
    INSTANTIATE_REPLY_ID, MINT_NFT_REPLY_ID, REDEEM_BOND_REPLY_ID, REDELEGATE_REPLY_ID,
    UNBONDING_NFT_REPLY_ID,
};
use crate::error::{ContractError, SpecContractError};
use crate::response::{attr_views, Attribute, HubResponse, SpecAttribute, SpecResponse};
use crate::state::{Cfg, SpecCfg};

verus! {

/// Mathematical mirror of [`ReplyEvent`].
#[verifier::ext_equal]
pub struct SpecReplyEvent {
    pub ty: Seq<char>,
    pub attributes: Seq<SpecAttribute>,
}

/// One event of an acknowledged instruction's result.
#[derive(Clone, Debug, PartialEq, Eq)]
pub struct ReplyEvent {
    pub ty: String,
    pub attributes: Vec<Attribute>,
}

impl View for ReplyEvent {
    type V = SpecReplyEvent;

    open spec fn view(&self) -> SpecReplyEvent {
        SpecReplyEvent { ty: self.ty@, attributes: attr_views(self.attributes@) }
    }
}

pub open spec fn event_views(v: Seq<ReplyEvent>) -> Seq<SpecReplyEvent> {
    v.map_values(|e: ReplyEvent| e@)
}

/// Mathematical mirror of [`ReplyResult`].
#[verifier::ext_equal]
pub enum SpecReplyResult {
    Succeeded(Seq<SpecReplyEvent>),
    Failed(Seq<char>),
}

/// What came back for an acknowledged instruction: the events of its
/// success, or the upstream failure message.
#[derive(Clone, Debug, PartialEq, Eq)]
pub enum ReplyResult {
    Succeeded { events: Vec<ReplyEvent> },
    Failed { error: String },
}

impl View for ReplyResult {
    type V = SpecReplyResult;

    open spec fn view(&self) -> SpecReplyResult {
        match self {
            ReplyResult::Succeeded { events } => SpecReplyResult::Succeeded(event_views(events@)),
            ReplyResult::Failed { error } => SpecReplyResult::Failed(error@),
        }
    }
}

/// The position of the first `instantiate` event, `-1` when there is
/// none.
pub open spec fn find_instantiate_event(events: Seq<SpecReplyEvent>) -> int
    decreases events.len(),
{
    if events.len() == 0 {
        -1
    } else if events[0].ty == "instantiate"@ {
        0
    } else {
        let r = find_instantiate_event(events.drop_first());
        if r == -1 {
            -1
        } else {
            r + 1
        }
    }
}

/// The position of the first `_contract_address` attribute, `-1` when
/// there is none.
pub open spec fn find_contract_addr_attr(attrs: Seq<SpecAttribute>) -> int
    decreases attrs.len(),
{
    if attrs.len() == 0 {
        -1
    } else if attrs[0].key == "_contract_address"@ {
        0
    } else {
        let r = find_contract_addr_attr(attrs.drop_first());
        if r == -1 {
            -1
        } else {
            r + 1
        }
    }
}

/// A left-to-right scan that saw no `instantiate` event before `i`, and
/// one at `i` unless it ran out, has found the first one.
proof fn lemma_find_instantiate_event(events: Seq<SpecReplyEvent>, i: int)
    requires
        0 <= i <= events.len(),
        forall|j: int| 0 <= j < i ==> (#[trigger] events[j]).ty != "instantiate"@,
        i < events.len() ==> events[i].ty == "instantiate"@,
    ensures
        find_instantiate_event(events) == if i < events.len() {
            i
        } else {
            -1
        },
    decreases i,
{
    if i == 0 {
    } else {
        assert(events[0].ty != "instantiate"@);
        lemma_find_instantiate_event(events.drop_first(), i - 1);
        assert(forall|j: int|
            0 <= j < i - 1 ==> #[trigger] events.drop_first()[j] == events[j + 1]);
    }
}

/// The same scan argument for the `_contract_address` attribute.
proof fn lemma_find_contract_addr_attr(attrs: Seq<SpecAttribute>, i: int)
    requires
        0 <= i <= attrs.len(),
        forall|j: int| 0 <= j < i ==> (#[trigger] attrs[j]).key != "_contract_address"@,
        i < attrs.len() ==> attrs[i].key == "_contract_address"@,
    ensures
        find_contract_addr_attr(attrs) == if i < attrs.len() {
            i
        } else {
            -1
        },
    decreases i,
{
    if i == 0 {
    } else {
        assert(attrs[0].key != "_contract_address"@);
        lemma_find_contract_addr_attr(attrs.drop_first(), i - 1);
        assert(forall|j: int| 0 <= j < i - 1 ==> #[trigger] attrs.drop_first()[j] == attrs[j + 1]);
    }
}

/// Finds the first `instantiate` event.
fn find_event(events: &Vec<ReplyEvent>) -> (r: Option<usize>)
    ensures
        match r {
            Option::Some(i) => i < events@.len() && find_instantiate_event(event_views(events@))
                == i as int,
            Option::None => find_instantiate_event(event_views(events@)) == -1,
        },
{
    let n = events.len();
    let mut i: usize = 0;
    while i < n
        invariant
            0 <= i <= n,
            n == events@.len(),
            forall|j: int|
                0 <= j < i ==> (#[trigger] event_views(events@)[j]).ty != "instantiate"@,
        decreases n - i,
    {
        if str_eq(events[i].ty.as_str(), "instantiate") {
            proof {
                assert(event_views(events@)[i as int] == events@[i as int]@);
                lemma_find_instantiate_event(event_views(events@), i as int);
            }
            return Option::Some(i);
        }
        proof {
            assert(event_views(events@)[i as int] == events@[i as int]@);
        }
        i = i + 1;
    }
    proof {
        lemma_find_instantiate_event(event_views(events@), n as int);
    }
    Option::None
}

/// Finds the first `_contract_address` attribute.
fn find_addr_attr(attrs: &Vec<Attribute>) -> (r: Option<usize>)
    ensures
        match r {
            Option::Some(i) => i < attrs@.len() && find_contract_addr_attr(attr_views(attrs@))
                == i as int,
            Option::None => find_contract_addr_attr(attr_views(attrs@)) == -1,
        },
{
    let n = attrs.len();
    let mut i: usize = 0;
    while i < n
        invariant
            0 <= i <= n,
            n == attrs@.len(),
            forall|j: int|
                0 <= j < i ==> (#[trigger] attr_views(attrs@)[j]).key != "_contract_address"@,
        decreases n - i,
    {
        if str_eq(attrs[i].key.as_str(), "_contract_address") {
            proof {
                assert(attr_views(attrs@)[i as int] == attrs@[i as int]@);
                lemma_find_contract_addr_attr(attr_views(attrs@), i as int);
            }
            return Option::Some(i);
        }
        proof {
            assert(attr_views(attrs@)[i as int] == attrs@[i as int]@);
        }
        i = i + 1;
    }
    proof {
        lemma_find_contract_addr_attr(attr_views(attrs@), n as int);
    }
    Option::None
}

/// A response that carries attributes only.
pub open spec fn spec_attr_response(attributes: Seq<SpecAttribute>) -> SpecResponse {
    SpecResponse { attributes: attributes, messages: Seq::empty() }
}

/// What acknowledging the instantiation does: on failure, the propagated
/// error; on success, the provisioned collection address — read from the
/// first `_contract_address` attribute of the first `instantiate` event —
/// recorded in the configuration exactly once.
pub open spec fn spec_instantiate_reply(cfg: SpecCfg, result: SpecReplyResult) -> Result<
    (SpecCfg, SpecResponse),
    SpecContractError,
> {
    match result {
        SpecReplyResult::Failed(err) => Err(
            SpecContractError::Std("Error instantiating nft: "@ + err),
        ),
        SpecReplyResult::Succeeded(events) => {
            let ei = find_instantiate_event(events);
            if ei == -1 {
                Err(SpecContractError::Std("No instantiate event found"@))
            } else {
                let ai = find_contract_addr_attr(events[ei].attributes);
                if ai == -1 {
                    Err(SpecContractError::Std("No '_contract_address' attribute found"@))
                } else {
                    let addr = events[ei].attributes[ai].value;
                    Ok(
                        (
                            SpecCfg {
                                minted_nfts: cfg.minted_nfts,
                                unbonding_seconds: cfg.unbonding_seconds,
                                nft_contract_addr: Option::Some(addr),
                            },
                            spec_attr_response(
                                seq![
                                    SpecAttribute {
                                        key: "action"@,
                                        value: "instantiate_nft_reply"@,
                                    },
                                    SpecAttribute { key: "nft_contract_address"@, value: addr },
                                ],
                            ),
                        ),
                    )
                }
            }
        },
    }
}

/// What acknowledging the mint does: on failure, the propagated error;
/// on success, the minted counter moves up exactly once.
pub open spec fn spec_mint_reply(cfg: SpecCfg, result: SpecReplyResult) -> Result<
    (SpecCfg, SpecResponse),
    SpecContractError,
> {
    match result {
        SpecReplyResult::Failed(err) => Err(SpecContractError::Std("Error minting nft: "@ + err)),
        SpecReplyResult::Succeeded(_) => Ok(
            (
                SpecCfg {
                    minted_nfts: cfg.minted_nfts + 1,
                    unbonding_seconds: cfg.unbonding_seconds,
                    nft_contract_addr: cfg.nft_contract_addr,
                },
                spec_attr_response(
                    seq![
                        SpecAttribute { key: "action"@, value: "mint_nft_reply"@ },
                        SpecAttribute { key: "minted_nfts"@, value: dec_str(cfg.minted_nfts + 1) },
                    ],
                ),
            ),
        ),
    }
}

/// What acknowledging a metadata update does: on failure, the propagated
/// error under the given prefix; on success, nothing beyond confirming —
/// the hub keeps no local copy of the records.
pub open spec fn spec_update_reply(
    cfg: SpecCfg,
    result: SpecReplyResult,
    err_prefix: Seq<char>,
    method: Seq<char>,
) -> Result<(SpecCfg, SpecResponse), SpecContractError> {
    match result {
        SpecReplyResult::Failed(err) => Err(SpecContractError::Std(err_prefix + err)),
        SpecReplyResult::Succeeded(_) => Ok(
            (cfg, spec_attr_response(seq![SpecAttribute { key: "method"@, value: method }])),
        ),
    }
}

/// Everything the acknowledgement handler does, for every reply
/// identifier and result.
pub open spec fn spec_reply(cfg: SpecCfg, id: int, result: SpecReplyResult) -> Result<
    (SpecCfg, SpecResponse),
    SpecContractError,
> {
    if id == INSTANTIATE_REPLY_ID as int {
        spec_instantiate_reply(cfg, result)
    } else if id == MINT_NFT_REPLY_ID as int {
        spec_mint_reply(cfg, result)
    } else if id == UNBONDING_NFT_REPLY_ID as int {
        spec_update_reply(cfg, result, "Error update nft: "@, "start_unbonding_reply"@)
    } else if id == REDELEGATE_REPLY_ID as int {
        spec_update_reply(cfg, result, "Error update nft:"@, "redelegate_reply"@)
    } else if id == REDEEM_BOND_REPLY_ID as int {
        spec_update_reply(cfg, result, "Error update nft:"@, "redeem_bond_reply"@)
    } else {
        Err(SpecContractError::Std("Unknown reply id: "@ + dec_str(id)))
    }
}

/// Handles the instantiation acknowledgement.
fn handle_instantiate_reply(cfg: &mut Cfg, result: ReplyResult) -> (r: Result<
    HubResponse,
    ContractError,
>)
    ensures
        match r {
            Ok(resp) => spec_instantiate_reply(old(cfg)@, result@) == Ok::<_, SpecContractError>(
                (final (cfg)@, resp@),
            ),
            Err(e) => spec_instantiate_reply(old(cfg)@, result@) == Err::<
                (SpecCfg, SpecResponse),
                _,
            >(e@) && *final (cfg) == *old(cfg),
        },
{
    let events = match result {
        ReplyResult::Failed { error } => {
            return Err(
                ContractError::Std(
                    String::from_str("Error instantiating nft: ").concat(error.as_str()),
                ),
            );
        },
        ReplyResult::Succeeded { events } => events,
    };
    let ei = match find_event(&events) {
        Option::Some(i) => i,
        Option::None => {
            return Err(ContractError::Std(String::from_str("No instantiate event found")));
        },
    };
    let event = &events[ei];
    proof {
        assert(event_views(events@)[ei as int] == events@[ei as int]@);
    }
    let ai = match find_addr_attr(&event.attributes) {
        Option::Some(i) => i,
        Option::None => {
            return Err(
                ContractError::Std(String::from_str("No '_contract_address' attribute found")),
            );
        },
    };
    let addr = &event.attributes[ai].value;
    proof {
        assert(attr_views(event.attributes@)[ai as int] == event.attributes@[ai as int]@);
    }
    cfg.nft_contract_addr = Option::Some(addr.clone());
    let mut attributes: Vec<Attribute> = Vec::new();
    attributes.push(Attribute::new("action", "instantiate_nft_reply"));
    attributes.push(Attribute::new("nft_contract_address", addr.as_str()));
    let resp = HubResponse { attributes, messages: Vec::new() };
    proof {
        assert(resp@ =~~= spec_instantiate_reply(old(cfg)@, result@)->Ok_0.1);
        assert(final (cfg)@ =~~= spec_instantiate_reply(old(cfg)@, result@)->Ok_0.0);
    }
    Ok(resp)
}

/// Handles the mint acknowledgement.
fn handle_mint_nft_reply_id(cfg: &mut Cfg, result: ReplyResult) -> (r: Result<
    HubResponse,
    ContractError,
>)
    requires
        result is Succeeded ==> old(cfg).minted_nfts < u64::MAX,
    ensures
        match r {
            Ok(resp) => spec_mint_reply(old(cfg)@, result@) == Ok::<_, SpecContractError>(
                (final (cfg)@, resp@),
            ),
            Err(e) => spec_mint_reply(old(cfg)@, result@) == Err::<(SpecCfg, SpecResponse), _>(e@)
                && *final (cfg) == *old(cfg),
        },
{
    match result {
        ReplyResult::Failed { error } => {
            return Err(
                ContractError::Std(
                    String::from_str("Error minting nft: ").concat(error.as_str()),
                ),
            );
        },
        ReplyResult::Succeeded { events: _ } => {
        },
    };
    cfg.minted_nfts = cfg.minted_nfts + 1;
    let counter = format_u64(cfg.minted_nfts);
    let mut attributes: Vec<Attribute> = Vec::new();
    attributes.push(Attribute::new("action", "mint_nft_reply"));
    attributes.push(Attribute::new("minted_nfts", counter.as_str()));
    let resp = HubResponse { attributes, messages: Vec::new() };
    proof {
        assert(resp@ =~~= spec_mint_reply(old(cfg)@, result@)->Ok_0.1);
        assert(final (cfg)@ =~~= spec_mint_reply(old(cfg)@, result@)->Ok_0.0);
    }
    Ok(resp)
}

/// Handles a metadata-update acknowledgement: `err_prefix` and `method`
/// name the action it confirms.
fn handle_update_reply(result: ReplyResult, err_prefix: &str, method: &str) -> (r: Result<
    HubResponse,
    ContractError,
>)
    ensures
        ({
            let expected = match result@ {
                SpecReplyResult::Failed(err) => Err(SpecContractError::Std(err_prefix@ + err)),
                SpecReplyResult::Succeeded(_) => Ok(
                    spec_attr_response(seq![SpecAttribute { key: "method"@, value: method@ }]),
                ),
            };
            match r {
                Ok(resp) => expected == Ok::<SpecResponse, SpecContractError>(resp@),
                Err(e) => expected == Err::<SpecResponse, SpecContractError>(e@),
            }
        }),
{
    match result {
        ReplyResult::Failed { error } => Err(
            ContractError::Std(String::from_str(err_prefix).concat(error.as_str())),
        ),
        ReplyResult::Succeeded { events: _ } => {
            let mut attributes: Vec<Attribute> = Vec::new();
            attributes.push(Attribute::new("method", method));
            let resp = HubResponse { attributes, messages: Vec::new() };
            proof {
                assert(resp@ =~~= spec_attr_response(seq![
                    SpecAttribute { key: "method"@, value: method@ },
                ]));
            }
            Ok(resp)
        },
    }
}

/// Dispatches an acknowledgement to its handler by reply identifier.
///
/// On failure the configuration is untouched and the error carries the
/// action's name with the upstream message; an unknown identifier is
/// itself an error.
pub fn reply(cfg: &mut Cfg, id: u64, result: ReplyResult) -> (r: Result<HubResponse, ContractError>)
    requires
        id == MINT_NFT_REPLY_ID && result is Succeeded ==> old(cfg).minted_nfts < u64::MAX,
    ensures
        match r {
            Ok(resp) => spec_reply(old(cfg)@, id as int, result@) == Ok::<_, SpecContractError>(
                (final (cfg)@, resp@),
            ),
            Err(e) => spec_reply(old(cfg)@, id as int, result@) == Err::<
                (SpecCfg, SpecResponse),
                _,
            >(e@) && *final (cfg) == *old(cfg),
        },
{
    if id == INSTANTIATE_REPLY_ID {
        handle_instantiate_reply(cfg, result)
    } else if id == MINT_NFT_REPLY_ID {
        handle_mint_nft_reply_id(cfg, result)
    } else if id == UNBONDING_NFT_REPLY_ID {
        handle_update_reply(result, "Error update nft: ", "start_unbonding_reply")
    } else if id == REDELEGATE_REPLY_ID {
        handle_update_reply(result, "Error update nft:", "redelegate_reply")
    } else if id == REDEEM_BOND_REPLY_ID {
        handle_update_reply(result, "Error update nft:", "redeem_bond_reply")
    } else {
        let id_str = format_u64(id);
        Err(ContractError::Std(String::from_str("Unknown reply id: ").concat(id_str.as_str())))
    }
}

} // verus!
