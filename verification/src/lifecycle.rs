//! The delegation lifecycle state machine.
//!
//! Each claim token carries an ordered list of delegation records.  A
//! record moves through `Delegated -> Unbonding -> Unbonded` or
//! `Delegated -> Redelegating -> Delegated`-like cycles, each step
//! stamped with the time at which the new status takes effect.  Every
//! transition is validated across the whole record set atomically: if any
//! record is ineligible the operation fails with the error of the first
//! ineligible record, and no record changes.
//!
//! A record whose redelegation window has already passed (`Redelegating`
//! with a stale effective time) counts as resolved and may move on; a
//! pending redelegation blocks every operation.

use vstd::prelude::*;

use crate::codec::{decode_value, encode_value, spec_decode, spec_encode};
use crate::error::{ContractError, SpecContractError};
use crate::state::DisplayType;

verus! {

/// Mathematical mirror of [`DelegationRecord`].
#[verifier::ext_equal]
pub struct SpecRecord {
    pub validator: Seq<char>,
    pub amount: int,
    pub denom: Seq<char>,
    pub status: DisplayType,
    pub effective_time: int,
}

/// One validator-stake entry of a claim token.
///
/// `effective_time` is in nanoseconds since the epoch: the moment the
/// current status becomes (or became) valid, such as the unbonding or
/// redelegation completion time.
#[derive(Clone, Debug, PartialEq, Eq)]
pub struct DelegationRecord {
    pub validator: String,
    pub amount: u128,
    pub denom: String,
    pub status: DisplayType,
    pub effective_time: u64,
}

impl View for DelegationRecord {
    type V = SpecRecord;

    open spec fn view(&self) -> SpecRecord {
        SpecRecord {
            validator: self.validator@,
            amount: self.amount as int,
            denom: self.denom@,
            status: self.status,
            effective_time: self.effective_time as int,
        }
    }
}

/// The views of a loaded record list.
pub open spec fn rec_views(v: Seq<DelegationRecord>) -> Seq<SpecRecord> {
    v.map_values(|r: DelegationRecord| r@)
}

/// A record not yet redeemed must still stake something.
pub open spec fn record_wf(r: SpecRecord) -> bool {
    r.status != DisplayType::Unbonded ==> r.amount > 0
}

/// Whether a record may start unbonding or redelegating at time `now`:
/// it is plainly delegated, or its redelegation window has already
/// passed and counts as resolved.
pub open spec fn move_eligible(r: SpecRecord, now: int) -> bool {
    ||| r.status == DisplayType::Delegated
    ||| (r.status == DisplayType::Redelegating && r.effective_time < now)
}

/// Whether a record may be redeemed at time `now`: its unbonding window
/// has fully elapsed.
pub open spec fn redeem_eligible(r: SpecRecord, now: int) -> bool {
    r.status == DisplayType::Unbonding && r.effective_time <= now
}

/// The whole record set, restamped with one status and one effective
/// time; everything else is preserved verbatim.
pub open spec fn retimed(rs: Seq<SpecRecord>, status: DisplayType, t: int) -> Seq<SpecRecord> {
    Seq::new(
        rs.len(),
        |i: int|
            SpecRecord {
                validator: rs[i].validator,
                amount: rs[i].amount,
                denom: rs[i].denom,
                status: status,
                effective_time: t,
            },
    )
}

/// `i` is the first record that fails `move_eligible`.
pub open spec fn first_move_blocked(rs: Seq<SpecRecord>, now: int, i: int) -> bool {
    &&& 0 <= i < rs.len()
    &&& !move_eligible(rs[i], now)
    &&& forall|j: int| 0 <= j < i ==> move_eligible(#[trigger] rs[j], now)
}

/// The error that blocks a start-unbonding or redelegate step: a pending
/// redelegation names the redelegation as the obstacle, anything else
/// ineligible gets the operation's own error.
pub open spec fn spec_move_error(
    rs: Seq<SpecRecord>,
    now: int,
    token_id: Seq<char>,
    redelegating: bool,
) -> SpecContractError {
    let i = choose|i: int| first_move_blocked(rs, now, i);
    if redelegating || rs[i].status == DisplayType::Redelegating {
        SpecContractError::RedelegatingImpossible(token_id)
    } else {
        SpecContractError::UnbondingImpossible(token_id)
    }
}

/// What a start-unbonding transition yields on a record set: every
/// record restamped to `Unbonding` at `effective`, or the error of the
/// first ineligible record.
pub open spec fn spec_unbonding_records(
    rs: Seq<SpecRecord>,
    now: int,
    effective: int,
    token_id: Seq<char>,
) -> Result<Seq<SpecRecord>, SpecContractError> {
    if forall|i: int| 0 <= i < rs.len() ==> move_eligible(#[trigger] rs[i], now) {
        Ok(retimed(rs, DisplayType::Unbonding, effective))
    } else {
        Err(spec_move_error(rs, now, token_id, false))
    }
}

/// What a redelegate transition yields on a record set: every record
/// restamped to `Redelegating` at `effective` (the stake's target moves
/// on chain, the recorded source validator is kept), or
/// `RedelegatingImpossible`.
pub open spec fn spec_redelegating_records(
    rs: Seq<SpecRecord>,
    now: int,
    effective: int,
    token_id: Seq<char>,
) -> Result<Seq<SpecRecord>, SpecContractError> {
    if forall|i: int| 0 <= i < rs.len() ==> move_eligible(#[trigger] rs[i], now) {
        Ok(retimed(rs, DisplayType::Redelegating, effective))
    } else {
        Err(spec_move_error(rs, now, token_id, true))
    }
}

/// What a redeem-bond transition yields on a record set: every record
/// restamped to `Unbonded` at `now`, or `RedeeemBondImpossibel` when any
/// record's unbonding window has not elapsed.
pub open spec fn spec_redeemed_records(
    rs: Seq<SpecRecord>,
    now: int,
    token_id: Seq<char>,
) -> Result<Seq<SpecRecord>, SpecContractError> {
    if forall|i: int| 0 <= i < rs.len() ==> redeem_eligible(#[trigger] rs[i], now) {
        Ok(retimed(rs, DisplayType::Unbonded, now))
    } else {
        Err(SpecContractError::RedeeemBondImpossibel(token_id))
    }
}

/// The first blocked index is unique.
proof fn lemma_first_move_blocked_unique(rs: Seq<SpecRecord>, now: int, i: int)
    requires
        first_move_blocked(rs, now, i),
    ensures
        (choose|k: int| first_move_blocked(rs, now, k)) == i,
{
    let w = choose|k: int| first_move_blocked(rs, now, k);
    assert(first_move_blocked(rs, now, w));
    if w < i {
        assert(move_eligible(rs[w], now));
    } else if i < w {
        assert(move_eligible(rs[i], now));
    }
}

/// Restamps every record to `status` at `effective`, provided each is
/// eligible to start unbonding or redelegating at `now`.
fn move_records(
    records: &Vec<DelegationRecord>,
    now: u64,
    effective: u64,
    token_id: &String,
    status: DisplayType,
    redelegating: bool,
) -> (r: Result<Vec<DelegationRecord>, ContractError>)
    requires
        status == DisplayType::Unbonding || status == DisplayType::Redelegating,
    ensures
        match r {
            Ok(out) => {
                &&& forall|i: int|
                    0 <= i < records@.len() ==> move_eligible(
                        #[trigger] rec_views(records@)[i],
                        now as int,
                    )
                &&& rec_views(out@) == retimed(rec_views(records@), status, effective as int)
            },
            Err(e) => {
                &&& exists|i: int| first_move_blocked(rec_views(records@), now as int, i)
                &&& e@ == spec_move_error(
                    rec_views(records@),
                    now as int,
                    token_id@,
                    redelegating,
                )
            },
        },
{
    let ghost rs = rec_views(records@);
    let mut out: Vec<DelegationRecord> = Vec::new();
    let n = records.len();
    let mut i: usize = 0;
    while i < n
        invariant
            0 <= i <= n,
            n == records@.len(),
            rs == rec_views(records@),
            out@.len() == i,
            status == DisplayType::Unbonding || status == DisplayType::Redelegating,
            forall|j: int| 0 <= j < i ==> move_eligible(#[trigger] rs[j], now as int),
            forall|j: int|
                0 <= j < i ==> #[trigger] out@[j]@ == retimed(rs, status, effective as int)[j],
        decreases n - i,
    {
        let rec = &records[i];
        let eligible = match rec.status {
            DisplayType::Delegated => true,
            DisplayType::Redelegating => rec.effective_time < now,
            _ => false,
        };
        if !eligible {
            proof {
                assert(rs[i as int] == records@[i as int]@);
                assert(first_move_blocked(rs, now as int, i as int));
                lemma_first_move_blocked_unique(rs, now as int, i as int);
            }
            if redelegating {
                return Err(ContractError::RedelegatingImpossible(token_id.clone()));
            }
            match rec.status {
                DisplayType::Redelegating => {
                    return Err(ContractError::RedelegatingImpossible(token_id.clone()));
                },
                _ => {
                    return Err(ContractError::UnbondingImpossible(token_id.clone()));
                },
            }
        }
        out.push(
            DelegationRecord {
                validator: rec.validator.clone(),
                amount: rec.amount,
                denom: rec.denom.clone(),
                status,
                effective_time: effective,
            },
        );
        i = i + 1;
    }
    proof {
        assert(rec_views(out@) =~= retimed(rs, status, effective as int));
    }
    Ok(out)
}

/// Validates and applies the start-unbonding transition on a whole
/// record set.
pub fn unbonding_records(
    records: &Vec<DelegationRecord>,
    now: u64,
    effective: u64,
    token_id: &String,
) -> (r: Result<Vec<DelegationRecord>, ContractError>)
    ensures
        match r {
            Ok(out) => spec_unbonding_records(
                rec_views(records@),
                now as int,
                effective as int,
                token_id@,
            ) == Ok::<_, SpecContractError>(rec_views(out@)),
            Err(e) => spec_unbonding_records(
                rec_views(records@),
                now as int,
                effective as int,
                token_id@,
            ) == Err::<Seq<SpecRecord>, _>(e@),
        },
{
    let r = move_records(records, now, effective, token_id, DisplayType::Unbonding, false);
    proof {
        if r is Err {
            let rs = rec_views(records@);
            let i = choose|i: int| first_move_blocked(rs, now as int, i);
            assert(!move_eligible(rs[i], now as int));
        }
    }
    r
}

/// Validates and applies the redelegate transition on a whole record
/// set.
pub fn redelegating_records(
    records: &Vec<DelegationRecord>,
    now: u64,
    effective: u64,
    token_id: &String,
) -> (r: Result<Vec<DelegationRecord>, ContractError>)
    ensures
        match r {
            Ok(out) => spec_redelegating_records(
                rec_views(records@),
                now as int,
                effective as int,
                token_id@,
            ) == Ok::<_, SpecContractError>(rec_views(out@)),
            Err(e) => spec_redelegating_records(
                rec_views(records@),
                now as int,
                effective as int,
                token_id@,
            ) == Err::<Seq<SpecRecord>, _>(e@),
        },
{
    let r = move_records(records, now, effective, token_id, DisplayType::Redelegating, true);
    proof {
        if r is Err {
            let rs = rec_views(records@);
            let i = choose|i: int| first_move_blocked(rs, now as int, i);
            assert(!move_eligible(rs[i], now as int));
        }
    }
    r
}

/// Validates and applies the redeem-bond transition on a whole record
/// set.
pub fn redeemed_records(
    records: &Vec<DelegationRecord>,
    now: u64,
    token_id: &String,
) -> (r: Result<Vec<DelegationRecord>, ContractError>)
    ensures
        match r {
            Ok(out) => spec_redeemed_records(rec_views(records@), now as int, token_id@) == Ok::<
                _,
                SpecContractError,
            >(rec_views(out@)),
            Err(e) => spec_redeemed_records(rec_views(records@), now as int, token_id@) == Err::<
                Seq<SpecRecord>,
                _,
            >(e@),
        },
{
    let ghost rs = rec_views(records@);
    let mut out: Vec<DelegationRecord> = Vec::new();
    let n = records.len();
    let mut i: usize = 0;
    while i < n
        invariant
            0 <= i <= n,
            n == records@.len(),
            rs == rec_views(records@),
            out@.len() == i,
            forall|j: int| 0 <= j < i ==> redeem_eligible(#[trigger] rs[j], now as int),
            forall|j: int|
                0 <= j < i ==> #[trigger] out@[j]@ == retimed(
                    rs,
                    DisplayType::Unbonded,
                    now as int,
                )[j],
        decreases n - i,
    {
        let rec = &records[i];
        let eligible = match rec.status {
            DisplayType::Unbonding => rec.effective_time <= now,
            _ => false,
        };
        if !eligible {
            proof {
                assert(rs[i as int] == records@[i as int]@);
                assert(!redeem_eligible(rs[i as int], now as int));
            }
            return Err(ContractError::RedeeemBondImpossibel(token_id.clone()));
        }
        out.push(
            DelegationRecord {
                validator: rec.validator.clone(),
                amount: rec.amount,
                denom: rec.denom.clone(),
                status: DisplayType::Unbonded,
                effective_time: now,
            },
        );
        i = i + 1;
    }
    proof {
        assert(rec_views(out@) =~= retimed(rs, DisplayType::Unbonded, now as int));
    }
    Ok(out)
}

/// What reading a metadata trait yields: the validator from the trait's
/// type, the status from its display label (leniently), the stake from
/// the trait value, or `None` when the value is malformed.
pub open spec fn spec_decode_record(
    display_type: Seq<char>,
    trait_type: Seq<char>,
    timestamp: int,
    value: Seq<char>,
) -> Option<SpecRecord> {
    match spec_decode(value) {
        Option::Some(pair) => Option::Some(
            SpecRecord {
                validator: trait_type,
                amount: pair.0,
                denom: pair.1,
                status: DisplayType::spec_from_label(display_type),
                effective_time: timestamp,
            },
        ),
        Option::None => Option::None,
    }
}

/// Reads one metadata trait into a delegation record; the adapter from
/// the collaborator's text form into the hub's tagged form.
pub fn decode_record(display_type: &str, trait_type: &str, timestamp: u64, value: &str) -> (r:
    Result<DelegationRecord, ContractError>)
    ensures
        match r {
            Ok(rec) => spec_decode_record(display_type@, trait_type@, timestamp as int, value@)
                == Option::Some(rec@),
            Err(e) => spec_decode_record(display_type@, trait_type@, timestamp as int, value@)
                is None && e == (ContractError::MalformedRecord {  }),
        },
{
    let (amount, denom) = match decode_value(value) {
        Ok(pair) => pair,
        Err(e) => {
            return Err(e);
        },
    };
    Ok(
        DelegationRecord {
            validator: trait_type.to_owned(),
            amount,
            denom,
            status: DisplayType::from_label(display_type),
            effective_time: timestamp,
        },
    )
}

/// A record written into its metadata trait fields and read back is
/// the same record, for any record whose denomination does not contain
/// the delimiter.
pub proof fn lemma_record_round_trip(r: SpecRecord)
    requires
        0 <= r.amount <= u128::MAX as int,
        !r.denom.contains('@'),
    ensures
        spec_decode_record(
            r.status.spec_label(),
            r.validator,
            r.effective_time,
            spec_encode(r.amount, r.denom),
        ) == Option::Some(r),
{
    crate::codec::lemma_codec_round_trip(r.amount, r.denom);
    crate::state::lemma_label_round_trip(r.status);
    assert(spec_decode_record(
        r.status.spec_label(),
        r.validator,
        r.effective_time,
        spec_encode(r.amount, r.denom),
    ) =~~= Option::Some(r));
}

/// Writes one delegation record back into its metadata trait fields:
/// display label, trait type (the validator), timestamp and the encoded
/// `amount@denom` value.
pub fn encode_record(rec: &DelegationRecord) -> (r: (String, String, u64, String))
    ensures
        r.0@ == rec.status.spec_label(),
        r.1@ == rec.validator@,
        r.2 == rec.effective_time,
        r.3@ == spec_encode(rec.amount as int, rec.denom@),
{
    (
        rec.status.label(),
        rec.validator.clone(),
        rec.effective_time,
        encode_value(rec.amount, rec.denom.as_str()),
    )
}

} // verus!
