//! The validator projection: mapping raw domain records into the Cosmos
//! wire shapes, decoding the listing query, and assembling the listing
//! response.
//!
//! The projection is total on well-formed records and fails — with no
//! partial output — exactly when a record lacks its address or carries a
//! consensus key of a scheme this layer has no type tag for.

use vstd::prelude::*;
use crate::digits::{spec_dec_digits, u64_to_dec_string};
use crate::domain::{
    Address, DomainCommission, DomainConsensusKey, DomainDescription, DomainValStatus,
    DomainValidator, KeyScheme, StakingError,
};
use crate::shared::{PaginationInfo, PaginationQueryParams, spec_pagination_default};
use crate::staking::{
    CommissionInfo, ConsensusKeyInfo, RatesInfo, ValidatorDescription, ValidatorInfo,
    ValidatorResponse, ValidatorsQueryParams, ValidatorsResponse, spec_commission_default,
    spec_description_empty_texts,
};
use crate::status::{CosmosValStatus, spec_status_of_token};

verus! {

/// The bonding status a domain state classifies to. `Unknown` — and only
/// `Unknown` — falls back to the explicit unspecified variant; a
/// recognized state is never silently defaulted.
pub open spec fn spec_cosmos_status_of(d: DomainValStatus) -> CosmosValStatus {
    match d {
        DomainValStatus::Bonded => CosmosValStatus::BOND_STATUS_BONDED,
        DomainValStatus::Unbonding => CosmosValStatus::BOND_STATUS_UNBONDING,
        DomainValStatus::Unbonded => CosmosValStatus::BOND_STATUS_UNBONDED,
        DomainValStatus::Unknown => CosmosValStatus::BOND_STATUS_UNSPECIFIED,
    }
}

/// Classify a domain bonding state.
pub fn cosmos_status_of(d: DomainValStatus) -> (r: CosmosValStatus)
    ensures
        r == spec_cosmos_status_of(d),
{
    match d {
        DomainValStatus::Bonded => CosmosValStatus::BOND_STATUS_BONDED,
        DomainValStatus::Unbonding => CosmosValStatus::BOND_STATUS_UNBONDING,
        DomainValStatus::Unbonded => CosmosValStatus::BOND_STATUS_UNBONDED,
        DomainValStatus::Unknown => CosmosValStatus::BOND_STATUS_UNSPECIFIED,
    }
}

/// The Cosmos type tag paired with a key of the given scheme. Meaningful
/// only for the schemes the projection accepts.
pub open spec fn spec_key_tag(s: KeyScheme) -> Seq<char> {
    match s {
        KeyScheme::Ed25519 => "/cosmos.crypto.ed25519.PubKey"@,
        KeyScheme::Secp256k1 => "/cosmos.crypto.secp256k1.PubKey"@,
        KeyScheme::Other => Seq::<char>::empty(),
    }
}

/// True when the record can be projected: it has an address, and any
/// consensus key it carries is of a scheme with a known type tag.
pub open spec fn spec_projection_ok(rec: DomainValidator) -> bool {
    &&& rec.address is Some
    &&& (rec.consensus_key matches Some(k) ==> k.scheme != KeyScheme::Other)
}

/// The error a non-projectable record fails with: a missing address is
/// reported before an unsupported key scheme.
pub open spec fn spec_projection_err(rec: DomainValidator) -> StakingError {
    if rec.address is None {
        StakingError::MissingRequiredField
    } else {
        StakingError::UnsupportedKeyScheme
    }
}

/// How the consensus key block relates to the domain key: absent exactly
/// when the domain has none, otherwise the type tag of the scheme paired
/// with the unchanged key material.
pub open spec fn spec_key_projected(
    k: Option<DomainConsensusKey>,
    out: Option<ConsensusKeyInfo>,
) -> bool {
    match k {
        None => out is None,
        Some(dk) => out matches Some(ck) && ck.at_type@ == spec_key_tag(dk.scheme) && ck.key
            == dk.key_b64,
    }
}

/// How the description block relates to the domain record: always
/// present, moniker tied to the address; the four text fields are the
/// domain's when it has a record and empty strings when it has none.
pub open spec fn spec_description_projected(
    addr: Address,
    d: Option<DomainDescription>,
    out: Option<ValidatorDescription>,
) -> bool {
    out matches Some(vd) && vd.moniker == addr && match d {
        None => spec_description_empty_texts(vd),
        Some(dd) => {
            &&& vd.identity == Some(dd.identity)
            &&& vd.website == Some(dd.website)
            &&& vd.security_contact == Some(dd.security_contact)
            &&& vd.details == Some(dd.details)
        },
    }
}

/// How the commission block relates to the domain record: always
/// present; the domain's exact rates when it has a record — even an
/// all-zero one — and the full-commission default only when it has none.
pub open spec fn spec_commission_projected(
    c: Option<DomainCommission>,
    out: Option<CommissionInfo>,
) -> bool {
    out matches Some(ci) && match c {
        None => spec_commission_default(ci),
        Some(dc) => {
            &&& ci.commission_rates.rate == dc.rate
            &&& ci.commission_rates.max_rate == dc.max_rate
            &&& ci.commission_rates.max_change_rate == dc.max_change_rate
            &&& ci.update_time == dc.update_time
        },
    }
}

/// How the unbonding fields relate to the domain record: populated only
/// when the projected status is unbonding — the height rendered as a
/// decimal string, the time passed through — and absent for every other
/// status, whatever the domain supplied.
pub open spec fn spec_unbonding_projected(rec: DomainValidator, v: ValidatorInfo) -> bool {
    if spec_cosmos_status_of(rec.status) == CosmosValStatus::BOND_STATUS_UNBONDING {
        &&& (match rec.unbonding_height {
            None => v.unbonding_height is None,
            Some(h) => v.unbonding_height matches Some(hs) && hs@ == spec_dec_digits(h as nat),
        })
        &&& v.unbonding_time == rec.unbonding_time
    } else {
        &&& v.unbonding_height is None
        &&& v.unbonding_time is None
    }
}

/// The full field-for-field relation between a projectable domain record
/// and its wire representation.
pub open spec fn spec_projects_to(rec: DomainValidator, v: ValidatorInfo) -> bool {
    &&& v.operator_address == rec.address
    &&& spec_key_projected(rec.consensus_key, v.consensus_pubkey)
    &&& v.jailed == Some(rec.jailed)
    &&& v.status == Some(spec_cosmos_status_of(rec.status))
    &&& v.tokens == rec.tokens
    &&& v.delegator_shares == rec.delegator_shares
    &&& spec_description_projected(rec.address->Some_0, rec.description, v.description)
    &&& spec_unbonding_projected(rec, v)
    &&& spec_commission_projected(rec.commission, v.commission)
    &&& v.min_self_delegation == rec.min_self_delegation
}

/// Copy an optional string value.
fn clone_opt_string(o: &Option<String>) -> (r: Option<String>)
    ensures
        r == *o,
{
    match o {
        Some(s) => Some(s.clone()),
        None => None,
    }
}

/// Project one domain record into its wire representation; fail — with no
/// partial output — when the record has no address or its consensus key
/// scheme has no type tag.
pub fn project(rec: &DomainValidator) -> (r: Result<ValidatorInfo, StakingError>)
    ensures
        spec_projection_ok(*rec) ==> (r matches Ok(v) && spec_projects_to(*rec, v)),
        !spec_projection_ok(*rec) ==> r == Err::<ValidatorInfo, StakingError>(
            spec_projection_err(*rec),
        ),
{
    let addr = match &rec.address {
        Some(a) => a.clone(),
        None => {
            return Err(StakingError::MissingRequiredField);
        },
    };
    let consensus_pubkey = match &rec.consensus_key {
        None => None,
        Some(dk) => match dk.scheme {
            KeyScheme::Ed25519 => Some(
                ConsensusKeyInfo {
                    at_type: "/cosmos.crypto.ed25519.PubKey".to_owned(),
                    key: dk.key_b64.clone(),
                },
            ),
            KeyScheme::Secp256k1 => Some(
                ConsensusKeyInfo {
                    at_type: "/cosmos.crypto.secp256k1.PubKey".to_owned(),
                    key: dk.key_b64.clone(),
                },
            ),
            KeyScheme::Other => {
                return Err(StakingError::UnsupportedKeyScheme);
            },
        },
    };
    let status = cosmos_status_of(rec.status);
    let description = match &rec.description {
        None => ValidatorDescription::empty(&addr),
        Some(dd) => ValidatorDescription {
            moniker: addr.clone(),
            identity: Some(dd.identity.clone()),
            website: Some(dd.website.clone()),
            security_contact: Some(dd.security_contact.clone()),
            details: Some(dd.details.clone()),
        },
    };
    let is_unbonding = matches!(status, CosmosValStatus::BOND_STATUS_UNBONDING);
    let unbonding_height = if is_unbonding {
        match &rec.unbonding_height {
            Some(h) => Some(u64_to_dec_string(*h)),
            None => None,
        }
    } else {
        None
    };
    let unbonding_time = if is_unbonding {
        clone_opt_string(&rec.unbonding_time)
    } else {
        None
    };
    let commission = match &rec.commission {
        None => CommissionInfo::default(),
        Some(dc) => CommissionInfo {
            commission_rates: RatesInfo {
                rate: dc.rate,
                max_rate: dc.max_rate,
                max_change_rate: dc.max_change_rate,
            },
            update_time: dc.update_time.clone(),
        },
    };
    Ok(
        ValidatorInfo {
            operator_address: Some(addr),
            consensus_pubkey,
            jailed: Some(rec.jailed),
            status: Some(status),
            tokens: rec.tokens,
            delegator_shares: clone_opt_string(&rec.delegator_shares),
            description: Some(description),
            unbonding_height,
            unbonding_time,
            commission: Some(commission),
            min_self_delegation: clone_opt_string(&rec.min_self_delegation),
        },
    )
}

/// Decode the raw parameters of a validator-listing query. An absent
/// status token means no filter — all statuses — and the pagination
/// parameters pass through untouched; an unrecognized status token fails
/// with an invalid-argument error rather than silently meaning "all".
pub fn parse_validators_query(
    status_token: Option<&str>,
    pagination: Option<PaginationQueryParams>,
) -> (r: Result<ValidatorsQueryParams, StakingError>)
    ensures
        match status_token {
            None => r matches Ok(q) && q.status is None && q.pagination == pagination,
            Some(t) => match spec_status_of_token(t@) {
                Some(s) => r matches Ok(q) && q.status == Some(s) && q.pagination == pagination,
                None => r == Err::<ValidatorsQueryParams, StakingError>(
                    StakingError::InvalidArgument,
                ),
            },
        },
{
    match status_token {
        None => Ok(ValidatorsQueryParams { status: None, pagination }),
        Some(t) => match CosmosValStatus::of_token(t) {
            Some(s) => Ok(ValidatorsQueryParams { status: Some(s), pagination }),
            None => Err(StakingError::InvalidArgument),
        },
    }
}

/// True when the record passes the query's status filter: always, for an
/// absent filter, and exactly on a status match otherwise.
pub open spec fn spec_keep(rec: DomainValidator, f: Option<CosmosValStatus>) -> bool {
    match f {
        None => true,
        Some(s) => spec_cosmos_status_of(rec.status) == s,
    }
}

/// The subsequence of the records that pass the query's status filter,
/// in their original order.
pub open spec fn spec_kept(
    s: Seq<DomainValidator>,
    f: Option<CosmosValStatus>,
) -> Seq<DomainValidator> {
    s.filter(|rec: DomainValidator| spec_keep(rec, f))
}

/// Assemble the validator-listing response: project every record, keep —
/// in order — exactly those whose status passes the query's filter, and
/// attach the pagination block the pagination collaborator computed, or
/// the default block when it computed none. Fails with the error of the
/// first record that cannot be projected, whether or not that record
/// would have passed the filter.
pub fn validators_response_for(
    records: &Vec<DomainValidator>,
    query: &ValidatorsQueryParams,
    pagination: Option<PaginationInfo>,
) -> (r: Result<ValidatorsResponse, StakingError>)
    ensures
        (r is Ok) <==> (forall|i: int|
            0 <= i < records@.len() ==> spec_projection_ok(#[trigger] records@[i])),
        r matches Ok(resp) ==> ({
            let kept = spec_kept(records@, query.status);
            &&& resp.validators@.len() == kept.len()
            &&& (forall|i: int|
                0 <= i < kept.len() ==> spec_projects_to(
                    kept[i],
                    #[trigger] resp.validators@[i],
                ))
            &&& (match pagination {
                Some(p) => resp.pagination == p,
                None => spec_pagination_default(resp.pagination),
            })
        }),
        r matches Err(e) ==> (exists|i: int|
            0 <= i < records@.len() && !spec_projection_ok(#[trigger] records@[i]) && e
                == spec_projection_err(records@[i]) && (forall|j: int|
                0 <= j < i ==> spec_projection_ok(#[trigger] records@[j]))),
{
    let ghost pred = |rec: DomainValidator| spec_keep(rec, query.status);
    let mut validators: Vec<ValidatorInfo> = Vec::new();
    let mut idx: usize = 0;
    while idx < records.len()
        invariant
            idx <= records.len(),
            pred == (|rec: DomainValidator| spec_keep(rec, query.status)),
            forall|j: int| 0 <= j < idx ==> spec_projection_ok(#[trigger] records@[j]),
            validators@.len() == records@.subrange(0, idx as int).filter(pred).len(),
            forall|i: int|
                0 <= i < validators@.len() ==> spec_projects_to(
                    records@.subrange(0, idx as int).filter(pred)[i],
                    #[trigger] validators@[i],
                ),
        decreases records.len() - idx,
    {
        let ghost prefix = records@.subrange(0, idx as int);
        let v = match project(&records[idx]) {
            Ok(v) => v,
            Err(e) => {
                return Err(e);
            },
        };
        let keep = match &query.status {
            None => true,
            Some(f) => match &v.status {
                Some(s) => *s == *f,
                None => false,
            },
        };
        proof {
            let extended = records@.subrange(0, idx + 1 as int);
            assert(extended.drop_last() =~= prefix);
            assert(extended.last() == records@[idx as int]);
            reveal(Seq::filter);
            assert(extended.filter(pred) == if pred(records@[idx as int]) {
                prefix.filter(pred).push(records@[idx as int])
            } else {
                prefix.filter(pred)
            });
            assert(keep == spec_keep(records@[idx as int], query.status));
        }
        if keep {
            validators.push(v);
        }
        idx += 1;
    }
    proof {
        assert(records@.subrange(0, records@.len() as int) =~= records@);
    }
    let pagination_block = match pagination {
        Some(p) => p,
        None => PaginationInfo::default(),
    };
    Ok(ValidatorsResponse { validators, pagination: pagination_block })
}

/// Project one record and wrap it in the single-validator envelope.
pub fn validator_response_for(rec: &DomainValidator) -> (r: Result<
    ValidatorResponse,
    StakingError,
>)
    ensures
        spec_projection_ok(*rec) ==> (r matches Ok(resp) && spec_projects_to(
            *rec,
            resp.validator,
        )),
        !spec_projection_ok(*rec) ==> r == Err::<ValidatorResponse, StakingError>(
            spec_projection_err(*rec),
        ),
{
    match project(rec) {
        Ok(v) => Ok(ValidatorResponse { validator: v }),
        Err(e) => Err(e),
    }
}

/// Law: the status filter pins the projected status. A record that passes
/// a concrete status filter projects to a validator carrying exactly that
/// status — so a filtered listing contains only validators of the queried
/// status.
pub proof fn lemma_filter_pins_status(
    rec: DomainValidator,
    v: ValidatorInfo,
    s: CosmosValStatus,
)
    requires
        spec_projects_to(rec, v),
        spec_keep(rec, Some(s)),
    ensures
        v.status == Some(s),
{
}

/// Law: the unbonding fields never appear outside the unbonding status.
/// Any projection whose status is not unbonding leaves both absent.
pub proof fn lemma_unbonding_fields_gated(rec: DomainValidator, v: ValidatorInfo)
    requires
        spec_projects_to(rec, v),
        v.status != Some(CosmosValStatus::BOND_STATUS_UNBONDING),
    ensures
        v.unbonding_height is None,
        v.unbonding_time is None,
{
}

/// Law: a projected validator is never partially shaped — the address,
/// status, description and commission blocks are always present, and the
/// status is unspecified only when the domain state was unknown.
pub proof fn lemma_projection_always_shaped(rec: DomainValidator, v: ValidatorInfo)
    requires
        spec_projects_to(rec, v),
    ensures
        v.operator_address == rec.address,
        v.status is Some,
        v.description is Some,
        v.commission is Some,
        v.status == Some(CosmosValStatus::BOND_STATUS_UNSPECIFIED) <==> rec.status
            == DomainValStatus::Unknown,
{
}

} // verus!
