//! The Cosmos SDK staking wire shapes: query parameters, response
//! envelopes, and the nested per-validator representation.
//!
//! Field names and optionality mirror the Cosmos SDK staking module's
//! REST responses field-for-field, so a serializer over these structs
//! emits exactly the upstream JSON shape.

use vstd::prelude::*;
use crate::digits::{spec_dec_digits, u128_to_dec_string};
use crate::domain::{Address, Amount, Dec, SuffixedDur, spec_dec_one};
use crate::shared::{PaginationInfo, PaginationQueryParams, spec_pagination_default};
use crate::status::CosmosValStatus;

verus! {

/// Decoded parameters of a validator-listing query: an optional bonding
/// status filter (absent means all statuses) and optional pagination
/// parameters (absent means the collaborator's defaults).
pub struct ValidatorsQueryParams {
    pub status: Option<CosmosValStatus>,
    pub pagination: Option<PaginationQueryParams>,
}

/// Envelope of the pool query response.
pub struct PoolResponse {
    pub pool: PoolInfo,
}

/// The staking pool totals. The not-bonded total is deliberately a plain
/// decimal string while the bonded total stays a structured amount,
/// mirroring the upstream convention of emitting unbounded totals as
/// strings; both are non-negative.
pub struct PoolInfo {
    pub not_bonded_tokens: String,
    pub bonded_tokens: Amount,
}

impl PoolInfo {
    /// Build the pool block from the two domain totals, rendering the
    /// not-bonded total as its canonical decimal string.
    pub fn from_amounts(bonded: Amount, not_bonded: Amount) -> (r: PoolInfo)
        ensures
            r.bonded_tokens == bonded,
            r.not_bonded_tokens@ == spec_dec_digits(not_bonded.raw as nat),
    {
        PoolInfo {
            not_bonded_tokens: u128_to_dec_string(not_bonded.raw),
            bonded_tokens: bonded,
        }
    }
}

/// The staking parameters response: flat, with no nesting beyond the
/// response itself, matching the upstream params shape.
pub struct ParamsResponse {
    pub unbonding_time: SuffixedDur,
    pub max_validators: u32,
    pub max_entries: u32,
    pub historical_entries: u32,
    pub bond_denom: String,
}

/// Envelope of the validator-listing response: the projected validators
/// in order, plus the pagination block.
pub struct ValidatorsResponse {
    pub validators: Vec<ValidatorInfo>,
    pub pagination: PaginationInfo,
}

impl ValidatorsResponse {
    /// The empty listing: no validators and the default pagination block,
    /// so a zero-result query round-trips through the same shape as a
    /// non-empty one.
    pub fn new() -> (r: Self)
        ensures
            r.validators@ =~= Seq::<ValidatorInfo>::empty(),
            spec_pagination_default(r.pagination),
    {
        ValidatorsResponse { validators: Vec::new(), pagination: PaginationInfo::default() }
    }
}

/// Envelope of the single-validator response.
pub struct ValidatorResponse {
    pub validator: ValidatorInfo,
}

impl ValidatorResponse {
    /// A response around a fully defaulted validator, every optional
    /// field explicitly absent; a real projection replaces it wholesale,
    /// so no partially initialized validator can reach the wire.
    pub fn new() -> (r: Self)
        ensures
            spec_validator_all_absent(r.validator),
    {
        ValidatorResponse { validator: ValidatorInfo::default() }
    }
}

/// The full per-validator wire representation. Every field except the
/// identifying address is optional, and a freshly defaulted value has
/// every field absent rather than holding a sentinel.
pub struct ValidatorInfo {
    pub operator_address: Option<Address>,
    pub consensus_pubkey: Option<ConsensusKeyInfo>,
    pub jailed: Option<bool>,
    pub status: Option<CosmosValStatus>,
    pub tokens: Option<Amount>,
    pub delegator_shares: Option<String>,
    pub description: Option<ValidatorDescription>,
    pub unbonding_height: Option<String>,
    pub unbonding_time: Option<String>,
    pub commission: Option<CommissionInfo>,
    pub min_self_delegation: Option<String>,
}

/// True when every field of the validator is absent.
pub open spec fn spec_validator_all_absent(v: ValidatorInfo) -> bool {
    &&& v.operator_address is None
    &&& v.consensus_pubkey is None
    &&& v.jailed is None
    &&& v.status is None
    &&& v.tokens is None
    &&& v.delegator_shares is None
    &&& v.description is None
    &&& v.unbonding_height is None
    &&& v.unbonding_time is None
    &&& v.commission is None
    &&& v.min_self_delegation is None
}

impl Default for ValidatorInfo {
    /// The fully absent validator: every optional field is `None`, never
    /// an empty-but-present sentinel.
    fn default() -> (r: Self)
        ensures
            spec_validator_all_absent(r),
    {
        ValidatorInfo {
            operator_address: None,
            consensus_pubkey: None,
            jailed: None,
            status: None,
            tokens: None,
            delegator_shares: None,
            description: None,
            unbonding_height: None,
            unbonding_time: None,
            commission: None,
            min_self_delegation: None,
        }
    }
}

/// A consensus public key: the Cosmos type tag of its scheme (serialized
/// as `@type`) and the base64 key material. The two are always paired;
/// neither is ever emitted without the other.
pub struct ConsensusKeyInfo {
    pub at_type: String,
    pub key: String,
}

/// The description block of a validator. The moniker is tied 1:1 to the
/// validator's address; the four text fields are always emitted as
/// strings, empty rather than absent when the domain has nothing to say.
pub struct ValidatorDescription {
    pub moniker: Address,
    pub identity: Option<String>,
    pub website: Option<String>,
    pub security_contact: Option<String>,
    pub details: Option<String>,
}

/// True when every text field of the description is present and empty.
pub open spec fn spec_description_empty_texts(d: ValidatorDescription) -> bool {
    &&& d.identity matches Some(s) && s@ =~= Seq::<char>::empty()
    &&& d.website matches Some(s) && s@ =~= Seq::<char>::empty()
    &&& d.security_contact matches Some(s) && s@ =~= Seq::<char>::empty()
    &&& d.details matches Some(s) && s@ =~= Seq::<char>::empty()
}

impl ValidatorDescription {
    /// The description of a validator with no description record: the
    /// moniker is the address itself and all four text fields are the
    /// empty string, present rather than absent.
    pub fn empty(address: &Address) -> (r: Self)
        ensures
            r.moniker == *address,
            spec_description_empty_texts(r),
    {
        ValidatorDescription {
            moniker: address.clone(),
            identity: Some(String::new()),
            website: Some(String::new()),
            security_contact: Some(String::new()),
            details: Some(String::new()),
        }
    }
}

/// The commission block of a validator: its rates and the time they were
/// last updated, as a timestamp string.
pub struct CommissionInfo {
    pub commission_rates: RatesInfo,
    pub update_time: String,
}

/// True for the full-commission default block: every rate is 1.0 and the
/// update time is the empty string.
pub open spec fn spec_commission_default(c: CommissionInfo) -> bool {
    &&& c.commission_rates.rate == spec_dec_one()
    &&& c.commission_rates.max_rate == spec_dec_one()
    &&& c.commission_rates.max_change_rate == spec_dec_one()
    &&& c.update_time@ =~= Seq::<char>::empty()
}

impl Default for CommissionInfo {
    /// The deliberate "safe" default used only when the domain has no
    /// commission record: full commission (every rate 1.0) and an empty
    /// update time. It is never substituted for a real record, even a
    /// zero one.
    fn default() -> (r: Self)
        ensures
            spec_commission_default(r),
    {
        CommissionInfo {
            commission_rates: RatesInfo {
                rate: Dec::one(),
                max_rate: Dec::one(),
                max_change_rate: Dec::one(),
            },
            update_time: String::new(),
        }
    }
}

/// The three commission rates, each a fixed-point decimal in [0, 1] by
/// domain convention (a bound this layer trusts, not enforces).
#[derive(Debug, Clone, Copy, PartialEq, Eq, Structural)]
pub struct RatesInfo {
    pub rate: Dec,
    pub max_rate: Dec,
    pub max_change_rate: Dec,
}

} // verus!
