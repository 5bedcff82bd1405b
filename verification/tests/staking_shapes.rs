use staking_compat::digits::{u128_to_dec_string, u64_to_dec_string};
use staking_compat::domain::{
    Address, Amount, Dec, DomainCommission, DomainConsensusKey, DomainDescription,
    DomainValStatus, DomainValidator, KeyScheme, StakingError, SuffixedDur,
};
use staking_compat::project::{
    parse_validators_query, project, validator_response_for, validators_response_for,
};
use staking_compat::shared::{PaginationInfo, PaginationQueryParams};
use staking_compat::staking::{
    CommissionInfo, ParamsResponse, PoolInfo, PoolResponse, ValidatorDescription,
    ValidatorResponse, ValidatorsQueryParams, ValidatorsResponse,
};
use staking_compat::status::CosmosValStatus;

fn bare_record(addr: &str, status: DomainValStatus) -> DomainValidator {
    DomainValidator {
        address: Some(Address { encoded: addr.to_string() }),
        consensus_key: None,
        jailed: false,
        status,
        tokens: None,
        delegator_shares: None,
        description: None,
        unbonding_height: None,
        unbonding_time: None,
        commission: None,
        min_self_delegation: None,
    }
}

const ALL_STATUSES: [CosmosValStatus; 4] = [
    CosmosValStatus::BOND_STATUS_UNSPECIFIED,
    CosmosValStatus::BOND_STATUS_BONDED,
    CosmosValStatus::BOND_STATUS_UNBONDING,
    CosmosValStatus::BOND_STATUS_UNBONDED,
];

#[test]
fn status_equality_is_nominal() {
    for (i, a) in ALL_STATUSES.iter().enumerate() {
        for (j, b) in ALL_STATUSES.iter().enumerate() {
            if i == j {
                assert_eq!(a, b);
            } else {
                assert!(a != b);
            }
        }
    }
}

#[test]
fn status_token_round_trip_preserves_equality() {
    for (i, a) in ALL_STATUSES.iter().enumerate() {
        let decoded = CosmosValStatus::of_token(a.token().as_str());
        assert_eq!(decoded, Some(*a));
        for (j, b) in ALL_STATUSES.iter().enumerate() {
            let decoded_b = CosmosValStatus::of_token(b.token().as_str()).unwrap();
            assert_eq!(i == j, decoded.unwrap() == decoded_b);
        }
    }
}

#[test]
fn status_tokens_are_the_upstream_constants() {
    assert_eq!(
        CosmosValStatus::BOND_STATUS_UNSPECIFIED.token(),
        "BOND_STATUS_UNSPECIFIED"
    );
    assert_eq!(CosmosValStatus::BOND_STATUS_BONDED.token(), "BOND_STATUS_BONDED");
    assert_eq!(
        CosmosValStatus::BOND_STATUS_UNBONDING.token(),
        "BOND_STATUS_UNBONDING"
    );
    assert_eq!(CosmosValStatus::BOND_STATUS_UNBONDED.token(), "BOND_STATUS_UNBONDED");
}

#[test]
fn unrecognized_status_token_decodes_to_none() {
    assert_eq!(CosmosValStatus::of_token("BOND_STATUS_JAILED"), None);
    assert_eq!(CosmosValStatus::of_token(""), None);
    assert_eq!(CosmosValStatus::of_token("bond_status_bonded"), None);
}

#[test]
fn fresh_validator_response_has_every_field_absent() {
    let r = ValidatorResponse::new();
    let v = r.validator;
    assert!(v.operator_address.is_none());
    assert!(v.consensus_pubkey.is_none());
    assert!(v.jailed.is_none());
    assert!(v.status.is_none());
    assert!(v.tokens.is_none());
    assert!(v.delegator_shares.is_none());
    assert!(v.description.is_none());
    assert!(v.unbonding_height.is_none());
    assert!(v.unbonding_time.is_none());
    assert!(v.commission.is_none());
    assert!(v.min_self_delegation.is_none());
}

#[test]
fn fresh_validators_response_is_empty_with_default_pagination() {
    let r = ValidatorsResponse::new();
    assert!(r.validators.is_empty());
    assert!(r.pagination.next_key.is_none());
    assert_eq!(r.pagination.total, 0);
}

#[test]
fn empty_description_ties_moniker_to_address() {
    let addr = Address { encoded: "tnam1qexample".to_string() };
    let d = ValidatorDescription::empty(&addr);
    assert_eq!(d.moniker.encoded, "tnam1qexample");
    assert_eq!(d.identity.as_deref(), Some(""));
    assert_eq!(d.website.as_deref(), Some(""));
    assert_eq!(d.security_contact.as_deref(), Some(""));
    assert_eq!(d.details.as_deref(), Some(""));
}

#[test]
fn default_commission_is_full_commission() {
    let c = CommissionInfo::default();
    assert_eq!(c.commission_rates.rate, Dec { raw: 1_000_000_000_000 });
    assert_eq!(c.commission_rates.max_rate, Dec { raw: 1_000_000_000_000 });
    assert_eq!(c.commission_rates.max_change_rate, Dec { raw: 1_000_000_000_000 });
    assert_eq!(c.update_time, "");
}

#[test]
fn dec_one_is_the_raw_unit() {
    assert_eq!(Dec::one(), Dec { raw: 1_000_000_000_000 });
}

#[test]
fn decimal_rendering_exact_values() {
    assert_eq!(u128_to_dec_string(0), "0");
    assert_eq!(u128_to_dec_string(7), "7");
    assert_eq!(u128_to_dec_string(1814400), "1814400");
    assert_eq!(u64_to_dec_string(u64::MAX), "18446744073709551615");
    assert_eq!(
        u128_to_dec_string(u128::MAX),
        "340282366920938463463374607431768211455"
    );
}

#[test]
fn suffixed_duration_renders_seconds_with_suffix() {
    assert_eq!(SuffixedDur { secs: 1814400 }.render(), "1814400s");
    assert_eq!(SuffixedDur { secs: 0 }.render(), "0s");
}

#[test]
fn pool_info_keeps_the_amount_string_asymmetry() {
    let p = PoolInfo::from_amounts(Amount { raw: 42 }, Amount { raw: 12345 });
    assert_eq!(p.bonded_tokens, Amount { raw: 42 });
    assert_eq!(p.not_bonded_tokens, "12345");
}

#[test]
fn pool_response_wraps_the_pool_block() {
    let r = PoolResponse { pool: PoolInfo::from_amounts(Amount { raw: 9 }, Amount { raw: 0 }) };
    assert_eq!(r.pool.bonded_tokens, Amount { raw: 9 });
    assert_eq!(r.pool.not_bonded_tokens, "0");
}

#[test]
fn params_response_is_flat() {
    let p = ParamsResponse {
        unbonding_time: SuffixedDur { secs: 1814400 },
        max_validators: 100,
        max_entries: 7,
        historical_entries: 10000,
        bond_denom: "unam".to_string(),
    };
    assert_eq!(p.unbonding_time.render(), "1814400s");
    assert_eq!(p.max_validators, 100);
    assert_eq!(p.max_entries, 7);
    assert_eq!(p.historical_entries, 10000);
    assert_eq!(p.bond_denom, "unam");
}

#[test]
fn bonded_query_returns_exactly_the_bonded_validator() {
    let records = vec![
        bare_record("tnam1bonded", DomainValStatus::Bonded),
        bare_record("tnam1unbonding", DomainValStatus::Unbonding),
    ];
    let query = parse_validators_query(Some("BOND_STATUS_BONDED"), None).unwrap();
    assert_eq!(query.status, Some(CosmosValStatus::BOND_STATUS_BONDED));
    let resp = validators_response_for(&records, &query, None).unwrap();
    assert_eq!(resp.validators.len(), 1);
    let v = &resp.validators[0];
    assert_eq!(
        v.operator_address.as_ref().map(|a| a.encoded.as_str()),
        Some("tnam1bonded")
    );
    assert_eq!(v.status, Some(CosmosValStatus::BOND_STATUS_BONDED));
    assert!(v.unbonding_height.is_none());
    assert!(v.unbonding_time.is_none());
    assert!(resp.pagination.next_key.is_none());
    assert_eq!(resp.pagination.total, 0);
}

#[test]
fn unfiltered_query_returns_all_validators_in_order() {
    let records = vec![
        bare_record("tnam1first", DomainValStatus::Bonded),
        bare_record("tnam1second", DomainValStatus::Unbonded),
        bare_record("tnam1third", DomainValStatus::Unknown),
    ];
    let query = parse_validators_query(None, None).unwrap();
    assert_eq!(query.status, None);
    let resp = validators_response_for(&records, &query, None).unwrap();
    assert_eq!(resp.validators.len(), 3);
    assert_eq!(
        resp.validators[0].operator_address.as_ref().unwrap().encoded,
        "tnam1first"
    );
    assert_eq!(
        resp.validators[1].operator_address.as_ref().unwrap().encoded,
        "tnam1second"
    );
    assert_eq!(
        resp.validators[2].operator_address.as_ref().unwrap().encoded,
        "tnam1third"
    );
    assert_eq!(
        resp.validators[2].status,
        Some(CosmosValStatus::BOND_STATUS_UNSPECIFIED)
    );
}

#[test]
fn supplied_pagination_block_is_kept() {
    let records = vec![bare_record("tnam1one", DomainValStatus::Bonded)];
    let query = ValidatorsQueryParams {
        status: None,
        pagination: Some(PaginationQueryParams { key: None, offset: Some(10), limit: Some(5) }),
    };
    let block = PaginationInfo { next_key: Some("next".to_string()), total: 37 };
    let resp = validators_response_for(&records, &query, Some(block)).unwrap();
    assert_eq!(resp.pagination.next_key.as_deref(), Some("next"));
    assert_eq!(resp.pagination.total, 37);
}

#[test]
fn invalid_status_filter_is_rejected_not_defaulted() {
    let r = parse_validators_query(Some("BOND_STATUS_SLASHED"), None);
    assert!(matches!(r, Err(StakingError::InvalidArgument)));
}

#[test]
fn missing_description_projects_to_empty_strings() {
    let v = project(&bare_record("tnam1nodesc", DomainValStatus::Bonded)).unwrap();
    let d = v.description.unwrap();
    assert_eq!(d.moniker.encoded, "tnam1nodesc");
    assert_eq!(d.identity.as_deref(), Some(""));
    assert_eq!(d.website.as_deref(), Some(""));
    assert_eq!(d.security_contact.as_deref(), Some(""));
    assert_eq!(d.details.as_deref(), Some(""));
}

#[test]
fn present_description_is_carried_through() {
    let mut rec = bare_record("tnam1desc", DomainValStatus::Bonded);
    rec.description = Some(DomainDescription {
        identity: "id".to_string(),
        website: "https://val.example".to_string(),
        security_contact: "sec@val.example".to_string(),
        details: "details".to_string(),
    });
    let v = project(&rec).unwrap();
    let d = v.description.unwrap();
    assert_eq!(d.moniker.encoded, "tnam1desc");
    assert_eq!(d.identity.as_deref(), Some("id"));
    assert_eq!(d.website.as_deref(), Some("https://val.example"));
    assert_eq!(d.security_contact.as_deref(), Some("sec@val.example"));
    assert_eq!(d.details.as_deref(), Some("details"));
}

#[test]
fn unsupported_key_scheme_fails_with_no_partial_output() {
    let mut rec = bare_record("tnam1badkey", DomainValStatus::Bonded);
    rec.consensus_key = Some(DomainConsensusKey {
        scheme: KeyScheme::Other,
        key_b64: "AAAA".to_string(),
    });
    let r = project(&rec);
    assert!(matches!(r, Err(StakingError::UnsupportedKeyScheme)));
    let envelope = validator_response_for(&rec);
    assert!(matches!(envelope, Err(StakingError::UnsupportedKeyScheme)));
}

#[test]
fn missing_address_fails_as_missing_required_field() {
    let mut rec = bare_record("ignored", DomainValStatus::Bonded);
    rec.address = None;
    let r = project(&rec);
    assert!(matches!(r, Err(StakingError::MissingRequiredField)));
}

#[test]
fn key_schemes_get_their_cosmos_type_tags() {
    let mut rec = bare_record("tnam1ed", DomainValStatus::Bonded);
    rec.consensus_key = Some(DomainConsensusKey {
        scheme: KeyScheme::Ed25519,
        key_b64: "ZWQyNTUxOQ==".to_string(),
    });
    let v = project(&rec).unwrap();
    let k = v.consensus_pubkey.unwrap();
    assert_eq!(k.at_type, "/cosmos.crypto.ed25519.PubKey");
    assert_eq!(k.key, "ZWQyNTUxOQ==");

    let mut rec2 = bare_record("tnam1secp", DomainValStatus::Bonded);
    rec2.consensus_key = Some(DomainConsensusKey {
        scheme: KeyScheme::Secp256k1,
        key_b64: "c2VjcA==".to_string(),
    });
    let v2 = project(&rec2).unwrap();
    let k2 = v2.consensus_pubkey.unwrap();
    assert_eq!(k2.at_type, "/cosmos.crypto.secp256k1.PubKey");
    assert_eq!(k2.key, "c2VjcA==");
}

#[test]
fn unbonding_validator_carries_height_and_time() {
    let mut rec = bare_record("tnam1unbonding", DomainValStatus::Unbonding);
    rec.unbonding_height = Some(123456);
    rec.unbonding_time = Some("2024-05-01T00:00:00Z".to_string());
    let v = project(&rec).unwrap();
    assert_eq!(v.status, Some(CosmosValStatus::BOND_STATUS_UNBONDING));
    assert_eq!(v.unbonding_height.as_deref(), Some("123456"));
    assert_eq!(v.unbonding_time.as_deref(), Some("2024-05-01T00:00:00Z"));
}

#[test]
fn unbonding_fields_are_dropped_outside_unbonding_status() {
    let mut rec = bare_record("tnam1bonded", DomainValStatus::Bonded);
    rec.unbonding_height = Some(999);
    rec.unbonding_time = Some("2024-05-01T00:00:00Z".to_string());
    let v = project(&rec).unwrap();
    assert!(v.unbonding_height.is_none());
    assert!(v.unbonding_time.is_none());
}

#[test]
fn real_commission_record_wins_over_the_default() {
    let mut rec = bare_record("tnam1zero", DomainValStatus::Bonded);
    rec.commission = Some(DomainCommission {
        rate: Dec { raw: 0 },
        max_rate: Dec { raw: 200_000_000_000 },
        max_change_rate: Dec { raw: 10_000_000_000 },
        update_time: "2023-01-01T00:00:00Z".to_string(),
    });
    let v = project(&rec).unwrap();
    let c = v.commission.unwrap();
    assert_eq!(c.commission_rates.rate, Dec { raw: 0 });
    assert_eq!(c.commission_rates.max_rate, Dec { raw: 200_000_000_000 });
    assert_eq!(c.commission_rates.max_change_rate, Dec { raw: 10_000_000_000 });
    assert_eq!(c.update_time, "2023-01-01T00:00:00Z");
}

#[test]
fn projection_passes_plain_values_through() {
    let mut rec = bare_record("tnam1full", DomainValStatus::Bonded);
    rec.jailed = true;
    rec.tokens = Some(Amount { raw: 5_000_000 });
    rec.delegator_shares = Some("5000000.000000000000".to_string());
    rec.min_self_delegation = Some("1".to_string());
    let v = project(&rec).unwrap();
    assert_eq!(v.jailed, Some(true));
    assert_eq!(v.tokens, Some(Amount { raw: 5_000_000 }));
    assert_eq!(v.delegator_shares.as_deref(), Some("5000000.000000000000"));
    assert_eq!(v.min_self_delegation.as_deref(), Some("1"));
}

#[test]
fn listing_fails_with_the_first_projection_error() {
    let mut bad = bare_record("ignored", DomainValStatus::Bonded);
    bad.address = None;
    let records = vec![bare_record("tnam1good", DomainValStatus::Unbonded), bad];
    let query = parse_validators_query(Some("BOND_STATUS_BONDED"), None).unwrap();
    let r = validators_response_for(&records, &query, None);
    assert!(matches!(r, Err(StakingError::MissingRequiredField)));
}
