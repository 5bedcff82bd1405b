//! The four-state validator bonding status and its wire-token encoding.
//!
//! Equality on the status is nominal: a variant is equal to itself and to
//! nothing else. The wire representation is one of four fixed string
//! constants; encoding and decoding round-trip, which is proved below.

use vstd::prelude::*;

verus! {

/// Closed classification of a validator's bonding state, using the Cosmos
/// SDK's own variant names so that the serialized token is exactly the
/// upstream string constant.
#[allow(non_camel_case_types)]
#[derive(Debug, Clone, Copy, PartialEq, Eq, Structural)]
pub enum CosmosValStatus {
    BOND_STATUS_UNSPECIFIED,
    BOND_STATUS_BONDED,
    BOND_STATUS_UNBONDING,
    BOND_STATUS_UNBONDED,
}

/// The wire token of a status, as a sequence of characters.
pub open spec fn spec_status_token(s: CosmosValStatus) -> Seq<char> {
    match s {
        CosmosValStatus::BOND_STATUS_UNSPECIFIED => "BOND_STATUS_UNSPECIFIED"@,
        CosmosValStatus::BOND_STATUS_BONDED => "BOND_STATUS_BONDED"@,
        CosmosValStatus::BOND_STATUS_UNBONDING => "BOND_STATUS_UNBONDING"@,
        CosmosValStatus::BOND_STATUS_UNBONDED => "BOND_STATUS_UNBONDED"@,
    }
}

/// The status a wire token decodes to, `None` for an unrecognized token.
pub open spec fn spec_status_of_token(t: Seq<char>) -> Option<CosmosValStatus> {
    if t == "BOND_STATUS_UNSPECIFIED"@ {
        Some(CosmosValStatus::BOND_STATUS_UNSPECIFIED)
    } else if t == "BOND_STATUS_BONDED"@ {
        Some(CosmosValStatus::BOND_STATUS_BONDED)
    } else if t == "BOND_STATUS_UNBONDING"@ {
        Some(CosmosValStatus::BOND_STATUS_UNBONDING)
    } else if t == "BOND_STATUS_UNBONDED"@ {
        Some(CosmosValStatus::BOND_STATUS_UNBONDED)
    } else {
        None
    }
}

impl CosmosValStatus {
    /// Encode the status as its wire token.
    pub fn token(&self) -> (r: String)
        ensures
            r@ == spec_status_token(*self),
    {
        match self {
            CosmosValStatus::BOND_STATUS_UNSPECIFIED => "BOND_STATUS_UNSPECIFIED".to_owned(),
            CosmosValStatus::BOND_STATUS_BONDED => "BOND_STATUS_BONDED".to_owned(),
            CosmosValStatus::BOND_STATUS_UNBONDING => "BOND_STATUS_UNBONDING".to_owned(),
            CosmosValStatus::BOND_STATUS_UNBONDED => "BOND_STATUS_UNBONDED".to_owned(),
        }
    }

    /// Decode a wire token; an unrecognized token yields `None`.
    pub fn of_token(t: &str) -> (r: Option<CosmosValStatus>)
        ensures
            r == spec_status_of_token(t@),
    {
        let owned = t.to_owned();
        if owned == "BOND_STATUS_UNSPECIFIED".to_owned() {
            Some(CosmosValStatus::BOND_STATUS_UNSPECIFIED)
        } else if owned == "BOND_STATUS_BONDED".to_owned() {
            Some(CosmosValStatus::BOND_STATUS_BONDED)
        } else if owned == "BOND_STATUS_UNBONDING".to_owned() {
            Some(CosmosValStatus::BOND_STATUS_UNBONDING)
        } else if owned == "BOND_STATUS_UNBONDED".to_owned() {
            Some(CosmosValStatus::BOND_STATUS_UNBONDED)
        } else {
            None
        }
    }
}

/// True exactly when the two status values are the same variant.
pub open spec fn same_status_variant(a: CosmosValStatus, b: CosmosValStatus) -> bool {
    match (a, b) {
        (CosmosValStatus::BOND_STATUS_UNSPECIFIED, CosmosValStatus::BOND_STATUS_UNSPECIFIED) => true,
        (CosmosValStatus::BOND_STATUS_BONDED, CosmosValStatus::BOND_STATUS_BONDED) => true,
        (CosmosValStatus::BOND_STATUS_UNBONDING, CosmosValStatus::BOND_STATUS_UNBONDING) => true,
        (CosmosValStatus::BOND_STATUS_UNBONDED, CosmosValStatus::BOND_STATUS_UNBONDED) => true,
        _ => false,
    }
}

/// Law: status equality is nominal. Every status is equal to itself, and two
/// status values are equal exactly when they are the same variant; no
/// cross-variant pair compares equal, on any underlying ordinal grounds or
/// otherwise.
pub proof fn lemma_status_eq_nominal(a: CosmosValStatus, b: CosmosValStatus)
    ensures
        a == a,
        (a == b) <==> same_status_variant(a, b),
{
}

/// Law: the wire encoding round-trips. Decoding the token of any status
/// yields that status back, so nominal equality is preserved across a
/// serialize/deserialize round trip.
pub proof fn lemma_status_token_round_trip(a: CosmosValStatus)
    ensures
        spec_status_of_token(spec_status_token(a)) == Some(a),
{
    reveal_strlit("BOND_STATUS_UNSPECIFIED");
    reveal_strlit("BOND_STATUS_BONDED");
    reveal_strlit("BOND_STATUS_UNBONDING");
    reveal_strlit("BOND_STATUS_UNBONDED");
    assert("BOND_STATUS_UNSPECIFIED"@.len() == 23);
    assert("BOND_STATUS_BONDED"@.len() == 18);
    assert("BOND_STATUS_UNBONDING"@.len() == 21);
    assert("BOND_STATUS_UNBONDED"@.len() == 20);
}

} // verus!
