//! Domain-side value types.
//!
//! The storage/query collaborator hands this layer already-resolved domain
//! values. They are held here as plain values: an address as its encoded
//! string form, a token amount as its raw integer value, a fixed-point
//! decimal as its raw value at twelve fractional digits, a duration as a
//! count of seconds. The boundary that talks to the chain converts its own
//! richer types into these before calling in, and this layer is verified
//! over them.

use vstd::prelude::*;
use crate::digits::{spec_dec_digits, u64_to_dec_string};

verus! {

/// A validator or account address, in its canonical encoded string form.
pub struct Address {
    pub encoded: String,
}

impl Clone for Address {
    fn clone(&self) -> (r: Self)
        ensures
            r == *self,
    {
        Address { encoded: self.encoded.clone() }
    }
}

/// An exact, non-negative token amount, in the chain's base denomination.
#[derive(Debug, Clone, Copy, PartialEq, Eq, Structural)]
pub struct Amount {
    pub raw: u128,
}

/// The raw value of the fixed-point decimal one.
pub const DEC_ONE_RAW: u64 = 1_000_000_000_000;

/// A non-negative fixed-point decimal with twelve fractional digits, the
/// representation commission rates arrive in. Rates are bounded to [0, 1]
/// by domain convention; this layer trusts that bound rather than
/// enforcing it.
#[derive(Debug, Clone, Copy, PartialEq, Eq, Structural)]
pub struct Dec {
    pub raw: u64,
}

impl Dec {
    /// The decimal 1.0.
    pub fn one() -> (r: Dec)
        ensures
            r == spec_dec_one(),
    {
        Dec { raw: DEC_ONE_RAW }
    }
}

/// The decimal 1.0.
pub open spec fn spec_dec_one() -> Dec {
    Dec { raw: DEC_ONE_RAW }
}

/// A duration rendered on the wire as whole seconds with an `s` suffix,
/// e.g. `"1814400s"`.
#[derive(Debug, Clone, Copy, PartialEq, Eq, Structural)]
pub struct SuffixedDur {
    pub secs: u64,
}

impl SuffixedDur {
    /// The wire form of the duration: the seconds in decimal, then `s`.
    pub fn render(&self) -> (r: String)
        ensures
            r@ == spec_dec_digits(self.secs as nat) + "s"@,
    {
        let mut out = u64_to_dec_string(self.secs);
        out.append("s");
        out
    }
}

/// The cryptographic scheme of a consensus public key, as the domain
/// reports it. Schemes this layer has no Cosmos type tag for are carried
/// as [`KeyScheme::Other`] and make the projection fail rather than emit a
/// malformed tag.
#[derive(Debug, Clone, Copy, PartialEq, Eq, Structural)]
pub enum KeyScheme {
    Ed25519,
    Secp256k1,
    Other,
}

/// A consensus public key as the domain hands it over: its scheme and its
/// key material already in base64 form.
pub struct DomainConsensusKey {
    pub scheme: KeyScheme,
    pub key_b64: String,
}

/// A validator's bonding state as the domain reports it. `Unknown` means
/// the domain genuinely could not classify the state; it is never used for
/// a recognized state.
#[derive(Debug, Clone, Copy, PartialEq, Eq, Structural)]
pub enum DomainValStatus {
    Bonded,
    Unbonding,
    Unbonded,
    Unknown,
}

/// A validator's description record, when the domain has one. The moniker
/// is not carried here: on the wire it is tied 1:1 to the validator's
/// address.
pub struct DomainDescription {
    pub identity: String,
    pub website: String,
    pub security_contact: String,
    pub details: String,
}

/// A validator's commission record, when the domain has one.
pub struct DomainCommission {
    pub rate: Dec,
    pub max_rate: Dec,
    pub max_change_rate: Dec,
    pub update_time: String,
}

/// One raw validator record as resolved by the storage/query collaborator,
/// the input of the projection. Every field except the address is allowed
/// to be absent; an absent address fails the projection.
pub struct DomainValidator {
    pub address: Option<Address>,
    pub consensus_key: Option<DomainConsensusKey>,
    pub jailed: bool,
    pub status: DomainValStatus,
    pub tokens: Option<Amount>,
    pub delegator_shares: Option<String>,
    pub description: Option<DomainDescription>,
    pub unbonding_height: Option<u64>,
    pub unbonding_time: Option<String>,
    pub commission: Option<DomainCommission>,
    pub min_self_delegation: Option<String>,
}

/// Why a projection or query decode failed. All failures are detected
/// synchronously and none is retried.
#[derive(Debug, Clone, Copy, PartialEq, Eq, Structural)]
pub enum StakingError {
    /// A malformed or unrecognized query filter (a client error).
    InvalidArgument,
    /// The domain record lacks data the wire shape requires (a server
    /// error: upstream data is incomplete).
    MissingRequiredField,
    /// A consensus key of a scheme this layer cannot encode.
    UnsupportedKeyScheme,
}

} // verus!
