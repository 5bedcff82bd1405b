//! Compatibility shapes for exposing a non-Cosmos proof-of-stake chain's
//! staking state through the Cosmos SDK staking module's REST response
//! surface: query parameters, response envelopes, the per-validator
//! projection, and the four-state bonding status with its token encoding.

pub mod digits;
pub mod domain;
pub mod project;
pub mod shared;
pub mod staking;
pub mod status;
