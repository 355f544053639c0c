//! Enumerated mode fields: each must exactly match one string of a fixed
//! allowed set; there is no case folding.

use vstd::prelude::*;

use crate::errors::{ConfigError, Field};
use crate::strutil::str_eq;

verus! {

/// How assembled bundles are submitted on-chain.
#[derive(Clone, Copy, PartialEq, Eq, Structural, Debug)]
pub enum SendBundleMode {
    /// Submit through the connected execution node.
    EthClient,
    /// Submit through a block-builder relay.
    Flashbots,
}

/// How strictly the pending-operation pool validates its entries.
#[derive(Clone, Copy, PartialEq, Eq, Structural, Debug)]
pub enum UoPoolMode {
    /// Full validation.
    Standard,
    /// Validation with the simulation steps skipped.
    Unsafe,
}

/// The fixed allowed-string set of `SendBundleMode`.
pub open spec fn spec_send_bundle_mode(s: Seq<char>) -> Option<SendBundleMode> {
    if s == "eth-client"@ {
        Some(SendBundleMode::EthClient)
    } else if s == "flashbots"@ {
        Some(SendBundleMode::Flashbots)
    } else {
        None
    }
}

/// The fixed allowed-string set of `UoPoolMode`.
pub open spec fn spec_uopool_mode(s: Seq<char>) -> Option<UoPoolMode> {
    if s == "standard"@ {
        Some(UoPoolMode::Standard)
    } else if s == "unsafe"@ {
        Some(UoPoolMode::Unsafe)
    } else {
        None
    }
}

/// Parses a bundle-submission mode: accepted iff the string exactly matches
/// one of the allowed set.
pub fn parse_send_bundle_mode(s: &str) -> (r: Result<SendBundleMode, ConfigError>)
    ensures
        r is Ok <==> spec_send_bundle_mode(s@) is Some,
        r matches Ok(m) ==> spec_send_bundle_mode(s@) == Some(m),
        r is Err ==> r == Result::<SendBundleMode, ConfigError>::Err(ConfigError::InvalidValue(
            Field::SendBundleMode,
        )),
{
    if str_eq(s, "eth-client") {
        Ok(SendBundleMode::EthClient)
    } else if str_eq(s, "flashbots") {
        Ok(SendBundleMode::Flashbots)
    } else {
        Err(ConfigError::InvalidValue(Field::SendBundleMode))
    }
}

/// Parses a pool-validation mode: accepted iff the string exactly matches
/// one of the allowed set.
pub fn parse_uopool_mode(s: &str) -> (r: Result<UoPoolMode, ConfigError>)
    ensures
        r is Ok <==> spec_uopool_mode(s@) is Some,
        r matches Ok(m) ==> spec_uopool_mode(s@) == Some(m),
        r is Err ==> r == Result::<UoPoolMode, ConfigError>::Err(ConfigError::InvalidValue(
            Field::UoPoolMode,
        )),
{
    if str_eq(s, "standard") {
        Ok(UoPoolMode::Standard)
    } else if str_eq(s, "unsafe") {
        Ok(UoPoolMode::Unsafe)
    } else {
        Err(ConfigError::InvalidValue(Field::UoPoolMode))
    }
}

} // verus!
