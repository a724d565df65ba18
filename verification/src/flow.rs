//! Host-side run planning: mode selection and normalization of the raw
//! invocation. A misconfigured invocation is rejected before any address
//! is even looked at, and — since no plan comes back — before the driver
//! can touch a chain endpoint or a prover.

use vstd::prelude::*;
use crate::addr::{addr_bytes_of, parse_addr, strip_hex_prefix, valid_addr_hex};

verus! {

/// What a run does: execute the guest directly, or produce and check a
/// proof.
#[derive(Debug, Clone, Copy, PartialEq, Eq, Structural)]
pub enum Mode {
    Execute,
    Prove,
}

/// The rejection of an invocation that selects both modes or neither.
#[derive(Debug, Clone, Copy, PartialEq, Eq)]
pub struct ConfigurationError;

/// Picks the run mode from the two command-line flags. Exactly one of the
/// flags must be set; any other combination is a configuration error, and
/// the caller must stop before resolving owners or proving anything.
pub fn select_mode(execute: bool, prove: bool) -> (r: Result<Mode, ConfigurationError>)
    ensures
        r is Ok <==> execute != prove,
        r == Ok::<Mode, ConfigurationError>(Mode::Execute) <==> execute && !prove,
        r == Ok::<Mode, ConfigurationError>(Mode::Prove) <==> prove && !execute,
{
    if execute && !prove {
        Ok(Mode::Execute)
    } else if prove && !execute {
        Ok(Mode::Prove)
    } else {
        Err(ConfigurationError)
    }
}

/// Why an invocation was turned away before any work began.
#[derive(Debug, Clone, Copy, PartialEq, Eq, Structural)]
pub enum HostError {
    /// Both run-mode flags were set, or neither.
    Configuration,
    /// A wallet, contract or owner string failed normalization.
    InvalidAddress,
}

/// Everything a run needs that the command line alone decides: the mode,
/// the normalized addresses, the token id, and — when the owner was given
/// explicitly — the owner. `owner` still `None` means the driver must
/// resolve it on chain before the private input can be built.
#[derive(Debug, Clone, Copy, PartialEq, Eq)]
pub struct RunPlan {
    pub mode: Mode,
    pub wallet: [u8; 20],
    pub ca: [u8; 20],
    pub token_id: u128,
    pub owner: Option<[u8; 20]>,
}

/// Plans a run from the raw invocation: the mode flags are checked first,
/// so a misconfigured invocation is turned away before any address is even
/// looked at — and, since no plan comes back, before any chain read or
/// proving call can be attempted. Then each address string is normalized.
pub fn plan_run(
    execute: bool,
    prove: bool,
    wallet_s: &[u8],
    ca_s: &[u8],
    owner_s: Option<&[u8]>,
    token_id: u128,
) -> (r: Result<RunPlan, HostError>)
    ensures
        execute == prove ==> r == Err::<RunPlan, HostError>(HostError::Configuration),
        r is Ok <==> {
            &&& execute != prove
            &&& valid_addr_hex(strip_hex_prefix(wallet_s@))
            &&& valid_addr_hex(strip_hex_prefix(ca_s@))
            &&& (owner_s matches Some(o) ==> valid_addr_hex(strip_hex_prefix(o@)))
        },
        r matches Ok(p) ==> {
            &&& (p.mode is Execute <==> execute)
            &&& (p.mode is Prove <==> prove)
            &&& p.wallet@ == addr_bytes_of(strip_hex_prefix(wallet_s@))
            &&& p.ca@ == addr_bytes_of(strip_hex_prefix(ca_s@))
            &&& p.token_id == token_id
            &&& (p.owner is Some <==> owner_s is Some)
            &&& (owner_s matches Some(o) ==> p.owner matches Some(a) && a@ == addr_bytes_of(
                strip_hex_prefix(o@),
            ))
        },
        r matches Err(e) ==> (e is Configuration <==> execute == prove),
{
    let mode = match select_mode(execute, prove) {
        Ok(m) => m,
        Err(_) => {
            return Err(HostError::Configuration);
        },
    };
    let wallet = match parse_addr(wallet_s) {
        Ok(a) => a,
        Err(_) => {
            return Err(HostError::InvalidAddress);
        },
    };
    let ca = match parse_addr(ca_s) {
        Ok(a) => a,
        Err(_) => {
            return Err(HostError::InvalidAddress);
        },
    };
    let owner = match owner_s {
        Some(s) => match parse_addr(s) {
            Ok(a) => Some(a),
            Err(_) => {
                return Err(HostError::InvalidAddress);
            },
        },
        None => None,
    };
    Ok(RunPlan { mode, wallet, ca, token_id, owner })
}

} // verus!
