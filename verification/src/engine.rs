//! Integration helpers for contracts that embed Trustline checks.
//!
//! Callers pass `sender`, `value` and `data` explicitly (Soroban has no ambient
//! call context). A helper resolves the configured Validation Engine (VE),
//! fills `protocol` with the calling contract, and issues one request to the
//! engine. This module decides that request; the host performs it.
use vstd::prelude::*;

use crate::address::Address;
use crate::mode::ValidationMode;

verus! {

/// Instance storage key (a Soroban symbol) under which the VE address is kept.
pub const VE_KEY: &'static str = "VE";

/// Why an integration helper cannot issue its request.
#[derive(Clone, Copy, Debug, PartialEq, Eq, Structural)]
pub enum SdkError {
    /// No Validation Engine address was stored on the contract instance.
    ValidationEngineNotConfigured,
}

/// One method call on the Validation Engine's integrator surface.
#[derive(Debug)]
pub enum EngineCall {
    RequireTrustline { sender: Address, value: i128, data: Vec<u8> },
    RequireTrustlineAddrs { sender: Address, value: i128, data: Vec<u8>, addresses: Vec<Address> },
    RequireTrustlineAdv {
        mode: ValidationMode,
        sender: Address,
        value: i128,
        data: Vec<u8>,
        addresses: Vec<Address>,
    },
    CheckTrustlineStatus { sender: Address, value: i128, data: Vec<u8> },
    CheckStatusAddrs { sender: Address, value: i128, data: Vec<u8>, addresses: Vec<Address> },
}

/// An entry point's decision: `authorizer` must authorize the current
/// invocation first, in every case; then `outcome` applies.
#[derive(Debug)]
pub struct Authorized<T> {
    pub authorizer: Address,
    pub outcome: T,
}

/// A request to the Validation Engine at `engine`, made on behalf of the
/// integrating contract `protocol`.
#[derive(Debug)]
pub struct EngineRequest {
    pub engine: Address,
    pub protocol: Address,
    pub call: EngineCall,
}

/// What a protected entry point asks Trustline to enforce before it acts:
/// an approved intent for `sender` / `value` / `data`, screened against
/// `addresses` when there are any to screen.
#[derive(Debug)]
pub enum TrustlineGuard {
    Plain { sender: Address, value: i128, data: Vec<u8> },
    WithAddresses { sender: Address, value: i128, data: Vec<u8>, addresses: Vec<Address> },
}

/// Read the configured Validation Engine address from what the instance stores.
/// Fails when nothing is stored.
pub fn validation_engine(stored: Option<Address>) -> (engine: Result<Address, SdkError>)
    ensures
        match stored {
            Some(a) => engine == Ok::<Address, SdkError>(a),
            None => engine == Err::<Address, SdkError>(SdkError::ValidationEngineNotConfigured),
        },
{
    match stored {
        Some(a) => Ok(a),
        None => Err(SdkError::ValidationEngineNotConfigured),
    }
}

/// Addresses the request to the configured engine, or fails when none is configured.
fn addressed(stored: Option<Address>, protocol: Address, call: EngineCall) -> (r: Result<
    EngineRequest,
    SdkError,
>)
    ensures
        match stored {
            Some(e) => r == Ok::<EngineRequest, SdkError>(
                (EngineRequest { engine: e, protocol, call }),
            ),
            None => r == Err::<EngineRequest, SdkError>(SdkError::ValidationEngineNotConfigured),
        },
{
    match validation_engine(stored) {
        Ok(engine) => Ok(EngineRequest { engine, protocol, call }),
        Err(e) => Err(e),
    }
}

/// Enforcing call: panics in the engine if the intent is not approved.
pub fn require_trustline(
    stored: Option<Address>,
    protocol: Address,
    sender: Address,
    value: i128,
    data: Vec<u8>,
) -> (r: Result<EngineRequest, SdkError>)
    ensures
        match stored {
            Some(e) => r == Ok::<EngineRequest, SdkError>(
                (EngineRequest {
                    engine: e,
                    protocol,
                    call: EngineCall::RequireTrustline { sender, value, data },
                }),
            ),
            None => r == Err::<EngineRequest, SdkError>(SdkError::ValidationEngineNotConfigured),
        },
{
    addressed(stored, protocol, EngineCall::RequireTrustline { sender, value, data })
}

/// Enforcing call with an address list for sanctions / policy.
pub fn require_trustline_addrs(
    stored: Option<Address>,
    protocol: Address,
    sender: Address,
    value: i128,
    data: Vec<u8>,
    addresses: Vec<Address>,
) -> (r: Result<EngineRequest, SdkError>)
    ensures
        match stored {
            Some(e) => r == Ok::<EngineRequest, SdkError>(
                (EngineRequest {
                    engine: e,
                    protocol,
                    call: EngineCall::RequireTrustlineAddrs { sender, value, data, addresses },
                }),
            ),
            None => r == Err::<EngineRequest, SdkError>(SdkError::ValidationEngineNotConfigured),
        },
{
    addressed(stored, protocol, EngineCall::RequireTrustlineAddrs { sender, value, data, addresses })
}

/// Advanced enforcing call with an explicit [`ValidationMode`].
pub fn require_trustline_adv(
    stored: Option<Address>,
    protocol: Address,
    mode: ValidationMode,
    sender: Address,
    value: i128,
    data: Vec<u8>,
    addresses: Vec<Address>,
) -> (r: Result<EngineRequest, SdkError>)
    ensures
        match stored {
            Some(e) => r == Ok::<EngineRequest, SdkError>(
                (EngineRequest {
                    engine: e,
                    protocol,
                    call: EngineCall::RequireTrustlineAdv { mode, sender, value, data, addresses },
                }),
            ),
            None => r == Err::<EngineRequest, SdkError>(SdkError::ValidationEngineNotConfigured),
        },
{
    addressed(
        stored,
        protocol,
        EngineCall::RequireTrustlineAdv { mode, sender, value, data, addresses },
    )
}

/// Non-destructive status query; the engine answers whether the intent is approved.
pub fn check_trustline_status(
    stored: Option<Address>,
    protocol: Address,
    sender: Address,
    value: i128,
    data: Vec<u8>,
) -> (r: Result<EngineRequest, SdkError>)
    ensures
        match stored {
            Some(e) => r == Ok::<EngineRequest, SdkError>(
                (EngineRequest {
                    engine: e,
                    protocol,
                    call: EngineCall::CheckTrustlineStatus { sender, value, data },
                }),
            ),
            None => r == Err::<EngineRequest, SdkError>(SdkError::ValidationEngineNotConfigured),
        },
{
    addressed(stored, protocol, EngineCall::CheckTrustlineStatus { sender, value, data })
}

/// Non-destructive status query with an address list.
pub fn check_status_addrs(
    stored: Option<Address>,
    protocol: Address,
    sender: Address,
    value: i128,
    data: Vec<u8>,
    addresses: Vec<Address>,
) -> (r: Result<EngineRequest, SdkError>)
    ensures
        match stored {
            Some(e) => r == Ok::<EngineRequest, SdkError>(
                (EngineRequest {
                    engine: e,
                    protocol,
                    call: EngineCall::CheckStatusAddrs { sender, value, data, addresses },
                }),
            ),
            None => r == Err::<EngineRequest, SdkError>(SdkError::ValidationEngineNotConfigured),
        },
{
    addressed(stored, protocol, EngineCall::CheckStatusAddrs { sender, value, data, addresses })
}

/// The enforcing request for a guard: `require_trustline` for a plain guard,
/// `require_trustline_addrs` for a guard with addresses.
pub fn enforce(stored: Option<Address>, protocol: Address, guard: TrustlineGuard) -> (r: Result<
    EngineRequest,
    SdkError,
>)
    ensures
        match (stored, guard) {
            (None, _) => r == Err::<EngineRequest, SdkError>(
                SdkError::ValidationEngineNotConfigured,
            ),
            (Some(e), TrustlineGuard::Plain { sender, value, data }) => r == Ok::<
                EngineRequest,
                SdkError,
            >((EngineRequest { engine: e, protocol, call: EngineCall::RequireTrustline { sender, value, data } })),
            (Some(e), TrustlineGuard::WithAddresses { sender, value, data, addresses }) => r == Ok::<
                EngineRequest,
                SdkError,
            >(
                (EngineRequest {
                    engine: e,
                    protocol,
                    call: EngineCall::RequireTrustlineAddrs { sender, value, data, addresses },
                }),
            ),
        },
{
    match guard {
        TrustlineGuard::Plain { sender, value, data } => require_trustline(
            stored,
            protocol,
            sender,
            value,
            data,
        ),
        TrustlineGuard::WithAddresses { sender, value, data, addresses } => require_trustline_addrs(
            stored,
            protocol,
            sender,
            value,
            data,
            addresses,
        ),
    }
}

/// The status query for a guard: `check_trustline_status` for a plain guard,
/// `check_status_addrs` for a guard with addresses.
pub fn query(stored: Option<Address>, protocol: Address, guard: TrustlineGuard) -> (r: Result<
    EngineRequest,
    SdkError,
>)
    ensures
        match (stored, guard) {
            (None, _) => r == Err::<EngineRequest, SdkError>(
                SdkError::ValidationEngineNotConfigured,
            ),
            (Some(e), TrustlineGuard::Plain { sender, value, data }) => r == Ok::<
                EngineRequest,
                SdkError,
            >(
                (EngineRequest {
                    engine: e,
                    protocol,
                    call: EngineCall::CheckTrustlineStatus { sender, value, data },
                }),
            ),
            (Some(e), TrustlineGuard::WithAddresses { sender, value, data, addresses }) => r == Ok::<
                EngineRequest,
                SdkError,
            >(
                (EngineRequest {
                    engine: e,
                    protocol,
                    call: EngineCall::CheckStatusAddrs { sender, value, data, addresses },
                }),
            ),
        },
{
    match guard {
        TrustlineGuard::Plain { sender, value, data } => check_trustline_status(
            stored,
            protocol,
            sender,
            value,
            data,
        ),
        TrustlineGuard::WithAddresses { sender, value, data, addresses } => check_status_addrs(
            stored,
            protocol,
            sender,
            value,
            data,
            addresses,
        ),
    }
}

} // verus!
