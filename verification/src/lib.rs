//! Verified core of the Trustline integration layer for Soroban contracts.
//!
//! The library holds the decisions that Trustline-protected contracts make:
//! how a call's intent `data` is laid out, how intent ids are derived, which
//! Validation Engine request a guard issues, and the state machines of the
//! example contracts (firewall, payment forwarder, protected counter, mock
//! engine). Storage, authorization and cross-contract calls are performed by
//! the host around it.
#![allow(unused_imports)]

pub mod address;
pub mod calldata;
pub mod counter;
pub mod crypto;
pub mod engine;
pub mod firewall;
pub mod forwarder;
pub mod intent;
pub mod mock_engine;
pub mod mode;
pub mod trustlined_client;
pub mod xdr;

pub use address::Address;
pub use calldata::encode_call_data;
pub use counter::ProtectedCounter;
pub use engine::{
    Authorized,
    check_status_addrs, check_trustline_status, require_trustline, require_trustline_addrs,
    require_trustline_adv, validation_engine, EngineCall, EngineRequest, SdkError, TrustlineGuard,
    VE_KEY,
};
pub use firewall::{
    FirewallOperatorUpdated, FirewallOwnerUpdated, FirewallPublicForwardUpdated,
    FirewallTargetUpdated, TrustlineFirewall,
};
pub use forwarder::PaymentForwarder;
pub use intent::{final_tx_id, intent_id};
pub use mock_engine::MockValidationEngine;
pub use mode::ValidationMode;
pub use trustlined_client::TestTrustlinedClient;
