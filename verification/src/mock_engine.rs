//! A minimal Validation Engine with a configurable verdict, for integration tests.
//!
//! It passes or fails every `require_trustline*` / `check_*` request without
//! oracle proofs, according to one stored flag.
use vstd::prelude::*;

use crate::address::Address;
use crate::engine::Authorized;
use crate::mode::ValidationMode;

verus! {

/// The verdict of an enforcing request that the engine refuses.
#[derive(Clone, Copy, Debug, PartialEq, Eq, Structural)]
pub enum EngineError {
    /// The intent is not approved ("Not compliant").
    NotCompliant,
}

/// The mock engine's instance state: the stored `ShouldPass` flag, if any.
#[derive(Clone, Copy, Debug)]
pub struct MockValidationEngine {
    pub stored_should_pass: Option<bool>,
}

impl MockValidationEngine {
    /// Whether requests pass: the stored flag, or `true` when none is stored.
    pub open spec fn passes(self) -> bool {
        match self.stored_should_pass {
            Some(b) => b,
            None => true,
        }
    }

    /// A freshly deployed engine, storing `should_pass`.
    pub fn new(should_pass: bool) -> (engine: Self)
        ensures
            engine.stored_should_pass == Some(should_pass),
    {
        MockValidationEngine { stored_should_pass: Some(should_pass) }
    }

    /// Store a new verdict flag.
    pub fn set_should_pass(&mut self, should_pass: bool)
        ensures
            final(self).stored_should_pass == Some(should_pass),
    {
        self.stored_should_pass = Some(should_pass);
    }

    /// Whether requests pass: the flag if one is kept, `true` otherwise.
    pub fn should_pass(&self) -> (r: bool)
        ensures
            r == self.passes(),
    {
        match self.stored_should_pass {
            Some(b) => b,
            None => true,
        }
    }

    /// The enforcing verdict shared by every `require_*` method.
    fn verdict(&self) -> (r: Result<(), EngineError>)
        ensures
            r == (if self.passes() {
                Ok::<(), EngineError>(())
            } else {
                Err::<(), EngineError>(EngineError::NotCompliant)
            }),
    {
        if self.should_pass() {
            Ok(())
        } else {
            Err(EngineError::NotCompliant)
        }
    }

    /// Enforcing request: `protocol` must authorize, then the request fails with
    /// `NotCompliant` exactly when the engine is set to fail, whatever the
    /// sender, value and data.
    pub fn require_trustline(
        &self,
        protocol: &Address,
        sender: &Address,
        value: i128,
        data: &[u8],
    ) -> (r: Authorized<Result<(), EngineError>>)
        ensures
            r.authorizer == *protocol,
            r.outcome == (if self.passes() {
                Ok::<(), EngineError>(())
            } else {
                Err::<(), EngineError>(EngineError::NotCompliant)
            }),
    {
        Authorized { authorizer: *protocol, outcome: self.verdict() }
    }

    /// Enforcing request with addresses: `protocol` must authorize, then the verdict.
    pub fn require_trustline_addrs(
        &self,
        protocol: &Address,
        sender: &Address,
        value: i128,
        data: &[u8],
        addresses: &[Address],
    ) -> (r: Authorized<Result<(), EngineError>>)
        ensures
            r.authorizer == *protocol,
            r.outcome == (if self.passes() {
                Ok::<(), EngineError>(())
            } else {
                Err::<(), EngineError>(EngineError::NotCompliant)
            }),
    {
        Authorized { authorizer: *protocol, outcome: self.verdict() }
    }

    /// Enforcing request with a mode and addresses: `protocol` must authorize, then the verdict.
    pub fn require_trustline_adv(
        &self,
        protocol: &Address,
        mode: ValidationMode,
        sender: &Address,
        value: i128,
        data: &[u8],
        addresses: &[Address],
    ) -> (r: Authorized<Result<(), EngineError>>)
        ensures
            r.authorizer == *protocol,
            r.outcome == (if self.passes() {
                Ok::<(), EngineError>(())
            } else {
                Err::<(), EngineError>(EngineError::NotCompliant)
            }),
    {
        Authorized { authorizer: *protocol, outcome: self.verdict() }
    }

    /// Status query: the current verdict.
    pub fn check_trustline_status(
        &self,
        protocol: &Address,
        sender: &Address,
        value: i128,
        data: &[u8],
    ) -> (r: bool)
        ensures
            r == self.passes(),
    {
        self.should_pass()
    }

    /// Status query with addresses: the current verdict.
    pub fn check_status_addrs(
        &self,
        protocol: &Address,
        sender: &Address,
        value: i128,
        data: &[u8],
        addresses: &[Address],
    ) -> (r: bool)
        ensures
            r == self.passes(),
    {
        self.should_pass()
    }

    /// Status query with a mode and addresses: the current verdict.
    pub fn check_status_adv(
        &self,
        protocol: &Address,
        mode: ValidationMode,
        sender: &Address,
        value: i128,
        data: &[u8],
        addresses: &[Address],
    ) -> (r: bool)
        ensures
            r == self.passes(),
    {
        self.should_pass()
    }
}

/// After `set_should_pass(b)` the engine's verdict is `b`, whatever it was before;
/// an engine with no stored flag passes.
pub proof fn lemma_mock_verdict_follows_flag(should_pass: bool)
    ensures
        (MockValidationEngine { stored_should_pass: Some(should_pass) }).passes() == should_pass,
        (MockValidationEngine { stored_should_pass: None }).passes(),
{
}

} // verus!
