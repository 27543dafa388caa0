//! Validation modes that enter the intent hash domain.
use vstd::prelude::*;

verus! {

/// Validation mode included in the intent hash domain.
///
/// Only `Dapp` is supported for now; its wire code is `0`.
#[derive(Clone, Copy, Debug, PartialEq, Eq, Structural)]
pub enum ValidationMode {
    Dapp,
}

/// The `u32` code of a mode, as it is hashed into an intent id.
pub open spec fn mode_code(mode: ValidationMode) -> u32 {
    match mode {
        ValidationMode::Dapp => 0,
    }
}

/// `Dapp` is hashed as the code 0.
pub proof fn lemma_dapp_code()
    ensures
        mode_code(ValidationMode::Dapp) == 0,
{
}

impl From<ValidationMode> for u32 {
    fn from(value: ValidationMode) -> (code: u32)
        ensures
            code == mode_code(value),
            value == ValidationMode::Dapp ==> code == 0,
    {
        match value {
            ValidationMode::Dapp => 0,
        }
    }
}

impl vstd::std_specs::convert::FromSpecImpl<ValidationMode> for u32 {
    open spec fn obeys_from_spec() -> bool {
        true
    }

    open spec fn from_spec(v: ValidationMode) -> u32 {
        mode_code(v)
    }
}

} // verus!
