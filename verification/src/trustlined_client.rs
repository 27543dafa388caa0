//! A harness contract exercising the Trustline guard helpers.
use vstd::prelude::*;
use vstd::string::StringSliceAdditionalSpecFns;

use crate::address::Address;
use crate::calldata::{call_data, encode_call_data};
use crate::engine::{Authorized, TrustlineGuard};

verus! {

/// The harness contract. Its only state is the Validation Engine address,
/// kept by the integration helpers.
pub struct TestTrustlinedClient;

/// Intent data of `guarded_no_args`: the name with no argument bytes.
pub open spec fn guarded_no_args_data() -> Seq<u8> {
    call_data("guarded_no_args".spec_bytes(), Seq::<u8>::empty())
}

/// Intent data of `guarded_with_address`: the name with no argument bytes.
pub open spec fn guarded_with_address_data() -> Seq<u8> {
    call_data("guarded_with_address".spec_bytes(), Seq::<u8>::empty())
}

/// The guarded entry points bind their own names and no argument bytes.
pub proof fn lemma_client_intent_data_layout()
    ensures
        guarded_no_args_data() == "guarded_no_args".spec_bytes(),
        guarded_with_address_data() == "guarded_with_address".spec_bytes(),
{
    assert(guarded_no_args_data() =~= "guarded_no_args".spec_bytes());
    assert(guarded_with_address_data() =~= "guarded_with_address".spec_bytes());
}

impl TestTrustlinedClient {
    /// The intent that `guarded_no_args` enforces: value 0 over its data.
    fn no_args_guard(sender: Address) -> (guard: TrustlineGuard)
        ensures
            guard matches TrustlineGuard::Plain { sender: s, value, data } && s == sender && value == 0
                && data@ == guarded_no_args_data(),
    {
        let data = encode_call_data("guarded_no_args", &[]);
        assert(data@ =~= guarded_no_args_data());
        TrustlineGuard::Plain { sender, value: 0, data }
    }

    /// Guard with no arguments: `sender` must authorize, then an intent of
    /// value 0 over `guarded_no_args`'s data is enforced.
    pub fn guarded_no_args(sender: Address) -> (r: Authorized<TrustlineGuard>)
        ensures
            r.authorizer == sender,
            r.outcome matches TrustlineGuard::Plain { sender: s, value, data } && s == sender && value
                == 0 && data@ == guarded_no_args_data(),
    {
        Authorized { authorizer: sender, outcome: Self::no_args_guard(sender) }
    }

    /// Guard with an additional target address screened by the engine:
    /// `sender` must authorize, then the intent is enforced.
    pub fn guarded_with_address(sender: Address, target: Address) -> (r: Authorized<TrustlineGuard>)
        ensures
            r.authorizer == sender,
            r.outcome matches TrustlineGuard::WithAddresses { sender: s, value, data, addresses } && s
                == sender && value == 0 && data@ == guarded_with_address_data() && addresses@ == seq![
                target,
            ],
    {
        let data = encode_call_data("guarded_with_address", &[]);
        assert(data@ =~= guarded_with_address_data());
        let addresses: Vec<Address> = vec![target];
        Authorized {
            authorizer: sender,
            outcome: TrustlineGuard::WithAddresses { sender, value: 0, data, addresses },
        }
    }

    /// The query behind "would `guarded_no_args` pass?": the very intent that
    /// `guarded_no_args` enforces, asked without aborting and without any
    /// authorization.
    pub fn can_pass_no_args(sender: Address) -> (guard: TrustlineGuard)
        ensures
            guard matches TrustlineGuard::Plain { sender: s, value, data } && s == sender && value == 0
                && data@ == guarded_no_args_data(),
    {
        Self::no_args_guard(sender)
    }
}

} // verus!
