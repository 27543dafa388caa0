//! The Payment Forwarder: native (SAC) and SEP-41 transfers guarded by Trustline.
use vstd::prelude::*;
use vstd::string::StringSliceAdditionalSpecFns;

use crate::address::Address;
use crate::calldata::{call_data, encode_call_data, lemma_call_data_separates_args};
use crate::engine::{Authorized, TrustlineGuard};
use crate::xdr::{encodable, to_xdr, xdr_encoding, Scalar, ScalarView, XdrValue, XdrView};

verus! {

/// Why a payment is refused before any transfer.
#[derive(Clone, Copy, Debug, PartialEq, Eq, Structural)]
pub enum PaymentError {
    /// The amount is not positive ("Invalid amount").
    InvalidAmount,
}

/// A token transfer of `amount` from `from` to `to` on the token contract `token`.
#[derive(Clone, Copy, Debug)]
pub struct TokenTransfer {
    pub token: Address,
    pub from: Address,
    pub to: Address,
    pub amount: i128,
}

/// What an accepted payment does once `sender` has authorized: enforce
/// `guard`, then perform `transfer`.
#[derive(Debug)]
pub struct PaymentPlan {
    pub guard: TrustlineGuard,
    pub transfer: TokenTransfer,
}

/// The forwarder contract. Its only state is the Validation Engine address,
/// kept by the integration helpers.
pub struct PaymentForwarder;

/// The argument tuple of `pay_native` that its intent data binds.
pub open spec fn pay_native_args(native_token: Address, destination: Address, amount: i128) -> XdrView {
    XdrView::Tuple(
        seq![ScalarView::Addr(native_token), ScalarView::Addr(destination), ScalarView::I128(amount)],
    )
}

/// The argument tuple of `pay_tokens` that its intent data binds.
pub open spec fn pay_tokens_args(destination: Address, token: Address, amount: i128) -> XdrView {
    XdrView::Tuple(
        seq![ScalarView::Addr(destination), ScalarView::Addr(token), ScalarView::I128(amount)],
    )
}

/// Intent data of `pay_native`.
pub open spec fn pay_native_data(native_token: Address, destination: Address, amount: i128) -> Seq<u8> {
    call_data("pay_native".spec_bytes(), xdr_encoding(pay_native_args(native_token, destination, amount)))
}

/// Intent data of `pay_tokens`.
pub open spec fn pay_tokens_data(destination: Address, token: Address, amount: i128) -> Seq<u8> {
    call_data("pay_tokens".spec_bytes(), xdr_encoding(pay_tokens_args(destination, token, amount)))
}

/// The tuple of two addresses and an amount.
pub open spec fn two_addresses_and_amount_view(first: Address, second: Address, amount: i128) -> XdrView {
    XdrView::Tuple(seq![ScalarView::Addr(first), ScalarView::Addr(second), ScalarView::I128(amount)])
}

/// The XDR of a tuple of two addresses and an amount; no other such tuple has
/// the same bytes.
fn two_addresses_and_amount(first: &Address, second: &Address, amount: i128) -> (bytes: Vec<u8>)
    ensures
        bytes@ == xdr_encoding(two_addresses_and_amount_view(*first, *second, amount)),
        forall|f: Address, g: Address, n: i128|
            #[trigger] xdr_encoding(two_addresses_and_amount_view(f, g, n)) == bytes@ ==> f == *first
                && g == *second && n == amount,
{
    let items: Vec<Scalar> = vec![Scalar::Addr(*first), Scalar::Addr(*second), Scalar::I128(amount)];
    let args = XdrValue::Tuple(items);
    assert(items@.map_values(|s: Scalar| s@) =~= seq![
        ScalarView::Addr(*first),
        ScalarView::Addr(*second),
        ScalarView::I128(amount),
    ]);
    let bytes = to_xdr(&args);
    assert forall|f: Address, g: Address, n: i128|
        #[trigger] xdr_encoding(two_addresses_and_amount_view(f, g, n)) == bytes@ implies f == *first
            && g == *second && n == amount by {
        let w = two_addresses_and_amount_view(f, g, n);
        assert(encodable(w));
        assert(w == args@);
        assert(w->Tuple_0[0] == args@->Tuple_0[0]);
        assert(w->Tuple_0[1] == args@->Tuple_0[1]);
        assert(w->Tuple_0[2] == args@->Tuple_0[2]);
    }
    bytes
}

/// The intent data of a payment is the entry point's name followed by the XDR
/// of its arguments in the entry point's order: `(native_token, destination,
/// amount)` for `pay_native`, `(destination, token, amount)` for `pay_tokens`.
pub proof fn lemma_payment_intent_data_layout(a: Address, b: Address, amount: i128)
    ensures
        pay_native_data(a, b, amount) == "pay_native".spec_bytes() + xdr_encoding(
            XdrView::Tuple(seq![ScalarView::Addr(a), ScalarView::Addr(b), ScalarView::I128(amount)]),
        ),
        pay_tokens_data(a, b, amount) == "pay_tokens".spec_bytes() + xdr_encoding(
            XdrView::Tuple(seq![ScalarView::Addr(a), ScalarView::Addr(b), ScalarView::I128(amount)]),
        ),
{
}

impl PaymentForwarder {
    /// Intent `data` for `pay_native` (frontend / oracle prevalidation): binds
    /// the token contract, the destination and the amount.
    /// Different tokens, destinations or amounts give different data.
    pub fn pay_native_intent_data(native_token: &Address, destination: &Address, amount: i128) -> (data: Vec<u8>)
        ensures
            data@ == pay_native_data(*native_token, *destination, amount),
            data@ == "pay_native".spec_bytes() + xdr_encoding(
                XdrView::Tuple(
                    seq![ScalarView::Addr(*native_token), ScalarView::Addr(*destination), ScalarView::I128(amount)],
                ),
            ),
            forall|t: Address, d: Address, n: i128|
                #[trigger] pay_native_data(t, d, n) == data@ ==> t == *native_token && d == *destination
                    && n == amount,
    {
        let args = two_addresses_and_amount(native_token, destination, amount);
        let data = encode_call_data("pay_native", args.as_slice());
        assert forall|t: Address, d: Address, n: i128|
            #[trigger] pay_native_data(t, d, n) == data@ implies t == *native_token && d == *destination
                && n == amount by {
            lemma_call_data_separates_args(
                "pay_native".spec_bytes(),
                xdr_encoding(two_addresses_and_amount_view(t, d, n)),
                args@,
            );
        }
        data
    }

    /// Intent `data` for `pay_tokens`.
    /// Different destinations, tokens or amounts give different data.
    pub fn pay_tokens_intent_data(destination: &Address, token: &Address, amount: i128) -> (data: Vec<u8>)
        ensures
            data@ == pay_tokens_data(*destination, *token, amount),
            data@ == "pay_tokens".spec_bytes() + xdr_encoding(
                XdrView::Tuple(
                    seq![ScalarView::Addr(*destination), ScalarView::Addr(*token), ScalarView::I128(amount)],
                ),
            ),
            forall|d: Address, t: Address, n: i128|
                #[trigger] pay_tokens_data(d, t, n) == data@ ==> d == *destination && t == *token && n
                    == amount,
    {
        let args = two_addresses_and_amount(destination, token, amount);
        let data = encode_call_data("pay_tokens", args.as_slice());
        assert forall|d: Address, t: Address, n: i128|
            #[trigger] pay_tokens_data(d, t, n) == data@ implies d == *destination && t == *token && n
                == amount by {
            lemma_call_data_separates_args(
                "pay_tokens".spec_bytes(),
                xdr_encoding(two_addresses_and_amount_view(d, t, n)),
                args@,
            );
        }
        data
    }

    /// Pay via a Stellar Asset Contract (typically the native XLM SAC): `sender`
    /// must authorize, in every case; then the payment is refused unless `amount > 0`; otherwise enforce
    /// an intent of value `amount` over `pay_native`'s data, screening the
    /// destination and the token, then transfer.
    pub fn pay_native(sender: Address, native_token: Address, destination: Address, amount: i128) -> (r: Authorized<Result<PaymentPlan, PaymentError>>)
        ensures
            r.authorizer == sender,
            r.outcome is Err <==> amount <= 0,
            r.outcome is Err ==> r.outcome == Err::<PaymentPlan, PaymentError>(PaymentError::InvalidAmount),
            r.outcome matches Ok(plan) ==> {
                &&& plan.guard matches TrustlineGuard::WithAddresses { sender: s, value, data, addresses }
                &&& s == sender
                &&& value == amount
                &&& data@ == pay_native_data(native_token, destination, amount)
                &&& addresses@ == seq![destination, native_token]
                &&& plan.transfer == (TokenTransfer { token: native_token, from: sender, to: destination, amount })
            },
    {
        if amount <= 0 {
            return Authorized { authorizer: sender, outcome: Err(PaymentError::InvalidAmount) };
        }
        let data = Self::pay_native_intent_data(&native_token, &destination, amount);
        let addresses: Vec<Address> = vec![destination, native_token];
        let plan = PaymentPlan {
            guard: TrustlineGuard::WithAddresses { sender, value: amount, data, addresses },
            transfer: TokenTransfer { token: native_token, from: sender, to: destination, amount },
        };
        Authorized { authorizer: sender, outcome: Ok(plan) }
    }

    /// Pay SEP-41 tokens: `sender` must authorize, in every case; then the
    /// payment is refused unless
    /// `amount > 0`; otherwise enforce an intent of value 0 over `pay_tokens`'s
    /// data, screening the destination and the token, then transfer.
    pub fn pay_tokens(sender: Address, destination: Address, token: Address, amount: i128) -> (r: Authorized<Result<PaymentPlan, PaymentError>>)
        ensures
            r.authorizer == sender,
            r.outcome is Err <==> amount <= 0,
            r.outcome is Err ==> r.outcome == Err::<PaymentPlan, PaymentError>(PaymentError::InvalidAmount),
            r.outcome matches Ok(plan) ==> {
                &&& plan.guard matches TrustlineGuard::WithAddresses { sender: s, value, data, addresses }
                &&& s == sender
                &&& value == 0
                &&& data@ == pay_tokens_data(destination, token, amount)
                &&& addresses@ == seq![destination, token]
                &&& plan.transfer == (TokenTransfer { token, from: sender, to: destination, amount })
            },
    {
        if amount <= 0 {
            return Authorized { authorizer: sender, outcome: Err(PaymentError::InvalidAmount) };
        }
        let data = Self::pay_tokens_intent_data(&destination, &token, amount);
        let addresses: Vec<Address> = vec![destination, token];
        let plan = PaymentPlan {
            guard: TrustlineGuard::WithAddresses { sender, value: 0, data, addresses },
            transfer: TokenTransfer { token, from: sender, to: destination, amount },
        };
        Authorized { authorizer: sender, outcome: Ok(plan) }
    }
}

} // verus!
