//! Values that Trustline hashes or binds into intent data, and their XDR encoding.
//!
//! Soroban serializes a value by converting it to its `ScVal` form and writing
//! that as XDR. The library models the handful of value shapes its payloads
//! use, and hands the encoding itself to the Stellar XDR implementation that
//! `soroban_sdk` re-exports.
use vstd::prelude::*;

use crate::address::Address;
use soroban_sdk::xdr::{
    AccountId, ContractId, Limits, PublicKey, ScAddress, ScBytes, ScVal, Uint256, WriteXdr,
};

verus! {

/// One Soroban value of a shape that Trustline payloads use.
#[derive(Debug)]
pub enum Scalar {
    Bool(bool),
    U32(u32),
    U64(u64),
    I128(i128),
    Bytes(Vec<u8>),
    Addr(Address),
}

/// The mathematical form of a [`Scalar`].
pub enum ScalarView {
    Bool(bool),
    U32(u32),
    U64(u64),
    I128(i128),
    Bytes(Seq<u8>),
    Addr(Address),
}

impl View for Scalar {
    type V = ScalarView;

    open spec fn view(&self) -> ScalarView {
        match self {
            Scalar::Bool(b) => ScalarView::Bool(*b),
            Scalar::U32(n) => ScalarView::U32(*n),
            Scalar::U64(n) => ScalarView::U64(*n),
            Scalar::I128(n) => ScalarView::I128(*n),
            Scalar::Bytes(b) => ScalarView::Bytes(b@),
            Scalar::Addr(a) => ScalarView::Addr(*a),
        }
    }
}

/// A value to serialize: a single scalar, or a tuple of scalars (which Soroban
/// serializes as an `ScVal::Vec` of its elements).
#[derive(Debug)]
pub enum XdrValue {
    Single(Scalar),
    Tuple(Vec<Scalar>),
}

/// The mathematical form of an [`XdrValue`].
pub enum XdrView {
    Single(ScalarView),
    Tuple(Seq<ScalarView>),
}

impl View for XdrValue {
    type V = XdrView;

    open spec fn view(&self) -> XdrView {
        match self {
            XdrValue::Single(s) => XdrView::Single(s@),
            XdrValue::Tuple(items) => XdrView::Tuple(items@.map_values(|s: Scalar| s@)),
        }
    }
}

/// A scalar fits the XDR length limits (byte strings of at most `u32::MAX` bytes).
pub open spec fn scalar_encodable(s: ScalarView) -> bool {
    match s {
        ScalarView::Bytes(b) => b.len() <= u32::MAX,
        _ => true,
    }
}

/// A value fits the XDR length limits.
pub open spec fn encodable(v: XdrView) -> bool {
    match v {
        XdrView::Single(s) => scalar_encodable(s),
        XdrView::Tuple(items) => items.len() <= u32::MAX && forall|i: int|
            0 <= i < items.len() ==> #[trigger] scalar_encodable(items[i]),
    }
}

/// The XDR bytes of the `ScVal` form of a value.
pub uninterp spec fn xdr_encoding(v: XdrView) -> Seq<u8>;

/// The Stellar XDR `ScVal` type, carried opaquely.
#[verifier::external_type_specification]
#[verifier::external_body]
pub struct ExScVal(soroban_sdk::xdr::ScVal);

/// Builds the `ScVal` form of a scalar, one variant for one variant (a
/// byte string becomes `ScBytes`, whose `BytesM` refuses more than
/// `u32::MAX` bytes; hence the `requires`). Nothing is claimed of the result.
#[verifier::external_body]
fn scalar_to_scval(s: &Scalar) -> ScVal
    requires
        scalar_encodable(s@),
{
    match s {
        Scalar::Bool(b) => ScVal::Bool(*b),
        Scalar::U32(n) => ScVal::U32(*n),
        Scalar::U64(n) => ScVal::U64(*n),
        Scalar::I128(n) => ScVal::from(*n),
        Scalar::Bytes(b) => ScVal::Bytes(ScBytes(b.clone().try_into().unwrap())),
        Scalar::Addr(Address::Contract(id)) => ScVal::Address(ScAddress::Contract(ContractId(soroban_sdk::xdr::Hash(*id)))),
        Scalar::Addr(Address::Account(key)) => ScVal::Address(
            ScAddress::Account(AccountId(PublicKey::PublicKeyTypeEd25519(Uint256(*key)))),
        ),
    }
}

/// Serializes a value with `stellar_xdr`'s `WriteXdr::to_xdr` (re-exported by
/// `soroban_sdk::xdr`), after building its `ScVal` form; a tuple becomes
/// `ScVal::Vec(Some(..))` of its elements, as Soroban serializes tuples.
/// Claimed: the bytes are `xdr_encoding` of the value, and no other encodable
/// value has the same encoding. The latter holds because the `ScVal` form is
/// built one variant for one variant (distinct values give distinct `ScVal`s;
/// a tuple is always an `ScVal::Vec`, a single scalar never is), and because
/// `stellar_xdr`'s `ReadXdr::from_xdr` reads the `ScVal` back from these bytes.
/// The byte-string and vector length limits of XDR (`u32::MAX`) are required;
/// with `Limits::none()` writing to memory does not fail otherwise.
#[verifier::external_body]
pub(crate) fn to_xdr(v: &XdrValue) -> (bytes: Vec<u8>)
    requires
        encodable(v@),
    ensures
        bytes@ == xdr_encoding(v@),
        forall|w: XdrView| #[trigger] xdr_encoding(w) == bytes@ && encodable(w) ==> w == v@,
{
    let sc = match v {
        XdrValue::Single(s) => scalar_to_scval(s),
        XdrValue::Tuple(items) => {
            let mut elems: std::vec::Vec<ScVal> = std::vec::Vec::new();
            for s in items.iter() {
                elems.push(scalar_to_scval(s));
            }
            ScVal::Vec(Some(elems.try_into().unwrap()))
        },
    };
    sc.to_xdr(Limits::none()).unwrap()
}

} // verus!
