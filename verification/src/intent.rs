//! Deterministic intent ids and final transaction ids.
//!
//! The intent id is `sha256(xdr(network_id, mode, sender, protocol, value, data))`;
//! the backend oracle and the on-chain Validation Engine derive the same id
//! from the same inputs.
use vstd::prelude::*;

use crate::address::Address;
use crate::crypto::{network_id, sha256, sha256_digest};
use crate::mode::{mode_code, ValidationMode};
use crate::xdr::{encodable, to_xdr, xdr_encoding, Scalar, ScalarView, XdrValue, XdrView};
use soroban_sdk::Env;

verus! {

/// The tuple whose XDR encoding is hashed into an intent id.
pub open spec fn intent_payload(
    network_id: Seq<u8>,
    mode: ValidationMode,
    sender: Address,
    protocol: Address,
    value: i128,
    data: Seq<u8>,
) -> XdrView {
    XdrView::Tuple(
        seq![
            ScalarView::Bytes(network_id),
            ScalarView::U32(mode_code(mode)),
            ScalarView::Addr(sender),
            ScalarView::Addr(protocol),
            ScalarView::I128(value),
            ScalarView::Bytes(data),
        ],
    )
}

/// The intent id of a call on a given network.
pub open spec fn intent_id_spec(
    network_id: Seq<u8>,
    mode: ValidationMode,
    sender: Address,
    protocol: Address,
    value: i128,
    data: Seq<u8>,
) -> Seq<u8> {
    sha256_digest(xdr_encoding(intent_payload(network_id, mode, sender, protocol, value, data)))
}

/// The tuple whose XDR encoding is hashed into a final transaction id.
pub open spec fn final_tx_payload(id: Seq<u8>, timestamp: u64) -> XdrView {
    XdrView::Tuple(seq![ScalarView::Bytes(id), ScalarView::U64(timestamp)])
}

/// The final event / lookup id of an intent id at a timestamp.
pub open spec fn final_tx_id_spec(id: Seq<u8>, timestamp: u64) -> Seq<u8> {
    sha256_digest(xdr_encoding(final_tx_payload(id, timestamp)))
}

/// Builds the intent tuple `(network_id, mode, sender, protocol, value, data)`.
pub fn intent_payload_value(
    network_id: &[u8; 32],
    mode: ValidationMode,
    sender: &Address,
    protocol: &Address,
    value: i128,
    data: &[u8],
) -> (payload: XdrValue)
    ensures
        payload@ == intent_payload(network_id@, mode, *sender, *protocol, value, data@),
        payload@ == XdrView::Tuple(
                seq![
                    ScalarView::Bytes(network_id@),
                    ScalarView::U32(match mode {
                        ValidationMode::Dapp => 0u32,
                    }),
                    ScalarView::Addr(*sender),
                    ScalarView::Addr(*protocol),
                    ScalarView::I128(value),
                    ScalarView::Bytes(data@),
                ],
            ),
{
    let code: u32 = mode.into();
    let items: Vec<Scalar> = vec![
        Scalar::Bytes(vstd::slice::slice_to_vec(network_id.as_slice())),
        Scalar::U32(code),
        Scalar::Addr(*sender),
        Scalar::Addr(*protocol),
        Scalar::I128(value),
        Scalar::Bytes(vstd::slice::slice_to_vec(data)),
    ];
    let payload = XdrValue::Tuple(items);
    assert(items@.map_values(|s: Scalar| s@) =~= seq![
        ScalarView::Bytes(network_id@),
        ScalarView::U32(mode_code(mode)),
        ScalarView::Addr(*sender),
        ScalarView::Addr(*protocol),
        ScalarView::I128(value),
        ScalarView::Bytes(data@),
    ]);
    payload
}

/// The intent id of a call on the network whose id is `network_id`.
pub fn intent_id_on_network(
    env: &Env,
    network_id: &[u8; 32],
    mode: ValidationMode,
    sender: &Address,
    protocol: &Address,
    value: i128,
    data: &[u8],
) -> (id: [u8; 32])
    requires
        data@.len() <= u32::MAX,
    ensures
        id@ == intent_id_spec(network_id@, mode, *sender, *protocol, value, data@),
        id@ == sha256_digest(
            xdr_encoding(
                XdrView::Tuple(
                seq![
                    ScalarView::Bytes(network_id@),
                    ScalarView::U32(match mode {
                        ValidationMode::Dapp => 0u32,
                    }),
                    ScalarView::Addr(*sender),
                    ScalarView::Addr(*protocol),
                    ScalarView::I128(value),
                    ScalarView::Bytes(data@),
                ],
            ),
            ),
        ),
{
    let payload = intent_payload_value(network_id, mode, sender, protocol, value, data);
    let bytes = to_xdr(&payload);
    sha256(env, bytes.as_slice())
}

/// Compute the Trustline intent id on the network the invocation runs on:
/// `sha256` over the XDR encoding of `(network_id, mode, sender, protocol, value, data)`.
pub fn intent_id(
    env: &Env,
    mode: ValidationMode,
    sender: &Address,
    protocol: &Address,
    value: i128,
    data: &[u8],
) -> (id: [u8; 32])
    requires
        data@.len() <= u32::MAX,
    ensures
        exists|net: Seq<u8>|
            net.len() == 32 && id@ == #[trigger] intent_id_spec(net, mode, *sender, *protocol, value, data@)
                && id@ == sha256_digest(
                xdr_encoding(
                    XdrView::Tuple(
                seq![
                    ScalarView::Bytes(net),
                    ScalarView::U32(match mode {
                        ValidationMode::Dapp => 0u32,
                    }),
                    ScalarView::Addr(*sender),
                    ScalarView::Addr(*protocol),
                    ScalarView::I128(value),
                    ScalarView::Bytes(data@),
                ],
            ),
                ),
            ),
{
    let net = network_id(env);
    let id = intent_id_on_network(env, &net, mode, sender, protocol, value, data);
    assert(net@.len() == 32);
    id
}

/// Final event / lookup id: `sha256(xdr(id, timestamp))`.
pub fn final_tx_id(env: &Env, id: &[u8; 32], timestamp: u64) -> (final_id: [u8; 32])
    ensures
        final_id@ == final_tx_id_spec(id@, timestamp),
        final_id@ == sha256_digest(
            xdr_encoding(XdrView::Tuple(seq![ScalarView::Bytes(id@), ScalarView::U64(timestamp)])),
        ),
{
    let items: Vec<Scalar> = vec![
        Scalar::Bytes(vstd::slice::slice_to_vec(id.as_slice())),
        Scalar::U64(timestamp),
    ];
    let payload = XdrValue::Tuple(items);
    assert(items@.map_values(|s: Scalar| s@) =~= seq![ScalarView::Bytes(id@), ScalarView::U64(timestamp)]);
    let bytes = to_xdr(&payload);
    sha256(env, bytes.as_slice())
}

/// The tuple hashed into an intent id carries, in this order: the network id
/// bytes unchanged, the mode's code (0 for `Dapp`), the sender, the protocol,
/// the value, and the data bytes unchanged; and nothing else.
pub proof fn lemma_intent_payload_layout(
    network_id: Seq<u8>,
    mode: ValidationMode,
    sender: Address,
    protocol: Address,
    value: i128,
    data: Seq<u8>,
)
    ensures
        ({
            let p = intent_payload(network_id, mode, sender, protocol, value, data);
            &&& p is Tuple
            &&& p->Tuple_0.len() == 6
            &&& p->Tuple_0[0] == ScalarView::Bytes(network_id)
            &&& p->Tuple_0[1] == ScalarView::U32(0u32)
            &&& p->Tuple_0[2] == ScalarView::Addr(sender)
            &&& p->Tuple_0[3] == ScalarView::Addr(protocol)
            &&& p->Tuple_0[4] == ScalarView::I128(value)
            &&& p->Tuple_0[5] == ScalarView::Bytes(data)
        }),
        intent_id_spec(network_id, mode, sender, protocol, value, data) == sha256_digest(
            xdr_encoding(intent_payload(network_id, mode, sender, protocol, value, data)),
        ),
{
}

/// The tuple hashed into a final transaction id carries the intent id bytes
/// unchanged, then the timestamp; and nothing else.
pub proof fn lemma_final_tx_payload_layout(id: Seq<u8>, timestamp: u64)
    ensures
        ({
            let p = final_tx_payload(id, timestamp);
            &&& p is Tuple
            &&& p->Tuple_0.len() == 2
            &&& p->Tuple_0[0] == ScalarView::Bytes(id)
            &&& p->Tuple_0[1] == ScalarView::U64(timestamp)
        }),
        final_tx_id_spec(id, timestamp) == sha256_digest(xdr_encoding(final_tx_payload(id, timestamp))),
{
}

/// Distinct calls have distinct intent tuples: the tuple determines the
/// network, mode, sender, protocol, value and data it was built from.
pub proof fn lemma_intent_payload_injective(
    network_id1: Seq<u8>,
    mode1: ValidationMode,
    sender1: Address,
    protocol1: Address,
    value1: i128,
    data1: Seq<u8>,
    network_id2: Seq<u8>,
    mode2: ValidationMode,
    sender2: Address,
    protocol2: Address,
    value2: i128,
    data2: Seq<u8>,
)
    ensures
        intent_payload(network_id1, mode1, sender1, protocol1, value1, data1) == intent_payload(
            network_id2,
            mode2,
            sender2,
            protocol2,
            value2,
            data2,
        ) <==> (network_id1 == network_id2 && mode1 == mode2 && sender1 == sender2 && protocol1
            == protocol2 && value1 == value2 && data1 == data2),
{
    let p1 = intent_payload(network_id1, mode1, sender1, protocol1, value1, data1);
    let p2 = intent_payload(network_id2, mode2, sender2, protocol2, value2, data2);
    if p1 == p2 {
        let s1 = p1->Tuple_0;
        let s2 = p2->Tuple_0;
        assert(s1[0] == s2[0]);
        assert(s1[1] == s2[1]);
        assert(s1[2] == s2[2]);
        assert(s1[3] == s2[3]);
        assert(s1[4] == s2[4]);
        assert(s1[5] == s2[5]);
    }
}

/// Distinct (id, timestamp) pairs have distinct final tuples.
pub proof fn lemma_final_tx_payload_injective(id1: Seq<u8>, timestamp1: u64, id2: Seq<u8>, timestamp2: u64)
    ensures
        final_tx_payload(id1, timestamp1) == final_tx_payload(id2, timestamp2) <==> (id1 == id2
            && timestamp1 == timestamp2),
{
    let p1 = final_tx_payload(id1, timestamp1);
    let p2 = final_tx_payload(id2, timestamp2);
    if p1 == p2 {
        let s1 = p1->Tuple_0;
        let s2 = p2->Tuple_0;
        assert(s1[0] == s2[0]);
        assert(s1[1] == s2[1]);
    }
}

} // verus!
