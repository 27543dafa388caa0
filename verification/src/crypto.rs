//! Host services of the Soroban environment that intent hashing relies on.
use vstd::prelude::*;

use soroban_sdk::Env;

verus! {

/// The Soroban environment handle, carried opaquely.
#[verifier::external_type_specification]
#[verifier::external_body]
pub struct ExEnv(soroban_sdk::Env);

/// The SHA-256 digest of a byte string.
pub uninterp spec fn sha256_digest(data: Seq<u8>) -> Seq<u8>;

/// Hashes `data` with the host's SHA-256 (`Crypto::sha256` of `soroban_sdk`),
/// after copying it into host `Bytes`. Claimed: the 32 bytes returned are
/// `sha256_digest` of `data`. Not stated: the host aborts the invocation when
/// its resource budget runs out, which depends on the rest of the invocation.
#[verifier::external_body]
pub(crate) fn sha256(env: &Env, data: &[u8]) -> (digest: [u8; 32])
    ensures
        digest@ == sha256_digest(data@),
{
    env.crypto().sha256(&soroban_sdk::Bytes::from_slice(env, data)).to_array()
}

/// The network id of the ledger the invocation runs on (`Ledger::network_id`
/// of `soroban_sdk`). Nothing is claimed of its 32 bytes: they come from the
/// environment.
#[verifier::external_body]
pub(crate) fn network_id(env: &Env) -> (id: [u8; 32]) {
    env.ledger().network_id().to_array()
}

} // verus!
