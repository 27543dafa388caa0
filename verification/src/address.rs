//! Soroban addresses as plain values.
use vstd::prelude::*;

verus! {

broadcast use vstd::array::group_array_axioms;

/// A Soroban address: an account (Ed25519 public key) or a contract (contract id hash).
#[derive(Clone, Copy, Debug, PartialEq, Eq)]
pub enum Address {
    Account([u8; 32]),
    Contract([u8; 32]),
}

/// Equality of two 32-byte ids, compared byte by byte.
fn same_bytes(a: &[u8; 32], b: &[u8; 32]) -> (r: bool)
    ensures
        r == (*a == *b),
{
    let mut i: usize = 0;
    while i < 32
        invariant
            0 <= i <= 32,
            forall|j: int| 0 <= j < i ==> a[j] == b[j],
        decreases 32 - i,
    {
        if a[i] != b[i] {
            return false;
        }
        i = i + 1;
    }
    assert(*a =~= *b);
    true
}

impl Address {
    /// Whether two addresses are the same account or the same contract.
    pub fn same_as(&self, other: &Address) -> (r: bool)
        ensures
            r == (*self == *other),
    {
        match (self, other) {
            (Address::Account(a), Address::Account(b)) => same_bytes(a, b),
            (Address::Contract(a), Address::Contract(b)) => same_bytes(a, b),
            _ => false,
        }
    }
}

} // verus!
