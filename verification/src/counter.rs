//! A minimal admin-gated target contract for firewall demos.
//!
//! Its admin is meant to be the Trustline Firewall, so that privileged calls
//! only succeed when forwarded through the firewall.
use vstd::prelude::*;

use crate::address::Address;
use crate::engine::Authorized;

verus! {

/// The counter's instance state.
#[derive(Clone, Copy, Debug)]
pub struct ProtectedCounter {
    pub admin: Address,
    pub count: u32,
}

impl ProtectedCounter {
    /// A freshly deployed counter: the given admin, count 0.
    pub fn new(admin: Address) -> (c: Self)
        ensures
            c.admin == admin,
            c.count == 0,
    {
        ProtectedCounter { admin, count: 0 }
    }

    /// The state as read back from storage: a missing count reads as 0.
    pub fn from_storage(admin: Address, stored_count: Option<u32>) -> (c: Self)
        ensures
            c.admin == admin,
            c.count == match stored_count {
                Some(n) => n,
                None => 0,
            },
    {
        let count = match stored_count {
            Some(n) => n,
            None => 0,
        };
        ProtectedCounter { admin, count }
    }

    /// The current admin.
    pub fn admin(&self) -> (a: Address)
        ensures
            a == self.admin,
    {
        self.admin
    }

    /// Transfer admin. Returns the address that must authorize the change:
    /// the admin before it.
    pub fn set_admin(&mut self, new_admin: Address) -> (authorizer: Address)
        ensures
            authorizer == old(self).admin,
            final(self).admin == new_admin,
            final(self).count == old(self).count,
    {
        let authorizer = self.admin;
        self.admin = new_admin;
        authorizer
    }

    /// The current count.
    pub fn count(&self) -> (n: u32)
        ensures
            n == self.count,
    {
        self.count
    }

    /// Privileged bump: the admin must authorize; then the count grows by one
    /// and the new count is returned. The count must not be at `u32::MAX`,
    /// where the addition overflows.
    pub fn bump(&mut self) -> (r: Authorized<u32>)
        requires
            old(self).count < u32::MAX,
        ensures
            r.authorizer == old(self).admin,
            r.outcome == old(self).count + 1,
            final(self).count == r.outcome,
            final(self).admin == old(self).admin,
    {
        let next = self.count + 1;
        self.count = next;
        Authorized { authorizer: self.admin, outcome: next }
    }
}

} // verus!
