//! The Trustline Firewall: an access-controlled gateway in front of a third-party contract.
//!
//! Every forwarded call is Trustline-validated and then invoked on a fixed
//! `target`. Access model:
//! - `owner`: the single admin (`set_target`, `set_owner`, `set_operator`,
//!   `set_public_forward`), each change Trustline-protected with the owner as sender;
//! - operators: addresses allowed on `forward` while `public_forward` is false;
//! - `public_forward`: when true, any authenticated initiator may `forward`
//!   (still Trustline-gated).
//!
//! The owner is not an operator unless made one.
use vstd::prelude::*;
use vstd::string::StringSliceAdditionalSpecFns;

use crate::address::Address;
use crate::calldata::{call_data, encode_call_data, lemma_call_data_separates_args};
use crate::engine::{Authorized, TrustlineGuard};
use crate::xdr::{encodable, to_xdr, xdr_encoding, Scalar, ScalarView, XdrValue, XdrView};

verus! {

/// Ledgers kept in reserve when extending a TTL (about one week of ledgers).
pub const TTL_MARGIN: u32 = 120_960;

/// The TTL extension the firewall asks for, given the network's maximum TTL:
/// extend to `max_ttl` whenever fewer than `max_ttl - TTL_MARGIN` ledgers
/// (saturating at 0) remain. Returns `(threshold, extend_to)`.
pub fn ttl_extension(max_ttl: u32) -> (r: (u32, u32))
    ensures
        r.0 == (if max_ttl >= TTL_MARGIN { (max_ttl - TTL_MARGIN) as u32 } else { 0u32 }),
        r.1 == max_ttl,
{
    (max_ttl.saturating_sub(TTL_MARGIN), max_ttl)
}

/// Why the firewall refuses a call.
#[derive(Clone, Copy, Debug, PartialEq, Eq, Structural)]
pub enum FirewallError {
    /// The initiator of `forward` is not an operator while forwarding is not public.
    Unauthorized,
}

/// Event: the target was replaced.
#[derive(Clone, Copy, Debug)]
pub struct FirewallTargetUpdated {
    pub new_target: Address,
}

/// Event: the owner was replaced.
#[derive(Clone, Copy, Debug)]
pub struct FirewallOwnerUpdated {
    pub old_owner: Address,
    pub new_owner: Address,
}

/// Event: an account was made, or stopped being, an operator.
#[derive(Clone, Copy, Debug)]
pub struct FirewallOperatorUpdated {
    pub account: Address,
    pub is_operator: bool,
}

/// Event: public forwarding was switched on or off.
#[derive(Clone, Copy, Debug, PartialEq, Eq, Structural)]
pub struct FirewallPublicForwardUpdated {
    pub enabled: bool,
}

/// An event the firewall publishes after a configuration change.
#[derive(Clone, Copy, Debug)]
pub enum FirewallEvent {
    TargetUpdated(FirewallTargetUpdated),
    OwnerUpdated(FirewallOwnerUpdated),
    OperatorUpdated(FirewallOperatorUpdated),
    PublicForwardUpdated(FirewallPublicForwardUpdated),
}

/// What happens to the persistent `Operator(account)` entry.
#[derive(Clone, Copy, Debug, PartialEq, Eq, Structural)]
pub enum OperatorFlagUpdate {
    /// Store `true` (and extend the entry's TTL).
    Store,
    /// Remove the entry.
    Clear,
}

/// The storage update that records an operator flag: enabling stores the
/// flag, disabling removes the entry.
pub fn operator_flag_update(enabled: bool) -> (u: OperatorFlagUpdate)
    ensures
        u == (if enabled { OperatorFlagUpdate::Store } else { OperatorFlagUpdate::Clear }),
{
    if enabled {
        OperatorFlagUpdate::Store
    } else {
        OperatorFlagUpdate::Clear
    }
}

/// Whether an initiator may use `forward`.
pub open spec fn forward_permitted(public_forward: bool, initiator_is_operator: bool) -> bool {
    public_forward || initiator_is_operator
}

/// The access decision of `forward`, after the initiator has authorized:
/// allowed when forwarding is public or the initiator is an operator,
/// otherwise `Unauthorized`.
pub fn forward_access(public_forward: bool, initiator_is_operator: bool) -> (r: Result<(), FirewallError>)
    ensures
        r == (if forward_permitted(public_forward, initiator_is_operator) {
            Ok::<(), FirewallError>(())
        } else {
            Err::<(), FirewallError>(FirewallError::Unauthorized)
        }),
{
    if public_forward {
        return Ok(());
    }
    if !initiator_is_operator {
        return Err(FirewallError::Unauthorized);
    }
    Ok(())
}

/// Intent data of `set_target`.
pub open spec fn set_target_data(new_target: Address) -> Seq<u8> {
    call_data("set_target".spec_bytes(), xdr_encoding(XdrView::Single(ScalarView::Addr(new_target))))
}

/// Intent data of `set_owner`.
pub open spec fn set_owner_data(new_owner: Address) -> Seq<u8> {
    call_data("set_owner".spec_bytes(), xdr_encoding(XdrView::Single(ScalarView::Addr(new_owner))))
}

/// Intent data of `set_operator`.
pub open spec fn set_operator_data(account: Address, is_operator: bool) -> Seq<u8> {
    call_data(
        "set_operator".spec_bytes(),
        xdr_encoding(XdrView::Tuple(seq![ScalarView::Addr(account), ScalarView::Bool(is_operator)])),
    )
}

/// Intent data of `set_public_forward`.
pub open spec fn set_public_forward_data(enabled: bool) -> Seq<u8> {
    call_data("set_public_forward".spec_bytes(), xdr_encoding(XdrView::Single(ScalarView::Bool(enabled))))
}

/// Intent data of `forward`, given the XDR of `(fn_name, args)`.
pub open spec fn forward_data(call_xdr: Seq<u8>) -> Seq<u8> {
    call_data("forward".spec_bytes(), call_xdr)
}

/// What a configuration change does: `authorizer` (the owner) authorizes,
/// `guard` is enforced, the change is stored, then `event` is published.
#[derive(Debug)]
pub struct AdminPlan {
    pub authorizer: Address,
    pub guard: TrustlineGuard,
    pub event: FirewallEvent,
}

/// What an allowed `forward` does after the initiator has authorized:
/// enforce `guard`, then invoke the call on `target`.
#[derive(Debug)]
pub struct ForwardPlan {
    pub guard: TrustlineGuard,
    pub target: Address,
}

/// A write to the persistent `Operator(account)` entry.
#[derive(Clone, Copy, Debug)]
pub struct OperatorWrite {
    pub account: Address,
    pub update: OperatorFlagUpdate,
}

/// The plan of a configuration change made by `owner`: the owner authorizes
/// and is the Trustline sender of an intent of value 0 over `data`.
pub open spec fn admin_plan_spec(plan: AdminPlan, owner: Address, data: Seq<u8>, event: FirewallEvent) -> bool {
    &&& plan.authorizer == owner
    &&& plan.guard matches TrustlineGuard::Plain { sender, value, data: d }
    &&& sender == owner
    &&& value == 0
    &&& d@ == data
    &&& plan.event == event
}

/// The firewall's whole state as mathematical values: its instance
/// configuration and the set of accounts whose operator entry holds `true`.
pub struct FirewallView {
    pub target: Address,
    pub owner: Address,
    pub public_forward: bool,
    pub operators: Set<Address>,
}

/// The operator set after one write to an operator entry.
pub open spec fn apply_operator_write(operators: Set<Address>, w: OperatorWrite) -> Set<Address> {
    match w.update {
        OperatorFlagUpdate::Store => operators.insert(w.account),
        OperatorFlagUpdate::Clear => operators.remove(w.account),
    }
}

/// The operator set a deployment leaves behind, given its optional write.
pub open spec fn deployed_operators(w: Option<OperatorWrite>) -> Set<Address> {
    match w {
        Some(w) => apply_operator_write(Set::<Address>::empty(), w),
        None => Set::<Address>::empty(),
    }
}

/// The state right after deployment.
pub open spec fn initial_view(
    target: Address,
    initial_owner: Address,
    initial_operator: Option<Address>,
    initial_public_forward: bool,
) -> FirewallView {
    FirewallView {
        target,
        owner: initial_owner,
        public_forward: initial_public_forward,
        operators: match initial_operator {
            Some(op) => Set::<Address>::empty().insert(op),
            None => Set::<Address>::empty(),
        },
    }
}

/// The state with another target.
pub open spec fn with_target(v: FirewallView, new_target: Address) -> FirewallView {
    FirewallView { target: new_target, ..v }
}

/// The state with another owner.
pub open spec fn with_owner(v: FirewallView, new_owner: Address) -> FirewallView {
    FirewallView { owner: new_owner, ..v }
}

/// The state with `account`'s operator flag set to `is_operator`.
pub open spec fn with_operator(v: FirewallView, account: Address, is_operator: bool) -> FirewallView {
    FirewallView {
        operators: if is_operator {
            v.operators.insert(account)
        } else {
            v.operators.remove(account)
        },
        ..v
    }
}

/// The state with public forwarding switched to `enabled`.
pub open spec fn with_public_forward(v: FirewallView, enabled: bool) -> FirewallView {
    FirewallView { public_forward: enabled, ..v }
}

/// The firewall's instance configuration. The operator flags live in
/// separate persistent entries; the methods that concern them take or return
/// one entry at a time.
#[derive(Clone, Copy, Debug)]
pub struct TrustlineFirewall {
    pub target: Address,
    pub owner: Address,
    pub public_forward: bool,
}

/// The XDR of a single address; no other address has the same bytes.
fn address_xdr(a: &Address) -> (bytes: Vec<u8>)
    ensures
        bytes@ == xdr_encoding(XdrView::Single(ScalarView::Addr(*a))),
        forall|b: Address| #[trigger] xdr_encoding(XdrView::Single(ScalarView::Addr(b))) == bytes@ ==> b == *a,
{
    let v = XdrValue::Single(Scalar::Addr(*a));
    let bytes = to_xdr(&v);
    assert forall|b: Address| #[trigger] xdr_encoding(XdrView::Single(ScalarView::Addr(b))) == bytes@ implies b == *a by {
        assert(encodable(XdrView::Single(ScalarView::Addr(b))));
    }
    bytes
}

/// The XDR of a single boolean; the other boolean has other bytes.
fn bool_xdr(b: bool) -> (bytes: Vec<u8>)
    ensures
        bytes@ == xdr_encoding(XdrView::Single(ScalarView::Bool(b))),
        forall|c: bool| #[trigger] xdr_encoding(XdrView::Single(ScalarView::Bool(c))) == bytes@ ==> c == b,
{
    let v = XdrValue::Single(Scalar::Bool(b));
    let bytes = to_xdr(&v);
    assert forall|c: bool| #[trigger] xdr_encoding(XdrView::Single(ScalarView::Bool(c))) == bytes@ implies c == b by {
        assert(encodable(XdrView::Single(ScalarView::Bool(c))));
    }
    bytes
}

impl TrustlineFirewall {
    /// The whole state, given the set of operators.
    pub open spec fn state(self, operators: Set<Address>) -> FirewallView {
        FirewallView {
            target: self.target,
            owner: self.owner,
            public_forward: self.public_forward,
            operators,
        }
    }

    /// Deploy the firewall in front of `target` with the given owner, optional
    /// first operator and public-forward flag. Returns the configuration and
    /// the operator entry to write, if any.
    pub fn new(
        target: Address,
        initial_owner: Address,
        initial_operator: Option<Address>,
        initial_public_forward: bool,
    ) -> (r: (Self, Option<OperatorWrite>))
        ensures
            r.0.state(deployed_operators(r.1)) == initial_view(
                target,
                initial_owner,
                initial_operator,
                initial_public_forward,
            ),
    {
        let fw = TrustlineFirewall { target, owner: initial_owner, public_forward: initial_public_forward };
        let write = match initial_operator {
            Some(op) => Some(OperatorWrite { account: op, update: operator_flag_update(true) }),
            None => None,
        };
        assert(deployed_operators(write) =~= initial_view(
            target,
            initial_owner,
            initial_operator,
            initial_public_forward,
        ).operators);
        (fw, write)
    }

    /// The configuration as read back from storage: a missing public-forward
    /// flag reads as `false`.
    pub fn from_storage(target: Address, owner: Address, stored_public_forward: Option<bool>) -> (fw: Self)
        ensures
            fw.target == target,
            fw.owner == owner,
            fw.public_forward == match stored_public_forward {
                Some(b) => b,
                None => false,
            },
    {
        TrustlineFirewall { target, owner, public_forward: Self::stored_public_forward(stored_public_forward) }
    }

    /// The public-forward flag from its stored entry: a missing entry reads as `false`.
    pub fn stored_public_forward(stored: Option<bool>) -> (b: bool)
        ensures
            b == match stored {
                Some(f) => f,
                None => false,
            },
    {
        match stored {
            Some(f) => f,
            None => false,
        }
    }

    /// Protected contract address.
    pub fn target(&self) -> (a: Address)
        ensures
            a == self.target,
    {
        self.target
    }

    /// Firewall admin (configuration only; not an operator unless made one).
    pub fn owner(&self) -> (a: Address)
        ensures
            a == self.owner,
    {
        self.owner
    }

    /// When true, any authenticated initiator may call `forward`.
    pub fn public_forward(&self) -> (b: bool)
        ensures
            b == self.public_forward,
    {
        self.public_forward
    }

    /// Whether an account is an operator, from its stored operator entry: a
    /// missing entry means it is not.
    pub fn is_operator(stored_flag: Option<bool>) -> (b: bool)
        ensures
            b == match stored_flag {
                Some(f) => f,
                None => false,
            },
    {
        match stored_flag {
            Some(f) => f,
            None => false,
        }
    }

    /// Update target: owner only, Trustline-protected.
    pub fn set_target(&mut self, new_target: Address) -> (plan: AdminPlan)
        ensures
            forall|ops: Set<Address>| #[trigger] final(self).state(ops) == with_target(old(self).state(ops), new_target),
            admin_plan_spec(plan, old(self).owner, set_target_data(new_target), FirewallEvent::TargetUpdated(FirewallTargetUpdated { new_target })),
    {
        let owner = self.owner;
        let data = Self::set_target_intent_data(&new_target);
        self.target = new_target;
        AdminPlan {
            authorizer: owner,
            guard: TrustlineGuard::Plain { sender: owner, value: 0, data },
            event: FirewallEvent::TargetUpdated(FirewallTargetUpdated { new_target }),
        }
    }

    /// Transfer firewall admin: owner only, Trustline-protected.
    pub fn set_owner(&mut self, new_owner: Address) -> (plan: AdminPlan)
        ensures
            forall|ops: Set<Address>| #[trigger] final(self).state(ops) == with_owner(old(self).state(ops), new_owner),
            admin_plan_spec(plan, old(self).owner, set_owner_data(new_owner), FirewallEvent::OwnerUpdated(
                FirewallOwnerUpdated { old_owner: old(self).owner, new_owner },
            )),
    {
        let owner = self.owner;
        let data = Self::set_owner_intent_data(&new_owner);
        self.owner = new_owner;
        AdminPlan {
            authorizer: owner,
            guard: TrustlineGuard::Plain { sender: owner, value: 0, data },
            event: FirewallEvent::OwnerUpdated(FirewallOwnerUpdated { old_owner: owner, new_owner }),
        }
    }

    /// Add or remove an operator allowed on the protected `forward` path:
    /// owner only, Trustline-protected. Returns the plan and the write to the
    /// account's operator entry; the configuration itself is unchanged.
    pub fn set_operator(&self, account: Address, is_operator: bool) -> (r: (AdminPlan, OperatorWrite))
        ensures
            forall|ops: Set<Address>| #[trigger] apply_operator_write(ops, r.1) == with_operator(self.state(ops), account, is_operator).operators,
            admin_plan_spec(r.0, self.owner, set_operator_data(account, is_operator), FirewallEvent::OperatorUpdated(
                FirewallOperatorUpdated { account, is_operator },
            )),
    {
        let owner = self.owner;
        let data = Self::set_operator_intent_data(&account, is_operator);
        let plan = AdminPlan {
            authorizer: owner,
            guard: TrustlineGuard::Plain { sender: owner, value: 0, data },
            event: FirewallEvent::OperatorUpdated(FirewallOperatorUpdated { account, is_operator }),
        };
        (plan, OperatorWrite { account, update: operator_flag_update(is_operator) })
    }

    /// Allow or disallow unrestricted initiators on `forward`: owner only,
    /// Trustline-protected.
    pub fn set_public_forward(&mut self, enabled: bool) -> (plan: AdminPlan)
        ensures
            forall|ops: Set<Address>| #[trigger] final(self).state(ops) == with_public_forward(old(self).state(ops), enabled),
            admin_plan_spec(plan, old(self).owner, set_public_forward_data(enabled), FirewallEvent::PublicForwardUpdated(
                FirewallPublicForwardUpdated { enabled },
            )),
    {
        let owner = self.owner;
        let data = Self::set_public_forward_intent_data(enabled);
        self.public_forward = enabled;
        AdminPlan {
            authorizer: owner,
            guard: TrustlineGuard::Plain { sender: owner, value: 0, data },
            event: FirewallEvent::PublicForwardUpdated(FirewallPublicForwardUpdated { enabled }),
        }
    }

    /// Intent `data` for `set_target`; different targets give different data.
    pub fn set_target_intent_data(new_target: &Address) -> (data: Vec<u8>)
        ensures
            data@ == set_target_data(*new_target),
            data@ == "set_target".spec_bytes() + xdr_encoding(XdrView::Single(ScalarView::Addr(*new_target))),
            forall|t: Address| #[trigger] set_target_data(t) == data@ ==> t == *new_target,
    {
        let args = address_xdr(new_target);
        let data = encode_call_data("set_target", args.as_slice());
        assert forall|t: Address| #[trigger] set_target_data(t) == data@ implies t == *new_target by {
            lemma_call_data_separates_args("set_target".spec_bytes(), xdr_encoding(XdrView::Single(ScalarView::Addr(t))), args@);
        }
        data
    }

    /// Intent `data` for `set_owner`; different owners give different data.
    pub fn set_owner_intent_data(new_owner: &Address) -> (data: Vec<u8>)
        ensures
            data@ == set_owner_data(*new_owner),
            data@ == "set_owner".spec_bytes() + xdr_encoding(XdrView::Single(ScalarView::Addr(*new_owner))),
            forall|o: Address| #[trigger] set_owner_data(o) == data@ ==> o == *new_owner,
    {
        let args = address_xdr(new_owner);
        let data = encode_call_data("set_owner", args.as_slice());
        assert forall|o: Address| #[trigger] set_owner_data(o) == data@ implies o == *new_owner by {
            lemma_call_data_separates_args("set_owner".spec_bytes(), xdr_encoding(XdrView::Single(ScalarView::Addr(o))), args@);
        }
        data
    }

    /// Intent `data` for `set_operator`; a different account or flag gives
    /// different data.
    pub fn set_operator_intent_data(account: &Address, is_operator: bool) -> (data: Vec<u8>)
        ensures
            data@ == set_operator_data(*account, is_operator),
            data@ == "set_operator".spec_bytes() + xdr_encoding(
                XdrView::Tuple(seq![ScalarView::Addr(*account), ScalarView::Bool(is_operator)]),
            ),
            forall|a: Address, f: bool| #[trigger] set_operator_data(a, f) == data@ ==> a == *account && f == is_operator,
    {
        let items: Vec<Scalar> = vec![Scalar::Addr(*account), Scalar::Bool(is_operator)];
        let payload = XdrValue::Tuple(items);
        assert(items@.map_values(|s: Scalar| s@) =~= seq![
            ScalarView::Addr(*account),
            ScalarView::Bool(is_operator),
        ]);
        let args = to_xdr(&payload);
        let data = encode_call_data("set_operator", args.as_slice());
        assert forall|a: Address, f: bool| #[trigger] set_operator_data(a, f) == data@ implies a == *account && f == is_operator by {
            let w = XdrView::Tuple(seq![ScalarView::Addr(a), ScalarView::Bool(f)]);
            lemma_call_data_separates_args("set_operator".spec_bytes(), xdr_encoding(w), args@);
            assert(encodable(w));
            assert(w == payload@);
            assert(w->Tuple_0[0] == payload@->Tuple_0[0]);
            assert(w->Tuple_0[1] == payload@->Tuple_0[1]);
        }
        data
    }

    /// Intent `data` for `set_public_forward`; the two flags give different data.
    pub fn set_public_forward_intent_data(enabled: bool) -> (data: Vec<u8>)
        ensures
            data@ == set_public_forward_data(enabled),
            data@ == "set_public_forward".spec_bytes() + xdr_encoding(XdrView::Single(ScalarView::Bool(enabled))),
            forall|e: bool| #[trigger] set_public_forward_data(e) == data@ ==> e == enabled,
    {
        let args = bool_xdr(enabled);
        let data = encode_call_data("set_public_forward", args.as_slice());
        assert forall|e: bool| #[trigger] set_public_forward_data(e) == data@ implies e == enabled by {
            lemma_call_data_separates_args("set_public_forward".spec_bytes(), xdr_encoding(XdrView::Single(ScalarView::Bool(e))), args@);
        }
        data
    }

    /// Intent `data` for `forward`, from the XDR of the forwarded
    /// `(fn_name, args)`; different calls give different data.
    pub fn forward_intent_data(call_xdr: &[u8]) -> (data: Vec<u8>)
        ensures
            data@ == forward_data(call_xdr@),
            data@ == "forward".spec_bytes() + call_xdr@,
            forall|x: Seq<u8>| #[trigger] forward_data(x) == data@ ==> x == call_xdr@,
    {
        let data = encode_call_data("forward", call_xdr);
        assert forall|x: Seq<u8>| #[trigger] forward_data(x) == data@ implies x == call_xdr@ by {
            lemma_call_data_separates_args("forward".spec_bytes(), x, call_xdr@);
        }
        data
    }

    /// Forward a call to `target` after Trustline validation. The initiator
    /// must authorize, in every case (also when forwarding is public); then,
    /// unless forwarding is public, it must be an operator (its stored flag is
    /// `initiator_is_operator`, consulted only when forwarding is not public),
    /// else the call is `Unauthorized`. `call_xdr` is the XDR of the forwarded
    /// `(fn_name, args)`.
    pub fn forward(&self, initiator: Address, initiator_is_operator: bool, call_xdr: &[u8]) -> (r: Authorized<
        Result<ForwardPlan, FirewallError>,
    >)
        ensures
            r.authorizer == initiator,
            r.outcome is Ok <==> forward_permitted(self.public_forward, initiator_is_operator),
            r.outcome is Err ==> r.outcome == Err::<ForwardPlan, FirewallError>(FirewallError::Unauthorized),
            r.outcome matches Ok(plan) ==> {
                &&& plan.guard matches TrustlineGuard::Plain { sender, value, data }
                &&& sender == initiator
                &&& value == 0
                &&& data@ == forward_data(call_xdr@)
                &&& plan.target == self.target
            },
    {
        let outcome = match forward_access(self.public_forward, initiator_is_operator) {
            Err(e) => Err(e),
            Ok(()) => {
                let data = Self::forward_intent_data(call_xdr);
                Ok(ForwardPlan { guard: TrustlineGuard::Plain { sender: initiator, value: 0, data }, target: self.target })
            },
        };
        Authorized { authorizer: initiator, outcome }
    }
}

/// The intent data of each configuration change is the change's name followed
/// by the XDR of its arguments, exactly as given: `set_target` and
/// `set_owner` encode the address alone, `set_operator` the tuple
/// `(account, is_operator)` for either value of the flag,
/// `set_public_forward` the flag alone, and `forward` the XDR of the
/// forwarded call unchanged.
pub proof fn lemma_admin_intent_data_layout(a: Address, f: bool, call_xdr: Seq<u8>)
    ensures
        set_target_data(a) == "set_target".spec_bytes() + xdr_encoding(
            XdrView::Single(ScalarView::Addr(a)),
        ),
        set_owner_data(a) == "set_owner".spec_bytes() + xdr_encoding(
            XdrView::Single(ScalarView::Addr(a)),
        ),
        set_operator_data(a, f) == "set_operator".spec_bytes() + xdr_encoding(
            XdrView::Tuple(seq![ScalarView::Addr(a), ScalarView::Bool(f)]),
        ),
        set_public_forward_data(f) == "set_public_forward".spec_bytes() + xdr_encoding(
            XdrView::Single(ScalarView::Bool(f)),
        ),
        forward_data(call_xdr) == "forward".spec_bytes() + call_xdr,
{
}

/// Granting and revoking an operator bind the same account in the same tuple
/// shape; only the flag differs.
pub proof fn lemma_set_operator_data_grant_revoke(a: Address)
    ensures
        set_operator_data(a, true) == "set_operator".spec_bytes() + xdr_encoding(
            XdrView::Tuple(seq![ScalarView::Addr(a), ScalarView::Bool(true)]),
        ),
        set_operator_data(a, false) == "set_operator".spec_bytes() + xdr_encoding(
            XdrView::Tuple(seq![ScalarView::Addr(a), ScalarView::Bool(false)]),
        ),
{
}

/// The owner is not an operator by default: right after deployment the only
/// operator is the optional initial one.
pub proof fn lemma_initial_operators(
    target: Address,
    initial_owner: Address,
    initial_operator: Option<Address>,
    initial_public_forward: bool,
    account: Address,
)
    ensures
        initial_view(target, initial_owner, initial_operator, initial_public_forward).operators.contains(
            account,
        ) <==> initial_operator == Some(account),
        initial_operator is None ==> !initial_view(
            target,
            initial_owner,
            initial_operator,
            initial_public_forward,
        ).operators.contains(initial_owner),
{
}

/// Granting an account the operator flag lets it use `forward`; revoking the
/// flag shuts it out again while forwarding is not public.
pub proof fn lemma_operator_flag_governs_forward(v: FirewallView, account: Address)
    ensures
        forward_permitted(
            with_operator(v, account, true).public_forward,
            with_operator(v, account, true).operators.contains(account),
        ),
        !v.public_forward ==> !forward_permitted(
            with_operator(v, account, false).public_forward,
            with_operator(v, account, false).operators.contains(account),
        ),
{
}

/// Changing one account's operator flag leaves every other account's flag,
/// and the rest of the state, as it was.
pub proof fn lemma_operator_update_is_local(
    v: FirewallView,
    account: Address,
    is_operator: bool,
    other: Address,
)
    requires
        other != account,
    ensures
        with_operator(v, account, is_operator).operators.contains(other) == v.operators.contains(
            other,
        ),
        with_operator(v, account, is_operator).target == v.target,
        with_operator(v, account, is_operator).owner == v.owner,
        with_operator(v, account, is_operator).public_forward == v.public_forward,
{
}

/// With public forwarding on, every initiator may use `forward`; with it off,
/// exactly the operators may.
pub proof fn lemma_public_forward_governs_forward(v: FirewallView, initiator: Address)
    ensures
        forward_permitted(
            with_public_forward(v, true).public_forward,
            with_public_forward(v, true).operators.contains(initiator),
        ),
        forward_permitted(
            with_public_forward(v, false).public_forward,
            with_public_forward(v, false).operators.contains(initiator),
        ) <==> v.operators.contains(initiator),
{
}

/// After `set_owner(new_owner)` the new owner is the one whose authorization
/// and intent every later configuration change requires; changing the target,
/// the owner or the public flag leaves the operator set unchanged.
pub proof fn lemma_configuration_changes(v: FirewallView, a: Address, b: bool)
    ensures
        with_owner(v, a).owner == a,
        with_owner(v, a).operators == v.operators,
        with_target(v, a).operators == v.operators,
        with_target(v, a).owner == v.owner,
        with_public_forward(v, b).operators == v.operators,
        with_public_forward(v, b).owner == v.owner,
{
}

} // verus!
