use soroban_sdk::xdr::{AccountId, ContractId, PublicKey, ScAddress, ToXdr, Uint256};
use soroban_sdk::TryFromVal;
use soroban_sdk::Env;

use trustline_sdk::engine::{enforce, query, EngineCall, EngineRequest};
use trustline_sdk::firewall::{
    forward_access, operator_flag_update, ttl_extension, FirewallError, FirewallEvent,
    OperatorFlagUpdate, OperatorWrite,
};
use trustline_sdk::forwarder::PaymentError;
use trustline_sdk::mock_engine::EngineError;
use trustline_sdk::{
    check_status_addrs, check_trustline_status, encode_call_data, require_trustline,
    require_trustline_addrs, require_trustline_adv, validation_engine, Address,
    MockValidationEngine, PaymentForwarder, ProtectedCounter, SdkError, TestTrustlinedClient,
    TrustlineFirewall, TrustlineGuard, ValidationMode,
};

fn addr(n: u8) -> Address {
    Address::Contract([n; 32])
}

fn account(n: u8) -> Address {
    Address::Account([n; 32])
}

fn sdk_address(env: &Env, a: &Address) -> soroban_sdk::Address {
    let sc = match a {
        Address::Contract(id) => ScAddress::Contract(ContractId(soroban_sdk::xdr::Hash(*id))),
        Address::Account(k) => {
            ScAddress::Account(AccountId(PublicKey::PublicKeyTypeEd25519(Uint256(*k))))
        }
    };
    soroban_sdk::Address::try_from_val(env, &sc).unwrap()
}

fn guard_parts(g: &TrustlineGuard) -> (Address, i128, Vec<u8>, Option<Vec<Address>>) {
    match g {
        TrustlineGuard::Plain { sender, value, data } => (*sender, *value, data.clone(), None),
        TrustlineGuard::WithAddresses { sender, value, data, addresses } => {
            (*sender, *value, data.clone(), Some(addresses.clone()))
        }
    }
}

// ---- protected counter ----

#[test]
fn bump_requires_admin() {
    let admin = addr(1);
    let mut counter = ProtectedCounter::new(admin);
    assert_eq!(counter.admin(), admin);
    let bumped = counter.bump();
    assert_eq!(bumped.authorizer, admin);
    assert_eq!(bumped.outcome, 1);
    assert_eq!(counter.count(), 1);
}

#[test]
fn set_admin_transfers_privilege() {
    let deployer = addr(1);
    let firewall = addr(2);
    let mut counter = ProtectedCounter::new(deployer);
    let authorizer = counter.set_admin(firewall);
    assert_eq!(authorizer, deployer);
    assert_eq!(counter.admin(), firewall);
}

#[test]
fn counter_reads_missing_count_as_zero() {
    let c = ProtectedCounter::from_storage(addr(1), None);
    assert_eq!(c.count(), 0);
    let c = ProtectedCounter::from_storage(addr(1), Some(41));
    assert_eq!(c.count(), 41);
}

#[test]
fn bump_counts_up_and_keeps_admin() {
    let mut c = ProtectedCounter::from_storage(addr(3), Some(u32::MAX - 1));
    assert_eq!(c.bump().outcome, u32::MAX);
    assert_eq!(c.admin(), addr(3));
}

// ---- integration helpers and the trustlined test client ----

#[test]
fn uses_provided_validation_engine_directly() {
    let sender = account(1);
    let target = addr(2);
    let mock_id = addr(3);
    let protocol = addr(4);
    let mock = MockValidationEngine::new(true);

    assert_eq!(validation_engine(Some(mock_id)), Ok(mock_id));

    let req = enforce(Some(mock_id), protocol, TestTrustlinedClient::guarded_no_args(sender).outcome).unwrap();
    assert_eq!(req.engine, mock_id);
    assert_eq!(req.protocol, protocol);
    match &req.call {
        EngineCall::RequireTrustline { sender: s, value, data } => {
            assert_eq!(*s, sender);
            assert_eq!(*value, 0);
            assert_eq!(data.as_slice(), b"guarded_no_args");
            assert_eq!(mock.require_trustline(&protocol, s, *value, data).outcome, Ok(()));
        }
        other => panic!("unexpected call {:?}", other),
    }

    let req = enforce(Some(mock_id), protocol, TestTrustlinedClient::guarded_with_address(sender, target).outcome).unwrap();
    match &req.call {
        EngineCall::RequireTrustlineAddrs { sender: s, value, data, addresses } => {
            assert_eq!(*s, sender);
            assert_eq!(*value, 0);
            assert_eq!(data.as_slice(), b"guarded_with_address");
            assert_eq!(addresses, &vec![target]);
            assert_eq!(mock.require_trustline_addrs(&protocol, s, *value, data, addresses).outcome, Ok(()));
        }
        other => panic!("unexpected call {:?}", other),
    }
}

#[test]
#[should_panic(expected = "Not compliant")]
fn guarded_fails_when_engine_rejects() {
    let sender = account(1);
    let protocol = addr(4);
    let mut mock = MockValidationEngine::new(true);
    mock.set_should_pass(false);
    let guarded = TestTrustlinedClient::guarded_no_args(sender);
    assert_eq!(guarded.authorizer, sender);
    let (s, value, data, _) = guard_parts(&guarded.outcome);
    let r = mock.require_trustline(&protocol, &s, value, &data);
    assert_eq!(r.authorizer, protocol);
    r.outcome.expect("Not compliant");
}

#[test]
fn check_trustline_status_reflects_engine() {
    let sender = account(1);
    let protocol = addr(4);
    let mut mock = MockValidationEngine::new(true);
    let (s, value, data, _) = guard_parts(&TestTrustlinedClient::can_pass_no_args(sender));

    assert!(mock.check_trustline_status(&protocol, &s, value, &data));

    mock.set_should_pass(false);
    assert!(!mock.check_trustline_status(&protocol, &s, value, &data));
}

#[test]
fn helpers_refuse_without_configured_engine() {
    let e = SdkError::ValidationEngineNotConfigured;
    assert_eq!(validation_engine(None), Err(e));
    assert!(matches!(require_trustline(None, addr(1), addr(2), 5, vec![1]), Err(x) if x == e));
    assert!(matches!(require_trustline_addrs(None, addr(1), addr(2), 5, vec![1], vec![addr(3)]), Err(x) if x == e));
    assert!(matches!(
        require_trustline_adv(None, addr(1), ValidationMode::Dapp, addr(2), 5, vec![1], vec![]),
        Err(x) if x == e
    ));
    assert!(matches!(check_trustline_status(None, addr(1), addr(2), 5, vec![1]), Err(x) if x == e));
    assert!(matches!(check_status_addrs(None, addr(1), addr(2), 5, vec![1], vec![]), Err(x) if x == e));
}

#[test]
fn helpers_address_the_configured_engine() {
    let r: EngineRequest = require_trustline_adv(
        Some(addr(9)), addr(1), ValidationMode::Dapp, addr(2), 5, vec![1, 2], vec![addr(3)],
    )
    .unwrap();
    assert_eq!(r.engine, addr(9));
    assert_eq!(r.protocol, addr(1));
    assert!(matches!(
        r.call,
        EngineCall::RequireTrustlineAdv { mode: ValidationMode::Dapp, value: 5, .. }
    ));
    let q = check_trustline_status(Some(addr(9)), addr(1), addr(2), 7, vec![3]).unwrap();
    assert!(matches!(q.call, EngineCall::CheckTrustlineStatus { value: 7, .. }));
    let q = check_status_addrs(Some(addr(9)), addr(1), addr(2), 7, vec![3], vec![addr(5)]).unwrap();
    assert!(matches!(q.call, EngineCall::CheckStatusAddrs { value: 7, .. }));
}

#[test]
fn can_pass_queries_the_guarded_intent() {
    let sender = account(7);
    let enforced = guard_parts(&TestTrustlinedClient::guarded_no_args(sender).outcome);
    let queried = guard_parts(&TestTrustlinedClient::can_pass_no_args(sender));
    assert_eq!(enforced, queried);
    let q = query(Some(addr(9)), addr(1), TestTrustlinedClient::can_pass_no_args(sender)).unwrap();
    assert!(matches!(q.call, EngineCall::CheckTrustlineStatus { value: 0, .. }));
}

// ---- mock engine ----

#[test]
fn mock_engine_follows_its_flag() {
    let p = addr(1);
    let s = addr(2);
    let unset = MockValidationEngine { stored_should_pass: None };
    assert!(unset.should_pass());
    let mut m = MockValidationEngine::new(false);
    assert!(!m.should_pass());
    let r = m.require_trustline(&p, &s, 1, b"x");
    assert_eq!(r.authorizer, p);
    assert_eq!(r.outcome, Err(EngineError::NotCompliant));
    assert_eq!(m.require_trustline_adv(&p, ValidationMode::Dapp, &s, 1, b"x", &[]).outcome, Err(EngineError::NotCompliant));
    assert!(!m.check_status_addrs(&p, &s, 1, b"x", &[]));
    assert!(!m.check_status_adv(&p, ValidationMode::Dapp, &s, 1, b"x", &[]));
    m.set_should_pass(true);
    assert_eq!(m.require_trustline_adv(&p, ValidationMode::Dapp, &s, 1, b"x", &[]).outcome, Ok(()));
    assert!(m.check_status_adv(&p, ValidationMode::Dapp, &s, 1, b"x", &[]));
}

// ---- payment forwarder ----

#[test]
fn pay_native_intent_data_matches_soroban_encoding() {
    let env = Env::default();
    let token = addr(1);
    let dest = account(2);
    let data = PaymentForwarder::pay_native_intent_data(&token, &dest, 500);
    let args = (sdk_address(&env, &token), sdk_address(&env, &dest), 500i128).to_xdr(&env);
    let mut expected = b"pay_native".to_vec();
    expected.extend(args.iter());
    assert_eq!(data, expected);
}

#[test]
fn pay_tokens_intent_data_matches_soroban_encoding() {
    let env = Env::default();
    let dest = account(2);
    let token = addr(1);
    let data = PaymentForwarder::pay_tokens_intent_data(&dest, &token, 77);
    let args = (sdk_address(&env, &dest), sdk_address(&env, &token), 77i128).to_xdr(&env);
    let mut expected = b"pay_tokens".to_vec();
    expected.extend(args.iter());
    assert_eq!(data, expected);
}

#[test]
fn pay_native_guards_amount_and_screens_addresses() {
    let sender = account(1);
    let token = addr(2);
    let dest = account(3);
    let refused = PaymentForwarder::pay_native(sender, token, dest, 0);
    assert_eq!(refused.authorizer, sender);
    assert!(matches!(refused.outcome, Err(PaymentError::InvalidAmount)));
    assert!(matches!(PaymentForwarder::pay_native(sender, token, dest, -5).outcome, Err(PaymentError::InvalidAmount)));
    let accepted = PaymentForwarder::pay_native(sender, token, dest, 10);
    assert_eq!(accepted.authorizer, sender);
    let plan = accepted.outcome.unwrap();
    let (s, value, data, addresses) = guard_parts(&plan.guard);
    assert_eq!(s, sender);
    assert_eq!(value, 10);
    assert_eq!(data, PaymentForwarder::pay_native_intent_data(&token, &dest, 10));
    assert_eq!(addresses, Some(vec![dest, token]));
    assert_eq!(plan.transfer.token, token);
    assert_eq!(plan.transfer.from, sender);
    assert_eq!(plan.transfer.to, dest);
    assert_eq!(plan.transfer.amount, 10);
}

#[test]
fn pay_tokens_guards_with_zero_value() {
    let sender = account(1);
    let dest = account(3);
    let token = addr(2);
    assert!(matches!(PaymentForwarder::pay_tokens(sender, dest, token, 0).outcome, Err(PaymentError::InvalidAmount)));
    let accepted = PaymentForwarder::pay_tokens(sender, dest, token, 25);
    assert_eq!(accepted.authorizer, sender);
    let plan = accepted.outcome.unwrap();
    let (s, value, data, addresses) = guard_parts(&plan.guard);
    assert_eq!(s, sender);
    assert_eq!(value, 0);
    assert_eq!(data, PaymentForwarder::pay_tokens_intent_data(&dest, &token, 25));
    assert_eq!(addresses, Some(vec![dest, token]));
    assert_eq!(plan.transfer.amount, 25);
}

// ---- firewall ----

/// Operator entries as a test keeps them: the accounts whose entry holds `true`.
fn apply_write(operators: &mut Vec<Address>, w: &OperatorWrite) {
    operators.retain(|a| *a != w.account);
    if w.update == OperatorFlagUpdate::Store {
        operators.push(w.account);
    }
}

fn stored_flag(operators: &[Address], a: &Address) -> Option<bool> {
    if operators.contains(a) { Some(true) } else { None }
}

#[test]
fn firewall_owner_is_not_operator_by_default() {
    let owner = account(1);
    let (fw, write) = TrustlineFirewall::new(addr(2), owner, None, false);
    assert!(write.is_none());
    assert!(!TrustlineFirewall::is_operator(None));
    assert_eq!(fw.owner(), owner);
    assert_eq!(fw.target(), addr(2));
    assert!(!fw.public_forward());
    let r = fw.forward(owner, false, b"call");
    assert_eq!(r.authorizer, owner);
    assert!(matches!(r.outcome, Err(FirewallError::Unauthorized)));

    let op = account(4);
    let (_, write) = TrustlineFirewall::new(addr(2), owner, Some(op), false);
    let write = write.unwrap();
    assert_eq!(write.account, op);
    assert_eq!(write.update, OperatorFlagUpdate::Store);
}

#[test]
fn firewall_operator_grant_and_revoke() {
    let owner = account(1);
    let op = account(5);
    let (fw, _) = TrustlineFirewall::new(addr(2), owner, None, false);
    let mut operators: Vec<Address> = Vec::new();
    let is_op = |ops: &Vec<Address>| TrustlineFirewall::is_operator(stored_flag(ops, &op));
    assert!(fw.forward(op, is_op(&operators), b"c").outcome.is_err());

    let (plan, write) = fw.set_operator(op, true);
    assert_eq!(plan.authorizer, owner);
    let (s, v, data, _) = guard_parts(&plan.guard);
    assert_eq!((s, v), (owner, 0));
    assert_eq!(data, TrustlineFirewall::set_operator_intent_data(&op, true));
    assert!(matches!(plan.event, FirewallEvent::OperatorUpdated(e) if e.account == op && e.is_operator));
    apply_write(&mut operators, &write);
    assert!(is_op(&operators));
    let (_, write) = fw.set_operator(op, true);
    apply_write(&mut operators, &write);
    assert_eq!(operators, vec![op]);

    let r = fw.forward(op, is_op(&operators), b"c");
    assert_eq!(r.authorizer, op);
    let fp = r.outcome.unwrap();
    assert_eq!(fp.target, addr(2));
    let (s, v, data, _) = guard_parts(&fp.guard);
    assert_eq!((s, v), (op, 0));
    assert_eq!(data, b"forwardc".to_vec());

    let (_, write) = fw.set_operator(op, false);
    assert_eq!(write.update, OperatorFlagUpdate::Clear);
    apply_write(&mut operators, &write);
    assert!(!is_op(&operators));
    assert!(matches!(fw.forward(op, is_op(&operators), b"c").outcome, Err(FirewallError::Unauthorized)));
}

#[test]
fn firewall_public_forward_admits_anyone() {
    let owner = account(1);
    let (mut fw, _) = TrustlineFirewall::new(addr(2), owner, None, false);
    let plan = fw.set_public_forward(true);
    assert!(matches!(plan.event, FirewallEvent::PublicForwardUpdated(e) if e.enabled));
    assert!(fw.public_forward());
    let r = fw.forward(account(9), false, b"");
    assert_eq!(r.authorizer, account(9));
    assert!(r.outcome.is_ok());
    fw.set_public_forward(false);
    assert!(fw.forward(account(9), false, b"").outcome.is_err());
}

#[test]
fn firewall_reads_missing_public_flag_as_false() {
    let fw = TrustlineFirewall::from_storage(addr(2), account(1), None);
    assert!(!fw.public_forward());
    let fw = TrustlineFirewall::from_storage(addr(2), account(1), Some(true));
    assert!(fw.public_forward());
    assert!(TrustlineFirewall::is_operator(Some(true)));
    assert!(!TrustlineFirewall::is_operator(Some(false)));
}

#[test]
fn firewall_admin_changes_are_owner_guarded() {
    let owner = account(1);
    let new_owner = account(6);
    let (mut fw, _) = TrustlineFirewall::new(addr(2), owner, None, false);

    let plan = fw.set_target(addr(8));
    assert_eq!(plan.authorizer, owner);
    assert_eq!(fw.target(), addr(8));
    let (_, _, data, _) = guard_parts(&plan.guard);
    assert_eq!(data, TrustlineFirewall::set_target_intent_data(&addr(8)));

    let plan = fw.set_owner(new_owner);
    assert_eq!(plan.authorizer, owner);
    assert!(matches!(plan.event, FirewallEvent::OwnerUpdated(e) if e.old_owner == owner && e.new_owner == new_owner));
    assert_eq!(fw.owner(), new_owner);

    let plan = fw.set_public_forward(true);
    assert_eq!(plan.authorizer, new_owner);
    let (s, _, _, _) = guard_parts(&plan.guard);
    assert_eq!(s, new_owner);
}

#[test]
fn intent_data_binds_its_arguments() {
    assert_ne!(
        PaymentForwarder::pay_native_intent_data(&addr(1), &account(2), 5),
        PaymentForwarder::pay_native_intent_data(&addr(3), &account(2), 5)
    );
    assert_ne!(
        TrustlineFirewall::set_operator_intent_data(&addr(1), true),
        TrustlineFirewall::set_operator_intent_data(&addr(1), false)
    );
    assert_ne!(
        TrustlineFirewall::set_target_intent_data(&addr(1)),
        TrustlineFirewall::set_target_intent_data(&account(1))
    );
}

#[test]
fn firewall_intent_data_matches_soroban_encoding() {
    let env = Env::default();
    let t = addr(8);
    let mut expected = b"set_target".to_vec();
    expected.extend(sdk_address(&env, &t).to_xdr(&env).iter());
    assert_eq!(TrustlineFirewall::set_target_intent_data(&t), expected);

    let mut expected = b"set_owner".to_vec();
    expected.extend(sdk_address(&env, &t).to_xdr(&env).iter());
    assert_eq!(TrustlineFirewall::set_owner_intent_data(&t), expected);

    let mut expected = b"set_operator".to_vec();
    expected.extend((sdk_address(&env, &t), true).to_xdr(&env).iter());
    assert_eq!(TrustlineFirewall::set_operator_intent_data(&t, true), expected);

    let mut expected = b"set_public_forward".to_vec();
    expected.extend(false.to_xdr(&env).iter());
    assert_eq!(TrustlineFirewall::set_public_forward_intent_data(false), expected);

    assert_eq!(TrustlineFirewall::forward_intent_data(b"\x00\x01"), b"forward\x00\x01".to_vec());
}

#[test]
fn firewall_access_and_storage_decisions() {
    assert_eq!(forward_access(true, false), Ok(()));
    assert_eq!(forward_access(false, true), Ok(()));
    assert_eq!(forward_access(false, false), Err(FirewallError::Unauthorized));
    assert_eq!(operator_flag_update(true), OperatorFlagUpdate::Store);
    assert_eq!(operator_flag_update(false), OperatorFlagUpdate::Clear);
}

#[test]
fn ttl_extension_keeps_a_week_of_margin() {
    assert_eq!(ttl_extension(3_110_400), (3_110_400 - 120_960, 3_110_400));
    assert_eq!(ttl_extension(120_960), (0, 120_960));
    assert_eq!(ttl_extension(100), (0, 100));
}

#[test]
fn encode_call_data_name_boundary_is_ambiguous() {
    assert_eq!(encode_call_data("ab", b"c"), encode_call_data("a", b"bc"));
}

#[test]
fn firewall_public_flag_default() {
    assert!(!TrustlineFirewall::stored_public_forward(None));
    assert!(TrustlineFirewall::stored_public_forward(Some(true)));
}
