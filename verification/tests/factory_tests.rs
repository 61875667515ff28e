use factory::AccountId;
use factory::CodeHash;
use factory::ContractType;
use factory::Error;
use factory::Factory;
use factory::HostOutcome;
use factory::InstanceHandle;

fn hash(b: u8) -> CodeHash {
    CodeHash { bytes: [b; 32] }
}

fn account(b: u8) -> AccountId {
    AccountId { bytes: [b; 32] }
}

fn handle(b: u8) -> InstanceHandle {
    InstanceHandle { bytes: [b; 32] }
}

#[test]
fn unregistered_category_is_unknown() {
    let f = Factory::new();
    assert_eq!(f.code_hash_of(ContractType::Erc20), Err(Error::UnknownHash));
    assert_eq!(f.code_hash_of(ContractType::Erc721), Err(Error::UnknownHash));
}

#[test]
fn register_then_query_returns_template() {
    let mut f = Factory::new();
    assert_eq!(f.add_code_hash(ContractType::Erc20, hash(0x11)), Ok(()));
    assert_eq!(f.code_hash_of(ContractType::Erc20), Ok(hash(0x11)));
    assert_eq!(f.code_hash_of(ContractType::Erc721), Err(Error::UnknownHash));
}

#[test]
fn register_twice_last_write_wins() {
    let mut f = Factory::new();
    assert_eq!(f.add_code_hash(ContractType::Erc20, hash(0x11)), Ok(()));
    assert_eq!(f.add_code_hash(ContractType::Erc20, hash(0x22)), Ok(()));
    assert_eq!(f.code_hash_of(ContractType::Erc20), Ok(hash(0x22)));
    assert_ne!(f.code_hash_of(ContractType::Erc20), Ok(hash(0x11)));
}

#[test]
fn register_does_not_touch_other_category() {
    let mut f = Factory::new();
    assert_eq!(f.add_code_hash(ContractType::Erc721, hash(0x33)), Ok(()));
    assert_eq!(f.add_code_hash(ContractType::Erc20, hash(0x11)), Ok(()));
    assert_eq!(f.code_hash_of(ContractType::Erc721), Ok(hash(0x33)));
}

#[test]
fn create_contract_without_template_fails() {
    let f = Factory::new();
    let alice = account(1);
    assert_eq!(f.create_contract(1000, 5), Err(Error::UnknownHash));
    assert_eq!(f.instance_of(alice), None);
}

#[test]
fn create_contract_resolves_registered_template() {
    let mut f = Factory::new();
    f.add_code_hash(ContractType::Erc20, hash(0xAA)).unwrap();
    let req = f.create_contract(1000, 5).unwrap();
    assert_eq!(req.code_hash, hash(0xAA));
    assert_eq!(req.init_value, 1000);
    assert_eq!(req.endowment, 5);
}

#[test]
fn deployed_instance_is_recorded() {
    let mut f = Factory::new();
    f.add_code_hash(ContractType::Erc20, hash(0xAA)).unwrap();
    let alice = account(1);
    f.create_contract(1000, 5).unwrap();
    assert_eq!(f.record_instance(alice, HostOutcome::Deployed(handle(0x01))), Ok(()));
    assert_eq!(f.instance_of(alice), Some(handle(0x01)));
}

#[test]
fn second_deployment_overwrites_entry() {
    let mut f = Factory::new();
    f.add_code_hash(ContractType::Erc20, hash(0xAA)).unwrap();
    let alice = account(1);
    f.record_instance(alice, HostOutcome::Deployed(handle(0x01))).unwrap();
    f.record_instance(alice, HostOutcome::Deployed(handle(0x02))).unwrap();
    assert_eq!(f.instance_of(alice), Some(handle(0x02)));
}

#[test]
fn deployment_for_one_caller_leaves_others_alone() {
    let mut f = Factory::new();
    f.add_code_hash(ContractType::Erc20, hash(0xAA)).unwrap();
    let alice = account(1);
    let bob = account(2);
    f.record_instance(alice, HostOutcome::Deployed(handle(0x01))).unwrap();
    f.record_instance(bob, HostOutcome::Deployed(handle(0x02))).unwrap();
    assert_eq!(f.instance_of(alice), Some(handle(0x01)));
    assert_eq!(f.instance_of(bob), Some(handle(0x02)));
}

#[test]
fn failed_deployment_changes_nothing() {
    let mut f = Factory::new();
    f.add_code_hash(ContractType::Erc20, hash(0xAA)).unwrap();
    let alice = account(1);
    f.record_instance(alice, HostOutcome::Deployed(handle(0x01))).unwrap();
    assert_eq!(f.record_instance(alice, HostOutcome::Failed), Err(Error::CreateError));
    assert_eq!(f.instance_of(alice), Some(handle(0x01)));
    assert_eq!(f.code_hash_of(ContractType::Erc20), Ok(hash(0xAA)));
}

#[test]
fn failed_deployment_on_empty_directory() {
    let mut f = Factory::new();
    f.add_code_hash(ContractType::Erc20, hash(0xAA)).unwrap();
    let alice = account(1);
    assert_eq!(f.record_instance(alice, HostOutcome::Failed), Err(Error::CreateError));
    assert_eq!(f.instance_of(alice), None);
}

#[test]
fn full_scenario() {
    let mut f = Factory::new();
    f.add_code_hash(ContractType::Erc20, hash(0xAA)).unwrap();
    assert_eq!(f.code_hash_of(ContractType::Erc20), Ok(hash(0xAA)));

    let alice = account(1);
    let bob = account(2);

    // Alice instantiates with constructor argument 1000 and 5 attached; the
    // host succeeds and assigns handle H1.
    let req1 = f.create_contract(1000, 5).unwrap();
    assert_eq!(req1.code_hash, hash(0xAA));
    f.record_instance(alice, HostOutcome::Deployed(handle(0x01))).unwrap();
    assert_eq!(f.instance_of(alice), Some(handle(0x01)));

    // Alice instantiates again; H2 overwrites H1.
    let req2 = f.create_contract(2000, 3).unwrap();
    assert_eq!(req2.init_value, 2000);
    assert_eq!(req2.endowment, 3);
    f.record_instance(alice, HostOutcome::Deployed(handle(0x02))).unwrap();
    assert_eq!(f.instance_of(alice), Some(handle(0x02)));

    // The non-fungible category was never registered: a query for it fails
    // and nothing is recorded for Bob.
    assert_eq!(f.code_hash_of(ContractType::Erc721), Err(Error::UnknownHash));
    assert_eq!(f.instance_of(bob), None);
}

#[test]
fn distinct_hashes_compare_unequal() {
    assert_eq!(hash(0x11), hash(0x11));
    assert_ne!(hash(0x11), hash(0x12));
    let mut a = hash(0x11);
    let b = hash(0x11);
    a.bytes[31] = 0x12;
    assert_ne!(a, b);
}

#[test]
fn accounts_differing_in_one_byte_are_distinct_callers() {
    let mut f = Factory::new();
    f.add_code_hash(ContractType::Erc20, hash(0xAA)).unwrap();
    let mut carol = account(3);
    let dave = account(3);
    carol.bytes[0] = 4;
    f.record_instance(carol, HostOutcome::Deployed(handle(0x07))).unwrap();
    assert_eq!(f.instance_of(dave), None);
    assert_eq!(f.instance_of(carol), Some(handle(0x07)));
}

#[test]
fn largest_balances_pass_through() {
    let mut f = Factory::new();
    f.add_code_hash(ContractType::Erc20, hash(0xFF)).unwrap();
    let req = f.create_contract(u128::MAX, u128::MAX).unwrap();
    assert_eq!(req.init_value, u128::MAX);
    assert_eq!(req.endowment, u128::MAX);
}
