use subscriptions::address::Address;
use subscriptions::state::common::AccountDiscriminator;
use subscriptions::state::plan::Plan;

fn make_plan(destinations: [Address; 4], pullers: [Address; 4]) -> Plan {
    let mut bytes = vec![0u8; Plan::LEN];
    bytes[0] = AccountDiscriminator::Plan.as_u8();
    let mut plan = Plan::load(&bytes).unwrap();
    plan.data.destinations = destinations;
    plan.data.pullers = pullers;
    plan
}

fn addr(byte: u8) -> Address {
    let mut a = [0u8; 32];
    a[0] = byte;
    Address::new_from_array(a)
}

#[test]
fn check_destination_rejects_zero_owned_receiver_with_partial_whitelist() {
    let merchant = addr(1);
    let plan = make_plan([merchant, Address::default(), Address::default(), Address::default()], [Address::default(); 4]);

    plan.check_destination(&merchant).unwrap();
    assert!(plan.check_destination(&Address::default()).is_err());
}

#[test]
fn check_destination_open_when_all_zero() {
    let plan = make_plan([Address::default(); 4], [Address::default(); 4]);
    plan.check_destination(&addr(7)).unwrap();
    plan.check_destination(&Address::default()).unwrap();
}

#[test]
fn can_pull_rejects_zero_caller_with_partial_whitelist() {
    let owner = addr(2);
    let puller = addr(3);
    let mut plan = make_plan([Address::default(); 4], [puller, Address::default(), Address::default(), Address::default()]);
    plan.owner = owner;

    plan.can_pull(&owner).unwrap();
    plan.can_pull(&puller).unwrap();
    assert!(plan.can_pull(&Address::default()).is_err());
}

#[test]
fn plan_bytes_roundtrip() {
    let mut plan = make_plan([addr(5), Address::default(), Address::default(), Address::default()], [addr(6); 4]);
    plan.owner = addr(9);
    plan.data.end_ts = 1_700_000_000;
    plan.data.terms.amount = 42;
    let bytes = plan.to_bytes();
    assert_eq!(bytes.len(), Plan::LEN);
    assert_eq!(Plan::load(&bytes).unwrap(), plan);
}

#[test]
fn open_pullers_mean_owner_only() {
    let owner = addr(2);
    let mut plan = make_plan([Address::default(); 4], [Address::default(); 4]);
    plan.owner = owner;
    plan.can_pull(&owner).unwrap();
    assert!(plan.can_pull(&addr(3)).is_err());
}
