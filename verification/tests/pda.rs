use subscriptions::address::Address;
use subscriptions::pda::{
    find_associated_token_address, find_delegation_pda, find_plan_pda, find_subscription_authority_pda,
    find_subscription_pda, find_transfer_context_pda, program_id, token_program_id, verify_plan_pda,
    verify_subscription_authority_pda,
};

fn addr(b: u8) -> Address {
    Address::new_from_array([b; 32])
}

#[test]
fn delegation_pda_is_deterministic_and_seed_sensitive() {
    let a = find_delegation_pda(&addr(1), &addr(2), &addr(3), 0).unwrap();
    let b = find_delegation_pda(&addr(1), &addr(2), &addr(3), 0).unwrap();
    let c = find_delegation_pda(&addr(1), &addr(2), &addr(3), 1).unwrap();
    assert_eq!(a, b);
    assert_ne!(a.0, c.0);
    assert_ne!(a.0, addr(1));
    assert_ne!(a.0, program_id());
}

#[test]
fn plan_pda_verifies_with_its_bump() {
    let (pda, bump) = find_plan_pda(&addr(5), 42).unwrap();
    assert_eq!(verify_plan_pda(&addr(5), 42, bump).unwrap(), pda);
    assert_ne!(find_plan_pda(&addr(5), 43).unwrap().0, pda);
}

#[test]
fn authority_pda_verifies_with_its_bump() {
    let (pda, bump) = find_subscription_authority_pda(&addr(5), &addr(6)).unwrap();
    assert_eq!(verify_subscription_authority_pda(&addr(5), &addr(6), bump).unwrap(), pda);
    assert_ne!(find_subscription_authority_pda(&addr(6), &addr(5)).unwrap().0, pda);
}

#[test]
fn other_derivations_differ() {
    let s = find_subscription_pda(&addr(1), &addr(2)).unwrap().0;
    let t = find_transfer_context_pda(&addr(1)).unwrap().0;
    let ata = find_associated_token_address(&addr(1), &token_program_id(), &addr(2)).unwrap().0;
    assert_ne!(s, t);
    assert_ne!(s, ata);
    assert_ne!(t, ata);
    assert_ne!(ata, addr(1));
}
