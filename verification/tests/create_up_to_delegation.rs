use subscriptions::address::Address;
use subscriptions::constants::TIME_DRIFT_ALLOWED_SECS;
use subscriptions::errors::SubscriptionsError;
use subscriptions::instructions::create_up_to_delegation::CreateUpToDelegationData;

fn data(max_amount: u64, recipient: Address, expiry_ts: i64) -> CreateUpToDelegationData {
    CreateUpToDelegationData { nonce: 0, max_amount, recipient, expiry_ts, expected_subscription_authority_init_id: 0 }
}

fn recipient() -> Address {
    Address::new_from_array([7u8; 32])
}

#[test]
fn valid_passes() {
    assert!(data(100, recipient(), 0).validate(1_000).is_ok());
    assert!(data(100, recipient(), 2_000).validate(1_000).is_ok());
}

#[test]
fn zero_max_amount_rejected() {
    assert!(matches!(data(0, recipient(), 0).validate(1_000), Err(SubscriptionsError::UpToDelegationAmountZero)));
}

#[test]
fn zero_recipient_rejected() {
    assert!(matches!(data(100, Address::default(), 0).validate(1_000), Err(SubscriptionsError::InvalidAddress)));
}

#[test]
fn expiry_in_past_rejected() {
    assert!(matches!(data(100, recipient(), 500).validate(1_000), Err(SubscriptionsError::UpToDelegationExpiryInPast)));
}

#[test]
fn expiry_within_drift_tolerance_passes() {
    assert!(data(100, recipient(), 1_000 - TIME_DRIFT_ALLOWED_SECS).validate(1_000).is_ok());
}

#[test]
fn expiry_just_past_drift_tolerance_rejected() {
    assert!(matches!(
        data(100, recipient(), 1_000 - TIME_DRIFT_ALLOWED_SECS - 1).validate(1_000),
        Err(SubscriptionsError::UpToDelegationExpiryInPast)
    ));
}

#[test]
fn payload_roundtrip() {
    let d = data(100, recipient(), 2_000);
    let bytes = d.to_bytes();
    assert_eq!(bytes.len(), CreateUpToDelegationData::LEN);
    assert_eq!(CreateUpToDelegationData::load(&bytes).unwrap(), d);
    assert_eq!(CreateUpToDelegationData::load(&bytes[1..]), Err(SubscriptionsError::InvalidInstructionData));
}
