use subscriptions::address::Address;
use subscriptions::errors::SubscriptionsError;
use subscriptions::events::{
    decode_event, Event, FixedTransferEvent, PlanUpdatedEvent, SubscriptionCancelledEvent, SubscriptionCreatedEvent,
    SubscriptionResumedEvent, SubscriptionTransferEvent, UpToTransferEvent, EVENT_IX_TAG_LE,
};

fn addr(b: u8) -> Address {
    Address::new_from_array([b; 32])
}

#[test]
fn fixed_transfer_roundtrip() {
    let event = FixedTransferEvent::new(addr(1), addr(2), addr(3), addr(4), 1_000_000, 500_000, addr(5), addr(6));
    let bytes = event.to_bytes();
    let decoded = decode_event(&bytes).unwrap();
    match decoded {
        Event::FixedTransfer(e) => {
            assert_eq!(e.delegation, addr(1));
            assert_eq!(e.delegator, addr(2));
            assert_eq!(e.delegatee, addr(3));
            assert_eq!(e.mint, addr(4));
            assert_eq!({ e.amount }, 1_000_000);
            assert_eq!({ e.remaining_amount }, 500_000);
            assert_eq!(e.receiver, addr(5));
            assert_eq!(e.receiver_token_account, addr(6));
        }
        _ => panic!("expected FixedTransfer event"),
    }
}

fn pullers() -> [Address; 4] {
    [addr(3), addr(4), addr(0), addr(0)]
}

#[test]
fn plan_updated_roundtrip() {
    let event = PlanUpdatedEvent::new(addr(1), addr(2), 1, 1_700_000_000, pullers());
    let bytes = event.to_bytes();
    let decoded = decode_event(&bytes).unwrap();
    match decoded {
        Event::PlanUpdated(e) => {
            assert_eq!(e.plan, addr(1));
            assert_eq!(e.owner, addr(2));
            assert_eq!(e.status, 1);
            assert_eq!({ e.end_ts }, 1_700_000_000);
            assert_eq!(e.pullers, pullers());
        }
        _ => panic!("expected PlanUpdated event"),
    }
}

#[test]
fn subscription_resumed_roundtrip() {
    let event = SubscriptionResumedEvent::new(addr(1), addr(2), 1_700_000_000);
    let bytes = event.to_bytes();
    let decoded = decode_event(&bytes).unwrap();
    match decoded {
        Event::SubscriptionResumed(e) => {
            assert_eq!(e.plan, addr(1));
            assert_eq!(e.subscriber, addr(2));
            assert_eq!({ e.resumed_ts }, 1_700_000_000);
        }
        _ => panic!("expected Resumed event"),
    }
}

#[test]
fn wire_format() {
    let event = SubscriptionResumedEvent::new(addr(1), addr(2), 99);
    let bytes = event.to_bytes();

    assert_eq!(&bytes[..8], &EVENT_IX_TAG_LE);
    assert_eq!(bytes[8], SubscriptionResumedEvent::DISCRIMINATOR);
    assert_eq!(&bytes[9..41], &addr(1).bytes[..]);
    assert_eq!(&bytes[41..73], &addr(2).bytes[..]);
    assert_eq!(&bytes[73..81], &99i64.to_le_bytes());
}

#[test]
fn subscription_transfer_roundtrip() {
    let event = SubscriptionTransferEvent::new(
        addr(1),
        addr(2),
        addr(3),
        addr(4),
        1_000_000,
        1_700_000_000,
        1_700_003_600,
        1_000_000,
        addr(5),
        addr(6),
        addr(7),
    );
    let bytes = event.to_bytes();
    let decoded = decode_event(&bytes).unwrap();
    match decoded {
        Event::SubscriptionTransfer(e) => {
            assert_eq!(e.subscription, addr(1));
            assert_eq!(e.plan, addr(2));
            assert_eq!(e.delegator, addr(3));
            assert_eq!(e.mint, addr(4));
            assert_eq!({ e.amount }, 1_000_000);
            assert_eq!({ e.period_start_ts }, 1_700_000_000);
            assert_eq!({ e.period_end_ts }, 1_700_003_600);
            assert_eq!({ e.amount_pulled_in_period }, 1_000_000);
            assert_eq!(e.receiver, addr(5));
            assert_eq!(e.receiver_token_account, addr(6));
            assert_eq!(e.puller, addr(7));
        }
        _ => panic!("expected SubscriptionTransfer event"),
    }
}

#[test]
fn up_to_transfer_roundtrip() {
    let event = UpToTransferEvent::new(addr(1), addr(2), addr(3), addr(4), 1_000_000, addr(5), addr(6));
    let bytes = event.to_bytes();
    let decoded = decode_event(&bytes).unwrap();
    match decoded {
        Event::UpToTransfer(e) => {
            assert_eq!(e.delegation, addr(1));
            assert_eq!(e.delegator, addr(2));
            assert_eq!(e.delegatee, addr(3));
            assert_eq!(e.mint, addr(4));
            assert_eq!({ e.amount }, 1_000_000);
            assert_eq!(e.recipient, addr(5));
            assert_eq!(e.receiver_token_account, addr(6));
        }
        _ => panic!("expected UpToTransfer event"),
    }
}

#[test]
fn zero_amount_roundtrip() {
    let event = UpToTransferEvent::new(addr(1), addr(2), addr(3), addr(4), 0, addr(5), addr(6));
    let bytes = event.to_bytes();
    match decode_event(&bytes).unwrap() {
        Event::UpToTransfer(e) => assert_eq!({ e.amount }, 0),
        _ => panic!("expected UpToTransfer event"),
    }
}

#[test]
fn created_and_cancelled_roundtrip() {
    let created = SubscriptionCreatedEvent::new(addr(1), addr(2), addr(3), 77);
    assert_eq!(decode_event(&created.to_bytes()).unwrap(), Event::SubscriptionCreated(created));
    let cancelled = SubscriptionCancelledEvent::new(addr(1), addr(2), 88);
    assert_eq!(decode_event(&cancelled.to_bytes()).unwrap(), Event::SubscriptionCancelled(cancelled));
}

#[test]
fn bad_tag_and_discriminator_are_refused() {
    let mut bytes = SubscriptionResumedEvent::new(addr(1), addr(2), 99).to_bytes();
    assert_eq!(decode_event(&bytes[..8]), Err(SubscriptionsError::InvalidEventTag));
    bytes[8] = 200;
    assert_eq!(decode_event(&bytes), Err(SubscriptionsError::InvalidEventDiscriminator));
    bytes[8] = SubscriptionResumedEvent::DISCRIMINATOR;
    bytes[0] ^= 1;
    assert_eq!(decode_event(&bytes), Err(SubscriptionsError::InvalidEventTag));
    bytes[0] ^= 1;
    bytes.push(0);
    assert_eq!(decode_event(&bytes), Err(SubscriptionsError::InvalidInstructionData));
}
