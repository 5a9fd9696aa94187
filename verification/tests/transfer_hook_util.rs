use subscriptions::address::Address;
use subscriptions::errors::SubscriptionsError;
use subscriptions::transfer_hook::{
    check_hook_accounts, find_extension_value, mint_transfer_hook_program_id, transfer_checked_data,
    EXTENSION_TYPE_TRANSFER_HOOK, TLV_START_INDEX, TRANSFER_HOOK_EXTENSION_LEN,
};

fn tlv_entry(ext_type: u16, value: &[u8]) -> Vec<u8> {
    let mut out = Vec::new();
    out.extend_from_slice(&ext_type.to_le_bytes());
    out.extend_from_slice(&(value.len() as u16).to_le_bytes());
    out.extend_from_slice(value);
    out
}

fn mint_with_tlv(tlv: &[u8]) -> Vec<u8> {
    let mut data = vec![0u8; TLV_START_INDEX];
    data.extend_from_slice(tlv);
    data
}

fn hook_value(authority: [u8; 32], program_id: [u8; 32]) -> Vec<u8> {
    let mut value = Vec::with_capacity(TRANSFER_HOOK_EXTENSION_LEN);
    value.extend_from_slice(&authority);
    value.extend_from_slice(&program_id);
    value
}

#[test]
fn base_only_mint_has_no_hook() {
    let data = vec![0u8; 82];
    assert_eq!(mint_transfer_hook_program_id(&data).unwrap(), None);
}

#[test]
fn no_transfer_hook_extension_returns_none() {
    let tlv = tlv_entry(1, &[0u8; 8]);
    let data = mint_with_tlv(&tlv);
    assert_eq!(mint_transfer_hook_program_id(&data).unwrap(), None);
}

#[test]
fn inert_hook_with_zero_program_id_returns_none() {
    let tlv = tlv_entry(EXTENSION_TYPE_TRANSFER_HOOK, &hook_value([7u8; 32], [0u8; 32]));
    let data = mint_with_tlv(&tlv);
    assert_eq!(mint_transfer_hook_program_id(&data).unwrap(), None);
}

#[test]
fn active_hook_returns_program_id() {
    let program_id = [9u8; 32];
    let tlv = tlv_entry(EXTENSION_TYPE_TRANSFER_HOOK, &hook_value([7u8; 32], program_id));
    let data = mint_with_tlv(&tlv);
    assert_eq!(mint_transfer_hook_program_id(&data).unwrap(), Some(Address::new_from_array(program_id)));
}

#[test]
fn finds_hook_after_other_extension() {
    let mut tlv = tlv_entry(1, &[0u8; 8]);
    tlv.extend_from_slice(&tlv_entry(EXTENSION_TYPE_TRANSFER_HOOK, &hook_value([1u8; 32], [3u8; 32])));
    let data = mint_with_tlv(&tlv);
    assert_eq!(mint_transfer_hook_program_id(&data).unwrap(), Some(Address::new_from_array([3u8; 32])));
}

#[test]
fn entry_length_past_buffer_is_rejected() {
    let mut tlv = Vec::new();
    tlv.extend_from_slice(&EXTENSION_TYPE_TRANSFER_HOOK.to_le_bytes());
    tlv.extend_from_slice(&64u16.to_le_bytes());
    tlv.extend_from_slice(&[0u8; 8]);
    let data = mint_with_tlv(&tlv);
    assert!(mint_transfer_hook_program_id(&data).is_err());
}

#[test]
fn trailing_partial_header_is_rejected() {
    let mut tlv = tlv_entry(1, &[0u8; 4]);
    tlv.extend_from_slice(&[0xAB, 0xCD]);
    let data = mint_with_tlv(&tlv);
    assert!(mint_transfer_hook_program_id(&data).is_err());
}

#[test]
fn wrong_length_hook_value_is_rejected() {
    let tlv = tlv_entry(EXTENSION_TYPE_TRANSFER_HOOK, &[5u8; 32]);
    let data = mint_with_tlv(&tlv);
    assert!(mint_transfer_hook_program_id(&data).is_err());
}

#[test]
fn trailing_zero_padding_is_accepted() {
    let mut tlv = tlv_entry(1, &[0u8; 4]);
    tlv.extend_from_slice(&[0u8, 0u8]);
    let data = mint_with_tlv(&tlv);
    assert_eq!(mint_transfer_hook_program_id(&data).unwrap(), None);
}

#[test]
fn single_trailing_byte_is_ignored() {
    let mut tlv = tlv_entry(1, &[0u8; 4]);
    tlv.push(0xAB);
    let data = mint_with_tlv(&tlv);
    assert_eq!(mint_transfer_hook_program_id(&data).unwrap(), None);
}

#[test]
fn finds_hook_before_trailing_padding() {
    let mut tlv = tlv_entry(EXTENSION_TYPE_TRANSFER_HOOK, &hook_value([1u8; 32], [3u8; 32]));
    tlv.extend_from_slice(&[0u8, 0u8]);
    let data = mint_with_tlv(&tlv);
    assert_eq!(mint_transfer_hook_program_id(&data).unwrap(), Some(Address::new_from_array([3u8; 32])));
}

#[test]
fn find_extension_value_returns_the_value_bytes() {
    let mut tlv = tlv_entry(1, &[1u8, 2, 3]);
    tlv.extend_from_slice(&tlv_entry(7, &[9u8, 8]));
    assert_eq!(find_extension_value(&tlv, 7).unwrap(), Some(&[9u8, 8][..]));
    assert_eq!(find_extension_value(&tlv, 5).unwrap(), None);
}

#[test]
fn hook_accounts_need_the_validation_account() {
    let validation = Address::new_from_array([4u8; 32]);
    let others = vec![Address::new_from_array([1u8; 32]), Address::new_from_array([2u8; 32])];
    assert_eq!(check_hook_accounts(&others, &validation), Err(SubscriptionsError::TransferHookValidationAccountMissing));
    let mut with = others.clone();
    with.push(validation);
    assert_eq!(check_hook_accounts(&with, &validation), Ok(()));
    let too_many = vec![validation; 61];
    assert_eq!(check_hook_accounts(&too_many, &validation), Err(SubscriptionsError::TransferHookTooManyAccounts));
}

#[test]
fn transfer_checked_data_layout() {
    let data = transfer_checked_data(0x0102_0304_0506_0708, 6);
    assert_eq!(data, vec![12u8, 8, 7, 6, 5, 4, 3, 2, 1, 6]);
}

#[test]
fn first_matching_entry_wins() {
    let mut tlv = tlv_entry(3, &[1, 2, 3]);
    tlv.extend(tlv_entry(7, &[4]));
    tlv.extend(tlv_entry(7, &[5, 6]));
    assert_eq!(find_extension_value(&tlv, 7).unwrap(), Some(&[4u8][..]));
    let mut stops = tlv_entry(3, &[1]);
    stops.extend([0u8, 0]);
    stops.extend(tlv_entry(7, &[5]));
    assert_eq!(find_extension_value(&stops, 7).unwrap(), None);
}
