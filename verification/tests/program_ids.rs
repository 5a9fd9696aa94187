use subscriptions::pda::{associated_token_program_id, program_id, token_2022_program_id, token_program_id};

#[test]
fn program_ids_match_their_published_addresses() {
    assert_eq!(token_program_id().bytes, pinocchio_token::ID.to_bytes());
    assert_eq!(token_2022_program_id().bytes, pinocchio_token_2022::ID.to_bytes());
    assert_eq!(associated_token_program_id().bytes, pinocchio_associated_token_account::ID.to_bytes());
    assert_eq!(
        program_id().bytes,
        solana_address::Address::from_str_const("De1egAFMkMWZSN5rYXRj9CAdheBamobVNubTsi9avR44").to_bytes()
    );
    assert_eq!(pinocchio_system::ID.to_bytes(), [0u8; 32]);
}
