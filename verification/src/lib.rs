//! Verified core of a token-delegation program: account layouts, instruction
//! payloads, transfer-limit accounting, plan and subscription lifecycle rules,
//! event encoding and the Token-2022 transfer-hook extension reader.

pub mod accounts;
pub mod address;
pub mod codec;
pub mod constants;
pub mod errors;
pub mod events;
pub mod instructions;
pub mod pda;
pub mod state;
pub mod token_account;
pub mod token_interface;
pub mod validation;
pub mod transfer_hook;
