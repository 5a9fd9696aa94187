//! On-chain account layouts. Every account is a packed little-endian record
//! whose first byte tells its kind.

pub mod common;
pub mod fixed_delegation;
pub mod header;
pub mod plan;
pub mod recurring_delegation;
pub mod subscription_authority;
pub mod subscription_delegation;
pub mod transfer_context;
pub mod up_to_delegation;
