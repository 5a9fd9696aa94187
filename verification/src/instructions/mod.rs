//! Instruction payloads and the decisions each instruction makes.

pub mod create_fixed_delegation;
pub mod create_recurring_delegation;
pub mod create_up_to_delegation;
pub mod transfer;
pub mod create_plan;
pub mod delete_plan;
pub mod update_plan;
pub mod revoke_delegation;
pub mod cancel_subscription;
pub mod resume_subscription;
pub mod subscribe;
pub mod close_subscription_authority;
pub mod revoke_abandoned_delegation;
pub mod revoke_abandoned_subscription;
pub mod reclaim_excess_rent;
pub mod initialize_subscription_authority;
pub mod revoke_subscription_authority;
pub mod delegation;
pub mod transfer_context;
pub mod transfer_fixed_delegation;
pub mod transfer_recurring_delegation;
pub mod transfer_up_to;
pub mod introspection;
