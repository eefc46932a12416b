//! One module per instruction: what each one reads, checks and writes.
pub mod initialize_platform;
pub mod update_platform_config;
pub mod update_fee_config;
pub mod manage_exemptions;
pub mod transfer_with_fee;
pub mod initialize_token;
