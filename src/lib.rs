//! Fee accounting and authorization core of a token-issuance platform.
//!
//! The records of the platform and of each token are plain values here; every
//! instruction is a function from the records it reads to the records it writes,
//! with its outcome stated as a spec function and proved.
pub mod errors;
pub mod fees;
pub mod instructions;
pub mod laws;
pub mod mint;
pub mod pubkey;
pub mod state;

pub use errors::TokenFactoryError;
pub use fees::{compute_split, FeeSplit};
pub use instructions::initialize_platform::{handler as initialize_platform, InitializePlatform};
pub use instructions::initialize_token::{
    handler as initialize_token, InitializeToken, InitializeTokenBumps, InitializeTokenParams,
};
pub use instructions::manage_exemptions::{
    add_fee_exempt_address, remove_fee_exempt_address, ManageExemption,
};
pub use instructions::transfer_with_fee::{handler as transfer_with_fee, TransferPlan, TransferWithFee};
pub use instructions::update_fee_config::{
    handler as update_fee_config, UpdateFeeConfig, UpdateFeeConfigParams,
};
pub use instructions::update_platform_config::{
    handler as update_platform_config, UpdatePlatformConfig, UpdatePlatformConfigParams,
};
pub use pubkey::Pubkey;
pub use state::{FeeConfig, FeeExemptList, PlatformConfig, TokenConfig, TokenConfigV2};
