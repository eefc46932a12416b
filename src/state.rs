//! The records that the instructions read and write.
pub mod fee_config;
pub mod fee_exempt_list;
pub mod platform_config;
pub mod token_config;
pub mod token_config_v2;

pub use fee_config::FeeConfig;
pub use fee_exempt_list::FeeExemptList;
pub use platform_config::PlatformConfig;
pub use token_config::TokenConfig;
pub use token_config_v2::TokenConfigV2;


