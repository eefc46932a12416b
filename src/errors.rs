use vstd::prelude::*;

verus! {

/// Every way an instruction can fail; a failed instruction changes no record.
#[derive(Clone, Copy, Debug, PartialEq, Eq, Structural)]
pub enum TokenFactoryError {
    /// The caller is not the authority of a token-level record.
    Unauthorized,
    /// The fee configuration is not acceptable.
    InvalidFeeConfig,
    /// The fee shares do not add up to the stored total.
    FeeSumMismatch,
    /// The exemption list already holds its maximum number of addresses.
    ExemptListFull,
    /// The address to remove is not in the exemption list.
    AddressNotExempt,
    /// A record or account does not belong to the given mint.
    InvalidMint,
    /// The fees exceed the amount transferred.
    InsufficientBalance,
    /// A checked arithmetic operation overflowed.
    ArithmeticOverflow,
    /// The records of this token already exist.
    TokenAlreadyInitialized,
    /// A fee is above the maximum allowed.
    FeeExceedsMaximum,
    /// The treasury account given is not the platform treasury.
    InvalidPlatformTreasury,
    /// The platform configuration already exists.
    PlatformAlreadyInitialized,
    /// The platform configuration does not exist yet.
    PlatformNotInitialized,
    /// The caller is not the platform authority.
    UnauthorizedPlatform,
}

} // verus!
