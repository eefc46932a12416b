use vstd::prelude::*;

use crate::pubkey::Pubkey;

verus! {

/// The record made for a token when it is created.
#[derive(Clone, Debug)]
pub struct TokenConfig {
    /// Mint address.
    pub mint: Pubkey,
    /// Token name.
    pub name: String,
    /// Token symbol.
    pub symbol: String,
    /// Token creator and authority.
    pub authority: Pubkey,
    /// Whether fees are enabled.
    pub fees_enabled: bool,
    /// Time of creation, in seconds since the Unix epoch.
    pub created_at: i64,
    /// The bump seed of the record's address.
    pub bump: u8,
}

/// Longest token name, in characters.
pub const MAX_NAME_LEN: usize = 50;

/// Longest token symbol, in characters.
pub const MAX_SYMBOL_LEN: usize = 10;

impl TokenConfig {
    /// Name and symbol within their bounds.
    pub open spec fn wf(&self) -> bool {
        &&& self.name@.len() <= MAX_NAME_LEN
        &&& self.symbol@.len() <= MAX_SYMBOL_LEN
    }

    /// Size of a stored record whose name and symbol take `name_len` and `symbol_len`
    /// bytes: discriminator, then the fields in order, each string after a 4-byte length.
    pub fn calculate_len(name_len: usize, symbol_len: usize) -> (r: usize)
        requires
            90 + name_len + symbol_len <= usize::MAX,
        ensures
            r == 8 + 32 + 4 + name_len + 4 + symbol_len + 32 + 1 + 8 + 1,
    {
        8 + 32 + 4 + name_len + 4 + symbol_len + 32 + 1 + 8 + 1
    }
}

} // verus!
