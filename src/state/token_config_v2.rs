use vstd::prelude::*;

use crate::pubkey::Pubkey;

verus! {

/// A token record that also points to the token's off-chain metadata.
#[derive(Clone, Debug)]
pub struct TokenConfigV2 {
    /// Mint address.
    pub mint: Pubkey,
    /// Token name.
    pub name: String,
    /// Token symbol.
    pub symbol: String,
    /// Where the off-chain metadata document lives.
    pub uri: String,
    /// Token creator and authority.
    pub authority: Pubkey,
    /// Whether fees are enabled.
    pub fees_enabled: bool,
    /// Time of creation, in seconds since the Unix epoch.
    pub created_at: i64,
    /// The bump seed of the record's address.
    pub bump: u8,
}

impl TokenConfigV2 {
    /// Size of a stored record whose name, symbol and uri take the given numbers of
    /// bytes: discriminator, then the fields in order, each string after a 4-byte length.
    pub fn calculate_len(name_len: usize, symbol_len: usize, uri_len: usize) -> (r: usize)
        requires
            94 + name_len + symbol_len + uri_len <= usize::MAX,
        ensures
            r == 8 + 32 + 4 + name_len + 4 + symbol_len + 4 + uri_len + 32 + 1 + 8 + 1,
    {
        8 + 32 + 4 + name_len + 4 + symbol_len + 4 + uri_len + 32 + 1 + 8 + 1
    }

    /// The shape of the off-chain metadata document, as a template.
    pub fn metadata_standard() -> (r: &'static str)
        ensures
            r@ == METADATA_TEMPLATE@,
    {
        METADATA_TEMPLATE
    }
}

/// Template of the off-chain metadata document.
pub const METADATA_TEMPLATE: &'static str = r#"{
            "name": "Token Name",
            "symbol": "SYMBOL",
            "description": "Token description",
            "image": "https://...",
            "external_url": "https://...",
            "attributes": [],
            "properties": {
                "category": "fungible",
                "creators": []
            }
        }"#;

} // verus!
