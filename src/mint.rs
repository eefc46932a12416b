//! Reading the decimals of a token mint from its account data.
use vstd::prelude::*;

use spl_token_2022::solana_program::program_pack::Pack;

verus! {

/// Length of a mint account's data, without extensions.
pub const MINT_LEN: usize = 82;

/// Offset of the decimals byte in a mint account's data.
pub const DECIMALS_OFFSET: usize = 44;

/// Offset of the initialized flag in a mint account's data.
pub const IS_INITIALIZED_OFFSET: usize = 45;

/// The four bytes at `at` tag an optional address: little-endian 0 (absent) or 1 (present).
pub open spec fn is_option_tag(data: Seq<u8>, at: int) -> bool {
    &&& (data[at] == 0 || data[at] == 1)
    &&& data[at + 1] == 0
    &&& data[at + 2] == 0
    &&& data[at + 3] == 0
}

/// `data` is the data of an initialized mint: the mint authority's tag, the supply,
/// the decimals, the initialized flag set to 1, and the freeze authority's tag.
pub open spec fn is_initialized_mint(data: Seq<u8>) -> bool {
    &&& data.len() == MINT_LEN
    &&& is_option_tag(data, 0)
    &&& data[IS_INITIALIZED_OFFSET as int] == 1
    &&& is_option_tag(data, 46)
}

/// Relies on spl_token_2022's `Mint::unpack`: it accepts exactly the 82-byte data of an
/// initialized mint (valid tags of both optional authorities, initialized flag 1) and
/// reads the decimals from byte 44.
#[verifier::external_body]
pub(crate) fn unpack_mint_decimals(data: &[u8]) -> (r: Option<u8>)
    ensures
        r == (if is_initialized_mint(data@) {
            Some(data@[DECIMALS_OFFSET as int])
        } else {
            None
        }),
{
    spl_token_2022::state::Mint::unpack(data).ok().map(|mint| mint.decimals)
}

} // verus!
