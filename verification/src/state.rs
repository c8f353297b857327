//! The accounts that the operations are handed, as plain values.

use vstd::prelude::*;

verus! {

/// The address of an account: the 32 bytes of its public key.
pub type Address = [u8; 32];

/// A token mint as an operation sees it: where it lives, and the state that the
/// token program keeps for it.
#[derive(Clone, Copy, Debug, PartialEq, Eq)]
pub struct MintAccount {
    /// The address of the mint's account.
    pub address: Address,
    /// Who may mint new tokens; `None` where the supply is fixed.
    pub mint_authority: Option<Address>,
    /// The total supply of tokens.
    pub supply: u64,
    /// The number of base-10 digits to the right of the decimal point.
    pub decimals: u8,
    /// Whether the mint has been initialized.
    pub is_initialized: bool,
    /// Who may freeze token accounts of this mint, if anybody.
    pub freeze_authority: Option<Address>,
}

} // verus!
