//! The transfer operation.

use vstd::prelude::*;
use anchor_lang::error::Error;
use crate::state::MintAccount;

verus! {

/// The accounts of a transfer: the mint that holders leave and the mint that
/// they move to. Nothing is asked of how the two relate; they may even be the
/// same mint.
#[derive(Clone, Copy, Debug, PartialEq, Eq)]
pub struct Transfer {
    pub original_mint: MintAccount,
    pub new_mint: MintAccount,
}

/// Transfers `_amount` tokens between the two mints of `ctx`.
///
/// The operation moves no tokens yet. It succeeds for every pair of mints and
/// every amount, and leaves both accounts exactly as it found them: no supply,
/// authority or address changes.
pub fn transfer(ctx: &mut Transfer, _amount: u64) -> (res: Result<(), Error>)
    ensures
        res == Ok::<(), Error>(()),
        *final(ctx) == *old(ctx),
{
    Ok(())
}

} // verus!
