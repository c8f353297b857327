//! The program's entry points.

use vstd::prelude::*;
use anchor_lang::error::Error;
use crate::methods;
use crate::methods::Transfer;

verus! {

/// Entry point of the transfer instruction: hands the accounts and the amount
/// to [`methods::transfer`] and returns what it returns, which is
/// success, with the accounts unchanged.
pub fn transfer(ctx: &mut Transfer, amount: u64) -> (res: Result<(), Error>)
    ensures
        res == Ok::<(), Error>(()),
        *final(ctx) == *old(ctx),
{
    methods::transfer(ctx, amount)
}

} // verus!
