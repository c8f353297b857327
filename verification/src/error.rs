//! The error type that the operations report in.

use vstd::prelude::*;

verus! {

/// `anchor_lang::error::Error`, the error of every `anchor_lang::Result`.
///
/// The type is carried through as it is: nothing in the library builds a value
/// of it or looks inside one.
#[verifier::external_type_specification]
#[verifier::external_body]
pub struct ExError(anchor_lang::error::Error);

} // verus!
