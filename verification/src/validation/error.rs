//! The one error type that every check reports with.

use crate::chain_storage::ChainStorageError;
use vstd::prelude::*;

verus! {

/// Why a check did not pass.
#[derive(Clone, Debug, PartialEq, Eq)]
pub enum ValidationError {
    /// The store failed. Its error is passed on as it came.
    StorageError(ChainStorageError),
    /// The unspent outputs do not balance with the emission, the kernels and the kernel
    /// offsets at `height`.
    BalanceMismatch { height: u64, message: String },
    /// The header declares another root of the Merkle mountain range of outputs.
    InvalidOutputMr,
    /// The header declares another root of the Merkle mountain range of kernels.
    InvalidKernelMr,
    /// A check could not be computed.
    CustomError(String),
}

/// Calls `format!` to write the text of a balance mismatch, which names the height.
#[verifier::external_body]
fn balance_mismatch_message(height: u64) -> (message: String) {
    format!(
        "Final state validation failed: The UTXO set did not balance with the expected emission at height {}",
        height
    )
}

impl ValidationError {
    /// The error of a horizon state that does not balance at `height`.
    pub fn balance_mismatch(height: u64) -> (error: ValidationError)
        ensures
            error matches ValidationError::BalanceMismatch { height: h, .. } && h == height,
    {
        ValidationError::BalanceMismatch { height, message: balance_mismatch_message(height) }
    }

    /// The error of a check that could not be computed, with the reason in words.
    pub fn custom_error(reason: &str) -> (error: ValidationError)
        ensures
            error matches ValidationError::CustomError(text) && text@ == reason@,
    {
        ValidationError::CustomError(reason.to_owned())
    }
}

} // verus!
