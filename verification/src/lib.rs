//! Consensus checks that a node runs before it accepts a pruned ("horizon") chain state:
//! the unspent outputs and kernels it was given must balance against the emission schedule
//! and the kernel offsets of the headers up to the horizon, and their Merkle mountain range
//! roots must be those that the horizon header declares.
//!
//! Every check implements [`validation::StatelessValidation`]; checks are chained with
//! [`validation::StatelessValidationExt::chain`], and [`validators::HorizonSyncValidators`]
//! bundles the checks that a synchronising node needs.

pub mod blocks;
pub mod chain_storage;
pub mod consensus;
pub mod crypto;
pub mod transactions;
pub mod validation;
pub mod validators;
