//! The checks on a horizon state, and the bundle that a synchronising node is handed.

pub mod chain_balance;
pub mod header_iter;
pub mod mmr_roots;

pub use chain_balance::ChainBalanceValidator;
pub use header_iter::{HeaderIter, SourceState};
pub use mmr_roots::MmrRootsValidator;

use crate::blocks::BlockHeader;
use crate::chain_storage::BlockchainBackend;
use crate::consensus::ConsensusRules;
use crate::crypto::CryptoFactories;
use crate::validation::chained::ChainedValidator;
use crate::validation::traits::{StatelessValidation, StatelessValidationExt};
use std::sync::Arc;
use vstd::prelude::*;

verus! {

/// The check of a horizon state that a node runs in production: that it balances, and
/// then the roots of its Merkle mountain ranges.
pub type FinalStateValidator<B, R> = ChainedValidator<ChainBalanceValidator<B, R>, MmrRootsValidator<B, R>>;

/// The checks that a node runs while it synchronises to a horizon state: one on each
/// header it is sent, and one on the state at the horizon height.
pub struct HorizonSyncValidators<THeader, TFinal> {
    pub header: Arc<THeader>,
    pub final_state: Arc<TFinal>,
}

impl<THeader, TFinal> Clone for HorizonSyncValidators<THeader, TFinal> {
    /// Another handle on the same two checks.
    fn clone(&self) -> (validators: Self)
        ensures
            validators == *self,
    {
        Self { header: self.header.clone(), final_state: self.final_state.clone() }
    }
}

impl<THeader, TFinal> HorizonSyncValidators<THeader, TFinal> where
    THeader: StatelessValidation<BlockHeader>,
    TFinal: StatelessValidation<u64>,
 {
    /// The bundle of the two checks.
    pub fn new(header: THeader, final_state: TFinal) -> (validators: Self)
        ensures
            *validators.header == header,
            *validators.final_state == final_state,
    {
        Self { header: Arc::new(header), final_state: Arc::new(final_state) }
    }
}

impl<THeader, B, R> HorizonSyncValidators<THeader, FinalStateValidator<B, R>> where
    THeader: StatelessValidation<BlockHeader>,
    B: BlockchainBackend,
    R: ConsensusRules,
 {
    /// The bundle that a node runs in production: `header` on each header, and on the
    /// state at the horizon height the balance check chained with the check of the roots,
    /// both on `db` and `rules`.
    pub fn full_consensus(header: THeader, db: Arc<B>, rules: Arc<R>, factories: CryptoFactories) -> (validators:
        Self)
        ensures
            *validators.header == header,
            validators.final_state.first.db() == &*db,
            validators.final_state.first.rules() == &*rules,
            validators.final_state.second.db() == &*db,
            validators.final_state.second.rules() == &*rules,
            !validators.final_state.second.checks_roots(),
    {
        Self::new(
            header,
            ChainBalanceValidator::new(db.clone(), rules.clone(), factories).chain(MmrRootsValidator::new(db, rules)),
        )
    }
}

} // verus!
