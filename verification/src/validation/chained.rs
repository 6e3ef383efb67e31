//! Two checks run one after the other.

use crate::validation::error::ValidationError;
use crate::validation::traits::StatelessValidation;
use vstd::prelude::*;

verus! {

/// The check that runs `first` and then, where `first` passes, `second`.
pub struct ChainedValidator<A, B> {
    pub first: A,
    pub second: B,
}

impl<A, B> ChainedValidator<A, B> {
    pub fn new(first: A, second: B) -> (chained: Self)
        ensures
            chained.first == first,
            chained.second == second,
    {
        ChainedValidator { first, second }
    }
}

/// What a chain of two checks returns, given what `first` returned and what `second`
/// returns if it is run: the error of `first`, or else the result of `second`.
pub open spec fn chained_outcome(
    first: Result<(), ValidationError>,
    second: Result<(), ValidationError>,
) -> Result<(), ValidationError> {
    match first {
        Err(error) => Err(error),
        Ok(()) => second,
    }
}

impl<T, A: StatelessValidation<T>, B: StatelessValidation<T>> StatelessValidation<T> for ChainedValidator<A, B> {
    /// An outcome of the chain is an error of `first`, or an outcome of `second` on an item
    /// that `first` may pass.
    open spec fn admits(&self, item: &T, outcome: Result<(), ValidationError>) -> bool {
        ||| outcome is Err && self.first.admits(item, outcome)
        ||| self.first.admits(item, Ok(())) && self.second.admits(item, outcome)
    }

    fn validate(&self, item: &T) -> (outcome: Result<(), ValidationError>) {
        let first = self.first.validate(item);
        match first {
            Err(error) => Err(error),
            Ok(unit) => {
                assert(unit == ());
                self.second.validate(item)
            },
        }
    }
}

/// Where the first check fails, the chain returns its error as it is, whatever the second
/// check would do.
pub proof fn lemma_chain_first_fails<T, A: StatelessValidation<T>, B: StatelessValidation<T>>(
    chain: ChainedValidator<A, B>,
    item: &T,
    outcome: Result<(), ValidationError>,
)
    requires
        !chain.first.admits(item, Ok(())),
        chain.admits(item, outcome),
    ensures
        outcome is Err,
        chain.first.admits(item, outcome),
{
}

/// Where the first check passes, the chain returns what the second check returns.
pub proof fn lemma_chain_first_passes<T, A: StatelessValidation<T>, B: StatelessValidation<T>>(
    chain: ChainedValidator<A, B>,
    item: &T,
    outcome: Result<(), ValidationError>,
)
    requires
        forall|error: ValidationError| !chain.first.admits(item, Err(error)),
        chain.admits(item, outcome),
    ensures
        chain.second.admits(item, outcome),
{
    match outcome {
        Err(error) => {
            assert(!chain.first.admits(item, Err(error)));
        },
        Ok(()) => {},
    }
}

/// A chain passes only where both of its checks may pass.
pub proof fn lemma_chain_passes_iff_both<T, A: StatelessValidation<T>, B: StatelessValidation<T>>(
    chain: ChainedValidator<A, B>,
    item: &T,
)
    ensures
        chain.admits(item, Ok(())) <==> chain.first.admits(item, Ok(())) && chain.second.admits(
            item,
            Ok(()),
        ),
{
}

} // verus!
