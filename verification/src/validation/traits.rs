//! The capability that every check implements.

use crate::validation::chained::ChainedValidator;
use crate::validation::error::ValidationError;
use vstd::prelude::*;

verus! {

/// A check of an item against a state that the caller brings along.
pub trait Validation<T, B>: Send + Sync {
    /// Whether `outcome` is a possible result of checking `item` against `db`. An
    /// implementation that does not say which outcomes it has admits them all.
    open spec fn admits(&self, item: &T, db: &B, outcome: Result<(), ValidationError>) -> bool {
        true
    }

    /// Checks `item` against `db`.
    fn validate(&self, item: &T, db: &B) -> (outcome: Result<(), ValidationError>)
        ensures
            self.admits(item, db, outcome),
    ;
}

/// A check of an item that needs nothing but the item.
pub trait StatelessValidation<T>: Send + Sync {
    /// Whether `outcome` is a possible result of checking `item`. An implementation that
    /// does not say which outcomes it has admits them all.
    open spec fn admits(&self, item: &T, outcome: Result<(), ValidationError>) -> bool {
        true
    }

    /// Checks `item`.
    fn validate(&self, item: &T) -> (outcome: Result<(), ValidationError>)
        ensures
            self.admits(item, outcome),
    ;
}

/// Chaining, for every stateless check.
pub trait StatelessValidationExt<T>: StatelessValidation<T> {
    /// The check that runs this check and then, where this one passes, `other`.
    fn chain<V: StatelessValidation<T>>(self, other: V) -> (chained: ChainedValidator<Self, V>) where
        Self: Sized,

        ensures
            chained.first == self,
            chained.second == other,
    {
        ChainedValidator::new(self, other)
    }
}

impl<T, U> StatelessValidationExt<T> for U where U: StatelessValidation<T> {

}

} // verus!
