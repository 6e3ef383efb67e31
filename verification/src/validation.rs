//! What a check is, how checks fail, and how two checks become one.

pub mod chained;
pub mod error;
pub mod traits;

pub use chained::ChainedValidator;
pub use error::ValidationError;
pub use traits::{StatelessValidation, StatelessValidationExt, Validation};
