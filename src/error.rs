//! Errors raised by this crate.
use vstd::prelude::*;

verus! {

/// All errors raised by this crate are instances of this type.
#[derive(Debug, Clone, PartialEq, Eq)]
pub enum SubstraitExprError {
    /// A message handed to the crate is missing a required part.
    InvalidSubstrait(String),
    /// The caller asked for something the library cannot do.
    InvalidInput(String),
}

impl SubstraitExprError {
    pub open spec fn is_invalid_input(&self) -> bool {
        self is InvalidInput
    }

    pub open spec fn is_invalid_substrait(&self) -> bool {
        self is InvalidSubstrait
    }

    /// Shortcut for creating an `InvalidInput` error from a message.
    pub fn invalid_input(message: &str) -> (r: Self)
        ensures
            r matches SubstraitExprError::InvalidInput(m) && m@ == message@,
    {
        SubstraitExprError::InvalidInput(message.to_owned())
    }

    /// Shortcut for creating an `InvalidSubstrait` error from a message.
    pub fn invalid_substrait(message: &str) -> (r: Self)
        ensures
            r matches SubstraitExprError::InvalidSubstrait(m) && m@ == message@,
    {
        SubstraitExprError::InvalidSubstrait(message.to_owned())
    }
}

} // verus!
