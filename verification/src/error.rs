//! The error taxonomy of the raffle engine.
//!
//! Every failed operation aborts the current request with exactly one of
//! these kinds; the host then discards all of the request's mutations.

use vstd::prelude::*;

verus! {

/// The kinds of failure a raffle operation can report.
#[derive(Clone, Copy, Debug, PartialEq, Eq, Structural)]
pub enum RaffleError {
    /// A required signature is missing, or the signer does not match the
    /// required authority.
    AuthorizationError,
    /// The operation was invoked against a raffle or config in the wrong
    /// status: not initialized, already initialized, not yet ended, already
    /// ended, randomness not requested or already requested.
    StateError,
    /// An out-of-range input: a fee above 10000 basis points, a zero ticket
    /// price, a zero ticket count, or a malformed payload.
    ValidationError,
    /// An overflow in a price, fee or ticket-count computation.
    ArithmeticError,
    /// The oracle result is absent, or the oracle account does not match the
    /// one this raffle recorded.
    ExternalDependencyError,
    /// An existing allocation record's back-references do not match the
    /// raffle or purchaser supplied.
    DataIntegrityError,
}

impl RaffleError {
    /// The stable numeric code under which the host reports this error.
    pub fn code(&self) -> (c: u32)
        ensures
            c == self.spec_code(),
    {
        match self {
            RaffleError::AuthorizationError => 0,
            RaffleError::StateError => 1,
            RaffleError::ValidationError => 2,
            RaffleError::ArithmeticError => 3,
            RaffleError::ExternalDependencyError => 4,
            RaffleError::DataIntegrityError => 5,
        }
    }

    /// The code of each error kind, as the host sees it.
    pub open spec fn spec_code(self) -> u32 {
        match self {
            RaffleError::AuthorizationError => 0,
            RaffleError::StateError => 1,
            RaffleError::ValidationError => 2,
            RaffleError::ArithmeticError => 3,
            RaffleError::ExternalDependencyError => 4,
            RaffleError::DataIntegrityError => 5,
        }
    }

    /// A short description of the error, for the host's logs.
    pub fn message(&self) -> &'static str {
        match self {
            RaffleError::AuthorizationError => "missing or mismatched signature",
            RaffleError::StateError => "operation not allowed in the current status",
            RaffleError::ValidationError => "out-of-range or malformed input",
            RaffleError::ArithmeticError => "arithmetic overflow",
            RaffleError::ExternalDependencyError => "oracle result absent or oracle account mismatch",
            RaffleError::DataIntegrityError => "allocation record does not match raffle or purchaser",
        }
    }
}

} // verus!
