//! Why an operation on the ledger did not go through, and how that is shown outside.

use vstd::prelude::*;

verus! {

/// What is wrong with a payload.
#[derive(Clone, Copy, Debug, PartialEq, Eq, Structural)]
pub enum Rejection {
    /// The payload carries no description.
    DescriptionMissing,
    /// The description is empty or longer than ten characters.
    DescriptionLength,
    /// The kind is neither credit nor debit.
    UnknownKind,
    /// The amount is zero or negative.
    AmountNotPositive,
}

/// The ways in which posting a movement or reading a statement fails.
#[derive(Clone, Copy, Debug, PartialEq, Eq, Structural)]
pub enum LedgerError {
    /// The payload was refused before the store was touched.
    Validation(Rejection),
    /// The store holds no account under the given identifier.
    NotFound,
    /// The movement would take the balance below the credit limit.
    InvariantViolation,
    /// The store failed, or could not hold the result.
    Store,
}

/// Status of an answer that carries a result.
pub const STATUS_OK: u16 = 200;

/// Status of an answer to a request for an unknown account.
pub const STATUS_NOT_FOUND: u16 = 404;

/// Status of an answer to a request that cannot be processed.
pub const STATUS_UNPROCESSABLE: u16 = 422;

/// Status of an answer that reports a failure on the store's side.
pub const STATUS_STORE_FAILURE: u16 = 500;

impl LedgerError {
    /// The status under which each error is shown to the caller.
    pub open spec fn spec_status(self) -> u16 {
        match self {
            LedgerError::Validation(_) => STATUS_UNPROCESSABLE,
            LedgerError::NotFound => STATUS_NOT_FOUND,
            LedgerError::InvariantViolation => STATUS_UNPROCESSABLE,
            LedgerError::Store => STATUS_STORE_FAILURE,
        }
    }

    /// The status under which this error is shown to the caller.
    #[verifier::when_used_as_spec(spec_status)]
    pub fn status(self) -> (code: u16)
        ensures
            code == self.spec_status(),
    {
        match self {
            LedgerError::Validation(_) => STATUS_UNPROCESSABLE,
            LedgerError::NotFound => STATUS_NOT_FOUND,
            LedgerError::InvariantViolation => STATUS_UNPROCESSABLE,
            LedgerError::Store => STATUS_STORE_FAILURE,
        }
    }

    /// The short text that goes into the answer's body. It never carries
    /// anything that the store said.
    pub fn summary(self) -> (text: &'static str)
        ensures
            text@ == self.spec_summary(),
    {
        match self {
            LedgerError::Validation(Rejection::DescriptionMissing) => "descricao nulo",
            LedgerError::Validation(Rejection::DescriptionLength) => "descricao vazio ou maior que 10",
            LedgerError::Validation(Rejection::UnknownKind) => "Error",
            LedgerError::Validation(Rejection::AmountNotPositive) => "valor nao positivo",
            LedgerError::NotFound => "404",
            LedgerError::InvariantViolation => "422",
            LedgerError::Store => "500",
        }
    }

    /// The text of each error.
    pub open spec fn spec_summary(self) -> Seq<char> {
        match self {
            LedgerError::Validation(Rejection::DescriptionMissing) => "descricao nulo"@,
            LedgerError::Validation(Rejection::DescriptionLength) => "descricao vazio ou maior que 10"@,
            LedgerError::Validation(Rejection::UnknownKind) => "Error"@,
            LedgerError::Validation(Rejection::AmountNotPositive) => "valor nao positivo"@,
            LedgerError::NotFound => "404"@,
            LedgerError::InvariantViolation => "422"@,
            LedgerError::Store => "500"@,
        }
    }
}

/// The status of an answer: 200 where the operation went through, the status
/// of the error where it did not.
pub fn answer_status<T>(outcome: &Result<T, LedgerError>) -> (code: u16)
    ensures
        code == (match *outcome {
            Ok(_) => STATUS_OK,
            Err(error) => error.spec_status(),
        }),
{
    match outcome {
        Ok(_) => STATUS_OK,
        Err(error) => error.status(),
    }
}

} // verus!
