//! Why a call was refused.

use vstd::prelude::*;

verus! {

/// The two kinds of failure that a caller can tell apart.
#[derive(Clone, Copy, Debug, PartialEq, Eq, Structural)]
pub enum ErrorKind {
    /// Required singleton configuration is absent.
    Configuration,
    /// The call's arguments, its caller or the record's state do not allow it.
    Validation,
}

/// The reason for which a call was refused. A refused call changes nothing.
#[derive(Clone, Copy, Debug, PartialEq, Eq, Structural)]
pub enum ContractError {
    /// No administrator was configured.
    AdminNotConfigured,
    /// No record is stored under the given id.
    NotFound,
    /// The caller does not hold the role the operation asks for.
    Unauthorized,
    /// The record's current status does not allow the operation.
    IllegalStatus,
    /// The amount is zero or negative.
    NonPositiveAmount,
    /// The escrow's timeout has passed.
    Expired,
    /// The escrow's timeout has not passed yet.
    NotYetExpired,
    /// The asset could not be moved between the two accounts.
    TransferFailed,
    /// A counter, a total or a timestamp would leave its range.
    Overflow,
}

impl ContractError {
    /// The kind under which each reason falls.
    pub open spec fn spec_kind(self) -> ErrorKind {
        match self {
            ContractError::AdminNotConfigured => ErrorKind::Configuration,
            _ => ErrorKind::Validation,
        }
    }

    /// The kind of this failure.
    #[verifier::when_used_as_spec(spec_kind)]
    pub fn kind(self) -> (k: ErrorKind)
        ensures
            k == self.spec_kind(),
    {
        match self {
            ContractError::AdminNotConfigured => ErrorKind::Configuration,
            _ => ErrorKind::Validation,
        }
    }
}

/// What a call without a value returns: the refusal, or success.
pub open spec fn outcome(refusal: Option<ContractError>) -> Result<(), ContractError> {
    match refusal {
        Some(e) => Err(e),
        None => Ok(()),
    }
}

} // verus!
