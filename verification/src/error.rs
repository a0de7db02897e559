use cosmwasm_std::StdError;
use vstd::prelude::*;

verus! {

/// The store's own error type. Nothing is known of a value of it.
#[verifier::external_type_specification]
#[verifier::external_body]
pub struct ExStdError(StdError);

/// Why a call was turned down.
#[derive(Debug)]
pub enum ContractError {
    /// The store could not read or write a record.
    Std(StdError),
    /// The caller may not do this, or the session key is already taken.
    NotAuthorized,
    /// The address is registered already.
    UserExists,
    /// No user is filed under the address or id.
    UserNotFound,
    /// The session was found, but its time has run out.
    SessionExpired,
    /// No session is filed under the key.
    SessionNotFound,
}

/// `cosmwasm_std::StdError::overflow`: the error of an addition whose sum
/// does not fit.
#[verifier::external_body]
pub(crate) fn add_overflow(a: u64, b: u64) -> StdError {
    StdError::overflow(cosmwasm_std::OverflowError::new(cosmwasm_std::OverflowOperation::Add, a, b))
}

/// The kind of a refusal, without what the store said.
#[derive(Clone, Copy, Debug, PartialEq, Eq, Structural)]
pub enum ErrorKind {
    Std,
    NotAuthorized,
    UserExists,
    UserNotFound,
    SessionExpired,
    SessionNotFound,
}

impl ContractError {
    pub open spec fn spec_kind(&self) -> ErrorKind {
        match *self {
            ContractError::Std(_) => ErrorKind::Std,
            ContractError::NotAuthorized => ErrorKind::NotAuthorized,
            ContractError::UserExists => ErrorKind::UserExists,
            ContractError::UserNotFound => ErrorKind::UserNotFound,
            ContractError::SessionExpired => ErrorKind::SessionExpired,
            ContractError::SessionNotFound => ErrorKind::SessionNotFound,
        }
    }

    /// The kind of this refusal.
    #[verifier::when_used_as_spec(spec_kind)]
    pub fn kind(&self) -> (k: ErrorKind)
        ensures
            k == self.spec_kind(),
    {
        match self {
            ContractError::Std(_) => ErrorKind::Std,
            ContractError::NotAuthorized => ErrorKind::NotAuthorized,
            ContractError::UserExists => ErrorKind::UserExists,
            ContractError::UserNotFound => ErrorKind::UserNotFound,
            ContractError::SessionExpired => ErrorKind::SessionExpired,
            ContractError::SessionNotFound => ErrorKind::SessionNotFound,
        }
    }
}

} // verus!
