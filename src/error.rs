//! The ways in which a vault operation fails.
use vstd::prelude::*;

verus! {

/// Why an operation of the vault failed. Each carries a message.
#[derive(Clone, Debug, PartialEq, Eq)]
pub enum ContractError {
    /// A failure of the host or of its storage.
    Std(String),
    /// The caller is not the admin.
    Unauthorized(String),
    /// The attached funds are missing or malformed.
    PaymentError(String),
    /// No vault is registered for the denomination.
    VaultDoesNotExist(String),
    /// A vault is already registered for the denomination.
    VaultAlreadyExists(String),
}

/// `e` is `Unauthorized` and carries the message `msg`.
pub open spec fn unauthorized_with(e: ContractError, msg: Seq<char>) -> bool {
    match e {
        ContractError::Unauthorized(m) => m@ == msg,
        _ => false,
    }
}

} // verus!
