//! The error kinds that the entry points of all three contracts return.
use cosmwasm_std::StdError;
use vstd::prelude::*;

verus! {

/// Why an entry point refused a call. A refused call changes nothing.
#[derive(Debug, PartialEq)]
pub enum ContractError {
    /// An error of the host, passed on as it came.
    Std(StdError),
    /// The caller lacks the role that the call needs.
    Unauthorized,
    /// A mint was asked for before the token contract was bound.
    NoChildResource,
    /// The outcome of the token's creation named no contract address.
    MissingResourceAddress,
    /// A mint of zero tokens.
    InvalidAmount,
    /// A transfer notification from a token that the merger does not accept.
    InvalidToken,
    /// A transfer notification whose attached message is no known hook.
    InvalidMessage,
}

} // verus!
