//! The messages that the minter takes and the answers to its queries.
use vstd::prelude::*;

verus! {

#[derive(Debug, PartialEq, Eq)]
pub struct InstantiateMsg {
    /// The account that may mint and that keeps the access list.
    pub admin: String,
    pub token_name: String,
    pub token_symbol: String,
    pub token_decimals: u8,
    /// The code that the token contract is created from.
    pub token_code_id: u64,
}

#[derive(Debug, PartialEq, Eq)]
pub enum ExecuteMsg {
    /// Put `address` on the access list.
    AddToWhiteList { address: String },
    /// Take `address` off the access list.
    RemoveFromWhiteList { address: String },
    /// Mint `amount` tokens to `recipient`, or to the caller where none is
    /// given.
    Mint { amount: u128, recipient: Option<String> },
}

#[derive(Debug, PartialEq, Eq)]
pub enum QueryMsg {
    GetConfig {  },
    IsWhitelisted { address: String },
}

#[derive(Debug, PartialEq, Eq)]
pub struct ConfigResponse {
    pub admin: String,
    pub token_contract: Option<String>,
}

/// The answer to a query: the record, or whether an account is listed.
#[derive(Debug, PartialEq, Eq)]
pub enum QueryResponse {
    Config(ConfigResponse),
    IsWhitelisted(bool),
}

} // verus!
