//! The messages that the minter takes and the answer to its query.
use vstd::prelude::*;

verus! {

#[derive(Debug, PartialEq, Eq)]
pub struct InstantiateMsg {
    pub token_name: String,
    pub token_symbol: String,
    pub token_decimals: u8,
    /// The code that the token contract is created from.
    pub cw20_code_id: u64,
}

#[derive(Debug, PartialEq, Eq)]
pub enum ExecuteMsg {
    /// Mint `amount` tokens to `recipient`, or to the caller where none is
    /// given.
    Mint { amount: u128, recipient: Option<String> },
}

#[derive(Debug, PartialEq, Eq)]
pub enum QueryMsg {
    GetConfig {  },
}

#[derive(Debug, PartialEq, Eq)]
pub struct ConfigResponse {
    pub minter: Option<String>,
    pub token_contract: Option<String>,
}

} // verus!
