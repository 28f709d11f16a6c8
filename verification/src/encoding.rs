//! Encodings that outside crates compute for the contracts: the JSON text of
//! the token contract's messages, base64, and amounts in decimal.
use crate::factory::{Cw20Coin, MinterResponse, TokenInstantiateMsg, TokenInstantiateMsgView};
use cosmwasm_std::StdError;
use vstd::prelude::*;

verus! {

/// `cosmwasm_std::StdError`, the host's error type. Its values are carried
/// through unread.
#[verifier::external_type_specification]
#[verifier::external_body]
pub struct ExStdError(StdError);

/// The base64 text, standard alphabet with padding, of `bytes`.
pub uninterp spec fn base64_text(bytes: Seq<u8>) -> Seq<char>;

/// Calls `base64::encode` on `input`. The result is the standard base64
/// text of those bytes.
#[verifier::external_body]
#[allow(deprecated)]
pub(crate) fn base64_encode(input: &[u8]) -> (text: String)
    ensures
        text@ == base64_text(input@),
{
    base64::encode(input)
}

/// The bytes that an encoder wrote, if it wrote any.
pub open spec fn written(encoded: Result<Vec<u8>, StdError>) -> Option<Seq<u8>> {
    match encoded {
        Ok(bytes) => Some(bytes@),
        Err(_) => None,
    }
}

/// The JSON text of the cw20 message that mints `amount` tokens to
/// `recipient`; `None` where the message cannot be written as JSON.
pub uninterp spec fn cw20_mint_json(recipient: Seq<char>, amount: u128) -> Option<Seq<u8>>;

/// Calls `cosmwasm_std::to_json_binary` on `cw20::Cw20ExecuteMsg::Mint` with
/// the given recipient and amount. The bytes that come back, or the failure
/// to write any, depend on the two arguments alone.
#[verifier::external_body]
pub(crate) fn encode_cw20_mint(recipient: &str, amount: u128) -> (json: Result<Vec<u8>, StdError>)
    ensures
        written(json) == cw20_mint_json(recipient@, amount),
{
    let msg = cw20::Cw20ExecuteMsg::Mint {
        recipient: recipient.to_string(),
        amount: cosmwasm_std::Uint128::new(amount),
    };
    cosmwasm_std::to_json_binary(&msg).map(|binary| binary.to_vec())
}

/// The JSON text of the message that creates a cw20-base token with what
/// `msg` holds and without marketing data; `None` where the message cannot
/// be written as JSON.
pub uninterp spec fn cw20_instantiate_json(msg: TokenInstantiateMsgView) -> Option<Seq<u8>>;

/// Calls `cosmwasm_std::to_json_binary` on the `cw20_base::msg::InstantiateMsg`
/// that holds what `msg` holds, field by field, and no marketing data. The
/// bytes that come back, or the failure to write any, depend on `msg` alone.
#[verifier::external_body]
pub(crate) fn encode_cw20_instantiate(
    msg: &TokenInstantiateMsg,
) -> (json: Result<Vec<u8>, StdError>)
    ensures
        written(json) == cw20_instantiate_json(msg@),
{
    let coin = |c: &Cw20Coin| cw20::Cw20Coin { address: c.address.clone(), amount: c.amount.into() };
    let minter = |m: &MinterResponse| cw20::MinterResponse {
        minter: m.minter.clone(),
        cap: m.cap.map(Into::into),
    };
    let msg = cw20_base::msg::InstantiateMsg {
        name: msg.name.clone(),
        symbol: msg.symbol.clone(),
        decimals: msg.decimals,
        initial_balances: msg.initial_balances.iter().map(coin).collect(),
        mint: msg.mint.as_ref().map(minter),
        marketing: None,
    };
    cosmwasm_std::to_json_binary(&msg).map(|binary| binary.to_vec())
}

/// The character of the decimal digit `d`.
pub open spec fn digit_char(d: nat) -> char {
    seq!['0', '1', '2', '3', '4', '5', '6', '7', '8', '9'][d as int]
}

/// `n` in decimal, without leading zeros.
pub open spec fn decimal_text(n: nat) -> Seq<char>
    decreases n,
{
    if n < 10 {
        seq![digit_char(n)]
    } else {
        decimal_text(n / 10).push(digit_char(n % 10))
    }
}

/// Calls `to_string` on `cosmwasm_std::Uint128`, which prints the number as
/// Rust prints a `u128`: in decimal, without leading zeros.
#[verifier::external_body]
pub(crate) fn uint128_text(amount: u128) -> (text: String)
    ensures
        text@ == decimal_text(amount as nat),
{
    cosmwasm_std::Uint128::new(amount).to_string()
}

} // verus!
