//! Minting through the token contract: whom a mint goes to, the message
//! that asks the token contract for it, and the answer that records it.
use crate::encoding::{decimal_text, uint128_text};
use crate::host::{
    Addr, AttributeView, MessageInfo, ReplyOn, Response, ResponseView, SubMsg, SubMsgView,
    WasmMsg, WasmMsgView,
};
use vstd::prelude::*;

verus! {

/// The account that a mint goes to: the one named, else the caller.
pub open spec fn mint_recipient(sender: Seq<char>, recipient: Option<Seq<char>>) -> Seq<char> {
    match recipient {
        Some(named) => named,
        None => sender,
    }
}

/// The address that a mint by `info.sender` to `recipient` goes to, which is
/// the address that the host has to look at.
pub fn final_recipient(info: &MessageInfo, recipient: &Option<String>) -> (address: String)
    ensures
        address@ == mint_recipient(info.sender@, recipient.deep_view()),
{
    match recipient {
        Some(named) => named.clone(),
        None => info.sender.as_str().to_owned(),
    }
}

/// The answer to a mint by `sender` of `amount` tokens to `recipient`: the
/// message `json` for the token contract at `token`, whose outcome is not
/// asked for, and a record of the mint.
pub open spec fn mint_response(
    token: Seq<char>,
    sender: Seq<char>,
    recipient: Seq<char>,
    amount: u128,
    json: Seq<u8>,
) -> ResponseView<SubMsgView> {
    ResponseView {
        messages: seq![
            SubMsgView {
                id: 0,
                msg: WasmMsgView::Execute { contract_addr: token, msg: json, funds: seq![] },
                reply_on: ReplyOn::Never,
            },
        ],
        attributes: seq![
            AttributeView { key: "action"@, value: "mint_tokens"@ },
            AttributeView { key: "sender"@, value: sender },
            AttributeView { key: "final_recipient"@, value: recipient },
            AttributeView { key: "amount"@, value: decimal_text(amount as nat) },
        ],
    }
}

/// Builds the answer to a mint by `sender` of `amount` tokens to
/// `recipient` through the token contract at `token`, where `json` is the
/// mint message.
pub fn mint_answer(
    token: &Addr,
    sender: &Addr,
    recipient: &str,
    amount: u128,
    json: Vec<u8>,
) -> (response: Response<SubMsg>)
    ensures
        response@ == mint_response(token@, sender@, recipient@, amount, json@),
{
    let ghost expected = mint_response(token@, sender@, recipient@, amount, json@);
    let wasm_msg = WasmMsg::Execute {
        contract_addr: token.as_str().to_owned(),
        msg: json,
        funds: Vec::new(),
    };
    assert(wasm_msg@->Execute_funds =~= seq![]);
    let amount_text = uint128_text(amount);
    let response = Response::new().add_message(SubMsg::new(wasm_msg)).add_attribute(
        "action",
        "mint_tokens",
    ).add_attribute("sender", sender.as_str()).add_attribute(
        "final_recipient",
        recipient,
    ).add_attribute("amount", amount_text.as_str());
    assert(response@.attributes =~= expected.attributes);
    response
}

} // verus!
