//! The minter's entry points.
//!
//! Each takes the record as it was loaded and, where the call needs the
//! host to look at an address, the host's verdict on that address. A call
//! that fails leaves the record as it was.
use crate::encoding::{
    cw20_instantiate_json, cw20_mint_json, encode_cw20_instantiate, encode_cw20_mint, written,
};
use crate::error::ContractError;
use crate::factory::{
    bind_token_contract, creation_message, creation_submsg, is_bind_result, reported_address,
    token_creation, token_creation_msg,
};
use crate::host::{
    AttributeView, Env, MessageInfo, Reply, Response, ResponseView, SubMsg, SubMsgView,
};
use crate::mint::{final_recipient, mint_answer, mint_recipient, mint_response};
use crate::xion_minter::history::{step, Call};
use crate::xion_minter::msg::{ConfigResponse, ExecuteMsg, InstantiateMsg, QueryMsg};
use crate::xion_minter::state::{Config, ConfigView};
use cosmwasm_std::StdError;
use vstd::prelude::*;

verus! {

/// The id under which the outcome of the token's creation comes back.
pub const INSTANTIATE_TOKEN_REPLY_ID: u64 = 1;

/// The record of a minter that was just set up: nothing bound, no minter.
pub open spec fn initial_config() -> ConfigView {
    ConfigView { token_contract: None, minter: None }
}

/// What the minter answers when `creator` sets it up with `msg`: the
/// submessage that creates the token with the creation message `json`, and
/// a record of the set-up.
pub open spec fn instantiate_response(
    msg: InstantiateMsg,
    creator: Seq<char>,
    json: Seq<u8>,
) -> ResponseView<SubMsgView> {
    ResponseView {
        messages: seq![
            creation_submsg(
                None,
                msg.cw20_code_id,
                json,
                "merger token creation"@,
                INSTANTIATE_TOKEN_REPLY_ID,
            ),
        ],
        attributes: seq![
            AttributeView { key: "action"@, value: "instantiate"@ },
            AttributeView { key: "minter"@, value: creator },
        ],
    }
}

/// Whether `result` is what setting the minter up with `msg` owes to
/// `creator`, where `json` is the token's creation message, if it could be
/// written.
pub open spec fn is_instantiate_result(
    msg: InstantiateMsg,
    creator: Seq<char>,
    json: Option<Seq<u8>>,
    result: Result<(Config, Response<SubMsg>), ContractError>,
) -> bool {
    match json {
        Some(json) => {
            &&& result is Ok
            &&& result->Ok_0.0@ == initial_config()
            &&& result->Ok_0.1@ == instantiate_response(msg, creator, json)
        },
        None => result matches Err(ContractError::Std(_)),
    }
}

/// Sets the minter up, where `json` is what writing the token's creation
/// message gave: the message makes the set-up succeed, with an empty record
/// and the submessage that sends it; the failure to write one makes the
/// set-up fail with that error.
pub fn instantiate_with(
    info: MessageInfo,
    msg: InstantiateMsg,
    json: Result<Vec<u8>, StdError>,
) -> (result: Result<(Config, Response<SubMsg>), ContractError>)
    ensures
        is_instantiate_result(msg, info.sender@, written(json), result),
        json matches Err(e) ==> result == Err::<(Config, Response<SubMsg>), ContractError>(
            ContractError::Std(e),
        ),
{
    let json = match json {
        Ok(json) => json,
        Err(e) => {
            return Err(ContractError::Std(e));
        },
    };
    let ghost expected = instantiate_response(msg, info.sender@, json@);
    let instantiate_token_submsg = creation_message(
        None,
        msg.cw20_code_id,
        json,
        "merger token creation",
        INSTANTIATE_TOKEN_REPLY_ID,
    );
    let config = Config { minter: None, token_contract: None };
    let response = Response::new().add_message(instantiate_token_submsg).add_attribute(
        "action",
        "instantiate",
    ).add_attribute("minter", info.sender.as_str());
    assert(response@.attributes =~= expected.attributes);
    Ok((config, response))
}

/// Sets the minter up: asks the host to create the token contract that
/// `msg` describes, with the minter's own address `env.contract.address` as
/// the only account that may mint it, and starts with an empty record. The
/// decimals are handed on as they are.
///
/// The call fails where the creation message cannot be written as JSON, and
/// only there.
pub fn instantiate(
    env: Env,
    info: MessageInfo,
    msg: InstantiateMsg,
) -> (result: Result<(Config, Response<SubMsg>), ContractError>)
    ensures
        is_instantiate_result(
            msg,
            info.sender@,
            cw20_instantiate_json(
                token_creation(
                    msg.token_name@,
                    msg.token_symbol@,
                    msg.token_decimals,
                    env.contract.address@,
                ),
            ),
            result,
        ),
{
    let token_msg = token_creation_msg(
        msg.token_name.as_str(),
        msg.token_symbol.as_str(),
        msg.token_decimals,
        env.contract.address.as_str(),
    );
    let json = encode_cw20_instantiate(&token_msg);
    instantiate_with(info, msg, json)
}

/// Takes the outcome `msg` of the token's creation and binds the address
/// that it names: see [`bind_token_contract`], whose answer this is.
/// `verdict` is the host's verdict on that address; where `msg` names none,
/// it is not looked at.
pub fn handle_instantiate_token_reply(
    config: &mut Config,
    msg: Reply,
    verdict: Result<(), StdError>,
) -> (result: Result<Response<SubMsg>, ContractError>)
    ensures
        is_bind_result(
            old(config)@.token_contract,
            reported_address(msg),
            verdict,
            final(config)@.token_contract,
            result,
        ),
        final(config)@.minter == old(config)@.minter,
        final(config)@ == step(
            old(config)@,
            Call::Reply {
                id: INSTANTIATE_TOKEN_REPLY_ID,
                address: reported_address(msg),
                accepted: verdict is Ok,
            },
        ),
        result is Err ==> final(config)@ == old(config)@,
        old(config)@.token_contract is Some ==> final(config)@ == old(config)@,
{
    bind_token_contract(&mut config.token_contract, msg, verdict)
}

/// Takes the outcome `msg` of a submessage. `verdict` is the host's verdict
/// on the address that `msg` names, if it names one.
///
/// An outcome under another id than that of the token's creation is
/// answered with an empty response and changes nothing. The outcome of the
/// token's creation is handled by [`handle_instantiate_token_reply`].
pub fn reply(
    config: &mut Config,
    _env: Env,
    msg: Reply,
    verdict: Result<(), StdError>,
) -> (result: Result<Response<SubMsg>, ContractError>)
    ensures
        msg.id == INSTANTIATE_TOKEN_REPLY_ID ==> is_bind_result(
            old(config)@.token_contract,
            reported_address(msg),
            verdict,
            final(config)@.token_contract,
            result,
        ),
        msg.id != INSTANTIATE_TOKEN_REPLY_ID ==> {
            &&& result is Ok
            &&& result->Ok_0@ == (ResponseView::<SubMsgView> { messages: seq![], attributes: seq![] })
        },
        final(config)@ == step(
            old(config)@,
            Call::Reply { id: msg.id, address: reported_address(msg), accepted: verdict is Ok },
        ),
        result is Err ==> final(config)@ == old(config)@,
        old(config)@.token_contract is Some ==> final(config)@ == old(config)@,
{
    if msg.id == INSTANTIATE_TOKEN_REPLY_ID {
        handle_instantiate_token_reply(config, msg, verdict)
    } else {
        Ok(Response::new())
    }
}

/// How a call to mint ends.
pub enum MintOutcome {
    /// Refused: no token contract is bound yet.
    NoChildResource,
    /// Refused: another account is the minter.
    Unauthorized,
    /// Refused: the amount is zero.
    InvalidAmount,
    /// Refused: the host rejected the recipient's address.
    RecipientRejected,
    /// Refused: the mint message could not be written as JSON.
    NotEncoded,
    /// Done: the answer carries the mint message.
    Minted,
}

/// How the call of `sender` to mint `amount` tokens ends on the record
/// `config`, where `accepted` says whether the host accepted the
/// recipient's address and `encoded` whether the mint message could be
/// written. The tests are made in this order: that a token is bound, that
/// no other account is the minter, that the amount is not zero, that the
/// host accepted the recipient, that the message was written.
pub open spec fn mint_outcome(
    config: ConfigView,
    sender: Seq<char>,
    amount: u128,
    accepted: bool,
    encoded: bool,
) -> MintOutcome {
    if config.token_contract is None {
        MintOutcome::NoChildResource
    } else if config.minter is Some && config.minter != Some(sender) {
        MintOutcome::Unauthorized
    } else if amount == 0 {
        MintOutcome::InvalidAmount
    } else if !accepted {
        MintOutcome::RecipientRejected
    } else if !encoded {
        MintOutcome::NotEncoded
    } else {
        MintOutcome::Minted
    }
}

/// The record after a call of `sender` to mint that ended with `outcome`:
/// a mint that was done while there was no minter makes the caller the
/// minter; nothing else changes the record.
pub open spec fn config_after_mint(
    config: ConfigView,
    sender: Seq<char>,
    outcome: MintOutcome,
) -> ConfigView {
    if outcome is Minted && config.minter is None {
        ConfigView { token_contract: config.token_contract, minter: Some(sender) }
    } else {
        config
    }
}

/// Whether `result` and the record `after` are what a call of `sender` to
/// mint `amount` tokens to `recipient` owes on the record `before`, where
/// `accepted` says whether the host accepted the recipient's address and
/// `json` is the mint message, if it could be written.
pub open spec fn is_mint_result(
    before: ConfigView,
    sender: Seq<char>,
    amount: u128,
    recipient: Seq<char>,
    accepted: bool,
    json: Option<Seq<u8>>,
    after: ConfigView,
    result: Result<Response<SubMsg>, ContractError>,
) -> bool {
    let outcome = mint_outcome(before, sender, amount, accepted, json is Some);
    &&& after == config_after_mint(before, sender, outcome)
    &&& match outcome {
        MintOutcome::NoChildResource => result == Err::<Response<SubMsg>, ContractError>(
            ContractError::NoChildResource,
        ),
        MintOutcome::Unauthorized => result == Err::<Response<SubMsg>, ContractError>(
            ContractError::Unauthorized,
        ),
        MintOutcome::InvalidAmount => result == Err::<Response<SubMsg>, ContractError>(
            ContractError::InvalidAmount,
        ),
        MintOutcome::RecipientRejected | MintOutcome::NotEncoded => result matches Err(
            ContractError::Std(_),
        ),
        MintOutcome::Minted => {
            &&& result is Ok
            &&& result->Ok_0@ == mint_response(
                before.token_contract->0,
                sender,
                recipient,
                amount,
                json->0,
            )
        },
    }
}

/// Mints `amount` tokens to `recipient`, where `verdict` is the host's
/// verdict on the address `recipient` and `json` is what writing the mint
/// message gave. Neither is looked at before the tests on the record, the
/// caller and the amount have passed.
///
/// The first account whose mint is done becomes the minter, for good. A
/// mint that is refused changes nothing, so it claims nothing either. A
/// rejected recipient and a message that was not written fail the call with
/// the error that came with them.
pub fn mint_with(
    config: &mut Config,
    info: MessageInfo,
    amount: u128,
    recipient: String,
    verdict: Result<(), StdError>,
    json: Result<Vec<u8>, StdError>,
) -> (result: Result<Response<SubMsg>, ContractError>)
    ensures
        is_mint_result(
            old(config)@,
            info.sender@,
            amount,
            recipient@,
            verdict is Ok,
            written(json),
            final(config)@,
            result,
        ),
        match mint_outcome(old(config)@, info.sender@, amount, verdict is Ok, json is Ok) {
            MintOutcome::RecipientRejected => result == Err::<Response<SubMsg>, ContractError>(
                ContractError::Std(verdict->Err_0),
            ),
            MintOutcome::NotEncoded => result == Err::<Response<SubMsg>, ContractError>(
                ContractError::Std(json->Err_0),
            ),
            _ => true,
        },
        final(config)@ == step(
            old(config)@,
            Call::Mint {
                sender: info.sender@,
                amount,
                accepted: verdict is Ok,
                encoded: json is Ok,
            },
        ),
        result is Err ==> final(config)@ == old(config)@,
{
    let token_addr = match &config.token_contract {
        Some(addr) => addr.clone(),
        None => {
            return Err(ContractError::NoChildResource);
        },
    };
    let claims = match &config.minter {
        None => true,
        Some(minter) => {
            if !info.sender.same_as(minter) {
                return Err(ContractError::Unauthorized);
            }
            false
        },
    };
    if amount == 0 {
        return Err(ContractError::InvalidAmount);
    }
    if let Err(e) = verdict {
        return Err(ContractError::Std(e));
    }
    let json = match json {
        Ok(json) => json,
        Err(e) => {
            return Err(ContractError::Std(e));
        },
    };
    if claims {
        config.minter = Some(info.sender.clone());
    }
    Ok(mint_answer(&token_addr, &info.sender, recipient.as_str(), amount, json))
}

/// Mints `amount` tokens to `recipient`, or to the caller where none is
/// named. `verdict` is the host's verdict on that address.
///
/// The first account whose mint is done becomes the minter, for good. A
/// mint that is refused changes nothing, so it claims nothing either. See
/// [`mint_with`], whose answer this is for the mint message of that
/// recipient and amount.
pub fn mint_tokens(
    config: &mut Config,
    _env: Env,
    info: MessageInfo,
    amount: u128,
    recipient: Option<String>,
    verdict: Result<(), StdError>,
) -> (result: Result<Response<SubMsg>, ContractError>)
    ensures
        is_mint_result(
            old(config)@,
            info.sender@,
            amount,
            mint_recipient(info.sender@, recipient.deep_view()),
            verdict is Ok,
            cw20_mint_json(mint_recipient(info.sender@, recipient.deep_view()), amount),
            final(config)@,
            result,
        ),
        mint_outcome(
            old(config)@,
            info.sender@,
            amount,
            verdict is Ok,
            cw20_mint_json(mint_recipient(info.sender@, recipient.deep_view()), amount) is Some,
        ) is RecipientRejected ==> result == Err::<Response<SubMsg>, ContractError>(
            ContractError::Std(verdict->Err_0),
        ),
        final(config)@ == step(
            old(config)@,
            Call::Mint {
                sender: info.sender@,
                amount,
                accepted: verdict is Ok,
                encoded: cw20_mint_json(
                    mint_recipient(info.sender@, recipient.deep_view()),
                    amount,
                ) is Some,
            },
        ),
        old(config)@.token_contract is None ==> result == Err::<Response<SubMsg>, ContractError>(
            ContractError::NoChildResource,
        ),
        amount == 0 && old(config)@.token_contract is Some && (old(config)@.minter is None || old(
            config,
        )@.minter == Some(info.sender@)) ==> result == Err::<Response<SubMsg>, ContractError>(
            ContractError::InvalidAmount,
        ),
        result is Err ==> final(config)@ == old(config)@,
{
    let to = final_recipient(&info, &recipient);
    let json = encode_cw20_mint(to.as_str(), amount);
    mint_with(config, info, amount, to, verdict, json)
}

/// The address that the host has to look at before `msg` is run for
/// `info.sender`: the one that the mint goes to.
pub fn address_to_validate(info: &MessageInfo, msg: &ExecuteMsg) -> (address: String)
    ensures
        address@ == mint_recipient(info.sender@, msg->recipient.deep_view()),
{
    match msg {
        ExecuteMsg::Mint { recipient, .. } => final_recipient(info, recipient),
    }
}

/// Runs `msg`. Its one kind is a mint: see [`mint_tokens`], whose answer
/// this is. `verdict` is the host's verdict on the address that the mint
/// goes to.
pub fn execute(
    config: &mut Config,
    env: Env,
    info: MessageInfo,
    msg: ExecuteMsg,
    verdict: Result<(), StdError>,
) -> (result: Result<Response<SubMsg>, ContractError>)
    ensures
        is_mint_result(
            old(config)@,
            info.sender@,
            msg->amount,
            mint_recipient(info.sender@, msg->recipient.deep_view()),
            verdict is Ok,
            cw20_mint_json(mint_recipient(info.sender@, msg->recipient.deep_view()), msg->amount),
            final(config)@,
            result,
        ),
        mint_outcome(
            old(config)@,
            info.sender@,
            msg->amount,
            verdict is Ok,
            cw20_mint_json(
                mint_recipient(info.sender@, msg->recipient.deep_view()),
                msg->amount,
            ) is Some,
        ) is RecipientRejected ==> result == Err::<Response<SubMsg>, ContractError>(
            ContractError::Std(verdict->Err_0),
        ),
        old(config)@.token_contract is None ==> result == Err::<Response<SubMsg>, ContractError>(
            ContractError::NoChildResource,
        ),
        result is Err ==> final(config)@ == old(config)@,
{
    match msg {
        ExecuteMsg::Mint { amount, recipient } => mint_tokens(
            config,
            env,
            info,
            amount,
            recipient,
            verdict,
        ),
    }
}

/// Answers `msg`. Its one kind asks for the record: the minter, if there is
/// one, and the token contract, if one is bound.
pub fn query(config: &Config, _env: Env, msg: QueryMsg) -> (answer: ConfigResponse)
    ensures
        answer.minter.deep_view() == config@.minter,
        answer.token_contract.deep_view() == config@.token_contract,
{
    match msg {
        QueryMsg::GetConfig {  } => ConfigResponse {
            minter: match &config.minter {
                Some(addr) => Some(addr.clone().into_string()),
                None => None,
            },
            token_contract: match &config.token_contract {
                Some(addr) => Some(addr.clone().into_string()),
                None => None,
            },
        },
    }
}

} // verus!
