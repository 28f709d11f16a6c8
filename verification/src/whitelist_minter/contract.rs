//! The minter's entry points.
//!
//! Each takes the record and the access list as they were loaded and,
//! where the call needs the host to look at an address, the host's verdict
//! on that address. A call that fails leaves both as they were.
use crate::encoding::{
    cw20_instantiate_json, cw20_mint_json, encode_cw20_instantiate, encode_cw20_mint, written,
};
use crate::error::ContractError;
use crate::factory::{
    bind_token_contract, creation_message, creation_submsg, is_bind_result, reported_address,
    token_creation, token_creation_msg,
};
use crate::host::{
    Addr, AttributeView, Env, MessageInfo, Reply, Response, ResponseView, SubMsg, SubMsgView,
};
use crate::mint::{final_recipient, mint_answer, mint_recipient, mint_response};
use crate::whitelist_minter::history::{call_of, config_after_reply, step, Call, State};
use crate::whitelist_minter::msg::{
    ConfigResponse, ExecuteMsg, InstantiateMsg, QueryMsg, QueryResponse,
};
use crate::whitelist_minter::state::{Config, ConfigView, Whitelist};
use cosmwasm_std::StdError;
use vstd::prelude::*;

verus! {

/// The id under which the outcome of the token's creation comes back.
pub const INSTANTIATE_TOKEN_REPLY_ID: u64 = 1;

/// The record of a minter that was just set up for `admin`: nothing bound.
pub open spec fn initial_config(admin: Seq<char>) -> ConfigView {
    ConfigView { admin, token_contract: None }
}

/// What the minter answers when it is set up with `msg`: the submessage
/// that creates the token with the creation message `json`, and a record of
/// the set-up.
pub open spec fn instantiate_response(
    msg: InstantiateMsg,
    json: Seq<u8>,
) -> ResponseView<SubMsgView> {
    ResponseView {
        messages: seq![
            creation_submsg(
                Some(msg.admin@),
                msg.token_code_id,
                json,
                "factory token creation"@,
                INSTANTIATE_TOKEN_REPLY_ID,
            ),
        ],
        attributes: seq![
            AttributeView { key: "action"@, value: "instantiate"@ },
            AttributeView { key: "admin"@, value: msg.admin@ },
        ],
    }
}

/// Whether `result` is what setting the minter up with `msg` owes, where
/// `accepted` says whether the host accepted the admin's address and `json`
/// is the token's creation message, if it could be written.
pub open spec fn is_instantiate_result(
    msg: InstantiateMsg,
    accepted: bool,
    json: Option<Seq<u8>>,
    result: Result<(Config, Response<SubMsg>), ContractError>,
) -> bool {
    if accepted && json is Some {
        &&& result is Ok
        &&& result->Ok_0.0@ == initial_config(msg.admin@)
        &&& result->Ok_0.1@ == instantiate_response(msg, json->0)
    } else {
        result matches Err(ContractError::Std(_))
    }
}

/// Sets the minter up, where `verdict` is the host's verdict on the admin's
/// address and `json` is what writing the token's creation message gave.
///
/// A rejected admin fails the set-up with the host's error; else the failure
/// to write the message fails it with that error; else it succeeds, with
/// `msg.admin` as admin, nothing bound, and the submessage that sends the
/// message.
pub fn instantiate_with(
    _info: MessageInfo,
    msg: InstantiateMsg,
    verdict: Result<(), StdError>,
    json: Result<Vec<u8>, StdError>,
) -> (result: Result<(Config, Response<SubMsg>), ContractError>)
    ensures
        is_instantiate_result(msg, verdict is Ok, written(json), result),
        verdict matches Err(e) ==> result == Err::<(Config, Response<SubMsg>), ContractError>(
            ContractError::Std(e),
        ),
        verdict is Ok ==> (json matches Err(e) ==> result == Err::<
            (Config, Response<SubMsg>),
            ContractError,
        >(ContractError::Std(e))),
{
    if let Err(e) = verdict {
        return Err(ContractError::Std(e));
    }
    let json = match json {
        Ok(json) => json,
        Err(e) => {
            return Err(ContractError::Std(e));
        },
    };
    let ghost expected = instantiate_response(msg, json@);
    let admin = Addr::unchecked(msg.admin.as_str());
    let instantiate_token_submsg = creation_message(
        Some(msg.admin.clone()),
        msg.token_code_id,
        json,
        "factory token creation",
        INSTANTIATE_TOKEN_REPLY_ID,
    );
    let config = Config { admin, token_contract: None };
    let response = Response::new().add_message(instantiate_token_submsg).add_attribute(
        "action",
        "instantiate",
    ).add_attribute("admin", msg.admin.as_str());
    assert(response@.attributes =~= expected.attributes);
    Ok((config, response))
}

/// Sets the minter up: asks the host to create the token contract that
/// `msg` describes, with the minter's own address `env.contract.address` as
/// the only account that may mint it, and starts with `msg.admin` as admin,
/// nothing bound and nobody listed. `verdict` is the host's verdict on the
/// admin's address. The decimals are handed on as they are.
///
/// The call fails with the host's error where the host rejected the admin's
/// address; else where the creation message cannot be written as JSON; and
/// nowhere else.
pub fn instantiate(
    env: Env,
    info: MessageInfo,
    msg: InstantiateMsg,
    verdict: Result<(), StdError>,
) -> (result: Result<(Config, Response<SubMsg>), ContractError>)
    ensures
        is_instantiate_result(
            msg,
            verdict is Ok,
            cw20_instantiate_json(
                token_creation(
                    msg.token_name@,
                    msg.token_symbol@,
                    msg.token_decimals,
                    env.contract.address@,
                ),
            ),
            result,
        ),
        verdict matches Err(e) ==> result == Err::<(Config, Response<SubMsg>), ContractError>(
            ContractError::Std(e),
        ),
{
    let token_msg = token_creation_msg(
        msg.token_name.as_str(),
        msg.token_symbol.as_str(),
        msg.token_decimals,
        env.contract.address.as_str(),
    );
    let json = encode_cw20_instantiate(&token_msg);
    instantiate_with(info, msg, verdict, json)
}

/// Takes the outcome `msg` of the token's creation and binds the address
/// that it names: see [`bind_token_contract`], whose answer this is.
/// `verdict` is the host's verdict on that address; where `msg` names none,
/// it is not looked at.
pub fn handle_instantiate_token_reply(
    config: &mut Config,
    msg: Reply,
    verdict: Result<(), StdError>,
) -> (result: Result<Response<SubMsg>, ContractError>)
    ensures
        is_bind_result(
            old(config)@.token_contract,
            reported_address(msg),
            verdict,
            final(config)@.token_contract,
            result,
        ),
        final(config)@.admin == old(config)@.admin,
        result is Err ==> final(config)@ == old(config)@,
        old(config)@.token_contract is Some ==> final(config)@ == old(config)@,
{
    bind_token_contract(&mut config.token_contract, msg, verdict)
}

/// Takes the outcome `msg` of a submessage. `verdict` is the host's verdict
/// on the address that `msg` names, if it names one.
///
/// An outcome under another id than that of the token's creation is
/// answered with an empty response and changes nothing. The outcome of the
/// token's creation is handled by [`handle_instantiate_token_reply`].
pub fn reply(
    config: &mut Config,
    _env: Env,
    msg: Reply,
    verdict: Result<(), StdError>,
) -> (result: Result<Response<SubMsg>, ContractError>)
    ensures
        msg.id == INSTANTIATE_TOKEN_REPLY_ID ==> is_bind_result(
            old(config)@.token_contract,
            reported_address(msg),
            verdict,
            final(config)@.token_contract,
            result,
        ),
        msg.id != INSTANTIATE_TOKEN_REPLY_ID ==> {
            &&& final(config)@ == old(config)@
            &&& result is Ok
            &&& result->Ok_0@ == (ResponseView::<SubMsgView> { messages: seq![], attributes: seq![] })
        },
        final(config)@ == config_after_reply(
            old(config)@,
            msg.id,
            reported_address(msg),
            verdict is Ok,
        ),
        result is Err ==> final(config)@ == old(config)@,
        old(config)@.token_contract is Some ==> final(config)@ == old(config)@,
{
    if msg.id == INSTANTIATE_TOKEN_REPLY_ID {
        handle_instantiate_token_reply(config, msg, verdict)
    } else {
        Ok(Response::new())
    }
}

/// How a call that changes the access list ends.
pub enum ListOutcome {
    /// Refused: the caller is not the admin.
    Unauthorized,
    /// Refused: the host rejected the address.
    AddressRejected,
    /// Done.
    Listed,
}

/// How the call of `sender` to put an address on the access list, or to
/// take it off, ends, where `accepted` says whether the host accepted the
/// address.
pub open spec fn list_outcome(config: ConfigView, sender: Seq<char>, accepted: bool) -> ListOutcome {
    if sender != config.admin {
        ListOutcome::Unauthorized
    } else if !accepted {
        ListOutcome::AddressRejected
    } else {
        ListOutcome::Listed
    }
}

/// The answer to a change of the access list: the name of the change and
/// the address that it was about.
pub open spec fn list_response(action: Seq<char>, address: Seq<char>) -> ResponseView<SubMsgView> {
    ResponseView {
        messages: seq![],
        attributes: seq![
            AttributeView { key: "action"@, value: action },
            AttributeView { key: "whitelist_addr"@, value: address },
        ],
    }
}

/// Whether `result` is what a call of `sender` to change the access list
/// as to `address` owes, where `action` names the change and `verdict` is
/// the host's verdict on the address.
pub open spec fn is_list_result(
    config: ConfigView,
    sender: Seq<char>,
    action: Seq<char>,
    address: Seq<char>,
    verdict: Result<(), StdError>,
    result: Result<Response<SubMsg>, ContractError>,
) -> bool {
    match list_outcome(config, sender, verdict is Ok) {
        ListOutcome::Unauthorized => result == Err::<Response<SubMsg>, ContractError>(
            ContractError::Unauthorized,
        ),
        ListOutcome::AddressRejected => result == Err::<Response<SubMsg>, ContractError>(
            ContractError::Std(verdict->Err_0),
        ),
        ListOutcome::Listed => {
            &&& result is Ok
            &&& result->Ok_0@ == list_response(action, address)
        },
    }
}

/// Puts `address` on the access list. `verdict` is the host's verdict on
/// `address`.
///
/// Only the admin may do so. An address that is listed already stays
/// listed, and the call succeeds all the same.
pub fn add_to_whitelist(
    config: &Config,
    whitelist: &mut Whitelist,
    _env: Env,
    info: MessageInfo,
    address: String,
    verdict: Result<(), StdError>,
) -> (result: Result<Response<SubMsg>, ContractError>)
    requires
        old(whitelist).well_formed(),
    ensures
        final(whitelist).well_formed(),
        is_list_result(config@, info.sender@, "add_to_whitelist"@, address@, verdict, result),
        final(whitelist)@ == if result is Ok {
            old(whitelist)@.insert(address@)
        } else {
            old(whitelist)@
        },
        (State { config: config@, whitelist: final(whitelist)@ }) == step(
            State { config: config@, whitelist: old(whitelist)@ },
            Call::Add { sender: info.sender@, account: address@, accepted: verdict is Ok },
        ),
{
    if !info.sender.same_as(&config.admin) {
        return Err(ContractError::Unauthorized);
    }
    if let Err(e) = verdict {
        return Err(ContractError::Std(e));
    }
    let addr = Addr::unchecked(address.as_str());
    let response = Response::new().add_attribute("action", "add_to_whitelist").add_attribute(
        "whitelist_addr",
        addr.as_str(),
    );
    whitelist.insert(addr);
    proof {
        let expected = list_response("add_to_whitelist"@, address@);
        assert(response@.attributes =~= expected.attributes);
    }
    Ok(response)
}

/// Takes `address` off the access list. `verdict` is the host's verdict on
/// `address`.
///
/// Only the admin may do so. An address that is not listed stays unlisted,
/// and the call succeeds all the same.
pub fn remove_from_whitelist(
    config: &Config,
    whitelist: &mut Whitelist,
    _env: Env,
    info: MessageInfo,
    address: String,
    verdict: Result<(), StdError>,
) -> (result: Result<Response<SubMsg>, ContractError>)
    requires
        old(whitelist).well_formed(),
    ensures
        final(whitelist).well_formed(),
        is_list_result(config@, info.sender@, "remove_from_whitelist"@, address@, verdict, result),
        final(whitelist)@ == if result is Ok {
            old(whitelist)@.remove(address@)
        } else {
            old(whitelist)@
        },
        (State { config: config@, whitelist: final(whitelist)@ }) == step(
            State { config: config@, whitelist: old(whitelist)@ },
            Call::Remove { sender: info.sender@, account: address@, accepted: verdict is Ok },
        ),
{
    if !info.sender.same_as(&config.admin) {
        return Err(ContractError::Unauthorized);
    }
    if let Err(e) = verdict {
        return Err(ContractError::Std(e));
    }
    let addr = Addr::unchecked(address.as_str());
    whitelist.remove(&addr);
    let response = Response::new().add_attribute(
        "action",
        "remove_from_whitelist",
    ).add_attribute("whitelist_addr", addr.as_str());
    proof {
        let expected = list_response("remove_from_whitelist"@, address@);
        assert(response@.attributes =~= expected.attributes);
    }
    Ok(response)
}

/// How a call to mint ends.
pub enum MintOutcome {
    /// Refused: no token contract is bound yet.
    NoChildResource,
    /// Refused: the caller is neither the admin nor listed.
    Unauthorized,
    /// Refused: the host rejected the recipient's address.
    RecipientRejected,
    /// Refused: the mint message could not be written as JSON.
    NotEncoded,
    /// Done: the answer carries the mint message.
    Minted,
}

/// Whether `sender` may mint: the admin may, and so may every account on
/// the access list.
pub open spec fn may_mint(config: ConfigView, whitelist: Set<Seq<char>>, sender: Seq<char>) -> bool {
    sender == config.admin || whitelist.contains(sender)
}

/// How the call of `sender` to mint ends, where `accepted` says whether the
/// host accepted the recipient's address and `encoded` whether the mint
/// message could be written. The tests are made in this order: that a token
/// is bound, that the caller may mint, that the host accepted the
/// recipient, that the message was written. Any amount is handed on, zero
/// too.
pub open spec fn mint_outcome(
    config: ConfigView,
    whitelist: Set<Seq<char>>,
    sender: Seq<char>,
    accepted: bool,
    encoded: bool,
) -> MintOutcome {
    if config.token_contract is None {
        MintOutcome::NoChildResource
    } else if !may_mint(config, whitelist, sender) {
        MintOutcome::Unauthorized
    } else if !accepted {
        MintOutcome::RecipientRejected
    } else if !encoded {
        MintOutcome::NotEncoded
    } else {
        MintOutcome::Minted
    }
}

/// Whether `result` is what a call of `sender` to mint `amount` tokens to
/// `recipient` owes, where `accepted` says whether the host accepted the
/// recipient's address and `json` is the mint message, if it could be
/// written.
pub open spec fn is_mint_result(
    config: ConfigView,
    whitelist: Set<Seq<char>>,
    sender: Seq<char>,
    amount: u128,
    recipient: Seq<char>,
    accepted: bool,
    json: Option<Seq<u8>>,
    result: Result<Response<SubMsg>, ContractError>,
) -> bool {
    match mint_outcome(config, whitelist, sender, accepted, json is Some) {
        MintOutcome::NoChildResource => result == Err::<Response<SubMsg>, ContractError>(
            ContractError::NoChildResource,
        ),
        MintOutcome::Unauthorized => result == Err::<Response<SubMsg>, ContractError>(
            ContractError::Unauthorized,
        ),
        MintOutcome::RecipientRejected | MintOutcome::NotEncoded => result matches Err(
            ContractError::Std(_),
        ),
        MintOutcome::Minted => {
            &&& result is Ok
            &&& result->Ok_0@ == mint_response(
                config.token_contract->0,
                sender,
                recipient,
                amount,
                json->0,
            )
        },
    }
}

/// Mints `amount` tokens to `recipient`, where `verdict` is the host's
/// verdict on the address `recipient` and `json` is what writing the mint
/// message gave. Neither is looked at before the tests on the record and
/// the caller have passed.
///
/// The admin may mint, and so may every account on the access list. A
/// rejected recipient and a message that was not written fail the call with
/// the error that came with them.
pub fn mint_with(
    config: &Config,
    whitelist: &Whitelist,
    info: MessageInfo,
    amount: u128,
    recipient: String,
    verdict: Result<(), StdError>,
    json: Result<Vec<u8>, StdError>,
) -> (result: Result<Response<SubMsg>, ContractError>)
    ensures
        is_mint_result(
            config@,
            whitelist@,
            info.sender@,
            amount,
            recipient@,
            verdict is Ok,
            written(json),
            result,
        ),
        match mint_outcome(config@, whitelist@, info.sender@, verdict is Ok, json is Ok) {
            MintOutcome::RecipientRejected => result == Err::<Response<SubMsg>, ContractError>(
                ContractError::Std(verdict->Err_0),
            ),
            MintOutcome::NotEncoded => result == Err::<Response<SubMsg>, ContractError>(
                ContractError::Std(json->Err_0),
            ),
            _ => true,
        },
{
    let token_addr = match &config.token_contract {
        Some(addr) => addr.clone(),
        None => {
            return Err(ContractError::NoChildResource);
        },
    };
    if !info.sender.same_as(&config.admin) {
        let is_whitelisted = whitelist.contains(&info.sender);
        if !is_whitelisted {
            return Err(ContractError::Unauthorized);
        }
    }
    if let Err(e) = verdict {
        return Err(ContractError::Std(e));
    }
    let json = match json {
        Ok(json) => json,
        Err(e) => {
            return Err(ContractError::Std(e));
        },
    };
    Ok(mint_answer(&token_addr, &info.sender, recipient.as_str(), amount, json))
}

/// Mints `amount` tokens to `recipient`, or to the caller where none is
/// named. `verdict` is the host's verdict on that address.
///
/// The admin may mint, and so may every account on the access list. The
/// record and the list stay as they are. See [`mint_with`], whose answer
/// this is for the mint message of that recipient and amount.
pub fn mint_tokens(
    config: &Config,
    whitelist: &Whitelist,
    _env: Env,
    info: MessageInfo,
    amount: u128,
    recipient: Option<String>,
    verdict: Result<(), StdError>,
) -> (result: Result<Response<SubMsg>, ContractError>)
    ensures
        is_mint_result(
            config@,
            whitelist@,
            info.sender@,
            amount,
            mint_recipient(info.sender@, recipient.deep_view()),
            verdict is Ok,
            cw20_mint_json(mint_recipient(info.sender@, recipient.deep_view()), amount),
            result,
        ),
        mint_outcome(
            config@,
            whitelist@,
            info.sender@,
            verdict is Ok,
            cw20_mint_json(mint_recipient(info.sender@, recipient.deep_view()), amount) is Some,
        ) is RecipientRejected ==> result == Err::<Response<SubMsg>, ContractError>(
            ContractError::Std(verdict->Err_0),
        ),
        config@.token_contract is None ==> result == Err::<Response<SubMsg>, ContractError>(
            ContractError::NoChildResource,
        ),
        config@.token_contract is Some && !may_mint(config@, whitelist@, info.sender@) ==> result
            == Err::<Response<SubMsg>, ContractError>(ContractError::Unauthorized),
{
    let to = final_recipient(&info, &recipient);
    let json = encode_cw20_mint(to.as_str(), amount);
    mint_with(config, whitelist, info, amount, to, verdict, json)
}

/// The address that the host has to look at before `msg` is run for
/// `info.sender`: the one to list or to unlist, or the one that the mint
/// goes to.
pub fn address_to_validate(info: &MessageInfo, msg: &ExecuteMsg) -> (address: String)
    ensures
        address@ == match *msg {
            ExecuteMsg::AddToWhiteList { address } => address@,
            ExecuteMsg::RemoveFromWhiteList { address } => address@,
            ExecuteMsg::Mint { recipient, .. } => mint_recipient(
                info.sender@,
                recipient.deep_view(),
            ),
        },
{
    match msg {
        ExecuteMsg::AddToWhiteList { address } => address.clone(),
        ExecuteMsg::RemoveFromWhiteList { address } => address.clone(),
        ExecuteMsg::Mint { recipient, .. } => final_recipient(info, recipient),
    }
}

/// Runs `msg`: see [`add_to_whitelist`], [`remove_from_whitelist`] and
/// [`mint_tokens`], whose answers these are. `verdict` is the host's verdict
/// on the address that `msg` is about.
pub fn execute(
    config: &Config,
    whitelist: &mut Whitelist,
    env: Env,
    info: MessageInfo,
    msg: ExecuteMsg,
    verdict: Result<(), StdError>,
) -> (result: Result<Response<SubMsg>, ContractError>)
    requires
        old(whitelist).well_formed(),
    ensures
        final(whitelist).well_formed(),
        match msg {
            ExecuteMsg::AddToWhiteList { address } => is_list_result(
                config@,
                info.sender@,
                "add_to_whitelist"@,
                address@,
                verdict,
                result,
            ),
            ExecuteMsg::RemoveFromWhiteList { address } => is_list_result(
                config@,
                info.sender@,
                "remove_from_whitelist"@,
                address@,
                verdict,
                result,
            ),
            ExecuteMsg::Mint { amount, recipient } => {
                let to = mint_recipient(info.sender@, recipient.deep_view());
                &&& is_mint_result(
                    config@,
                    old(whitelist)@,
                    info.sender@,
                    amount,
                    to,
                    verdict is Ok,
                    cw20_mint_json(to, amount),
                    result,
                )
                &&& mint_outcome(
                    config@,
                    old(whitelist)@,
                    info.sender@,
                    verdict is Ok,
                    cw20_mint_json(to, amount) is Some,
                ) is RecipientRejected ==> result == Err::<Response<SubMsg>, ContractError>(
                    ContractError::Std(verdict->Err_0),
                )
            },
        },
        (State { config: config@, whitelist: final(whitelist)@ }) == step(
            State { config: config@, whitelist: old(whitelist)@ },
            call_of(info.sender@, msg, verdict is Ok),
        ),
        result is Err ==> final(whitelist)@ == old(whitelist)@,
{
    match msg {
        ExecuteMsg::AddToWhiteList { address } => add_to_whitelist(
            config,
            whitelist,
            env,
            info,
            address,
            verdict,
        ),
        ExecuteMsg::RemoveFromWhiteList { address } => remove_from_whitelist(
            config,
            whitelist,
            env,
            info,
            address,
            verdict,
        ),
        ExecuteMsg::Mint { amount, recipient } => mint_tokens(
            config,
            whitelist,
            env,
            info,
            amount,
            recipient,
            verdict,
        ),
    }
}

/// Answers `msg`: with the record, or with whether an address is on the
/// access list. `verdict` is the host's verdict on that address; a query
/// for the record does not look at it.
///
/// A query about an address that the host rejected fails with the host's
/// error.
pub fn query(
    config: &Config,
    whitelist: &Whitelist,
    _env: Env,
    msg: QueryMsg,
    verdict: Result<(), StdError>,
) -> (result: Result<QueryResponse, StdError>)
    ensures
        match msg {
            QueryMsg::GetConfig {  } => {
                &&& result matches Ok(QueryResponse::Config(answer))
                &&& answer.admin@ == config@.admin
                &&& answer.token_contract.deep_view() == config@.token_contract
            },
            QueryMsg::IsWhitelisted { address } => match verdict {
                Err(e) => result == Err::<QueryResponse, StdError>(e),
                Ok(_) => result == Ok::<QueryResponse, StdError>(
                    QueryResponse::IsWhitelisted(whitelist@.contains(address@)),
                ),
            },
        },
{
    match msg {
        QueryMsg::GetConfig {  } => Ok(
            QueryResponse::Config(
                ConfigResponse {
                    admin: config.admin.clone().into_string(),
                    token_contract: match &config.token_contract {
                        Some(addr) => Some(addr.clone().into_string()),
                        None => None,
                    },
                },
            ),
        ),
        QueryMsg::IsWhitelisted { address } => {
            if let Err(e) = verdict {
                return Err(e);
            }
            let addr = Addr::unchecked(address.as_str());
            let is_whitelisted = whitelist.contains(&addr);
            Ok(QueryResponse::IsWhitelisted(is_whitelisted))
        },
    }
}

} // verus!
