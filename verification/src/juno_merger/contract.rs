//! The merger's entry points.
use crate::encoding::{
    base64_encode, base64_text, cw20_mint_json, decimal_text, encode_cw20_mint, uint128_text,
};
use crate::error::ContractError;
use crate::host::{Addr, AttributeView, Env, MessageInfo, Response, ResponseView};
use crate::juno_merger::msg::{
    CallbackRequest, CallbackRequestView, Cw20ReceiveMsg, ExecuteMsg, InstantiateMsg, NoteMsg,
    NoteMsgView, PolytoneExecuteMsg, PolytoneExecuteMsgView, QueryMsg, ReceiveMsg, RemoteExecute,
    RemoteExecuteView,
};
use crate::juno_merger::state::{Config, ConfigView};
use cosmwasm_std::StdError;
use vstd::prelude::*;
use vstd::string::*;

verus! {

/// How long the note contract waits for the other chain, in seconds.
pub const RELAY_TIMEOUT_SECONDS: u64 = 300;

/// What the callback that reports on the relayed mint carries.
pub open spec fn callback_bytes() -> Seq<u8> {
    "mint_complete".spec_bytes()
}

/// The envelope that relays one call of the minting contract, written as
/// the base64 text `instruction`, with a callback to the merger at `merger`
/// that carries the base64 text `callback`, and the timeout.
pub open spec fn relay_envelope(
    config: ConfigView,
    merger: Seq<char>,
    instruction: Seq<char>,
    callback: Seq<char>,
) -> PolytoneExecuteMsgView {
    PolytoneExecuteMsgView::Execute {
        msgs: seq![
            RemoteExecuteView {
                contract_addr: config.xion_mint_contract,
                msg: instruction,
                funds: seq![],
            },
        ],
        callback: Some(CallbackRequestView { receiver: merger, msg: callback }),
        timeout_seconds: RELAY_TIMEOUT_SECONDS,
    }
}

/// What the merger answers to a lock of `amount` tokens of `token` by
/// `from_user` for `recipient`: the envelope with the two base64 texts, sent
/// to the note contract, and a record of the lock.
pub open spec fn lock_response_with(
    config: ConfigView,
    merger: Seq<char>,
    token: Seq<char>,
    from_user: Seq<char>,
    amount: u128,
    recipient: Seq<char>,
    instruction: Seq<char>,
    callback: Seq<char>,
) -> ResponseView<NoteMsgView> {
    ResponseView {
        messages: seq![
            NoteMsgView {
                contract_addr: config.note_contract,
                msg: relay_envelope(config, merger, instruction, callback),
                funds: seq![],
            },
        ],
        attributes: seq![
            AttributeView { key: "action"@, value: "lock_and_mint"@ },
            AttributeView { key: "locked_token"@, value: token },
            AttributeView { key: "from_user"@, value: from_user },
            AttributeView { key: "amount_locked"@, value: decimal_text(amount as nat) },
            AttributeView { key: "xion_recipient"@, value: recipient },
        ],
    }
}

/// What the merger answers to a lock of `amount` tokens of `token` by
/// `from_user` for `recipient`, where `json` is the JSON text of the message
/// that mints `amount` tokens to `recipient`: the inner call is `json` in
/// base64, and the callback carries `mint_complete` in base64.
pub open spec fn lock_response(
    config: ConfigView,
    merger: Seq<char>,
    token: Seq<char>,
    from_user: Seq<char>,
    amount: u128,
    recipient: Seq<char>,
    json: Seq<u8>,
) -> ResponseView<NoteMsgView> {
    lock_response_with(
        config,
        merger,
        token,
        from_user,
        amount,
        recipient,
        base64_text(json),
        base64_text(callback_bytes()),
    )
}

/// Builds the answer to a lock of `amount` tokens of `token` by `from_user`
/// for `recipient`, where `instruction` and `callback` are the base64 texts
/// of the inner call and of the callback's message.
pub fn lock_with(
    config: &Config,
    merger: &Addr,
    token: &Addr,
    from_user: &str,
    amount: u128,
    recipient: &str,
    instruction: String,
    callback: String,
) -> (response: Response<NoteMsg>)
    ensures
        response@ == lock_response_with(
            config@,
            merger@,
            token@,
            from_user@,
            amount,
            recipient@,
            instruction@,
            callback@,
        ),
{
    let ghost expected = lock_response_with(
        config@,
        merger@,
        token@,
        from_user@,
        amount,
        recipient@,
        instruction@,
        callback@,
    );
    let ghost envelope = relay_envelope(config@, merger@, instruction@, callback@);
    let inner = RemoteExecute {
        contract_addr: config.xion_mint_contract.clone(),
        msg: instruction,
        funds: Vec::new(),
    };
    assert(inner.funds.deep_view() =~= seq![]);
    let mut msgs: Vec<RemoteExecute> = Vec::new();
    msgs.push(inner);
    assert(msgs.deep_view() =~= envelope->msgs);
    let execute_msg = PolytoneExecuteMsg::Execute {
        msgs,
        callback: Some(CallbackRequest { receiver: merger.as_str().to_owned(), msg: callback }),
        timeout_seconds: RELAY_TIMEOUT_SECONDS,
    };
    let note_msg = NoteMsg {
        contract_addr: config.note_contract.as_str().to_owned(),
        msg: execute_msg,
        funds: Vec::new(),
    };
    let amount_text = uint128_text(amount);
    let response = Response::new().add_message(note_msg).add_attribute(
        "action",
        "lock_and_mint",
    ).add_attribute("locked_token", token.as_str()).add_attribute(
        "from_user",
        from_user,
    ).add_attribute("amount_locked", amount_text.as_str()).add_attribute(
        "xion_recipient",
        recipient,
    );
    assert(response@.attributes =~= expected.attributes);
    response
}

/// Relays a lock of `amount` tokens of `token` by `from_user` for
/// `recipient`, where `json` is what writing the message that mints `amount`
/// tokens to `recipient` gave.
///
/// The message, in base64, becomes the inner call of the envelope. The
/// failure to write one fails the call with that error.
pub fn relay_lock(
    config: &Config,
    merger: &Addr,
    token: &Addr,
    from_user: &str,
    amount: u128,
    recipient: &str,
    json: Result<Vec<u8>, StdError>,
) -> (result: Result<Response<NoteMsg>, ContractError>)
    ensures
        match json {
            Ok(bytes) => {
                &&& result is Ok
                &&& result->Ok_0@ == lock_response(
                    config@,
                    merger@,
                    token@,
                    from_user@,
                    amount,
                    recipient@,
                    bytes@,
                )
            },
            Err(e) => result == Err::<Response<NoteMsg>, ContractError>(ContractError::Std(e)),
        },
{
    let json = match json {
        Ok(json) => json,
        Err(e) => {
            return Err(ContractError::Std(e));
        },
    };
    let base64_msg = base64_encode(json.as_slice());
    let callback = base64_encode("mint_complete".as_bytes());
    Ok(lock_with(config, merger, token, from_user, amount, recipient, base64_msg, callback))
}

/// Whether `result` is what the merger at `merger` owes to a notification
/// from the contract `token` that `from_user` sent it `amount` tokens, with
/// `hook` attached.
pub open spec fn is_receive_result(
    config: ConfigView,
    merger: Seq<char>,
    token: Seq<char>,
    from_user: Seq<char>,
    amount: u128,
    hook: Option<ReceiveMsg>,
    result: Result<Response<NoteMsg>, ContractError>,
) -> bool {
    if !config.accepts(token) {
        result == Err::<Response<NoteMsg>, ContractError>(ContractError::InvalidToken)
    } else {
        match hook {
            None => result == Err::<Response<NoteMsg>, ContractError>(
                ContractError::InvalidMessage,
            ),
            Some(ReceiveMsg::Lock { xion_meta_account }) => match cw20_mint_json(
                xion_meta_account@,
                amount,
            ) {
                Some(json) => {
                    &&& result is Ok
                    &&& result->Ok_0@ == lock_response(
                        config,
                        merger,
                        token,
                        from_user,
                        amount,
                        xion_meta_account@,
                        json,
                    )
                },
                None => result matches Err(ContractError::Std(_)),
            },
        }
    }
}

/// Handles the notification `cw20_msg` that tokens were sent to the merger
/// at `env.contract.address`. The caller `info.sender` is the token's
/// contract. `hook` is what the attached message `cw20_msg.msg` decodes to,
/// `None` where it is no known hook.
///
/// A notification from a contract other than the two tokens is refused with
/// `InvalidToken`, whatever is attached. One of the two tokens without a
/// known hook is refused with `InvalidMessage`. Otherwise the answer holds
/// exactly one message, to the note contract, that relays the mint: see
/// [`relay_lock`], whose answer this is for the mint message of that
/// recipient and amount. The recipient is written into that message as a
/// JSON string, whatever characters it holds.
pub fn receive_cw20(
    config: &Config,
    env: Env,
    info: MessageInfo,
    cw20_msg: Cw20ReceiveMsg,
    hook: Option<ReceiveMsg>,
) -> (result: Result<Response<NoteMsg>, ContractError>)
    ensures
        is_receive_result(
            config@,
            env.contract.address@,
            info.sender@,
            cw20_msg.sender@,
            cw20_msg.amount,
            hook,
            result,
        ),
        !config@.accepts(info.sender@) ==> result == Err::<Response<NoteMsg>, ContractError>(
            ContractError::InvalidToken,
        ),
{
    if !info.sender.same_as(&config.token_a) && !info.sender.same_as(&config.token_b) {
        return Err(ContractError::InvalidToken);
    }
    match hook {
        None => Err(ContractError::InvalidMessage),
        Some(ReceiveMsg::Lock { xion_meta_account }) => {
            let json = encode_cw20_mint(xion_meta_account.as_str(), cw20_msg.amount);
            relay_lock(
                config,
                &env.contract.address,
                &info.sender,
                cw20_msg.sender.as_str(),
                cw20_msg.amount,
                xion_meta_account.as_str(),
                json,
            )
        },
    }
}

/// The record that `msg` sets up.
pub open spec fn initial_config(msg: InstantiateMsg) -> ConfigView {
    ConfigView {
        note_contract: msg.note_contract@,
        token_a: msg.token_a@,
        token_b: msg.token_b@,
        xion_mint_contract: msg.xion_mint_contract@,
    }
}

/// What the merger answers when it is set up with `msg`.
pub open spec fn instantiate_response(msg: InstantiateMsg) -> ResponseView<NoteMsgView> {
    ResponseView {
        messages: seq![],
        attributes: seq![
            AttributeView { key: "action"@, value: "instantiate"@ },
            AttributeView { key: "token_a"@, value: msg.token_a@ },
            AttributeView { key: "token_b"@, value: msg.token_b@ },
            AttributeView { key: "note_contract"@, value: msg.note_contract@ },
            AttributeView { key: "xion_mint_contract"@, value: msg.xion_mint_contract@ },
        ],
    }
}

/// Sets the merger up. `note_contract`, `token_a` and `token_b` are the
/// host's verdicts on the three addresses of that name in `msg`.
///
/// The first address that the host rejected, in that order, has the call
/// fail with the host's error. Where it accepted all three, the record holds
/// the four values of `msg` and the answer records them.
pub fn instantiate(
    _env: Env,
    _info: MessageInfo,
    msg: InstantiateMsg,
    note_contract: Result<(), StdError>,
    token_a: Result<(), StdError>,
    token_b: Result<(), StdError>,
) -> (result: Result<(Config, Response<NoteMsg>), ContractError>)
    ensures
        match (note_contract, token_a, token_b) {
            (Err(e), _, _) => result == Err::<(Config, Response<NoteMsg>), ContractError>(
                ContractError::Std(e),
            ),
            (Ok(_), Err(e), _) => result == Err::<(Config, Response<NoteMsg>), ContractError>(
                ContractError::Std(e),
            ),
            (Ok(_), Ok(_), Err(e)) => result == Err::<(Config, Response<NoteMsg>), ContractError>(
                ContractError::Std(e),
            ),
            (Ok(_), Ok(_), Ok(_)) => {
                &&& result is Ok
                &&& result->Ok_0.0@ == initial_config(msg)
                &&& result->Ok_0.1@ == instantiate_response(msg)
            },
        },
{
    if let Err(e) = note_contract {
        return Err(ContractError::Std(e));
    }
    if let Err(e) = token_a {
        return Err(ContractError::Std(e));
    }
    if let Err(e) = token_b {
        return Err(ContractError::Std(e));
    }
    let config = Config {
        note_contract: Addr::unchecked(msg.note_contract.as_str()),
        token_a: Addr::unchecked(msg.token_a.as_str()),
        token_b: Addr::unchecked(msg.token_b.as_str()),
        xion_mint_contract: msg.xion_mint_contract.clone(),
    };
    let response = Response::new().add_attribute("action", "instantiate").add_attribute(
        "token_a",
        msg.token_a.as_str(),
    ).add_attribute("token_b", msg.token_b.as_str()).add_attribute(
        "note_contract",
        msg.note_contract.as_str(),
    ).add_attribute("xion_mint_contract", msg.xion_mint_contract.as_str());
    assert(response@.attributes =~= instantiate_response(msg).attributes);
    Ok((config, response))
}

/// Runs `msg`. Its one kind is the notification of a transfer: see
/// [`receive_cw20`], whose answer this is.
pub fn execute(
    config: &Config,
    env: Env,
    info: MessageInfo,
    msg: ExecuteMsg,
    hook: Option<ReceiveMsg>,
) -> (result: Result<Response<NoteMsg>, ContractError>)
    ensures
        is_receive_result(
            config@,
            env.contract.address@,
            info.sender@,
            msg->Receive_0.sender@,
            msg->Receive_0.amount,
            hook,
            result,
        ),
        !config@.accepts(info.sender@) ==> result == Err::<Response<NoteMsg>, ContractError>(
            ContractError::InvalidToken,
        ),
{
    match msg {
        ExecuteMsg::Receive(cw20_receive) => receive_cw20(config, env, info, cw20_receive, hook),
    }
}

/// Answers `msg`. Its one kind asks for the record, which is returned as it
/// stands.
pub fn query(config: &Config, _env: Env, msg: QueryMsg) -> (answer: Config)
    ensures
        answer@ == config@,
{
    match msg {
        QueryMsg::GetConfig {  } => config.clone(),
    }
}

} // verus!
