//! Creating the token contract: what it is created with, the submessage
//! that asks the host for it, and the address that the outcome of that
//! submessage reports.
use crate::error::ContractError;
use crate::host::{
    find_event, find_value, first_event, first_value, Addr, AttributeView, EventView, Reply,
    ReplyOn, Response, ResponseView, SubMsg, SubMsgResult, SubMsgView, WasmMsg, WasmMsgView,
};
use cosmwasm_std::StdError;
use vstd::prelude::*;

verus! {

/// A balance that a token starts with.
#[derive(Debug, PartialEq, Eq)]
pub struct Cw20Coin {
    pub address: String,
    pub amount: u128,
}

/// What a [`Cw20Coin`] holds, as mathematical values.
pub struct Cw20CoinView {
    pub address: Seq<char>,
    pub amount: u128,
}

impl View for Cw20Coin {
    type V = Cw20CoinView;

    open spec fn view(&self) -> Cw20CoinView {
        Cw20CoinView { address: self.address@, amount: self.amount }
    }
}

impl DeepView for Cw20Coin {
    type V = Cw20CoinView;

    open spec fn deep_view(&self) -> Cw20CoinView {
        self@
    }
}

/// The account that may mint a token, and the total supply that minting may
/// reach; unlimited where there is no cap.
#[derive(Debug, PartialEq, Eq)]
pub struct MinterResponse {
    pub minter: String,
    pub cap: Option<u128>,
}

/// What a [`MinterResponse`] holds, as mathematical values.
pub struct MinterResponseView {
    pub minter: Seq<char>,
    pub cap: Option<u128>,
}

impl View for MinterResponse {
    type V = MinterResponseView;

    open spec fn view(&self) -> MinterResponseView {
        MinterResponseView { minter: self.minter@, cap: self.cap }
    }
}

impl DeepView for MinterResponse {
    type V = MinterResponseView;

    open spec fn deep_view(&self) -> MinterResponseView {
        self@
    }
}

/// What a token contract is created with. Marketing data, which the token
/// contract also takes, is never given.
#[derive(Debug, PartialEq, Eq)]
pub struct TokenInstantiateMsg {
    pub name: String,
    pub symbol: String,
    pub decimals: u8,
    pub initial_balances: Vec<Cw20Coin>,
    pub mint: Option<MinterResponse>,
}

/// What a [`TokenInstantiateMsg`] holds, as mathematical values.
pub struct TokenInstantiateMsgView {
    pub name: Seq<char>,
    pub symbol: Seq<char>,
    pub decimals: u8,
    pub initial_balances: Seq<Cw20CoinView>,
    pub mint: Option<MinterResponseView>,
}

impl View for TokenInstantiateMsg {
    type V = TokenInstantiateMsgView;

    open spec fn view(&self) -> TokenInstantiateMsgView {
        TokenInstantiateMsgView {
            name: self.name@,
            symbol: self.symbol@,
            decimals: self.decimals,
            initial_balances: self.initial_balances.deep_view(),
            mint: self.mint.deep_view(),
        }
    }
}

/// What the minters create their token with: the given name, symbol and
/// decimals, no balances to start with, and `minter` as the only account
/// that may mint, without a cap.
pub open spec fn token_creation(
    name: Seq<char>,
    symbol: Seq<char>,
    decimals: u8,
    minter: Seq<char>,
) -> TokenInstantiateMsgView {
    TokenInstantiateMsgView {
        name,
        symbol,
        decimals,
        initial_balances: seq![],
        mint: Some(MinterResponseView { minter, cap: None }),
    }
}

/// Builds what the minters create their token with.
pub fn token_creation_msg(
    name: &str,
    symbol: &str,
    decimals: u8,
    minter: &str,
) -> (msg: TokenInstantiateMsg)
    ensures
        msg@ == token_creation(name@, symbol@, decimals, minter@),
{
    let msg = TokenInstantiateMsg {
        name: name.to_owned(),
        symbol: symbol.to_owned(),
        decimals,
        initial_balances: Vec::new(),
        mint: Some(MinterResponse { minter: minter.to_owned(), cap: None }),
    };
    assert(msg@.initial_balances =~= seq![]);
    msg
}

/// The submessage that creates a token from the code `code_id`, with the
/// creation message `json`, and reports back under `reply_id` if it succeeds.
pub open spec fn creation_submsg(
    admin: Option<Seq<char>>,
    code_id: u64,
    json: Seq<u8>,
    label: Seq<char>,
    reply_id: u64,
) -> SubMsgView {
    SubMsgView {
        id: reply_id,
        msg: WasmMsgView::Instantiate { admin, code_id, msg: json, funds: seq![], label },
        reply_on: ReplyOn::Success,
    }
}

/// Builds the submessage that creates a token from the code `code_id`
/// with the creation message `json`, and that reports back under `reply_id`
/// if it succeeds.
pub fn creation_message(
    admin: Option<String>,
    code_id: u64,
    json: Vec<u8>,
    label: &str,
    reply_id: u64,
) -> (submsg: SubMsg)
    ensures
        submsg@ == creation_submsg(admin.deep_view(), code_id, json@, label@, reply_id),
{
    let instantiate_msg = WasmMsg::Instantiate {
        admin,
        code_id,
        msg: json,
        funds: Vec::new(),
        label: label.to_owned(),
    };
    assert(instantiate_msg@->Instantiate_funds =~= seq![]);
    SubMsg::reply_on_success(instantiate_msg, reply_id)
}

/// The address of the contract that these events say was created: the value
/// of the first `_contract_address` attribute of the first `instantiate`
/// event. There is none where no event is of that type, or where the first
/// such event has no such attribute. The lemmas beside [`first_event`] and
/// [`first_value`] say where the two stand.
pub open spec fn instantiated_address(events: Seq<EventView>) -> Option<Seq<char>> {
    match first_event(events, "instantiate"@) {
        Some(event) => first_value(event.attributes, "_contract_address"@),
        None => None,
    }
}

/// The address of the contract that `reply` says was created; none where
/// the submessage failed.
pub open spec fn reported_address(reply: Reply) -> Option<Seq<char>> {
    match reply.events() {
        Some(events) => instantiated_address(events),
        None => None,
    }
}

/// Reads the address of the created contract out of `reply`.
pub fn read_reported_address(reply: &Reply) -> (address: Option<String>)
    ensures
        address.deep_view() == reported_address(*reply),
{
    match &reply.result {
        SubMsgResult::Success(response) => {
            match find_event(&response.events, "instantiate") {
                Some(event) => find_value(&event.attributes, "_contract_address"),
                None => None,
            }
        },
        SubMsgResult::Failure(_) => None,
    }
}

/// How the delivery of the outcome of the token's creation ends.
pub enum BindOutcome {
    /// Refused: the outcome names no contract address.
    MissingAddress,
    /// Refused: the host rejected the address that the outcome names.
    AddressRejected,
    /// Done: the address is now the token contract.
    Bound,
    /// Done, with nothing to do: a token contract was bound before, and
    /// stays.
    Kept,
}

/// How the delivery of an outcome that names `address` ends where `bound`
/// is the token contract so far, and `accepted` says whether the host
/// accepted the address.
pub open spec fn bind_outcome(
    bound: Option<Seq<char>>,
    address: Option<Seq<char>>,
    accepted: bool,
) -> BindOutcome {
    if address is None {
        BindOutcome::MissingAddress
    } else if !accepted {
        BindOutcome::AddressRejected
    } else if bound is None {
        BindOutcome::Bound
    } else {
        BindOutcome::Kept
    }
}

/// The token contract after such a delivery: the address, where it was
/// bound; else what it was.
pub open spec fn token_after_bind(
    bound: Option<Seq<char>>,
    address: Option<Seq<char>>,
    outcome: BindOutcome,
) -> Option<Seq<char>> {
    if outcome is Bound {
        address
    } else {
        bound
    }
}

/// The answer to a delivery after which `token` is the token contract.
pub open spec fn bind_response(token: Seq<char>) -> ResponseView<SubMsgView> {
    ResponseView {
        messages: seq![],
        attributes: seq![
            AttributeView { key: "method"@, value: "handle_cw20_instantiate_reply"@ },
            AttributeView { key: "cw20_contract_addr"@, value: token },
        ],
    }
}

/// Whether `result` and the token contract `after` are what the delivery of
/// the outcome of the token's creation owes, where `before` is the token
/// contract so far, `address` the address that the outcome names, and
/// `verdict` the host's verdict on that address.
pub open spec fn is_bind_result(
    before: Option<Seq<char>>,
    address: Option<Seq<char>>,
    verdict: Result<(), StdError>,
    after: Option<Seq<char>>,
    result: Result<Response<SubMsg>, ContractError>,
) -> bool {
    let outcome = bind_outcome(before, address, verdict is Ok);
    &&& after == token_after_bind(before, address, outcome)
    &&& match outcome {
        BindOutcome::MissingAddress => result == Err::<Response<SubMsg>, ContractError>(
            ContractError::MissingResourceAddress,
        ),
        BindOutcome::AddressRejected => result == Err::<Response<SubMsg>, ContractError>(
            ContractError::Std(verdict->Err_0),
        ),
        BindOutcome::Bound | BindOutcome::Kept => {
            &&& result is Ok
            &&& result->Ok_0@ == bind_response(after->0)
        },
    }
}

/// Binds `address`, the address that the outcome of the token's creation
/// names, as the token contract. `verdict` is the host's verdict on that
/// address; where there is none, it is not looked at.
///
/// An outcome that names no address is refused with
/// `MissingResourceAddress`. It leaves the token contract absent, so a
/// later outcome can still bind. Once a token contract is bound it is never
/// replaced: a further outcome is answered with the address that stays.
pub fn bind_address(
    token_contract: &mut Option<Addr>,
    address: Option<String>,
    verdict: Result<(), StdError>,
) -> (result: Result<Response<SubMsg>, ContractError>)
    ensures
        is_bind_result(
            old(token_contract).deep_view(),
            address.deep_view(),
            verdict,
            final(token_contract).deep_view(),
            result,
        ),
        result is Err ==> final(token_contract).deep_view() == old(token_contract).deep_view(),
        *old(token_contract) is Some ==> final(token_contract).deep_view() == old(
            token_contract,
        ).deep_view(),
{
    let contract_address = match address {
        Some(address) => address,
        None => {
            return Err(ContractError::MissingResourceAddress);
        },
    };
    if let Err(e) = verdict {
        return Err(ContractError::Std(e));
    }
    let bound = match token_contract {
        Some(addr) => addr.clone(),
        None => {
            let validated_addr = Addr::unchecked(contract_address.as_str());
            *token_contract = Some(validated_addr.clone());
            validated_addr
        },
    };
    let response = Response::new().add_attribute(
        "method",
        "handle_cw20_instantiate_reply",
    ).add_attribute("cw20_contract_addr", bound.as_str());
    assert(response@.attributes =~= bind_response(bound@).attributes);
    Ok(response)
}

/// Takes the outcome `msg` of the token's creation and binds the address
/// that it names as the token contract: see [`bind_address`], whose answer
/// this is for the address that [`read_reported_address`] finds. A failed
/// creation names no address.
pub fn bind_token_contract(
    token_contract: &mut Option<Addr>,
    msg: Reply,
    verdict: Result<(), StdError>,
) -> (result: Result<Response<SubMsg>, ContractError>)
    ensures
        is_bind_result(
            old(token_contract).deep_view(),
            reported_address(msg),
            verdict,
            final(token_contract).deep_view(),
            result,
        ),
        result is Err ==> final(token_contract).deep_view() == old(token_contract).deep_view(),
        *old(token_contract) is Some ==> final(token_contract).deep_view() == old(
            token_contract,
        ).deep_view(),
{
    let address = read_reported_address(&msg);
    bind_address(token_contract, address, verdict)
}

} // verus!
