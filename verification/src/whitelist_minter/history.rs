//! What holds of the minter's record and access list over any sequence of
//! calls.
use crate::encoding::cw20_mint_json;
use crate::factory::{bind_outcome, token_after_bind};
use crate::mint::mint_recipient;
use crate::whitelist_minter::contract::{
    list_outcome, mint_outcome, MintOutcome, INSTANTIATE_TOKEN_REPLY_ID,
};
use crate::whitelist_minter::msg::ExecuteMsg;
use crate::whitelist_minter::state::ConfigView;
use vstd::prelude::*;

verus! {

/// What the minter keeps: its record and the accounts on its access list.
pub struct State {
    pub config: ConfigView,
    pub whitelist: Set<Seq<char>>,
}

/// A call, with what the host said in it.
pub enum Call {
    /// `sender` asks to put `account` on the access list; `accepted` says
    /// whether the host accepted the address of `account`.
    Add { sender: Seq<char>, account: Seq<char>, accepted: bool },
    /// `sender` asks to take `account` off the access list.
    Remove { sender: Seq<char>, account: Seq<char>, accepted: bool },
    /// `sender` asks to mint; `accepted` says whether the host accepted the
    /// address that the mint goes to, and `encoded` whether the mint message
    /// could be written.
    Mint { sender: Seq<char>, accepted: bool, encoded: bool },
    /// The host delivers, under `id`, an outcome that names `address`.
    Reply { id: u64, address: Option<Seq<char>>, accepted: bool },
}

impl Call {
    /// How this call ends in the state `state`, if it is a mint.
    pub open spec fn mints(self, state: State) -> MintOutcome
        recommends
            self is Mint,
    {
        mint_outcome(
            state.config,
            state.whitelist,
            self->Mint_sender,
            self->Mint_accepted,
            self->encoded,
        )
    }

    /// Whether this call is the delivery of the outcome of the token's
    /// creation, with an address that the host accepted.
    pub open spec fn delivers_address(self) -> bool {
        &&& self is Reply
        &&& self->id == INSTANTIATE_TOKEN_REPLY_ID
        &&& self->address is Some
        &&& self->Reply_accepted
    }
}

/// The call that running `msg` for `sender` is, where `accepted` says
/// whether the host accepted the address that `msg` is about.
pub open spec fn call_of(sender: Seq<char>, msg: ExecuteMsg, accepted: bool) -> Call {
    match msg {
        ExecuteMsg::AddToWhiteList { address } => Call::Add { sender, account: address@, accepted },
        ExecuteMsg::RemoveFromWhiteList { address } => Call::Remove {
            sender,
            account: address@,
            accepted,
        },
        ExecuteMsg::Mint { amount, recipient } => Call::Mint {
            sender,
            accepted,
            encoded: cw20_mint_json(mint_recipient(sender, recipient.deep_view()), amount) is Some,
        },
    }
}

/// The record after the host has delivered, under `id`, an outcome that
/// names `address`.
pub open spec fn config_after_reply(
    config: ConfigView,
    id: u64,
    address: Option<Seq<char>>,
    accepted: bool,
) -> ConfigView {
    if id == INSTANTIATE_TOKEN_REPLY_ID {
        ConfigView {
            admin: config.admin,
            token_contract: token_after_bind(
                config.token_contract,
                address,
                bind_outcome(config.token_contract, address, accepted),
            ),
        }
    } else {
        config
    }
}

/// The state after `call`, as the entry points leave it. A mint changes
/// nothing.
pub open spec fn step(state: State, call: Call) -> State {
    match call {
        Call::Add { sender, account, accepted } => if list_outcome(state.config, sender, accepted)
            is Listed {
            State { config: state.config, whitelist: state.whitelist.insert(account) }
        } else {
            state
        },
        Call::Remove { sender, account, accepted } => if list_outcome(
            state.config,
            sender,
            accepted,
        ) is Listed {
            State { config: state.config, whitelist: state.whitelist.remove(account) }
        } else {
            state
        },
        Call::Mint { .. } => state,
        Call::Reply { id, address, accepted } => State {
            config: config_after_reply(state.config, id, address, accepted),
            whitelist: state.whitelist,
        },
    }
}

/// The state after the calls `calls`, made one after the other.
pub open spec fn run(state: State, calls: Seq<Call>) -> State
    decreases calls.len(),
{
    if calls.len() == 0 {
        state
    } else {
        step(run(state, calls.drop_last()), calls.last())
    }
}

/// The admin stays the admin, whatever is called.
pub proof fn admin_stays(state: State, calls: Seq<Call>)
    ensures
        run(state, calls).config.admin == state.config.admin,
    decreases calls.len(),
{
    if calls.len() > 0 {
        admin_stays(state, calls.drop_last());
    }
}

/// A token contract that is bound stays bound, and stays the same, whatever
/// is called.
pub proof fn token_contract_stays(state: State, calls: Seq<Call>)
    requires
        state.config.token_contract is Some,
    ensures
        run(state, calls).config.token_contract == state.config.token_contract,
    decreases calls.len(),
{
    if calls.len() > 0 {
        token_contract_stays(state, calls.drop_last());
    }
}

/// The token contract is absent until the outcome of its creation is
/// delivered with an address that the host accepts. The first such delivery
/// binds its address, and that address is the token contract ever after.
pub proof fn token_contract_bound_once(state: State, calls: Seq<Call>)
    requires
        state.config.token_contract is None,
    ensures
        (forall|i: int| 0 <= i < calls.len() ==> !(#[trigger] calls[i]).delivers_address()) ==> run(
            state,
            calls,
        ).config.token_contract is None,
        forall|first: int|
            0 <= first < calls.len() && (#[trigger] calls[first]).delivers_address() && (forall|
                i: int,
            |
                0 <= i < first ==> !(#[trigger] calls[i]).delivers_address()) ==> run(
                state,
                calls,
            ).config.token_contract == calls[first]->address,
    decreases calls.len(),
{
    if calls.len() > 0 {
        let before = calls.drop_last();
        token_contract_bound_once(state, before);
        assert(forall|i: int| 0 <= i < before.len() ==> before[i] == calls[i]);
    }
}

/// A mint asked for before a token contract is bound is refused for that
/// reason, whoever asks.
pub proof fn mint_before_binding_is_refused(state: State, call: Call)
    requires
        state.config.token_contract is None,
        call is Mint,
    ensures
        call.mints(state) is NoChildResource,
{
}

/// Once a token contract is bound, the admin's mint with an accepted
/// recipient and a written message is done, whatever the access list holds
/// and whatever the amount; the mint of an account that is neither the
/// admin nor listed is refused as unauthorized.
pub proof fn admin_mints_and_strangers_do_not(state: State, call: Call)
    requires
        state.config.token_contract is Some,
        call is Mint,
    ensures
        call->Mint_sender == state.config.admin && call->Mint_accepted && call->encoded
            ==> call.mints(state) is Minted,
        call->Mint_sender != state.config.admin && !state.whitelist.contains(call->Mint_sender)
            ==> call.mints(state) is Unauthorized,
{
}

/// After the admin has put `account` on the access list, `account` mints
/// like the admin: its mint with an accepted recipient and a written
/// message is done.
pub proof fn listed_account_mints(state: State, account: Seq<char>, mint: Call)
    requires
        state.config.token_contract is Some,
        mint is Mint,
        mint->Mint_sender == account,
        mint->Mint_accepted,
        mint->encoded,
    ensures
        mint.mints(
            step(
                state,
                Call::Add { sender: state.config.admin, account, accepted: true },
            ),
        ) is Minted,
{
}

/// After the admin has taken `account` off the access list, the mint of
/// `account` is refused as unauthorized, unless `account` is the admin.
pub proof fn unlisted_account_does_not_mint(state: State, account: Seq<char>, mint: Call)
    requires
        state.config.token_contract is Some,
        account != state.config.admin,
        mint is Mint,
        mint->Mint_sender == account,
    ensures
        mint.mints(
            step(
                state,
                Call::Remove { sender: state.config.admin, account, accepted: true },
            ),
        ) is Unauthorized,
{
}

/// The access list changes only when the admin puts an account on it or
/// takes one off, with an address that the host accepted, and then only as
/// to that account.
pub proof fn list_changes_for_the_admin_only(state: State, call: Call, account: Seq<char>)
    requires
        step(state, call).whitelist.contains(account) != state.whitelist.contains(account),
    ensures
        call is Add || call is Remove,
        call is Add ==> call->Add_sender == state.config.admin && call->Add_accepted
            && call->Add_account == account,
        call is Remove ==> call->Remove_sender == state.config.admin && call->Remove_accepted
            && call->Remove_account == account,
{
}

/// Putting an account on the list twice is the same as once, and so is
/// taking it off twice.
pub proof fn listing_twice_is_listing_once(state: State, call: Call)
    requires
        call is Add || call is Remove,
    ensures
        step(step(state, call), call) == step(state, call),
{
    let once = step(state, call);
    assert(step(once, call).whitelist =~= once.whitelist);
}

} // verus!
