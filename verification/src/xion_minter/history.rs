//! What holds of the minter's record over any sequence of calls.
use crate::factory::{bind_outcome, token_after_bind};
use crate::xion_minter::contract::{
    config_after_mint, mint_outcome, MintOutcome, INSTANTIATE_TOKEN_REPLY_ID,
};
use crate::xion_minter::state::ConfigView;
use vstd::prelude::*;

verus! {

/// A call that can change the record, with what the host said in it.
pub enum Call {
    /// `sender` asks to mint `amount` tokens; `accepted` says whether the
    /// host accepted the address that the mint goes to, and `encoded`
    /// whether the mint message could be written.
    Mint { sender: Seq<char>, amount: u128, accepted: bool, encoded: bool },
    /// The host delivers, under `id`, an outcome that names `address`;
    /// `accepted` says whether the host accepted that address.
    Reply { id: u64, address: Option<Seq<char>>, accepted: bool },
}

impl Call {
    /// How this call ends on the record `config`, if it is a mint.
    pub open spec fn mints(self, config: ConfigView) -> MintOutcome
        recommends
            self is Mint,
    {
        mint_outcome(config, self->sender, self->amount, self->Mint_accepted, self->encoded)
    }

    /// Whether this call is the delivery of the outcome of the token's
    /// creation, with an address that the host accepted.
    pub open spec fn delivers_address(self) -> bool {
        &&& self is Reply
        &&& self->id == INSTANTIATE_TOKEN_REPLY_ID
        &&& self->address is Some
        &&& self->Reply_accepted
    }
}

/// The record after `call`, as `mint_tokens` and `reply` leave it.
pub open spec fn step(config: ConfigView, call: Call) -> ConfigView {
    match call {
        Call::Mint { sender, .. } => config_after_mint(config, sender, call.mints(config)),
        Call::Reply { id, address, accepted } => if id == INSTANTIATE_TOKEN_REPLY_ID {
            ConfigView {
                token_contract: token_after_bind(
                    config.token_contract,
                    address,
                    bind_outcome(config.token_contract, address, accepted),
                ),
                minter: config.minter,
            }
        } else {
            config
        },
    }
}

/// The record after the calls `calls`, made one after the other.
pub open spec fn run(config: ConfigView, calls: Seq<Call>) -> ConfigView
    decreases calls.len(),
{
    if calls.len() == 0 {
        config
    } else {
        step(run(config, calls.drop_last()), calls.last())
    }
}

/// A token contract that is bound stays bound, and stays the same, whatever
/// is called.
pub proof fn token_contract_stays(config: ConfigView, calls: Seq<Call>)
    requires
        config.token_contract is Some,
    ensures
        run(config, calls).token_contract == config.token_contract,
    decreases calls.len(),
{
    if calls.len() > 0 {
        token_contract_stays(config, calls.drop_last());
    }
}

/// A minter that is set stays the minter, whatever is called.
pub proof fn minter_stays(config: ConfigView, calls: Seq<Call>)
    requires
        config.minter is Some,
    ensures
        run(config, calls).minter == config.minter,
    decreases calls.len(),
{
    if calls.len() > 0 {
        minter_stays(config, calls.drop_last());
    }
}

/// The token contract is absent until the outcome of its creation is
/// delivered with an address that the host accepts. The first such delivery
/// binds its address, and that address is the token contract ever after.
pub proof fn token_contract_bound_once(config: ConfigView, calls: Seq<Call>)
    requires
        config.token_contract is None,
    ensures
        (forall|i: int| 0 <= i < calls.len() ==> !(#[trigger] calls[i]).delivers_address()) ==> run(
            config,
            calls,
        ).token_contract is None,
        forall|first: int|
            0 <= first < calls.len() && (#[trigger] calls[first]).delivers_address() && (forall|
                i: int,
            |
                0 <= i < first ==> !(#[trigger] calls[i]).delivers_address()) ==> run(
                config,
                calls,
            ).token_contract == calls[first]->address,
    decreases calls.len(),
{
    if calls.len() > 0 {
        let before = calls.drop_last();
        token_contract_bound_once(config, before);
        assert(forall|i: int| 0 <= i < before.len() ==> before[i] == calls[i]);
    }
}

/// The first account whose mint is done becomes the minter. After that, and
/// after whatever else is called, a mint by any other account is refused as
/// unauthorized, and a mint by the minter of an amount that is not zero,
/// with an accepted recipient and a written message, is done again and
/// leaves the record as it is.
pub proof fn first_minter_stays(config: ConfigView, first: Call, later: Seq<Call>, next: Call)
    requires
        config.minter is None,
        first is Mint,
        first.mints(config) is Minted,
        next is Mint,
    ensures
        step(config, first).minter == Some(first->sender),
        run(step(config, first), later).minter == Some(first->sender),
        next->sender != first->sender ==> next.mints(run(step(config, first), later))
            is Unauthorized,
        next->sender == first->sender && next->amount != 0 && next->Mint_accepted && next->encoded
            ==> {
            &&& next.mints(run(step(config, first), later)) is Minted
            &&& step(run(step(config, first), later), next) == run(step(config, first), later)
        },
{
    let claimed = step(config, first);
    minter_stays(claimed, later);
    token_contract_stays(claimed, later);
}

/// A mint asked for before a token contract is bound is refused for that
/// reason, whoever asks, and changes nothing.
pub proof fn mint_before_binding_is_refused(config: ConfigView, call: Call)
    requires
        config.token_contract is None,
        call is Mint,
    ensures
        call.mints(config) is NoChildResource,
        step(config, call) == config,
{
}

/// A mint of zero tokens by an account that may mint, be it the minter or,
/// while there is none, anyone, is refused as an invalid amount and makes
/// nobody the minter.
pub proof fn mint_of_zero_is_refused(config: ConfigView, call: Call)
    requires
        config.token_contract is Some,
        call is Mint,
        call->amount == 0,
        config.minter is None || config.minter == Some(call->sender),
    ensures
        call.mints(config) is InvalidAmount,
        step(config, call) == config,
{
}

} // verus!
