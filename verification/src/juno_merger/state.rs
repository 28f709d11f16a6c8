//! The merger's record.
use crate::host::Addr;
use vstd::prelude::*;

verus! {

/// What the merger was set up with. Nothing changes it afterwards.
#[derive(Debug, PartialEq, Eq)]
pub struct Config {
    /// The contract that relays messages to the other chain.
    pub note_contract: Addr,
    /// The first token that the merger accepts.
    pub token_a: Addr,
    /// The second token that the merger accepts.
    pub token_b: Addr,
    /// The minting contract on the other chain.
    pub xion_mint_contract: String,
}

/// What a [`Config`] holds, as mathematical values.
pub struct ConfigView {
    pub note_contract: Seq<char>,
    pub token_a: Seq<char>,
    pub token_b: Seq<char>,
    pub xion_mint_contract: Seq<char>,
}

impl View for Config {
    type V = ConfigView;

    open spec fn view(&self) -> ConfigView {
        ConfigView {
            note_contract: self.note_contract@,
            token_a: self.token_a@,
            token_b: self.token_b@,
            xion_mint_contract: self.xion_mint_contract@,
        }
    }
}

impl Clone for Config {
    fn clone(&self) -> (copy: Config)
        ensures
            copy@ == self@,
    {
        Config {
            note_contract: self.note_contract.clone(),
            token_a: self.token_a.clone(),
            token_b: self.token_b.clone(),
            xion_mint_contract: self.xion_mint_contract.clone(),
        }
    }
}

impl ConfigView {
    /// Whether the merger accepts transfers of `token`.
    pub open spec fn accepts(self, token: Seq<char>) -> bool {
        token == self.token_a || token == self.token_b
    }
}

} // verus!
