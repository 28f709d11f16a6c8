//! The minter's record.
use crate::host::Addr;
use vstd::prelude::*;

verus! {

/// What the minter knows of itself.
#[derive(Debug, PartialEq, Eq)]
pub struct Config {
    /// The token contract; absent until its creation has been reported.
    pub token_contract: Option<Addr>,
    /// The only account that may mint; absent until an account has minted.
    pub minter: Option<Addr>,
}

/// What a [`Config`] holds, as mathematical values.
pub struct ConfigView {
    pub token_contract: Option<Seq<char>>,
    pub minter: Option<Seq<char>>,
}

impl View for Config {
    type V = ConfigView;

    open spec fn view(&self) -> ConfigView {
        ConfigView {
            token_contract: self.token_contract.deep_view(),
            minter: self.minter.deep_view(),
        }
    }
}

impl Clone for Config {
    fn clone(&self) -> (copy: Config)
        ensures
            copy@ == self@,
    {
        Config {
            token_contract: match &self.token_contract {
                Some(addr) => Some(addr.clone()),
                None => None,
            },
            minter: match &self.minter {
                Some(addr) => Some(addr.clone()),
                None => None,
            },
        }
    }
}

} // verus!
