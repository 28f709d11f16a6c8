//! The minter's record and its access list.
use crate::host::Addr;
use vstd::prelude::*;

verus! {

/// What the minter knows of itself.
#[derive(Debug, PartialEq, Eq)]
pub struct Config {
    /// The account that may mint and that keeps the access list.
    pub admin: Addr,
    /// The token contract; absent until its creation has been reported.
    pub token_contract: Option<Addr>,
}

/// What a [`Config`] holds, as mathematical values.
pub struct ConfigView {
    pub admin: Seq<char>,
    pub token_contract: Option<Seq<char>>,
}

impl View for Config {
    type V = ConfigView;

    open spec fn view(&self) -> ConfigView {
        ConfigView { admin: self.admin@, token_contract: self.token_contract.deep_view() }
    }
}

impl Clone for Config {
    fn clone(&self) -> (copy: Config)
        ensures
            copy@ == self@,
    {
        Config {
            admin: self.admin.clone(),
            token_contract: match &self.token_contract {
                Some(addr) => Some(addr.clone()),
                None => None,
            },
        }
    }
}

/// The accounts, besides the admin, that may mint. An account is on the
/// list or it is not: the list has no order and holds no account twice.
#[derive(Debug)]
pub struct Whitelist {
    entries: Vec<Addr>,
}

impl View for Whitelist {
    type V = Set<Seq<char>>;

    closed spec fn view(&self) -> Set<Seq<char>> {
        self.entries.deep_view().to_set()
    }
}

impl Whitelist {
    /// Whether the list is as every list made by these functions is: it
    /// holds no account twice.
    pub closed spec fn well_formed(&self) -> bool {
        self.entries.deep_view().no_duplicates()
    }

    /// The list with no account on it.
    pub fn new() -> (list: Whitelist)
        ensures
            list.well_formed(),
            list@ == Set::<Seq<char>>::empty(),
    {
        Whitelist { entries: Vec::new() }
    }

    /// Where `addr` stands in the entries, if it is among them.
    fn position(&self, addr: &Addr) -> (place: Option<usize>)
        ensures
            match place {
                Some(at) => at < self.entries.len() && self.entries.deep_view()[at as int]
                    == addr@,
                None => !self@.contains(addr@),
            },
    {
        let ghost views = self.entries.deep_view();
        let mut at: usize = 0;
        while at < self.entries.len()
            invariant
                at <= self.entries.len(),
                views == self.entries.deep_view(),
                forall|earlier: int| 0 <= earlier < at ==> #[trigger] views[earlier] != addr@,
            decreases self.entries.len() - at,
        {
            if self.entries[at].same_as(addr) {
                return Some(at);
            }
            at += 1;
        }
        None
    }

    /// Whether `addr` is on the list.
    pub fn contains(&self, addr: &Addr) -> (listed: bool)
        ensures
            listed == self@.contains(addr@),
    {
        self.position(addr).is_some()
    }

    /// Puts `addr` on the list. Nothing changes where it is on it already.
    pub fn insert(&mut self, addr: Addr)
        requires
            old(self).well_formed(),
        ensures
            final(self).well_formed(),
            final(self)@ == old(self)@.insert(addr@),
    {
        if self.position(&addr).is_none() {
            let ghost before = self.entries.deep_view();
            self.entries.push(addr);
            proof {
                assert(self.entries.deep_view() =~= before.push(addr@));
                before.lemma_push_to_set_commute(addr@);
            }
        }
    }

    /// Takes `addr` off the list. Nothing changes where it is not on it.
    pub fn remove(&mut self, addr: &Addr)
        requires
            old(self).well_formed(),
        ensures
            final(self).well_formed(),
            final(self)@ == old(self)@.remove(addr@),
    {
        if let Some(at) = self.position(addr) {
            let ghost before = self.entries.deep_view();
            self.entries.remove(at);
            proof {
                let after = self.entries.deep_view();
                assert(after =~= before.remove(at as int));
                assert forall|a: Seq<char>| before.contains(a) && a != addr@ implies after.contains(
                    a,
                ) by {
                    let i = choose|i: int| 0 <= i < before.len() && before[i] == a;
                    if i < at {
                        assert(after[i] == a);
                    } else {
                        assert(after[i - 1] == a);
                    }
                }
            }
        }
    }
}

} // verus!
