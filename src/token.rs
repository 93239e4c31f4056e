//! Ownership registry: which identity owns each minted token, with an
//! inverse index from each owner to the tokens it holds.
use std::collections::HashMap;
use vstd::prelude::*;
use crate::ledger::{Ledger, entry};
use crate::marketplace::Marketplace;
use crate::types::{MarketError, Operation, Principal, Property};

verus! {

/// Descriptive data of a token; it does not change once stored.
pub struct Token {
    pub id: u128,
    pub url: String,
    pub name: String,
    pub desc: String,
    pub properties: Vec<Property>,
}

/// A token's data together with its current owner.
pub struct TokenDesc {
    pub id: u128,
    pub url: String,
    pub name: String,
    pub desc: String,
    pub owner: Principal,
    pub properties: Vec<Property>,
}

/// Copies a list of properties.
pub fn copy_properties(p: &Vec<Property>) -> (r: Vec<Property>)
    ensures
        r@ == p@,
{
    let mut r: Vec<Property> = Vec::new();
    let mut i: usize = 0;
    while i < p.len()
        invariant
            i <= p@.len(),
            r@ == p@.subrange(0, i as int),
        decreases p@.len() - i,
    {
        r.push(Property { name: p[i].name.clone(), value: p[i].value.clone() });
        i = i + 1;
    }
    assert(p@.subrange(0, p@.len() as int) == p@);
    r
}

/// `m` records `o` as the owner of `t`.
pub open spec fn holds(m: Map<u32, Principal>, o: Seq<char>, t: u32) -> bool {
    m.contains_key(t) && m[t]@ == o
}

/// `idx` is an exact inverse of `m`: owners appear once, each list has no
/// repeats, every listed token is owned by its entry's owner, and every
/// owned token is listed under its owner.
pub open spec fn index_matches(idx: Seq<(Principal, Vec<u32>)>, m: Map<u32, Principal>) -> bool {
    &&& forall|i: int, j: int|
        0 <= i < idx.len() && 0 <= j < idx.len() && i != j ==> #[trigger] idx[i].0@
            != #[trigger] idx[j].0@
    &&& forall|i: int| 0 <= i < idx.len() ==> (#[trigger] idx[i]).1@.no_duplicates()
    &&& forall|i: int, t: u32|
        0 <= i < idx.len() && #[trigger] idx[i].1@.contains(t) ==> holds(m, idx[i].0@, t)
    &&& forall|t: u32|
        #[trigger] m.contains_key(t) ==> exists|i: int|
            0 <= i < idx.len() && idx[i].0@ == m[t]@ && #[trigger] idx[i].1@.contains(t)
}

/// Removing one element from a sequence without repeats removes exactly that value.
proof fn lemma_remove_unique(s: Seq<u32>, p: int)
    requires
        s.no_duplicates(),
        0 <= p < s.len(),
    ensures
        s.remove(p).no_duplicates(),
        forall|x: u32| s.remove(p).contains(x) <==> (s.contains(x) && x != s[p]),
{
    let r = s.remove(p);
    assert forall|x: u32| r.contains(x) <==> (s.contains(x) && x != s[p]) by {
        if r.contains(x) {
            let k = choose|k: int| 0 <= k < r.len() && r[k] == x;
            if k < p {
                assert(s[k] == x);
            } else {
                assert(s[k + 1] == x);
            }
        }
        if s.contains(x) && x != s[p] {
            let k = choose|k: int| 0 <= k < s.len() && s[k] == x;
            if k < p {
                assert(r[k] == x);
            } else {
                assert(k != p);
                assert(r[k - 1] == x);
            }
        }
    }
}

proof fn lemma_push_contains(s: Seq<u32>, x: u32)
    ensures
        forall|y: u32| #[trigger] s.push(x).contains(y) <==> (s.contains(y) || y == x),
{
    assert forall|y: u32| #[trigger] s.push(x).contains(y) <==> (s.contains(y) || y == x) by {
        if s.contains(y) {
            let k = choose|k: int| 0 <= k < s.len() && s[k] == y;
            assert(s.push(x)[k] == y);
        }
        if y == x {
            assert(s.push(x)[s.len() as int] == y);
        }
        if s.push(x).contains(y) {
            let k = choose|k: int| 0 <= k < s.len() + 1 && s.push(x)[k] == y;
            if k < s.len() {
                assert(s[k] == y);
            }
        }
    }
}

pub struct State {
    pub owner: Option<Principal>,
    pub name: String,
    pub symbol: String,
    pub description: String,
    pub icon_url: String,
    /// Pauses every change of the collection.
    pub is_paused: bool,
    /// Number of tokens minted and not burned.
    pub total_supply: u32,
    /// Largest number of tokens the collection may hold.
    pub max_supply: u32,
    /// Metadata of each token id.
    pub tokens: HashMap<u32, Token>,
    /// Current owner of each minted token.
    pub token_owners: HashMap<u32, Principal>,
    /// The tokens of each owner.
    pub owners: Vec<(Principal, Vec<u32>)>,
}

/// Metadata map after storing `ts` into `m` in order; a later token with the
/// same id replaces an earlier one.
pub open spec fn stored(m: Map<u32, Token>, ts: Seq<Token>) -> Map<u32, Token>
    decreases ts.len(),
{
    if ts.len() == 0 {
        m
    } else {
        stored(m, ts.drop_last()).insert(ts.last().id as u32, ts.last())
    }
}

impl State {
    pub open spec fn wf(&self) -> bool {
        &&& self.total_supply == self.token_owners@.len()
        &&& index_matches(self.owners@, self.token_owners@)
    }

    /// `o` currently owns `t`.
    pub open spec fn owns(&self, o: Seq<char>, t: u32) -> bool {
        holds(self.token_owners@, o, t)
    }

    /// Everything but the ownership data is as in `old`.
    pub open spec fn same_settings(&self, old: State) -> bool {
        &&& self.owner == old.owner
        &&& self.name == old.name
        &&& self.symbol == old.symbol
        &&& self.description == old.description
        &&& self.icon_url == old.icon_url
        &&& self.is_paused == old.is_paused
        &&& self.max_supply == old.max_supply
        &&& self.tokens == old.tokens
    }

    /// An empty collection.
    pub fn new(
        owner: Option<Principal>,
        name: String,
        symbol: String,
        description: String,
        max_supply: u32,
    ) -> (r: State)
        ensures
            r.wf(),
            r.owner == owner,
            r.name == name,
            r.symbol == symbol,
            r.description == description,
            r.icon_url@ == "None"@,
            r.is_paused,
            r.max_supply == max_supply,
            r.token_owners@.len() == 0,
            r.tokens@.len() == 0,
            r.owners@.len() == 0,
    {
        State {
            owner,
            name,
            symbol,
            description,
            icon_url: "None".to_owned(),
            is_paused: true,
            total_supply: 0,
            max_supply,
            tokens: HashMap::new(),
            token_owners: HashMap::new(),
            owners: Vec::new(),
        }
    }

    /// Stores token metadata, keyed by the id's low 32 bits.
    pub fn store_tokens(&mut self, tokens: Vec<Token>)
        ensures
            final(self).tokens@ == stored(old(self).tokens@, tokens@),
            final(self).token_owners == old(self).token_owners,
            final(self).owners == old(self).owners,
            final(self).total_supply == old(self).total_supply,
            final(self).owner == old(self).owner,
            final(self).name == old(self).name,
            final(self).symbol == old(self).symbol,
            final(self).description == old(self).description,
            final(self).icon_url == old(self).icon_url,
            final(self).is_paused == old(self).is_paused,
            final(self).max_supply == old(self).max_supply,
    {
        let ghost all = tokens@;
        let mut rest = tokens;
        let ghost mut i: int = 0;
        while rest.len() > 0
            invariant
                0 <= i <= all.len(),
                rest@ == all.subrange(i, all.len() as int),
                self.tokens@ == stored(old(self).tokens@, all.subrange(0, i)),
                self.token_owners == old(self).token_owners,
                self.owners == old(self).owners,
                self.total_supply == old(self).total_supply,
                self.owner == old(self).owner,
                self.name == old(self).name,
                self.symbol == old(self).symbol,
                self.description == old(self).description,
                self.icon_url == old(self).icon_url,
                self.is_paused == old(self).is_paused,
                self.max_supply == old(self).max_supply,
            decreases rest@.len(),
        {
            let t = rest.remove(0);
            proof {
                let next = all.subrange(0, i + 1);
                assert(next.drop_last() == all.subrange(0, i));
                assert(next.last() == t);
            }
            let key: u32 = #[verifier::truncate] (t.id as u32);
            self.tokens.insert(key, t);
            proof {
                i = i + 1;
            }
        }
        assert(all.subrange(0, all.len() as int) == all);
    }

    /// Position of `o`'s entry in the owner index.
    fn find_owner(&self, o: &Principal) -> (r: Option<usize>)
        ensures
            match r {
                Some(i) => i < self.owners@.len() && self.owners@[i as int].0@ == o@,
                None => forall|i: int| 0 <= i < self.owners@.len() ==> self.owners@[i].0@ != o@,
            },
    {
        let mut i: usize = 0;
        while i < self.owners.len()
            invariant
                i <= self.owners@.len(),
                forall|k: int| 0 <= k < i ==> self.owners@[k].0@ != o@,
            decreases self.owners@.len() - i,
        {
            if self.owners[i].0 == *o {
                return Some(i);
            }
            i = i + 1;
        }
        None
    }

    /// Adds `token_id` to the index entry of `to`, its new owner.
    fn assign_to(&mut self, to: &Principal, token_id: u32)
        requires
            old(self).token_owners@.contains_key(token_id),
            old(self).token_owners@[token_id]@ == to@,
            index_matches(old(self).owners@, old(self).token_owners@.remove(token_id)),
        ensures
            index_matches(final(self).owners@, final(self).token_owners@),
            final(self).token_owners == old(self).token_owners,
            final(self).total_supply == old(self).total_supply,
            final(self).same_settings(*old(self)),
    {
        let ghost m = self.token_owners@;
        let ghost idx = self.owners@;
        assert forall|i: int| 0 <= i < idx.len() implies !#[trigger] idx[i].1@.contains(token_id) by {
            if idx[i].1@.contains(token_id) {
                assert(holds(m.remove(token_id), idx[i].0@, token_id));
            }
        }
        match self.find_owner(to) {
            Some(i) => {
                self.owners[i].1.push(token_id);
                proof {
                    let n = self.owners@;
                    assert(n[i as int].1@ == idx[i as int].1@.push(token_id));
                    assert forall|k: int| 0 <= k < n.len() && k != i implies #[trigger] n[k] == idx[k] by {}
                    assert forall|k: int, t: u32|
                        0 <= k < n.len() && #[trigger] n[k].1@.contains(t) implies holds(m, n[k].0@, t) by {
                        if k == i && t == token_id {
                        } else {
                            assert(idx[k].1@.contains(t));
                        }
                    }
                    assert forall|t: u32| #[trigger] m.contains_key(t) implies exists|k: int|
                        0 <= k < n.len() && n[k].0@ == m[t]@ && #[trigger] n[k].1@.contains(t) by {
                        lemma_push_contains(idx[i as int].1@, token_id);
                        if t == token_id {
                            assert(n[i as int].1@.contains(t));
                        } else {
                            assert(m.remove(token_id).contains_key(t));
                            let k = choose|k: int|
                                0 <= k < idx.len() && idx[k].0@ == m.remove(token_id)[t]@
                                    && #[trigger] idx[k].1@.contains(t);
                            assert(n[k].1@.contains(t));
                        }
                    }
                    assert forall|k: int| 0 <= k < n.len() implies (#[trigger] n[k]).1@.no_duplicates() by {
                        if k == i {
                            assert forall|a: int, b: int|
                                0 <= a < n[k].1@.len() && 0 <= b < n[k].1@.len() && a != b
                                implies n[k].1@[a] != n[k].1@[b] by {
                                if a == idx[k].1@.len() as int {
                                    assert(idx[k].1@.contains(n[k].1@[b]));
                                } else if b == idx[k].1@.len() as int {
                                    assert(idx[k].1@.contains(n[k].1@[a]));
                                }
                            }
                        }
                    }
                }
            },
            None => {
                let mut list: Vec<u32> = Vec::new();
                list.push(token_id);
                self.owners.push((to.copy(), list));
                proof {
                    let n = self.owners@;
                    let last = idx.len() as int;
                    assert(n[last].1@ == seq![token_id]);
                    assert forall|k: int| 0 <= k < idx.len() implies #[trigger] n[k] == idx[k] by {}
                    assert forall|k: int, t: u32|
                        0 <= k < n.len() && #[trigger] n[k].1@.contains(t) implies holds(m, n[k].0@, t) by {
                        if k == last {
                            assert(t == token_id);
                        } else {
                            assert(idx[k].1@.contains(t));
                        }
                    }
                    assert forall|t: u32| #[trigger] m.contains_key(t) implies exists|k: int|
                        0 <= k < n.len() && n[k].0@ == m[t]@ && #[trigger] n[k].1@.contains(t) by {
                        if t == token_id {
                            assert(n[last].1@[0] == t);
                            assert(n[last].1@.contains(t));
                            assert(n[last].0@ == m[t]@);
                        } else {
                            assert(m.remove(token_id).contains_key(t));
                            let k = choose|k: int|
                                0 <= k < idx.len() && idx[k].0@ == m.remove(token_id)[t]@
                                    && #[trigger] idx[k].1@.contains(t);
                            assert(n[k].1@.contains(t));
                        }
                    }
                    assert forall|a: int, b: int|
                        0 <= a < n.len() && 0 <= b < n.len() && a != b implies #[trigger] n[a].0@
                        != #[trigger] n[b].0@ by {
                        if a == last {
                            assert(idx[b].0@ != to@);
                        } else if b == last {
                            assert(idx[a].0@ != to@);
                        }
                    }
                }
            },
        }
    }

    /// Removes `token_id` from the index entry of `from`, its current owner.
    /// The index then matches the ownership map without `token_id`.
    fn remove_from(&mut self, from: &Principal, token_id: u32)
        requires
            index_matches(old(self).owners@, old(self).token_owners@),
            old(self).owns(from@, token_id),
        ensures
            index_matches(final(self).owners@, old(self).token_owners@.remove(token_id)),
            final(self).token_owners == old(self).token_owners,
            final(self).total_supply == old(self).total_supply,
            final(self).same_settings(*old(self)),
    {
        let ghost m = self.token_owners@;
        let ghost idx = self.owners@;
        match self.find_owner(from) {
            Some(i) => {
                let mut pos: usize = 0;
                while pos < self.owners[i].1.len() && self.owners[i].1[pos] != token_id
                    invariant
                        self.owners@ == idx,
                        i < idx.len(),
                        pos <= idx[i as int].1@.len(),
                        forall|k: int| 0 <= k < pos ==> idx[i as int].1@[k] != token_id,
                    decreases idx[i as int].1@.len() - pos,
                {
                    pos = pos + 1;
                }
                let found = pos < self.owners[i].1.len();
                proof {
                    let j = choose|j: int|
                        0 <= j < idx.len() && idx[j].0@ == m[token_id]@ && #[trigger] idx[j].1@.contains(token_id);
                    assert(j == i);
                }
                if found {
                    let ghost before = idx[i as int].1@;
                    self.owners[i].1.remove(pos);
                    proof {
                        lemma_remove_unique(before, pos as int);
                        let n = self.owners@;
                        let mr = m.remove(token_id);
                        assert(n[i as int].1@ == before.remove(pos as int));
                        assert forall|k: int| 0 <= k < n.len() && k != i implies #[trigger] n[k] == idx[k] by {}
                        assert forall|k: int, t: u32|
                            0 <= k < n.len() && #[trigger] n[k].1@.contains(t) implies holds(mr, n[k].0@, t) by {
                            assert(idx[k].1@.contains(t));
                            if t == token_id {
                                assert(k != i);
                                assert(idx[k].0@ == from@);
                            }
                        }
                        assert forall|t: u32| #[trigger] mr.contains_key(t) implies exists|k: int|
                            0 <= k < n.len() && n[k].0@ == mr[t]@ && #[trigger] n[k].1@.contains(t) by {
                            assert(m.contains_key(t));
                            let k = choose|k: int|
                                0 <= k < idx.len() && idx[k].0@ == m[t]@ && #[trigger] idx[k].1@.contains(t);
                            assert(n[k].1@.contains(t));
                        }
                    }
                } else {
                    proof {
                        assert(idx[i as int].1@.contains(token_id));
                        let k = choose|k: int| 0 <= k < idx[i as int].1@.len() && idx[i as int].1@[k] == token_id;
                        assert(false);
                    }
                }
            },
            None => {
                proof {
                    let j = choose|j: int|
                        0 <= j < idx.len() && idx[j].0@ == m[token_id]@ && #[trigger] idx[j].1@.contains(token_id);
                    assert(false);
                }
            },
        }
    }
}


impl State {
    /// What an ownership check of `p` on `t` answers.
    pub open spec fn owner_check(&self, t: u32, p: Seq<char>) -> Result<(), MarketError> {
        if !self.token_owners@.contains_key(t) {
            Err(MarketError::NotMinted)
        } else if self.token_owners@[t]@ != p {
            Err(MarketError::NotOwner)
        } else {
            Ok(())
        }
    }

    /// Succeeds when `token_id` has been minted.
    pub fn check_token_id(&self, token_id: u32) -> (r: Result<(), MarketError>)
        ensures
            r == (if self.token_owners@.contains_key(token_id) {
                Ok(())
            } else {
                Err(MarketError::InvalidToken)
            }),
    {
        if !self.token_owners.contains_key(&token_id) {
            return Err(MarketError::InvalidToken);
        }
        Ok(())
    }

    /// The owner of `token_id`, or `NotMinted`.
    pub fn get_owner(&self, token_id: u32) -> (r: Result<Principal, MarketError>)
        ensures
            match r {
                Ok(o) => self.token_owners@.contains_key(token_id) && o == self.token_owners@[token_id],
                Err(e) => !self.token_owners@.contains_key(token_id) && e == MarketError::NotMinted,
            },
    {
        match self.token_owners.get(&token_id) {
            Some(o) => Ok(o.copy()),
            None => Err(MarketError::NotMinted),
        }
    }

    /// The owner of `token_id` when it is `prin`; otherwise why not.
    pub fn check_owner(&self, token_id: u32, prin: &Principal) -> (r: Result<Principal, MarketError>)
        ensures
            match r {
                Ok(o) => self.owner_check(token_id, prin@) == Ok::<(), MarketError>(())
                    && o == self.token_owners@[token_id],
                Err(e) => self.owner_check(token_id, prin@) == Err::<(), MarketError>(e),
            },
    {
        let owner = match self.token_owners.get(&token_id) {
            Some(o) => o,
            None => {
                return Err(MarketError::NotMinted);
            },
        };
        if *owner != *prin {
            return Err(MarketError::NotOwner);
        }
        Ok(owner.copy())
    }

    /// A token's data and its current owner.
    pub fn data_of(&self, token_id: u32) -> (r: Result<TokenDesc, MarketError>)
        ensures
            !self.token_owners@.contains_key(token_id) ==> r == Err::<TokenDesc, MarketError>(
                MarketError::InvalidToken,
            ),
            self.token_owners@.contains_key(token_id) && !self.tokens@.contains_key(token_id) ==> r
                == Err::<TokenDesc, MarketError>(MarketError::MetadataMissing),
            self.token_owners@.contains_key(token_id) && self.tokens@.contains_key(token_id) ==> r is Ok,
            r is Ok ==> {
                let d = r->Ok_0;
                let t = self.tokens@[token_id];
                &&& self.token_owners@.contains_key(token_id)
                &&& self.tokens@.contains_key(token_id)
                &&& d.id == t.id
                &&& d.url == t.url
                &&& d.name == t.name
                &&& d.desc == t.desc
                &&& d.properties@ == t.properties@
                &&& d.owner == self.token_owners@[token_id]
            },
    {
        self.check_token_id(token_id)?;
        let data = match self.tokens.get(&token_id) {
            Some(d) => d,
            None => {
                return Err(MarketError::MetadataMissing);
            },
        };
        let owner = match self.token_owners.get(&token_id) {
            Some(o) => o.copy(),
            None => {
                return Err(MarketError::InvalidToken);
            },
        };
        Ok(
            TokenDesc {
                id: data.id,
                url: data.url.clone(),
                name: data.name.clone(),
                desc: data.desc.clone(),
                owner,
                properties: copy_properties(&data.properties),
            },
        )
    }

    /// Records `to` as the new owner of `token_id`, held by `from`.
    pub fn moved(&mut self, from: &Principal, to: &Principal, token_id: u32)
        requires
            old(self).wf(),
            old(self).owns(from@, token_id),
        ensures
            final(self).wf(),
            final(self).token_owners@ == old(self).token_owners@.insert(token_id, *to),
            final(self).same_settings(*old(self)),
    {
        let ghost m = self.token_owners@;
        self.remove_from(from, token_id);
        self.token_owners.insert(token_id, to.copy());
        proof {
            assert(self.token_owners@.remove(token_id) == m.remove(token_id));
            assert(self.token_owners@.dom() == m.dom());
        }
        self.assign_to(to, token_id);
    }

    /// Mints the next token id, one above the current supply, to `caller`.
    pub fn mint(&mut self, caller: &Principal, ledger: &mut Ledger, now: u64) -> (r: Result<
        u32,
        MarketError,
    >)
        requires
            old(self).wf(),
            old(ledger).room(1),
        ensures
            final(self).wf(),
            final(self).same_settings(*old(self)),
            ({
                let m = old(self).token_owners@;
                let id = old(self).total_supply + 1;
                if old(self).total_supply >= old(self).max_supply {
                    r == Err::<u32, MarketError>(MarketError::CapacityExceeded) && *final(self)
                        == *old(self) && *final(ledger) == *old(ledger)
                } else if m.contains_key(id as u32) {
                    r == Err::<u32, MarketError>(MarketError::AlreadyMinted) && *final(self)
                        == *old(self) && *final(ledger) == *old(ledger)
                } else {
                    &&& r == Ok::<u32, MarketError>(id as u32)
                    &&& final(self).token_owners@ == m.insert(id as u32, *caller)
                    &&& final(ledger).appended(
                        *old(ledger),
                        *caller,
                        Operation::mint,
                        None,
                        Some(*caller),
                        id as u32,
                        None,
                        now,
                    )
                }
            }),
    {
        if self.total_supply >= self.max_supply {
            return Err(MarketError::CapacityExceeded);
        }
        let token_id = self.total_supply + 1;
        if self.token_owners.contains_key(&token_id) {
            return Err(MarketError::AlreadyMinted);
        }
        self.token_owners.insert(token_id, caller.copy());
        proof {
            assert(self.token_owners@.remove(token_id) == old(self).token_owners@);
        }
        self.assign_to(caller, token_id);
        self.total_supply = self.total_supply + 1;
        ledger.mint(caller, caller, token_id, now);
        Ok(token_id)
    }

    /// Mints `token_id` to `to`; returns the ledger index of the mint record.
    pub fn mint_token_id(
        &mut self,
        caller: &Principal,
        to: &Principal,
        token_id: u32,
        ledger: &mut Ledger,
        now: u64,
    ) -> (r: Result<u64, MarketError>)
        requires
            old(self).wf(),
            old(ledger).room(1),
        ensures
            final(self).wf(),
            final(self).same_settings(*old(self)),
            ({
                let m = old(self).token_owners@;
                if old(self).total_supply >= old(self).max_supply {
                    r == Err::<u64, MarketError>(MarketError::CapacityExceeded) && *final(self)
                        == *old(self) && *final(ledger) == *old(ledger)
                } else if token_id > old(self).max_supply {
                    r == Err::<u64, MarketError>(MarketError::OutOfBounds) && *final(self)
                        == *old(self) && *final(ledger) == *old(ledger)
                } else if m.contains_key(token_id) {
                    r == Err::<u64, MarketError>(MarketError::AlreadyMinted) && *final(self)
                        == *old(self) && *final(ledger) == *old(ledger)
                } else {
                    &&& r == Ok::<u64, MarketError>(old(ledger).next_index() as u64)
                    &&& final(self).token_owners@ == m.insert(token_id, *to)
                    &&& final(ledger).appended(
                        *old(ledger),
                        *caller,
                        Operation::mint,
                        None,
                        Some(*to),
                        token_id,
                        None,
                        now,
                    )
                }
            }),
    {
        if self.total_supply >= self.max_supply {
            return Err(MarketError::CapacityExceeded);
        }
        if token_id > self.max_supply {
            return Err(MarketError::OutOfBounds);
        }
        if self.token_owners.contains_key(&token_id) {
            return Err(MarketError::AlreadyMinted);
        }
        self.token_owners.insert(token_id, to.copy());
        proof {
            assert(self.token_owners@.remove(token_id) == old(self).token_owners@);
        }
        self.assign_to(to, token_id);
        self.total_supply = self.total_supply + 1;
        let index = ledger.mint(caller, to, token_id, now);
        Ok(index)
    }

    /// Burns `token_id`, which `caller` must own; returns the ledger index of
    /// the burn record.
    pub fn burn(&mut self, caller: &Principal, token_id: u32, ledger: &mut Ledger, now: u64) -> (r:
        Result<u64, MarketError>)
        requires
            old(self).wf(),
            old(ledger).room(1),
        ensures
            final(self).wf(),
            final(self).same_settings(*old(self)),
            match old(self).owner_check(token_id, caller@) {
                Err(e) => r == Err::<u64, MarketError>(e) && *final(self) == *old(self)
                    && *final(ledger) == *old(ledger),
                Ok(_) => {
                    &&& r == Ok::<u64, MarketError>(old(ledger).next_index() as u64)
                    &&& final(self).token_owners@ == old(self).token_owners@.remove(token_id)
                    &&& final(ledger).appended(
                        *old(ledger),
                        *caller,
                        Operation::burn,
                        Some(*caller),
                        None,
                        token_id,
                        None,
                        now,
                    )
                },
            },
    {
        self.check_owner(token_id, caller)?;
        self.remove_from(caller, token_id);
        self.token_owners.remove(&token_id);
        self.total_supply = self.total_supply - 1;
        let index = ledger.burn(caller, caller, token_id, now);
        Ok(index)
    }
}

impl State {
    /// Transfers `token_id` from its owner `from` to `to`, withdrawing its
    /// listing first if it has one; returns the ledger index of the transfer
    /// record.
    pub fn transfer(
        &mut self,
        market: &mut Marketplace,
        ledger: &mut Ledger,
        from: &Principal,
        to: &Principal,
        token_id: u32,
        now: u64,
    ) -> (r: Result<u64, MarketError>)
        requires
            old(self).wf(),
            old(ledger).room(2),
        ensures
            final(self).wf(),
            final(self).same_settings(*old(self)),
            !old(self).token_owners@.contains_key(token_id) ==> r == Err::<u64, MarketError>(
                MarketError::InvalidToken,
            ) && *final(self) == *old(self) && *final(market) == *old(market) && *final(ledger)
                == *old(ledger),
            old(self).token_owners@.contains_key(token_id) && old(self).token_owners@[token_id]@
                != from@ ==> r == Err::<u64, MarketError>(MarketError::NotOwner) && *final(self)
                == *old(self) && *final(market) == *old(market) && *final(ledger) == *old(ledger),
            old(self).owns(from@, token_id) ==> {
                let n = old(ledger).next_index();
                let listed = old(market).listings@.contains_key(token_id);
                let at = if listed {
                    n + 1
                } else {
                    n
                };
                let before = if listed {
                    old(ledger).tx@.push(
                        entry(n, *from, Operation::delist, Some(*from), None, token_id, None, now),
                    )
                } else {
                    old(ledger).tx@
                };
                &&& r == Ok::<u64, MarketError>(at as u64)
                &&& final(self).token_owners@ == old(self).token_owners@.insert(token_id, *to)
                &&& final(market).listings@ == old(market).listings@.remove(token_id)
                &&& final(market).same_config(*old(market))
                &&& final(market).listing_offset == old(market).listing_offset
                &&& final(market).stats == old(market).stats
                &&& final(ledger).offset == old(ledger).offset
                &&& final(ledger).storage_canister == old(ledger).storage_canister
                &&& final(ledger).tx@ == before.push(
                    entry(at, *from, Operation::transfer, Some(*from), Some(*to), token_id, None, now),
                )
            },
    {
        self.check_token_id(token_id)?;
        self.check_owner(token_id, from)?;
        let _ = market.delist(self, ledger, from, token_id, now);
        proof {
            if !old(market).listings@.contains_key(token_id) {
                assert(market.listings@ == old(market).listings@.remove(token_id));
            }
        }
        self.moved(from, to, token_id);
        let index = ledger.transfer(from, to, token_id, now);
        Ok(index)
    }
}

impl State {
    /// The tokens that `user` owns, as the owner index lists them.
    pub fn user_tokens(&self, user: &Principal) -> (r: Vec<u32>)
        requires
            self.wf(),
        ensures
            r@.no_duplicates(),
            forall|t: u32| r@.contains(t) <==> self.owns(user@, t),
    {
        match self.find_owner(user) {
            Some(i) => {
                let list = &self.owners[i].1;
                let mut r: Vec<u32> = Vec::new();
                let mut k: usize = 0;
                while k < list.len()
                    invariant
                        k <= list@.len(),
                        r@ == list@.subrange(0, k as int),
                    decreases list@.len() - k,
                {
                    r.push(list[k]);
                    k = k + 1;
                }
                proof {
                    assert(list@.subrange(0, list@.len() as int) == list@);
                    let idx = self.owners@;
                    let m = self.token_owners@;
                    assert forall|t: u32| r@.contains(t) <==> self.owns(user@, t) by {
                        if self.owns(user@, t) {
                            let j = choose|j: int|
                                0 <= j < idx.len() && idx[j].0@ == m[t]@ && #[trigger] idx[j].1@.contains(t);
                            assert(j == i);
                        }
                        if r@.contains(t) {
                            assert(idx[i as int].1@.contains(t));
                        }
                    }
                }
                r
            },
            None => {
                proof {
                    let idx = self.owners@;
                    let m = self.token_owners@;
                    assert forall|t: u32| !self.owns(user@, t) by {
                        if self.owns(user@, t) {
                            let j = choose|j: int|
                                0 <= j < idx.len() && idx[j].0@ == m[t]@ && #[trigger] idx[j].1@.contains(t);
                        }
                    }
                }
                Vec::new()
            },
        }
    }
}

/// A token appears in the index of one owner at most, and that owner is the
/// one the registry records for it.
pub proof fn lemma_single_owner(s: State, t: u32, i: int, j: int)
    requires
        s.wf(),
        0 <= i < s.owners@.len(),
        0 <= j < s.owners@.len(),
        s.owners@[i].1@.contains(t),
        s.owners@[j].1@.contains(t),
    ensures
        i == j,
        s.owns(s.owners@[i].0@, t),
{
    assert(holds(s.token_owners@, s.owners@[i].0@, t));
    assert(holds(s.token_owners@, s.owners@[j].0@, t));
}

} // verus!
