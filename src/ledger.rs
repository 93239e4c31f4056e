//! Append-only audit ledger: every state-changing operation leaves a record
//! whose index is the ledger's offset plus the number of records before it.
use vstd::prelude::*;
use crate::types::{Operation, Principal, copy_opt};

verus! {

/// One entry of the audit ledger.
pub struct Record {
    pub caller: Principal,
    pub op: Operation,
    pub index: u64,
    pub from: Option<Principal>,
    pub to: Option<Principal>,
    pub token_id: u32,
    pub price: Option<u64>,
    pub timestamp: u64,
    pub memo: u64,
}

impl Record {
    pub fn copy(&self) -> (r: Record)
        ensures
            r == *self,
    {
        Record {
            caller: self.caller.copy(),
            op: self.op,
            index: self.index,
            from: copy_opt(&self.from),
            to: copy_opt(&self.to),
            token_id: self.token_id,
            price: self.price,
            timestamp: self.timestamp,
            memo: self.memo,
        }
    }
}

/// The record that an append writes at `index`.
pub open spec fn entry(
    index: int,
    caller: Principal,
    op: Operation,
    from: Option<Principal>,
    to: Option<Principal>,
    token_id: u32,
    price: Option<u64>,
    now: u64,
) -> Record {
    Record {
        caller,
        op,
        index: index as u64,
        from,
        to,
        token_id,
        price,
        timestamp: now,
        memo: 0,
    }
}

/// Selects the records of one token.
pub open spec fn about_token(token: u32) -> spec_fn(Record) -> bool {
    |x: Record| x.token_id == token
}

pub struct Ledger {
    pub offset: u64,
    pub storage_canister: Option<Principal>,
    pub tx: Vec<Record>,
}

impl Ledger {
    /// Index that the next appended record receives.
    pub open spec fn next_index(&self) -> int {
        self.offset + self.tx@.len()
    }

    /// `n` more records can be appended with indices that fit in a `u64`.
    pub open spec fn room(&self, n: int) -> bool {
        self.next_index() + n <= u64::MAX + 1
    }

    /// `self` is `old` with one more record, the given one, at the end.
    pub open spec fn appended(
        self,
        old: Ledger,
        caller: Principal,
        op: Operation,
        from: Option<Principal>,
        to: Option<Principal>,
        token_id: u32,
        price: Option<u64>,
        now: u64,
    ) -> bool {
        &&& self.offset == old.offset
        &&& self.storage_canister == old.storage_canister
        &&& self.tx@ == old.tx@.push(
            entry(old.next_index(), caller, op, from, to, token_id, price, now),
        )
    }

    pub fn new() -> (r: Ledger)
        ensures
            r.offset == 0,
            r.storage_canister is None,
            r.tx@.len() == 0,
    {
        Ledger { offset: 0, storage_canister: None, tx: Vec::new() }
    }

    pub fn has_room(&self, n: u64) -> (r: bool)
        ensures
            r == self.room(n as int),
    {
        (self.offset as u128) + (self.tx.len() as u128) + (n as u128) <= (u64::MAX as u128) + 1
    }

    fn add_record(
        &mut self,
        caller: Principal,
        op: Operation,
        from: Option<Principal>,
        to: Option<Principal>,
        token_id: u32,
        price: Option<u64>,
        now: u64,
    ) -> (index: u64)
        requires
            old(self).room(1),
        ensures
            index == old(self).next_index(),
            final(self).appended(*old(self), caller, op, from, to, token_id, price, now),
    {
        let index: u64 = self.offset + self.tx.len() as u64;
        let record = Record {
            caller,
            op,
            index,
            from,
            to,
            token_id,
            price,
            timestamp: now,
            memo: 0,
        };
        self.tx.push(record);
        index
    }

    /// Records the creation of the collection by `caller`.
    pub fn add_genesis_record(&mut self, caller: &Principal, now: u64) -> (index: u64)
        requires
            old(self).room(1),
        ensures
            index == old(self).next_index(),
            final(self).appended(
                *old(self),
                *caller,
                Operation::init,
                None,
                Some(*caller),
                0,
                None,
                now,
            ),
    {
        self.add_record(caller.copy(), Operation::init, None, Some(caller.copy()), 0, None, now)
    }

    /// Records that `token_id` was minted to `owner`.
    pub fn mint(&mut self, caller: &Principal, owner: &Principal, token_id: u32, now: u64) -> (index:
        u64)
        requires
            old(self).room(1),
        ensures
            index == old(self).next_index(),
            final(self).appended(
                *old(self),
                *caller,
                Operation::mint,
                None,
                Some(*owner),
                token_id,
                None,
                now,
            ),
    {
        self.add_record(caller.copy(), Operation::mint, None, Some(owner.copy()), token_id, None, now)
    }

    /// Records that `owner` burned `token_id`.
    pub fn burn(&mut self, caller: &Principal, owner: &Principal, token_id: u32, now: u64) -> (index:
        u64)
        requires
            old(self).room(1),
        ensures
            index == old(self).next_index(),
            final(self).appended(
                *old(self),
                *caller,
                Operation::burn,
                Some(*owner),
                None,
                token_id,
                None,
                now,
            ),
    {
        self.add_record(caller.copy(), Operation::burn, Some(owner.copy()), None, token_id, None, now)
    }

    /// Records a transfer of `token_id` from `from` to `to`.
    pub fn transfer(&mut self, from: &Principal, to: &Principal, token_id: u32, now: u64) -> (index:
        u64)
        requires
            old(self).room(1),
        ensures
            index == old(self).next_index(),
            final(self).appended(
                *old(self),
                *from,
                Operation::transfer,
                Some(*from),
                Some(*to),
                token_id,
                None,
                now,
            ),
    {
        self.add_record(
            from.copy(),
            Operation::transfer,
            Some(from.copy()),
            Some(to.copy()),
            token_id,
            None,
            now,
        )
    }

    /// Records that `from` listed `token_id` at `price`.
    pub fn list(&mut self, from: &Principal, token_id: u32, price: u64, now: u64) -> (index: u64)
        requires
            old(self).room(1),
        ensures
            index == old(self).next_index(),
            final(self).appended(
                *old(self),
                *from,
                Operation::list,
                Some(*from),
                None,
                token_id,
                Some(price),
                now,
            ),
    {
        self.add_record(from.copy(), Operation::list, Some(from.copy()), None, token_id, Some(price), now)
    }

    /// Records that `from` withdrew the listing of `token_id`.
    pub fn delist(&mut self, from: &Principal, token_id: u32, now: u64) -> (index: u64)
        requires
            old(self).room(1),
        ensures
            index == old(self).next_index(),
            final(self).appended(
                *old(self),
                *from,
                Operation::delist,
                Some(*from),
                None,
                token_id,
                None,
                now,
            ),
    {
        self.add_record(from.copy(), Operation::delist, Some(from.copy()), None, token_id, None, now)
    }

    /// Records the sale of `token_id` from `from` to `to` at `price`.
    pub fn purchase(
        &mut self,
        caller: &Principal,
        from: &Principal,
        to: &Principal,
        token_id: u32,
        price: u64,
        now: u64,
    ) -> (index: u64)
        requires
            old(self).room(1),
        ensures
            index == old(self).next_index(),
            final(self).appended(
                *old(self),
                *caller,
                Operation::purchase,
                Some(*from),
                Some(*to),
                token_id,
                Some(price),
                now,
            ),
    {
        self.add_record(
            caller.copy(),
            Operation::purchase,
            Some(from.copy()),
            Some(to.copy()),
            token_id,
            Some(price),
            now,
        )
    }

    /// Every record, oldest first.
    pub fn all_history(&self) -> (r: Vec<Record>)
        ensures
            r@ == self.tx@,
    {
        let mut r: Vec<Record> = Vec::new();
        let mut i: usize = 0;
        while i < self.tx.len()
            invariant
                i <= self.tx@.len(),
                r@ == self.tx@.subrange(0, i as int),
            decreases self.tx@.len() - i,
        {
            r.push(self.tx[i].copy());
            i = i + 1;
        }
        assert(self.tx@.subrange(0, self.tx@.len() as int) == self.tx@);
        r
    }

    /// The record at position `index`, or `None` past the end.
    pub fn get_history_by_index(&self, index: u128) -> (r: Option<Record>)
        ensures
            index < self.tx@.len() ==> r == Some(self.tx@[index as int]),
            index >= self.tx@.len() ==> r is None,
    {
        if index < self.tx.len() as u128 {
            Some(self.tx[index as usize].copy())
        } else {
            None
        }
    }

    /// The records that concern `token`, in ledger order.
    pub fn get_history_by_token(&self, token: u32) -> (r: Vec<Record>)
        ensures
            r@ == self.tx@.filter(about_token(token)),
    {
        let mut r: Vec<Record> = Vec::new();
        let mut i: usize = 0;
        while i < self.tx.len()
            invariant
                i <= self.tx@.len(),
                r@ == self.tx@.subrange(0, i as int).filter(about_token(token)),
            decreases self.tx@.len() - i,
        {
            proof {
                let s = self.tx@.subrange(0, i as int);
                assert(self.tx@.subrange(0, i as int + 1) == s.push(self.tx@[i as int]));
                s.lemma_filter_push(self.tx@[i as int], about_token(token));
            }
            if self.tx[i].token_id == token {
                r.push(self.tx[i].copy());
            }
            i = i + 1;
        }
        assert(self.tx@.subrange(0, self.tx@.len() as int) == self.tx@);
        r
    }

    /// Number of records held.
    pub fn tx_amount(&self) -> (r: u128)
        ensures
            r == self.tx@.len(),
    {
        self.tx.len() as u128
    }

    /// Appends imported records as they are. This bypasses the rule that
    /// indices follow the ledger's length: it is meant for migration only.
    pub fn upload_history(&mut self, data: Vec<Record>) -> (r: bool)
        ensures
            r,
            final(self).tx@ == old(self).tx@ + data@,
            final(self).offset == old(self).offset,
            final(self).storage_canister == old(self).storage_canister,
    {
        let mut data = data;
        self.tx.append(&mut data);
        true
    }
}

} // verus!
