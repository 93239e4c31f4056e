//! Listings and purchase settlement. A purchase commits its state change
//! (listing removed, ownership moved, sale recorded) before any payment is
//! issued; the payments are returned for the caller to carry out.
use std::collections::HashMap;
use vstd::prelude::*;
use crate::ledger::Ledger;
use crate::token::State;
use crate::types::{ICPTs, MarketError, Operation, Principal, SendArgs, TX_FEE, TransactionNotification};

verus! {

/// Smallest accepted listing price, in e8s.
pub const MIN_PRICE: u64 = 1000000;

/// Fee rates are expressed in parts of this.
pub const FEE_DENOMINATOR: u128 = 100000;

/// An outbound payment attempt, as recorded in the payment log.
pub struct Payment {
    pub index: u64,
    pub time: u64,
    pub args: SendArgs,
    pub block_height: Option<u64>,
    pub error: Option<String>,
}

/// An offer to sell one token.
pub struct Listing {
    pub index: u64,
    pub owner: Principal,
    pub token_id: u32,
    pub price: u64,
    pub time: u64,
}

#[derive(Clone, Copy, Debug, PartialEq, Eq, Structural)]
pub struct Stats {
    pub highest_sell: u64,
    pub volume_traded: u64,
}

#[derive(Clone, Copy, Debug, PartialEq, Eq, Structural)]
pub struct StatsResult {
    pub highest_sell: u64,
    pub volume_traded: u64,
    pub owners: u64,
    pub listings: u64,
}

/// A transfer that a settlement asks for.
pub struct Payout {
    pub to: Principal,
    pub amount: u64,
    pub memo: u64,
}

/// What a committed purchase still has to pay out, in this order.
pub struct Settlement {
    /// Ledger index of the purchase record.
    pub block: u64,
    pub seller: Payout,
    pub creator: Option<Payout>,
    pub refund: Option<Payout>,
}

pub struct Marketplace {
    /// Creator's share of each sale, in parts of `FEE_DENOMINATOR`.
    pub creators_fee: u128,
    pub creators_address: Option<Principal>,
    /// Service expected to send notifications.
    pub notify_canister: Option<Principal>,
    /// Value-ledger service; the only one allowed to report payments.
    pub ledger_canister: Option<Principal>,
    pub tx_enabled: bool,
    pub listing_offset: u64,
    pub listings: HashMap<u32, Listing>,
    pub payment_offset: u64,
    pub payments: Vec<Payment>,
    pub stats: Stats,
}

/// Creator's share of a sale at `price`.
pub open spec fn creator_share(price: u64, rate: u128) -> int {
    (price * rate) / (FEE_DENOMINATOR as int)
}

/// Sales statistics after one more sale at `price`; the volume saturates.
pub open spec fn stats_after(s: Stats, price: u64) -> Stats {
    Stats {
        highest_sell: if price > s.highest_sell {
            price
        } else {
            s.highest_sell
        },
        volume_traded: if s.volume_traded + price > u64::MAX {
            u64::MAX
        } else {
            (s.volume_traded + price) as u64
        },
    }
}

/// Refund owed to a buyer who paid `paid` for a listing at `price`: what
/// exceeds the price, less one transfer fee, when that is positive.
pub open spec fn surplus_refund(paid: u64, price: u64) -> Option<u64> {
    if paid > price + TX_FEE {
        Some((paid - price - TX_FEE) as u64)
    } else {
        None
    }
}

/// Creator payout of a sale at `price`: the creator's share less the two
/// transfer fees of the settlement, when the share covers them.
pub open spec fn creator_payout(price: u64, rate: u128) -> Option<u64> {
    if creator_share(price, rate) >= 2 * TX_FEE {
        Some((creator_share(price, rate) - 2 * TX_FEE) as u64)
    } else {
        None
    }
}

proof fn lemma_share_bounded(price: u64, rate: u128)
    requires
        rate <= FEE_DENOMINATOR,
    ensures
        0 <= creator_share(price, rate) <= price,
        price * rate <= u128::MAX,
{
    assert(price * rate <= price * (FEE_DENOMINATOR as int)) by (nonlinear_arith)
        requires
            rate <= FEE_DENOMINATOR,
            0 <= price,
    ;
    assert(0 <= price * rate) by (nonlinear_arith)
        requires
            0 <= rate,
            0 <= price,
    ;
    assert((price * rate) / (FEE_DENOMINATOR as int) <= price) by (nonlinear_arith)
        requires
            price * rate <= price * 100000,
            0 <= price * rate,
    ;
}

impl Marketplace {
    pub open spec fn wf(&self) -> bool {
        self.creators_fee <= FEE_DENOMINATOR
    }

    /// Configuration and logs are as in `old`.
    pub open spec fn same_config(&self, old: Marketplace) -> bool {
        &&& self.creators_fee == old.creators_fee
        &&& self.creators_address == old.creators_address
        &&& self.notify_canister == old.notify_canister
        &&& self.ledger_canister == old.ledger_canister
        &&& self.tx_enabled == old.tx_enabled
        &&& self.payment_offset == old.payment_offset
        &&& self.payments == old.payments
    }

    /// A marketplace with no listings, transacting disabled and no fee.
    pub fn new() -> (r: Marketplace)
        ensures
            r.wf(),
            r.creators_fee == 0,
            r.creators_address is None,
            r.notify_canister is None,
            r.ledger_canister is None,
            !r.tx_enabled,
            r.listing_offset == 0,
            r.listings@.len() == 0,
            r.payment_offset == 0,
            r.payments@.len() == 0,
            r.stats == (Stats { highest_sell: 0, volume_traded: 0 }),
    {
        Marketplace {
            creators_fee: 0,
            creators_address: None,
            notify_canister: None,
            ledger_canister: None,
            tx_enabled: false,
            listing_offset: 0,
            listings: HashMap::new(),
            payment_offset: 0,
            payments: Vec::new(),
            stats: Stats { highest_sell: 0, volume_traded: 0 },
        }
    }

    /// Sets the creator's share; a rate above `FEE_DENOMINATOR` is refused.
    pub fn set_creators_fee(&mut self, fee: u128) -> (r: bool)
        requires
            old(self).wf(),
        ensures
            final(self).wf(),
            r == (fee <= FEE_DENOMINATOR),
            r ==> *final(self) == (Marketplace { creators_fee: fee, ..*old(self) }),
            !r ==> *final(self) == *old(self),
    {
        if fee > FEE_DENOMINATOR {
            return false;
        }
        self.creators_fee = fee;
        true
    }

    fn is_tx_enabled(&self) -> (r: Result<(), MarketError>)
        ensures
            r == (if self.tx_enabled {
                Ok(())
            } else {
                Err(MarketError::TxDisabled)
            }),
    {
        if !self.tx_enabled {
            return Err(MarketError::TxDisabled);
        }
        Ok(())
    }

    /// Why a listing of `t` by `from` at `price` is refused, if it is.
    pub open spec fn list_check(&self, tokens: State, from: Seq<char>, t: u32, price: u64) -> Result<
        (),
        MarketError,
    > {
        if !self.tx_enabled {
            Err(MarketError::TxDisabled)
        } else if !tokens.token_owners@.contains_key(t) {
            Err(MarketError::InvalidToken)
        } else if tokens.token_owners@[t]@ != from {
            Err(MarketError::NotOwner)
        } else if price < MIN_PRICE {
            Err(MarketError::PriceTooLow)
        } else {
            Ok(())
        }
    }

    /// `self` is `old` after an accepted listing of `t` at `price`: an
    /// existing listing keeps its index and takes the new price; otherwise a
    /// new listing gets the next index.
    pub open spec fn listed(self, old: Marketplace, tokens: State, t: u32, price: u64, now: u64) -> bool {
        &&& self.same_config(old)
        &&& self.stats == old.stats
        &&& if old.listings@.contains_key(t) {
            &&& self.listing_offset == old.listing_offset
            &&& self.listings@ == old.listings@.insert(
                t,
                Listing { price, ..old.listings@[t] },
            )
        } else {
            &&& self.listing_offset == old.listing_offset + 1
            &&& self.listings@ == old.listings@.insert(
                t,
                Listing {
                    index: self.listing_offset,
                    owner: tokens.token_owners@[t],
                    token_id: t,
                    price,
                    time: now,
                },
            )
        }
    }

    /// Puts `token_id` up for sale at `price`, or updates the price of its
    /// listing; returns the ledger index of the list record.
    pub fn list(
        &mut self,
        tokens: &State,
        ledger: &mut Ledger,
        from: &Principal,
        token_id: u32,
        price: u64,
        now: u64,
    ) -> (r: Result<u64, MarketError>)
        requires
            old(ledger).room(1),
            old(self).listing_offset < u64::MAX,
        ensures
            match old(self).list_check(*tokens, from@, token_id, price) {
                Err(e) => r == Err::<u64, MarketError>(e) && *final(self) == *old(self)
                    && *final(ledger) == *old(ledger),
                Ok(_) => {
                    &&& r == Ok::<u64, MarketError>(old(ledger).next_index() as u64)
                    &&& final(self).listed(*old(self), *tokens, token_id, price, now)
                    &&& final(ledger).appended(
                        *old(ledger),
                        *from,
                        Operation::list,
                        Some(*from),
                        None,
                        token_id,
                        Some(price),
                        now,
                    )
                },
            },
    {
        self.is_tx_enabled()?;
        tokens.check_token_id(token_id)?;
        let owner = tokens.check_owner(token_id, from)?;
        if price < MIN_PRICE {
            return Err(MarketError::PriceTooLow);
        }
        match self.listings.remove(&token_id) {
            Some(listing) => {
                let mut listing = listing;
                listing.price = price;
                self.listings.insert(token_id, listing);
                proof {
                    assert(self.listings@ == old(self).listings@.insert(
                        token_id,
                        Listing { price, ..old(self).listings@[token_id] },
                    ));
                }
            },
            None => {
                proof {
                    assert(self.listings@ == old(self).listings@);
                }
                self.listing_offset = self.listing_offset + 1;
                let item = Listing {
                    index: self.listing_offset,
                    owner,
                    token_id,
                    price,
                    time: now,
                };
                self.listings.insert(token_id, item);
            },
        }
        let index = ledger.list(from, token_id, price, now);
        Ok(index)
    }

    /// Why a delisting of `t` by `from` is refused, if it is.
    pub open spec fn delist_check(&self, tokens: State, from: Seq<char>, t: u32) -> Result<
        (),
        MarketError,
    > {
        match tokens.owner_check(t, from) {
            Err(e) => Err(e),
            Ok(_) => if self.listings@.contains_key(t) {
                Ok(())
            } else {
                Err(MarketError::NotListed)
            },
        }
    }

    /// Withdraws the listing of `token_id`; returns the ledger index of the
    /// delist record.
    pub fn delist(
        &mut self,
        tokens: &State,
        ledger: &mut Ledger,
        from: &Principal,
        token_id: u32,
        now: u64,
    ) -> (r: Result<u64, MarketError>)
        requires
            old(ledger).room(1),
        ensures
            match old(self).delist_check(*tokens, from@, token_id) {
                Err(e) => r == Err::<u64, MarketError>(e) && *final(self) == *old(self)
                    && *final(ledger) == *old(ledger),
                Ok(_) => {
                    &&& r == Ok::<u64, MarketError>(old(ledger).next_index() as u64)
                    &&& final(self).listings@ == old(self).listings@.remove(token_id)
                    &&& final(self).same_config(*old(self))
                    &&& final(self).listing_offset == old(self).listing_offset
                    &&& final(self).stats == old(self).stats
                    &&& final(ledger).appended(
                        *old(ledger),
                        *from,
                        Operation::delist,
                        Some(*from),
                        None,
                        token_id,
                        None,
                        now,
                    )
                },
            },
    {
        tokens.check_owner(token_id, from)?;
        if !self.listings.contains_key(&token_id) {
            return Err(MarketError::NotListed);
        }
        self.listings.remove(&token_id);
        let index = ledger.delist(from, token_id, now);
        Ok(index)
    }
}


/// The refund owed when a purchase notification for `args` could not be
/// honoured: what was received, less one transfer fee, when that is positive.
pub fn failure_refund(args: &TransactionNotification) -> (r: Option<Payout>)
    ensures
        r == (if args.amount.e8s > TX_FEE {
            Some(Payout { to: args.from, amount: (args.amount.e8s - TX_FEE) as u64, memo: args.memo })
        } else {
            None
        }),
{
    if args.amount.e8s > TX_FEE {
        Some(Payout { to: args.from.copy(), amount: args.amount.e8s - TX_FEE, memo: args.memo })
    } else {
        None
    }
}

impl Marketplace {
    /// Logs an outbound payment of `amount` to `to_account` and returns the
    /// transfer to hand to the value ledger.
    pub fn send_icp(&mut self, to_account: String, amount: u64, memo: u64, now: u64) -> (r: Result<
        SendArgs,
        MarketError,
    >)
        requires
            old(self).payment_offset < u64::MAX,
        ensures
            old(self).ledger_canister is None ==> r == Err::<SendArgs, MarketError>(
                MarketError::LedgerNotSet,
            ) && *final(self) == *old(self),
            old(self).ledger_canister is Some ==> {
                let a = SendArgs {
                    memo,
                    amount: ICPTs { e8s: amount },
                    fee: ICPTs { e8s: TX_FEE },
                    from_subaccount: None,
                    to: to_account,
                    created_at_time: None,
                };
                &&& r == Ok::<SendArgs, MarketError>(a)
                &&& final(self).payment_offset == old(self).payment_offset + 1
                &&& final(self).payments@ == old(self).payments@.push(
                    Payment {
                        index: final(self).payment_offset,
                        time: now,
                        args: a,
                        block_height: None,
                        error: None,
                    },
                )
                &&& *final(self) == (Marketplace {
                    payment_offset: final(self).payment_offset,
                    payments: final(self).payments,
                    ..*old(self)
                })
            },
    {
        if self.ledger_canister.is_none() {
            return Err(MarketError::LedgerNotSet);
        }
        let args = SendArgs {
            memo,
            amount: ICPTs { e8s: amount },
            fee: ICPTs { e8s: TX_FEE },
            from_subaccount: None,
            to: to_account,
            created_at_time: None,
        };
        self.payment_offset = self.payment_offset + 1;
        let payment = Payment {
            index: self.payment_offset,
            args: args.copy(),
            time: now,
            block_height: None,
            error: None,
        };
        self.payments.push(payment);
        Ok(args)
    }

    /// Records the outcome of logged payment `index`: its block height, or
    /// the error it met. Answers whether a payment with that index is logged.
    pub fn record_payment_outcome(&mut self, index: u64, result: Result<u64, String>) -> (r: bool)
        ensures
            r == (exists|i: int| 0 <= i < old(self).payments@.len() && old(self).payments@[i].index == index),
            r ==> exists|i: int|
                {
                    &&& 0 <= i < old(self).payments@.len()
                    &&& old(self).payments@[i].index == index
                    &&& forall|k: int| 0 <= k < i ==> old(self).payments@[k].index != index
                    &&& final(self).payments@ == old(self).payments@.update(
                        i,
                        Payment {
                            block_height: match result {
                                Ok(h) => Some(h),
                                Err(_) => None,
                            },
                            error: match result {
                                Ok(_) => None,
                                Err(t) => Some(t),
                            },
                            ..old(self).payments@[i]
                        },
                    )
                },
            !r ==> final(self).payments@ == old(self).payments@,
            *final(self) == (Marketplace { payments: final(self).payments, ..*old(self) }),
    {
        let mut i: usize = 0;
        while i < self.payments.len() && self.payments[i].index != index
            invariant
                i <= self.payments@.len(),
                self.payments == old(self).payments,
                forall|k: int| 0 <= k < i ==> self.payments@[k].index != index,
            decreases self.payments@.len() - i,
        {
            i = i + 1;
        }
        if i == self.payments.len() {
            return false;
        }
        match result {
            Ok(h) => {
                self.payments[i].block_height = Some(h);
                self.payments[i].error = None;
            },
            Err(t) => {
                self.payments[i].block_height = None;
                self.payments[i].error = Some(t);
            },
        }
        proof {
            assert(old(self).payments@[i as int].index == index);
        }
        true
    }

    fn update_stats(&mut self, price: u64)
        ensures
            *final(self) == (Marketplace { stats: stats_after(old(self).stats, price), ..*old(self) }),
    {
        if self.stats.volume_traded <= u64::MAX - price {
            self.stats.volume_traded = self.stats.volume_traded + price;
        } else {
            self.stats.volume_traded = u64::MAX;
        }
        if price > self.stats.highest_sell {
            self.stats.highest_sell = price;
        }
    }

    /// Why a purchase reported by `caller` is refused, if it is. The token is
    /// named by the low 32 bits of the memo.
    pub open spec fn purchase_check(
        &self,
        tokens: State,
        caller: Seq<char>,
        args: TransactionNotification,
    ) -> Result<(), MarketError> {
        let t = args.memo as u32;
        if !self.tx_enabled {
            Err(MarketError::TxDisabled)
        } else if self.ledger_canister is None {
            Err(MarketError::LedgerNotSet)
        } else if self.ledger_canister->Some_0@ != caller {
            Err(MarketError::Unauthorized)
        } else if !self.listings@.contains_key(t) {
            Err(MarketError::NotListed)
        } else if self.listings@[t].price > args.amount.e8s {
            Err(MarketError::InsufficientPayment)
        } else if self.creators_address is None {
            Err(MarketError::CreatorNotSet)
        } else if !tokens.owns(self.listings@[t].owner@, t) {
            Err(MarketError::OwnerChanged)
        } else {
            Ok(())
        }
    }

    /// The payouts that settle a purchase of listing `l` paid by `args`.
    pub open spec fn settlement_of(&self, l: Listing, args: TransactionNotification, block: int) -> Settlement {
        let memo = (args.memo as u32) as u64;
        Settlement {
            block: block as u64,
            seller: Payout {
                to: l.owner,
                amount: (l.price - creator_share(l.price, self.creators_fee)) as u64,
                memo,
            },
            creator: match creator_payout(l.price, self.creators_fee) {
                Some(a) => Some(Payout { to: self.creators_address->Some_0, amount: a, memo }),
                None => None,
            },
            refund: match surplus_refund(args.amount.e8s, l.price) {
                Some(a) => Some(Payout { to: args.from, amount: a, memo }),
                None => None,
            },
        }
    }

    /// `self` is `old` after the sale of token `t`: its listing is gone and
    /// the statistics count the sale.
    pub open spec fn sold(self, old: Marketplace, t: u32) -> bool {
        &&& self.listings@ == old.listings@.remove(t)
        &&& self.same_config(old)
        &&& self.listing_offset == old.listing_offset
        &&& self.stats == stats_after(old.stats, old.listings@[t].price)
    }

    /// Settles a purchase reported by the value ledger `caller`. On success
    /// the listing is removed, the token moves to the buyer and the sale is
    /// recorded, all before any payment; the payments come back to be made.
    pub fn purchase(
        &mut self,
        tokens: &mut State,
        ledger: &mut Ledger,
        caller: &Principal,
        args: &TransactionNotification,
        now: u64,
    ) -> (r: Result<Settlement, MarketError>)
        requires
            old(self).wf(),
            old(tokens).wf(),
            old(ledger).room(1),
        ensures
            final(self).wf(),
            final(tokens).wf(),
            match old(self).purchase_check(*old(tokens), caller@, *args) {
                Err(e) => {
                    &&& r == Err::<Settlement, MarketError>(e)
                    &&& *final(self) == *old(self)
                    &&& *final(tokens) == *old(tokens)
                    &&& *final(ledger) == *old(ledger)
                },
                Ok(_) => {
                    let t = args.memo as u32;
                    let l = old(self).listings@[t];
                    &&& r == Ok::<Settlement, MarketError>(
                        old(self).settlement_of(l, *args, old(ledger).next_index()),
                    )
                    &&& final(self).sold(*old(self), t)
                    &&& final(tokens).token_owners@ == old(tokens).token_owners@.insert(t, args.from)
                    &&& final(tokens).same_settings(*old(tokens))
                    &&& final(ledger).appended(
                        *old(ledger),
                        *caller,
                        Operation::purchase,
                        Some(l.owner),
                        Some(args.from),
                        t,
                        Some(l.price),
                        now,
                    )
                },
            },
    {
        self.is_tx_enabled()?;
        let authorized = match &self.ledger_canister {
            Some(p) => *p == *caller,
            None => {
                return Err(MarketError::LedgerNotSet);
            },
        };
        if !authorized {
            return Err(MarketError::Unauthorized);
        }
        let token_id: u32 = #[verifier::truncate] (args.memo as u32);
        let (price, owner) = match self.listings.get(&token_id) {
            Some(l) => (l.price, l.owner.copy()),
            None => {
                return Err(MarketError::NotListed);
            },
        };
        if price > args.amount.e8s {
            return Err(MarketError::InsufficientPayment);
        }
        let creator = match &self.creators_address {
            Some(c) => c.copy(),
            None => {
                return Err(MarketError::CreatorNotSet);
            },
        };
        if tokens.check_owner(token_id, &owner).is_err() {
            return Err(MarketError::OwnerChanged);
        }
        // Commit before any payment: a second notification for this token
        // now finds no listing.
        self.listings.remove(&token_id);
        tokens.moved(&owner, &args.from, token_id);
        let block = ledger.purchase(caller, &owner, &args.from, token_id, price, now);
        self.update_stats(price);

        proof {
            lemma_share_bounded(price, self.creators_fee);
        }
        let share: u64 = ((price as u128) * self.creators_fee / FEE_DENOMINATOR) as u64;
        let memo: u64 = token_id as u64;
        let seller = Payout { to: owner, amount: price - share, memo };
        let creator = if share >= 2 * TX_FEE {
            Some(Payout { to: creator, amount: share - 2 * TX_FEE, memo })
        } else {
            None
        };
        let refund = if args.amount.e8s > price && args.amount.e8s - price > TX_FEE {
            Some(Payout { to: args.from.copy(), amount: args.amount.e8s - price - TX_FEE, memo })
        } else {
            None
        };
        Ok(Settlement { block, seller, creator, refund })
    }

    /// Sales statistics with the number of owners and of listings.
    pub fn stats(&self, tokens: &State) -> (r: StatsResult)
        ensures
            r == (StatsResult {
                highest_sell: self.stats.highest_sell,
                volume_traded: self.stats.volume_traded,
                owners: tokens.owners@.len() as u64,
                listings: self.listings@.len() as u64,
            }),
    {
        StatsResult {
            highest_sell: self.stats.highest_sell,
            volume_traded: self.stats.volume_traded,
            owners: tokens.owners.len() as u64,
            listings: self.listings.len() as u64,
        }
    }

    /// Number of tokens for sale.
    pub fn get_listed_count(&self) -> (r: u128)
        ensures
            r == self.listings@.len(),
    {
        self.listings.len() as u128
    }
}

/// A listing below the minimum price is refused, whatever else holds; by the
/// contract of `list`, a refused listing changes nothing.
pub proof fn lemma_low_price_refused(
    m: Marketplace,
    tokens: State,
    from: Seq<char>,
    t: u32,
    price: u64,
)
    requires
        price < MIN_PRICE,
    ensures
        m.list_check(tokens, from, t, price) is Err,
{
}

/// Listing a token and then withdrawing it succeeds and leaves the token
/// unlisted (exactly as before when it was not listed), and the two ledger
/// records follow each other with increasing indices.
pub proof fn lemma_list_then_delist(
    m0: Marketplace,
    m1: Marketplace,
    m2: Marketplace,
    l0: Ledger,
    l1: Ledger,
    l2: Ledger,
    tokens: State,
    from: Principal,
    t: u32,
    price: u64,
    now1: u64,
    now2: u64,
)
    requires
        l0.room(2),
        m0.list_check(tokens, from@, t, price) is Ok,
        m1.listed(m0, tokens, t, price, now1),
        l1.appended(l0, from, Operation::list, Some(from), None, t, Some(price), now1),
        m2.listings@ == m1.listings@.remove(t),
        l2.appended(l1, from, Operation::delist, Some(from), None, t, None, now2),
    ensures
        m1.delist_check(tokens, from@, t) is Ok,
        !m2.listings@.contains_key(t),
        !m0.listings@.contains_key(t) ==> m2.listings@ == m0.listings@,
        l2.tx@.len() == l0.tx@.len() + 2,
        l2.tx@[l0.tx@.len() as int].op == Operation::list,
        l2.tx@[l0.tx@.len() as int + 1].op == Operation::delist,
        l2.tx@[l0.tx@.len() as int].index < l2.tx@[l0.tx@.len() as int + 1].index,
{
    let n = l0.tx@.len() as int;
    assert(l2.tx@[n] == l1.tx@[n]);
    if !m0.listings@.contains_key(t) {
        assert(m2.listings@ == m0.listings@);
    }
}

/// Once a purchase of a token has committed, a further notification for the
/// same token from the same notifier is refused as not listed, whatever
/// state the registry is in. A refused purchase pays nobody out: at most the
/// sender gets its own amount back, less one fee.
pub proof fn lemma_no_second_sale(
    m0: Marketplace,
    m1: Marketplace,
    tokens0: State,
    tokens1: State,
    caller: Seq<char>,
    first: TransactionNotification,
    second: TransactionNotification,
)
    requires
        m0.purchase_check(tokens0, caller, first) is Ok,
        m1.sold(m0, first.memo as u32),
        second.memo as u32 == first.memo as u32,
    ensures
        m1.purchase_check(tokens1, caller, second) == Err::<(), MarketError>(MarketError::NotListed),
{
}

/// A purchase paid at exactly the listed price issues no refund, and the
/// seller receives the price less the creator's share.
pub proof fn lemma_exact_price_settlement(m: Marketplace, l: Listing, args: TransactionNotification, block: int)
    requires
        m.wf(),
        args.amount.e8s == l.price,
    ensures
        m.settlement_of(l, args, block).refund is None,
        m.settlement_of(l, args, block).seller.amount == l.price - creator_share(l.price, m.creators_fee),
{
    lemma_share_bounded(l.price, m.creators_fee);
}

/// A buyer who pays `surplus` over the price gets `surplus` less one transfer
/// fee back when the surplus exceeds that fee, and nothing otherwise.
pub proof fn lemma_surplus_refund(price: u64, surplus: u64)
    requires
        price + surplus <= u64::MAX,
    ensures
        surplus > TX_FEE ==> surplus_refund((price + surplus) as u64, price) == Some(
            (surplus - TX_FEE) as u64,
        ),
        surplus <= TX_FEE ==> surplus_refund((price + surplus) as u64, price) is None,
{
}

impl Default for Stats {
    fn default() -> (r: Stats)
        ensures
            r == (Stats { highest_sell: 0, volume_traded: 0 }),
    {
        Stats { highest_sell: 0, volume_traded: 0 }
    }
}

} // verus!
