//! The payments of a purchase as a state machine. `purchase_session`
//! commits the purchase and asks for the seller's payment; each payment's
//! outcome is handed to `purchase_step`, which asks for the next payment or
//! ends the purchase. A purchase that fails is compensated by returning what
//! was received, less one fee.
use vstd::prelude::*;
use crate::ledger::Ledger;
use crate::marketplace::{Marketplace, Payout, Settlement, failure_refund};
use crate::token::State;
use crate::types::{MarketError, Operation, Principal, TX_FEE, TransactionNotification};

verus! {

/// Where a purchase stands between two payments.
pub enum PurchaseStage {
    PaySeller { settlement: Settlement },
    PayCreator { settlement: Settlement },
    /// Refunding the surplus of the purchase recorded at `block`.
    RefundSurplus { block: u64 },
    /// Returning the received amount; the purchase then fails with `failure`.
    Compensate { failure: PurchaseFailure },
}

/// Why a purchase failed.
pub enum PurchaseFailure {
    Refused(MarketError),
    /// A payment failed with this text.
    Payment(String),
}

/// A purchase whose payments are under way.
pub struct PurchaseSession {
    /// The notification that paid for it.
    pub notice: TransactionNotification,
    pub stage: PurchaseStage,
}

/// What to do next.
pub enum PurchaseAction {
    Pay(Payout),
    /// The purchase is over: the ledger index of its record, or why it failed.
    Finish(Result<u64, PurchaseFailure>),
}

/// `r` compensates the buyer of `notice` after `failure`: the received amount
/// less one fee goes back when positive, and the purchase fails.
pub open spec fn compensates(
    r: (Option<PurchaseSession>, PurchaseAction),
    notice: TransactionNotification,
    failure: PurchaseFailure,
) -> bool {
    if notice.amount.e8s > TX_FEE {
        &&& r.0 == Some(PurchaseSession { notice, stage: PurchaseStage::Compensate { failure } })
        &&& r.1 == PurchaseAction::Pay(
            Payout { to: notice.from, amount: (notice.amount.e8s - TX_FEE) as u64, memo: notice.memo },
        )
    } else {
        r.0 is None && r.1 == PurchaseAction::Finish(Err(failure))
    }
}

/// `r` moves on from a paid step of `st`: the creator's payment if there is
/// one and `creator_next`, then the surplus refund if there is one, else
/// success.
pub open spec fn pays_next(
    r: (Option<PurchaseSession>, PurchaseAction),
    notice: TransactionNotification,
    st: Settlement,
    creator_next: bool,
) -> bool {
    if creator_next && st.creator is Some {
        &&& r.0 == Some(PurchaseSession { notice, stage: PurchaseStage::PayCreator { settlement: st } })
        &&& r.1 == PurchaseAction::Pay(st.creator->Some_0)
    } else if st.refund is Some {
        &&& r.0 == Some(PurchaseSession { notice, stage: PurchaseStage::RefundSurplus { block: st.block } })
        &&& r.1 == PurchaseAction::Pay(st.refund->Some_0)
    } else {
        r.0 is None && r.1 == PurchaseAction::Finish(Ok(st.block))
    }
}

fn compensate(notice: TransactionNotification, failure: PurchaseFailure) -> (r: (
    Option<PurchaseSession>,
    PurchaseAction,
))
    ensures
        compensates(r, notice, failure),
{
    match failure_refund(&notice) {
        Some(p) => (
            Some(PurchaseSession { notice, stage: PurchaseStage::Compensate { failure } }),
            PurchaseAction::Pay(p),
        ),
        None => (None, PurchaseAction::Finish(Err(failure))),
    }
}

fn next_payment(notice: TransactionNotification, st: Settlement, creator_next: bool) -> (r: (
    Option<PurchaseSession>,
    PurchaseAction,
))
    ensures
        pays_next(r, notice, st, creator_next),
{
    if creator_next {
        if let Some(c) = &st.creator {
            let pay = copy_payout(c);
            return (
                Some(PurchaseSession { notice, stage: PurchaseStage::PayCreator { settlement: st } }),
                PurchaseAction::Pay(pay),
            );
        }
    }
    match st.refund {
        Some(r) => (
            Some(PurchaseSession { notice, stage: PurchaseStage::RefundSurplus { block: st.block } }),
            PurchaseAction::Pay(r),
        ),
        None => (None, PurchaseAction::Finish(Ok(st.block))),
    }
}

fn copy_payout(p: &Payout) -> (r: Payout)
    ensures
        r == *p,
{
    Payout { to: p.to.copy(), amount: p.amount, memo: p.memo }
}

fn copy_notice(a: &TransactionNotification) -> (c: TransactionNotification)
    ensures
        c == *a,
{
    TransactionNotification {
        amount: a.amount,
        block_height: a.block_height,
        from: a.from.copy(),
        from_subaccount: a.from_subaccount,
        memo: a.memo,
        to: a.to.copy(),
        to_subaccount: a.to_subaccount,
    }
}

impl Marketplace {
    /// Starts a purchase reported by `caller`: commits it as `purchase`
    /// does and asks for the seller's payment. A refused purchase returns
    /// what was received, less one fee, to the sender.
    pub fn purchase_session(
        &mut self,
        tokens: &mut State,
        ledger: &mut Ledger,
        caller: &Principal,
        args: &TransactionNotification,
        now: u64,
    ) -> (r: (Option<PurchaseSession>, PurchaseAction))
        requires
            old(self).wf(),
            old(tokens).wf(),
            old(ledger).room(1),
        ensures
            final(self).wf(),
            final(tokens).wf(),
            match old(self).purchase_check(*old(tokens), caller@, *args) {
                Err(e) => {
                    &&& *final(self) == *old(self)
                    &&& *final(tokens) == *old(tokens)
                    &&& *final(ledger) == *old(ledger)
                    &&& compensates(r, *args, PurchaseFailure::Refused(e))
                },
                Ok(_) => {
                    let t = args.memo as u32;
                    let l = old(self).listings@[t];
                    let st = old(self).settlement_of(l, *args, old(ledger).next_index());
                    &&& final(self).sold(*old(self), t)
                    &&& final(tokens).token_owners@ == old(tokens).token_owners@.insert(t, args.from)
                    &&& final(ledger).appended(
                        *old(ledger),
                        *caller,
                        Operation::purchase,
                        Some(l.owner),
                        Some(args.from),
                        t,
                        Some(l.price),
                        now,
                    )
                    &&& r.0 == Some(
                        PurchaseSession { notice: *args, stage: PurchaseStage::PaySeller { settlement: st } },
                    )
                    &&& r.1 == PurchaseAction::Pay(st.seller)
                },
            },
    {
        match self.purchase(tokens, ledger, caller, args, now) {
            Ok(settlement) => {
                let pay = copy_payout(&settlement.seller);
                (
                    Some(
                        PurchaseSession {
                            notice: copy_notice(args),
                            stage: PurchaseStage::PaySeller { settlement },
                        },
                    ),
                    PurchaseAction::Pay(pay),
                )
            },
            Err(e) => compensate(copy_notice(args), PurchaseFailure::Refused(e)),
        }
    }
}

/// Advances a purchase by the outcome of its last payment. A failed payment
/// to the seller or the creator is compensated; the outcome of a surplus
/// refund or of a compensation is not reported further.
pub fn purchase_step(s: PurchaseSession, sent: Result<u64, String>) -> (r: (
    Option<PurchaseSession>,
    PurchaseAction,
))
    ensures
        match (s.stage, sent) {
            (PurchaseStage::PaySeller { settlement }, Ok(_)) => pays_next(r, s.notice, settlement, true),
            (PurchaseStage::PayCreator { settlement }, Ok(_)) => pays_next(r, s.notice, settlement, false),
            (PurchaseStage::PaySeller { .. }, Err(text)) => compensates(
                r,
                s.notice,
                PurchaseFailure::Payment(text),
            ),
            (PurchaseStage::PayCreator { .. }, Err(text)) => compensates(
                r,
                s.notice,
                PurchaseFailure::Payment(text),
            ),
            (PurchaseStage::RefundSurplus { block }, _) => r.0 is None && r.1 == PurchaseAction::Finish(
                Ok(block),
            ),
            (PurchaseStage::Compensate { failure }, _) => r.0 is None && r.1 == PurchaseAction::Finish(
                Err(failure),
            ),
        },
{
    match s.stage {
        PurchaseStage::PaySeller { settlement } => match sent {
            Ok(_) => next_payment(s.notice, settlement, true),
            Err(text) => compensate(s.notice, PurchaseFailure::Payment(text)),
        },
        PurchaseStage::PayCreator { settlement } => match sent {
            Ok(_) => next_payment(s.notice, settlement, false),
            Err(text) => compensate(s.notice, PurchaseFailure::Payment(text)),
        },
        PurchaseStage::RefundSurplus { block } => (None, PurchaseAction::Finish(Ok(block))),
        PurchaseStage::Compensate { failure } => (None, PurchaseAction::Finish(Err(failure))),
    }
}

} // verus!
