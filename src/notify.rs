//! The notify protocol as a state machine. `State::notify` admits a block
//! height, marking it processed before anything else happens; each remote
//! outcome is then handed to `State::notify_step`, which says what to do
//! next. The caller performs the actions: fetching the block, notifying the
//! marketplace, and making payments.
use vstd::prelude::*;
use crate::proxy::{
    AccountIdentifier, AppErr, ErrType, LedgerTransaction, ProxyError, SendTransfer,
    State, TargetReply, Transfer, check_recipient, check_sender, copy_err, failure_refund, fee_of,
    notification_args, recipient_check, refund_after, reply_outcome, send_transaction,
    transfer_check, classified, sat_add,
};
use crate::types::{ICPTs, Principal, TransactionNotification};

verus! {

/// Where a notify stands between two remote calls.
pub enum NotifyStage {
    /// Waiting for the ledger block.
    AwaitBlock,
    /// Waiting for the marketplace's answer about `transfer`.
    AwaitReply { transfer: SendTransfer },
    /// Waiting for the seller's payment.
    AwaitPayout,
    /// Waiting for the refund; the notify then fails with `err`.
    AwaitRefund { err: AppErr },
}

/// A notify in progress.
pub struct NotifySession {
    pub block: u64,
    pub caller: Principal,
    /// This service itself, the recipient of the transfer.
    pub own: Principal,
    /// The marketplace to notify.
    pub target: Principal,
    pub caller_account: AccountIdentifier,
    pub own_account: AccountIdentifier,
    pub stage: NotifyStage,
}

/// Outcome of the last action.
pub enum NotifyEvent {
    /// The decoded block, or why it could not be had.
    Block(Result<Option<LedgerTransaction>, String>),
    /// What notifying the marketplace gave.
    Reply(TargetReply),
    /// What the payment gave.
    Sent(Result<u64, String>),
}

/// Recipient of a payment.
pub enum PayTo {
    /// The default account of this identity.
    Owner(Principal),
    /// This account.
    Account(AccountIdentifier),
}

/// Why a notify failed.
pub enum NotifyFailure {
    Refused(ProxyError),
    /// A remote call failed with this text.
    Remote(String),
    /// Settlement failed after the transfer was accepted.
    Settlement(AppErr),
    /// The event does not answer the session's last action.
    OutOfOrder,
}

/// What to do next.
pub enum NotifyAction {
    FetchBlock { block: u64 },
    CallTarget { canister: Principal, args: TransactionNotification },
    Pay { to: PayTo, amount: u64, memo: u64 },
    Finish(Result<(), NotifyFailure>),
}

/// An inbound notify attempt from `caller` to `own` for `block`, as logged;
/// amount and memo are 0 while the transfer is not known.
pub open spec fn attempt(caller: Principal, own: Principal, block: u64, amount: u64, memo: u64) -> TransactionNotification {
    TransactionNotification {
        from: caller,
        from_subaccount: None,
        to: own,
        to_subaccount: None,
        block_height: block,
        amount: ICPTs { e8s: amount },
        memo,
    }
}

/// The notification sent to the marketplace for `t` in session `s`.
pub open spec fn notice(s: NotifySession, t: SendTransfer) -> TransactionNotification {
    attempt(s.caller, s.own, s.block, t.amount, t.memo)
}

/// The session ends with `f`.
pub open spec fn ends(r: (Option<NotifySession>, NotifyAction), f: Result<(), NotifyFailure>) -> bool {
    r.0 is None && r.1 == NotifyAction::Finish(f)
}

impl State {
    /// Starts a notify for `block`, claimed by `caller` and received by
    /// `own`, this service. A refused block is only logged; an admitted one
    /// is marked processed before the first remote call is asked for.
    pub fn notify(
        &mut self,
        block: u64,
        caller: Principal,
        own: Principal,
        caller_account: AccountIdentifier,
        own_account: AccountIdentifier,
        now: u64,
    ) -> (r: (Option<NotifySession>, NotifyAction))
        requires
            old(self).wf(),
            old(self).blocks_processed.has_room(),
            old(self).notification_offset < u64::MAX,
        ensures
            final(self).wf(),
            match old(self).admission(block) {
                Err(e) => {
                    &&& ends(r, Err(NotifyFailure::Refused(e)))
                    &&& final(self).logged(*old(self), attempt(caller, own, block, 0, 0), now)
                    &&& final(self).last_outcome() is None
                },
                Ok(_) => {
                    &&& final(self).admitted(*old(self), block)
                    &&& r.0 == Some(
                        NotifySession {
                            block,
                            caller,
                            own,
                            target: old(self).token_canister->Some_0,
                            caller_account,
                            own_account,
                            stage: NotifyStage::AwaitBlock,
                        },
                    )
                    &&& r.1 == NotifyAction::FetchBlock { block }
                },
            },
    {
        match self.begin_notify(block) {
            Err(e) => {
                let args = notification_args(&caller, &own, block, 0, 0);
                self.log_attempt(args, None, now);
                (None, NotifyAction::Finish(Err(NotifyFailure::Refused(e))))
            },
            Ok(target) => (
                Some(
                    NotifySession {
                        block,
                        caller,
                        own,
                        target,
                        caller_account,
                        own_account,
                        stage: NotifyStage::AwaitBlock,
                    },
                ),
                NotifyAction::FetchBlock { block },
            ),
        }
    }

    /// Advances session `s` by the outcome `ev` of its last action.
    pub fn notify_step(&mut self, s: NotifySession, ev: NotifyEvent, now: u64) -> (r: (
        Option<NotifySession>,
        NotifyAction,
    ))
        requires
            old(self).wf(),
            old(self).notification_offset < u64::MAX,
        ensures
            final(self).wf(),
            final(self).processed() == old(self).processed(),
            match (s.stage, ev) {
                (NotifyStage::AwaitBlock, NotifyEvent::Block(Err(text))) => {
                    &&& ends(r, Err(NotifyFailure::Remote(text)))
                    &&& final(self).logged(*old(self), attempt(s.caller, s.own, s.block, 0, 0), now)
                    &&& final(self).last_outcome() is None
                },
                (NotifyStage::AwaitBlock, NotifyEvent::Block(Ok(tx))) => {
                    match transfer_check(tx) {
                        Err(e) => {
                            &&& ends(r, Err(NotifyFailure::Refused(e)))
                            &&& final(self).logged(*old(self), attempt(s.caller, s.own, s.block, 0, 0), now)
                            &&& final(self).last_outcome() is None
                        },
                        Ok(_) => tx matches Some(lt) && lt.transfer matches Some(
                            Transfer::Send { from, to, amount },
                        ) && {
                            let t = SendTransfer {
                                from,
                                to,
                                amount: amount->Some_0,
                                memo: match lt.memo {
                                    Some(m) => m,
                                    None => 0,
                                },
                            };
                            if recipient_check(s.own_account@, to@) is Err {
                                &&& ends(r, Err(NotifyFailure::Refused(ProxyError::RecipientMismatch)))
                                &&& final(self).logged(*old(self), notice(s, t), now)
                                &&& final(self).last_outcome() is None
                            } else if s.caller_account@ != from@ {
                                let text = "Invalid block! Caller does not match block sender"@;
                                &&& refunds(r, s, t, ErrType::Resp, text)
                                &&& final(self).logged(*old(self), notice(s, t), now)
                                &&& final(self).last_outcome() matches Some(Err(e)) && e.id
                                    == ErrType::Resp && e.text@ == text
                            } else {
                                &&& *final(self) == *old(self)
                                &&& r.0 == Some(
                                    NotifySession { stage: NotifyStage::AwaitReply { transfer: t }, ..s },
                                )
                                &&& r.1 == NotifyAction::CallTarget {
                                    canister: s.target,
                                    args: notice(s, t),
                                }
                            }
                        },
                    }
                },
                (NotifyStage::AwaitReply { transfer: t }, NotifyEvent::Reply(reply)) => {
                    let n = old(self).notifications@.len();
                    &&& final(self).notifications@.len() == n + 1
                    &&& final(self).notifications@.subrange(0, n as int) == old(self).notifications@
                    &&& final(self).notifications@[n as int].index == old(self).notification_offset + 1
                    &&& final(self).notifications@[n as int].timestamp == now
                    &&& final(self).notifications@[n as int].args == notice(s, t)
                    &&& final(self).notifications@[n as int].result matches Some(res) && classified(
                        res,
                        reply,
                    )
                    &&& final(self).notification_offset == old(self).notification_offset + 1
                    &&& final(self).payments == old(self).payments
                    &&& final(self).payment_offset == old(self).payment_offset
                    &&& final(self).market_fee == old(self).market_fee
                    &&& final(self).ledger_canister == old(self).ledger_canister
                    &&& final(self).token_canister == old(self).token_canister
                    &&& match reply_outcome(reply) {
                        Ok(resp) => if fee_of(t.amount, old(self).market_fee) + fee_of(
                            t.amount,
                            resp.creators_fee,
                        ) > t.amount {
                            &&& ends(r, Err(NotifyFailure::Refused(ProxyError::FeeTooHigh)))
                            &&& same_fees(*final(self), *old(self))
                        } else {
                            let mf = fee_of(t.amount, old(self).market_fee);
                            let cf = fee_of(t.amount, resp.creators_fee);
                            &&& final(self).waiting_market_fee == sat_add(old(self).waiting_market_fee, mf)
                            &&& final(self).total_market_fee == sat_add(old(self).total_market_fee, mf)
                            &&& final(self).waiting_creator_fee == sat_add(old(self).waiting_creator_fee, cf)
                            &&& final(self).total_creator_fee == sat_add(old(self).total_creator_fee, cf)
                            &&& r.0 == Some(NotifySession { stage: NotifyStage::AwaitPayout, ..s })
                            &&& r.1 == NotifyAction::Pay {
                                to: PayTo::Owner(resp.seller),
                                amount: (t.amount - mf - cf) as u64,
                                memo: 0,
                            }
                        },
                        Err((id, text)) => refunds(r, s, t, id, text) && same_fees(
                            *final(self),
                            *old(self),
                        ),
                    }
                },
                (NotifyStage::AwaitPayout, NotifyEvent::Sent(Ok(_))) => ends(r, Ok(()))
                    && *final(self) == *old(self),
                (NotifyStage::AwaitPayout, NotifyEvent::Sent(Err(text))) => ends(
                    r,
                    Err(NotifyFailure::Remote(text)),
                ) && *final(self) == *old(self),
                (NotifyStage::AwaitRefund { err }, NotifyEvent::Sent(_)) => ends(
                    r,
                    Err(NotifyFailure::Settlement(err)),
                ) && *final(self) == *old(self),
                _ => ends(r, Err(NotifyFailure::OutOfOrder)) && *final(self) == *old(self),
            },
    {
        match (s.stage, ev) {
            (NotifyStage::AwaitBlock, NotifyEvent::Block(Err(text))) => {
                self.log_attempt(notification_args(&s.caller, &s.own, s.block, 0, 0), None, now);
                (None, NotifyAction::Finish(Err(NotifyFailure::Remote(text))))
            },
            (NotifyStage::AwaitBlock, NotifyEvent::Block(Ok(tx))) => {
                let t = match send_transaction(tx) {
                    Err(e) => {
                        self.log_attempt(notification_args(&s.caller, &s.own, s.block, 0, 0), None, now);
                        return (None, NotifyAction::Finish(Err(NotifyFailure::Refused(e))));
                    },
                    Ok(t) => t,
                };
                let args = notification_args(&s.caller, &s.own, s.block, t.amount, t.memo);
                if let Err(e) = check_recipient(&s.own_account, &t.to) {
                    self.log_attempt(args, None, now);
                    return (None, NotifyAction::Finish(Err(NotifyFailure::Refused(e))));
                }
                let session = NotifySession { stage: NotifyStage::AwaitBlock, ..s };
                match check_sender(&session.caller_account, &t.from) {
                    Err(err) => {
                        self.log_attempt(args, Some(Err(copy_err(&err))), now);
                        refund(session, t, err)
                    },
                    Ok(()) => {
                        let canister = session.target.copy();
                        (
                            Some(NotifySession { stage: NotifyStage::AwaitReply { transfer: t }, ..session }),
                            NotifyAction::CallTarget { canister, args },
                        )
                    },
                }
            },
            (NotifyStage::AwaitReply { transfer: t }, NotifyEvent::Reply(reply)) => {
                let session = NotifySession { stage: NotifyStage::AwaitBlock, ..s };
                let args = notification_args(
                    &session.caller,
                    &session.own,
                    session.block,
                    t.amount,
                    t.memo,
                );
                match self.finish_notification(args, reply, now) {
                    Ok(resp) => match self.process_response(t.amount, &resp) {
                        Err(e) => (None, NotifyAction::Finish(Err(NotifyFailure::Refused(e)))),
                        Ok(seller) => (
                            Some(NotifySession { stage: NotifyStage::AwaitPayout, ..session }),
                            NotifyAction::Pay { to: PayTo::Owner(resp.seller), amount: seller, memo: 0 },
                        ),
                    },
                    Err(err) => refund(session, t, err),
                }
            },
            (NotifyStage::AwaitPayout, NotifyEvent::Sent(Ok(_))) => (None, NotifyAction::Finish(Ok(()))),
            (NotifyStage::AwaitPayout, NotifyEvent::Sent(Err(text))) => {
                (None, NotifyAction::Finish(Err(NotifyFailure::Remote(text))))
            },
            (NotifyStage::AwaitRefund { err }, NotifyEvent::Sent(_)) => {
                (None, NotifyAction::Finish(Err(NotifyFailure::Settlement(err))))
            },
            _ => (None, NotifyAction::Finish(Err(NotifyFailure::OutOfOrder))),
        }
    }
}

/// `r` takes the refund path after a failure of kind `id` with `text` on
/// transfer `t`: refund the sender when a refund is owed, else fail at once.
pub open spec fn refunds(
    r: (Option<NotifySession>, NotifyAction),
    s: NotifySession,
    t: SendTransfer,
    id: ErrType,
    text: Seq<char>,
) -> bool {
    match refund_after(id, t.amount) {
        Some(a) => {
            &&& r.0 matches Some(n) && n.stage matches NotifyStage::AwaitRefund { err } && err.id
                == id && err.text@ == text && n == (NotifySession { stage: n.stage, ..s })
            &&& r.1 == NotifyAction::Pay { to: PayTo::Account(t.from), amount: a, memo: t.memo }
        },
        None => r.0 is None && (r.1 matches NotifyAction::Finish(Err(NotifyFailure::Settlement(err)))
            && err.id == id && err.text@ == text),
    }
}

/// The fee counters of `a` and `b` agree.
pub open spec fn same_fees(a: State, b: State) -> bool {
    &&& a.waiting_market_fee == b.waiting_market_fee
    &&& a.total_market_fee == b.total_market_fee
    &&& a.waiting_creator_fee == b.waiting_creator_fee
    &&& a.total_creator_fee == b.total_creator_fee
}

/// Takes the refund path of session `s` after the failure `err` on `t`.
fn refund(s: NotifySession, t: SendTransfer, err: AppErr) -> (r: (Option<NotifySession>, NotifyAction))
    ensures
        refunds(r, s, t, err.id, err.text@),
{
    match failure_refund(&err, t.amount) {
        Some(a) => (
            Some(NotifySession { stage: NotifyStage::AwaitRefund { err }, ..s }),
            NotifyAction::Pay { to: PayTo::Account(t.from), amount: a, memo: t.memo },
        ),
        None => (None, NotifyAction::Finish(Err(NotifyFailure::Settlement(err)))),
    }
}

} // verus!
