//! Settlement proxy: turns a transfer recorded on the value ledger into a
//! purchase notification for the marketplace, then pays the seller and keeps
//! the fees. Each block height is processed at most once: it is marked
//! before the first remote call. The remote calls themselves are made by the
//! caller of these functions, which hands their outcomes back.
use vstd::prelude::*;
use vstd::string::StringExecFns;
use crate::int_set::IntSet;
use crate::types::{
    ICPTs, Principal, SendArgs, TX_FEE, TransactionNotification, TransactionResponse,
};

verus! {

/// Default value-ledger service.
pub const LEDGER_CANISTER_ID: &'static str = "ryjl3-tyaaa-aaaaa-aaaba-cai";

/// Default market fee, in parts of `FEE_PARTS`.
pub const DEFAULT_MARKET_FEE: u64 = 2500;

/// Fee rates are expressed in parts of this.
pub const FEE_PARTS: u64 = 100000;

/// Kind of failure of the call that notifies the marketplace.
#[derive(Clone, Copy, Debug, PartialEq, Eq, Structural)]
pub enum ErrType {
    /// The call did not reach the marketplace.
    Call,
    /// The answer could not be decoded.
    Decode,
    /// The transfer does not come from the caller.
    Resp,
    /// The marketplace refused the purchase.
    Token,
}

/// A failure on the way to the marketplace, with its text.
pub struct AppErr {
    pub id: ErrType,
    pub text: String,
}

/// An inbound notification attempt and its outcome.
pub struct NotificationStatus {
    pub index: u64,
    pub timestamp: u64,
    pub args: TransactionNotification,
    pub result: Option<Result<TransactionResponse, AppErr>>,
}

/// An outbound payment attempt and its outcome.
pub struct TransferStatus {
    pub index: u64,
    pub timestamp: u64,
    pub args: SendArgs,
    pub result: Option<Result<u64, String>>,
}

/// Fees collected so far, and those not yet paid out.
#[derive(Clone, Copy, Debug, PartialEq, Eq, Structural)]
pub struct ProxyStatus {
    pub total_market_fee: u64,
    pub total_creator_fee: u64,
    pub waiting_market_fee: u64,
    pub waiting_creator_fee: u64,
}

/// Why a notification was refused outright.
#[derive(Clone, Copy, Debug, PartialEq, Eq, Structural)]
pub enum ProxyError {
    AlreadyProcessed,
    NotConfigured,
    LedgerNotSet,
    NoTransaction,
    NoTransfer,
    BurnTransfer,
    MintTransfer,
    NoAmount,
    RecipientMismatch,
    FeeTooHigh,
}

impl ProxyError {
    /// Text shown to a caller.
    pub fn message(&self) -> &'static str {
        match self {
            ProxyError::AlreadyProcessed => "Block already processed",
            ProxyError::NotConfigured => "Token canister not set!",
            ProxyError::LedgerNotSet => "Ledger canister not set",
            ProxyError::NoTransaction => "Transaction is None",
            ProxyError::NoTransfer => "Transaction transfer is none",
            ProxyError::BurnTransfer => "Notification failed transfer must be of type send, found burn",
            ProxyError::MintTransfer => "Notification failed transfer must be of type send, found mint",
            ProxyError::NoAmount => "Amount is empty!",
            ProxyError::RecipientMismatch => "Invalid block! Canister does not match block recipient",
            ProxyError::FeeTooHigh => "Fees exceed the amount",
        }
    }
}

/// Account on the value ledger, by its hexadecimal identifier.
pub struct AccountIdentifier {
    pub hex: String,
}

impl View for AccountIdentifier {
    type V = Seq<char>;

    open spec fn view(&self) -> Seq<char> {
        self.hex@
    }
}

impl AccountIdentifier {
    pub fn to_hex(&self) -> (r: String)
        ensures
            r@ == self@,
    {
        self.hex.clone()
    }
}

/// Movement of value recorded in a ledger block.
pub enum Transfer {
    Send { from: AccountIdentifier, to: AccountIdentifier, amount: Option<u64> },
    Burn,
    Mint,
}

/// The transaction of a ledger block, as decoded.
pub struct LedgerTransaction {
    pub transfer: Option<Transfer>,
    pub memo: Option<u64>,
}

/// A send transfer accepted for settlement.
pub struct SendTransfer {
    pub from: AccountIdentifier,
    pub to: AccountIdentifier,
    pub amount: u64,
    pub memo: u64,
}

/// What came back from notifying the marketplace.
pub enum TargetReply {
    /// The call failed, with the reason.
    CallFailed(String),
    /// The answer could not be decoded.
    Undecodable,
    /// The decoded answer: accepted, or refused with a reason.
    Replied(Result<TransactionResponse, String>),
}

pub struct State {
    pub ledger_canister: Option<Principal>,
    pub token_canister: Option<Principal>,
    pub owner: Option<Principal>,
    pub blocks: Vec<SendArgs>,
    /// Block heights already taken up; entries are never removed.
    pub blocks_processed: IntSet,
    /// Market's share of each sale, in parts of `FEE_PARTS`.
    pub market_fee: u64,
    pub market_address: Option<Principal>,
    pub total_market_fee: u64,
    pub total_creator_fee: u64,
    pub waiting_market_fee: u64,
    pub waiting_creator_fee: u64,
    /// Every outbound payment attempt with its outcome.
    pub payment_offset: u64,
    pub payments: Vec<TransferStatus>,
    /// Every inbound notify attempt, with the marketplace's answer when it
    /// was asked.
    pub notification_offset: u64,
    pub notifications: Vec<NotificationStatus>,
}

/// `a + b`, or the largest `u64` when that does not fit.
pub open spec fn sat_add(a: u64, b: int) -> u64 {
    if a + b > u64::MAX {
        u64::MAX
    } else {
        (a + b) as u64
    }
}

fn add_saturating(a: u64, b: u64) -> (r: u64)
    ensures
        r == sat_add(a, b as int),
{
    if a <= u64::MAX - b {
        a + b
    } else {
        u64::MAX
    }
}

/// `rate` parts of `FEE_PARTS` of `amount`, rounded down.
pub open spec fn fee_of(amount: u64, rate: u64) -> int {
    (amount * rate) / (FEE_PARTS as int)
}

proof fn lemma_fee_bounds(amount: u64, rate: u64)
    ensures
        0 <= amount * rate <= u128::MAX,
        0 <= fee_of(amount, rate),
        rate <= FEE_PARTS ==> fee_of(amount, rate) <= amount,
{
    assert(0 <= amount * rate <= u64::MAX * u64::MAX) by (nonlinear_arith)
        requires
            0 <= amount <= u64::MAX,
            0 <= rate <= u64::MAX,
    ;
    if rate <= FEE_PARTS {
        assert(amount * rate <= amount * 100000) by (nonlinear_arith)
            requires
                rate <= 100000,
                0 <= amount,
        ;
    }
}

/// The accepted send transfer of a decoded block, or why it is refused.
pub open spec fn transfer_check(tx: Option<LedgerTransaction>) -> Result<(), ProxyError> {
    match tx {
        None => Err(ProxyError::NoTransaction),
        Some(t) => match t.transfer {
            None => Err(ProxyError::NoTransfer),
            Some(Transfer::Burn) => Err(ProxyError::BurnTransfer),
            Some(Transfer::Mint) => Err(ProxyError::MintTransfer),
            Some(Transfer::Send { amount, .. }) => if amount is None {
                Err(ProxyError::NoAmount)
            } else {
                Ok(())
            },
        },
    }
}

/// Takes the send transfer out of a decoded ledger block. Only sends are
/// settled; a block without a memo counts as memo 0.
pub fn send_transaction(tx: Option<LedgerTransaction>) -> (r: Result<SendTransfer, ProxyError>)
    ensures
        match transfer_check(tx) {
            Err(e) => r == Err::<SendTransfer, ProxyError>(e),
            Ok(_) => r matches Ok(s) && tx matches Some(t) && t.transfer matches Some(
                Transfer::Send { from, to, amount },
            ) && s.from == from && s.to == to && s.amount == amount->Some_0 && s.memo == (
            match t.memo {
                Some(m) => m,
                None => 0,
            }),
        },
{
    let t = match tx {
        Some(t) => t,
        None => {
            return Err(ProxyError::NoTransaction);
        },
    };
    let memo: u64 = match t.memo {
        Some(m) => m,
        None => 0,
    };
    match t.transfer {
        None => Err(ProxyError::NoTransfer),
        Some(Transfer::Burn) => Err(ProxyError::BurnTransfer),
        Some(Transfer::Mint) => Err(ProxyError::MintTransfer),
        Some(Transfer::Send { from, to, amount }) => match amount {
            None => Err(ProxyError::NoAmount),
            Some(a) => Ok(SendTransfer { from, to, amount: a, memo }),
        },
    }
}

/// What the recipient check answers for a transfer to `to`.
pub open spec fn recipient_check(own: Seq<char>, to: Seq<char>) -> Result<(), ProxyError> {
    if own == to {
        Ok(())
    } else {
        Err(ProxyError::RecipientMismatch)
    }
}

/// A transfer must be addressed to this service's own account.
pub fn check_recipient(own: &AccountIdentifier, to: &AccountIdentifier) -> (r: Result<
    (),
    ProxyError,
>)
    ensures
        r == recipient_check(own@, to@),
{
    if own.hex != to.hex {
        return Err(ProxyError::RecipientMismatch);
    }
    Ok(())
}

/// A transfer must come from the account of the caller; a mismatch is a
/// settlement failure, which is refunded.
pub fn check_sender(caller_account: &AccountIdentifier, from: &AccountIdentifier) -> (r: Result<
    (),
    AppErr,
>)
    ensures
        caller_account@ == from@ <==> r is Ok,
        r matches Err(e) ==> e.id == ErrType::Resp && e.text@
            == "Invalid block! Caller does not match block sender"@,
{
    if caller_account.hex != from.hex {
        return Err(
            AppErr {
                id: ErrType::Resp,
                text: String::from_str("Invalid block! Caller does not match block sender"),
            },
        );
    }
    Ok(())
}

/// The outcome of notifying the marketplace, as the proxy classifies it.
pub open spec fn reply_outcome(reply: TargetReply) -> Result<TransactionResponse, (ErrType, Seq<char>)> {
    match reply {
        TargetReply::CallFailed(s) => Err((ErrType::Call, "Error while calling token canister, "@ + s@)),
        TargetReply::Undecodable => Err((ErrType::Decode, "Error while decoding response"@)),
        TargetReply::Replied(Err(s)) => Err((ErrType::Token, "Error from token canister, "@ + s@)),
        TargetReply::Replied(Ok(resp)) => Ok(resp),
    }
}

/// `r` is the classification `reply_outcome` gives.
pub open spec fn classified(r: Result<TransactionResponse, AppErr>, reply: TargetReply) -> bool {
    match (r, reply_outcome(reply)) {
        (Ok(a), Ok(b)) => a == b,
        (Err(e), Err((id, text))) => e.id == id && e.text@ == text,
        _ => false,
    }
}

fn classify_reply(reply: TargetReply) -> (r: Result<TransactionResponse, AppErr>)
    ensures
        classified(r, reply),
{
    match reply {
        TargetReply::CallFailed(s) => Err(
            AppErr {
                id: ErrType::Call,
                text: String::from_str("Error while calling token canister, ").concat(s.as_str()),
            },
        ),
        TargetReply::Undecodable => Err(
            AppErr { id: ErrType::Decode, text: String::from_str("Error while decoding response") },
        ),
        TargetReply::Replied(Err(s)) => Err(
            AppErr {
                id: ErrType::Token,
                text: String::from_str("Error from token canister, ").concat(s.as_str()),
            },
        ),
        TargetReply::Replied(Ok(resp)) => Ok(resp),
    }
}

pub fn copy_err(e: &AppErr) -> (c: AppErr)
    ensures
        c == *e,
{
    AppErr { id: e.id, text: e.text.clone() }
}

fn copy_outcome(r: &Result<TransactionResponse, AppErr>) -> (c: Result<TransactionResponse, AppErr>)
    ensures
        c == *r,
{
    match r {
        Ok(resp) => Ok(resp.copy()),
        Err(e) => Err(copy_err(e)),
    }
}

/// Refund owed after a settlement failure `err` on a transfer of `amount`:
/// none when the call never reached the marketplace (the deposit may still be
/// claimed), else the amount less one fee when that is positive.
pub open spec fn refund_after(err: ErrType, amount: u64) -> Option<u64> {
    if err != ErrType::Call && amount > TX_FEE {
        Some((amount - TX_FEE) as u64)
    } else {
        None
    }
}

/// The refund to send back to the sender after the failure `err`.
pub fn failure_refund(err: &AppErr, amount: u64) -> (r: Option<u64>)
    ensures
        r == refund_after(err.id, amount),
{
    if err.id != ErrType::Call && amount > TX_FEE {
        Some(amount - TX_FEE)
    } else {
        None
    }
}

/// The notification sent to the marketplace for a transfer of `amount` from
/// `caller` to `recipient`, this service itself, recorded at `block`.
pub fn notification_args(
    caller: &Principal,
    recipient: &Principal,
    block: u64,
    amount: u64,
    memo: u64,
) -> (r: TransactionNotification)
    ensures
        r == (TransactionNotification {
            from: *caller,
            from_subaccount: None,
            to: *recipient,
            to_subaccount: None,
            block_height: block,
            amount: ICPTs { e8s: amount },
            memo,
        }),
{
    TransactionNotification {
        from: caller.copy(),
        from_subaccount: None,
        to: recipient.copy(),
        to_subaccount: None,
        block_height: block,
        amount: ICPTs { e8s: amount },
        memo,
    }
}

impl Default for State {
    fn default() -> (r: State)
        ensures
            r.wf(),
            r.ledger_canister matches Some(p) && p@ == LEDGER_CANISTER_ID@,
            r.token_canister is None,
            r.owner is None,
            r.blocks@.len() == 0,
            r.blocks_processed@ == Set::<u64>::empty(),
            r.market_fee == DEFAULT_MARKET_FEE,
            r.market_address is None,
            r.total_market_fee == 0,
            r.total_creator_fee == 0,
            r.waiting_market_fee == 0,
            r.waiting_creator_fee == 0,
            r.payment_offset == 0,
            r.payments@.len() == 0,
            r.notification_offset == 0,
            r.notifications@.len() == 0,
    {
        State {
            ledger_canister: Some(Principal::from_text(LEDGER_CANISTER_ID)),
            token_canister: None,
            owner: None,
            blocks: Vec::new(),
            blocks_processed: IntSet::new(),
            market_fee: DEFAULT_MARKET_FEE,
            market_address: None,
            total_market_fee: 0,
            total_creator_fee: 0,
            waiting_market_fee: 0,
            waiting_creator_fee: 0,
            payment_offset: 0,
            payments: Vec::new(),
            notification_offset: 0,
            notifications: Vec::new(),
        }
    }
}

impl State {
    pub open spec fn wf(&self) -> bool {
        self.blocks_processed.wf()
    }

    /// Block heights already taken up.
    pub open spec fn processed(&self) -> Set<u64> {
        self.blocks_processed@
    }

    /// Whether a notify for `block` may start, and if not why.
    pub open spec fn admission(&self, block: u64) -> Result<(), ProxyError> {
        if self.processed().contains(block) {
            Err(ProxyError::AlreadyProcessed)
        } else if self.token_canister is None {
            Err(ProxyError::NotConfigured)
        } else {
            Ok(())
        }
    }

    /// `self` is `old` with `block` marked as processed.
    pub open spec fn admitted(self, old: State, block: u64) -> bool {
        &&& self.wf()
        &&& self.processed() == old.processed().insert(block)
        &&& self == (State { blocks_processed: self.blocks_processed, ..old })
    }

    /// Succeeds when `block` has not been processed.
    pub fn is_processed(&self, block: u64) -> (r: Result<(), ProxyError>)
        ensures
            r == (if self.processed().contains(block) {
                Err(ProxyError::AlreadyProcessed)
            } else {
                Ok(())
            }),
    {
        match self.blocks_processed.get(block) {
            Some(_) => Err(ProxyError::AlreadyProcessed),
            None => Ok(()),
        }
    }

    /// First step of a notify for `block`: refuses a processed block or a
    /// missing marketplace, else marks the block processed, before any
    /// remote call, and returns the marketplace to notify.
    pub fn begin_notify(&mut self, block: u64) -> (r: Result<Principal, ProxyError>)
        requires
            old(self).wf(),
            old(self).blocks_processed.has_room(),
        ensures
            final(self).wf(),
            match old(self).admission(block) {
                Err(e) => r == Err::<Principal, ProxyError>(e) && *final(self) == *old(self),
                Ok(_) => r == Ok::<Principal, ProxyError>(old(self).token_canister->Some_0)
                    && final(self).admitted(*old(self), block),
            },
    {
        self.is_processed(block)?;
        let token_canister = match &self.token_canister {
            Some(p) => p.copy(),
            None => {
                return Err(ProxyError::NotConfigured);
            },
        };
        self.blocks_processed.insert(block, ());
        Ok(token_canister)
    }

    /// `self` is `old` with one more notification-log entry, for `args` at
    /// `now`; its outcome is not stated here.
    pub open spec fn logged(self, old: State, args: TransactionNotification, now: u64) -> bool {
        let n = old.notifications@.len();
        &&& self.notification_offset == old.notification_offset + 1
        &&& self.notifications@.len() == n + 1
        &&& self.notifications@.subrange(0, n as int) == old.notifications@
        &&& self.notifications@[n as int].index == self.notification_offset
        &&& self.notifications@[n as int].timestamp == now
        &&& self.notifications@[n as int].args == args
        &&& self == (State {
            notification_offset: self.notification_offset,
            notifications: self.notifications,
            ..old
        })
    }

    /// The outcome recorded in the last notification-log entry.
    pub open spec fn last_outcome(self) -> Option<Result<TransactionResponse, AppErr>> {
        self.notifications@.last().result
    }

    /// Records an inbound notify attempt `args` with its outcome: `None` when
    /// it was settled or refused before the marketplace was asked.
    pub fn log_attempt(
        &mut self,
        args: TransactionNotification,
        result: Option<Result<TransactionResponse, AppErr>>,
        now: u64,
    )
        requires
            old(self).notification_offset < u64::MAX,
        ensures
            final(self).logged(*old(self), args, now),
            final(self).last_outcome() == result,
    {
        self.notification_offset = self.notification_offset + 1;
        let status = NotificationStatus { index: self.notification_offset, timestamp: now, args, result };
        self.notifications.push(status);
        proof {
            assert(self.notifications@.subrange(0, old(self).notifications@.len() as int)
                == old(self).notifications@);
        }
    }

    /// Records the notification `args` sent to the marketplace with what came
    /// back, and returns that outcome as classified.
    pub fn finish_notification(
        &mut self,
        args: TransactionNotification,
        reply: TargetReply,
        now: u64,
    ) -> (r: Result<TransactionResponse, AppErr>)
        requires
            old(self).notification_offset < u64::MAX,
        ensures
            classified(r, reply),
            final(self).notification_offset == old(self).notification_offset + 1,
            final(self).notifications@ == old(self).notifications@.push(
                NotificationStatus {
                    index: final(self).notification_offset,
                    timestamp: now,
                    args,
                    result: Some(r),
                },
            ),
            *final(self) == (State {
                notification_offset: final(self).notification_offset,
                notifications: final(self).notifications,
                ..*old(self)
            }),
    {
        let res = classify_reply(reply);
        self.log_attempt(args, Some(copy_outcome(&res)), now);
        res
    }

    /// Takes the fees out of a settled `amount` and returns what the seller
    /// receives. The fees are added to the waiting and the total counters,
    /// which saturate. Fees that together exceed the amount are refused.
    pub fn process_response(&mut self, amount: u64, resp: &TransactionResponse) -> (r: Result<
        u64,
        ProxyError,
    >)
        ensures
            ({
                let mf = fee_of(amount, old(self).market_fee);
                let cf = fee_of(amount, resp.creators_fee);
                if mf + cf > amount {
                    r == Err::<u64, ProxyError>(ProxyError::FeeTooHigh) && *final(self) == *old(self)
                } else {
                    &&& r == Ok::<u64, ProxyError>((amount - mf - cf) as u64)
                    &&& *final(self) == (State {
                        waiting_market_fee: sat_add(old(self).waiting_market_fee, mf),
                        total_market_fee: sat_add(old(self).total_market_fee, mf),
                        waiting_creator_fee: sat_add(old(self).waiting_creator_fee, cf),
                        total_creator_fee: sat_add(old(self).total_creator_fee, cf),
                        ..*old(self)
                    })
                }
            }),
    {
        proof {
            lemma_fee_bounds(amount, self.market_fee);
            lemma_fee_bounds(amount, resp.creators_fee);
        }
        let market_fee: u128 = (amount as u128) * (self.market_fee as u128) / (FEE_PARTS as u128);
        let creators_fee: u128 = (amount as u128) * (resp.creators_fee as u128) / (FEE_PARTS as u128);
        if market_fee > amount as u128 || creators_fee > amount as u128 - market_fee {
            return Err(ProxyError::FeeTooHigh);
        }
        let market_fee = market_fee as u64;
        let creators_fee = creators_fee as u64;
        let seller = amount - market_fee - creators_fee;
        self.waiting_market_fee = add_saturating(self.waiting_market_fee, market_fee);
        self.total_market_fee = add_saturating(self.total_market_fee, market_fee);
        self.waiting_creator_fee = add_saturating(self.waiting_creator_fee, creators_fee);
        self.total_creator_fee = add_saturating(self.total_creator_fee, creators_fee);
        Ok(seller)
    }

    /// The transfer of `amount` to `to_account` to hand to the value ledger.
    pub fn payment_args(&self, to_account: String, amount: u64, memo: u64) -> (r: Result<
        SendArgs,
        ProxyError,
    >)
        ensures
            self.ledger_canister is None ==> r == Err::<SendArgs, ProxyError>(
                ProxyError::LedgerNotSet,
            ),
            self.ledger_canister is Some ==> r == Ok::<SendArgs, ProxyError>(
                SendArgs {
                    memo,
                    amount: ICPTs { e8s: amount },
                    fee: ICPTs { e8s: TX_FEE },
                    from_subaccount: None,
                    to: to_account,
                    created_at_time: None,
                },
            ),
    {
        if self.ledger_canister.is_none() {
            return Err(ProxyError::LedgerNotSet);
        }
        Ok(
            SendArgs {
                memo,
                amount: ICPTs { e8s: amount },
                fee: ICPTs { e8s: TX_FEE },
                from_subaccount: None,
                to: to_account,
                created_at_time: None,
            },
        )
    }

    /// Logs an outbound payment attempt with its outcome.
    pub fn record_payment(&mut self, args: SendArgs, result: Result<u64, String>, now: u64)
        requires
            old(self).payment_offset < u64::MAX,
        ensures
            final(self).payment_offset == old(self).payment_offset + 1,
            final(self).payments@ == old(self).payments@.push(
                TransferStatus {
                    index: final(self).payment_offset,
                    timestamp: now,
                    args,
                    result: Some(result),
                },
            ),
            *final(self) == (State {
                payment_offset: final(self).payment_offset,
                payments: final(self).payments,
                ..*old(self)
            }),
    {
        self.payment_offset = self.payment_offset + 1;
        let status = TransferStatus {
            index: self.payment_offset,
            timestamp: now,
            args,
            result: Some(result),
        };
        self.payments.push(status);
    }

    /// Fee counters.
    pub fn get_status(&self) -> (r: ProxyStatus)
        ensures
            r == (ProxyStatus {
                total_market_fee: self.total_market_fee,
                total_creator_fee: self.total_creator_fee,
                waiting_market_fee: self.waiting_market_fee,
                waiting_creator_fee: self.waiting_creator_fee,
            }),
    {
        ProxyStatus {
            total_market_fee: self.total_market_fee,
            total_creator_fee: self.total_creator_fee,
            waiting_market_fee: self.waiting_market_fee,
            waiting_creator_fee: self.waiting_creator_fee,
        }
    }

    /// Number of processed block heights.
    pub fn count_processed(&self) -> (r: u64)
        requires
            self.wf(),
        ensures
            r == self.processed().len(),
    {
        self.blocks_processed.len() as u64
    }

    /// The processed block heights, each once.
    pub fn get_processed(&self) -> (r: Vec<u64>)
        ensures
            r@.to_set() == self.processed(),
            r@.no_duplicates(),
    {
        self.blocks_processed.keys()
    }
}

/// A block height, once processed, stays refused: any later state whose
/// processed set contains the earlier one refuses a notify for it.
pub proof fn lemma_processed_stays_refused(s0: State, s1: State, block: u64)
    requires
        s0.processed().contains(block),
        s0.processed().subset_of(s1.processed()),
    ensures
        s1.admission(block) == Err::<(), ProxyError>(ProxyError::AlreadyProcessed),
{
}

/// A notify whose transfer is addressed to another account is refused as a
/// recipient mismatch, and its block height stays marked as processed.
pub proof fn lemma_mismatch_still_processed(
    s0: State,
    s1: State,
    block: u64,
    own: AccountIdentifier,
    to: AccountIdentifier,
)
    requires
        s0.admission(block) is Ok,
        s1.admitted(s0, block),
        own@ != to@,
    ensures
        recipient_check(own@, to@) == Err::<(), ProxyError>(ProxyError::RecipientMismatch),
        s1.processed().contains(block),
        s1.admission(block) == Err::<(), ProxyError>(ProxyError::AlreadyProcessed),
{
}

/// Settling `amount` with fees that fit in it credits each fee counter
/// with exactly its fee, when the counter does not overflow, and leaves the
/// seller the rest.
pub proof fn lemma_fees_accrue_exactly(counter: u64, amount: u64, market_rate: u64, creator_rate: u64)
    requires
        fee_of(amount, market_rate) + fee_of(amount, creator_rate) <= amount,
        counter + amount <= u64::MAX,
    ensures
        sat_add(counter, fee_of(amount, market_rate)) == counter + fee_of(amount, market_rate),
        sat_add(counter, fee_of(amount, creator_rate)) == counter + fee_of(amount, creator_rate),
        amount - fee_of(amount, market_rate) - fee_of(amount, creator_rate) >= 0,
{
    lemma_fee_bounds(amount, market_rate);
    lemma_fee_bounds(amount, creator_rate);
}

} // verus!
