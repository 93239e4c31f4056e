//! Plain values shared by the registry, the marketplace and the settlement proxy.
use vstd::prelude::*;

verus! {

/// Flat fee, in e8s, that the value ledger charges for each outbound transfer.
pub const TX_FEE: u64 = 10000;

/// Identity of a user or a service, held as its canonical textual form.
pub struct Principal {
    pub text: String,
}

impl View for Principal {
    type V = Seq<char>;

    open spec fn view(&self) -> Seq<char> {
        self.text@
    }
}

impl Principal {
    pub fn from_text(text: &str) -> (r: Principal)
        ensures
            r@ == text@,
    {
        Principal { text: text.to_owned() }
    }

    pub fn to_text(&self) -> (r: String)
        ensures
            r@ == self@,
    {
        self.text.clone()
    }

    /// A copy with the same text.
    pub fn copy(&self) -> (r: Principal)
        ensures
            r == *self,
            r@ == self@,
    {
        Principal { text: self.text.clone() }
    }
}

impl PartialEq for Principal {
    fn eq(&self, o: &Principal) -> (r: bool) {
        self.text == o.text
    }
}

impl vstd::std_specs::cmp::PartialEqSpecImpl for Principal {
    open spec fn obeys_eq_spec() -> bool {
        true
    }

    open spec fn eq_spec(&self, o: &Principal) -> bool {
        self@ == o@
    }
}

/// Copy of an optional identity.
pub fn copy_opt(p: &Option<Principal>) -> (r: Option<Principal>)
    ensures
        r == *p,
{
    match p {
        Some(x) => Some(x.copy()),
        None => None,
    }
}

/// A name/value pair describing a token.
pub struct Property {
    pub name: String,
    pub value: String,
}

/// Kind of operation recorded in the audit ledger.
#[allow(non_camel_case_types)]
#[derive(Clone, Copy, Debug, PartialEq, Eq, Structural)]
pub enum Operation {
    delist,
    init,
    list,
    mint,
    burn,
    purchase,
    transfer,
}

impl Default for Operation {
    fn default() -> (r: Operation)
        ensures
            r == Operation::init,
    {
        Operation::init
    }
}

/// An amount of the ledger's currency, in e8s.
#[derive(Clone, Copy, Debug, PartialEq, Eq, Structural)]
pub struct ICPTs {
    pub e8s: u64,
}

#[derive(Clone, Copy, Debug, PartialEq, Eq, Structural)]
pub struct TimeStamp {
    pub timestamp_nanos: u64,
}

#[derive(Clone, Copy, Debug)]
pub struct Subaccount(pub [u8; 32]);

/// Arguments of an outbound transfer on the value ledger.
pub struct SendArgs {
    pub memo: u64,
    pub amount: ICPTs,
    pub fee: ICPTs,
    pub from_subaccount: Option<Subaccount>,
    pub to: String,
    pub created_at_time: Option<TimeStamp>,
}

impl SendArgs {
    pub fn copy(&self) -> (r: SendArgs)
        ensures
            r == *self,
    {
        SendArgs {
            memo: self.memo,
            amount: self.amount,
            fee: self.fee,
            from_subaccount: self.from_subaccount,
            to: self.to.clone(),
            created_at_time: self.created_at_time,
        }
    }
}

/// Notice that a value transfer reached its recipient.
pub struct TransactionNotification {
    pub amount: ICPTs,
    pub block_height: u64,
    pub from: Principal,
    pub from_subaccount: Option<Subaccount>,
    pub memo: u64,
    pub to: Principal,
    pub to_subaccount: Option<Subaccount>,
}

/// What the marketplace answers to an accepted purchase notification.
pub struct TransactionResponse {
    pub seller: Principal,
    pub creators_fee: u64,
}

impl TransactionResponse {
    pub fn copy(&self) -> (r: TransactionResponse)
        ensures
            r == *self,
    {
        TransactionResponse { seller: self.seller.copy(), creators_fee: self.creators_fee }
    }
}

/// Answer to an HTTP request.
pub struct HttpResponse {
    pub status_code: u16,
    pub headers: Vec<(String, String)>,
    pub body: Vec<u8>,
}

/// Why the registry or the marketplace refused an operation.
#[derive(Clone, Copy, Debug, PartialEq, Eq, Structural)]
pub enum MarketError {
    CapacityExceeded,
    OutOfBounds,
    AlreadyMinted,
    InvalidToken,
    NotMinted,
    NotOwner,
    MetadataMissing,
    TxDisabled,
    PriceTooLow,
    NotListed,
    LedgerNotSet,
    Unauthorized,
    InsufficientPayment,
    CreatorNotSet,
    OwnerChanged,
}

impl MarketError {
    /// Text shown to a caller.
    pub fn message(&self) -> &'static str {
        match self {
            MarketError::CapacityExceeded => "Max token count reached",
            MarketError::OutOfBounds => "Token id outside of estabished bounds",
            MarketError::AlreadyMinted => "Could not mint token that is already taken",
            MarketError::InvalidToken => "Invalid token_id",
            MarketError::NotMinted => "Token not minted",
            MarketError::NotOwner => "This token does not belong to caller",
            MarketError::MetadataMissing => "Could not find token",
            MarketError::TxDisabled => "Transactions are not enabled",
            MarketError::PriceTooLow => "Minimum listing price is 0.01",
            MarketError::NotListed => "Token is not listed",
            MarketError::LedgerNotSet => "Ledger canister not set",
            MarketError::Unauthorized => "Only ledger canister can call notify",
            MarketError::InsufficientPayment => "Sent amount does not satisfy listing price",
            MarketError::CreatorNotSet => "Creators address not set",
            MarketError::OwnerChanged => "Listing owner no longer owns the token",
        }
    }
}

} // verus!
