//! Digital-asset marketplace: token ownership, an append-only audit ledger,
//! listings with purchase settlement, and a settlement proxy that turns
//! value-ledger transfers into purchase notifications.
pub mod types;
pub mod ledger;
pub mod token;
pub mod marketplace;
pub mod purchase;
pub mod int_set;
pub mod proxy;
pub mod account;
pub mod notify;
pub mod guards;
pub mod storage;
pub mod http;
