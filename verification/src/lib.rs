//! A small ledger: monetary transactions ("credit"/"debit") against a fixed
//! set of accounts, an overdraft limit per account, and a recent-transaction
//! extract. The heart of the library is the atomic balance update: check the
//! limit, move the balance and append one immutable transaction record as a
//! single indivisible step, so that no interleaving of requests can breach
//! `saldo >= -limite`.

pub mod ledger;
pub mod query;
pub mod rows;
pub mod types;
