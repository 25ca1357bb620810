//! A typed client for the Plaid financial-data API.
//!
//! The library computes, for each operation of the API, the one HTTP POST that
//! performs it: the address, the headers and the JSON body. It checks the
//! caller's arguments first and reports what is wrong with them without
//! preparing anything. Sending the request and decoding the answer are left to
//! the caller.

pub mod accounts;
pub mod assets;
pub mod auth;
pub mod categories;
pub mod environments;
pub mod errors;
pub mod holdings;
pub mod identities;
pub mod incomes;
pub mod institutions;
pub mod investment_transactions;
pub mod items;
pub mod json;
pub mod liabilities;
pub mod plaid;
pub mod processors;
pub mod sandbox;
pub mod transactions;
