//! A small in-memory ledger: a registry of clients with exact decimal
//! balances, credit and debit transactions, and the naming and layout of the
//! balance files that a snapshot writes.

pub mod amount;
pub mod balance_file;
pub mod constants;
pub mod digits;
pub mod dto;
pub mod errors;
pub mod export;
pub mod laws;
pub mod mapper;
pub mod model;
pub mod service;
pub mod state;
pub mod stub;
