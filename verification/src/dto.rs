//! The values that callers hand to the ledger and get back from it.

use crate::amount::Amount;
use chrono::NaiveDate;
use vstd::prelude::*;

verus! {

/// What is known of a client before registration.
#[derive(Debug)]
pub struct NewClient {
    /// client name
    pub client_name: String,
    /// client birth date
    pub birth_date: NaiveDate,
    /// document number
    pub document_number: String,
    /// country
    pub country: String,
}

/// A client's record as a lookup returns it.
#[derive(Debug)]
pub struct ClientInfo {
    /// client id
    pub client_id: i32,
    /// client name
    pub client_name: String,
    /// client birth date
    pub birth_date: NaiveDate,
    /// document number
    pub document_number: String,
    /// country
    pub country: String,
    /// money in account
    pub balance: Amount,
}

/// A client's record together with an amount to credit.
#[derive(Debug)]
pub struct ClientBalance {
    /// client id
    pub client_id: i32,
    /// client name
    pub client_name: String,
    /// client birth date
    pub birth_date: NaiveDate,
    /// document number
    pub document_number: String,
    /// country
    pub country: String,
    /// money credited
    pub credit_amount: Amount,
}

/// A request to add money to an account.
#[derive(Debug, Clone, Copy)]
pub struct NewCreditTransaction {
    /// client id
    pub client_id: i32,
    /// money credited
    pub credit_amount: Amount,
}

/// A request to take money from an account.
#[derive(Debug, Clone, Copy)]
pub struct NewDebitTransaction {
    /// client id
    pub client_id: i32,
    /// money debited
    pub debit_amount: Amount,
}

} // verus!
