//! The ledger's record of one client.

use crate::amount::Amount;
use chrono::NaiveDate;
use vstd::prelude::*;

verus! {

/// `chrono::NaiveDate`, a calendar date. The ledger stores and hands back
/// such a date and never looks inside it.
#[verifier::external_type_specification]
#[verifier::external_body]
pub struct ExNaiveDate(chrono::NaiveDate);

/// One account of the ledger.
#[derive(Debug)]
pub struct Client {
    /// client id
    pub client_id: i32,
    /// client name
    pub client_name: String,
    /// client birth date
    pub birth_date: NaiveDate,
    /// document number
    pub document_number: String,
    /// country
    pub country: String,
    /// money in account
    pub balance: Amount,
}

impl Client {
    /// The same client with another balance.
    pub open spec fn with_balance(self, balance: Amount) -> Client {
        Client {
            client_id: self.client_id,
            client_name: self.client_name,
            birth_date: self.birth_date,
            document_number: self.document_number,
            country: self.country,
            balance,
        }
    }

    /// A copy of the client that holds `balance`.
    pub fn copy_with_balance(&self, balance: Amount) -> (r: Client)
        ensures
            r == self.with_balance(balance),
    {
        Client {
            client_id: self.client_id,
            client_name: self.client_name.clone(),
            birth_date: self.birth_date,
            document_number: self.document_number.clone(),
            country: self.country.clone(),
            balance,
        }
    }
}

impl Clone for Client {
    fn clone(&self) -> (r: Client)
        ensures
            r == *self,
    {
        self.copy_with_balance(self.balance)
    }
}

} // verus!
