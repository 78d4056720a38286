//! Ready-made values for trying the ledger out.

use crate::amount::Amount;
use crate::dto::{ClientInfo, NewClient, NewCreditTransaction, NewDebitTransaction};
use chrono::NaiveDate;
use vstd::prelude::*;
use vstd::string::*;

verus! {

/// Name of the sample client
pub const CLIENT_NAME: &'static str = "CLIENT_NAME_STUB";

/// Document number of the sample client
pub const CLIENT_DOCUMENT_NUMBER: &'static str = "CLIENT_DOCUMENT_NUMBER_STUB";

/// Country of the sample client
pub const CLIENT_COUNTRY: &'static str = "CLIENT_COUNTRY_STUB";

/// Id of the sample client
pub const CLIENT_ID: i32 = 1;

/// Calls `NaiveDate::from_ymd_opt` for the third of July 2025.
///
/// Nothing is claimed of the date: the ledger never looks inside one.
#[verifier::external_body]
pub(crate) fn sample_birth_date() -> (r: NaiveDate) {
    NaiveDate::from_ymd_opt(2025, 7, 3).unwrap_or_default()
}

/// The amount 1.00, which the sample balance and transactions hold.
pub fn sample_amount() -> (r: Amount)
    ensures
        r == (Amount { mantissa: 100, scale: 2 }),
        r.wf(),
{
    Amount::new(100, 2)
}

/// Create a [`NewClient`] populated with basic stub data
pub fn create_new_client_stub() -> (r: NewClient)
    ensures
        r.client_name@ == CLIENT_NAME@,
        r.document_number@ == CLIENT_DOCUMENT_NUMBER@,
        r.country@ == CLIENT_COUNTRY@,
{
    NewClient {
        client_name: String::from_str(CLIENT_NAME),
        birth_date: sample_birth_date(),
        document_number: String::from_str(CLIENT_DOCUMENT_NUMBER),
        country: String::from_str(CLIENT_COUNTRY),
    }
}

/// Create a [`ClientInfo`] populated with basic stub data
pub fn create_client_info_stub() -> (r: ClientInfo)
    ensures
        r.client_id == CLIENT_ID,
        r.client_name@ == CLIENT_NAME@,
        r.document_number@ == CLIENT_DOCUMENT_NUMBER@,
        r.country@ == CLIENT_COUNTRY@,
        r.balance == (Amount { mantissa: 100, scale: 2 }),
{
    ClientInfo {
        client_id: CLIENT_ID,
        client_name: String::from_str(CLIENT_NAME),
        birth_date: sample_birth_date(),
        document_number: String::from_str(CLIENT_DOCUMENT_NUMBER),
        country: String::from_str(CLIENT_COUNTRY),
        balance: sample_amount(),
    }
}

/// Create a [`NewCreditTransaction`] populated with basic stub data
pub fn create_new_credit_transaction_stub() -> (r: NewCreditTransaction)
    ensures
        r.client_id == CLIENT_ID,
        r.credit_amount == (Amount { mantissa: 100, scale: 2 }),
{
    NewCreditTransaction { client_id: CLIENT_ID, credit_amount: sample_amount() }
}

/// Create a [`NewDebitTransaction`] populated with basic stub data
pub fn create_new_debit_transaction_stub() -> (r: NewDebitTransaction)
    ensures
        r.client_id == CLIENT_ID,
        r.debit_amount == (Amount { mantissa: 100, scale: 2 }),
{
    NewDebitTransaction { client_id: CLIENT_ID, debit_amount: sample_amount() }
}

} // verus!
