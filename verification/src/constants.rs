//! Fixed configuration: the routes of the service and where balance files go.

use vstd::prelude::*;

verus! {

/// Main path
pub const MAIN_PATH: &'static str = "/api/v1/client";

/// New client path
pub const NEW_CLIENT_PATH: &'static str = "/new_client";

/// New debit path
pub const NEW_DEBIT_TRANSACTION_PATH: &'static str = "/new_debit_transaction";

/// New credit path
pub const NEW_CREDIT_TRANSACTION_PATH: &'static str = "/new_credit_transaction";

/// Store balance path
pub const STORE_BALANCE_PATH: &'static str = "/store_balance";

/// Client balance path
pub const CLIENT_BALANCE_PATH: &'static str = "/client_balance/{id}";

/// Folder that holds the balance files
pub const CLIENT_BALANCE_FOLDER: &'static str = "./store_balances";

/// Suffix of every balance file
pub const PREFIX_FILE: &'static str = ".DAT";

} // verus!
