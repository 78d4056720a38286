//! The operations of the ledger: registration, credit, debit and lookup.
//!
//! A [`ClientService`] owns the ledger's state. Each operation takes the
//! service by reference and runs to its end on it, so a caller that shares
//! the service among threads puts it behind one lock and holds that lock for
//! the whole call: the check of a document number and the insertion of the
//! new client are one step.

use crate::amount::Amount;
use crate::dto::{ClientInfo, NewClient, NewCreditTransaction, NewDebitTransaction};
use crate::errors::CommonError;
use crate::mapper::{client_info_of, map_client, map_client_info, new_client_record};
use crate::model::Client;
use crate::state::{
    all_balances_zero, ascending, balances_reset, credited, debited, document_taken,
    lists_balances, registration, AppState,
};
use vstd::prelude::*;

verus! {

/// The ledger service.
pub struct ClientService {
    pub app_state: AppState,
}

impl View for ClientService {
    type V = Map<i32, Client>;

    open spec fn view(&self) -> Map<i32, Client> {
        self.app_state@
    }
}

impl ClientService {
    /// The state of the service is sound.
    pub open spec fn wf(&self) -> bool {
        self.app_state.wf()
    }

    /// The id that the next registered client gets.
    pub open spec fn next_id(&self) -> i32 {
        self.app_state.client_id_unique
    }

    /// A credit of `amount` to the client `client_id` can be represented:
    /// either there is no such client, or the new balance is a decimal.
    pub open spec fn credit_fits(&self, client_id: i32, amount: Amount) -> bool {
        self@.dom().contains(client_id) ==> self@[client_id].balance.plus(amount) is Some
    }

    /// A debit of `amount` from the client `client_id` can be represented:
    /// either there is no such client, or the new balance is a decimal.
    pub open spec fn debit_fits(&self, client_id: i32, amount: Amount) -> bool {
        self@.dom().contains(client_id) ==> self@[client_id].balance.minus(amount) is Some
    }

    /// A service on the given state.
    pub fn new(app_state: AppState) -> (r: Self)
        ensures
            r.app_state == app_state,
    {
        ClientService { app_state }
    }

    /// Registers a client and returns the id given to it.
    ///
    /// Fails with `Forbiden`, and changes nothing, if a client holds the
    /// document number already. Otherwise the client gets the next free id and
    /// a balance of zero.
    pub fn create_new_client(&mut self, new_client: NewClient) -> (r: Result<i32, CommonError>)
        requires
            old(self).wf(),
            old(self).next_id() < i32::MAX,
        ensures
            final(self).wf(),
            r == registration(old(self)@, old(self).next_id() as int, new_client).result,
            final(self)@ == registration(old(self)@, old(self).next_id() as int, new_client).ledger,
            final(self).next_id() == registration(
                old(self)@,
                old(self).next_id() as int,
                new_client,
            ).next_id,
            document_taken(old(self)@, new_client.document_number@) ==> r == Err::<
                i32,
                CommonError,
            >(CommonError::Forbiden) && *final(self) == *old(self),
            !document_taken(old(self)@, new_client.document_number@) ==> r == Ok::<
                i32,
                CommonError,
            >(old(self).next_id()) && final(self).next_id() == old(self).next_id() + 1
                && final(self)@ == old(self)@.insert(
                old(self).next_id(),
                new_client_record(new_client, old(self).next_id()),
            ),
    {
        match self.validate_client_document(&new_client.document_number) {
            Ok(_) => {
                let client_id = self.generate_client_id();
                let populate_new_client = map_client(new_client, client_id);
                self.app_state.clients.insert(client_id, populate_new_client);
                Ok(client_id)
            },
            Err(error) => Err(error),
        }
    }

    /// Adds the amount of the transaction to the client's balance and returns
    /// the new balance.
    ///
    /// Fails with `NotFound`, and changes nothing, if there is no such client.
    pub fn create_new_credit_transaction(&mut self, transaction: NewCreditTransaction) -> (r:
        Result<Amount, CommonError>)
        requires
            old(self).wf(),
            transaction.credit_amount.wf(),
            old(self).credit_fits(transaction.client_id, transaction.credit_amount),
        ensures
            final(self).wf(),
            final(self).next_id() == old(self).next_id(),
            !old(self)@.dom().contains(transaction.client_id) ==> r == Err::<Amount, CommonError>(
                CommonError::NotFound,
            ) && *final(self) == *old(self),
            old(self)@.dom().contains(transaction.client_id) ==> r == Ok::<Amount, CommonError>(
                old(self)@[transaction.client_id].balance.plus(transaction.credit_amount).unwrap(),
            ) && final(self)@ == credited(
                old(self)@,
                transaction.client_id,
                transaction.credit_amount,
            ),
    {
        match self.validate_client_id(transaction.client_id) {
            Ok(client) => self.new_credit_on_client_account(
                client.client_id,
                transaction.credit_amount,
            ),
            Err(error) => Err(error),
        }
    }

    /// Does what `create_new_credit_transaction` does where the new balance
    /// can be represented; returns `None`, and changes nothing, where it
    /// cannot.
    pub fn try_create_new_credit_transaction(&mut self, transaction: NewCreditTransaction) -> (r:
        Option<Result<Amount, CommonError>>)
        requires
            old(self).wf(),
            transaction.credit_amount.wf(),
        ensures
            final(self).wf(),
            final(self).next_id() == old(self).next_id(),
            r is None <==> !old(self).credit_fits(
                transaction.client_id,
                transaction.credit_amount,
            ),
            r is None ==> *final(self) == *old(self),
            r is Some && !old(self)@.dom().contains(transaction.client_id) ==> r == Some(
                Err::<Amount, CommonError>(CommonError::NotFound),
            ) && *final(self) == *old(self),
            r is Some && old(self)@.dom().contains(transaction.client_id) ==> r == Some(
                Ok::<Amount, CommonError>(
                    old(self)@[transaction.client_id].balance.plus(
                        transaction.credit_amount,
                    ).unwrap(),
                ),
            ) && final(self)@ == credited(
                old(self)@,
                transaction.client_id,
                transaction.credit_amount,
            ),
    {
        match self.app_state.clients.get(&transaction.client_id) {
            Some(client) => {
                if client.balance.checked_add(transaction.credit_amount).is_none() {
                    return None;
                }
            },
            None => {},
        }
        Some(self.create_new_credit_transaction(transaction))
    }

    /// Takes the amount of the transaction from the client's balance and
    /// returns the new balance, which may be negative.
    ///
    /// Fails with `NotFound`, and changes nothing, if there is no such client.
    pub fn create_new_debit_transaction(&mut self, transaction: NewDebitTransaction) -> (r: Result<
        Amount,
        CommonError,
    >)
        requires
            old(self).wf(),
            transaction.debit_amount.wf(),
            old(self).debit_fits(transaction.client_id, transaction.debit_amount),
        ensures
            final(self).wf(),
            final(self).next_id() == old(self).next_id(),
            !old(self)@.dom().contains(transaction.client_id) ==> r == Err::<Amount, CommonError>(
                CommonError::NotFound,
            ) && *final(self) == *old(self),
            old(self)@.dom().contains(transaction.client_id) ==> r == Ok::<Amount, CommonError>(
                old(self)@[transaction.client_id].balance.minus(transaction.debit_amount).unwrap(),
            ) && final(self)@ == debited(
                old(self)@,
                transaction.client_id,
                transaction.debit_amount,
            ),
    {
        match self.validate_client_id(transaction.client_id) {
            Ok(client) => self.new_debit_on_client_account(
                client.client_id,
                transaction.debit_amount,
            ),
            Err(error) => Err(error),
        }
    }

    /// Does what `create_new_debit_transaction` does where the new balance
    /// can be represented; returns `None`, and changes nothing, where it
    /// cannot.
    pub fn try_create_new_debit_transaction(&mut self, transaction: NewDebitTransaction) -> (r:
        Option<Result<Amount, CommonError>>)
        requires
            old(self).wf(),
            transaction.debit_amount.wf(),
        ensures
            final(self).wf(),
            final(self).next_id() == old(self).next_id(),
            r is None <==> !old(self).debit_fits(transaction.client_id, transaction.debit_amount),
            r is None ==> *final(self) == *old(self),
            r is Some && !old(self)@.dom().contains(transaction.client_id) ==> r == Some(
                Err::<Amount, CommonError>(CommonError::NotFound),
            ) && *final(self) == *old(self),
            r is Some && old(self)@.dom().contains(transaction.client_id) ==> r == Some(
                Ok::<Amount, CommonError>(
                    old(self)@[transaction.client_id].balance.minus(
                        transaction.debit_amount,
                    ).unwrap(),
                ),
            ) && final(self)@ == debited(
                old(self)@,
                transaction.client_id,
                transaction.debit_amount,
            ),
    {
        match self.app_state.clients.get(&transaction.client_id) {
            Some(client) => {
                if client.balance.checked_sub(transaction.debit_amount).is_none() {
                    return None;
                }
            },
            None => {},
        }
        Some(self.create_new_debit_transaction(transaction))
    }

    /// Returns the record of the client `client_id`, or `NotFound` if there
    /// is no such client.
    pub fn get_client_balance(&self, client_id: i32) -> (r: Result<ClientInfo, CommonError>)
        requires
            self.wf(),
        ensures
            self@.dom().contains(client_id) ==> r == Ok::<ClientInfo, CommonError>(
                client_info_of(self@[client_id]),
            ),
            !self@.dom().contains(client_id) ==> r == Err::<ClientInfo, CommonError>(
                CommonError::NotFound,
            ),
    {
        match self.validate_client_id(client_id) {
            Ok(client) => Ok(map_client_info(client)),
            Err(error) => Err(error),
        }
    }

    /// Sets every balance to zero and keeps everything else.
    pub fn reset_balances(&mut self)
        requires
            old(self).wf(),
        ensures
            final(self).wf(),
            final(self).next_id() == old(self).next_id(),
            balances_reset(old(self)@, final(self)@),
            all_balances_zero(final(self)@),
    {
        let ids = self.app_state.client_ids();
        let mut i: usize = 0;
        while i < ids.len()
            invariant
                self.wf(),
                i <= ids@.len(),
                self.next_id() == old(self).next_id(),
                ascending(ids@),
                forall|id: i32| old(self)@.dom().contains(id) <==> ids@.contains(id),
                self@.dom() == old(self)@.dom(),
                forall|k: int|
                    0 <= k < i ==> self@[#[trigger] ids@[k]] == old(self)@[ids@[k]].with_balance(
                        Amount { mantissa: 0, scale: 0 },
                    ),
                forall|k: int| i <= k < ids@.len() ==> self@[#[trigger] ids@[k]] == old(self)@[ids@[k]],
            decreases ids@.len() - i,
        {
            let ghost before = self@;
            assert(ids@.contains(ids@[i as int]));
            self.store_balance(ids[i], Amount::zero());
            proof {
                assert(self@.dom() =~= before.dom());
                assert forall|k: int| 0 <= k < ids@.len() && k != i implies self@[#[trigger] ids@[k]]
                    == before[ids@[k]] by {
                    if k < i {
                        assert(ids@[k] < ids@[i as int]);
                    } else {
                        assert(ids@[i as int] < ids@[k]);
                    }
                }
            }
            i += 1;
        }
        proof {
            assert forall|id: i32| #[trigger] old(self)@.dom().contains(id) implies self@[id] == old(
                self,
            )@[id].with_balance(Amount { mantissa: 0, scale: 0 }) by {
                assert(ids@.contains(id));
                let k = choose|k: int| 0 <= k < ids@.len() && ids@[k] == id;
                assert(self@[ids@[k]] == old(self)@[ids@[k]].with_balance(
                    Amount { mantissa: 0, scale: 0 },
                ));
            }
            assert forall|id: i32| self@.dom().contains(id) implies (#[trigger] self@[id]).balance.mantissa
                == 0 by {
                assert(old(self)@.dom().contains(id));
            }
        }
    }

    /// The id and balance of every client, in ascending order of the ids.
    pub fn balances_by_client_id(&self) -> (r: Vec<(i32, Amount)>)
        requires
            self.wf(),
        ensures
            lists_balances(r@, self@),
            r@.len() == self@.dom().len(),
            forall|k: int| 0 <= k < r@.len() ==> (#[trigger] r@[k]).1.wf(),
    {
        let ids = self.app_state.client_ids();
        let mut r: Vec<(i32, Amount)> = Vec::new();
        let mut i: usize = 0;
        while i < ids.len()
            invariant
                self.wf(),
                i <= ids@.len(),
                r@.len() == i,
                forall|id: i32| self@.dom().contains(id) <==> ids@.contains(id),
                forall|k: int|
                    0 <= k < i ==> (#[trigger] r@[k]).0 == ids@[k] && r@[k].1
                        == self@[ids@[k]].balance,
            decreases ids@.len() - i,
        {
            assert(ids@.contains(ids@[i as int]));
            let balance = self.app_state.clients.get(&ids[i]).unwrap().balance;
            r.push((ids[i], balance));
            i += 1;
        }
        proof {
            assert forall|k: int| 0 <= k < r@.len() implies self@.dom().contains(
                (#[trigger] r@[k]).0,
            ) && r@[k].1 == self@[r@[k].0].balance by {
                assert(ids@.contains(ids@[k]));
            }
            assert forall|k: int| 0 <= k < r@.len() implies (#[trigger] r@[k]).1.wf() by {
                assert(ids@.contains(ids@[k]));
                assert(self@[ids@[k]].balance.wf());
            }
            assert forall|k: int, l: int| 0 <= k < l < r@.len() implies (#[trigger] r@[k]).0 < (
            #[trigger] r@[l]).0 by {
                assert(ids@[k] < ids@[l]);
            }
            assert forall|id: i32| self@.dom().contains(id) implies exists|k: int|
                0 <= k < r@.len() && (#[trigger] r@[k]).0 == id by {
                assert(ids@.contains(id));
                let k = choose|k: int| 0 <= k < ids@.len() && ids@[k] == id;
                assert(r@[k].0 == id);
            }
        }
        r
    }

    /// Checks that no client holds the document number.
    fn validate_client_document(&self, document_number: &String) -> (r: Result<bool, CommonError>)
        requires
            self.wf(),
        ensures
            r == (if document_taken(self@, document_number@) {
                Err::<bool, CommonError>(CommonError::Forbiden)
            } else {
                Ok::<bool, CommonError>(true)
            }),
    {
        if !self.app_state.has_document(document_number) {
            Ok(true)
        } else {
            Err(CommonError::Forbiden)
        }
    }

    /// Hands out the next free client id.
    fn generate_client_id(&mut self) -> (r: i32)
        requires
            old(self).wf(),
            old(self).next_id() < i32::MAX,
        ensures
            final(self).wf(),
            r == old(self).next_id(),
            final(self).next_id() == r + 1,
            final(self).app_state.clients == old(self).app_state.clients,
    {
        let id = self.app_state.client_id_unique;
        self.app_state.client_id_unique = id + 1;
        id
    }

    /// Looks the client up and returns a copy of its record.
    fn validate_client_id(&self, client_id: i32) -> (r: Result<Client, CommonError>)
        requires
            self.wf(),
        ensures
            self@.dom().contains(client_id) ==> r == Ok::<Client, CommonError>(self@[client_id]),
            !self@.dom().contains(client_id) ==> r == Err::<Client, CommonError>(
                CommonError::NotFound,
            ),
    {
        match self.app_state.clients.get(&client_id) {
            Some(client) => Ok(client.clone()),
            None => Err(CommonError::NotFound),
        }
    }

    /// Adds `credit_amount` to the balance of the client `client_id`.
    fn new_credit_on_client_account(&mut self, client_id: i32, credit_amount: Amount) -> (r: Result<
        Amount,
        CommonError,
    >)
        requires
            old(self).wf(),
            credit_amount.wf(),
            old(self).credit_fits(client_id, credit_amount),
        ensures
            final(self).wf(),
            final(self).next_id() == old(self).next_id(),
            !old(self)@.dom().contains(client_id) ==> r == Err::<Amount, CommonError>(
                CommonError::NotFound,
            ) && *final(self) == *old(self),
            old(self)@.dom().contains(client_id) ==> r == Ok::<Amount, CommonError>(
                old(self)@[client_id].balance.plus(credit_amount).unwrap(),
            ) && final(self)@ == old(self)@.insert(
                client_id,
                old(self)@[client_id].with_balance(r.unwrap()),
            ),
    {
        match self.app_state.clients.get(&client_id) {
            Some(client) => {
                let balance = client.balance.checked_add(credit_amount).unwrap();
                self.store_balance(client_id, balance);
                Ok(balance)
            },
            None => Err(CommonError::NotFound),
        }
    }

    /// Takes `debit_amount` from the balance of the client `client_id`.
    fn new_debit_on_client_account(&mut self, client_id: i32, debit_amount: Amount) -> (r: Result<
        Amount,
        CommonError,
    >)
        requires
            old(self).wf(),
            debit_amount.wf(),
            old(self).debit_fits(client_id, debit_amount),
        ensures
            final(self).wf(),
            final(self).next_id() == old(self).next_id(),
            !old(self)@.dom().contains(client_id) ==> r == Err::<Amount, CommonError>(
                CommonError::NotFound,
            ) && *final(self) == *old(self),
            old(self)@.dom().contains(client_id) ==> r == Ok::<Amount, CommonError>(
                old(self)@[client_id].balance.minus(debit_amount).unwrap(),
            ) && final(self)@ == old(self)@.insert(
                client_id,
                old(self)@[client_id].with_balance(r.unwrap()),
            ),
    {
        match self.app_state.clients.get(&client_id) {
            Some(client) => {
                let balance = client.balance.checked_sub(debit_amount).unwrap();
                self.store_balance(client_id, balance);
                Ok(balance)
            },
            None => Err(CommonError::NotFound),
        }
    }

    /// Replaces the balance of the client `client_id`.
    fn store_balance(&mut self, client_id: i32, balance: Amount)
        requires
            old(self).wf(),
            old(self)@.dom().contains(client_id),
            balance.wf(),
        ensures
            final(self).wf(),
            final(self).next_id() == old(self).next_id(),
            final(self)@ == old(self)@.insert(
                client_id,
                old(self)@[client_id].with_balance(balance),
            ),
    {
        let record = self.app_state.clients.get(&client_id).unwrap().copy_with_balance(balance);
        self.app_state.clients.insert(client_id, record);
    }
}

} // verus!
