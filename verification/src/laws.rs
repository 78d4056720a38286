//! What holds of the ledger across several calls.

use crate::amount::{mantissa_fits, Amount};
use crate::balance_file::{balance_file_name, count_balance_files, is_balance_file};
use crate::dto::NewClient;
use crate::errors::CommonError;
use crate::model::Client;
use crate::state::{credited, debited, document_taken, documents_unique, registration};
use vstd::arithmetic::power::pow;
use vstd::prelude::*;

verus! {

/// What a run of registrations does to a ledger, and what they return.
pub struct Registrations {
    /// the ledger after the calls
    pub ledger: Map<i32, Client>,
    /// the next free id after the calls
    pub next_id: int,
    /// what the calls return, in their order
    pub results: Seq<Result<i32, CommonError>>,
}

/// Registering `new_clients` in turn, in a ledger whose next free id is
/// `next_id`.
pub open spec fn register_all(ledger: Map<i32, Client>, next_id: int, new_clients: Seq<NewClient>) -> Registrations
    decreases new_clients.len(),
{
    if new_clients.len() == 0 {
        Registrations { ledger, next_id, results: Seq::empty() }
    } else {
        let before = register_all(ledger, next_id, new_clients.drop_last());
        let last = registration(before.ledger, before.next_id, new_clients.last());
        Registrations {
            ledger: last.ledger,
            next_id: last.next_id,
            results: before.results.push(last.result),
        }
    }
}

/// From the empty ledger, registrations that all succeed hand out the ids
/// 1, 2, ..., n in the order of the calls, and these are the ids of the
/// ledger afterwards.
pub proof fn law_ids_count_up_from_one(new_clients: Seq<NewClient>)
    requires
        new_clients.len() < i32::MAX,
        forall|k: int|
            0 <= k < new_clients.len() ==> (#[trigger] register_all(
                Map::empty(),
                1,
                new_clients,
            ).results[k]) is Ok,
    ensures
        register_all(Map::empty(), 1, new_clients).results.len() == new_clients.len(),
        forall|k: int|
            0 <= k < new_clients.len() ==> (#[trigger] register_all(
                Map::empty(),
                1,
                new_clients,
            ).results[k]) == Ok::<i32, CommonError>((k + 1) as i32),
        register_all(Map::empty(), 1, new_clients).next_id == new_clients.len() + 1,
        forall|id: i32|
            register_all(Map::empty(), 1, new_clients).ledger.dom().contains(id) <==> 1 <= id
                <= new_clients.len(),
    decreases new_clients.len(),
{
    let all = register_all(Map::empty(), 1, new_clients);
    if new_clients.len() > 0 {
        let front = new_clients.drop_last();
        let before = register_all(Map::empty(), 1, front);
        let last = registration(before.ledger, before.next_id, new_clients.last());
        lemma_results_len(Map::empty(), 1, front);
        assert forall|k: int| 0 <= k < front.len() implies (#[trigger] before.results[k]) is Ok by {
            assert(all.results[k] == before.results[k]);
        }
        law_ids_count_up_from_one(front);
        assert(all.results[front.len() as int] == last.result);
        assert(last.result is Ok);
        assert forall|k: int| 0 <= k < new_clients.len() implies (#[trigger] all.results[k]) == Ok::<
            i32,
            CommonError,
        >((k + 1) as i32) by {
            if k < front.len() {
                assert(all.results[k] == before.results[k]);
            }
        }
    }
}

/// A run of registrations returns one result for each call.
pub proof fn lemma_results_len(ledger: Map<i32, Client>, next_id: int, new_clients: Seq<NewClient>)
    ensures
        register_all(ledger, next_id, new_clients).results.len() == new_clients.len(),
    decreases new_clients.len(),
{
    if new_clients.len() > 0 {
        lemma_results_len(ledger, next_id, new_clients.drop_last());
    }
}

/// After a registration with some document number, a registration with the
/// same document number is refused, hands out no id and leaves the ledger as
/// it is.
pub proof fn law_document_registers_once(
    ledger: Map<i32, Client>,
    next_id: int,
    first: NewClient,
    second: NewClient,
)
    requires
        first.document_number@ == second.document_number@,
    ensures
        ({
            let one = registration(ledger, next_id, first);
            let two = registration(one.ledger, one.next_id, second);
            &&& two.result == Err::<i32, CommonError>(CommonError::Forbiden)
            &&& two.ledger == one.ledger
            &&& two.next_id == one.next_id
        }),
{
    let one = registration(ledger, next_id, first);
    if !document_taken(ledger, first.document_number@) {
        let id = next_id as i32;
        assert(one.ledger.dom().contains(id));
        assert(one.ledger[id].document_number@ == second.document_number@);
    }
}

/// A registration keeps the document numbers of the ledger distinct, where
/// the next free id is not in use.
pub proof fn law_registration_keeps_documents_unique(
    ledger: Map<i32, Client>,
    next_id: int,
    new_client: NewClient,
)
    requires
        documents_unique(ledger),
        !ledger.dom().contains(next_id as i32),
    ensures
        documents_unique(registration(ledger, next_id, new_client).ledger),
{
    let after = registration(ledger, next_id, new_client).ledger;
    if !document_taken(ledger, new_client.document_number@) {
        assert forall|a: i32, b: i32|
            after.dom().contains(a) && after.dom().contains(b) && a != b implies (
        #[trigger] after[a]).document_number@ != (#[trigger] after[b]).document_number@ by {
            if a != next_id as i32 && b != next_id as i32 {
                assert(ledger[a].document_number@ != ledger[b].document_number@);
            } else if a == next_id as i32 {
                assert(ledger[b].document_number@ != new_client.document_number@);
            } else {
                assert(ledger[a].document_number@ != new_client.document_number@);
            }
        }
    }
}

/// Credits and debits keep the document numbers of the ledger distinct.
pub proof fn law_transactions_keep_documents_unique(
    ledger: Map<i32, Client>,
    client_id: i32,
    amount: Amount,
)
    requires
        documents_unique(ledger),
        ledger.dom().contains(client_id),
    ensures
        documents_unique(credited(ledger, client_id, amount)),
        documents_unique(debited(ledger, client_id, amount)),
{
    let up = credited(ledger, client_id, amount);
    assert forall|a: i32, b: i32|
        up.dom().contains(a) && up.dom().contains(b) && a != b implies (
    #[trigger] up[a]).document_number@ != (#[trigger] up[b]).document_number@ by {
        assert(ledger[a].document_number@ != ledger[b].document_number@);
    }
    let down = debited(ledger, client_id, amount);
    assert forall|a: i32, b: i32|
        down.dom().contains(a) && down.dom().contains(b) && a != b implies (
    #[trigger] down[a]).document_number@ != (#[trigger] down[b]).document_number@ by {
        assert(ledger[a].document_number@ != ledger[b].document_number@);
    }
}

/// The inputs for which a sum is known without rounding: one of the two is
/// zero, or both have one scale and the sum of the mantissas fits a decimal.
pub open spec fn adds_exactly(balance: Amount, amount: Amount) -> bool {
    ||| balance.mantissa == 0
    ||| amount.mantissa == 0
    ||| balance.scale == amount.scale && mantissa_fits(balance.mantissa + amount.mantissa)
}

/// A credit followed by a debit of the same amount gives back a balance of
/// the same value, where the sum is known without rounding. Unless the
/// balance was zero, it is the same balance, scale included.
pub proof fn law_credit_then_debit_restores_balance(balance: Amount, amount: Amount)
    requires
        balance.wf(),
        amount.wf(),
        adds_exactly(balance, amount),
    ensures
        balance.plus(amount) is Some,
        balance.plus(amount).unwrap().minus(amount) is Some,
        balance.plus(amount).unwrap().minus(amount).unwrap().same_value(balance),
        balance.mantissa != 0 ==> balance.plus(amount).unwrap().minus(amount) == Some(balance),
{
    if balance.mantissa == 0 {
        let back = balance.plus(amount).unwrap().minus(amount).unwrap();
        assert(back.mantissa == 0);
        assert(back.mantissa * pow(10, balance.scale as nat) == 0) by (nonlinear_arith)
            requires
                back.mantissa == 0,
        ;
        assert(balance.mantissa * pow(10, back.scale as nat) == 0) by (nonlinear_arith)
            requires
                balance.mantissa == 0,
        ;
    }
}

/// A credit followed by a debit of the same amount leaves the ledger as it
/// was, where the client's balance is not zero and the sum is known without
/// rounding.
pub proof fn law_credit_then_debit_restores_ledger(
    ledger: Map<i32, Client>,
    client_id: i32,
    amount: Amount,
)
    requires
        ledger.dom().contains(client_id),
        ledger[client_id].balance.wf(),
        amount.wf(),
        ledger[client_id].balance.mantissa != 0,
        adds_exactly(ledger[client_id].balance, amount),
    ensures
        debited(credited(ledger, client_id, amount), client_id, amount) == ledger,
{
    law_credit_then_debit_restores_balance(ledger[client_id].balance, amount);
    let after = debited(credited(ledger, client_id, amount), client_id, amount);
    assert(after[client_id] == ledger[client_id]);
    assert(after =~= ledger);
}

/// A balance file of the day counts as one: once the file with the name for
/// the day `date` and any number stands in the folder, the next number for
/// that day is one higher.
pub proof fn law_written_file_raises_next_number(names: Seq<String>, date: Seq<char>, written: String, n: nat)
    requires
        written@ == balance_file_name(date, n),
    ensures
        is_balance_file(written@, date),
        count_balance_files(names.push(written), date) == count_balance_files(names, date) + 1,
{
    let name = written@;
    let prefix = date + seq!['_'];
    let suffix = crate::constants::PREFIX_FILE@;
    assert(name.subrange(0, prefix.len() as int) =~= prefix);
    assert(name.subrange(name.len() - suffix.len(), name.len() as int) =~= suffix);
    assert(names.push(written).drop_last() =~= names);
}

/// The first two balance files of a day get the numbers 1 and 2: in a folder
/// with no balance file of the day the next number is 1, and once the file
/// with that number stands there, the next number is 2.
pub proof fn law_first_two_files_of_a_day(names: Seq<String>, date: Seq<char>, first: String)
    requires
        count_balance_files(names, date) == 0,
        first@ == balance_file_name(date, 1),
    ensures
        count_balance_files(names, date) + 1 == 1,
        count_balance_files(names.push(first), date) + 1 == 2,
{
    law_written_file_raises_next_number(names, date, first, 1);
}

} // verus!
