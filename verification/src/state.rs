//! The ledger's state: the registered clients and the next free client id.

use crate::amount::Amount;
use crate::dto::NewClient;
use crate::errors::CommonError;
use crate::mapper::new_client_record;
use crate::model::Client;
use std::collections::HashMap;
use vstd::prelude::*;
use vstd::std_specs::hash::*;
use vstd::std_specs::iter::IteratorSpec;

verus! {

/// The clients of the ledger, by their ids, and the id that the next
/// registration gets.
pub struct AppState {
    /// the registered clients
    pub clients: HashMap<i32, Client>,
    /// the next free client id
    pub client_id_unique: i32,
}

/// Some client of the ledger holds the document number `doc`.
pub open spec fn document_taken(ledger: Map<i32, Client>, doc: Seq<char>) -> bool {
    exists|id: i32| ledger.dom().contains(id) && (#[trigger] ledger[id]).document_number@ == doc
}

/// No two clients of the ledger hold the same document number.
pub open spec fn documents_unique(ledger: Map<i32, Client>) -> bool {
    forall|a: i32, b: i32|
        ledger.dom().contains(a) && ledger.dom().contains(b) && a != b ==> (
        #[trigger] ledger[a]).document_number@ != (#[trigger] ledger[b]).document_number@
}

/// Every balance of the ledger is zero.
pub open spec fn all_balances_zero(ledger: Map<i32, Client>) -> bool {
    forall|id: i32| ledger.dom().contains(id) ==> (#[trigger] ledger[id]).balance.mantissa == 0
}

/// What a registration does to a ledger, and what it returns.
pub struct Registration {
    /// the ledger after the call
    pub ledger: Map<i32, Client>,
    /// the next free id after the call
    pub next_id: int,
    /// what the call returns
    pub result: Result<i32, CommonError>,
}

/// Registering `new_client` in `ledger`, whose next free id is `next_id`:
/// refused if the document number is taken, else entered under `next_id` with
/// a balance of zero.
pub open spec fn registration(ledger: Map<i32, Client>, next_id: int, new_client: NewClient) -> Registration {
    if document_taken(ledger, new_client.document_number@) {
        Registration { ledger, next_id, result: Err(CommonError::Forbiden) }
    } else {
        Registration {
            ledger: ledger.insert(next_id as i32, new_client_record(new_client, next_id as i32)),
            next_id: next_id + 1,
            result: Ok(next_id as i32),
        }
    }
}

/// The ledger after a credit of `amount` to the client `client_id`.
pub open spec fn credited(ledger: Map<i32, Client>, client_id: i32, amount: Amount) -> Map<
    i32,
    Client,
>
    recommends
        ledger.dom().contains(client_id),
        ledger[client_id].balance.plus(amount) is Some,
{
    ledger.insert(
        client_id,
        ledger[client_id].with_balance(ledger[client_id].balance.plus(amount).unwrap()),
    )
}

/// The ledger after a debit of `amount` from the client `client_id`.
pub open spec fn debited(ledger: Map<i32, Client>, client_id: i32, amount: Amount) -> Map<
    i32,
    Client,
>
    recommends
        ledger.dom().contains(client_id),
        ledger[client_id].balance.minus(amount) is Some,
{
    ledger.insert(
        client_id,
        ledger[client_id].with_balance(ledger[client_id].balance.minus(amount).unwrap()),
    )
}

/// `after` is `before` with every balance set to zero.
pub open spec fn balances_reset(before: Map<i32, Client>, after: Map<i32, Client>) -> bool {
    &&& after.dom() == before.dom()
    &&& forall|id: i32| #[trigger]
        before.dom().contains(id) ==> after[id] == before[id].with_balance(
            Amount { mantissa: 0, scale: 0 },
        )
}

/// `entries` holds the id and balance of every client of the ledger, once
/// each, in ascending order of the ids.
pub open spec fn lists_balances(entries: Seq<(i32, Amount)>, ledger: Map<i32, Client>) -> bool {
    &&& forall|k: int|
        0 <= k < entries.len() ==> ledger.dom().contains((#[trigger] entries[k]).0) && entries[k].1
            == ledger[entries[k].0].balance
    &&& forall|k: int, l: int|
        0 <= k < l < entries.len() ==> (#[trigger] entries[k]).0 < (#[trigger] entries[l]).0
    &&& forall|id: i32|
        ledger.dom().contains(id) ==> exists|k: int|
            0 <= k < entries.len() && (#[trigger] entries[k]).0 == id
}

/// The numbers in `ids` ascend strictly, so none occurs twice.
pub open spec fn ascending(ids: Seq<i32>) -> bool {
    forall|k: int, l: int| 0 <= k < l < ids.len() ==> ids[k] < ids[l]
}

impl View for AppState {
    type V = Map<i32, Client>;

    open spec fn view(&self) -> Map<i32, Client> {
        self.clients@
    }
}

impl AppState {
    /// The state is sound: every client stands under its own id, which lies
    /// below the next free id; every balance is a decimal; and no document
    /// number occurs twice.
    pub open spec fn wf(&self) -> bool {
        &&& documents_unique(self@)
        &&& forall|id: i32|
            self@.dom().contains(id) ==> (#[trigger] self@[id]).client_id == id && id
                < self.client_id_unique && self@[id].balance.wf()
    }

    /// The empty ledger, whose first client gets the id 1.
    pub fn new() -> (r: AppState)
        ensures
            r.wf(),
            r@ == Map::<i32, Client>::empty(),
            r.client_id_unique == 1,
    {
        AppState { clients: HashMap::new(), client_id_unique: 1 }
    }

    /// Whether some client holds the document number `document_number`.
    pub fn has_document(&self, document_number: &String) -> (r: bool)
        ensures
            r == document_taken(self@, document_number@),
    {
        let ghost values = spec_values_iter(&self.clients).remaining();
        for client in it: self.clients.values()
            invariant
                it.seq() == values,
                values == spec_values_iter(&self.clients).remaining(),
                forall|j: int|
                    0 <= j < it.index() ==> (#[trigger] values[j]).document_number@
                        != document_number@,
        {
            if client.document_number == *document_number {
                proof {
                    broadcast use axiom_spec_values_iter;

                    assert(values.unref()[it.index()] == *client);
                    assert(values.unref().to_set().contains(*client));
                    assert(self@.values().contains(*client));
                    let id = choose|id: i32| self@.dom().contains(id) && self@[id] == *client;
                    assert(self@[id].document_number@ == document_number@);
                }
                return true;
            }
        }
        proof {
            broadcast use axiom_spec_values_iter;

            assert(forall|j: int|
                0 <= j < values.len() ==> (#[trigger] values[j]).document_number@
                    != document_number@);
            if document_taken(self@, document_number@) {
                let id = choose|id: i32|
                    self@.dom().contains(id) && (#[trigger] self@[id]).document_number@
                        == document_number@;
                assert(self@.values().contains(self@[id]));
                assert(values.unref().to_set().contains(self@[id]));
                let j = choose|j: int| 0 <= j < values.len() && values.unref()[j] == self@[id];
                assert(values[j].document_number@ == document_number@);
            }
        }
        false
    }

    /// The ids of the clients, in ascending order.
    pub fn client_ids(&self) -> (r: Vec<i32>)
        ensures
            ascending(r@),
            forall|id: i32| self@.dom().contains(id) <==> r@.contains(id),
            r@.len() == self@.dom().len(),
    {
        let mut ids: Vec<i32> = Vec::new();
        let ghost keys = spec_keys_iter(&self.clients).remaining();
        for id in it: self.clients.keys()
            invariant
                it.seq() == keys,
                keys == spec_keys_iter(&self.clients).remaining(),
                ids@.len() == it.index(),
                ascending(ids@),
                forall|x: i32|
                    ids@.contains(x) <==> exists|j: int|
                        0 <= j < it.index() && *(#[trigger] keys[j]) == x,
        {
            proof {
                broadcast use axiom_spec_keys_iter;

                if ids@.contains(*id) {
                    let j = choose|j: int| 0 <= j < it.index() && *(#[trigger] keys[j]) == *id;
                    assert(keys[j] == keys[it.index()]);
                }
            }
            let ghost before = ids@;
            insert_ascending(&mut ids, *id);
            proof {
                assert forall|x: i32| ids@.contains(x) implies exists|j: int|
                    0 <= j < it.index() + 1 && *(#[trigger] keys[j]) == x by {
                    if x == *id {
                        assert(*keys[it.index()] == x);
                    } else {
                        assert(before.contains(x));
                        let j = choose|j: int| 0 <= j < it.index() && *(#[trigger] keys[j]) == x;
                        assert(*keys[j] == x);
                    }
                }
                assert forall|x: i32|
                    (exists|j: int| 0 <= j < it.index() + 1 && *(#[trigger] keys[j]) == x)
                implies ids@.contains(x) by {
                    let j = choose|j: int| 0 <= j < it.index() + 1 && *(#[trigger] keys[j]) == x;
                    if j < it.index() {
                        assert(before.contains(x));
                    }
                }
            }
        }
        proof {
            broadcast use axiom_spec_keys_iter;

            assert(ids@.len() == keys.len());
            assert(forall|x: i32|
                ids@.contains(x) <==> exists|j: int|
                    0 <= j < keys.len() && *(#[trigger] keys[j]) == x);
            assert forall|id: i32| self@.dom().contains(id) <==> ids@.contains(id) by {
                if self@.dom().contains(id) {
                    assert(keys.unref().to_set().contains(id));
                    let j = choose|j: int| 0 <= j < keys.len() && keys.unref()[j] == id;
                    assert(*keys[j] == id);
                }
                if ids@.contains(id) {
                    let j = choose|j: int| 0 <= j < keys.len() && *(#[trigger] keys[j]) == id;
                    assert(keys.unref()[j] == id);
                    assert(keys.unref().to_set().contains(id));
                }
            }
        }
        ids
    }
}

/// Puts `id` at its place in the ascending `ids`.
fn insert_ascending(ids: &mut Vec<i32>, id: i32)
    requires
        ascending(old(ids)@),
        !old(ids)@.contains(id),
    ensures
        ascending(final(ids)@),
        final(ids)@.len() == old(ids)@.len() + 1,
        forall|x: i32| final(ids)@.contains(x) <==> old(ids)@.contains(x) || x == id,
{
    let mut i: usize = 0;
    while i < ids.len() && ids[i] < id
        invariant
            i <= ids@.len(),
            ids@ == old(ids)@,
            forall|k: int| 0 <= k < i ==> ids@[k] < id,
        decreases ids@.len() - i,
    {
        i += 1;
    }
    let ghost before = ids@;
    ids.insert(i, id);
    proof {
        let after = ids@;
        assert(after.len() == before.len() + 1);
        assert(forall|k: int| 0 <= k < i ==> after[k] == before[k]);
        assert(after[i as int] == id);
        assert(forall|k: int| i < k < after.len() ==> after[k] == before[k - 1]);
        assert forall|k: int| i <= k < before.len() implies id < before[k] by {
            assert(before.contains(before[k]));
            assert(before[i as int] <= before[k]);
        }
        assert forall|x: i32| after.contains(x) <==> before.contains(x) || x == id by {
            if after.contains(x) {
                let k = choose|k: int| 0 <= k < after.len() && after[k] == x;
                if k < i {
                    assert(before[k] == x);
                } else if k > i {
                    assert(before[k - 1] == x);
                }
            }
            if before.contains(x) {
                let k = choose|k: int| 0 <= k < before.len() && before[k] == x;
                if k < i {
                    assert(after[k] == x);
                } else {
                    assert(after[k + 1] == x);
                }
            }
        }
    }
}

} // verus!
