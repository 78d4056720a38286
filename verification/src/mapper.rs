//! Conversions between requests, records and replies.

use crate::amount::Amount;
use crate::dto::{ClientInfo, NewClient};
use crate::model::Client;
use vstd::prelude::*;

verus! {

/// The record of a newly registered client: the given fields, the given id
/// and a balance of zero.
pub open spec fn new_client_record(new_client: NewClient, client_id: i32) -> Client {
    Client {
        client_id,
        client_name: new_client.client_name,
        birth_date: new_client.birth_date,
        document_number: new_client.document_number,
        country: new_client.country,
        balance: Amount { mantissa: 0, scale: 0 },
    }
}

/// The reply that shows a client's record.
pub open spec fn client_info_of(client: Client) -> ClientInfo {
    ClientInfo {
        client_id: client.client_id,
        client_name: client.client_name,
        birth_date: client.birth_date,
        document_number: client.document_number,
        country: client.country,
        balance: client.balance,
    }
}

/// Maps a [`Client`] from a [`NewClient`] and a client id.
pub fn map_client(new_client: NewClient, client_id: i32) -> (r: Client)
    ensures
        r == new_client_record(new_client, client_id),
        r.balance.wf(),
{
    Client {
        client_id,
        client_name: new_client.client_name,
        birth_date: new_client.birth_date,
        document_number: new_client.document_number,
        country: new_client.country,
        balance: Amount::zero(),
    }
}

/// Maps a [`ClientInfo`] from a [`Client`].
pub fn map_client_info(client: Client) -> (r: ClientInfo)
    ensures
        r == client_info_of(client),
{
    ClientInfo {
        client_id: client.client_id,
        client_name: client.client_name,
        birth_date: client.birth_date,
        document_number: client.document_number,
        country: client.country,
        balance: client.balance,
    }
}

} // verus!
