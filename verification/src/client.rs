//! Clients and their rows.

use vstd::prelude::*;
use crate::column::{
    get_list, get_opt_text, get_text, lemma_opt_text_round_trip, lemma_text_round_trip, list_at,
    list_cell, list_of, list_value, opt_text_at, opt_text_cell, opt_text_value, text_at,
    text_cell, text_value,
};
use crate::error::RowError;
use crate::listing::{collect, lemma_collect_all, lemma_collect_each, lemma_collect_first_failure};
use crate::schema::{Statement, INSERT_CLIENT};
use crate::stamp::{is_identifier, is_utc_timestamp, random_identifier, utc_now};
use crate::value::{SqlValue, ValueView};

verus! {

/// A client of the planner.
#[derive(Clone, Debug, PartialEq)]
pub struct Client {
    pub id: String,
    pub name: String,
    pub tags: Vec<String>,
    pub contacts: Vec<String>,
    pub links: Vec<String>,
    pub next_step: Option<String>,
    pub next_step_due: Option<String>,
    pub created_at: String,
    pub updated_at: String,
}

/// The mathematical content of a [`Client`].
pub struct ClientView {
    pub id: Seq<char>,
    pub name: Seq<char>,
    pub tags: Seq<Seq<char>>,
    pub contacts: Seq<Seq<char>>,
    pub links: Seq<Seq<char>>,
    pub next_step: Option<Seq<char>>,
    pub next_step_due: Option<Seq<char>>,
    pub created_at: Seq<char>,
    pub updated_at: Seq<char>,
}

impl View for Client {
    type V = ClientView;

    open spec fn view(&self) -> ClientView {
        ClientView {
            id: self.id@,
            name: self.name@,
            tags: self.tags.deep_view(),
            contacts: self.contacts.deep_view(),
            links: self.links.deep_view(),
            next_step: self.next_step.deep_view(),
            next_step_due: self.next_step_due.deep_view(),
            created_at: self.created_at@,
            updated_at: self.updated_at@,
        }
    }
}

impl DeepView for Client {
    type V = ClientView;

    open spec fn deep_view(&self) -> ClientView {
        self@
    }
}

/// The number of columns of a client's row.
pub const CLIENT_COLUMNS: usize = 9;

// ---------------------------------------------------------------------------
// Creation
// ---------------------------------------------------------------------------

/// A client as creation leaves it: the given identifier, the given time as
/// both timestamps, and every other field as it was.
pub open spec fn stamped_client(client: ClientView, id: Seq<char>, now: Seq<char>) -> ClientView {
    ClientView { id: id, created_at: now, updated_at: now, ..client }
}

/// Gives a client its identifier and its timestamps. Whatever identifier and
/// timestamps the client carried before are dropped.
pub fn stamp_client(client: Client, id: String, now: String) -> (stored: Client)
    ensures
        stored@ == stamped_client(client@, id@, now@),
{
    let updated_at = now.clone();
    Client { id: id, created_at: now, updated_at: updated_at, ..client }
}

/// Creates a client: assigns a fresh identifier and the current time in UTC,
/// and returns the client as it is to be stored.
///
/// Every field but the identifier and the two timestamps is that of
/// `client`. The two timestamps are equal.
pub fn create_client(client: Client) -> (stored: Client)
    ensures
        stored@ == stamped_client(client@, stored@.id, stored@.created_at),
        stored@.created_at == stored@.updated_at,
        is_identifier(stored@.id),
        stored@.id.len() > 0,
        is_utc_timestamp(stored@.created_at),
{
    let id = random_identifier();
    let now = utc_now();
    stamp_client(client, id, now)
}

// ---------------------------------------------------------------------------
// From entity to row
// ---------------------------------------------------------------------------

/// The row that stores a client, column by column.
pub open spec fn client_row(client: ClientView) -> Seq<ValueView> {
    seq![
        text_cell(client.id),
        text_cell(client.name),
        list_cell(client.tags),
        list_cell(client.contacts),
        list_cell(client.links),
        opt_text_cell(client.next_step),
        opt_text_cell(client.next_step_due),
        text_cell(client.created_at),
        text_cell(client.updated_at),
    ]
}

/// The values to store for a client, in the order of the table's columns.
///
/// Reading the row gives the client back, field for field: an absent
/// optional field stays absent, a list keeps its items and their order.
pub fn client_to_row(client: &Client) -> (row: Vec<SqlValue>)
    ensures
        row@.len() == CLIENT_COLUMNS,
        row.deep_view() == client_row(client@),
        client_of_row(row.deep_view()) == Ok::<ClientView, RowError>(client@),
{
    let tags = list_value(&client.tags);
    let contacts = list_value(&client.contacts);
    let links = list_value(&client.links);
    let mut row: Vec<SqlValue> = Vec::with_capacity(CLIENT_COLUMNS);
    row.push(text_value(&client.id));
    row.push(text_value(&client.name));
    row.push(tags);
    row.push(contacts);
    row.push(links);
    row.push(opt_text_value(&client.next_step));
    row.push(opt_text_value(&client.next_step_due));
    row.push(text_value(&client.created_at));
    row.push(text_value(&client.updated_at));
    proof {
        assert(row.deep_view() =~= client_row(client@));
        lemma_client_round_trip(client@);
    }
    row
}

/// The statement that stores a client: the insert for the clients table with the
/// values of the client's row.
pub fn insert_client(client: &Client) -> (statement: Statement)
    ensures
        statement.sql@ == INSERT_CLIENT@,
        statement.values.deep_view() == client_row(client@),
        client_of_row(statement.values.deep_view()) == Ok::<ClientView, RowError>(client@),
{
    Statement { sql: INSERT_CLIENT, values: client_to_row(client) }
}

// ---------------------------------------------------------------------------
// From row to entity
// ---------------------------------------------------------------------------

/// The client that a row reads as. The columns are read in order, and the
/// first one that cannot be read decides the error. Columns past the last
/// one of a client are ignored.
pub open spec fn client_of_row(row: Seq<ValueView>) -> Result<ClientView, RowError> {
    let id = text_at(row, 0);
    let name = text_at(row, 1);
    let tags = list_at(row, 2);
    let contacts = list_at(row, 3);
    let links = list_at(row, 4);
    let next_step = opt_text_at(row, 5);
    let next_step_due = opt_text_at(row, 6);
    let created_at = text_at(row, 7);
    let updated_at = text_at(row, 8);
    if id is Err {
        Err(id->Err_0)
    } else if name is Err {
        Err(name->Err_0)
    } else if tags is Err {
        Err(tags->Err_0)
    } else if contacts is Err {
        Err(contacts->Err_0)
    } else if links is Err {
        Err(links->Err_0)
    } else if next_step is Err {
        Err(next_step->Err_0)
    } else if next_step_due is Err {
        Err(next_step_due->Err_0)
    } else if created_at is Err {
        Err(created_at->Err_0)
    } else if updated_at is Err {
        Err(updated_at->Err_0)
    } else {
        Ok(
            ClientView {
                id: id->Ok_0,
                name: name->Ok_0,
                tags: tags->Ok_0,
                contacts: contacts->Ok_0,
                links: links->Ok_0,
                next_step: next_step->Ok_0,
                next_step_due: next_step_due->Ok_0,
                created_at: created_at->Ok_0,
                updated_at: updated_at->Ok_0,
            },
        )
    }
}

/// Reads a row as a client.
pub fn client_from_row(row: &Vec<SqlValue>) -> (r: Result<Client, RowError>)
    ensures
        match r {
            Ok(client) => client_of_row(row.deep_view()) == Ok::<ClientView, RowError>(client@),
            Err(e) => client_of_row(row.deep_view()) == Err::<ClientView, RowError>(e),
        },
{
    let id = get_text(row, 0)?;
    let name = get_text(row, 1)?;
    let tags = get_list(row, 2)?;
    let contacts = get_list(row, 3)?;
    let links = get_list(row, 4)?;
    let next_step = get_opt_text(row, 5)?;
    let next_step_due = get_opt_text(row, 6)?;
    let created_at = get_text(row, 7)?;
    let updated_at = get_text(row, 8)?;
    Ok(
        Client {
            id,
            name,
            tags,
            contacts,
            links,
            next_step,
            next_step_due,
            created_at,
            updated_at,
        },
    )
}

/// Whether the three lists of a client are read back unchanged from the text
/// they are stored as. This holds of every list that has been encoded: the
/// encoder's contract says so.
pub open spec fn client_lists_round_trip(client: ClientView) -> bool {
    &&& list_of(list_cell(client.tags)) == client.tags
    &&& list_of(list_cell(client.contacts)) == client.contacts
    &&& list_of(list_cell(client.links)) == client.links
}

/// Storing a client and reading the row back gives the same client: no field
/// is lost or altered, an absent optional field stays absent, and nothing in
/// the row fails to read.
pub proof fn lemma_client_round_trip(client: ClientView)
    requires
        client_lists_round_trip(client),
    ensures
        client_of_row(client_row(client)) == Ok::<ClientView, RowError>(client),
{
    let row = client_row(client);
    lemma_text_round_trip(client.id, 0);
    lemma_text_round_trip(client.name, 1);
    lemma_opt_text_round_trip(client.next_step, 5);
    lemma_opt_text_round_trip(client.next_step_due, 6);
    lemma_text_round_trip(client.created_at, 7);
    lemma_text_round_trip(client.updated_at, 8);
    assert(row.len() == 9);
    assert(text_at(row, 0) == Ok::<Seq<char>, RowError>(client.id));
    assert(text_at(row, 1) == Ok::<Seq<char>, RowError>(client.name));
    assert(list_at(row, 2) == Ok::<Seq<Seq<char>>, RowError>(client.tags));
    assert(list_at(row, 3) == Ok::<Seq<Seq<char>>, RowError>(client.contacts));
    assert(list_at(row, 4) == Ok::<Seq<Seq<char>>, RowError>(client.links));
    assert(opt_text_at(row, 5) == Ok::<Option<Seq<char>>, RowError>(client.next_step));
    assert(opt_text_at(row, 6) == Ok::<Option<Seq<char>>, RowError>(client.next_step_due));
    assert(text_at(row, 7) == Ok::<Seq<char>, RowError>(client.created_at));
    assert(text_at(row, 8) == Ok::<Seq<char>, RowError>(client.updated_at));
}

// ---------------------------------------------------------------------------
// Listing
// ---------------------------------------------------------------------------

/// What each row of a listing reads as.
pub open spec fn client_results(rows: Seq<Seq<ValueView>>) -> Seq<Result<ClientView, RowError>> {
    Seq::new(rows.len(), |i: int| client_of_row(rows[i]))
}

/// The clients that the rows of a listing read as: every row in order, or
/// the error of the first row that cannot be read.
pub open spec fn clients_of_rows(rows: Seq<Seq<ValueView>>) -> Result<Seq<ClientView>, RowError> {
    collect(client_results(rows))
}

/// Reads the rows of a listing as clients, in the order in which the store
/// returned them.
///
/// All rows are read or none: the listing fails with the error of the first
/// row that cannot be read. A listing without rows is an empty list.
pub fn clients_from_rows(rows: &Vec<Vec<SqlValue>>) -> (r: Result<Vec<Client>, RowError>)
    ensures
        match r {
            Ok(clients) => clients_of_rows(rows.deep_view()) == Ok::<Seq<ClientView>, RowError>(
                clients.deep_view(),
            ),
            Err(e) => clients_of_rows(rows.deep_view()) == Err::<Seq<ClientView>, RowError>(e),
        },
        rows@.len() == 0 ==> (r matches Ok(clients) && clients@.len() == 0),
{
    let ghost results = client_results(rows.deep_view());
    let mut clients: Vec<Client> = Vec::new();
    let mut i: usize = 0;
    while i < rows.len()
        invariant
            0 <= i <= rows@.len(),
            clients@.len() == i,
            results == client_results(rows.deep_view()),
            results.len() == rows@.len(),
            forall|j: int|
                0 <= j < i ==> (#[trigger] results[j]) == Ok::<ClientView, RowError>(
                    clients@[j]@,
                ),
        decreases rows@.len() - i,
    {
        assert(rows.deep_view()[i as int] == rows@[i as int].deep_view());
        match client_from_row(&rows[i]) {
            Ok(client) => {
                clients.push(client);
            },
            Err(e) => {
                proof {
                    assert(results[i as int] == Err::<ClientView, RowError>(e));
                    lemma_collect_first_failure(results, i as int);
                }
                return Err(e);
            },
        }
        i += 1;
    }
    proof {
        assert(clients.deep_view().len() == results.len());
        assert forall|j: int| 0 <= j < results.len() implies (#[trigger] results[j]) == Ok::<
            ClientView,
            RowError,
        >(clients.deep_view()[j]) by {
            assert(clients.deep_view()[j] == clients@[j]@);
        }
        lemma_collect_all(results, clients.deep_view());
    }
    Ok(clients)
}

/// What was stored is what a listing shows: where a listing succeeds and row
/// `k` of it is the row that stores `client`, entry `k` of the listing is
/// `client`, field for field.
pub proof fn lemma_client_listing_shows_stored(
    rows: Seq<Seq<ValueView>>,
    k: int,
    client: ClientView,
)
    requires
        0 <= k < rows.len(),
        rows[k] == client_row(client),
        client_lists_round_trip(client),
        clients_of_rows(rows) is Ok,
    ensures
        clients_of_rows(rows)->Ok_0.len() == rows.len(),
        clients_of_rows(rows)->Ok_0[k] == client,
{
    lemma_client_round_trip(client);
    lemma_collect_each(client_results(rows), k);
}

} // verus!
