//! The item service: the five operations on items.
//!
//! An operation never touches the store itself. It names the statement to
//! send and says what the store's reply means, so that the same decisions
//! serve any store that is driven through the gateway's statements. The
//! functions named after the operations run them to the end against a
//! table held in memory.

use vstd::prelude::*;
use crate::db::{Command, CommandView, Query, QueryView, StorageError};
use crate::modules::todos::todo_dto::{CreateItemDto, UpdateItemDto, UpdateItemDtoView};
use crate::modules::todos::todo_entity::{Item, ItemView};
use crate::table::{columns, item_views, lists, row, MemoryTable, Table};

verus! {

/// Why a request failed.
#[derive(Debug, Clone, Copy, PartialEq, Eq, Structural)]
pub enum ErrorKind {
    /// No row has the requested id.
    NotFound,
    /// The store could not be reached or could not carry the statement out.
    Storage,
    /// The request body could not be read as the expected payload.
    Decode,
}

/// Whether `c` is a digit or a letter from `a` to `f`.
pub open spec fn is_lower_hex(c: char) -> bool {
    ('0' <= c && c <= '9') || ('a' <= c && c <= 'f')
}

/// Whether `text` is the textual form of a random (version 4) UUID: 32
/// lower-case hexadecimal digits in groups of 8, 4, 4, 4 and 12 with a hyphen
/// between groups, the third group starting with `4` and the fourth with
/// `8`, `9`, `a` or `b`.
pub open spec fn is_uuid_v4(text: Seq<char>) -> bool {
    &&& text.len() == 36
    &&& forall|i: int|
        0 <= i < 36 ==> if i == 8 || i == 13 || i == 18 || i == 23 {
            #[trigger] text[i] == '-'
        } else {
            is_lower_hex(text[i])
        }
    &&& text[14] == '4'
    &&& (text[19] == '8' || text[19] == '9' || text[19] == 'a' || text[19] == 'b')
}

/// Draws a fresh id.
///
/// Calls `uuid::Uuid::new_v4` and formats the result with `to_string`. The
/// contract claims only the shape of the text, which holds of every draw:
/// `new_v4` fixes the version and variant bits, and the formatting is the
/// hyphenated lower-case form. Nothing is claimed about which id comes out.
/// The draw panics if the operating system cannot supply random bytes.
#[verifier::external_body]
fn random_id() -> (id: String)
    ensures
        is_uuid_v4(id@),
{
    uuid::Uuid::new_v4().to_string()
}

/// Turns a create payload into an item with a freshly drawn id.
pub fn new_item(dto: CreateItemDto) -> (item: Item)
    ensures
        is_uuid_v4(item.id@),
        item@ == dto@.with_id(item.id@),
{
    dto.with_id(random_id())
}

/// A service result on items, by the item's view.
pub open spec fn item_outcome(outcome: Result<Item, ErrorKind>) -> Result<ItemView, ErrorKind> {
    match outcome {
        Ok(item) => Ok(item@),
        Err(kind) => Err(kind),
    }
}

/// The statement that stores a new item.
pub fn insert_command(item: &Item) -> (command: Command)
    ensures
        command@ == CommandView::Insert(item@),
{
    Command::Insert(item.clone())
}

/// What the reply to the insert means for the create operation: the item, or
/// a storage error whatever stopped the insert.
pub fn created(item: Item, reply: Result<(), StorageError>) -> (outcome: Result<Item, ErrorKind>)
    ensures
        outcome == match reply {
            Ok(_) => Ok::<Item, ErrorKind>(item),
            Err(_) => Err(ErrorKind::Storage),
        },
{
    match reply {
        Ok(_) => Ok(item),
        Err(_) => Err(ErrorKind::Storage),
    }
}

/// The statement that reads every item.
pub fn list_query() -> (query: Query)
    ensures
        query@ == QueryView::SelectAll,
{
    Query::SelectAll
}

/// What the reply to the listing query means: the rows as they came, in the
/// store's order, or a storage error.
pub fn listed(reply: Result<Vec<Item>, StorageError>) -> (outcome: Result<Vec<Item>, ErrorKind>)
    ensures
        outcome == match reply {
            Ok(rows) => Ok::<Vec<Item>, ErrorKind>(rows),
            Err(_) => Err(ErrorKind::Storage),
        },
{
    match reply {
        Ok(rows) => Ok(rows),
        Err(_) => Err(ErrorKind::Storage),
    }
}

/// The statement that reads the item with this id.
pub fn get_query(id: String) -> (query: Query)
    ensures
        query@ == QueryView::SelectOne(id@),
{
    Query::SelectOne(id)
}

/// The meaning of a reply to a lookup by id, over views.
pub open spec fn found_outcome(reply: Result<Seq<ItemView>, StorageError>) -> Result<
    ItemView,
    ErrorKind,
> {
    match reply {
        Ok(rows) => if rows.len() == 0 {
            Err(ErrorKind::NotFound)
        } else {
            Ok(rows[0])
        },
        Err(_) => Err(ErrorKind::Storage),
    }
}

/// A reply with rows, by the rows' views.
pub open spec fn rows_reply(reply: Result<Vec<Item>, StorageError>) -> Result<
    Seq<ItemView>,
    StorageError,
> {
    match reply {
        Ok(rows) => Ok(item_views(rows@)),
        Err(fault) => Err(fault),
    }
}

/// What the reply to a lookup by id means: the first row, `NotFound` where
/// no row came back, or a storage error.
pub fn found(reply: Result<Vec<Item>, StorageError>) -> (outcome: Result<Item, ErrorKind>)
    ensures
        item_outcome(outcome) == found_outcome(rows_reply(reply)),
{
    match reply {
        Ok(rows) => {
            let mut rows = rows;
            if rows.len() == 0 {
                Err(ErrorKind::NotFound)
            } else {
                Ok(rows.swap_remove(0))
            }
        },
        Err(_) => Err(ErrorKind::Storage),
    }
}

/// The second step of an update, given how the lookup of the item ended: the
/// statement that writes the merged fields back, or the lookup's error.
pub fn update_command(dto: UpdateItemDto, lookup: Result<Item, ErrorKind>) -> (step: Result<
    Command,
    ErrorKind,
>)
    ensures
        match lookup {
            Ok(existing) => step matches Ok(command) && command@ == CommandView::Update(
                dto@.merge(existing@),
            ),
            Err(kind) => step == Err::<Command, ErrorKind>(kind),
        },
{
    match lookup {
        Ok(existing) => Ok(Command::Update(dto.merge(existing))),
        Err(kind) => Err(kind),
    }
}

/// The statement that removes the item with this id.
pub fn delete_command(id: String) -> (command: Command)
    ensures
        command@ == CommandView::Delete(id@),
{
    Command::Delete(id)
}

/// What the reply to an update's or a delete's statement means. How many
/// rows the statement touched plays no part: a statement that matched no row
/// has succeeded.
pub fn completed(reply: Result<(), StorageError>) -> (outcome: Result<(), ErrorKind>)
    ensures
        outcome == match reply {
            Ok(_) => Ok::<(), ErrorKind>(()),
            Err(_) => Err(ErrorKind::Storage),
        },
{
    match reply {
        Ok(_) => Ok(()),
        Err(_) => Err(ErrorKind::Storage),
    }
}

/// How creating `item` ends on a store that holds `table`: the store turns
/// the insert down where the id is taken, and the service reports that as a
/// storage error.
pub open spec fn create_outcome(table: Table, item: ItemView) -> Result<ItemView, ErrorKind> {
    if table.contains_key(item.id) {
        Err(ErrorKind::Storage)
    } else {
        Ok(item)
    }
}

/// The table after creating `item`.
pub open spec fn after_create(table: Table, item: ItemView) -> Table {
    if table.contains_key(item.id) {
        table
    } else {
        table.insert(item.id, columns(item))
    }
}

/// How getting `id` ends on a store that holds `table`.
pub open spec fn get_outcome(table: Table, id: Seq<char>) -> Result<ItemView, ErrorKind> {
    if table.contains_key(id) {
        Ok(row(table, id))
    } else {
        Err(ErrorKind::NotFound)
    }
}

/// How updating `id` ends on a store that holds `table`.
pub open spec fn update_outcome(table: Table, id: Seq<char>) -> Result<(), ErrorKind> {
    if table.contains_key(id) {
        Ok(())
    } else {
        Err(ErrorKind::NotFound)
    }
}

/// The table after updating `id` with `dto`: the merged fields under the
/// same id, every other row untouched.
pub open spec fn after_update(table: Table, id: Seq<char>, dto: UpdateItemDtoView) -> Table {
    if table.contains_key(id) {
        table.insert(id, columns(dto.merge(row(table, id))))
    } else {
        table
    }
}

/// How deleting `id` ends on a store that holds `table`: it succeeds whether
/// or not a row has the id.
pub open spec fn delete_outcome(table: Table, id: Seq<char>) -> Result<(), ErrorKind> {
    Ok(())
}

/// The table after deleting `id`.
pub open spec fn after_delete(table: Table, id: Seq<char>) -> Table {
    table.remove(id)
}

/// Creates an item under a given id: stores it and returns it, or reports a
/// storage error and stores nothing where the id is taken.
pub fn create_item_with_id(table: &mut MemoryTable, id: String, dto: CreateItemDto) -> (outcome:
    Result<Item, ErrorKind>)
    ensures
        item_outcome(outcome) == create_outcome(old(table)@, dto@.with_id(id@)),
        final(table)@ == after_create(old(table)@, dto@.with_id(id@)),
{
    let item = dto.with_id(id);
    let command = insert_command(&item);
    let reply = table.execute(&command);
    created(item, reply)
}

/// Whether some row of the table has an id in the form of a random UUID.
pub open spec fn holds_uuid(table: Table) -> bool {
    exists|id: Seq<char>| is_uuid_v4(id) && #[trigger] table.contains_key(id)
}

/// Creates an item under a freshly drawn id.
///
/// Which id is drawn is not known beforehand, so the contract speaks of the
/// id that the returned item carries. A storage error means that the drawn
/// id was taken, which takes a table that holds such an id already; the
/// table is then unchanged.
pub fn create_item(table: &mut MemoryTable, dto: CreateItemDto) -> (outcome: Result<
    Item,
    ErrorKind,
>)
    ensures
        match outcome {
            Ok(item) => {
                &&& is_uuid_v4(item.id@)
                &&& item@ == dto@.with_id(item.id@)
                &&& !old(table)@.contains_key(item.id@)
                &&& final(table)@ == old(table)@.insert(item.id@, columns(item@))
            },
            Err(kind) => {
                &&& kind == ErrorKind::Storage
                &&& holds_uuid(old(table)@)
                &&& final(table)@ == old(table)@
            },
        },
{
    let item = new_item(dto);
    let command = insert_command(&item);
    let reply = table.execute(&command);
    created(item, reply)
}

/// Lists every item, each exactly once. An empty table gives an empty list,
/// not an error.
pub fn list_items(table: &MemoryTable) -> (outcome: Result<Vec<Item>, ErrorKind>)
    ensures
        outcome matches Ok(items) && lists(table@, item_views(items@)),
{
    let query = list_query();
    listed(table.fetch(&query))
}

/// Gets the item with this id, or reports `NotFound`.
pub fn get_item(table: &MemoryTable, id: String) -> (outcome: Result<Item, ErrorKind>)
    ensures
        item_outcome(outcome) == get_outcome(table@, id@),
{
    let query = get_query(id);
    found(table.fetch(&query))
}

/// Updates the item with this id: looks it up, merges the payload into it
/// and writes name and description back. Reports `NotFound` and changes
/// nothing where no row has the id.
pub fn update_item(table: &mut MemoryTable, id: String, dto: UpdateItemDto) -> (outcome: Result<
    (),
    ErrorKind,
>)
    ensures
        outcome == update_outcome(old(table)@, id@),
        final(table)@ == after_update(old(table)@, id@, dto@),
{
    let lookup = get_item(table, id);
    match update_command(dto, lookup) {
        Ok(command) => {
            let reply = table.execute(&command);
            completed(reply)
        },
        Err(kind) => Err(kind),
    }
}

/// Deletes the item with this id. Succeeds whether or not there was one.
pub fn delete_item(table: &mut MemoryTable, id: String) -> (outcome: Result<(), ErrorKind>)
    ensures
        outcome == delete_outcome(old(table)@, id@),
        final(table)@ == after_delete(old(table)@, id@),
{
    let command = delete_command(id);
    let reply = table.execute(&command);
    completed(reply)
}

} // verus!
