//! What holds of the operations taken together, on every table and for every
//! input. Each law is stated over the model of the table and over the
//! functions that say how an operation ends and what it leaves behind.

use vstd::prelude::*;
use crate::db::{CommandView, QueryView, StorageError};
use crate::modules::todos::todo_controller::{
    respond_to_delete,
    respond_to_update,
    respond_with,
    respond_with_found,
    Response,
    Status,
};
use crate::modules::todos::todo_dto::{CreateItemDtoView, UpdateItemDtoView};
use crate::modules::todos::todo_entity::ItemView;
use crate::modules::todos::todo_service::{
    after_create,
    after_delete,
    after_update,
    create_outcome,
    delete_outcome,
    found_outcome,
    get_outcome,
    update_outcome,
    ErrorKind,
};
use crate::table::{accepts, apply, lists, row, selects, Columns, Table};

verus! {

/// An item that was created can be got: where creating an item from a
/// payload under an id succeeds, getting that id from the table that the
/// create left behind gives the created item, and the response is 200 with
/// that item.
pub proof fn create_then_get(table: Table, dto: CreateItemDtoView, id: Seq<char>)
    requires
        create_outcome(table, dto.with_id(id)) is Ok,
    ensures
        create_outcome(table, dto.with_id(id)) == Ok::<ItemView, ErrorKind>(dto.with_id(id)),
        get_outcome(after_create(table, dto.with_id(id)), id) == create_outcome(
            table,
            dto.with_id(id),
        ),
        respond_with_found(get_outcome(after_create(table, dto.with_id(id)), id)) == (Response {
            status: Status::Success,
            body: Some(dto.with_id(id)),
        }),
{
}

/// A lookup that the store answers as the table says ends as getting the id
/// from that table does: with the row, or with `NotFound`.
pub proof fn lookup_agrees_with_table(table: Table, id: Seq<char>, rows: Seq<ItemView>)
    requires
        selects(table, QueryView::SelectOne(id), rows),
    ensures
        found_outcome(Ok::<Seq<ItemView>, StorageError>(rows)) == get_outcome(table, id),
{
}

/// An item that was deleted cannot be got: after deleting an id, getting it
/// reports `NotFound`, and the response is 404.
pub proof fn delete_then_get(table: Table, id: Seq<char>)
    ensures
        get_outcome(after_delete(table, id), id) == Err::<ItemView, ErrorKind>(ErrorKind::NotFound),
        respond_with_found(get_outcome(after_delete(table, id), id)).status == Status::NotFound,
        Status::NotFound.code_of() == 404,
{
}

/// Deleting an id that no row has succeeds: there is no error, the response
/// is 204, and the table is as before.
pub proof fn delete_of_absent_succeeds(table: Table, id: Seq<char>)
    requires
        !table.contains_key(id),
    ensures
        delete_outcome(table, id) == Ok::<(), ErrorKind>(()),
        respond_to_delete(delete_outcome(table, id)) == Status::NoContent,
        Status::NoContent.code_of() == 204,
        after_delete(table, id) == table,
{
    assert(table.remove(id) =~= table);
}

/// Updating only the name of an item that exists changes only its name: the
/// description and the id stay, and so does every other row.
pub proof fn update_of_name_keeps_description(table: Table, id: Seq<char>, name: Seq<char>)
    requires
        table.contains_key(id),
    ensures
        ({
            let dto = UpdateItemDtoView { name: Some(name), description: None };
            let after = after_update(table, id, dto);
            &&& update_outcome(table, id) == Ok::<(), ErrorKind>(())
            &&& respond_to_update(update_outcome(table, id)) == Status::NoContent
            &&& after.dom() == table.dom()
            &&& row(after, id).name == name
            &&& row(after, id).description == row(table, id).description
            &&& forall|other: Seq<char>| other != id ==> after[other] == table[other]
        }),
{
    let dto = UpdateItemDtoView { name: Some(name), description: None };
    assert(after_update(table, id, dto).dom() =~= table.dom());
}

/// An update changes what the payload supplies and nothing else: of an item
/// that exists, each field becomes the supplied value or stays as it was,
/// the id stays, and every other row stays.
pub proof fn update_keeps_what_is_left_out(table: Table, id: Seq<char>, dto: UpdateItemDtoView)
    requires
        table.contains_key(id),
    ensures
        ({
            let after = after_update(table, id, dto);
            &&& update_outcome(table, id) == Ok::<(), ErrorKind>(())
            &&& after.dom() == table.dom()
            &&& get_outcome(after, id) == Ok::<ItemView, ErrorKind>(dto.merge(row(table, id)))
            &&& row(after, id).name == match dto.name {
                Some(name) => name,
                None => row(table, id).name,
            }
            &&& row(after, id).description == match dto.description {
                Some(description) => description,
                None => row(table, id).description,
            }
            &&& forall|other: Seq<char>| other != id ==> after[other] == table[other]
        }),
{
    assert(after_update(table, id, dto).dom() =~= table.dom());
}

/// An update is a lookup followed by a write, and the two are not one step.
/// Where the row is deleted in between, the write still succeeds: it touches
/// no row, leaves the table as the delete left it, and the update ends
/// without an error.
pub proof fn update_after_delete_in_between(table: Table, id: Seq<char>, dto: UpdateItemDtoView)
    requires
        table.contains_key(id),
    ensures
        ({
            let write = CommandView::Update(dto.merge(row(table, id)));
            &&& accepts(after_delete(table, id), write)
            &&& apply(after_delete(table, id), write) == after_delete(table, id)
        }),
{
}

/// Updating an id that no row has reports `NotFound`: the response is 404
/// and the table is as before.
pub proof fn update_of_absent_is_not_found(table: Table, id: Seq<char>, dto: UpdateItemDtoView)
    requires
        !table.contains_key(id),
    ensures
        update_outcome(table, id) == Err::<(), ErrorKind>(ErrorKind::NotFound),
        respond_to_update(update_outcome(table, id)) == Status::NotFound,
        Status::NotFound.code_of() == 404,
        after_update(table, id, dto) == table,
{
}

/// Listing an empty table gives an empty list: whatever rows a listing of
/// the empty table holds, there are none, and the response is 200 with an
/// empty body list, not an error.
pub proof fn list_of_empty_is_empty(rows: Seq<ItemView>)
    requires
        lists(Map::<Seq<char>, Columns>::empty(), rows),
    ensures
        rows == Seq::<ItemView>::empty(),
        respond_with(Ok::<Seq<ItemView>, ErrorKind>(rows)) == (Response {
            status: Status::Success,
            body: Some(Seq::<ItemView>::empty()),
        }),
        Status::Success.code_of() == 200,
{
    if rows.len() > 0 {
        assert(Map::<Seq<char>, Columns>::empty().contains_key(rows[0].id));
    }
    assert(rows =~= Seq::<ItemView>::empty());
}

} // verus!
