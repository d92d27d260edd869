//! The `items` table as a mathematical object, and a table held in memory
//! that behaves as the model says.
//!
//! A table with a primary key is a map from the key to the remaining columns.
//! The functions here say what each statement of the gateway does to that map
//! and which rows a query may return, leaving out faults of the store.

use vstd::prelude::*;
use crate::db::{Command, CommandView, Query, QueryView, StorageError};
use crate::modules::todos::todo_entity::{Item, ItemView};

verus! {

/// The columns of a row other than its key.
pub ghost struct Columns {
    pub name: Seq<char>,
    pub description: Seq<char>,
}

/// The contents of the table: the columns stored under each id.
pub type Table = Map<Seq<char>, Columns>;

/// The columns that an item stores under its id.
pub open spec fn columns(item: ItemView) -> Columns {
    Columns { name: item.name, description: item.description }
}

/// The row stored under `id`, read as an item.
pub open spec fn row(table: Table, id: Seq<char>) -> ItemView {
    ItemView { id, name: table[id].name, description: table[id].description }
}

/// Whether the store carries the command out. Only an insert can be turned
/// down: its id must not be taken.
pub open spec fn accepts(table: Table, command: CommandView) -> bool {
    match command {
        CommandView::Insert(item) => !table.contains_key(item.id),
        _ => true,
    }
}

/// The table after the command. A command that is turned down, an update or
/// a delete of an absent id, and the creation of the table change nothing.
pub open spec fn apply(table: Table, command: CommandView) -> Table {
    match command {
        CommandView::CreateTable => table,
        CommandView::Insert(item) => if table.contains_key(item.id) {
            table
        } else {
            table.insert(item.id, columns(item))
        },
        CommandView::Update(item) => if table.contains_key(item.id) {
            table.insert(item.id, columns(item))
        } else {
            table
        },
        CommandView::Delete(id) => table.remove(id),
    }
}

/// Whether `rows` holds every row of the table exactly once, in any order.
pub open spec fn lists(table: Table, rows: Seq<ItemView>) -> bool {
    &&& forall|i: int|
        0 <= i < rows.len() ==> table.contains_key(#[trigger] rows[i].id) && row(
            table,
            rows[i].id,
        ) == rows[i]
    &&& forall|i: int, j: int|
        0 <= i < j < rows.len() ==> (#[trigger] rows[i]).id != (#[trigger] rows[j]).id
    &&& forall|id: Seq<char>| #[trigger]
        table.contains_key(id) ==> exists|i: int| 0 <= i < rows.len() && #[trigger] rows[i].id == id
}

/// Whether `rows` is an answer of the store to the query.
pub open spec fn selects(table: Table, query: QueryView, rows: Seq<ItemView>) -> bool {
    match query {
        QueryView::SelectAll => lists(table, rows),
        QueryView::SelectOne(id) => rows == if table.contains_key(id) {
            seq![row(table, id)]
        } else {
            Seq::<ItemView>::empty()
        },
    }
}

/// The items of a vector, each by its view.
pub open spec fn item_views(items: Seq<Item>) -> Seq<ItemView> {
    items.map_values(|item: Item| item@)
}

/// Whether row `i` of `rows` has the key `id`.
spec fn keyed_at(rows: Seq<Item>, i: int, id: Seq<char>) -> bool {
    0 <= i < rows.len() && rows[i].id@ == id
}

/// Whether no two rows share a key.
spec fn distinct_keys(rows: Seq<Item>) -> bool {
    forall|i: int, j: int| 0 <= i < j < rows.len() ==> !#[trigger] keyed_at(rows, j, rows[i].id@)
}

/// The table that a sequence of rows stands for.
spec fn table_of(rows: Seq<Item>) -> Table {
    Map::new(
        |id: Seq<char>| exists|i: int| keyed_at(rows, i, id),
        |id: Seq<char>| columns(rows[choose|i: int| keyed_at(rows, i, id)]@),
    )
}

/// With distinct keys, the table holds each row under its key.
proof fn lemma_row_at(rows: Seq<Item>, i: int)
    requires
        distinct_keys(rows),
        0 <= i < rows.len(),
    ensures
        table_of(rows).contains_key(rows[i].id@),
        table_of(rows)[rows[i].id@] == columns(rows[i]@),
        row(table_of(rows), rows[i].id@) == rows[i]@,
{
    let id = rows[i].id@;
    assert(keyed_at(rows, i, id));
    let k = choose|k: int| keyed_at(rows, k, id);
    assert(keyed_at(rows, k, id));
    if k < i {
        assert(!keyed_at(rows, i, rows[k].id@));
    } else if i < k {
        assert(!keyed_at(rows, k, rows[i].id@));
    }
}

/// A row with a new key extends the table by that key.
proof fn lemma_push(rows: Seq<Item>, item: Item)
    requires
        distinct_keys(rows),
        !table_of(rows).contains_key(item.id@),
    ensures
        distinct_keys(rows.push(item)),
        table_of(rows.push(item)) == table_of(rows).insert(item.id@, columns(item@)),
{
    let longer = rows.push(item);
    assert forall|i: int, j: int| 0 <= i < j < longer.len() implies !#[trigger] keyed_at(
        longer,
        j,
        longer[i].id@,
    ) by {
        if j < rows.len() {
            assert(!keyed_at(rows, j, rows[i].id@));
        } else {
            assert(keyed_at(rows, i, rows[i].id@));
        }
    }
    let target = table_of(rows).insert(item.id@, columns(item@));
    assert forall|id: Seq<char>| table_of(longer).contains_key(id) <==> target.contains_key(
        id,
    ) by {
        if table_of(longer).contains_key(id) {
            let k = choose|k: int| keyed_at(longer, k, id);
            if k < rows.len() {
                assert(keyed_at(rows, k, id));
            }
        }
        if target.contains_key(id) {
            if id == item.id@ {
                assert(keyed_at(longer, rows.len() as int, id));
            } else {
                let k = choose|k: int| keyed_at(rows, k, id);
                assert(keyed_at(longer, k, id));
            }
        }
    }
    assert forall|id: Seq<char>| table_of(longer).contains_key(id) implies table_of(longer)[id]
        == target[id] by {
        let k = choose|k: int| keyed_at(longer, k, id);
        lemma_row_at(longer, k);
        if k < rows.len() {
            assert(keyed_at(rows, k, id));
            lemma_row_at(rows, k);
        }
    }
    assert(table_of(longer) =~= target);
}

/// Taking a row out removes its key from the table.
proof fn lemma_remove(rows: Seq<Item>, at: int)
    requires
        distinct_keys(rows),
        0 <= at < rows.len(),
    ensures
        distinct_keys(rows.remove(at)),
        table_of(rows.remove(at)) == table_of(rows).remove(rows[at].id@),
{
    let shorter = rows.remove(at);
    let gone = rows[at].id@;
    assert forall|i: int, j: int| 0 <= i < j < shorter.len() implies !#[trigger] keyed_at(
        shorter,
        j,
        shorter[i].id@,
    ) by {
        let from_i = if i < at { i } else { i + 1 };
        let from_j = if j < at { j } else { j + 1 };
        assert(!keyed_at(rows, from_j, rows[from_i].id@));
    }
    let target = table_of(rows).remove(gone);
    assert forall|id: Seq<char>| table_of(shorter).contains_key(id) <==> target.contains_key(
        id,
    ) by {
        if table_of(shorter).contains_key(id) {
            let k = choose|k: int| keyed_at(shorter, k, id);
            let from_k = if k < at { k } else { k + 1 };
            assert(keyed_at(rows, from_k, id));
            if from_k < at {
                assert(!keyed_at(rows, at, rows[from_k].id@));
            } else {
                assert(!keyed_at(rows, from_k, rows[at].id@));
            }
        }
        if target.contains_key(id) {
            let k = choose|k: int| keyed_at(rows, k, id);
            let to_k = if k < at { k } else { k - 1 };
            assert(keyed_at(shorter, to_k, id));
        }
    }
    assert forall|id: Seq<char>| table_of(shorter).contains_key(id) implies table_of(shorter)[id]
        == target[id] by {
        let k = choose|k: int| keyed_at(shorter, k, id);
        let from_k = if k < at { k } else { k + 1 };
        lemma_row_at(shorter, k);
        lemma_row_at(rows, from_k);
        if from_k < at {
            assert(!keyed_at(rows, at, rows[from_k].id@));
        } else {
            assert(!keyed_at(rows, from_k, rows[at].id@));
        }
    }
    assert(table_of(shorter) =~= target);
}

/// Replacing a row by one with the same key replaces its columns.
proof fn lemma_update(rows: Seq<Item>, at: int, item: Item)
    requires
        distinct_keys(rows),
        0 <= at < rows.len(),
        rows[at].id@ == item.id@,
    ensures
        distinct_keys(rows.update(at, item)),
        table_of(rows.update(at, item)) == table_of(rows).insert(item.id@, columns(item@)),
{
    let changed = rows.update(at, item);
    assert forall|i: int, j: int| 0 <= i < j < changed.len() implies !#[trigger] keyed_at(
        changed,
        j,
        changed[i].id@,
    ) by {
        assert(!keyed_at(rows, j, rows[i].id@));
    }
    let target = table_of(rows).insert(item.id@, columns(item@));
    assert forall|id: Seq<char>| table_of(changed).contains_key(id) <==> target.contains_key(
        id,
    ) by {
        if table_of(changed).contains_key(id) {
            let k = choose|k: int| keyed_at(changed, k, id);
            assert(keyed_at(rows, k, id));
        }
        if target.contains_key(id) {
            if id == item.id@ {
                assert(keyed_at(changed, at, id));
            } else {
                let k = choose|k: int| keyed_at(rows, k, id);
                assert(keyed_at(changed, k, id));
            }
        }
    }
    assert forall|id: Seq<char>| table_of(changed).contains_key(id) implies table_of(changed)[id]
        == target[id] by {
        let k = choose|k: int| keyed_at(changed, k, id);
        lemma_row_at(changed, k);
        lemma_row_at(rows, k);
        if k < at {
            assert(!keyed_at(rows, at, rows[k].id@));
        } else if at < k {
            assert(!keyed_at(rows, k, rows[at].id@));
        }
    }
    assert(table_of(changed) =~= target);
}

/// With distinct keys, the rows themselves list the table.
proof fn lemma_lists(rows: Seq<Item>)
    requires
        distinct_keys(rows),
    ensures
        lists(table_of(rows), item_views(rows)),
{
    let table = table_of(rows);
    let views = item_views(rows);
    assert forall|i: int| 0 <= i < views.len() implies table.contains_key(#[trigger] views[i].id)
        && row(table, views[i].id) == views[i] by {
        lemma_row_at(rows, i);
    }
    assert forall|i: int, j: int| 0 <= i < j < views.len() implies (#[trigger] views[i]).id != (
    #[trigger] views[j]).id by {
        assert(!keyed_at(rows, j, rows[i].id@));
    }
    assert forall|id: Seq<char>| #[trigger] table.contains_key(id) implies exists|i: int|
        0 <= i < views.len() && #[trigger] views[i].id == id by {
        let k = choose|k: int| keyed_at(rows, k, id);
        assert(keyed_at(rows, k, id));
        assert(views[k].id == id);
    }
}

/// A table held in memory: the rows in the order in which they were
/// inserted, no two with the same id.
///
/// It answers the gateway's statements as the model says and never fails for
/// any other reason than a taken id, so it can stand in for the store
/// wherever none is attached.
pub struct MemoryTable {
    rows: Vec<Item>,
}

impl View for MemoryTable {
    type V = Table;

    closed spec fn view(&self) -> Table {
        table_of(self.rows@)
    }
}

impl MemoryTable {
    #[verifier::type_invariant]
    spec fn well_formed(self) -> bool {
        distinct_keys(self.rows@)
    }

    /// An empty table.
    pub fn new() -> (table: MemoryTable)
        ensures
            table@ == Map::<Seq<char>, Columns>::empty(),
    {
        let table = MemoryTable { rows: Vec::new() };
        assert(table@ =~= Map::<Seq<char>, Columns>::empty()) by {
            assert forall|id: Seq<char>| !table@.contains_key(id) by {
                if table@.contains_key(id) {
                    let k = choose|k: int| keyed_at(table.rows@, k, id);
                    assert(keyed_at(table.rows@, k, id));
                }
            }
        }
        table
    }

    /// The place of the row with this id, if there is one.
    fn position(&self, id: &String) -> (place: Option<usize>)
        ensures
            match place {
                Some(at) => keyed_at(self.rows@, at as int, id@),
                None => !self@.contains_key(id@),
            },
    {
        let mut at: usize = 0;
        while at < self.rows.len()
            invariant
                at <= self.rows.len(),
                forall|k: int| 0 <= k < at ==> !keyed_at(self.rows@, k, id@),
            decreases self.rows.len() - at,
        {
            if self.rows[at].id == *id {
                return Some(at);
            }
            at = at + 1;
        }
        assert(!self@.contains_key(id@)) by {
            if self@.contains_key(id@) {
                let k = choose|k: int| keyed_at(self.rows@, k, id@);
                assert(keyed_at(self.rows@, k, id@));
            }
        }
        None
    }

    /// Carries a command out.
    pub fn execute(&mut self, command: &Command) -> (reply: Result<(), StorageError>)
        ensures
            reply is Ok <==> accepts(old(self)@, command@),
            final(self)@ == apply(old(self)@, command@),
    {
        proof {
            use_type_invariant(&*self);
        }
        match command {
            Command::CreateTable => Ok(()),
            Command::Insert(item) => {
                match self.position(&item.id) {
                    Some(at) => {
                        proof {
                            lemma_row_at(self.rows@, at as int);
                        }
                        Err(StorageError {  })
                    },
                    None => {
                        let fresh = item.clone();
                        let mut rows: Vec<Item> = Vec::new();
                        core::mem::swap(&mut self.rows, &mut rows);
                        proof {
                            lemma_push(rows@, fresh);
                        }
                        rows.push(fresh);
                        core::mem::swap(&mut self.rows, &mut rows);
                        Ok(())
                    },
                }
            },
            Command::Update(item) => {
                match self.position(&item.id) {
                    Some(at) => {
                        let changed = item.clone();
                        let mut rows: Vec<Item> = Vec::new();
                        core::mem::swap(&mut self.rows, &mut rows);
                        proof {
                            lemma_update(rows@, at as int, changed);
                        }
                        rows.set(at, changed);
                        core::mem::swap(&mut self.rows, &mut rows);
                        Ok(())
                    },
                    None => Ok(()),
                }
            },
            Command::Delete(id) => {
                match self.position(id) {
                    Some(at) => {
                        let mut rows: Vec<Item> = Vec::new();
                        core::mem::swap(&mut self.rows, &mut rows);
                        proof {
                            lemma_remove(rows@, at as int);
                        }
                        rows.remove(at);
                        core::mem::swap(&mut self.rows, &mut rows);
                        Ok(())
                    },
                    None => {
                        assert(self@.remove(id@) =~= self@);
                        Ok(())
                    },
                }
            },
        }
    }

    /// Answers a query. The table is left as it is.
    pub fn fetch(&self, query: &Query) -> (reply: Result<Vec<Item>, StorageError>)
        ensures
            reply matches Ok(rows) && selects(self@, query@, item_views(rows@)),
    {
        proof {
            use_type_invariant(self);
        }
        let mut found: Vec<Item> = Vec::new();
        match query {
            Query::SelectAll => {
                let mut at: usize = 0;
                while at < self.rows.len()
                    invariant
                        at <= self.rows.len(),
                        item_views(found@) == item_views(self.rows@.take(at as int)),
                    decreases self.rows.len() - at,
                {
                    let copy = self.rows[at].clone();
                    proof {
                        assert(self.rows@.take(at + 1) == self.rows@.take(at as int).push(
                            self.rows@[at as int],
                        ));
                        assert(item_views(found@.push(copy)) =~= item_views(found@).push(copy@));
                        assert(item_views(self.rows@.take(at + 1)) =~= item_views(
                            self.rows@.take(at as int),
                        ).push(self.rows@[at as int]@));
                    }
                    found.push(copy);
                    at = at + 1;
                }
                proof {
                    assert(self.rows@.take(at as int) == self.rows@);
                    lemma_lists(self.rows@);
                }
            },
            Query::SelectOne(id) => {
                match self.position(id) {
                    Some(at) => {
                        let copy = self.rows[at].clone();
                        proof {
                            lemma_row_at(self.rows@, at as int);
                            assert(item_views(found@.push(copy)) =~= seq![row(self@, id@)]);
                        }
                        found.push(copy);
                    },
                    None => {
                        assert(item_views(found@) =~= Seq::<ItemView>::empty());
                    },
                }
            },
        }
        Ok(found)
    }
}

} // verus!
