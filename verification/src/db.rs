//! The storage gateway: how the relational store is reached and what is sent
//! to it.
//!
//! Every statement is a fixed text with `?` placeholders; values travel only
//! as bound parameters, never inside the text.

use vstd::prelude::*;
use crate::modules::todos::todo_entity::{Item, ItemView};

verus! {

/// Where the store lives and how many connections the pool may hold.
#[derive(Debug)]
pub struct PoolSettings {
    pub url: &'static str,
    pub max_connections: u32,
}

/// The largest number of connections that the pool opens at once.
pub const MAX_CONNECTIONS: u32 = 5;

/// The location of the store.
pub open spec fn database_url() -> Seq<char> {
    "sqlite:./database.db"@
}

/// The settings with which the connection pool is opened.
pub fn init_db() -> (settings: PoolSettings)
    ensures
        settings.url@ == database_url(),
        settings.max_connections == MAX_CONNECTIONS,
{
    PoolSettings { url: "sqlite:./database.db", max_connections: MAX_CONNECTIONS }
}

/// Any failure to reach the store or to carry a statement out.
#[derive(Debug)]
pub struct StorageError {}

/// A statement that changes the store and returns no rows.
#[derive(Debug)]
pub enum Command {
    /// Creates the `items` table unless it is there already.
    CreateTable,
    /// Adds the item as a new row.
    Insert(Item),
    /// Writes the item's name and description to the row with its id.
    Update(Item),
    /// Removes the row with this id.
    Delete(String),
}

/// What a [`Command`] holds.
pub ghost enum CommandView {
    CreateTable,
    Insert(ItemView),
    Update(ItemView),
    Delete(Seq<char>),
}

impl View for Command {
    type V = CommandView;

    open spec fn view(&self) -> CommandView {
        match self {
            Command::CreateTable => CommandView::CreateTable,
            Command::Insert(item) => CommandView::Insert(item@),
            Command::Update(item) => CommandView::Update(item@),
            Command::Delete(id) => CommandView::Delete(id@),
        }
    }
}

impl CommandView {
    /// The statement's text.
    pub open spec fn sql(self) -> Seq<char> {
        match self {
            CommandView::CreateTable =>
                "CREATE TABLE IF NOT EXISTS items (id TEXT PRIMARY KEY, name TEXT, description TEXT)"@,
            CommandView::Insert(_) =>
                "INSERT INTO items (id, name, description) VALUES (?, ?, ?)"@,
            CommandView::Update(_) => "UPDATE items SET name = ?, description = ? WHERE id = ?"@,
            CommandView::Delete(_) => "DELETE FROM items WHERE id = ?"@,
        }
    }

    /// The values bound to the placeholders, in the order of the placeholders.
    pub open spec fn parameters(self) -> Seq<Seq<char>> {
        match self {
            CommandView::CreateTable => seq![],
            CommandView::Insert(item) => seq![item.id, item.name, item.description],
            CommandView::Update(item) => seq![item.name, item.description, item.id],
            CommandView::Delete(id) => seq![id],
        }
    }
}

impl Command {
    /// The statement's text.
    pub fn sql(&self) -> (text: &'static str)
        ensures
            text@ == self@.sql(),
    {
        match self {
            Command::CreateTable =>
                "CREATE TABLE IF NOT EXISTS items (id TEXT PRIMARY KEY, name TEXT, description TEXT)",
            Command::Insert(_) => "INSERT INTO items (id, name, description) VALUES (?, ?, ?)",
            Command::Update(_) => "UPDATE items SET name = ?, description = ? WHERE id = ?",
            Command::Delete(_) => "DELETE FROM items WHERE id = ?",
        }
    }

    /// The values to bind, in the order of the placeholders.
    pub fn parameters(&self) -> (bound: Vec<String>)
        ensures
            bound.deep_view() == self@.parameters(),
    {
        let mut bound: Vec<String> = Vec::new();
        match self {
            Command::CreateTable => {},
            Command::Insert(item) => {
                bound.push(item.id.clone());
                bound.push(item.name.clone());
                bound.push(item.description.clone());
            },
            Command::Update(item) => {
                bound.push(item.name.clone());
                bound.push(item.description.clone());
                bound.push(item.id.clone());
            },
            Command::Delete(id) => {
                bound.push(id.clone());
            },
        }
        assert(bound.deep_view() =~= self@.parameters());
        bound
    }
}

/// A statement that reads rows and changes nothing.
#[derive(Debug)]
pub enum Query {
    /// Reads every row.
    SelectAll,
    /// Reads the row with this id, if there is one.
    SelectOne(String),
}

/// What a [`Query`] holds.
pub ghost enum QueryView {
    SelectAll,
    SelectOne(Seq<char>),
}

impl View for Query {
    type V = QueryView;

    open spec fn view(&self) -> QueryView {
        match self {
            Query::SelectAll => QueryView::SelectAll,
            Query::SelectOne(id) => QueryView::SelectOne(id@),
        }
    }
}

impl QueryView {
    /// The statement's text.
    pub open spec fn sql(self) -> Seq<char> {
        match self {
            QueryView::SelectAll => "SELECT id, name, description FROM items"@,
            QueryView::SelectOne(_) => "SELECT id, name, description FROM items WHERE id = ?"@,
        }
    }

    /// The values bound to the placeholders, in the order of the placeholders.
    pub open spec fn parameters(self) -> Seq<Seq<char>> {
        match self {
            QueryView::SelectAll => seq![],
            QueryView::SelectOne(id) => seq![id],
        }
    }
}

impl Query {
    /// The statement's text.
    pub fn sql(&self) -> (text: &'static str)
        ensures
            text@ == self@.sql(),
    {
        match self {
            Query::SelectAll => "SELECT id, name, description FROM items",
            Query::SelectOne(_) => "SELECT id, name, description FROM items WHERE id = ?",
        }
    }

    /// The values to bind, in the order of the placeholders.
    pub fn parameters(&self) -> (bound: Vec<String>)
        ensures
            bound.deep_view() == self@.parameters(),
    {
        let mut bound: Vec<String> = Vec::new();
        match self {
            Query::SelectAll => {},
            Query::SelectOne(id) => {
                bound.push(id.clone());
            },
        }
        assert(bound.deep_view() =~= self@.parameters());
        bound
    }
}

} // verus!
