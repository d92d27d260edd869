//! Request payloads.

use vstd::prelude::*;
use crate::modules::todos::todo_entity::{Item, ItemView};

verus! {

/// The payload of a create request: both fields are required.
#[derive(Debug)]
pub struct CreateItemDto {
    pub name: String,
    pub description: String,
}

/// What a [`CreateItemDto`] holds.
pub ghost struct CreateItemDtoView {
    pub name: Seq<char>,
    pub description: Seq<char>,
}

impl View for CreateItemDto {
    type V = CreateItemDtoView;

    open spec fn view(&self) -> CreateItemDtoView {
        CreateItemDtoView { name: self.name@, description: self.description@ }
    }
}

impl CreateItemDtoView {
    /// The item that this payload describes once it has been given `id`.
    pub open spec fn with_id(self, id: Seq<char>) -> ItemView {
        ItemView { id, name: self.name, description: self.description }
    }
}

impl CreateItemDto {
    /// Builds the item that this payload describes under the given id.
    pub fn with_id(self, id: String) -> (item: Item)
        ensures
            item@ == self@.with_id(id@),
    {
        Item { id, name: self.name, description: self.description }
    }
}

/// The payload of an update request: a field left out keeps its stored value.
#[derive(Debug)]
pub struct UpdateItemDto {
    pub name: Option<String>,
    pub description: Option<String>,
}

/// What an [`UpdateItemDto`] holds.
pub ghost struct UpdateItemDtoView {
    pub name: Option<Seq<char>>,
    pub description: Option<Seq<char>>,
}

impl View for UpdateItemDto {
    type V = UpdateItemDtoView;

    open spec fn view(&self) -> UpdateItemDtoView {
        UpdateItemDtoView {
            name: match self.name {
                Some(name) => Some(name@),
                None => None,
            },
            description: match self.description {
                Some(description) => Some(description@),
                None => None,
            },
        }
    }
}

impl UpdateItemDtoView {
    /// The merge policy: a supplied field replaces the stored one, a field
    /// left out keeps it, and the id never changes.
    pub open spec fn merge(self, existing: ItemView) -> ItemView {
        ItemView {
            id: existing.id,
            name: match self.name {
                Some(name) => name,
                None => existing.name,
            },
            description: match self.description {
                Some(description) => description,
                None => existing.description,
            },
        }
    }
}

impl UpdateItemDto {
    /// Applies the merge policy to the stored item.
    pub fn merge(self, existing: Item) -> (merged: Item)
        ensures
            merged@ == self@.merge(existing@),
    {
        Item {
            id: existing.id,
            name: self.name.unwrap_or(existing.name),
            description: self.description.unwrap_or(existing.description),
        }
    }
}

} // verus!
