//! The item entity.

use vstd::prelude::*;

verus! {

/// The sole persisted resource.
///
/// `id` is assigned once, when the item is created, and is the primary key of
/// its row. `name` and `description` may be replaced by an update.
#[derive(Debug)]
pub struct Item {
    pub id: String,
    pub name: String,
    pub description: String,
}

/// What an [`Item`] holds, as mathematical sequences of characters.
pub ghost struct ItemView {
    pub id: Seq<char>,
    pub name: Seq<char>,
    pub description: Seq<char>,
}

impl View for Item {
    type V = ItemView;

    open spec fn view(&self) -> ItemView {
        ItemView { id: self.id@, name: self.name@, description: self.description@ }
    }
}

impl Clone for Item {
    fn clone(&self) -> (copy: Item)
        ensures
            copy@ == self@,
    {
        Item {
            id: self.id.clone(),
            name: self.name.clone(),
            description: self.description.clone(),
        }
    }
}

impl PartialEq for Item {
    fn eq(&self, other: &Item) -> (equal: bool) {
        self.id == other.id && self.name == other.name && self.description == other.description
    }
}

impl vstd::std_specs::cmp::PartialEqSpecImpl for Item {
    open spec fn obeys_eq_spec() -> bool {
        true
    }

    open spec fn eq_spec(&self, other: &Item) -> bool {
        self@ == other@
    }
}

} // verus!
