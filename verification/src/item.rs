//! Things that lie in the world or are carried, as far as movement is concerned: what
//! kind of thing, and where it is.

use vstd::prelude::*;

verus! {

#[derive(Clone, Copy, Debug, PartialEq, Eq, Structural)]
pub enum FoodType {
    Bisket,
}

#[derive(Clone, Copy, Debug, PartialEq, Eq, Structural)]
pub enum InteractableType {
    Sword,
}

#[derive(Clone, Copy, Debug, PartialEq, Eq, Structural)]
pub enum ResourceType {
    Grune,
    Logs,
}

/// What an item is.
#[derive(Clone, Copy, Debug, PartialEq, Eq, Structural)]
pub enum ItemType {
    Food(FoodType),
    Interactable(InteractableType),
    Resource(ResourceType),
}

/// An item at a position.
#[derive(Clone, Copy, Debug, PartialEq, Eq, Structural)]
pub struct Item {
    pub item_type: ItemType,
    pub x: i64,
    pub y: i64,
}

/// The mathematical view of an item.
pub struct ItemView {
    pub item_type: ItemType,
    pub x: int,
    pub y: int,
}

impl ItemView {
    /// The same item at another position.
    pub open spec fn moved_to(self, x: int, y: int) -> ItemView {
        ItemView { x: x, y: y, ..self }
    }
}

impl View for Item {
    type V = ItemView;

    open spec fn view(&self) -> ItemView {
        ItemView { item_type: self.item_type, x: self.x as int, y: self.y as int }
    }
}

impl Item {
    /// A new item of the given kind, at the origin.
    pub fn new(item_type: ItemType) -> (item: Item)
        ensures
            item@ == (ItemView { item_type: item_type, x: 0, y: 0 }),
    {
        Item { item_type: item_type, x: 0, y: 0 }
    }

    /// Another item of the same kind, at the given position.
    pub fn generate_clone(&self, x: i64, y: i64) -> (item: Item)
        ensures
            item@ == self@.moved_to(x as int, y as int),
    {
        Item { item_type: self.item_type, x: x, y: y }
    }
}

} // verus!
