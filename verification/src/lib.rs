//! A catalog of physical inventory items kept in a three-level location
//! hierarchy (rack, shelf, basket), backed by a single store file.
//!
//! The crate models the store itself: its schema, the transactional
//! insert and search operations, the store lifecycle, and the handoff
//! protocol that moves the one store handle between the foreground
//! state machine and the operation in flight. A surrounding program
//! supplies the actual file access and the user interface; the logic
//! that decides what happens lives here, verified.

use vstd::prelude::*;

pub mod catalog;
pub mod database;
pub mod executor;
pub mod plan;
pub mod store;
pub mod toast;

pub use crate::catalog::Action;
pub use crate::catalog::Catalog;
pub use crate::catalog::Config;
pub use crate::catalog::Message;
pub use crate::catalog::Screen;
pub use crate::database::Handle;

verus! {

/// One search match: the location identifiers and the display name of an item.
#[derive(Debug)]
pub struct ItemInfo {
    pub rack_number: String,
    pub shelf_number: String,
    pub basket_number: String,
    pub item_name: String,
}

impl Clone for ItemInfo {
    fn clone(&self) -> (r: ItemInfo)
        ensures
            r == *self,
    {
        ItemInfo {
            rack_number: self.rack_number.clone(),
            shelf_number: self.shelf_number.clone(),
            basket_number: self.basket_number.clone(),
            item_name: self.item_name.clone(),
        }
    }
}

} // verus!
