//! Player records.

use vstd::prelude::*;

verus! {

/// A stack of items in an inventory slot.
pub struct Item {
    pub count: i8,
    pub slot: i8,
    pub metadata: i16,
    pub id: String,
}

} // verus!
