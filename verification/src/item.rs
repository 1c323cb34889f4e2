//! The records that the development server hands out.

use vstd::prelude::*;

verus! {

/// One entry of a record's list.
#[derive(Debug)]
pub struct InnerItem {
    pub inner_data: u64,
}

impl InnerItem {
    pub fn new(inner_data: u64) -> (item: Self)
        ensures
            item.inner_data == inner_data,
    {
        InnerItem { inner_data }
    }
}

/// A moment in UTC: seconds since the Unix epoch and nanoseconds into that
/// second.
#[derive(Clone, Copy, Debug, PartialEq, Eq, Structural)]
pub struct Timestamp {
    pub secs: i64,
    pub nanos: u32,
}

/// A record: an identifier, the moment it was made, its data and a list of
/// entries.
#[derive(Debug)]
pub struct Item {
    pub id: String,
    pub created_at: Timestamp,
    pub data: String,
    pub list_of_items: Vec<InnerItem>,
}

impl Item {
    /// A record with the given identifier, made at `created_at`, whose list
    /// is empty. The caller draws the identifier and reads the clock.
    pub fn new(id: String, created_at: Timestamp, data: String) -> (item: Self)
        ensures
            item.id == id,
            item.created_at == created_at,
            item.data == data,
            item.list_of_items@ == Seq::<InnerItem>::empty(),
    {
        Item { id, created_at, data, list_of_items: Vec::new() }
    }
}

} // verus!
