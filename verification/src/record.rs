//! The stored document and its mathematical view.

use vstd::prelude::*;

verus! {

/// Mathematical image of a [`Todo`]: the identifier together with the
/// character sequences of the two text fields.
pub ghost struct TodoView {
    pub id: Option<u32>,
    pub description: Seq<char>,
    pub status: Seq<char>,
}

/// A stored record: an optional identifier, a description fixed at
/// creation, and a mutable lifecycle status.
#[derive(Debug)]
pub struct Todo {
    pub id: Option<u32>,
    pub description: String,
    pub status: String,
}

impl View for Todo {
    type V = TodoView;

    open spec fn view(&self) -> TodoView {
        TodoView { id: self.id, description: self.description@, status: self.status@ }
    }
}

impl Todo {
    /// An owned copy whose view equals this record's view.
    pub fn duplicate(&self) -> (r: Todo)
        ensures
            r@ == self@,
    {
        Todo {
            id: self.id,
            description: self.description.clone(),
            status: self.status.clone(),
        }
    }

    /// Structural equality of two records, decided at the view level:
    /// true exactly when every field carries the same value.
    pub fn same_as(&self, other: &Todo) -> (r: bool)
        ensures
            r == (self@ == other@),
    {
        let ids_equal = match (self.id, other.id) {
            (Some(a), Some(b)) => a == b,
            (None, None) => true,
            _ => false,
        };
        ids_equal && self.description == other.description && self.status == other.status
    }
}

} // verus!
