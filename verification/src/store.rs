//! The record store: an in-memory map from identifier to record with four
//! atomic operations. The surrounding process serialises access, so each
//! method here is the whole critical section of one request.

use std::collections::HashMap;
use vstd::prelude::*;

use crate::record::Todo;
use crate::record::TodoView;

verus! {

broadcast use vstd::std_specs::hash::group_hash_axioms;

/// Why an operation was refused.
#[derive(Clone, Copy, Debug, PartialEq, Eq, Structural)]
pub enum StoreError {
    /// The request carried no identifier.
    InvalidArgument,
    /// An insert collided with a key that is already present.
    AlreadyExists,
    /// The named key is absent from the store.
    NotFound,
}

/// Confirmation returned by the mutating operations.
#[derive(Debug)]
pub struct TodoChangeResponse {
    pub id: u32,
    pub message: String,
}

/// Abstract contents of a map of records: each key mapped to the view of
/// its record.
pub open spec fn store_view(m: Map<u32, Todo>) -> Map<u32, TodoView> {
    Map::new(|k: u32| m.contains_key(k), |k: u32| m[k]@)
}

/// What `add` does to the abstract store: the new contents on success,
/// otherwise exactly which error refuses the request.
pub open spec fn add_spec(m: Map<u32, TodoView>, t: TodoView) -> Result<
    Map<u32, TodoView>,
    StoreError,
> {
    match t.id {
        None => Err(StoreError::InvalidArgument),
        Some(id) => if m.contains_key(id) {
            Err(StoreError::AlreadyExists)
        } else {
            Ok(m.insert(id, t))
        },
    }
}

/// What `remove` does to the abstract store.
pub open spec fn remove_spec(m: Map<u32, TodoView>, id: u32) -> Result<
    Map<u32, TodoView>,
    StoreError,
> {
    if m.contains_key(id) {
        Ok(m.remove(id))
    } else {
        Err(StoreError::NotFound)
    }
}

/// What `update_status` does to the abstract store: on success only the
/// status field of the named record is rewritten.
pub open spec fn update_status_spec(
    m: Map<u32, TodoView>,
    id: Option<u32>,
    status: Seq<char>,
) -> Result<Map<u32, TodoView>, StoreError> {
    match id {
        None => Err(StoreError::InvalidArgument),
        Some(i) => if m.contains_key(i) {
            Ok(m.insert(i, TodoView { id: m[i].id, description: m[i].description, status }))
        } else {
            Err(StoreError::NotFound)
        },
    }
}

/// What `get` returns on the abstract store.
pub open spec fn get_spec(m: Map<u32, TodoView>, id: u32) -> Result<TodoView, StoreError> {
    if m.contains_key(id) {
        Ok(m[id])
    } else {
        Err(StoreError::NotFound)
    }
}

/// The shared record store.
pub struct TodoStore {
    todos: HashMap<u32, Todo>,
}

impl View for TodoStore {
    type V = Map<u32, TodoView>;

    closed spec fn view(&self) -> Map<u32, TodoView> {
        store_view(self.todos@)
    }
}

impl TodoStore {
    /// Every record is filed under its own identifier.
    pub open spec fn wf(&self) -> bool {
        forall|k: u32| self@.contains_key(k) ==> (#[trigger] self@[k]).id == Some(k)
    }

    /// An empty store.
    pub fn new() -> (s: TodoStore)
        ensures
            s@ == Map::<u32, TodoView>::empty(),
            s.wf(),
    {
        let s = TodoStore { todos: HashMap::new() };
        proof {
            assert(s@ =~= Map::<u32, TodoView>::empty());
        }
        s
    }

    /// Insert a new record under its own identifier; never overwrite.
    pub fn add(&mut self, todo: Todo) -> (r: Result<TodoChangeResponse, StoreError>)
        requires
            old(self).wf(),
        ensures
            final(self).wf(),
            match add_spec(old(self)@, todo@) {
                Ok(m) => final(self)@ == m && (r matches Ok(a) && a.id == todo@.id->Some_0
                    && a.message@ == "New todo created"@),
                Err(e) => final(self)@ == old(self)@ && r == Err::<TodoChangeResponse, StoreError>(
                    e,
                ),
            },
    {
        let id = match todo.id {
            Some(id) => id,
            None => {
                return Err(StoreError::InvalidArgument);
            },
        };
        if self.todos.contains_key(&id) {
            return Err(StoreError::AlreadyExists);
        }
        let ghost old_todos = self.todos@;
        let ghost tv = todo@;
        self.todos.insert(id, todo);
        proof {
            assert(self@ =~= store_view(old_todos).insert(id, tv));
        }
        Ok(TodoChangeResponse { id, message: "New todo created".to_owned() })
    }

    /// Delete the record under the given identifier.
    pub fn remove(&mut self, id: u32) -> (r: Result<TodoChangeResponse, StoreError>)
        requires
            old(self).wf(),
        ensures
            final(self).wf(),
            match remove_spec(old(self)@, id) {
                Ok(m) => final(self)@ == m && (r matches Ok(a) && a.id == id
                    && a.message@ == "Removed a todo"@),
                Err(e) => final(self)@ == old(self)@ && r == Err::<TodoChangeResponse, StoreError>(
                    e,
                ),
            },
    {
        if !self.todos.contains_key(&id) {
            return Err(StoreError::NotFound);
        }
        let ghost old_todos = self.todos@;
        self.todos.remove(&id);
        proof {
            assert(self@ =~= store_view(old_todos).remove(id));
        }
        Ok(TodoChangeResponse { id, message: "Removed a todo".to_owned() })
    }

    /// Rewrite the status field of the record under the given identifier;
    /// every other field keeps its value.
    pub fn update_status(&mut self, id: Option<u32>, status: String) -> (r: Result<
        TodoChangeResponse,
        StoreError,
    >)
        requires
            old(self).wf(),
        ensures
            final(self).wf(),
            match update_status_spec(old(self)@, id, status@) {
                Ok(m) => final(self)@ == m && (r matches Ok(a) && a.id == id->Some_0
                    && a.message@ == "Updated status successfully"@),
                Err(e) => final(self)@ == old(self)@ && r == Err::<TodoChangeResponse, StoreError>(
                    e,
                ),
            },
    {
        let i = match id {
            Some(i) => i,
            None => {
                return Err(StoreError::InvalidArgument);
            },
        };
        let updated = match self.todos.get(&i) {
            Some(t) => Todo { id: t.id, description: t.description.clone(), status },
            None => {
                return Err(StoreError::NotFound);
            },
        };
        let ghost old_todos = self.todos@;
        let ghost uv = updated@;
        self.todos.insert(i, updated);
        proof {
            assert(self@ =~= store_view(old_todos).insert(i, uv));
        }
        Ok(TodoChangeResponse { id: i, message: "Updated status successfully".to_owned() })
    }

    /// A value copy of the record under the given identifier.
    pub fn get(&self, id: u32) -> (r: Result<Todo, StoreError>)
        ensures
            match get_spec(self@, id) {
                Ok(tv) => r matches Ok(t) && t@ == tv,
                Err(e) => r == Err::<Todo, StoreError>(e),
            },
    {
        match self.todos.get(&id) {
            Some(t) => Ok(t.duplicate()),
            None => Err(StoreError::NotFound),
        }
    }
}

/// Law: adding a record with a populated identifier to a store where that
/// identifier is free succeeds, and an immediate lookup of the identifier
/// yields exactly that record.
pub proof fn lemma_add_then_get(m: Map<u32, TodoView>, t: TodoView, id: u32)
    requires
        t.id == Some(id),
        !m.contains_key(id),
    ensures
        add_spec(m, t) matches Ok(m2) && get_spec(m2, id) == Ok::<TodoView, StoreError>(t),
{
}

/// Law: a second add under the same identifier is refused with
/// `AlreadyExists`, and the stored value stays equal to the first record.
pub proof fn lemma_add_twice_same_id(m: Map<u32, TodoView>, t1: TodoView, t2: TodoView, id: u32)
    requires
        t1.id == Some(id),
        t2.id == Some(id),
        !m.contains_key(id),
    ensures
        add_spec(m, t1) matches Ok(m2) && {
            &&& add_spec(m2, t2) == Err::<Map<u32, TodoView>, StoreError>(StoreError::AlreadyExists)
            &&& get_spec(m2, id) == Ok::<TodoView, StoreError>(t1)
        },
{
}

/// Law: removing an absent identifier is refused with `NotFound`, and
/// after a successful removal a lookup of that identifier is refused with
/// `NotFound`.
pub proof fn lemma_remove_then_get(m: Map<u32, TodoView>, id: u32)
    ensures
        !m.contains_key(id) ==> remove_spec(m, id) == Err::<Map<u32, TodoView>, StoreError>(
            StoreError::NotFound,
        ),
        m.contains_key(id) ==> (remove_spec(m, id) matches Ok(m2) && get_spec(m2, id) == Err::<
            TodoView,
            StoreError,
        >(StoreError::NotFound)),
{
}

/// Law: a status update rewrites only the status field of the named
/// record; its identifier and description, and every other key's record,
/// keep their values, and no key appears or disappears.
pub proof fn lemma_update_status_only_status(m: Map<u32, TodoView>, id: u32, status: Seq<char>)
    requires
        m.contains_key(id),
    ensures
        update_status_spec(m, Some(id), status) matches Ok(m2) && {
            &&& get_spec(m2, id) matches Ok(t2) && t2.status == status && t2.id == m[id].id
                && t2.description == m[id].description
            &&& forall|k: u32|
                k != id && #[trigger] m.contains_key(k) ==> m2.contains_key(k) && m2[k] == m[k]
            &&& m2.dom() == m.dom()
        },
{
    let m2 = update_status_spec(m, Some(id), status)->Ok_0;
    assert(m2.dom() =~= m.dom());
}

impl Default for TodoStore {
    /// An empty store.
    fn default() -> (s: TodoStore)
        ensures
            s@ == Map::<u32, TodoView>::empty(),
            s.wf(),
    {
        TodoStore::new()
    }
}

} // verus!
