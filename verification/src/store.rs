//! The record store and the operations of the service over it.
//!
//! The store keeps its records in insertion order. Every operation is stated
//! over the store's view, a sequence of [`TodoView`], by one of the spec
//! functions of this module.

use crate::model::{Timestamp, Todo, TodoView, UpdateTodoSchema, UpdateTodoSchemaView};
use crate::response::{conflict_text, not_found_text};
use vstd::prelude::*;
use vstd::string::StringExecFns;

verus! {

/// A record as the store keeps it: every field that the store assigns is
/// present.
pub open spec fn is_stored(t: TodoView) -> bool {
    &&& t.id is Some
    &&& t.completed is Some
    &&& t.created_at is Some
    &&& t.updated_at is Some
}

/// Every record of `s` is as the store keeps it.
pub open spec fn all_stored(s: Seq<TodoView>) -> bool {
    forall|i: int| 0 <= i < s.len() ==> is_stored(#[trigger] s[i])
}

/// `i` is the position of the first record of `s` whose id is `id`.
pub open spec fn first_with_id(s: Seq<TodoView>, id: Seq<char>, i: int) -> bool {
    &&& 0 <= i < s.len()
    &&& s[i].id == Some(id)
    &&& forall|j: int| 0 <= j < i ==> (#[trigger] s[j]).id != Some(id)
}

/// The position of the first record of `s` whose id is `id`, if there is one.
pub open spec fn find_id(s: Seq<TodoView>, id: Seq<char>) -> Option<int> {
    if exists|i: int| first_with_id(s, id, i) {
        Some(choose|i: int| first_with_id(s, id, i))
    } else {
        None
    }
}

/// Some record of `s` has the title `title`.
pub open spec fn has_title(s: Seq<TodoView>, title: Seq<char>) -> bool {
    exists|i: int| 0 <= i < s.len() && (#[trigger] s[i]).title == title
}

/// The text that replaces `current` under a partial update: the new text if it
/// is present and not empty, else `current`.
pub open spec fn merged_text(current: Seq<char>, new: Option<Seq<char>>) -> Seq<char> {
    match new {
        Some(t) => if t.len() > 0 { t } else { current },
        None => current,
    }
}

/// The record that `t` becomes under the partial update `patch` at the instant
/// `now`: id and creation instant stay.
pub open spec fn merge(t: TodoView, patch: UpdateTodoSchemaView, now: Timestamp) -> TodoView {
    TodoView {
        id: t.id,
        title: merged_text(t.title, patch.title),
        content: merged_text(t.content, patch.content),
        completed: match patch.completed {
            Some(c) => Some(c),
            None => t.completed,
        },
        created_at: t.created_at,
        updated_at: Some(now),
    }
}

/// The store after an update of the record `id`: the first record with that id
/// is merged in place; without one the store stays as it is.
pub open spec fn after_update(
    s: Seq<TodoView>,
    id: Seq<char>,
    patch: UpdateTodoSchemaView,
    now: Timestamp,
) -> Seq<TodoView> {
    match find_id(s, id) {
        Some(i) => s.update(i, merge(s[i], patch, now)),
        None => s,
    }
}

/// The record that a creation stores for the request `body`: the id and the
/// instant come from outside, the record is not completed, and it was last
/// updated when it was created. Whatever `body` holds besides title and
/// content is overwritten.
pub open spec fn new_record(body: TodoView, id: Seq<char>, now: Timestamp) -> TodoView {
    TodoView {
        id: Some(id),
        title: body.title,
        content: body.content,
        completed: Some(false),
        created_at: Some(now),
        updated_at: Some(now),
    }
}

/// The store after a creation: the new record at the end, unless a record
/// with the same title exists, in which case the store stays as it is.
pub open spec fn after_create(
    s: Seq<TodoView>,
    body: TodoView,
    id: Seq<char>,
    now: Timestamp,
) -> Seq<TodoView> {
    if has_title(s, body.title) {
        s
    } else {
        s.push(new_record(body, id, now))
    }
}

/// The store after a deletion of the record `id`: the first record with that
/// id is gone and the others keep their order; without one the store stays as
/// it is.
pub open spec fn after_delete(s: Seq<TodoView>, id: Seq<char>) -> Seq<TodoView> {
    match find_id(s, id) {
        Some(i) => s.remove(i),
        None => s,
    }
}

/// The number of records that come before page `page` where every page holds
/// `limit` of them. Pages count from one; page zero starts where page one
/// does.
pub open spec fn page_offset(page: nat, limit: nat) -> int {
    if page >= 1 {
        (page - 1) * limit
    } else {
        0
    }
}

/// Page `page` of `s` in pages of `limit` records: the records from
/// [`page_offset`] on, at most `limit` of them, in the order of `s`. A page
/// that starts past the end is empty.
pub open spec fn page_of(s: Seq<TodoView>, page: nat, limit: nat) -> Seq<TodoView> {
    let offset = page_offset(page, limit);
    let start = if offset < s.len() {
        offset
    } else {
        s.len() as int
    };
    let end = if start + limit < s.len() {
        start + limit
    } else {
        s.len() as int
    };
    s.subrange(start, end)
}

/// The position that satisfies [`first_with_id`] is the one [`find_id`] gives.
pub proof fn lemma_find_id_some(s: Seq<TodoView>, id: Seq<char>, i: int)
    requires
        first_with_id(s, id, i),
    ensures
        find_id(s, id) == Some(i),
{
    let k = choose|k: int| first_with_id(s, id, k);
    assert(first_with_id(s, id, k));
    if k < i {
        assert(s[k].id != Some(id));
    } else if i < k {
        assert(s[i].id != Some(id));
    }
}

/// Where no record has the id, [`find_id`] gives none.
pub proof fn lemma_find_id_none(s: Seq<TodoView>, id: Seq<char>)
    requires
        forall|j: int| 0 <= j < s.len() ==> (#[trigger] s[j]).id != Some(id),
    ensures
        find_id(s, id) is None,
{
    if exists|i: int| first_with_id(s, id, i) {
        let k = choose|k: int| first_with_id(s, id, k);
        assert(s[k].id != Some(id));
    }
}

/// Why an operation of the store failed.
#[derive(Debug, PartialEq, Eq)]
pub enum StoreError {
    /// No record has the id that was asked for; it is carried along.
    NotFound(String),
    /// A record with the title of the new record exists; the title is carried
    /// along.
    Conflict(String),
}

impl StoreError {
    /// The message that explains the failure to the caller.
    pub open spec fn message_text(self) -> Seq<char> {
        match self {
            StoreError::NotFound(id) => not_found_text(id@),
            StoreError::Conflict(title) => conflict_text(title@),
        }
    }

    /// The message that explains the failure to the caller.
    pub fn message(&self) -> (text: String)
        ensures
            text@ == self.message_text(),
    {
        match self {
            StoreError::NotFound(id) => "Todo with ID: ".to_owned().concat(id.as_str()).concat(
                " not found",
            ),
            StoreError::Conflict(title) => "Todo with title: '".to_owned().concat(
                title.as_str(),
            ).concat("' already exists"),
        }
    }
}

/// The views of a sequence of records.
pub open spec fn views(v: Seq<Todo>) -> Seq<TodoView> {
    v.map_values(|t: Todo| t@)
}

/// The in-memory store: records in insertion order.
#[derive(Debug)]
pub struct Db {
    todos: Vec<Todo>,
}

impl View for Db {
    type V = Seq<TodoView>;

    closed spec fn view(&self) -> Seq<TodoView> {
        views(self.todos@)
    }
}

/// A new, empty store.
pub fn todo_db() -> (db: Db)
    ensures
        db@ == Seq::<TodoView>::empty(),
        db.wf(),
{
    Db { todos: Vec::new() }
}

/// The text that an update stores: `new` if it is present and not empty, else
/// a copy of `current`.
fn merge_text(current: &String, new: Option<String>) -> (out: String)
    ensures
        out@ == merged_text(current@, match new {
            Some(t) => Some(t@),
            None => None,
        }),
{
    match new {
        Some(t) => if t.as_str().is_empty() {
            current.clone()
        } else {
            t
        },
        None => current.clone(),
    }
}

impl Db {
    /// Every record in the store has the fields that the store assigns.
    pub open spec fn wf(&self) -> bool {
        all_stored(self@)
    }

    /// The position of the first record whose id is `id`.
    fn position(&self, id: &String) -> (res: Option<usize>)
        ensures
            match res {
                Some(i) => find_id(self@, id@) == Some(i as int) && i < self.todos.len(),
                None => find_id(self@, id@) is None,
            },
    {
        let n = self.todos.len();
        let mut i: usize = 0;
        while i < n
            invariant
                n == self.todos.len(),
                i <= n,
                forall|j: int| 0 <= j < i ==> (#[trigger] self@[j]).id != Some(id@),
            decreases n - i,
        {
            let hit = match &self.todos[i].id {
                Some(x) => *x == *id,
                None => false,
            };
            if hit {
                proof {
                    assert(self@[i as int] == self.todos@[i as int]@);
                    lemma_find_id_some(self@, id@, i as int);
                }
                return Some(i);
            }
            assert(self@[i as int] == self.todos@[i as int]@);
            i += 1;
        }
        proof {
            lemma_find_id_none(self@, id@);
        }
        None
    }

    /// The records of page `page` in pages of `limit` records, in insertion
    /// order.
    pub fn list(&self, page: usize, limit: usize) -> (out: Vec<Todo>)
        ensures
            views(out@) == page_of(self@, page as nat, limit as nat),
            out@.len() == page_of(self@, page as nat, limit as nat).len(),
    {
        let n = self.todos.len();
        let start = match page.saturating_sub(1).checked_mul(limit) {
            Some(offset) => if offset < n {
                offset
            } else {
                n
            },
            None => n,
        };
        let end = if limit < n - start {
            start + limit
        } else {
            n
        };
        let mut out: Vec<Todo> = Vec::new();
        let mut i = start;
        while i < end
            invariant
                start <= i <= end <= self.todos.len(),
                views(out@) == self@.subrange(start as int, i as int),
            decreases end - i,
        {
            let ghost before = out@;
            out.push(self.todos[i].clone());
            assert(views(out@) =~= views(before).push(self@[i as int]));
            assert(self@.subrange(start as int, i + 1) =~= self@.subrange(
                start as int,
                i as int,
            ).push(self@[i as int]));
            i += 1;
        }
        out
    }

    /// The first record whose id is `id`. Fails with `NotFound` where no
    /// record has that id.
    pub fn get(&self, id: &String) -> (res: Result<Todo, StoreError>)
        ensures
            match res {
                Ok(t) => {
                    &&& find_id(self@, id@) matches Some(i)
                    &&& t@ == self@[i]
                },
                Err(e) => {
                    &&& find_id(self@, id@) is None
                    &&& e matches StoreError::NotFound(x)
                    &&& x@ == id@
                },
            },
    {
        match self.position(id) {
            Some(i) => Ok(self.todos[i].clone()),
            None => Err(StoreError::NotFound(id.clone())),
        }
    }

    /// Stores a new record with the title and content of `body`, the id `id`
    /// and the instant `now`, at the end of the store, and returns it. Fails
    /// with `Conflict`, and changes nothing, where a record with that title
    /// exists.
    pub fn create(&mut self, body: Todo, id: String, now: Timestamp) -> (res: Result<
        Todo,
        StoreError,
    >)
        ensures
            final(self)@ == after_create(old(self)@, body@, id@, now),
            res is Err ==> final(self)@ == old(self)@,
            old(self).wf() ==> final(self).wf(),
            match res {
                Ok(t) => {
                    &&& !has_title(old(self)@, body@.title)
                    &&& t@ == new_record(body@, id@, now)
                },
                Err(e) => {
                    &&& has_title(old(self)@, body@.title)
                    &&& e matches StoreError::Conflict(x)
                    &&& x@ == body@.title
                },
            },
    {
        let n = self.todos.len();
        let mut i: usize = 0;
        while i < n
            invariant
                *self == *old(self),
                n == self.todos.len(),
                i <= n,
                forall|j: int| 0 <= j < i ==> (#[trigger] self@[j]).title != body@.title,
            decreases n - i,
        {
            if self.todos[i].title == body.title {
                assert(self@[i as int].title == body@.title);
                return Err(StoreError::Conflict(self.todos[i].title.clone()));
            }
            assert(self@[i as int].title != body@.title);
            i += 1;
        }
        let record = Todo {
            id: Some(id),
            title: body.title,
            content: body.content,
            completed: Some(false),
            created_at: Some(now),
            updated_at: Some(now),
        };
        let out = record.clone();
        self.todos.push(record);
        assert(self@ =~= old(self)@.push(out@));
        Ok(out)
    }

    /// Removes the first record whose id is `id`; the others keep their
    /// order. Fails with `NotFound`, and changes nothing, where no record has
    /// that id.
    pub fn delete(&mut self, id: &String) -> (res: Result<(), StoreError>)
        ensures
            final(self)@ == after_delete(old(self)@, id@),
            res is Err ==> final(self)@ == old(self)@,
            old(self).wf() ==> final(self).wf(),
            match res {
                Ok(_) => find_id(old(self)@, id@) is Some,
                Err(e) => {
                    &&& find_id(old(self)@, id@) is None
                    &&& e matches StoreError::NotFound(x)
                    &&& x@ == id@
                },
            },
    {
        match self.position(id) {
            Some(i) => {
                self.todos.remove(i);
                assert(self@ =~= old(self)@.remove(i as int));
                Ok(())
            },
            None => Err(StoreError::NotFound(id.clone())),
        }
    }

    /// Merges `patch` into the first record whose id is `id`, at the instant
    /// `now`, and returns the merged record. The record keeps its place. Fails
    /// with `NotFound`, and changes nothing, where no record has that id.
    pub fn update(&mut self, id: &String, patch: UpdateTodoSchema, now: Timestamp) -> (res: Result<
        Todo,
        StoreError,
    >)
        ensures
            final(self)@ == after_update(old(self)@, id@, patch@, now),
            res is Err ==> final(self)@ == old(self)@,
            old(self).wf() ==> final(self).wf(),
            match res {
                Ok(t) => {
                    &&& find_id(old(self)@, id@) matches Some(i)
                    &&& t@ == merge(old(self)@[i], patch@, now)
                },
                Err(e) => {
                    &&& find_id(old(self)@, id@) is None
                    &&& e matches StoreError::NotFound(x)
                    &&& x@ == id@
                },
            },
    {
        match self.position(id) {
            Some(i) => {
                let current = &self.todos[i];
                assert(self@[i as int] == current@);
                let merged = Todo {
                    id: match &current.id {
                        Some(s) => Some(s.clone()),
                        None => None,
                    },
                    title: merge_text(&current.title, patch.title),
                    content: merge_text(&current.content, patch.content),
                    completed: match patch.completed {
                        Some(c) => Some(c),
                        None => current.completed,
                    },
                    created_at: current.created_at,
                    updated_at: Some(now),
                };
                let out = merged.clone();
                self.todos[i] = merged;
                assert(self@ =~= old(self)@.update(i as int, out@));
                Ok(out)
            },
            None => Err(StoreError::NotFound(id.clone())),
        }
    }
}

} // verus!
