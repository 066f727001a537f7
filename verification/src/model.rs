//! The data model: instants, to-do records, query options and partial updates.

use vstd::prelude::*;

verus! {

/// An instant in UTC: whole seconds since 1970-01-01T00:00:00Z and the
/// nanoseconds past that second.
#[derive(Clone, Copy, Debug, PartialEq, Eq, PartialOrd, Ord, Hash, Structural)]
pub struct Timestamp {
    pub secs: i64,
    pub nanos: u32,
}

impl Timestamp {
    /// `self` is not later than `other`.
    pub open spec fn le(self, other: Timestamp) -> bool {
        self.secs < other.secs || (self.secs == other.secs && self.nanos <= other.nanos)
    }

    /// `self` is strictly earlier than `other`.
    pub open spec fn lt(self, other: Timestamp) -> bool {
        self.secs < other.secs || (self.secs == other.secs && self.nanos < other.nanos)
    }
}

/// A to-do record. The same shape serves as the body of a creation request,
/// where only `title` and `content` matter, and as a stored record, where the
/// store has filled in every optional field.
#[derive(Debug, PartialEq, Eq)]
pub struct Todo {
    pub id: Option<String>,
    pub title: String,
    pub content: String,
    pub completed: Option<bool>,
    pub created_at: Option<Timestamp>,
    pub updated_at: Option<Timestamp>,
}

/// The mathematical value of a [`Todo`]: strings as sequences of characters.
pub struct TodoView {
    pub id: Option<Seq<char>>,
    pub title: Seq<char>,
    pub content: Seq<char>,
    pub completed: Option<bool>,
    pub created_at: Option<Timestamp>,
    pub updated_at: Option<Timestamp>,
}

impl View for Todo {
    type V = TodoView;

    open spec fn view(&self) -> TodoView {
        TodoView {
            id: match self.id {
                Some(s) => Some(s@),
                None => None,
            },
            title: self.title@,
            content: self.content@,
            completed: self.completed,
            created_at: self.created_at,
            updated_at: self.updated_at,
        }
    }
}

impl Clone for Todo {
    fn clone(&self) -> (out: Self)
        ensures
            out == *self,
    {
        Todo {
            id: match &self.id {
                Some(s) => Some(s.clone()),
                None => None,
            },
            title: self.title.clone(),
            content: self.content.clone(),
            completed: self.completed,
            created_at: self.created_at,
            updated_at: self.updated_at,
        }
    }
}

/// Paging options of a listing. An absent field takes its default.
#[derive(Clone, Copy, Debug, PartialEq, Eq)]
pub struct QueryOptions {
    pub page: Option<usize>,
    pub limit: Option<usize>,
}

impl QueryOptions {
    /// The page that a listing starts from when none is asked for.
    pub const DEFAULT_PAGE: usize = 1;

    /// The number of records in a page when none is asked for.
    pub const DEFAULT_LIMIT: usize = 10;

    /// The page asked for, or the default.
    pub open spec fn page_or_default(self) -> usize {
        match self.page {
            Some(p) => p,
            None => Self::DEFAULT_PAGE,
        }
    }

    /// The page size asked for, or the default.
    pub open spec fn limit_or_default(self) -> usize {
        match self.limit {
            Some(l) => l,
            None => Self::DEFAULT_LIMIT,
        }
    }
}

impl Default for QueryOptions {
    fn default() -> (out: Self)
        ensures
            out.page is None,
            out.limit is None,
    {
        QueryOptions { page: None, limit: None }
    }
}

/// A partial update of a record: each field that is present, and for the two
/// texts also non-empty, replaces the stored one.
#[derive(Debug, PartialEq, Eq)]
pub struct UpdateTodoSchema {
    pub title: Option<String>,
    pub content: Option<String>,
    pub completed: Option<bool>,
}

/// The mathematical value of an [`UpdateTodoSchema`].
pub struct UpdateTodoSchemaView {
    pub title: Option<Seq<char>>,
    pub content: Option<Seq<char>>,
    pub completed: Option<bool>,
}

impl View for UpdateTodoSchema {
    type V = UpdateTodoSchemaView;

    open spec fn view(&self) -> UpdateTodoSchemaView {
        UpdateTodoSchemaView {
            title: match self.title {
                Some(s) => Some(s@),
                None => None,
            },
            content: match self.content {
                Some(s) => Some(s@),
                None => None,
            },
            completed: self.completed,
        }
    }
}

impl Clone for UpdateTodoSchema {
    fn clone(&self) -> (out: Self)
        ensures
            out == *self,
    {
        UpdateTodoSchema {
            title: match &self.title {
                Some(s) => Some(s.clone()),
                None => None,
            },
            content: match &self.content {
                Some(s) => Some(s.clone()),
                None => None,
            },
            completed: self.completed,
        }
    }
}

} // verus!
