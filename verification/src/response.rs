//! The bodies of the service's replies.

use crate::model::Todo;
use vstd::prelude::*;

verus! {

/// A reply that carries only a message: the health check's, and every
/// failure's.
#[derive(Debug, PartialEq, Eq)]
pub struct MessageResponse {
    pub status: String,
    pub message: String,
}

/// The payload of a reply about one record.
#[derive(Debug, PartialEq, Eq)]
pub struct TodoData {
    pub todo: Todo,
}

/// The reply about one record.
#[derive(Debug, PartialEq, Eq)]
pub struct SingleTodoResponse {
    pub status: String,
    pub data: TodoData,
}

/// The reply to a listing: the records of the page and their number.
#[derive(Debug, PartialEq, Eq)]
pub struct TodoListResponse {
    pub status: String,
    pub results: usize,
    pub todos: Vec<Todo>,
}

/// The status text of a reply that reports success.
pub open spec fn success_text() -> Seq<char> {
    "success"@
}

/// The status text of a reply that reports a failure.
pub open spec fn fail_text() -> Seq<char> {
    "fail"@
}

/// The message of the health check.
pub open spec fn health_text() -> Seq<char> {
    "Build Simple CRUD API in Rust using Axum"@
}

/// The message of a failure to find the record `id`.
pub open spec fn not_found_text(id: Seq<char>) -> Seq<char> {
    "Todo with ID: "@ + id + " not found"@
}

/// The message of a refusal to create a second record titled `title`.
pub open spec fn conflict_text(title: Seq<char>) -> Seq<char> {
    "Todo with title: '"@ + title + "' already exists"@
}

} // verus!
