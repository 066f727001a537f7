//! The request handlers: one function per operation of the service, from the
//! parsed request and the store to the status code and body of the reply.

use crate::clock::{is_clock_reading, now};
use crate::ident::{hyphenated, is_random_uuid, random_uuid, uuid_text};
use crate::model::{
    QueryOptions, Timestamp, Todo, TodoView, UpdateTodoSchema, UpdateTodoSchemaView,
};
use crate::response::{
    conflict_text, fail_text, health_text, not_found_text, success_text, MessageResponse,
    SingleTodoResponse, TodoData, TodoListResponse,
};
use crate::store::{find_id, has_title, merge, new_record, page_of, views, Db, StoreError};
use vstd::prelude::*;

verus! {

/// Status code of a reply that carries what was asked for.
pub const OK: u16 = 200;

/// Status code of a reply to a creation.
pub const CREATED: u16 = 201;

/// Status code of a reply to a deletion, which carries nothing.
pub const NO_CONTENT: u16 = 204;

/// Status code of a reply that no record has the id.
pub const NOT_FOUND: u16 = 404;

/// Status code of a reply that the title is taken.
pub const CONFLICT: u16 = 409;

/// The page that `opts` asks for: page one where it names none.
pub open spec fn requested_page(opts: Option<QueryOptions>) -> usize {
    match opts {
        Some(o) => o.page_or_default(),
        None => QueryOptions::DEFAULT_PAGE,
    }
}

/// The page size that `opts` asks for: ten where it names none.
pub open spec fn requested_limit(opts: Option<QueryOptions>) -> usize {
    match opts {
        Some(o) => o.limit_or_default(),
        None => QueryOptions::DEFAULT_LIMIT,
    }
}

/// `reply` reports success and carries the record `todo`.
pub open spec fn carries(reply: SingleTodoResponse, todo: TodoView) -> bool {
    &&& reply.status@ == success_text()
    &&& reply.data.todo@ == todo
}

/// The status code that goes with a failure of the store.
pub open spec fn failure_code(e: StoreError) -> u16 {
    match e {
        StoreError::NotFound(_) => NOT_FOUND,
        StoreError::Conflict(_) => CONFLICT,
    }
}

/// `reply` is the failure reply with status code `code` and message
/// `message`.
pub open spec fn fails_with(reply: (u16, MessageResponse), code: u16, message: Seq<char>) -> bool {
    &&& reply.0 == code
    &&& reply.1.status@ == fail_text()
    &&& reply.1.message@ == message
}

/// `t` is a record that a creation can store for the request `body`: for some
/// random UUID and some reading of the clock it is [`new_record`].
pub open spec fn is_created_from(t: TodoView, body: TodoView) -> bool {
    exists|id: u128, at: Timestamp|
        is_random_uuid(id) && is_clock_reading(at) && t == #[trigger] new_record(
            body,
            uuid_text(id),
            at,
        )
}

/// `t` is a record that `current` can become under the update `patch`: for
/// some reading of the clock it is [`merge`].
pub open spec fn is_updated_from(
    t: TodoView,
    current: TodoView,
    patch: UpdateTodoSchemaView,
) -> bool {
    exists|at: Timestamp| is_clock_reading(at) && t == #[trigger] merge(current, patch, at)
}

/// The reply that carries the record `todo`.
pub fn success(todo: Todo) -> (reply: SingleTodoResponse)
    ensures
        carries(reply, todo@),
{
    SingleTodoResponse { status: "success".to_owned(), data: TodoData { todo } }
}

/// The reply that reports the failure `e`: its status code and its message.
pub fn failure(e: StoreError) -> (reply: (u16, MessageResponse))
    ensures
        fails_with(reply, failure_code(e), e.message_text()),
{
    let code = match &e {
        StoreError::NotFound(_) => NOT_FOUND,
        StoreError::Conflict(_) => CONFLICT,
    };
    (code, MessageResponse { status: "fail".to_owned(), message: e.message() })
}

/// Reports that the service is up.
pub fn health_check_handler() -> (reply: MessageResponse)
    ensures
        reply.status@ == success_text(),
        reply.message@ == health_text(),
{
    MessageResponse {
        status: "success".to_owned(),
        message: "Build Simple CRUD API in Rust using Axum".to_owned(),
    }
}

/// Lists the page of records that `opts` asks for, page one in pages of ten
/// where it names none. Never fails: a page past the end is empty.
pub fn todo_list_handler(opts: Option<QueryOptions>, db: &Db) -> (reply: TodoListResponse)
    ensures
        reply.status@ == success_text(),
        reply.results == reply.todos@.len(),
        reply.results == page_of(
            db@,
            requested_page(opts) as nat,
            requested_limit(opts) as nat,
        ).len(),
        views(reply.todos@) == page_of(
            db@,
            requested_page(opts) as nat,
            requested_limit(opts) as nat,
        ),
{
    let opts = match opts {
        Some(o) => o,
        None => QueryOptions::default(),
    };
    let limit = match opts.limit {
        Some(l) => l,
        None => QueryOptions::DEFAULT_LIMIT,
    };
    let page = match opts.page {
        Some(p) => p,
        None => QueryOptions::DEFAULT_PAGE,
    };
    let todos = db.list(page, limit);
    TodoListResponse { status: "success".to_owned(), results: todos.len(), todos }
}

/// Looks up the record whose id is the text of the UUID `id`.
pub fn get_todo_handler(id: u128, db: &Db) -> (res: Result<
    (u16, SingleTodoResponse),
    (u16, MessageResponse),
>)
    ensures
        match res {
            Ok((code, reply)) => {
                &&& code == OK
                &&& find_id(db@, uuid_text(id)) matches Some(i)
                &&& carries(reply, db@[i])
            },
            Err(reply) => {
                &&& find_id(db@, uuid_text(id)) is None
                &&& fails_with(reply, NOT_FOUND, not_found_text(uuid_text(id)))
            },
        },
{
    let id = hyphenated(id);
    match db.get(&id) {
        Ok(todo) => Ok((OK, success(todo))),
        Err(e) => Err(failure(e)),
    }
}

/// Creates a record with the title and content of `body`, under a new random
/// id and the current instant.
pub fn create_todo_handler(db: &mut Db, body: Todo) -> (res: Result<
    (u16, SingleTodoResponse),
    (u16, MessageResponse),
>)
    ensures
        old(db).wf() ==> final(db).wf(),
        match res {
            Ok((code, reply)) => {
                &&& code == CREATED
                &&& !has_title(old(db)@, body@.title)
                &&& reply.status@ == success_text()
                &&& is_created_from(reply.data.todo@, body@)
                &&& final(db)@ == old(db)@.push(reply.data.todo@)
            },
            Err(reply) => {
                &&& has_title(old(db)@, body@.title)
                &&& fails_with(reply, CONFLICT, conflict_text(body@.title))
                &&& final(db)@ == old(db)@
            },
        },
{
    let uuid = random_uuid();
    let at = now();
    match db.create(body, hyphenated(uuid), at) {
        Ok(todo) => {
            assert(todo@ == new_record(body@, uuid_text(uuid), at));
            Ok((CREATED, success(todo)))
        },
        Err(e) => Err(failure(e)),
    }
}

/// Merges `body` into the record whose id is the text of the UUID `id`, at
/// the current instant.
pub fn edit_todo_handler(id: u128, db: &mut Db, body: UpdateTodoSchema) -> (res: Result<
    (u16, SingleTodoResponse),
    (u16, MessageResponse),
>)
    ensures
        old(db).wf() ==> final(db).wf(),
        match res {
            Ok((code, reply)) => {
                &&& code == OK
                &&& find_id(old(db)@, uuid_text(id)) matches Some(i)
                &&& reply.status@ == success_text()
                &&& is_updated_from(reply.data.todo@, old(db)@[i], body@)
                &&& final(db)@ == old(db)@.update(i, reply.data.todo@)
            },
            Err(reply) => {
                &&& find_id(old(db)@, uuid_text(id)) is None
                &&& fails_with(reply, NOT_FOUND, not_found_text(uuid_text(id)))
                &&& final(db)@ == old(db)@
            },
        },
{
    let id = hyphenated(id);
    let at = now();
    match db.update(&id, body, at) {
        Ok(todo) => {
            assert(todo@ == merge(old(db)@[find_id(old(db)@, id@)->0], body@, at));
            Ok((OK, success(todo)))
        },
        Err(e) => Err(failure(e)),
    }
}

/// Removes the record whose id is the text of the UUID `id`.
pub fn delete_todo_handler(id: u128, db: &mut Db) -> (res: Result<u16, (u16, MessageResponse)>)
    ensures
        old(db).wf() ==> final(db).wf(),
        match res {
            Ok(code) => {
                &&& code == NO_CONTENT
                &&& find_id(old(db)@, uuid_text(id)) matches Some(i)
                &&& final(db)@ == old(db)@.remove(i)
            },
            Err(reply) => {
                &&& find_id(old(db)@, uuid_text(id)) is None
                &&& fails_with(reply, NOT_FOUND, not_found_text(uuid_text(id)))
                &&& final(db)@ == old(db)@
            },
        },
{
    let id = hyphenated(id);
    match db.delete(&id) {
        Ok(_) => Ok(NO_CONTENT),
        Err(e) => Err(failure(e)),
    }
}

} // verus!
