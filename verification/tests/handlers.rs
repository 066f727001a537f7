use todo_api::handler::{
    create_todo_handler, delete_todo_handler, edit_todo_handler, failure, get_todo_handler,
    health_check_handler, success, todo_list_handler, CONFLICT, CREATED, NOT_FOUND, NO_CONTENT, OK,
};
use todo_api::model::{Timestamp, Todo, UpdateTodoSchema};
use todo_api::response::MessageResponse;
use todo_api::store::{todo_db, StoreError};
use uuid::Uuid;

const KNOWN: u128 = 0x67e5_5044_10b1_426f_9247_bb68_0e5f_e0c8;
const KNOWN_TEXT: &str = "67e55044-10b1-426f-9247-bb680e5fe0c8";

fn request(title: &str, content: &str) -> Todo {
    Todo {
        id: None,
        title: title.to_string(),
        content: content.to_string(),
        completed: None,
        created_at: None,
        updated_at: None,
    }
}

fn bits(id: &Option<String>) -> u128 {
    Uuid::parse_str(id.as_ref().unwrap()).unwrap().as_u128()
}

#[test]
fn health_check_reports_success() {
    let reply = health_check_handler();
    assert_eq!(
        reply,
        MessageResponse {
            status: "success".to_string(),
            message: "Build Simple CRUD API in Rust using Axum".to_string(),
        }
    );
}

#[test]
fn status_codes_are_the_usual_ones() {
    assert_eq!((OK, CREATED, NO_CONTENT, NOT_FOUND, CONFLICT), (200, 201, 204, 404, 409));
}

#[test]
fn success_wraps_the_record() {
    let todo = request("A", "x");
    let reply = success(todo.clone());
    assert_eq!(reply.status, "success");
    assert_eq!(reply.data.todo, todo);
}

#[test]
fn failure_maps_each_error_to_its_code_and_message() {
    let (code, body) = failure(StoreError::NotFound("abc".to_string()));
    assert_eq!(code, 404);
    assert_eq!(body.status, "fail");
    assert_eq!(body.message, "Todo with ID: abc not found");
    let (code, body) = failure(StoreError::Conflict("Buy milk".to_string()));
    assert_eq!(code, 409);
    assert_eq!(body.status, "fail");
    assert_eq!(body.message, "Todo with title: 'Buy milk' already exists");
}

#[test]
fn create_handler_assigns_id_and_instants() {
    let mut db = todo_db();
    let (code, reply) = create_todo_handler(&mut db, request("A", "x")).unwrap();
    assert_eq!(code, 201);
    assert_eq!(reply.status, "success");
    let todo = reply.data.todo;
    assert_eq!(todo.title, "A");
    assert_eq!(todo.content, "x");
    assert_eq!(todo.completed, Some(false));
    assert!(todo.created_at.is_some());
    assert_eq!(todo.created_at, todo.updated_at);
    assert_eq!(db.list(1, 10), vec![todo]);
}

#[test]
fn create_handler_ids_are_random_uuids_in_hyphenated_text() {
    let mut db = todo_db();
    let (_, first) = create_todo_handler(&mut db, request("A", "x")).unwrap();
    let (_, second) = create_todo_handler(&mut db, request("B", "y")).unwrap();
    let a = first.data.todo.id.unwrap();
    let b = second.data.todo.id.unwrap();
    assert_ne!(a, b);
    for id in [a, b] {
        assert_eq!(id.len(), 36);
        let parsed = Uuid::parse_str(&id).unwrap();
        assert_eq!(parsed.get_version_num(), 4);
        assert_eq!(parsed.as_u128() & 0xf000_c000_0000_0000_0000, 0x4000_8000_0000_0000_0000);
        assert_eq!(parsed.hyphenated().to_string(), id);
        assert_eq!(id, id.to_lowercase());
    }
}

#[test]
fn create_handler_reads_the_clock() {
    let mut db = todo_db();
    let (_, reply) = create_todo_handler(&mut db, request("A", "x")).unwrap();
    let created = reply.data.todo.created_at.unwrap();
    let system = std::time::SystemTime::now()
        .duration_since(std::time::UNIX_EPOCH)
        .unwrap()
        .as_secs() as i64;
    assert!(created.nanos < 1_000_000_000);
    assert!(created.secs > 1_500_000_000);
    assert!((system - created.secs).abs() <= 5);
}

#[test]
fn create_handler_refuses_a_taken_title() {
    let mut db = todo_db();
    create_todo_handler(&mut db, request("A", "x")).unwrap();
    let before = db.list(1, 10);
    let (code, body) = create_todo_handler(&mut db, request("A", "y")).unwrap_err();
    assert_eq!(code, 409);
    assert_eq!(body.status, "fail");
    assert_eq!(body.message, "Todo with title: 'A' already exists");
    assert_eq!(db.list(1, 10), before);
}

#[test]
fn get_handler_finds_a_record_by_the_text_of_its_uuid() {
    let mut db = todo_db();
    let stored = db
        .create(request("A", "x"), KNOWN_TEXT.to_string(), Timestamp { secs: 1, nanos: 0 })
        .unwrap();
    let (code, reply) = get_todo_handler(KNOWN, &db).unwrap();
    assert_eq!(code, 200);
    assert_eq!(reply.status, "success");
    assert_eq!(reply.data.todo, stored);
}

#[test]
fn get_handler_does_not_match_other_spellings_of_the_uuid() {
    let mut db = todo_db();
    db.create(
        request("A", "x"),
        "67E55044-10B1-426F-9247-BB680E5FE0C8".to_string(),
        Timestamp { secs: 1, nanos: 0 },
    )
    .unwrap();
    db.create(
        request("B", "y"),
        "67e5504410b1426f9247bb680e5fe0c8".to_string(),
        Timestamp { secs: 2, nanos: 0 },
    )
    .unwrap();
    assert!(get_todo_handler(KNOWN, &db).is_err());
}

#[test]
fn get_handler_reports_an_unknown_id() {
    let db = todo_db();
    let (code, body) = get_todo_handler(KNOWN, &db).unwrap_err();
    assert_eq!(code, 404);
    assert_eq!(body.status, "fail");
    assert_eq!(body.message, format!("Todo with ID: {} not found", KNOWN_TEXT));
    let (_, body) = get_todo_handler(0, &db).unwrap_err();
    assert_eq!(body.message, "Todo with ID: 00000000-0000-0000-0000-000000000000 not found");
    let (_, body) = get_todo_handler(u128::MAX, &db).unwrap_err();
    assert_eq!(body.message, "Todo with ID: ffffffff-ffff-ffff-ffff-ffffffffffff not found");
}

#[test]
fn created_record_is_found_under_its_id() {
    let mut db = todo_db();
    create_todo_handler(&mut db, request("other", "")).unwrap();
    let (_, created) = create_todo_handler(&mut db, request("A", "x")).unwrap();
    let id = bits(&created.data.todo.id);
    let (code, found) = get_todo_handler(id, &db).unwrap();
    assert_eq!(code, 200);
    assert_eq!(found, created);
    assert_eq!(found.data.todo.completed, Some(false));
    assert_eq!(found.data.todo.created_at, found.data.todo.updated_at);
}

#[test]
fn edit_handler_merges_and_refreshes_the_instant() {
    let mut db = todo_db();
    let (_, created) = create_todo_handler(&mut db, request("A", "x")).unwrap();
    let id = bits(&created.data.todo.id);
    let body = UpdateTodoSchema { title: None, content: None, completed: Some(true) };
    let (code, reply) = edit_todo_handler(id, &mut db, body).unwrap();
    assert_eq!(code, 200);
    assert_eq!(reply.status, "success");
    let todo = reply.data.todo;
    assert_eq!(todo.id, created.data.todo.id);
    assert_eq!(todo.title, "A");
    assert_eq!(todo.content, "x");
    assert_eq!(todo.completed, Some(true));
    assert_eq!(todo.created_at, created.data.todo.created_at);
    assert!(todo.updated_at.is_some());
    assert!(todo.updated_at.unwrap().nanos < 1_000_000_000);
    assert_eq!(get_todo_handler(id, &db).unwrap().1.data.todo, todo);
}

#[test]
fn edit_handler_reports_an_unknown_id() {
    let mut db = todo_db();
    create_todo_handler(&mut db, request("A", "x")).unwrap();
    let before = db.list(1, 10);
    let body = UpdateTodoSchema { title: Some("B".to_string()), content: None, completed: None };
    let (code, reply) = edit_todo_handler(KNOWN, &mut db, body).unwrap_err();
    assert_eq!(code, 404);
    assert_eq!(reply.status, "fail");
    assert_eq!(reply.message, format!("Todo with ID: {} not found", KNOWN_TEXT));
    assert_eq!(db.list(1, 10), before);
}

#[test]
fn delete_handler_removes_the_record() {
    let mut db = todo_db();
    let (_, created) = create_todo_handler(&mut db, request("A", "x")).unwrap();
    let id = bits(&created.data.todo.id);
    assert_eq!(delete_todo_handler(id, &mut db), Ok(204));
    let (code, body) = get_todo_handler(id, &db).unwrap_err();
    assert_eq!(code, 404);
    assert_eq!(
        body.message,
        format!("Todo with ID: {} not found", created.data.todo.id.unwrap())
    );
    assert_eq!(todo_list_handler(None, &db).results, 0);
}

#[test]
fn delete_handler_reports_an_unknown_id() {
    let mut db = todo_db();
    create_todo_handler(&mut db, request("A", "x")).unwrap();
    let (code, body) = delete_todo_handler(KNOWN, &mut db).unwrap_err();
    assert_eq!(code, 404);
    assert_eq!(body.status, "fail");
    assert_eq!(body.message, format!("Todo with ID: {} not found", KNOWN_TEXT));
    assert_eq!(todo_list_handler(None, &db).results, 1);
}

#[test]
fn handlers_in_turn_each_see_the_last_state() {
    let mut db = todo_db();
    let (_, created) = create_todo_handler(&mut db, request("A", "x")).unwrap();
    let id = bits(&created.data.todo.id);
    let rename = UpdateTodoSchema { title: Some("B".to_string()), content: None, completed: None };
    edit_todo_handler(id, &mut db, rename.clone()).unwrap();
    assert!(create_todo_handler(&mut db, request("B", "")).is_err());
    assert!(create_todo_handler(&mut db, request("A", "")).is_ok());
    assert_eq!(delete_todo_handler(id, &mut db), Ok(204));
    assert_eq!(edit_todo_handler(id, &mut db, rename).unwrap_err().0, 404);
    assert_eq!(delete_todo_handler(id, &mut db).unwrap_err().0, 404);
}
