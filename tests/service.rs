use task_api::handlers::{
    create_task, delete_task, get_all_tasks, get_task, health_checker, parse_id, update_task,
};
use task_api::ident::{parse_task_id, task_id_text};
use task_api::model::TaskModel;
use task_api::response::{ApiError, Body};
use task_api::schema::{CreateTaskSchema, FilterOptions, PageWindow, UpdateTaskSchema};
use task_api::store::MemoryStore;

fn new_task(title: &str, content: &str) -> CreateTaskSchema {
    CreateTaskSchema { title: title.to_string(), content: content.to_string() }
}

fn task_of(body: &Body) -> &TaskModel {
    match body {
        Body::Task(t) => t,
        other => panic!("expected a task, got {:?}", other),
    }
}

fn titles_of(body: &Body) -> Vec<String> {
    match body {
        Body::TaskList { result, tasks } => {
            assert_eq!(*result, tasks.len());
            tasks.iter().map(|t| t.title.clone()).collect()
        }
        other => panic!("expected a list, got {:?}", other),
    }
}

fn store_with(n: usize) -> MemoryStore {
    let mut s = MemoryStore::new();
    for i in 0..n {
        let r = create_task(&mut s, &new_task(&format!("row {}", i + 1), "c"), 1000 + i as i64);
        assert_eq!(r.status, 200);
    }
    s
}

#[test]
fn task_lifecycle_scenario() {
    let mut s = MemoryStore::new();
    let created = create_task(&mut s, &new_task("buy milk", "2% milk"), 5);
    assert_eq!(created.status, 200);
    let t = task_of(&created.body);
    assert_eq!(t.title, "buy milk");
    assert_eq!(t.content, "2% milk");
    let id = task_id_text(t.id);
    assert_eq!(id.len(), 36);

    let got = get_task(&s, &id);
    assert_eq!(got.status, 200);
    let g = task_of(&got.body);
    assert_eq!((g.id, &g.title, &g.content, g.created_at), (t.id, &t.title, &t.content, t.created_at));

    let patch = UpdateTaskSchema { title: None, content: Some("whole milk".to_string()) };
    let upd = update_task(&mut s, &id, &patch);
    assert_eq!(upd.status, 200);
    let u = task_of(&upd.body);
    assert_eq!(u.title, "buy milk");
    assert_eq!(u.content, "whole milk");

    let del = delete_task(&mut s, &id);
    assert_eq!(del.status, 204);
    assert!(matches!(del.body, Body::Empty));
    assert_eq!(del.body.status_word(), "success");

    let gone = get_task(&s, &id);
    assert_eq!(gone.status, 404);
    assert!(matches!(gone.body, Body::Fail(_)));
    assert_eq!(gone.body.status_word(), "fail");
}

#[test]
fn paging_scenario() {
    let s = store_with(5);
    let first = get_all_tasks(&s, &FilterOptions { page: Some(1), limit: Some(2) });
    assert_eq!(first.status, 200);
    assert_eq!(titles_of(&first.body), vec!["row 1", "row 2"]);
    let third = get_all_tasks(&s, &FilterOptions { page: Some(3), limit: Some(2) });
    assert_eq!(titles_of(&third.body), vec!["row 5"]);
    let fourth = get_all_tasks(&s, &FilterOptions { page: Some(4), limit: Some(2) });
    assert_eq!(fourth.status, 200);
    assert!(titles_of(&fourth.body).is_empty());
}

#[test]
fn consecutive_pages_neither_overlap_nor_skip() {
    let s = store_with(7);
    let mut seen: Vec<u128> = Vec::new();
    for page in 1..=4 {
        let w = FilterOptions { page: Some(page), limit: Some(3) }.window().unwrap();
        let rows = s.list(w);
        assert!(rows.len() <= 3);
        for r in rows {
            if let Some(last) = seen.last() {
                assert!(*last < r.id);
            }
            seen.push(r.id);
        }
    }
    assert_eq!(seen.len(), 7);
}

#[test]
fn window_defaults_and_clamps() {
    let w = FilterOptions { page: None, limit: None }.window().unwrap();
    assert_eq!(w, PageWindow { limit: 10, offset: 0 });
    let w = FilterOptions { page: Some(0), limit: Some(5) }.window().unwrap();
    assert_eq!(w, PageWindow { limit: 5, offset: 0 });
    let w = FilterOptions { page: Some(3), limit: Some(4) }.window().unwrap();
    assert_eq!(w, PageWindow { limit: 4, offset: 8 });
    let w = FilterOptions { page: Some(2), limit: None }.window().unwrap();
    assert_eq!(w, PageWindow { limit: 10, offset: 10 });
}

#[test]
fn window_too_large_is_rejected() {
    let big = FilterOptions { page: Some(usize::MAX), limit: Some(usize::MAX) };
    assert!(matches!(big.window(), Err(ApiError::Validation(_))));
    let r = get_all_tasks(&MemoryStore::new(), &big);
    assert_eq!(r.status, 400);
    assert_eq!(r.body.status_word(), "fail");
}

#[test]
fn create_returns_submitted_fields_and_fresh_ids() {
    let mut s = MemoryStore::new();
    let a = s.create("a", "first", 10).unwrap();
    let b = s.create("b", "second", 3).unwrap();
    assert_ne!(a.id, 0);
    assert!(a.id < b.id);
    assert_eq!((a.title.as_str(), a.content.as_str()), ("a", "first"));
    assert_eq!(a.created_at, Some(10));
    // a clock that went back does not make a later task older
    assert_eq!(b.created_at, Some(10));
}

#[test]
fn create_with_empty_title_is_rejected() {
    let mut s = MemoryStore::new();
    let r = create_task(&mut s, &new_task("", "x"), 0);
    assert_eq!(r.status, 400);
    assert!(matches!(r.body, Body::Fail(_)));
    let all = get_all_tasks(&s, &FilterOptions { page: None, limit: None });
    assert!(titles_of(&all.body).is_empty());
}

#[test]
fn get_after_create_is_equal() {
    let mut s = MemoryStore::new();
    let t = s.create("t", "c", 42).unwrap();
    let g = s.get_by_id(t.id).unwrap();
    assert_eq!((g.id, g.title, g.content, g.created_at), (t.id, t.title, t.content, t.created_at));
}

#[test]
fn update_title_keeps_content() {
    let mut s = MemoryStore::new();
    let t = s.create("old", "Y", 1).unwrap();
    let patch = UpdateTaskSchema { title: Some("X".to_string()), content: None };
    let u = s.update(t.id, &patch).unwrap();
    assert_eq!(u.title, "X");
    assert_eq!(u.content, "Y");
    assert_eq!(u.created_at, t.created_at);
}

#[test]
fn empty_update_changes_nothing() {
    let mut s = MemoryStore::new();
    let t = s.create("keep", "me", 7).unwrap();
    let patch = UpdateTaskSchema { title: None, content: None };
    let u = s.update(t.id, &patch).unwrap();
    assert_eq!((u.id, u.title, u.content, u.created_at), (t.id, t.title, t.content, t.created_at));
}

#[test]
fn delete_then_get_is_not_found() {
    let mut s = MemoryStore::new();
    let t = s.create("x", "y", 0).unwrap();
    assert!(s.delete(t.id).is_ok());
    assert!(matches!(s.get_by_id(t.id), Err(ApiError::NotFound(_))));
    assert!(matches!(s.delete(t.id), Err(ApiError::NotFound(_))));
    assert!(matches!(s.update(t.id, &UpdateTaskSchema { title: None, content: None }), Err(ApiError::NotFound(_))));
}

#[test]
fn malformed_identifier_is_rejected() {
    let mut s = store_with(1);
    assert!(matches!(parse_id("not-a-uuid"), Err(ApiError::Validation(_))));
    assert_eq!(get_task(&s, "12345").status, 400);
    assert_eq!(delete_task(&mut s, "zz").status, 400);
    let patch = UpdateTaskSchema { title: Some("x".to_string()), content: None };
    assert_eq!(update_task(&mut s, "", &patch).status, 400);
}

#[test]
fn unknown_identifier_is_not_found() {
    let mut s = store_with(2);
    let id = "550e8400-e29b-41d4-a716-446655440000";
    assert_eq!(get_task(&s, id).status, 404);
    assert_eq!(delete_task(&mut s, id).status, 404);
    let r = update_task(&mut s, id, &UpdateTaskSchema { title: None, content: None });
    assert_eq!(r.status, 404);
    match r.body {
        Body::Fail(m) => assert_eq!(m, format!("Task with ID: {} not found", id)),
        other => panic!("unexpected {:?}", other),
    }
}

#[test]
fn identifier_text_round_trip() {
    let v = parse_task_id("550e8400-e29b-41d4-a716-446655440000").unwrap();
    assert_eq!(v, 0x550e8400_e29b_41d4_a716_446655440000u128);
    assert_eq!(task_id_text(1), "00000000-0000-0000-0000-000000000001");
    assert_eq!(task_id_text(v), "550e8400-e29b-41d4-a716-446655440000");
    assert_eq!(parse_task_id("550E8400-E29B-41D4-A716-446655440000"), Some(v));
    assert_eq!(parse_task_id("550e8400-e29b-41d4-a716"), None);
}

#[test]
fn error_status_codes() {
    assert_eq!(ApiError::Validation(String::new()).status_code(), 400);
    assert_eq!(ApiError::NotFound(String::new()).status_code(), 404);
    assert_eq!(ApiError::Storage(String::new()).status_code(), 500);
    let r = task_api::response::error_response(ApiError::Storage("down".to_string()));
    assert_eq!(r.status, 500);
    assert_eq!(r.body.status_word(), "error");
}

#[test]
fn health_check_message() {
    let r = health_checker();
    assert_eq!(r.status, 200);
    match r.body {
        Body::Message(m) => assert_eq!(m, "Health check: API is up and running smoothly."),
        other => panic!("unexpected {:?}", other),
    }
}
