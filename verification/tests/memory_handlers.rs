use todo_api::handlers::{check_update, create, delete_one, get_all, get_one, update};
use todo_api::http::errors::AppError;
use todo_api::http::modules::Timestamp;
use todo_api::modules::{Todo, TodoCreate, TodoResponse, TodoUpdate};

fn todo(id: u128, title: &str) -> Todo {
    Todo { id, title: title.to_string(), completed: false, created_at: Timestamp { secs: 100, nanos: 0 } }
}

#[test]
fn get_one_answers_the_item_or_not_found() {
    let r = get_one(Some(todo(3, "a"))).ok().unwrap();
    assert_eq!(r.id, 3);
    assert_eq!(r.title, "a");
    assert_eq!(r.time, Timestamp { secs: 100, nanos: 0 });
    assert!(matches!(get_one(None), Err(AppError::NotFound)));
}

#[test]
fn create_refuses_blank_titles() {
    assert!(matches!(create(&TodoCreate { title: "milk".to_string() }), Ok(201)));
    for t in ["", "  ", "\n\t"] {
        match create(&TodoCreate { title: t.to_string() }) {
            Err(AppError::BadRequest(m)) => assert_eq!(m, "title cannot be empty"),
            _ => panic!("blank title accepted"),
        }
    }
}

#[test]
fn get_all_keeps_the_order() {
    let r: Vec<TodoResponse> = get_all(vec![todo(1, "a"), todo(2, "b"), todo(3, "c")]);
    let ids: Vec<u128> = r.iter().map(|t| t.id).collect();
    assert_eq!(ids, vec![1, 2, 3]);
    assert!(get_all(vec![]).is_empty());
}

#[test]
fn delete_and_update_answer_by_the_store() {
    assert!(matches!(delete_one(true), Ok(204)));
    assert!(matches!(delete_one(false), Err(AppError::NotFound)));
    assert!(matches!(update(true), Ok(200)));
    assert!(matches!(update(false), Err(AppError::NotFound)));
}

#[test]
fn update_refuses_a_blank_new_title() {
    assert!(check_update(&TodoUpdate { title: None, completed: Some(true) }).is_ok());
    assert!(check_update(&TodoUpdate { title: Some("x".to_string()), completed: None }).is_ok());
    match check_update(&TodoUpdate { title: Some(" ".to_string()), completed: None }) {
        Err(AppError::BadRequest(m)) => assert_eq!(m, "title cannot be empty"),
        _ => panic!("blank title accepted"),
    }
}
