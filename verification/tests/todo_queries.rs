use todo_api::http::db::{expect_one_row, list_query, QueryPiece};
use todo_api::http::errors::{AppError, DbError};
use todo_api::http::modules::{QueryFilter, Queryfr, Timestamp, Todo, TodoCreate, TodoResponse};

const USER: u128 = 0x0123_4567_89ab_cdef_0123_4567_89ab_cdef;

fn filter(limit: u32, offset: u32, search: Option<&str>, completed: Option<bool>) -> QueryFilter {
    QueryFilter { offset, limit, search: search.map(|s| s.to_string()), completed }
}

fn sql(p: &QueryPiece) -> Option<&str> {
    match p {
        QueryPiece::Sql(s) => Some(s.as_str()),
        _ => None,
    }
}

#[test]
fn one_row_affected_is_success() {
    assert!(expect_one_row(1).is_ok());
    assert!(matches!(expect_one_row(0), Err(DbError::RowNotFound)));
    assert!(matches!(expect_one_row(2), Err(DbError::RowNotFound)));
}

#[test]
fn query_filter_fills_in_defaults() {
    let f = QueryFilter::from(Queryfr { offset: None, limit: None, search: None, completed: None });
    assert_eq!(f.offset, 0);
    assert_eq!(f.limit, 10);
    assert!(f.search.is_none());
    assert!(f.completed.is_none());
    let f = QueryFilter::from(Queryfr {
        offset: Some(20),
        limit: Some(5),
        search: Some("milk".to_string()),
        completed: Some(true),
    });
    assert_eq!(f.offset, 20);
    assert_eq!(f.limit, 5);
    assert_eq!(f.search.as_deref(), Some("milk"));
    assert_eq!(f.completed, Some(true));
}

#[test]
fn todo_response_keeps_every_field() {
    let t = Todo {
        id: 5,
        user_id: USER,
        title: "buy milk".to_string(),
        completed: true,
        created_at: Timestamp { secs: 1_700_000_000, nanos: 42 },
    };
    let r = TodoResponse::from(t);
    assert_eq!(r.id, 5);
    assert_eq!(r.user_id, USER);
    assert_eq!(r.title, "buy milk");
    assert!(r.completed);
    assert_eq!(r.created_at, Timestamp { secs: 1_700_000_000, nanos: 42 });
}

#[test]
fn list_query_refuses_page_sizes_out_of_range() {
    for limit in [0u32, 100, 1000, u32::MAX] {
        match list_query(USER, &filter(limit, 0, None, None)) {
            Err(AppError::Database(DbError::InvalidArgument(m))) => assert_eq!(m, "limit to big"),
            _ => panic!("limit {} accepted", limit),
        }
    }
    assert!(list_query(USER, &filter(1, 0, None, None)).is_ok());
    assert!(list_query(USER, &filter(99, 0, None, None)).is_ok());
}

#[test]
fn list_query_refuses_blank_search() {
    for search in ["", "   ", "\t\n", "\u{3000}"] {
        match list_query(USER, &filter(10, 0, Some(search), None)) {
            Err(AppError::Database(DbError::InvalidArgument(m))) => assert_eq!(m, "invalid search"),
            _ => panic!("blank search {:?} accepted", search),
        }
    }
}

#[test]
fn list_query_checks_the_limit_before_the_search() {
    match list_query(USER, &filter(0, 0, Some("  "), None)) {
        Err(AppError::Database(DbError::InvalidArgument(m))) => assert_eq!(m, "limit to big"),
        _ => panic!("expected the limit error"),
    }
}

#[test]
fn list_query_of_plain_filter() {
    let q = list_query(USER, &filter(10, 0, None, None)).ok().unwrap();
    assert_eq!(q.pieces.len(), 7);
    assert_eq!(
        sql(&q.pieces[0]),
        Some("SELECT id, user_id, title, completed, created_at FROM todos WHERE user_id = ")
    );
    assert!(matches!(q.pieces[1], QueryPiece::BindId(USER)));
    assert_eq!(sql(&q.pieces[2]), Some(" ORDER BY created_at DESC"));
    assert_eq!(sql(&q.pieces[3]), Some(" LIMIT "));
    assert!(matches!(q.pieces[4], QueryPiece::BindInt(10)));
    assert_eq!(sql(&q.pieces[5]), Some(" OFFSET "));
    assert!(matches!(q.pieces[6], QueryPiece::BindInt(0)));
}

#[test]
fn list_query_with_state_and_search() {
    let q = list_query(USER, &filter(25, 50, Some("  buy milk \n"), Some(false))).ok().unwrap();
    assert_eq!(q.pieces.len(), 11);
    assert!(matches!(q.pieces[1], QueryPiece::BindId(USER)));
    assert_eq!(sql(&q.pieces[2]), Some(" AND completed = "));
    assert!(matches!(q.pieces[3], QueryPiece::BindBool(false)));
    assert_eq!(sql(&q.pieces[4]), Some(" AND title ILIKE "));
    match &q.pieces[5] {
        QueryPiece::BindText(t) => assert_eq!(t, "%buy milk%"),
        _ => panic!("expected the search pattern"),
    }
    assert_eq!(sql(&q.pieces[6]), Some(" ORDER BY created_at DESC"));
    assert!(matches!(q.pieces[8], QueryPiece::BindInt(25)));
    assert!(matches!(q.pieces[10], QueryPiece::BindInt(50)));
}

#[test]
fn new_items_are_not_completed_unless_asked() {
    let (t, c) = TodoCreate { title: "a".to_string(), completed: None }.into_fields();
    assert_eq!(t, "a");
    assert!(!c);
    let (_, c) = TodoCreate { title: "a".to_string(), completed: Some(true) }.into_fields();
    assert!(c);
}
