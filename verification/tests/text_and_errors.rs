use todo_api::http::errors::{AppError, DbError};
use todo_api::text::{bool_string, decimal_text};

#[test]
fn decimal_text_writes_numerals() {
    assert_eq!(decimal_text(0), "0");
    assert_eq!(decimal_text(7), "7");
    assert_eq!(decimal_text(10), "10");
    assert_eq!(decimal_text(1234567890), "1234567890");
    assert_eq!(decimal_text(u64::MAX), "18446744073709551615");
}

#[test]
fn bool_string_writes_words() {
    assert_eq!(bool_string(true), "true");
    assert_eq!(bool_string(false), "false");
}

#[test]
fn bad_request_answers_400_with_its_message() {
    let r = AppError::BadRequest("title cannot be empty".to_string()).into_response();
    assert_eq!(r.status, 400);
    assert_eq!(r.body, "{\"error\":\"title cannot be empty\"}");
}

#[test]
fn bad_request_message_is_escaped_as_json() {
    let r = AppError::BadRequest("say \"hi\"\\\n\u{1}".to_string()).into_response();
    assert_eq!(r.status, 400);
    assert_eq!(r.body, "{\"error\":\"say \\\"hi\\\"\\\\\\n\\u0001\"}");
}

#[test]
fn not_found_answers_404() {
    let r = AppError::NotFound.into_response();
    assert_eq!(r.status, 404);
    assert_eq!(r.body, "{\"error\":\"not found\"}");
}

#[test]
fn unauthorized_answers_401() {
    let r = AppError::Unauthorized.into_response();
    assert_eq!(r.status, 401);
    assert_eq!(r.body, "{\"error\":\"unauthorized\"}");
}

#[test]
fn internal_error_answers_500() {
    let r = AppError::InternalError.into_response();
    assert_eq!(r.status, 500);
    assert_eq!(r.body, "{\"error\":\"internal server error\"}");
}

#[test]
fn database_error_answers_500_without_details() {
    let r = AppError::Database(DbError::Other("password authentication failed".to_string()))
        .into_response();
    assert_eq!(r.status, 500);
    assert_eq!(r.body, "{\"error\":\"internal server error\"}");
    let r = AppError::Database(DbError::RowNotFound).into_response();
    assert_eq!(r.status, 500);
    assert_eq!(r.body, "{\"error\":\"internal server error\"}");
}
