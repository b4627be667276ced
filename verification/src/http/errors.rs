//! Errors that a request can end in, and the HTTP answer to each.
use vstd::prelude::*;
use vstd::string::StringExecFns;
use crate::text::{append, json_string, json_string_literal};

verus! {

/// What the database layer reports when a statement does not go through.
#[derive(Debug)]
pub enum DbError {
    /// No row, or not exactly the one row, was affected or returned.
    RowNotFound,
    /// The statement was refused before it reached the database.
    InvalidArgument(String),
    /// Any other failure, with the driver's description of it.
    Other(String),
}

/// The errors a request handler can end in.
#[derive(Debug)]
pub enum AppError {
    BadRequest(String),
    NotFound,
    Unauthorized,
    InternalError,
    Database(DbError),
}

/// An HTTP answer to a failed request: status code and JSON body.
pub struct ErrorResponse {
    pub status: u16,
    pub body: String,
}

pub open spec fn lit_not_found() -> Seq<char> {
    seq!['n', 'o', 't', ' ', 'f', 'o', 'u', 'n', 'd']
}

pub open spec fn lit_unauthorized() -> Seq<char> {
    seq!['u', 'n', 'a', 'u', 't', 'h', 'o', 'r', 'i', 'z', 'e', 'd']
}

pub open spec fn lit_internal_server_error() -> Seq<char> {
    seq!['i', 'n', 't', 'e', 'r', 'n', 'a', 'l', ' ', 's', 'e', 'r', 'v', 'e', 'r', ' ', 'e',
        'r', 'r', 'o', 'r']
}

/// The status code that answers `e`.
pub open spec fn status_of(e: AppError) -> u16 {
    match e {
        AppError::BadRequest(_) => 400,
        AppError::NotFound => 404,
        AppError::Unauthorized => 401,
        AppError::InternalError => 500,
        AppError::Database(_) => 500,
    }
}

/// The message that the answer to `e` shows the client.
pub open spec fn client_message(e: AppError) -> Seq<char> {
    match e {
        AppError::BadRequest(msg) => msg@,
        AppError::NotFound => lit_not_found(),
        AppError::Unauthorized => lit_unauthorized(),
        AppError::InternalError => lit_internal_server_error(),
        AppError::Database(_) => lit_internal_server_error(),
    }
}

/// The JSON object `{"error":<message>}`.
pub open spec fn error_body(message: Seq<char>) -> Seq<char> {
    seq!['{', '"', 'e', 'r', 'r', 'o', 'r', '"', ':'] + json_string(message) + seq!['}']
}

impl AppError {
    /// The HTTP answer to this error: its status code and the body
    /// `{"error": message}`. A database error answers 500 and never shows the
    /// client what the database said.
    pub fn into_response(self) -> (r: ErrorResponse)
        ensures
            r.status == status_of(self),
            r.body@ == error_body(client_message(self)),
    {
        proof {
            reveal_strlit("not found");
            reveal_strlit("unauthorized");
            reveal_strlit("internal server error");
            reveal_strlit("{\"error\":");
            reveal_strlit("}");
        }
        let (status, message): (u16, String) = match self {
            AppError::BadRequest(msg) => (400, msg),
            AppError::NotFound => (404, String::from_str("not found")),
            AppError::Unauthorized => (401, String::from_str("unauthorized")),
            AppError::InternalError => (500, String::from_str("internal server error")),
            AppError::Database(_) => (500, String::from_str("internal server error")),
        };
        let mut body = String::from_str("{\"error\":");
        let quoted = json_string_literal(message.as_str());
        append(&mut body, quoted.as_str());
        append(&mut body, "}");
        assert("{\"error\":"@ =~= seq!['{', '"', 'e', 'r', 'r', 'o', 'r', '"', ':']);
        assert("}"@ =~= seq!['}']);
        assert(message@ == client_message(self));
        ErrorResponse { status, body }
    }
}

} // verus!
