//! What the todo queries decide before and after they reach the database:
//! the statement that lists a user's todos, and the check that a write
//! touched exactly one row.
use vstd::prelude::*;
use vstd::string::StringExecFns;
use crate::http::errors::{AppError, DbError};
use crate::http::modules::QueryFilter;
use crate::text::{append, trim, trimmed};

verus! {

/// One step in building a statement: a piece of SQL text, or a value bound
/// to the next placeholder.
pub enum QueryPiece {
    Sql(String),
    BindId(u128),
    BindBool(bool),
    BindText(String),
    BindInt(i64),
}

/// A `QueryPiece` seen as plain values.
pub enum PieceView {
    Sql(Seq<char>),
    BindId(u128),
    BindBool(bool),
    BindText(Seq<char>),
    BindInt(i64),
}

impl View for QueryPiece {
    type V = PieceView;

    open spec fn view(&self) -> PieceView {
        match self {
            QueryPiece::Sql(s) => PieceView::Sql(s@),
            QueryPiece::BindId(v) => PieceView::BindId(*v),
            QueryPiece::BindBool(b) => PieceView::BindBool(*b),
            QueryPiece::BindText(s) => PieceView::BindText(s@),
            QueryPiece::BindInt(v) => PieceView::BindInt(*v),
        }
    }
}

/// A statement, as the ordered steps that build it.
pub struct ListQuery {
    pub pieces: Vec<QueryPiece>,
}

impl View for ListQuery {
    type V = Seq<PieceView>;

    open spec fn view(&self) -> Seq<PieceView> {
        self.pieces@.map_values(|p: QueryPiece| p@)
    }
}

/// The largest page size, plus one.
pub const LIMIT_BOUND: u32 = 100;

/// A page size that the list query accepts: from 1 to 99.
pub open spec fn limit_accepted(limit: u32) -> bool {
    1 <= limit && limit < LIMIT_BOUND
}

/// The filter has a search text that is blank once trimmed.
pub open spec fn search_blank(f: QueryFilter) -> bool {
    f.search matches Some(s) && trimmed(s@).len() == 0
}

pub open spec fn sql_select() -> Seq<char> {
    "SELECT id, user_id, title, completed, created_at FROM todos WHERE user_id = "@
}

pub open spec fn sql_completed() -> Seq<char> {
    " AND completed = "@
}

pub open spec fn sql_search() -> Seq<char> {
    " AND title ILIKE "@
}

pub open spec fn sql_order() -> Seq<char> {
    " ORDER BY created_at DESC"@
}

pub open spec fn sql_limit() -> Seq<char> {
    " LIMIT "@
}

pub open spec fn sql_offset() -> Seq<char> {
    " OFFSET "@
}

pub open spec fn msg_limit() -> Seq<char> {
    "limit to big"@
}

pub open spec fn msg_search() -> Seq<char> {
    "invalid search"@
}

/// The `ILIKE` pattern that matches titles containing `s`.
pub open spec fn contains_pattern(s: Seq<char>) -> Seq<char> {
    seq!['%'] + s + seq!['%']
}

/// The condition on the completion state, if the filter has one.
pub open spec fn state_pieces(f: QueryFilter) -> Seq<PieceView> {
    match f.completed {
        Some(c) => seq![PieceView::Sql(sql_completed()), PieceView::BindBool(c)],
        None => Seq::empty(),
    }
}

/// The condition on the title, if the filter has a search text.
pub open spec fn title_pieces(f: QueryFilter) -> Seq<PieceView> {
    match f.search {
        Some(s) => seq![
            PieceView::Sql(sql_search()),
            PieceView::BindText(contains_pattern(trimmed(s@))),
        ],
        None => Seq::empty(),
    }
}

/// The steps of the statement that lists the todos of `user_id` under `f`:
/// the user's rows, optionally only those with the given completion state
/// and those whose title contains the trimmed search text, newest first,
/// one page.
pub open spec fn list_pieces(user_id: u128, f: QueryFilter) -> Seq<PieceView> {
    let head = seq![PieceView::Sql(sql_select()), PieceView::BindId(user_id)];
    let by_state = state_pieces(f);
    let by_title = title_pieces(f);
    let page = seq![
        PieceView::Sql(sql_order()),
        PieceView::Sql(sql_limit()),
        PieceView::BindInt(f.limit as i64),
        PieceView::Sql(sql_offset()),
        PieceView::BindInt(f.offset as i64),
    ];
    head + by_state + by_title + page
}

/// Succeeds exactly when one row was affected; otherwise the row was not
/// found.
pub fn expect_one_row(rows_affected: u64) -> (r: Result<(), DbError>)
    ensures
        r is Ok <==> rows_affected == 1,
        r matches Err(e) ==> e is RowNotFound,
{
    if rows_affected == 1 {
        Ok(())
    } else {
        Err(DbError::RowNotFound)
    }
}

/// The statement that lists the todos of `user_id` under `filter`. It is
/// refused when the page size is not from 1 to 99, or when the search text
/// is blank.
pub fn list_query(user_id: u128, filter: &QueryFilter) -> (r: Result<ListQuery, AppError>)
    ensures
        !limit_accepted(filter.limit) ==> (r matches Err(AppError::Database(
            DbError::InvalidArgument(m),
        )) && m@ == msg_limit()),
        limit_accepted(filter.limit) && search_blank(*filter) ==> (r matches Err(
            AppError::Database(DbError::InvalidArgument(m)),
        ) && m@ == msg_search()),
        limit_accepted(filter.limit) && !search_blank(*filter) ==> (r matches Ok(q) && q@
            == list_pieces(user_id, *filter)),
{
    if !(1 <= filter.limit && filter.limit < LIMIT_BOUND) {
        return Err(AppError::Database(DbError::InvalidArgument(String::from_str("limit to big"))));
    }
    let mut pieces: Vec<QueryPiece> = Vec::new();
    pieces.push(QueryPiece::Sql(String::from_str(
        "SELECT id, user_id, title, completed, created_at FROM todos WHERE user_id = ",
    )));
    pieces.push(QueryPiece::BindId(user_id));
    let ghost head = seq![PieceView::Sql(sql_select()), PieceView::BindId(user_id)];
    assert(pieces@.map_values(|p: QueryPiece| p@) =~= head);
    if let Some(completed) = filter.completed {
        pieces.push(QueryPiece::Sql(String::from_str(" AND completed = ")));
        pieces.push(QueryPiece::BindBool(completed));
    }
    let ghost by_state = state_pieces(*filter);
    assert(pieces@.map_values(|p: QueryPiece| p@) =~= head + by_state);
    if let Some(text) = &filter.search {
        let search = trim(text.as_str());
        if !search.is_empty() {
            pieces.push(QueryPiece::Sql(String::from_str(" AND title ILIKE ")));
            proof {
                reveal_strlit("%");
            }
            let mut pattern = String::from_str("%");
            append(&mut pattern, search);
            append(&mut pattern, "%");
            assert("%"@ =~= seq!['%']);
            assert(pattern@ =~= contains_pattern(trimmed(text@)));
            pieces.push(QueryPiece::BindText(pattern));
        } else {
            return Err(AppError::Database(DbError::InvalidArgument(String::from_str("invalid search"))));
        }
    }
    let ghost by_title = title_pieces(*filter);
    assert(pieces@.map_values(|p: QueryPiece| p@) =~= head + by_state + by_title);
    pieces.push(QueryPiece::Sql(String::from_str(" ORDER BY created_at DESC")));
    pieces.push(QueryPiece::Sql(String::from_str(" LIMIT ")));
    pieces.push(QueryPiece::BindInt(filter.limit as i64));
    pieces.push(QueryPiece::Sql(String::from_str(" OFFSET ")));
    pieces.push(QueryPiece::BindInt(filter.offset as i64));
    let q = ListQuery { pieces };
    assert(q@ =~= list_pieces(user_id, *filter));
    Ok(q)
}

/// Every list statement selects the rows of the requesting user only: it
/// opens with the condition `WHERE user_id =` bound to that user, and binds
/// no other identifier.
pub proof fn law_list_is_scoped_to_user(user_id: u128, f: QueryFilter)
    ensures
        list_pieces(user_id, f).len() >= 2,
        list_pieces(user_id, f)[0] == PieceView::Sql(sql_select()),
        list_pieces(user_id, f)[1] == PieceView::BindId(user_id),
        forall|i: int|
            2 <= i < list_pieces(user_id, f).len() ==> !(#[trigger] list_pieces(user_id, f)[i] is BindId),
{
    let p = list_pieces(user_id, f);
    let head = seq![PieceView::Sql(sql_select()), PieceView::BindId(user_id)];
    let rest = state_pieces(f) + title_pieces(f) + seq![
        PieceView::Sql(sql_order()),
        PieceView::Sql(sql_limit()),
        PieceView::BindInt(f.limit as i64),
        PieceView::Sql(sql_offset()),
        PieceView::BindInt(f.offset as i64),
    ];
    assert(p =~= head + rest);
    assert forall|i: int| 2 <= i < p.len() implies !(#[trigger] p[i] is BindId) by {
        assert(p[i] == rest[i - 2]);
    }
}

/// The conditions of an accepted list statement: the title condition
/// `" AND title ILIKE "` bound to `%<trimmed search>%` stands in it exactly
/// when the filter has a search text, whatever the completion filter; the
/// condition `" AND completed = "` bound to the state stands in it exactly
/// when the filter has a state, whatever the search; and it ends with the
/// newest-first order and the page: `LIMIT` bound to the limit, `OFFSET`
/// bound to the offset.
pub proof fn law_list_conditions(user_id: u128, f: QueryFilter)
    ensures
        f.search matches Some(s) ==> exists|i: int|
            0 <= i && i + 1 < list_pieces(user_id, f).len() && #[trigger] list_pieces(user_id, f)[i]
                == PieceView::Sql(" AND title ILIKE "@) && list_pieces(user_id, f)[i + 1]
                == PieceView::BindText(seq!['%'] + trimmed(s@) + seq!['%']),
        f.search is None ==> forall|i: int|
            0 <= i < list_pieces(user_id, f).len() ==> !(#[trigger] list_pieces(user_id, f)[i] is BindText),
        f.completed matches Some(c) ==> exists|i: int|
            0 <= i && i + 1 < list_pieces(user_id, f).len() && #[trigger] list_pieces(user_id, f)[i]
                == PieceView::Sql(" AND completed = "@) && list_pieces(user_id, f)[i + 1]
                == PieceView::BindBool(c),
        f.completed is None ==> forall|i: int|
            0 <= i < list_pieces(user_id, f).len() ==> !(#[trigger] list_pieces(user_id, f)[i] is BindBool),
        ({
            let p = list_pieces(user_id, f);
            let n = p.len() as int;
            &&& n >= 7
            &&& p[n - 5] == PieceView::Sql(" ORDER BY created_at DESC"@)
            &&& p[n - 4] == PieceView::Sql(" LIMIT "@)
            &&& p[n - 3] == PieceView::BindInt(f.limit as i64)
            &&& p[n - 2] == PieceView::Sql(" OFFSET "@)
            &&& p[n - 1] == PieceView::BindInt(f.offset as i64)
        }),
{
    let p = list_pieces(user_id, f);
    let head = seq![PieceView::Sql(sql_select()), PieceView::BindId(user_id)];
    let st = state_pieces(f);
    let ti = title_pieces(f);
    let page = seq![
        PieceView::Sql(sql_order()),
        PieceView::Sql(sql_limit()),
        PieceView::BindInt(f.limit as i64),
        PieceView::Sql(sql_offset()),
        PieceView::BindInt(f.offset as i64),
    ];
    assert(p =~= head + st + ti + page);
    let n = p.len() as int;
    assert(p[n - 5] == page[0]);
    assert(p[n - 4] == page[1]);
    assert(p[n - 3] == page[2]);
    assert(p[n - 2] == page[3]);
    assert(p[n - 1] == page[4]);
    if let Some(s) = f.search {
        let i: int = 2 + st.len() as int;
        assert(p[i] == ti[0]);
        assert(p[i + 1] == ti[1]);
    } else {
        assert forall|i: int| 0 <= i < p.len() implies !(#[trigger] p[i] is BindText) by {
            if i >= 2 && i < 2 + st.len() {
                assert(p[i] == st[i - 2]);
            } else if i >= 2 + st.len() {
                assert(p[i] == page[i - 2 - st.len()]);
            }
        }
    }
    if let Some(c) = f.completed {
        assert(p[2] == st[0]);
        assert(p[3] == st[1]);
    } else {
        assert forall|i: int| 0 <= i < p.len() implies !(#[trigger] p[i] is BindBool) by {
            if i >= 2 && i < 2 + ti.len() {
                assert(p[i] == ti[i - 2]);
            } else if i >= 2 + ti.len() {
                assert(p[i] == page[i - 2 - ti.len()]);
            }
        }
    }
}

} // verus!
