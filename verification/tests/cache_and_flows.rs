use todo_api::http::db::QueryPiece;
use todo_api::http::errors::{AppError, DbError};
use todo_api::http::handlers::{
    invalidation_pattern, list_cache_key, write_step, CacheSweep, ListAction, ListEvent,
    ListRequest, SweepStep, WriteAction, WriteEvent, WriteKind, SCAN_COUNT,
};
use todo_api::http::modules::Queryfr;

const USER: u128 = 0x0123_4567_89ab_cdef_0123_4567_89ab_cdef;
const OTHER: u128 = 0x0123_4567_89ab_cdef_0123_4567_89ab_cdee;

fn params(limit: Option<u32>, offset: Option<u32>, search: Option<&str>, completed: Option<bool>) -> Queryfr {
    Queryfr { offset, limit, search: search.map(|s| s.to_string()), completed }
}

fn strings(v: &[&str]) -> Vec<String> {
    v.iter().map(|s| s.to_string()).collect()
}

#[test]
fn cache_key_spells_out_the_request() {
    assert_eq!(
        list_cache_key(USER, &params(Some(25), Some(50), Some("milk"), Some(true))),
        "todos:01234567-89ab-cdef-0123-456789abcdef:limit:25:offset:50:completed:true:search:milk"
    );
    assert_eq!(
        list_cache_key(0, &params(None, None, None, None)),
        "todos:00000000-0000-0000-0000-000000000000:limit:0:offset:0:completed:false:search:"
    );
}

#[test]
fn invalidation_pattern_covers_the_users_keys_only() {
    let pattern = invalidation_pattern(USER);
    assert_eq!(pattern, "todos:01234567-89ab-cdef-0123-456789abcdef*");
    let stem = &pattern[..pattern.len() - 1];
    let own = list_cache_key(USER, &params(Some(3), None, Some("x"), None));
    let theirs = list_cache_key(OTHER, &params(Some(3), None, Some("x"), None));
    assert!(own.starts_with(stem));
    assert!(!theirs.starts_with(stem));
}

#[test]
fn sweep_collects_every_page_then_deletes_once() {
    let sweep = CacheSweep::start(USER);
    assert_eq!(sweep.cursor(), 0);
    assert_eq!(sweep.pattern(), "todos:01234567-89ab-cdef-0123-456789abcdef*");
    assert_eq!(SCAN_COUNT, 100);
    let sweep = match sweep.scanned(17, strings(&["a", "b"])) {
        SweepStep::Scan(s) => s,
        _ => panic!("expected another scan"),
    };
    assert_eq!(sweep.cursor(), 17);
    let sweep = match sweep.scanned(4, vec![]) {
        SweepStep::Scan(s) => s,
        _ => panic!("expected another scan"),
    };
    assert_eq!(sweep.cursor(), 4);
    match sweep.scanned(0, strings(&["c"])) {
        SweepStep::Delete(keys) => assert_eq!(keys, strings(&["a", "b", "c"])),
        _ => panic!("expected the deletion"),
    }
}

#[test]
fn sweep_that_finds_nothing_deletes_nothing() {
    let sweep = CacheSweep::start(USER);
    assert!(matches!(sweep.scanned(0, vec![]), SweepStep::Done));
}

#[test]
fn write_succeeds_only_after_the_sweep() {
    assert!(matches!(write_step(WriteKind::Create, USER, WriteEvent::Stored(Ok(()))), WriteAction::Connect));
    match write_step(WriteKind::Create, USER, WriteEvent::Connected(true)) {
        WriteAction::Sweep(s) => assert_eq!(s.cursor(), 0),
        _ => panic!("expected the sweep"),
    }
    assert!(matches!(
        write_step(WriteKind::Create, USER, WriteEvent::Swept(true)),
        WriteAction::Respond(Ok(201))
    ));
    assert!(matches!(
        write_step(WriteKind::Update, USER, WriteEvent::Swept(true)),
        WriteAction::Respond(Ok(200))
    ));
    assert!(matches!(
        write_step(WriteKind::Delete, USER, WriteEvent::Swept(true)),
        WriteAction::Respond(Ok(204))
    ));
}

#[test]
fn write_failures_end_the_request() {
    assert!(matches!(
        write_step(WriteKind::Update, USER, WriteEvent::Stored(Err(DbError::RowNotFound))),
        WriteAction::Respond(Err(AppError::Database(DbError::RowNotFound)))
    ));
    assert!(matches!(
        write_step(WriteKind::Delete, USER, WriteEvent::Connected(false)),
        WriteAction::Respond(Err(AppError::InternalError))
    ));
    assert!(matches!(
        write_step(WriteKind::Create, USER, WriteEvent::Swept(false)),
        WriteAction::Respond(Err(AppError::InternalError))
    ));
}

#[test]
fn list_request_serves_a_cached_answer() {
    let (req, first) = ListRequest::start(USER, params(Some(5), None, None, None));
    assert!(matches!(first, ListAction::Connect));
    assert_eq!(req.key, "todos:01234567-89ab-cdef-0123-456789abcdef:limit:5:offset:0:completed:false:search:");
    match req.step(ListEvent::Connected(true)) {
        ListAction::ReadCache(k) => assert_eq!(k, req.key),
        _ => panic!("expected the cache read"),
    }
    match req.step(ListEvent::CacheRead(Some(Some("[]".to_string())))) {
        ListAction::DecodeCached(t) => assert_eq!(t, "[]"),
        _ => panic!("expected decoding"),
    }
    assert!(matches!(req.step(ListEvent::Decoded(true)), ListAction::ReturnCached));
    assert!(matches!(req.step(ListEvent::Decoded(false)), ListAction::Fail(AppError::InternalError)));
}

#[test]
fn list_request_fetches_and_caches_on_a_miss() {
    let (req, _) = ListRequest::start(USER, params(None, Some(10), None, Some(true)));
    match req.step(ListEvent::CacheRead(Some(None))) {
        ListAction::Fetch(q) => {
            assert!(matches!(q.pieces[1], QueryPiece::BindId(USER)));
            assert!(matches!(q.pieces[3], QueryPiece::BindBool(true)));
            assert!(matches!(q.pieces[6], QueryPiece::BindInt(10)));
            assert!(matches!(q.pieces[8], QueryPiece::BindInt(10)));
        }
        _ => panic!("expected the fetch"),
    }
    assert!(matches!(req.step(ListEvent::Fetched(Ok(()))), ListAction::Encode));
    match req.step(ListEvent::Encoded(Some("[1]".to_string()))) {
        ListAction::StoreCache(k, t, ttl) => {
            assert_eq!(k, req.key);
            assert_eq!(t, "[1]");
            assert_eq!(ttl, 60);
        }
        _ => panic!("expected the cache store"),
    }
    assert!(matches!(req.step(ListEvent::Stored(true)), ListAction::ReturnFetched));
    assert!(matches!(req.step(ListEvent::Stored(false)), ListAction::Fail(AppError::InternalError)));
}

#[test]
fn list_request_failures() {
    let (req, _) = ListRequest::start(USER, params(Some(0), None, None, None));
    assert!(matches!(req.step(ListEvent::Connected(false)), ListAction::Fail(AppError::InternalError)));
    assert!(matches!(req.step(ListEvent::CacheRead(None)), ListAction::Fail(AppError::InternalError)));
    match req.step(ListEvent::CacheRead(Some(None))) {
        ListAction::Fail(AppError::Database(DbError::InvalidArgument(m))) => assert_eq!(m, "limit to big"),
        _ => panic!("expected the refusal"),
    }
    assert!(matches!(
        req.step(ListEvent::Fetched(Err(DbError::Other("down".to_string())))),
        ListAction::Fail(AppError::Database(DbError::Other(_)))
    ));
    assert!(matches!(req.step(ListEvent::Encoded(None)), ListAction::Fail(AppError::InternalError)));
}

#[test]
fn requests_with_one_key_ask_for_one_list() {
    let a = params(None, Some(0), Some("milk"), Some(true));
    let b = params(None, None, Some("milk"), Some(true));
    assert_eq!(list_cache_key(USER, &a), list_cache_key(USER, &b));
    let (ra, _) = ListRequest::start(USER, a);
    let (rb, _) = ListRequest::start(USER, b);
    let qa = match ra.step(ListEvent::CacheRead(Some(None))) {
        ListAction::Fetch(q) => q,
        _ => panic!("expected the fetch"),
    };
    let qb = match rb.step(ListEvent::CacheRead(Some(None))) {
        ListAction::Fetch(q) => q,
        _ => panic!("expected the fetch"),
    };
    assert_eq!(qa.pieces.len(), qb.pieces.len());
    assert!(matches!(qa.pieces[5], QueryPiece::BindText(ref t) if t == "%milk%"));
    assert!(matches!(qb.pieces[5], QueryPiece::BindText(ref t) if t == "%milk%"));
}

#[test]
fn missing_state_and_unfinished_only_share_a_key() {
    // Both requests are cached under `completed:false`, though only the
    // second one filters on the completion state.
    let all = params(None, None, None, None);
    let unfinished = params(None, None, None, Some(false));
    assert_eq!(list_cache_key(USER, &all), list_cache_key(USER, &unfinished));
    let (ra, _) = ListRequest::start(USER, all);
    let (rb, _) = ListRequest::start(USER, unfinished);
    match (ra.step(ListEvent::CacheRead(Some(None))), rb.step(ListEvent::CacheRead(Some(None)))) {
        (ListAction::Fetch(qa), ListAction::Fetch(qb)) => assert_ne!(qa.pieces.len(), qb.pieces.len()),
        _ => panic!("expected both fetches"),
    }
}
