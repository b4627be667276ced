//! Decisions of the todo endpoints around the database and the list cache:
//! the cache key of a list request, the sweep that drops a user's cached
//! lists after a write, and how a write request ends.
use vstd::prelude::*;
use vstd::string::StringExecFns;
use crate::http::errors::{AppError, DbError};
use crate::http::db::{
    limit_accepted, list_pieces, list_query, msg_limit, msg_search, search_blank, state_pieces,
    title_pieces, ListQuery,
};
use crate::http::modules::{filter_of, QueryFilter, Queryfr};
use crate::text::{
    append, bool_string, bool_text, decimal, decimal_text, glob_special, id_string, id_text,
    lemma_decimal_digits, lemma_decimal_injective, lemma_id_text_chars, lemma_id_text_injective,
    lemma_id_text_len, lemma_id_text_plain, trimmed,
};

verus! {

pub open spec fn lit_todos() -> Seq<char> {
    "todos:"@
}

pub open spec fn lit_limit() -> Seq<char> {
    ":limit:"@
}

pub open spec fn lit_offset() -> Seq<char> {
    ":offset:"@
}

pub open spec fn lit_completed() -> Seq<char> {
    ":completed:"@
}

pub open spec fn lit_search() -> Seq<char> {
    ":search:"@
}

/// The start that every cache key of `user_id` shares: `todos:<id>`.
pub open spec fn user_prefix(user_id: u128) -> Seq<char> {
    lit_todos() + id_text(user_id)
}

/// The cache key of a list request:
/// `todos:<id>:limit:<l>:offset:<o>:completed:<c>:search:<s>`, with 0, 0,
/// `false` and the empty text for the parts the request leaves out.
pub open spec fn cache_key(user_id: u128, q: Queryfr) -> Seq<char> {
    user_prefix(user_id) + lit_limit() + decimal(
        (match q.limit { Some(l) => l, None => 0u32 }) as nat,
    ) + lit_offset() + decimal((match q.offset { Some(o) => o, None => 0u32 }) as nat)
        + lit_completed() + bool_text(match q.completed { Some(c) => c, None => false })
        + lit_search() + (match q.search { Some(s) => s@, None => Seq::empty() })
}

/// The key pattern that matches the cached lists of `user_id`:
/// `todos:<id>*`.
pub open spec fn sweep_pattern(user_id: u128) -> Seq<char> {
    user_prefix(user_id) + seq!['*']
}

/// The cache key under which the answer to a list request is kept.
pub fn list_cache_key(user_id: u128, params: &Queryfr) -> (k: String)
    ensures
        k@ == cache_key(user_id, *params),
{
    let mut k = String::from_str("todos:");
    let id = id_string(user_id);
    append(&mut k, id.as_str());
    append(&mut k, ":limit:");
    let limit: u32 = match params.limit { Some(l) => l, None => 0 };
    let limit_text = decimal_text(limit as u64);
    append(&mut k, limit_text.as_str());
    append(&mut k, ":offset:");
    let offset: u32 = match params.offset { Some(o) => o, None => 0 };
    let offset_text = decimal_text(offset as u64);
    append(&mut k, offset_text.as_str());
    append(&mut k, ":completed:");
    let completed = match params.completed { Some(c) => c, None => false };
    let completed_text = bool_string(completed);
    append(&mut k, completed_text.as_str());
    append(&mut k, ":search:");
    match &params.search {
        Some(s) => append(&mut k, s.as_str()),
        None => append(&mut k, ""),
    }
    proof {
        reveal_strlit("");
    }
    assert(k@ =~= cache_key(user_id, *params));
    k
}

/// The key pattern that matches every cached list of a user.
pub fn invalidation_pattern(user_id: u128) -> (p: String)
    ensures
        p@ == sweep_pattern(user_id),
{
    let mut p = String::from_str("todos:");
    let id = id_string(user_id);
    append(&mut p, id.as_str());
    append(&mut p, "*");
    proof {
        reveal_strlit("*");
    }
    assert(p@ =~= sweep_pattern(user_id));
    p
}

/// `key` matches the Redis key pattern `pattern` when the pattern is a
/// plain text followed by one `*`: the key begins with that text.
pub open spec fn prefix_pattern_matches(pattern: Seq<char>, key: Seq<char>) -> bool {
    let stem = pattern.drop_last();
    &&& pattern.len() > 0
    &&& pattern.last() == '*'
    &&& forall|i: int| 0 <= i < stem.len() ==> !glob_special(#[trigger] stem[i])
    &&& key.len() >= stem.len()
    &&& key.subrange(0, stem.len() as int) == stem
}

/// After a write, the sweep of the writer's cached lists reaches every list
/// that user has cached, and no list of any other user: the sweep pattern is
/// the user's prefix followed by `*`, every cache key of the user begins with
/// that prefix, and no cache key of the user begins with the prefix of
/// another user.
pub proof fn law_sweep_reaches_exactly_own_lists(user_id: u128, other: u128, q: Queryfr)
    ensures
        prefix_pattern_matches(sweep_pattern(user_id), cache_key(user_id, q)),
        other != user_id ==> !prefix_pattern_matches(sweep_pattern(other), cache_key(user_id, q)),
{
    lemma_id_text_len(user_id);
    lemma_id_text_len(other);
    lemma_id_text_plain(user_id);
    lemma_id_text_plain(other);
    reveal_strlit("todos:");
    let key = cache_key(user_id, q);
    let own = user_prefix(user_id);
    assert(sweep_pattern(user_id).drop_last() =~= own);
    assert(sweep_pattern(other).drop_last() =~= user_prefix(other));
    assert(key.subrange(0, own.len() as int) =~= own);
    assert forall|i: int| 0 <= i < own.len() implies !glob_special(#[trigger] own[i]) by {
        if i >= 6 {
            assert(own[i] == id_text(user_id)[i - 6]);
        }
    }
    if other != user_id {
        let theirs = user_prefix(other);
        assert forall|i: int| 0 <= i < theirs.len() implies !glob_special(#[trigger] theirs[i]) by {
            if i >= 6 {
                assert(theirs[i] == id_text(other)[i - 6]);
            }
        }
        if key.subrange(0, theirs.len() as int) == theirs {
            assert(own =~= theirs);
            assert(own.subrange(6, 42) =~= id_text(user_id));
            assert(theirs.subrange(6, 42) =~= id_text(other));
            lemma_id_text_injective(user_id, other);
        }
    }
}

/// How many keys one scan step asks Redis for.
pub const SCAN_COUNT: u64 = 100;

/// A sweep through the cache that collects the keys matching a pattern,
/// one `SCAN` step at a time, so that they can be deleted together.
pub struct CacheSweep {
    cursor: u64,
    found: Vec<String>,
    pattern: String,
}

/// What a sweep does next: scan again from its cursor, delete the keys it
/// found, or nothing (it found none).
pub enum SweepStep {
    Scan(CacheSweep),
    Delete(Vec<String>),
    Done,
}

/// A sweep as plain values.
pub struct SweepView {
    pub cursor: u64,
    pub found: Seq<Seq<char>>,
    pub pattern: Seq<char>,
}

/// A `SweepStep` as plain values.
pub enum SweepStepView {
    Scan(SweepView),
    Delete(Seq<Seq<char>>),
    Done,
}

/// The texts of a list of strings.
pub open spec fn texts(v: Seq<String>) -> Seq<Seq<char>> {
    v.map_values(|s: String| s@)
}

impl View for CacheSweep {
    type V = SweepView;

    closed spec fn view(&self) -> SweepView {
        SweepView { cursor: self.cursor, found: texts(self.found@), pattern: self.pattern@ }
    }
}

impl View for SweepStep {
    type V = SweepStepView;

    open spec fn view(&self) -> SweepStepView {
        match self {
            SweepStep::Scan(s) => SweepStepView::Scan(s@),
            SweepStep::Delete(keys) => SweepStepView::Delete(texts(keys@)),
            SweepStep::Done => SweepStepView::Done,
        }
    }
}

/// The sweep over the cached lists of `user_id`, before its first scan.
pub open spec fn sweep_start(user_id: u128) -> SweepView {
    SweepView { cursor: 0, found: Seq::empty(), pattern: sweep_pattern(user_id) }
}

/// How a sweep ends once Redis reports the cursor back at 0: it deletes
/// every key it found, or does nothing when it found none.
pub open spec fn sweep_finish(found: Seq<Seq<char>>) -> SweepStepView {
    if found.len() == 0 {
        SweepStepView::Done
    } else {
        SweepStepView::Delete(found)
    }
}

/// The step after a scan of `s` returned the cursor `next` and the keys
/// `page`: the keys join those found; a cursor of 0 ends the sweep, any other
/// is where the next scan starts.
pub open spec fn sweep_after(s: SweepView, next: u64, page: Seq<Seq<char>>) -> SweepStepView {
    if next == 0 {
        sweep_finish(s.found + page)
    } else {
        SweepStepView::Scan(SweepView { cursor: next, found: s.found + page, pattern: s.pattern })
    }
}

impl CacheSweep {
    /// A sweep over the cached lists of `user_id`, starting at cursor 0 with
    /// nothing found.
    pub fn start(user_id: u128) -> (s: CacheSweep)
        ensures
            s@ == sweep_start(user_id),
    {
        let s = CacheSweep { cursor: 0, found: Vec::new(), pattern: invalidation_pattern(user_id) };
        assert(s@.found =~= Seq::<Seq<char>>::empty());
        s
    }

    /// The cursor the next scan starts from.
    pub fn cursor(&self) -> (c: u64)
        ensures
            c == self@.cursor,
    {
        self.cursor
    }

    /// The key pattern the scans match.
    pub fn pattern(&self) -> (p: &str)
        ensures
            p@ == self@.pattern,
    {
        self.pattern.as_str()
    }

    /// Takes in what one scan returned: the next cursor and the matching keys
    /// of this step.
    pub fn scanned(self, next_cursor: u64, keys: Vec<String>) -> (r: SweepStep)
        ensures
            r@ == sweep_after(self@, next_cursor, texts(keys@)),
    {
        let ghost before = self@;
        let CacheSweep { cursor: _, found, pattern } = self;
        let mut found = found;
        let mut keys = keys;
        let ghost page = texts(keys@);
        found.append(&mut keys);
        assert(texts(found@) =~= before.found + page);
        if next_cursor == 0 {
            if found.len() == 0 {
                SweepStep::Done
            } else {
                SweepStep::Delete(found)
            }
        } else {
            SweepStep::Scan(CacheSweep { cursor: next_cursor, found, pattern })
        }
    }
}

/// The keys of a series of scan replies, in order.
pub open spec fn keys_of(replies: Seq<(u64, Seq<Seq<char>>)>) -> Seq<Seq<char>>
    decreases replies.len(),
{
    if replies.len() == 0 {
        Seq::empty()
    } else {
        replies[0].1 + keys_of(replies.drop_first())
    }
}

/// Where a sweep stands after taking in a series of scan replies, in order.
pub open spec fn sweep_run(s: SweepView, replies: Seq<(u64, Seq<Seq<char>>)>) -> SweepStepView
    decreases replies.len(),
{
    if replies.len() == 0 {
        SweepStepView::Scan(s)
    } else {
        match sweep_after(s, replies[0].0, replies[0].1) {
            SweepStepView::Scan(next) => sweep_run(next, replies.drop_first()),
            other => other,
        }
    }
}

/// Redis answered the scans with the cursor back at 0 only in its last reply.
pub open spec fn full_scan(replies: Seq<(u64, Seq<Seq<char>>)>) -> bool {
    &&& replies.len() > 0
    &&& replies.last().0 == 0
    &&& forall|i: int| 0 <= i < replies.len() - 1 ==> (#[trigger] replies[i]).0 != 0
}

proof fn lemma_sweep_run(s: SweepView, replies: Seq<(u64, Seq<Seq<char>>)>)
    requires
        full_scan(replies),
    ensures
        sweep_run(s, replies) == sweep_finish(s.found + keys_of(replies)),
    decreases replies.len(),
{
    if replies.len() == 1 {
        assert(replies.drop_first().len() == 0);
        assert(keys_of(replies.drop_first()) =~= Seq::<Seq<char>>::empty());
        assert(keys_of(replies) =~= replies[0].1);
    } else {
        let rest = replies.drop_first();
        assert(replies[0].0 != 0);
        assert forall|i: int| 0 <= i < rest.len() - 1 implies (#[trigger] rest[i]).0 != 0 by {
            assert(rest[i] == replies[i + 1]);
        }
        assert(rest.last() == replies.last());
        let next = SweepView {
            cursor: replies[0].0,
            found: s.found + replies[0].1,
            pattern: s.pattern,
        };
        lemma_sweep_run(next, rest);
        assert(next.found + keys_of(rest) =~= s.found + keys_of(replies));
    }
}

/// A sweep that Redis answers until the cursor comes back to 0 deletes every
/// key that any scan returned, in the order returned, in one deletion; when
/// no scan returned a key it deletes nothing. Until then, every step is
/// another scan.
pub proof fn law_sweep_deletes_all_scanned_keys(
    user_id: u128,
    replies: Seq<(u64, Seq<Seq<char>>)>,
)
    requires
        full_scan(replies),
    ensures
        sweep_run(sweep_start(user_id), replies) == sweep_finish(keys_of(replies)),
        keys_of(replies).len() == 0 ==> sweep_run(sweep_start(user_id), replies)
            == SweepStepView::Done,
        keys_of(replies).len() > 0 ==> sweep_run(sweep_start(user_id), replies)
            == SweepStepView::Delete(keys_of(replies)),
{
    lemma_sweep_run(sweep_start(user_id), replies);
    assert(sweep_start(user_id).found + keys_of(replies) =~= keys_of(replies));
}

/// The status of a created item.
pub const STATUS_CREATED: u16 = 201;

/// The status of a request that succeeded with a body.
pub const STATUS_OK: u16 = 200;

/// The status of a request that succeeded without a body.
pub const STATUS_NO_CONTENT: u16 = 204;

/// How long a cached list stays in the cache, in seconds.
pub const CACHE_TTL_SECS: u64 = 60;

/// Which write a request makes.
#[derive(Clone, Copy, Debug, PartialEq, Eq, Structural)]
pub enum WriteKind {
    Create,
    Update,
    Delete,
}

/// What a write request learns while it is carried out: whether the write
/// was stored, whether a cache connection was had, and whether the sweep of
/// the user's cached lists went through.
pub enum WriteEvent {
    Stored(Result<(), DbError>),
    Connected(bool),
    Swept(bool),
}

/// What a write request does next.
pub enum WriteAction {
    /// Open a connection to the cache.
    Connect,
    /// Run this sweep of the user's cached lists, then delete what it found.
    Sweep(CacheSweep),
    /// Answer the request.
    Respond(Result<u16, AppError>),
}

/// The status that answers a successful write of the given kind.
pub open spec fn write_status(kind: WriteKind) -> u16 {
    match kind {
        WriteKind::Create => STATUS_CREATED,
        WriteKind::Update => STATUS_OK,
        WriteKind::Delete => STATUS_NO_CONTENT,
    }
}

/// The next step of a write request of `user_id` after `event`. A failed
/// write answers with the database error; a missing cache connection or a
/// failed sweep is an internal error; only a sweep that went through answers
/// success: 201 for a create, 200 for an update, 204 for a delete.
pub fn write_step(kind: WriteKind, user_id: u128, event: WriteEvent) -> (a: WriteAction)
    ensures
        match event {
            WriteEvent::Stored(Ok(())) => a is Connect,
            WriteEvent::Stored(Err(e)) => a == WriteAction::Respond(Err(AppError::Database(e))),
            WriteEvent::Connected(true) => a matches WriteAction::Sweep(s) && s@ == sweep_start(
                user_id,
            ),
            WriteEvent::Connected(false) => a == WriteAction::Respond(Err(AppError::InternalError)),
            WriteEvent::Swept(true) => a == WriteAction::Respond(Ok(write_status(kind))),
            WriteEvent::Swept(false) => a == WriteAction::Respond(Err(AppError::InternalError)),
        },
{
    match event {
        WriteEvent::Stored(Ok(())) => WriteAction::Connect,
        WriteEvent::Stored(Err(e)) => WriteAction::Respond(Err(AppError::Database(e))),
        WriteEvent::Connected(true) => WriteAction::Sweep(CacheSweep::start(user_id)),
        WriteEvent::Connected(false) => WriteAction::Respond(Err(AppError::InternalError)),
        WriteEvent::Swept(true) => {
            let status = match kind {
                WriteKind::Create => STATUS_CREATED,
                WriteKind::Update => STATUS_OK,
                WriteKind::Delete => STATUS_NO_CONTENT,
            };
            WriteAction::Respond(Ok(status))
        },
        WriteEvent::Swept(false) => WriteAction::Respond(Err(AppError::InternalError)),
    }
}

/// A list request being answered: whose it is, what it asks for, and the
/// key under which its answer is cached.
pub struct ListRequest {
    pub user_id: u128,
    pub params: Queryfr,
    pub key: String,
}

/// What a list request learns while it is answered.
pub enum ListEvent {
    /// Whether a cache connection was had.
    Connected(bool),
    /// What reading the key gave: `None` when the read failed.
    CacheRead(Option<Option<String>>),
    /// Whether the cached text read back as a list.
    Decoded(bool),
    /// Whether the database answered the query.
    Fetched(Result<(), DbError>),
    /// The list written as text, or `None` when that failed.
    Encoded(Option<String>),
    /// Whether the text was stored in the cache.
    Stored(bool),
}

/// What a list request does next.
pub enum ListAction {
    /// Open a connection to the cache.
    Connect,
    /// Read this key from the cache.
    ReadCache(String),
    /// Read this cached text back as a list.
    DecodeCached(String),
    /// Run this statement.
    Fetch(ListQuery),
    /// Write the fetched list as text.
    Encode,
    /// Keep this text under this key for this many seconds.
    StoreCache(String, String, u64),
    /// Answer with the list read from the cache.
    ReturnCached,
    /// Answer with the list fetched from the database.
    ReturnFetched,
    /// Answer with this error.
    Fail(AppError),
}

impl ListRequest {
    /// A list request of `user_id` for `params`, and its first step: open a
    /// connection to the cache.
    pub fn start(user_id: u128, params: Queryfr) -> (r: (ListRequest, ListAction))
        ensures
            r.0.user_id == user_id,
            r.0.params == params,
            r.0.key@ == cache_key(user_id, params),
            r.1 is Connect,
    {
        let key = list_cache_key(user_id, &params);
        (ListRequest { user_id, params, key }, ListAction::Connect)
    }

    /// The next step after `event`. The cache is read under the request's
    /// key; a cached list answers the request; on a miss the statement of
    /// the request's filter is run, and its answer is kept under the key for
    /// 60 seconds before it is returned. A failure of the cache, or of
    /// reading or writing the text, is an internal error; a refused
    /// statement or a failed query answers with the database error.
    pub fn step(&self, event: ListEvent) -> (a: ListAction)
        ensures
            match event {
                ListEvent::Connected(true) => a matches ListAction::ReadCache(k) && k@ == self.key@,
                ListEvent::Connected(false) => a == ListAction::Fail(AppError::InternalError),
                ListEvent::CacheRead(None) => a == ListAction::Fail(AppError::InternalError),
                ListEvent::CacheRead(Some(Some(text))) => a matches ListAction::DecodeCached(t)
                    && t@ == text@,
                ListEvent::CacheRead(Some(None)) => {
                    let f = filter_of(self.params);
                    &&& limit_accepted(f.limit) && !search_blank(f) ==> (a matches ListAction::Fetch(
                        q,
                    ) && q@ == list_pieces(self.user_id, f))
                    &&& !limit_accepted(f.limit) ==> (a matches ListAction::Fail(
                        AppError::Database(DbError::InvalidArgument(m)),
                    ) && m@ == msg_limit())
                    &&& limit_accepted(f.limit) && search_blank(f) ==> (a matches ListAction::Fail(
                        AppError::Database(DbError::InvalidArgument(m)),
                    ) && m@ == msg_search())
                },
                ListEvent::Decoded(true) => a is ReturnCached,
                ListEvent::Decoded(false) => a == ListAction::Fail(AppError::InternalError),
                ListEvent::Fetched(Ok(())) => a is Encode,
                ListEvent::Fetched(Err(e)) => a == ListAction::Fail(AppError::Database(e)),
                ListEvent::Encoded(Some(text)) => a matches ListAction::StoreCache(k, t, ttl) && k@
                    == self.key@ && t@ == text@ && ttl == CACHE_TTL_SECS,
                ListEvent::Encoded(None) => a == ListAction::Fail(AppError::InternalError),
                ListEvent::Stored(true) => a is ReturnFetched,
                ListEvent::Stored(false) => a == ListAction::Fail(AppError::InternalError),
            },
    {
        match event {
            ListEvent::Connected(true) => ListAction::ReadCache(self.key.clone()),
            ListEvent::Connected(false) => ListAction::Fail(AppError::InternalError),
            ListEvent::CacheRead(None) => ListAction::Fail(AppError::InternalError),
            ListEvent::CacheRead(Some(Some(text))) => ListAction::DecodeCached(text),
            ListEvent::CacheRead(Some(None)) => {
                let params = Queryfr {
                    offset: self.params.offset,
                    limit: self.params.limit,
                    search: match &self.params.search {
                        Some(s) => Some(s.clone()),
                        None => None,
                    },
                    completed: self.params.completed,
                };
                let filter = QueryFilter::from(params);
                match list_query(self.user_id, &filter) {
                    Ok(q) => ListAction::Fetch(q),
                    Err(e) => ListAction::Fail(e),
                }
            },
            ListEvent::Decoded(true) => ListAction::ReturnCached,
            ListEvent::Decoded(false) => ListAction::Fail(AppError::InternalError),
            ListEvent::Fetched(Ok(())) => ListAction::Encode,
            ListEvent::Fetched(Err(e)) => ListAction::Fail(AppError::Database(e)),
            ListEvent::Encoded(Some(text)) => ListAction::StoreCache(
                self.key.clone(),
                text,
                CACHE_TTL_SECS,
            ),
            ListEvent::Encoded(None) => ListAction::Fail(AppError::InternalError),
            ListEvent::Stored(true) => ListAction::ReturnFetched,
            ListEvent::Stored(false) => ListAction::Fail(AppError::InternalError),
        }
    }
}

/// The text holds no colon.
pub open spec fn no_colon(s: Seq<char>) -> bool {
    forall|i: int| 0 <= i < s.len() ==> #[trigger] s[i] != ':'
}

/// Two texts that are each a colon-free part, a colon and a rest agree in
/// both parts when they are equal.
proof fn lemma_split_at_colon(x1: Seq<char>, r1: Seq<char>, x2: Seq<char>, r2: Seq<char>)
    requires
        no_colon(x1),
        no_colon(x2),
        x1 + seq![':'] + r1 == x2 + seq![':'] + r2,
    ensures
        x1 == x2,
        r1 == r2,
{
    let a = x1 + seq![':'] + r1;
    let b = x2 + seq![':'] + r2;
    if x1.len() < x2.len() {
        assert(a[x1.len() as int] == ':');
        assert(b[x1.len() as int] == x2[x1.len() as int]);
    } else if x2.len() < x1.len() {
        assert(b[x2.len() as int] == ':');
        assert(a[x2.len() as int] == x1[x2.len() as int]);
    }
    assert(x1 =~= a.subrange(0, x1.len() as int));
    assert(x2 =~= b.subrange(0, x2.len() as int));
    assert(r1 =~= a.subrange(x1.len() as int + 1, a.len() as int));
    assert(r2 =~= b.subrange(x2.len() as int + 1, b.len() as int));
}

/// The page size as the cache key writes it.
pub open spec fn key_limit(q: Queryfr) -> u32 {
    match q.limit { Some(l) => l, None => 0u32 }
}

/// The offset as the cache key writes it.
pub open spec fn key_offset(q: Queryfr) -> u32 {
    match q.offset { Some(o) => o, None => 0u32 }
}

/// The completion state as the cache key writes it.
pub open spec fn key_completed(q: Queryfr) -> bool {
    match q.completed { Some(c) => c, None => false }
}

/// The search text as the cache key writes it.
pub open spec fn key_search(q: Queryfr) -> Seq<char> {
    match q.search { Some(s) => s@, None => Seq::empty() }
}

spec fn tail_search(q: Queryfr) -> Seq<char> {
    seq!['s', 'e', 'a', 'r', 'c', 'h', ':'] + key_search(q)
}

spec fn tail_completed(q: Queryfr) -> Seq<char> {
    seq!['c', 'o', 'm', 'p', 'l', 'e', 't', 'e', 'd', ':'] + bool_text(key_completed(q))
        + seq![':'] + tail_search(q)
}

spec fn tail_offset(q: Queryfr) -> Seq<char> {
    seq!['o', 'f', 'f', 's', 'e', 't', ':'] + decimal(key_offset(q) as nat) + seq![':']
        + tail_completed(q)
}

spec fn tail_limit(q: Queryfr) -> Seq<char> {
    decimal(key_limit(q) as nat) + seq![':'] + tail_offset(q)
}

proof fn lemma_cache_key_parts(user_id: u128, q: Queryfr)
    ensures
        cache_key(user_id, q).len() >= 49,
        cache_key(user_id, q).subrange(6, 42) == id_text(user_id),
        cache_key(user_id, q).subrange(49, cache_key(user_id, q).len() as int) == tail_limit(q),
{
    reveal_strlit("todos:");
    reveal_strlit(":limit:");
    reveal_strlit(":offset:");
    reveal_strlit(":completed:");
    reveal_strlit(":search:");
    lemma_id_text_len(user_id);
    let k = cache_key(user_id, q);
    assert(k =~= seq!['t', 'o', 'd', 'o', 's', ':'] + id_text(user_id) + seq![
        ':',
        'l',
        'i',
        'm',
        'i',
        't',
        ':',
    ] + tail_limit(q));
    assert(k.subrange(6, 42) =~= id_text(user_id));
    assert(k.subrange(49, k.len() as int) =~= tail_limit(q));
}

proof fn lemma_bool_text_plain(b: bool)
    ensures
        no_colon(bool_text(b)),
{
}

proof fn lemma_decimal_plain(n: nat)
    ensures
        no_colon(decimal(n)),
{
    lemma_decimal_digits(n);
}

/// The statement that a list request under `q` runs when it is accepted.
pub open spec fn list_accepted(q: Queryfr) -> bool {
    limit_accepted(filter_of(q).limit) && !search_blank(filter_of(q))
}

/// Equal key tails write the same page size, offset, completion state and
/// search text.
proof fn lemma_key_fields_agree(q1: Queryfr, q2: Queryfr)
    requires
        tail_limit(q1) == tail_limit(q2),
    ensures
        key_limit(q1) == key_limit(q2),
        key_offset(q1) == key_offset(q2),
        key_completed(q1) == key_completed(q2),
        key_search(q1) == key_search(q2),
{
    lemma_decimal_plain(key_limit(q1) as nat);
    lemma_decimal_plain(key_limit(q2) as nat);
    lemma_split_at_colon(
        decimal(key_limit(q1) as nat),
        tail_offset(q1),
        decimal(key_limit(q2) as nat),
        tail_offset(q2),
    );
    lemma_decimal_injective(key_limit(q1) as nat, key_limit(q2) as nat);
    let o1 = tail_offset(q1);
    let o2 = tail_offset(q2);
    assert(o1.subrange(7, o1.len() as int) =~= decimal(key_offset(q1) as nat) + seq![':']
        + tail_completed(q1));
    assert(o2.subrange(7, o2.len() as int) =~= decimal(key_offset(q2) as nat) + seq![':']
        + tail_completed(q2));
    lemma_decimal_plain(key_offset(q1) as nat);
    lemma_decimal_plain(key_offset(q2) as nat);
    lemma_split_at_colon(
        decimal(key_offset(q1) as nat),
        tail_completed(q1),
        decimal(key_offset(q2) as nat),
        tail_completed(q2),
    );
    lemma_decimal_injective(key_offset(q1) as nat, key_offset(q2) as nat);
    let c1 = tail_completed(q1);
    let c2 = tail_completed(q2);
    assert(c1.subrange(10, c1.len() as int) =~= bool_text(key_completed(q1)) + seq![':']
        + tail_search(q1));
    assert(c2.subrange(10, c2.len() as int) =~= bool_text(key_completed(q2)) + seq![':']
        + tail_search(q2));
    lemma_bool_text_plain(key_completed(q1));
    lemma_bool_text_plain(key_completed(q2));
    lemma_split_at_colon(
        bool_text(key_completed(q1)),
        tail_search(q1),
        bool_text(key_completed(q2)),
        tail_search(q2),
    );
    if key_completed(q1) != key_completed(q2) {
        assert(bool_text(key_completed(q1))[0] != bool_text(key_completed(q2))[0]);
    }
    let s1 = tail_search(q1);
    let s2 = tail_search(q2);
    assert(s1.subrange(7, s1.len() as int) =~= key_search(q1));
    assert(s2.subrange(7, s2.len() as int) =~= key_search(q2));
}

proof fn lemma_empty_trimmed(s: Seq<char>)
    requires
        s.len() == 0,
    ensures
        trimmed(s) == s,
{
    assert(crate::text::trim_start(s) == s);
    assert(crate::text::trim_end(s) == s);
}

/// Accepted requests whose keys write the same fields, and that do not
/// differ in giving a completion state, run the same statement.
proof fn lemma_same_fields_same_statement(u: u128, q1: Queryfr, q2: Queryfr)
    requires
        key_limit(q1) == key_limit(q2),
        key_offset(q1) == key_offset(q2),
        key_completed(q1) == key_completed(q2),
        key_search(q1) == key_search(q2),
        !(q1.completed is None && q2.completed == Some(false)),
        !(q2.completed is None && q1.completed == Some(false)),
        list_accepted(q1),
        list_accepted(q2),
    ensures
        list_pieces(u, filter_of(q1)) == list_pieces(u, filter_of(q2)),
{
    let f1 = filter_of(q1);
    let f2 = filter_of(q2);
    assert(f1.limit == f2.limit);
    assert(f1.offset == f2.offset);
    assert(f1.completed == f2.completed);
    assert(state_pieces(f1) == state_pieces(f2));
    match (q1.search, q2.search) {
        (Some(a), Some(b)) => {
            assert(a@ == b@);
        },
        (Some(a), None) => {
            lemma_empty_trimmed(a@);
        },
        (None, Some(b)) => {
            lemma_empty_trimmed(b@);
        },
        (None, None) => {},
    }
    assert(title_pieces(f1) == title_pieces(f2));
}

/// Two list requests that share a cache key ask for the same list: the same
/// user, and, when both are accepted, the same statement. So an answer
/// cached for one is the answer to the other. The one exception, left out
/// here: a request that gives no completion state and one that asks for
/// unfinished items only share their key (`completed:false`) but not their
/// statement.
pub proof fn law_shared_cache_key_means_same_list(u1: u128, q1: Queryfr, u2: u128, q2: Queryfr)
    requires
        cache_key(u1, q1) == cache_key(u2, q2),
        !(q1.completed is None && q2.completed == Some(false)),
        !(q2.completed is None && q1.completed == Some(false)),
    ensures
        u1 == u2,
        list_accepted(q1) && list_accepted(q2) ==> list_pieces(u1, filter_of(q1)) == list_pieces(
            u2,
            filter_of(q2),
        ),
{
    lemma_cache_key_parts(u1, q1);
    lemma_cache_key_parts(u2, q2);
    lemma_id_text_injective(u1, u2);
    lemma_key_fields_agree(q1, q2);
    if list_accepted(q1) && list_accepted(q2) {
        lemma_same_fields_same_statement(u1, q1, q2);
    }
}

/// Two list requests share a cache key exactly when they are of the same
/// user and agree in the page size, offset, completion state and search text
/// that the key writes (0, 0, `false` and the empty text where a request
/// leaves one out). So a request that gives no completion state shares its
/// key with one that asks for unfinished items only.
pub proof fn law_cache_key_fields(u1: u128, q1: Queryfr, u2: u128, q2: Queryfr)
    ensures
        cache_key(u1, q1) == cache_key(u2, q2) <==> (u1 == u2 && key_limit(q1) == key_limit(q2)
            && key_offset(q1) == key_offset(q2) && key_completed(q1) == key_completed(q2)
            && key_search(q1) == key_search(q2)),
{
    if cache_key(u1, q1) == cache_key(u2, q2) {
        lemma_cache_key_parts(u1, q1);
        lemma_cache_key_parts(u2, q2);
        lemma_id_text_injective(u1, u2);
        lemma_key_fields_agree(q1, q2);
    }
    if u1 == u2 && key_limit(q1) == key_limit(q2) && key_offset(q1) == key_offset(q2)
        && key_completed(q1) == key_completed(q2) && key_search(q1) == key_search(q2) {
        assert(cache_key(u1, q1) =~= cache_key(u2, q2));
    }
}

/// A scan that does not end the sweep leaves its pattern as it was, moves
/// the cursor to the one Redis returned, and adds the page's keys after those
/// found before.
pub proof fn law_scan_keeps_pattern(s: SweepView, next: u64, page: Seq<Seq<char>>)
    requires
        next != 0,
    ensures
        sweep_after(s, next, page) matches SweepStepView::Scan(t) && t.pattern == s.pattern
            && t.cursor == next && t.found == s.found + page,
{
}

/// Every scan of a sweep started for `user_id` matches the user's keys:
/// wherever the sweep stands after any replies that did not end it, its
/// pattern is `todos:<user>*`.
pub proof fn law_sweep_scans_match_user_keys(user_id: u128, replies: Seq<(u64, Seq<Seq<char>>)>)
    ensures
        sweep_run(sweep_start(user_id), replies) matches SweepStepView::Scan(t) ==> t.pattern
            == sweep_pattern(user_id),
{
    lemma_run_keeps_pattern(sweep_start(user_id), replies);
}

proof fn lemma_run_keeps_pattern(s: SweepView, replies: Seq<(u64, Seq<Seq<char>>)>)
    ensures
        sweep_run(s, replies) matches SweepStepView::Scan(t) ==> t.pattern == s.pattern,
    decreases replies.len(),
{
    if replies.len() > 0 {
        if replies[0].0 != 0 {
            law_scan_keeps_pattern(s, replies[0].0, replies[0].1);
            let t = SweepView {
                cursor: replies[0].0,
                found: s.found + replies[0].1,
                pattern: s.pattern,
            };
            lemma_run_keeps_pattern(t, replies.drop_first());
        }
    }
}

} // verus!
