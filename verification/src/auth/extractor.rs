//! The authenticated user of a request: reading the bearer token out of the
//! `Authorization` header, and the claims that a token carries.
use vstd::prelude::*;
use crate::http::errors::AppError;
use crate::text::push_char;

verus! {

/// The user on whose behalf a request is made.
#[derive(Clone, Copy, Debug, PartialEq, Eq, Structural)]
pub struct AuthUser {
    pub user_id: u128,
}

/// What a token states: the user, and the Unix second after which the token
/// is no longer accepted.
#[derive(Clone, Copy, Debug, PartialEq, Eq, Structural)]
pub struct AuthUserClaims {
    pub user_id: u128,
    pub exp: u64,
}

/// How long a token stays valid: 24 hours, in seconds.
pub const TOKEN_LIFETIME_SECS: i64 = 86400;

/// The Unix second of the earliest instant that `time::OffsetDateTime` holds
/// (the start of year -9999).
pub const EARLIEST_UNIX_SECOND: i64 = -377705116800;

/// The Unix second of the latest instant that `time::OffsetDateTime` holds
/// (the end of year 9999).
pub const LATEST_UNIX_SECOND: i64 = 253402300799;

/// The current time as a Unix second (`OffsetDateTime::now_utc`). Which
/// second it reads is up to the system clock; it lies in the range of
/// `OffsetDateTime`.
#[verifier::external_body]
fn unix_now() -> (t: i64)
    ensures
        EARLIEST_UNIX_SECOND <= t <= LATEST_UNIX_SECOND,
{
    time::OffsetDateTime::now_utc().unix_timestamp()
}

/// A byte that may stand in a header value read as text: visible ASCII or
/// a tab.
pub open spec fn visible_ascii(b: u8) -> bool {
    (32 <= b && b < 127) || b == 9
}

/// The header value is text: every byte is visible ASCII.
pub open spec fn header_is_text(h: Seq<u8>) -> bool {
    forall|i: int| 0 <= i < h.len() ==> visible_ascii(#[trigger] h[i])
}

/// The bytes of the word `Bearer`.
pub open spec fn bearer_word() -> Seq<u8> {
    seq![66u8, 101u8, 97u8, 114u8, 101u8, 114u8]
}

/// The header value is text that begins with `Bearer`.
pub open spec fn bearer_accepted(h: Seq<u8>) -> bool {
    header_is_text(h) && h.len() >= 6 && h.subrange(0, 6) == bearer_word()
}

/// The token of an accepted header: everything after `Bearer` and the one
/// character that follows it.
pub open spec fn bearer_token_of(h: Seq<u8>) -> Seq<char> {
    Seq::new((h.len() - 7) as nat, |i: int| h[i + 7] as char)
}

/// The claims of a token that `user` receives at Unix second `now`.
pub open spec fn claims_at(user: AuthUser, now: i64) -> AuthUserClaims {
    AuthUserClaims { user_id: user.user_id, exp: (now + TOKEN_LIFETIME_SECS) as u64 }
}

/// The claims of a token issued to `user` when the clock reads `now`: those
/// of `claims_at`, unless the expiry would leave the range of
/// `OffsetDateTime`.
pub open spec fn fresh_claims_at(user: AuthUser, now: i64) -> Option<AuthUserClaims> {
    if now <= LATEST_UNIX_SECOND - TOKEN_LIFETIME_SECS {
        Some(claims_at(user, now))
    } else {
        None
    }
}

/// What a token with `claims` lets in at Unix second `now`: its user, unless
/// the token expired before `now`.
pub open spec fn accepted_user(claims: AuthUserClaims, now: i64) -> Result<AuthUser, AppError> {
    if claims.exp < now as u64 {
        Err(AppError::Unauthorized)
    } else {
        Ok(AuthUser { user_id: claims.user_id })
    }
}

/// Reads the token out of an `Authorization` header value. The value must be
/// text (visible ASCII) and begin with `Bearer`; the token is what follows the
/// seven bytes `Bearer `. Anything else is unauthorized.
/// A value that is exactly `Bearer` has no byte after the scheme: it is left
/// out.
pub fn bearer_token(header: &[u8]) -> (r: Result<String, AppError>)
    requires
        header@ != bearer_word(),
    ensures
        r is Ok <==> bearer_accepted(header@),
        r matches Ok(t) ==> t@ == bearer_token_of(header@),
        r matches Err(e) ==> e == AppError::Unauthorized,
{
    let n = header.len();
    let mut bad = false;
    let mut i: usize = 0;
    while i < n
        invariant
            n == header@.len(),
            i <= n,
            bad <==> exists|j: int| 0 <= j < i && !visible_ascii(#[trigger] header@[j]),
        decreases n - i,
    {
        let b = header[i];
        if !((32 <= b && b < 127) || b == 9) {
            bad = true;
        }
        i = i + 1;
    }
    if bad {
        return Err(AppError::Unauthorized);
    }
    if n < 6 || header[0] != 66 || header[1] != 101 || header[2] != 97 || header[3] != 114
        || header[4] != 101 || header[5] != 114 {
        if n >= 6 {
            assert(header@.subrange(0, 6)[0] == header@[0]);
            assert(header@.subrange(0, 6)[1] == header@[1]);
            assert(header@.subrange(0, 6)[2] == header@[2]);
            assert(header@.subrange(0, 6)[3] == header@[3]);
            assert(header@.subrange(0, 6)[4] == header@[4]);
            assert(header@.subrange(0, 6)[5] == header@[5]);
        }
        return Err(AppError::Unauthorized);
    }
    assert(header@.subrange(0, 6) =~= bearer_word());
    if n == 6 {
        assert(header@ =~= bearer_word());
    }
    let mut token = String::new();
    let mut k: usize = 7;
    while k < n
        invariant
            n == header@.len(),
            7 <= k <= n,
            token@ =~= Seq::new((k - 7) as nat, |i: int| header@[i + 7] as char),
        decreases n - k,
    {
        push_char(&mut token, header[k] as char);
        k = k + 1;
    }
    Ok(token)
}

/// The HS256 token that `jsonwebtoken::encode` makes with the default
/// header for the claims `{user_id, exp}` (the user id in its hyphenated
/// text), signed with the bytes of `secret`.
pub uninterp spec fn hs256_token(user_id: u128, exp: u64, secret: Seq<char>) -> Seq<char>;

/// The claims `(user_id, exp)` that `jsonwebtoken::decode` with the default
/// validation finds in `token` under `secret`, apart from the check of the
/// expiry against the clock: `None` when the token is malformed, its
/// algorithm is not HS256, its signature does not verify, its claims lack a
/// numeric `exp` or name an audience, or its `user_id` is not a UUID.
pub uninterp spec fn hs256_claims(token: Seq<char>, secret: Seq<char>) -> Option<(u128, u64)>;

/// A character of a signed token: the URL-safe base64 alphabet and the dot
/// that separates the three parts.
pub open spec fn token_char(c: char) -> bool {
    ('A' <= c <= 'Z') || ('a' <= c <= 'z') || ('0' <= c <= '9') || c == '-' || c == '_' || c
        == '.'
}

/// `jsonwebtoken::encode` with the default header (HS256) of the claims
/// `{"exp": exp, "user_id": "<uuid>"}`, signed with `secret`. The token is
/// made of URL-safe base64 parts and dots, and `decode` under the same
/// secret finds the same claims in it. The algorithm family of the key and
/// the header agree and the claims serialise, so the error branch is never
/// taken.
#[verifier::external_body]
fn jwt_encode(user_id: u128, exp: u64, secret: &str) -> (t: String)
    ensures
        t@ == hs256_token(user_id, exp, secret@),
        hs256_claims(t@, secret@) == Some((user_id, exp)),
        forall|i: int| 0 <= i < t@.len() ==> token_char(#[trigger] t@[i]),
{
    let mut claims = serde_json::Map::new();
    let id = uuid::Uuid::from_u128(user_id).to_string();
    claims.insert("user_id".to_string(), serde_json::Value::String(id));
    claims.insert("exp".to_string(), serde_json::Value::from(exp));
    let key = jsonwebtoken::EncodingKey::from_secret(secret.as_bytes());
    jsonwebtoken::encode(&jsonwebtoken::Header::default(), &claims, &key).unwrap_or_default()
}

/// `jsonwebtoken::decode` with the default validation, except that the crate
/// leaves the expiry to the caller (`validate_exp` off; the `exp` claim is
/// still required), then the `user_id` claim read as a UUID and the `exp`
/// claim as an unsigned integer. With the expiry left out the crate reads no
/// clock, so what it finds is exactly what `hs256_claims` names.
#[verifier::external_body]
fn jwt_decode(token: &str, secret: &str) -> (r: Option<(u128, u64)>)
    ensures
        r == hs256_claims(token@, secret@),
{
    let key = jsonwebtoken::DecodingKey::from_secret(secret.as_bytes());
    let mut validation = jsonwebtoken::Validation::default();
    validation.validate_exp = false;
    let data = jsonwebtoken::decode::<serde_json::Value>(token, &key, &validation).ok()?;
    let id = uuid::Uuid::parse_str(data.claims.get("user_id")?.as_str()?).ok()?;
    let exp = data.claims.get("exp")?.as_u64()?;
    Some((id.as_u128(), exp))
}

/// What the service answers a request with header `header` when the token's
/// claims are read under `secret` and the clock reads `now`.
pub open spec fn jwt_outcome(header: Seq<u8>, secret: Seq<char>, now: i64) -> Result<
    AuthUser,
    AppError,
> {
    if !bearer_accepted(header) {
        Err(AppError::Unauthorized)
    } else {
        match hs256_claims(bearer_token_of(header), secret) {
            None => Err(AppError::Unauthorized),
            Some(c) => accepted_user(AuthUserClaims { user_id: c.0, exp: c.1 }, now),
        }
    }
}

impl AuthUser {
    /// The claims of a token issued to this user at Unix second `now`: valid
    /// until 24 hours later. The expiry must be an instant that
    /// `OffsetDateTime` holds.
    pub fn claims_at(&self, now: i64) -> (c: AuthUserClaims)
        requires
            EARLIEST_UNIX_SECOND <= now <= LATEST_UNIX_SECOND - TOKEN_LIFETIME_SECS,
        ensures
            c == claims_at(*self, now),
    {
        AuthUserClaims { user_id: self.user_id, exp: (now + TOKEN_LIFETIME_SECS) as u64 }
    }

    /// The claims of a token issued to this user when the clock reads `now`:
    /// valid until 24 hours later, or `None` when that expiry would leave the
    /// range of `OffsetDateTime` (the last day of year 9999).
    pub fn claims_for_reading(&self, now: i64) -> (r: Option<AuthUserClaims>)
        ensures
            r == fresh_claims_at(*self, now),
    {
        if now <= LATEST_UNIX_SECOND - TOKEN_LIFETIME_SECS {
            Some(AuthUserClaims { user_id: self.user_id, exp: (now + TOKEN_LIFETIME_SECS) as u64 })
        } else {
            None
        }
    }

    /// The claims of a token issued to this user now, by the system clock:
    /// those that `claims_for_reading` gives for the second the clock reads.
    pub fn fresh_claims(&self) -> (r: Option<AuthUserClaims>)
        ensures
            exists|now: i64|
                EARLIEST_UNIX_SECOND <= now <= LATEST_UNIX_SECOND && #[trigger] fresh_claims_at(
                    *self,
                    now,
                ) == r,
    {
        let now = unix_now();
        self.claims_for_reading(now)
    }

    /// The user that a token with `claims` lets in at Unix second `now`:
    /// unauthorized once the expiry lies before `now`.
    pub fn from_claims(claims: &AuthUserClaims, now: i64) -> (r: Result<AuthUser, AppError>)
        ensures
            r == accepted_user(*claims, now),
    {
        if claims.exp < now as u64 {
            Err(AppError::Unauthorized)
        } else {
            Ok(AuthUser { user_id: claims.user_id })
        }
    }

    /// The user that a token with `claims` lets in now, by the system clock.
    pub fn check_claims(claims: &AuthUserClaims) -> (r: Result<AuthUser, AppError>)
        ensures
            exists|now: i64|
                EARLIEST_UNIX_SECOND <= now <= LATEST_UNIX_SECOND && r == #[trigger] accepted_user(
                    *claims,
                    now,
                ),
    {
        let now = unix_now();
        Self::from_claims(claims, now)
    }

    /// The token issued to this user when the clock reads `now`: the claims
    /// of `claims_for_reading`, signed with `secret`; `None` where those
    /// claims are `None`.
    pub fn token_for_reading(&self, secret: &str, now: i64) -> (r: Option<String>)
        ensures
            match fresh_claims_at(*self, now) {
                Some(c) => r matches Some(t) && t@ == hs256_token(c.user_id, c.exp, secret@)
                    && hs256_claims(t@, secret@) == Some((c.user_id, c.exp)),
                None => r is None,
            },
            0 <= now <= LATEST_UNIX_SECOND - TOKEN_LIFETIME_SECS ==> (r matches Some(t)
                && hs256_claims(t@, secret@) matches Some(c) && c.0 == self.user_id && c.1 as int
                == now + 86400),
            now > LATEST_UNIX_SECOND - TOKEN_LIFETIME_SECS ==> r is None,
    {
        match self.claims_for_reading(now) {
            Some(c) => Some(jwt_encode(c.user_id, c.exp, secret)),
            None => None,
        }
    }

    /// A token for this user, valid for 24 hours from now by the system clock,
    /// signed with `secret`: what `token_for_reading` gives for the second the
    /// clock reads.
    pub fn to_jwt(&self, secret: &str) -> (r: Option<String>)
        ensures
            exists|now: i64|
                EARLIEST_UNIX_SECOND <= now <= LATEST_UNIX_SECOND && match #[trigger] fresh_claims_at(
                    *self,
                    now,
                ) {
                    Some(c) => r matches Some(t) && t@ == hs256_token(c.user_id, c.exp, secret@),
                    None => r is None,
                },
    {
        let now = unix_now();
        self.token_for_reading(secret, now)
    }

    /// The user that the `Authorization` header value `header` authenticates
    /// when the clock reads `now`: the bearer token is read out of it, its
    /// claims are read under `secret`, and the user is let in unless the
    /// token expired before `now`. Every failure is unauthorized. A value that
    /// is exactly `Bearer` is left out, as in `bearer_token`.
    pub fn from_jwt_at(secret: &str, header: &[u8], now: i64) -> (r: Result<AuthUser, AppError>)
        requires
            header@ != bearer_word(),
        ensures
            r == jwt_outcome(header@, secret@, now),
    {
        let token = bearer_token(header)?;
        match jwt_decode(token.as_str(), secret) {
            None => Err(AppError::Unauthorized),
            Some((user_id, exp)) => Self::from_claims(&AuthUserClaims { user_id, exp }, now),
        }
    }

    /// The user that the `Authorization` header value `header` authenticates
    /// now, by the system clock: what `from_jwt_at` gives for the second the
    /// clock reads.
    pub fn from_jwt(secret: &str, header: &[u8]) -> (r: Result<AuthUser, AppError>)
        requires
            header@ != bearer_word(),
        ensures
            !bearer_accepted(header@) ==> r == Err::<AuthUser, AppError>(AppError::Unauthorized),
            bearer_accepted(header@) && hs256_claims(bearer_token_of(header@), secret@) is None
                ==> r == Err::<AuthUser, AppError>(AppError::Unauthorized),
            r matches Err(e) ==> e == AppError::Unauthorized,
            exists|now: i64|
                EARLIEST_UNIX_SECOND <= now <= LATEST_UNIX_SECOND && r == #[trigger] jwt_outcome(
                    header@,
                    secret@,
                    now,
                ),
    {
        let now = unix_now();
        let r = Self::from_jwt_at(secret, header, now);
        assert(r == jwt_outcome(header@, secret@, now));
        r
    }
}

/// The header value `Bearer <token>`.
pub open spec fn bearer_header(token: Seq<u8>) -> Seq<u8> {
    bearer_word() + seq![32u8] + token
}

/// A client that sends `Bearer <token>`, with a token of visible ASCII, has
/// that token read back unchanged.
pub proof fn law_bearer_header_gives_back_token(token: Seq<u8>)
    requires
        header_is_text(token),
    ensures
        bearer_header(token) != bearer_word(),
        bearer_accepted(bearer_header(token)),
        bearer_token_of(bearer_header(token)) == token.map_values(|b: u8| b as char),
{
    let h = bearer_header(token);
    assert(h.len() == 7 + token.len());
    assert(h.len() != bearer_word().len());
    assert(h.subrange(0, 6) =~= bearer_word());
    assert forall|i: int| 0 <= i < h.len() implies visible_ascii(#[trigger] h[i]) by {
        if i >= 7 {
            assert(h[i] == token[i - 7]);
        }
    }
    assert(bearer_token_of(h) =~= token.map_values(|b: u8| b as char));
}

/// A token issued at Unix second `issued` lets in its user at every second
/// from `issued` to 24 hours later, and no later than that.
pub proof fn law_token_valid_for_a_day(user: AuthUser, issued: i64, now: i64)
    requires
        0 <= issued <= LATEST_UNIX_SECOND - TOKEN_LIFETIME_SECS,
        0 <= now,
    ensures
        now <= issued + TOKEN_LIFETIME_SECS ==> accepted_user(claims_at(user, issued), now) == Ok::<
            AuthUser,
            AppError,
        >(user),
        now > issued + TOKEN_LIFETIME_SECS ==> accepted_user(claims_at(user, issued), now) == Err::<
            AuthUser,
            AppError,
        >(AppError::Unauthorized),
{
}

/// A token that the service issued to `user` at second `issued` under
/// `secret`, sent back as `Bearer <token>`, lets that user in at every second
/// up to 24 hours later, when its claims are read under the same secret.
pub proof fn law_issued_token_lets_its_user_in(
    user: AuthUser,
    secret: Seq<char>,
    issued: i64,
    now: i64,
    token: Seq<u8>,
)
    requires
        0 <= issued <= LATEST_UNIX_SECOND - TOKEN_LIFETIME_SECS,
        issued <= now <= issued + TOKEN_LIFETIME_SECS,
        forall|i: int| 0 <= i < token.len() ==> token_char(#[trigger] token[i] as char),
        hs256_claims(token.map_values(|b: u8| b as char), secret) == Some(
            (user.user_id, claims_at(user, issued).exp),
        ),
    ensures
        jwt_outcome(bearer_header(token), secret, now) == Ok::<AuthUser, AppError>(user),
{
    assert forall|i: int| 0 <= i < token.len() implies visible_ascii(#[trigger] token[i]) by {
        assert(token_char(token[i] as char));
    }
    law_bearer_header_gives_back_token(token);
    law_token_valid_for_a_day(user, issued, now);
    assert(bearer_token_of(bearer_header(token)) == token.map_values(|b: u8| b as char));
}

/// A bearer header whose token carries the claims `(user_id, exp)` under the
/// secret lets that user in at every second up to `exp`, and no later: the
/// decision rests on the expiry alone, not on how long ago the token was
/// issued.
pub proof fn law_bearer_token_lets_its_user_in_until_expiry(
    header: Seq<u8>,
    secret: Seq<char>,
    now: i64,
    user_id: u128,
    exp: u64,
)
    requires
        bearer_accepted(header),
        hs256_claims(bearer_token_of(header), secret) == Some((user_id, exp)),
        0 <= now,
    ensures
        exp >= now ==> jwt_outcome(header, secret, now) == Ok::<AuthUser, AppError>(
            AuthUser { user_id },
        ),
        exp < now ==> jwt_outcome(header, secret, now) == Err::<AuthUser, AppError>(
            AppError::Unauthorized,
        ),
{
}

/// The claims of a token issued when the clock reads `now` name the user and
/// expire exactly 24 hours later; no token is issued in the last day that
/// `OffsetDateTime` holds.
pub proof fn law_fresh_claims_expire_a_day_later(user: AuthUser, now: i64)
    ensures
        0 <= now <= LATEST_UNIX_SECOND - TOKEN_LIFETIME_SECS ==> (fresh_claims_at(user, now) matches Some(
            c,
        ) && c.user_id == user.user_id && c.exp as int == now + 86400),
        now > LATEST_UNIX_SECOND - TOKEN_LIFETIME_SECS ==> fresh_claims_at(user, now) is None,
{
}

} // verus!
