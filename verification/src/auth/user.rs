//! User accounts: registration, login and account updates, and the password
//! hashes they rest on.
use vstd::prelude::*;
use vstd::string::StringExecFns;
use crate::http::errors::AppError;
use argon2::PasswordHasher;
use argon2::PasswordVerifier;

verus! {

/// The body of a registration request.
pub struct NewUser {
    pub email: String,
    pub password: String,
}

/// The body of a login request.
pub struct LoginUser {
    pub email: String,
    pub password: String,
}

/// The answer to registration, login and account update: the account's email
/// and a fresh token.
pub struct UserResponse {
    pub email: String,
    pub token: String,
}

/// The body of an account update: the fields to change.
pub struct UserUpdate {
    pub email: Option<String>,
    pub password: Option<String>,
}

/// What registration stores: the email and the hash of the password.
pub struct Registration {
    pub email: String,
    pub password_hash: String,
}

/// What an account update writes: the new email and the hash of the new
/// password, each only if the request changes it.
pub struct UserChanges {
    pub email: Option<String>,
    pub password_hash: Option<String>,
}

/// Whether `argon2::PasswordHash::new` accepts `hash` as a PHC string.
pub uninterp spec fn phc_hash_parses(hash: Seq<char>) -> bool;

/// Whether the default Argon2 hasher accepts `password` against the PHC
/// string `hash` (`Argon2::default().verify_password(..).is_ok()`).
pub uninterp spec fn argon2_verifies(password: Seq<char>, hash: Seq<char>) -> bool;

/// `hash` is a PHC string that the password `password` verifies against:
/// what hashing the password hands back.
pub open spec fn hash_of(hash: Seq<char>, password: Seq<char>) -> bool {
    phc_hash_parses(hash) && argon2_verifies(password, hash)
}

/// The outcome of checking `password` against the stored `hash`: an internal
/// error when the stored hash is not a PHC string, otherwise whether the
/// password verifies.
pub open spec fn verification(hash: Seq<char>, password: Seq<char>) -> Result<bool, AppError> {
    if !phc_hash_parses(hash) {
        Err(AppError::InternalError)
    } else {
        Ok(argon2_verifies(password, hash))
    }
}

/// How every hash of the default Argon2 hasher begins: the algorithm
/// Argon2id, version 19, 19456 KiB of memory, 2 passes, 1 lane.
pub open spec fn argon2_default_prefix() -> Seq<char> {
    "$argon2id$v=19$m=19456,t=2,p=1$"@
}

/// `hash` is what the default Argon2 hasher writes for `password`: its
/// parameters lead the text, it parses as a PHC string, and the password
/// verifies against it.
pub open spec fn default_hash_of(hash: Seq<char>, password: Seq<char>) -> bool {
    &&& hash.len() >= 31
    &&& hash.subrange(0, 31) == argon2_default_prefix()
    &&& hash_of(hash, password)
}

pub open spec fn msg_password_empty() -> Seq<char> {
    "password is empty"@
}

pub open spec fn msg_update_failed() -> Seq<char> {
    "failed to update password"@
}

/// `Argon2::default().hash_password(password)` with a salt drawn from the
/// system's random source, as a PHC string. Which salt is drawn is chance;
/// whatever comes back begins with the default parameters
/// (`$argon2id$v=19$m=19456,t=2,p=1$`), parses as a PHC string and verifies
/// the password, as the crate documents. When the hasher fails, `None`.
#[verifier::external_body]
fn argon2_hash(password: &str) -> (r: Option<String>)
    ensures
        r matches Some(h) ==> default_hash_of(h@, password@),
{
    match argon2::Argon2::default().hash_password(password.as_bytes()) {
        Ok(hash) => Some(hash.to_string()),
        Err(_) => None,
    }
}

/// Whether `argon2::PasswordHash::new(hash)` parses.
#[verifier::external_body]
fn phc_parses(hash: &str) -> (ok: bool)
    ensures
        ok == phc_hash_parses(hash@),
{
    argon2::PasswordHash::new(hash).is_ok()
}

/// Whether `Argon2::default().verify_password(password, hash)` accepts.
#[verifier::external_body]
fn argon2_verify(password: &str, hash: &str) -> (ok: bool)
    ensures
        ok == argon2_verifies(password@, hash@),
{
    argon2::Argon2::default().verify_password(password.as_bytes(), hash).is_ok()
}

/// Hashes a password with Argon2 and a fresh random salt. A failure of the
/// hasher is an internal error.
pub fn hash_password(password: String) -> (r: Result<String, AppError>)
    ensures
        r matches Ok(h) ==> default_hash_of(h@, password@),
        r matches Err(e) ==> e == AppError::InternalError,
{
    match argon2_hash(password.as_str()) {
        Some(h) => Ok(h),
        None => Err(AppError::InternalError),
    }
}

/// Checks a password against a stored hash. A stored hash that is not a PHC
/// string is an internal error.
pub fn verify_password(password_hash: String, password: String) -> (r: Result<bool, AppError>)
    ensures
        r == verification(password_hash@, password@),
{
    if !phc_parses(password_hash.as_str()) {
        return Err(AppError::InternalError);
    }
    Ok(argon2_verify(password.as_str(), password_hash.as_str()))
}

/// Checks a registration request and hashes its password. An empty password
/// is a bad request; an empty email is unauthorized; the password is checked
/// first.
pub fn prepare_registration(req: NewUser) -> (r: Result<Registration, AppError>)
    ensures
        req.password@.len() == 0 ==> (r matches Err(AppError::BadRequest(m)) && m@
            == msg_password_empty()),
        req.password@.len() != 0 && req.email@.len() == 0 ==> r == Err::<
            Registration,
            AppError,
        >(AppError::Unauthorized),
        req.password@.len() != 0 && req.email@.len() != 0 ==> (match r {
            Ok(reg) => reg.email@ == req.email@ && default_hash_of(
                reg.password_hash@,
                req.password@,
            ),
            Err(e) => e == AppError::InternalError,
        }),
{
    if req.password.as_str().is_empty() {
        return Err(AppError::BadRequest(String::from_str("password is empty")));
    }
    if req.email.as_str().is_empty() {
        return Err(AppError::Unauthorized);
    }
    let password_hash = hash_password(req.password)?;
    Ok(Registration { email: req.email, password_hash })
}

/// The login decision for a stored hash and the password given: success when
/// the password verifies, not found when it does not.
pub fn check_login(password_hash: String, password: String) -> (r: Result<(), AppError>)
    ensures
        !phc_hash_parses(password_hash@) ==> r == Err::<(), AppError>(AppError::InternalError),
        phc_hash_parses(password_hash@) && argon2_verifies(password@, password_hash@) ==> r
            is Ok,
        phc_hash_parses(password_hash@) && !argon2_verifies(password@, password_hash@) ==> r
            == Err::<(), AppError>(AppError::NotFound),
{
    if verify_password(password_hash, password)? == true {
        Ok(())
    } else {
        Err(AppError::NotFound)
    }
}

/// What an account update writes: the new email as given, and the hash of the
/// new password if there is one. A failure to hash is a bad request.
pub fn prepare_user_update(req: UserUpdate) -> (r: Result<UserChanges, AppError>)
    ensures
        req.password is None ==> (r matches Ok(c) && c.password_hash is None && c.email
            == req.email),
        req.email is None && req.password is None ==> (r matches Ok(c) && c.email is None
            && c.password_hash is None),
        req.password matches Some(p) ==> (match r {
            Ok(c) => c.email == req.email && (c.password_hash matches Some(h) && default_hash_of(
                h@,
                p@,
            )),
            Err(e) => e matches AppError::BadRequest(m) && m@ == msg_update_failed(),
        }),
{
    let hashed = match req.password {
        Some(password) => Some(hash_password(password)),
        None => None,
    };
    user_changes(req.email, hashed)
}

/// What an account update writes, given the outcome of hashing the new
/// password (`None` when there is none): the email and the hash to write, or
/// `None` when the update is refused.
pub open spec fn update_writes(email: Option<String>, hashed: Option<Result<String, AppError>>) -> Option<
    (Option<String>, Option<String>),
> {
    match hashed {
        None => Some((email, None)),
        Some(Ok(h)) => Some((email, Some(h))),
        Some(Err(_)) => None,
    }
}

/// What an account update writes once the new password, if any, has been
/// hashed: the email as given, and the hash that hashing handed back. Only a
/// failed hashing makes the update a bad request.
pub fn user_changes(email: Option<String>, hashed: Option<Result<String, AppError>>) -> (r: Result<
    UserChanges,
    AppError,
>)
    ensures
        match update_writes(email, hashed) {
            Some((e, h)) => r matches Ok(c) && c.email == e && c.password_hash == h,
            None => r matches Err(AppError::BadRequest(m)) && m@ == msg_update_failed(),
        },
{
    match hashed {
        None => Ok(UserChanges { email, password_hash: None }),
        Some(Ok(h)) => Ok(UserChanges { email, password_hash: Some(h) }),
        Some(Err(_)) => Err(AppError::BadRequest(String::from_str("failed to update password"))),
    }
}

/// An account update is refused only when hashing the new password failed;
/// otherwise it writes the email exactly as given, and the hash that was had,
/// or no hash when there is no new password.
pub proof fn law_update_fails_only_on_hashing(
    email: Option<String>,
    hashed: Option<Result<String, AppError>>,
)
    ensures
        update_writes(email, hashed) is None <==> hashed matches Some(Err(_)),
        update_writes(email, hashed) matches Some(w) ==> w.0 == email,
        hashed is None ==> update_writes(email, hashed) == Some::<(Option<String>, Option<String>)>(
            (email, None),
        ),
        hashed matches Some(Ok(h)) ==> update_writes(email, hashed) == Some::<
            (Option<String>, Option<String>),
        >((email, Some(h))),
{
}

/// A hash that hashing `password` handed back verifies that password, and a
/// login with it succeeds.
pub proof fn law_hashed_password_verifies(hash: Seq<char>, password: Seq<char>)
    requires
        hash_of(hash, password),
    ensures
        verification(hash, password) == Ok::<bool, AppError>(true),
{
}

} // verus!
