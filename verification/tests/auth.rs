use todo_api::auth::extractor::{bearer_token, AuthUser, AuthUserClaims};
use todo_api::auth::user::{
    check_login, hash_password, prepare_registration, prepare_user_update, verify_password, NewUser,
    UserUpdate,
};
use todo_api::http::errors::AppError;

const USER: u128 = 0xdead_beef_0000_0000_0000_0000_0000_0001;

fn unix_now() -> i64 {
    std::time::SystemTime::now().duration_since(std::time::UNIX_EPOCH).unwrap().as_secs() as i64
}

#[test]
fn bearer_token_reads_the_token_after_the_scheme() {
    assert_eq!(bearer_token(b"Bearer abc.def.ghi").ok().unwrap(), "abc.def.ghi");
    assert_eq!(bearer_token(b"Bearer ").ok().unwrap(), "");
    // The scheme is matched on its first six bytes; the seventh is skipped.
    assert_eq!(bearer_token(b"BearerXtoken").ok().unwrap(), "token");
    assert_eq!(bearer_token(b"Bearer a\tb").ok().unwrap(), "a\tb");
}

#[test]
fn bearer_token_refuses_other_schemes() {
    assert!(matches!(bearer_token(b"Basic dXNlcjpwYXNz"), Err(AppError::Unauthorized)));
    assert!(matches!(bearer_token(b"bearer abc"), Err(AppError::Unauthorized)));
    assert!(matches!(bearer_token(b"Beare"), Err(AppError::Unauthorized)));
    assert!(matches!(bearer_token(b""), Err(AppError::Unauthorized)));
}

#[test]
fn bearer_token_refuses_values_that_are_not_text() {
    assert!(matches!(bearer_token(b"Bearer ab\x7fc"), Err(AppError::Unauthorized)));
    assert!(matches!(bearer_token(b"Bearer \xc3\xa9"), Err(AppError::Unauthorized)));
    assert!(matches!(bearer_token(b"Bearer a\nb"), Err(AppError::Unauthorized)));
}

#[test]
fn claims_expire_a_day_after_issue() {
    let user = AuthUser { user_id: USER };
    let c = user.claims_at(1_700_000_000);
    assert_eq!(c, AuthUserClaims { user_id: USER, exp: 1_700_086_400 });
}

#[test]
fn claims_admit_their_user_until_expiry() {
    let c = AuthUserClaims { user_id: USER, exp: 1_700_086_400 };
    assert_eq!(AuthUser::from_claims(&c, 1_700_000_000).ok().unwrap(), AuthUser { user_id: USER });
    assert_eq!(AuthUser::from_claims(&c, 1_700_086_400).ok().unwrap(), AuthUser { user_id: USER });
    assert!(matches!(AuthUser::from_claims(&c, 1_700_086_401), Err(AppError::Unauthorized)));
}

#[test]
fn token_issued_now_is_accepted_now_and_expired_ones_are_not() {
    let user = AuthUser { user_id: USER };
    let before = unix_now();
    let c = user.fresh_claims().unwrap();
    let after = unix_now();
    assert_eq!(c.user_id, USER);
    assert!(c.exp >= (before + 86_400) as u64 && c.exp <= (after + 86_400) as u64);
    assert_eq!(AuthUser::check_claims(&c).ok().unwrap(), user);
    let old = AuthUserClaims { user_id: USER, exp: (before - 10) as u64 };
    assert!(matches!(AuthUser::check_claims(&old), Err(AppError::Unauthorized)));
}

#[test]
fn hashed_password_verifies_and_others_do_not() {
    let hash = hash_password("hunter42".to_string()).ok().unwrap();
    assert!(hash.starts_with("$argon2id$v=19$m=19456,t=2,p=1$"));
    assert_eq!(verify_password(hash.clone(), "hunter42".to_string()).ok(), Some(true));
    assert_eq!(verify_password(hash.clone(), "hunter43".to_string()).ok(), Some(false));
    assert!(check_login(hash.clone(), "hunter42".to_string()).is_ok());
    assert!(matches!(check_login(hash, "wrong".to_string()), Err(AppError::NotFound)));
}

#[test]
fn stored_hash_that_is_not_phc_is_an_internal_error() {
    assert!(matches!(
        verify_password("not a hash".to_string(), "x".to_string()),
        Err(AppError::InternalError)
    ));
    assert!(matches!(
        check_login("not a hash".to_string(), "x".to_string()),
        Err(AppError::InternalError)
    ));
}

#[test]
fn registration_needs_a_password_then_an_email() {
    match prepare_registration(NewUser { email: "".to_string(), password: "".to_string() }) {
        Err(AppError::BadRequest(m)) => assert_eq!(m, "password is empty"),
        _ => panic!("empty password accepted"),
    }
    assert!(matches!(
        prepare_registration(NewUser { email: "".to_string(), password: "pw".to_string() }),
        Err(AppError::Unauthorized)
    ));
}

#[test]
fn registration_stores_a_hash_of_the_password() {
    let reg = prepare_registration(NewUser {
        email: "a@example.com".to_string(),
        password: "pw".to_string(),
    })
    .ok()
    .unwrap();
    assert_eq!(reg.email, "a@example.com");
    assert_ne!(reg.password_hash, "pw");
    assert_eq!(verify_password(reg.password_hash, "pw".to_string()).ok(), Some(true));
}

#[test]
fn account_update_hashes_only_a_new_password() {
    let c = prepare_user_update(UserUpdate { email: Some("b@example.com".to_string()), password: None })
        .ok()
        .unwrap();
    assert_eq!(c.email.as_deref(), Some("b@example.com"));
    assert!(c.password_hash.is_none());
    let c = prepare_user_update(UserUpdate { email: None, password: Some("new".to_string()) })
        .ok()
        .unwrap();
    assert!(c.email.is_none());
    assert_eq!(verify_password(c.password_hash.unwrap(), "new".to_string()).ok(), Some(true));
}

#[test]
fn claims_for_a_reading_expire_a_day_later_within_range() {
    let user = AuthUser { user_id: USER };
    assert_eq!(
        user.claims_for_reading(1_700_000_000),
        Some(AuthUserClaims { user_id: USER, exp: 1_700_086_400 })
    );
    assert_eq!(
        user.claims_for_reading(253_402_300_799 - 86_400),
        Some(AuthUserClaims { user_id: USER, exp: 253_402_300_799 })
    );
    assert_eq!(user.claims_for_reading(253_402_300_799 - 86_399), None);
}

#[test]
fn empty_account_update_changes_nothing() {
    let c = prepare_user_update(UserUpdate { email: None, password: None }).ok().unwrap();
    assert!(c.email.is_none());
    assert!(c.password_hash.is_none());
}

#[test]
fn issued_token_lets_its_user_in() {
    let user = AuthUser { user_id: USER };
    let token = user.to_jwt("s3cret").unwrap();
    assert!(token.chars().all(|c| c.is_ascii_alphanumeric() || c == '-' || c == '_' || c == '.'));
    let header = format!("Bearer {}", token);
    assert_eq!(AuthUser::from_jwt("s3cret", header.as_bytes()).ok().unwrap(), user);
}

#[test]
fn token_under_another_secret_or_altered_is_refused() {
    let user = AuthUser { user_id: USER };
    let token = user.to_jwt("s3cret").unwrap();
    let header = format!("Bearer {}", token);
    assert!(matches!(AuthUser::from_jwt("other", header.as_bytes()), Err(AppError::Unauthorized)));
    let mut altered = token.clone();
    altered.push('x');
    let header = format!("Bearer {}", altered);
    assert!(matches!(AuthUser::from_jwt("s3cret", header.as_bytes()), Err(AppError::Unauthorized)));
    assert!(matches!(AuthUser::from_jwt("s3cret", b"Bearer not.a.token"), Err(AppError::Unauthorized)));
    assert!(matches!(AuthUser::from_jwt("s3cret", b"Basic abc"), Err(AppError::Unauthorized)));
}

#[test]
fn expired_token_is_refused() {
    let user = AuthUser { user_id: USER };
    let issued = unix_now() - 2 * 86_400;
    let token = user.token_for_reading("s3cret", issued).unwrap();
    let header = format!("Bearer {}", token);
    assert!(matches!(AuthUser::from_jwt("s3cret", header.as_bytes()), Err(AppError::Unauthorized)));
    assert!(user.token_for_reading("s3cret", 253_402_300_799 - 86_399).is_none());
}
