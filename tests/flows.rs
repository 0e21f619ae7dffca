use lynkt::accounts::{login_at, prepare_registration, subject_id, Credentials, DEFAULT_BIO};
use lynkt::authentication::{Claims, JwtAuth, JwtConfig};
use lynkt::errors::ApiError;
use lynkt::gates::{frontend_gate, guard_at, token_gate_at, Rejection};
use lynkt::password::verify_password;
use lynkt::payloads::CreateOrUpdateUserPayload;

const ALICE_ID: u128 = 0x67e5_5044_10b1_426f_9247_bb68_0e5f_e0c8;

fn codec() -> JwtAuth {
    JwtAuth::new(JwtConfig::new("top-secret".to_string(), 60))
}

fn alice() -> CreateOrUpdateUserPayload {
    CreateOrUpdateUserPayload {
        name: "Alice Smith".to_string(),
        bio: None,
        slug: "alice".to_string(),
        email: "alice@x.com".to_string(),
        password: "Str0ng!Pass".to_string(),
        country: "US".to_string(),
    }
}

fn assert_invalid_credentials(r: Result<String, ApiError>) {
    match r {
        Err(e) => {
            assert_eq!(e.status_code(), 401);
            assert_eq!(e.message(), "Invalid credentials");
        }
        Ok(_) => panic!("login should have failed"),
    }
}

#[test]
fn register_login_and_me() {
    let user = prepare_registration(&alice()).unwrap();
    assert_eq!(user.name, "Alice Smith");
    assert_eq!(user.slug, "alice");
    assert_eq!(user.email, "alice@x.com");
    assert_eq!(user.country, "US");
    assert_eq!(user.bio, DEFAULT_BIO);
    assert_ne!(user.password_hash, "Str0ng!Pass");
    assert!(verify_password("Str0ng!Pass", &user.password_hash));

    let stored = Credentials { id: ALICE_ID, password_hash: user.password_hash.clone() };
    let auth = codec();
    let token = login_at(&auth, "Str0ng!Pass", Some(&stored), 2_000).unwrap();

    assert_invalid_credentials(login_at(&auth, "Wr0ng!Pass", Some(&stored), 2_000));
    assert_invalid_credentials(login_at(&auth, "Str0ng!Pass", None, 2_000));

    let claims = guard_at(&auth, Some("front"), "front", Some(&token), 2_010).unwrap();
    assert_eq!(claims.sub, "67e55044-10b1-426f-9247-bb680e5fe0c8");
    assert_eq!(subject_id(&claims).unwrap(), ALICE_ID);

    let none = guard_at(&auth, Some("front"), "front", None, 2_010).unwrap_err();
    assert_eq!(none, Rejection::CookieMissing);
    assert_eq!(none.into_api_error().status_code(), 400);
}

#[test]
fn registration_keeps_a_given_bio() {
    let mut p = alice();
    p.bio = Some("Building things on the web since 2001.".to_string());
    let user = prepare_registration(&p).unwrap();
    assert_eq!(user.bio, "Building things on the web since 2001.");
    p.email = "nope".to_string();
    assert!(matches!(prepare_registration(&p), Err(ApiError::ValidationFailed(_))));
}

#[test]
fn frontend_gate_outcomes() {
    assert_eq!(frontend_gate(None, "s3cret"), Err(Rejection::HeaderMissing));
    assert_eq!(frontend_gate(Some("guess"), "s3cret"), Err(Rejection::HeaderInvalid));
    assert_eq!(frontend_gate(Some("s3cret"), "s3cret"), Ok(()));
    let e = Rejection::HeaderMissing.into_api_error();
    assert_eq!(e.status_code(), 401);
    assert_eq!(e.message(), "Header named `x-frontend-secret` missing");
    assert_eq!(Rejection::HeaderInvalid.into_api_error().message(), "Header named `x-frontend-secret` invalid");
}

#[test]
fn token_gate_outcomes() {
    let auth = codec();
    assert_eq!(token_gate_at(&auth, None, 0).unwrap_err(), Rejection::CookieMissing);
    let token = auth.issue_at("someone", 1_000).unwrap();
    assert_eq!(token_gate_at(&auth, Some(&token), 1_000).unwrap().sub, "someone");
    assert_eq!(token_gate_at(&auth, Some(&token), 4_601).unwrap_err(), Rejection::TokenRejected);
    assert_eq!(token_gate_at(&auth, Some("garbage"), 1_000).unwrap_err(), Rejection::TokenRejected);
    let e = Rejection::TokenRejected.into_api_error();
    assert_eq!(e.status_code(), 401);
    assert_eq!(e.message(), "Token is not valid");
    assert_eq!(guard_at(&auth, None, "front", Some(&token), 1_000).unwrap_err(), Rejection::HeaderMissing);
    assert_eq!(guard_at(&auth, Some("x"), "front", Some(&token), 1_000).unwrap_err(), Rejection::HeaderInvalid);
}

#[test]
fn subject_that_is_no_uuid() {
    let c = Claims { sub: "alice".to_string(), iat: 0, exp: 1 };
    match subject_id(&c) {
        Err(e) => {
            assert_eq!(e.status_code(), 400);
            assert_eq!(e.message(), "Unable to get your data from token");
        }
        Ok(_) => panic!("no uuid"),
    }
}

#[test]
fn error_statuses_and_messages() {
    assert_eq!(ApiError::NotFound("n".to_string()).status_code(), 404);
    assert_eq!(ApiError::BadRequest("b".to_string()).status_code(), 400);
    assert_eq!(ApiError::ValidationFailed("v".to_string()).status_code(), 400);
    assert_eq!(ApiError::DbError("d".to_string()).status_code(), 500);
    assert_eq!(ApiError::Unauthorized("u".to_string()).status_code(), 401);
    assert_eq!(ApiError::HashError.status_code(), 500);
    assert_eq!(ApiError::HashError.message(), "Hashing failed");
    assert_eq!(ApiError::PoolError.status_code(), 500);
    assert_eq!(ApiError::PoolError.message(), "Database unavailable");
    assert_eq!(ApiError::Unauthorized("u".to_string()).message(), "u");
    let nf = ApiError::from_db_failure(true);
    assert_eq!((nf.status_code(), nf.message()), (404, "Record not found".to_string()));
    let db = ApiError::from_db_failure(false);
    assert_eq!((db.status_code(), db.message()), (500, "Database error".to_string()));
    assert_eq!(ApiError::invalid_payload().status_code(), 400);
}

#[test]
fn login_and_gate_on_the_real_clock() {
    let user = prepare_registration(&alice()).unwrap();
    let stored = Credentials { id: 42, password_hash: user.password_hash };
    let auth = codec();
    let token = lynkt::accounts::login(&auth, "Str0ng!Pass", Some(&stored)).unwrap();
    let claims = lynkt::gates::token_gate(&auth, Some(&token)).unwrap();
    assert_eq!(subject_id(&claims).unwrap(), 42);
    assert_eq!(lynkt::gates::token_gate(&auth, None).unwrap_err(), Rejection::CookieMissing);
    assert_invalid_credentials(lynkt::accounts::login(&auth, "nope", Some(&stored)));
}

#[test]
fn rejection_messages_and_storage_failure() {
    let e = Rejection::CookieMissing.into_api_error();
    assert_eq!(e.status_code(), 400);
    assert_eq!(e.message(), "Cookie with name 'token' is not present");
    let db = ApiError::storage_failure();
    assert_eq!(db.status_code(), 500);
    assert_eq!(db.message(), "DB error");
    let mut p = alice();
    p.password = "weak".to_string();
    match prepare_registration(&p) {
        Err(ApiError::ValidationFailed(m)) => assert_eq!(m, "Invalid payload"),
        other => panic!("unexpected {:?}", other),
    }
}

#[test]
fn login_outside_a_valid_lifetime_reports_token_failure() {
    let user = prepare_registration(&alice()).unwrap();
    let stored = Credentials { id: 1, password_hash: user.password_hash };
    let auth = JwtAuth::new(JwtConfig::new("k".to_string(), 0));
    match login_at(&auth, "Str0ng!Pass", Some(&stored), 100) {
        Err(e) => {
            assert_eq!(e.status_code(), 500);
            assert_eq!(e.message(), "Failed to create authentication token");
        }
        Ok(_) => panic!("a zero lifetime gives no token"),
    }
}
