use task_auth::compute::auth::login::{
    check_credentials, code_delivery_log, dev_email_event, format_code, issue_login_code,
    new_challenge,
};
use task_auth::compute::auth::seed_users::{seed_accounts, SeedRun};
use task_auth::compute::auth::verify_2fa::{
    challenge_owner, check_challenge, check_challenge_at, confirm_consumption, consume_challenge,
    consume_challenge_at, parse_challenge_id,
};
use task_auth::compute::authorization::{
    authenticate, authenticate_claims, bearer_token, require_admin,
};
use task_auth::errors::ApiError;
use task_auth::models::auth::LoginChallenge;
use task_auth::models::object_id::ObjectId;
use task_auth::models::session::{AuthUser, JwtClaims};
use task_auth::models::user::{email_lookup_key, User, UserRole};
use task_auth::security::hash_password;
use task_auth::utils::jwt::{
    access_token_claims, access_token_claims_at, decode_access_token, issue_access_token,
};

fn user(id: Option<ObjectId>, password: &str, role: UserRole) -> User {
    User {
        id,
        full_name: "Admin".to_string(),
        email: "admin@example.com".to_string(),
        password_hash: hash_password(password).expect("hash should be generated"),
        role,
        created_at: 1,
        updated_at: 1,
    }
}

fn some_id() -> ObjectId {
    ObjectId { high: 0x65a1_b2c3, low: 42 }
}

fn unauthorized(message: &str) -> ApiError {
    ApiError::Unauthorized(message.to_string())
}

#[test]
fn unknown_email_and_wrong_password_look_alike() {
    let stored = Some(user(Some(some_id()), "Admin@123", UserRole::Admin));
    assert_eq!(check_credentials(&None, "Admin@123"), Err(unauthorized("invalid email or password")));
    assert_eq!(check_credentials(&stored, "nope"), Err(unauthorized("invalid email or password")));
    assert_eq!(check_credentials(&stored, "Admin@123"), Ok(some_id()));
    let no_id = Some(user(None, "Admin@123", UserRole::Admin));
    assert_eq!(
        check_credentials(&no_id, "Admin@123"),
        Err(ApiError::Internal("user id missing".to_string()))
    );
}

#[test]
fn corrupt_stored_hash_is_internal() {
    let mut u = user(Some(some_id()), "x", UserRole::Staff);
    u.password_hash = "plain".to_string();
    match check_credentials(&Some(u), "x") {
        Err(ApiError::Internal(m)) => assert!(m.starts_with("invalid stored password hash")),
        other => panic!("unexpected {other:?}"),
    }
}

#[test]
fn codes_are_six_zero_padded_digits() {
    assert_eq!(format_code(0), "000000");
    assert_eq!(format_code(42), "000042");
    assert_eq!(format_code(999_999), "999999");
}

#[test]
fn issued_code_is_hashed_and_expires_in_five_minutes() {
    let issued = issue_login_code(some_id()).expect("code should be issued");
    assert_eq!(issued.code.len(), 6);
    assert!(issued.code.chars().all(|c| c.is_ascii_digit()));
    let c = &issued.challenge;
    assert_eq!(c.user_id, some_id());
    assert_eq!(c.id, None);
    assert_eq!(c.used_at, None);
    assert_eq!(c.expires_at - c.created_at, 300_000);
    assert_ne!(c.code_hash, issued.code);
    assert!(c.code_hash.starts_with('$'));
    assert!(task_auth::security::verify_password(&issued.code, &c.code_hash).unwrap());
    let issued_at = chrono::DateTime::parse_from_rfc3339(&issued.issued_at).expect("rfc 3339 text");
    assert_eq!(issued_at.timestamp_millis(), c.created_at);
}

#[test]
fn delivery_log_masks_the_code() {
    let log = code_delivery_log("admin@example.com", "123456", some_id(), 7);
    assert_eq!(log.masked_code, "****56");
    assert_eq!(log.purpose, "login_2fa");
    assert_eq!(log.to_email, "admin@example.com");
    assert_eq!(log.challenge_id, some_id());
    assert_eq!(log.created_at, 7);
    assert_eq!(log.id, None);
    let event = dev_email_event("admin@example.com", "123456", &some_id(), "2024-01-01T00:00:00+00:00");
    assert_eq!(event.code, "123456");
    assert_eq!(event.challenge_id, "65a1b2c3000000000000002a");
    assert_eq!(event.created_at_iso, "2024-01-01T00:00:00+00:00");
}

fn challenge(code: &str, expires_at: i64, used_at: Option<i64>) -> LoginChallenge {
    let mut c = new_challenge(some_id(), hash_password(code).unwrap(), expires_at - 300_000);
    c.used_at = used_at;
    c
}

#[test]
fn challenge_checks_in_order() {
    let fresh = Some(challenge("123456", 1_000_000, None));
    assert_eq!(check_challenge_at(&fresh, "123456", 1_000_000), Ok(()));
    assert_eq!(check_challenge_at(&fresh, "123456", 700_000), Ok(()));
    assert_eq!(
        check_challenge_at(&fresh, "123456", 1_000_001),
        Err(unauthorized("verification code expired"))
    );
    assert_eq!(
        check_challenge_at(&fresh, "654321", 1_000_000),
        Err(unauthorized("incorrect verification code"))
    );
    assert_eq!(
        check_challenge_at(&None, "123456", 0),
        Err(unauthorized("invalid or expired challenge"))
    );
    let used = Some(challenge("123456", 1_000_000, Some(5)));
    assert_eq!(
        check_challenge_at(&used, "123456", 0),
        Err(unauthorized("verification code already used"))
    );
    let used_and_expired = Some(challenge("123456", 10, Some(5)));
    assert_eq!(
        check_challenge_at(&used_and_expired, "000000", 99),
        Err(unauthorized("verification code already used"))
    );
}

#[test]
fn code_is_one_time() {
    let c = challenge("123456", i64::MAX, None);
    let consumed = consume_challenge_at(c, 77);
    assert_eq!(consumed.used_at, Some(77));
    assert_eq!(
        check_challenge_at(&Some(consumed), "123456", 0),
        Err(unauthorized("verification code already used"))
    );
    let c = challenge("123456", i64::MAX, None);
    assert_eq!(check_challenge(&Some(consume_challenge(c)), "123456"), Err(unauthorized("verification code already used")));
}

#[test]
fn challenge_id_parsing() {
    assert_eq!(parse_challenge_id("65a1b2c3000000000000002a"), Ok(some_id()));
    assert_eq!(
        parse_challenge_id("nope"),
        Err(ApiError::BadRequest("invalid login_challenge_id".to_string()))
    );
}

#[test]
fn challenge_owner_resolution() {
    assert_eq!(challenge_owner(&None).unwrap_err(), unauthorized("user not found for challenge"));
    let no_id = Some(user(None, "x", UserRole::Staff));
    assert_eq!(
        challenge_owner(&no_id).unwrap_err(),
        ApiError::Internal("user id missing".to_string())
    );
    let owner = Some(user(Some(some_id()), "x", UserRole::Staff));
    assert_eq!(challenge_owner(&owner), Ok((some_id(), UserRole::Staff)));
}

#[test]
fn issues_and_decodes_token() {
    let user_id = ObjectId { high: 0x6600_0000, low: 7 };
    let secret = "test-secret";
    let token = issue_access_token(&user_id, "admin@example.com", &UserRole::Admin, secret)
        .expect("token should be issued");

    let claims = decode_access_token(&token, secret).expect("token should decode");
    assert_eq!(claims.sub, user_id.to_hex());
    assert_eq!(claims.email, "admin@example.com");
    assert_eq!(claims.role, "admin");
}

#[test]
fn signed_tokens_authenticate_their_user() {
    let user_id = ObjectId { high: 0x6600_0000, low: 7 };
    let secret = "test-secret";
    let token = issue_access_token(&user_id, "admin@example.com", &UserRole::Admin, secret)
        .expect("token should be issued");
    assert_eq!(token.split('.').count(), 3);
    let claims = decode_access_token(&token, secret).expect("token should decode");
    assert_eq!(claims.exp, claims.iat + 86_400);

    let caller = authenticate(&token, secret).expect("token names a user");
    assert_eq!(caller.id, user_id);
    assert_eq!(caller.email, "admin@example.com");
    assert_eq!(caller.role, UserRole::Admin);

    assert!(decode_access_token(&token, "other-secret")
        .unwrap_err()
        .starts_with("failed to decode jwt: "));
    assert_eq!(authenticate(&token, "other-secret").unwrap_err(), unauthorized("invalid access token"));
    assert_eq!(authenticate("not-a-token", secret).unwrap_err(), unauthorized("invalid access token"));

    let at = access_token_claims_at(&user_id, "a@b.c", &UserRole::Staff, 1_700_000_000);
    assert_eq!(at.iat, 1_700_000_000);
    assert_eq!(at.exp, 1_700_086_400);
    let now = access_token_claims(&user_id, "a@b.c", &UserRole::Staff);
    assert_eq!(now.exp, now.iat + 86_400);
}

fn claims(sub: &str, role: &str) -> JwtClaims {
    JwtClaims {
        sub: sub.to_string(),
        email: "jamesbond@example.com".to_string(),
        role: role.to_string(),
        exp: 2,
        iat: 1,
    }
}

#[test]
fn authentication_of_claims() {
    let ok = authenticate_claims(Some(claims("65a1b2c3000000000000002a", "staff"))).expect("valid");
    assert_eq!(ok.id, some_id());
    assert_eq!(ok.email, "jamesbond@example.com");
    assert_eq!(ok.role, UserRole::Staff);
    assert_eq!(authenticate_claims(None).unwrap_err(), unauthorized("invalid access token"));
    assert_eq!(
        authenticate_claims(Some(claims("xyz", "staff"))).unwrap_err(),
        unauthorized("invalid token subject")
    );
    assert_eq!(
        authenticate_claims(Some(claims("65a1b2c3000000000000002a", "root"))).unwrap_err(),
        unauthorized("invalid token role")
    );
}

#[test]
fn bearer_header() {
    assert_eq!(bearer_token("Bearer abc.def"), Some("abc.def".to_string()));
    assert_eq!(bearer_token("Bearer "), Some(String::new()));
    assert_eq!(bearer_token("bearer abc"), None);
    assert_eq!(bearer_token("Bearer"), None);
    assert_eq!(bearer_token("Basic abc"), None);
}

#[test]
fn only_admins_pass_the_role_check() {
    let admin = AuthUser { id: some_id(), email: "a@b.c".to_string(), role: UserRole::Admin };
    let staff = AuthUser { id: some_id(), email: "s@b.c".to_string(), role: UserRole::Staff };
    assert_eq!(require_admin(&admin), Ok(()));
    let refused = require_admin(&staff).unwrap_err();
    assert_eq!(refused, ApiError::Forbidden);
    assert_eq!(refused.status_code(), 403);
}

#[test]
fn seeding_skips_existing_accounts() {
    let accounts = seed_accounts();
    assert_eq!(accounts.len(), 2);
    assert_eq!(accounts[0].email, "admin@example.com");
    assert_eq!(accounts[1].email, "jamesbond@example.com");
    assert_eq!(accounts[1].role, UserRole::Staff);

    let mut run = SeedRun::new();
    assert_eq!(run.pending_email(), Some("admin@example.com"));
    run.skip_existing();
    assert_eq!(run.pending_email(), Some("jamesbond@example.com"));
    let doc = run.pending_document().expect("document");
    assert_eq!(doc.email, "jamesbond@example.com");
    assert_eq!(doc.full_name, "James Bond");
    assert_eq!(doc.role, UserRole::Staff);
    assert_eq!(doc.created_at, doc.updated_at);
    assert!(task_auth::security::verify_password("Bond@123", &doc.password_hash).unwrap());
    run.mark_inserted();
    assert_eq!(run.pending_email(), None);
    assert_eq!(run.newly_inserted(), vec!["jamesbond@example.com".to_string()]);
}

#[test]
fn concurrent_consumption_is_confirmed_once() {
    assert_eq!(confirm_consumption(1), Ok(()));
    assert_eq!(
        confirm_consumption(0).unwrap_err(),
        unauthorized("verification code already used")
    );
}

#[test]
fn reseeding_creates_nothing() {
    let mut run = SeedRun::new();
    while run.pending_email().is_some() {
        run.skip_existing();
    }
    assert!(run.newly_inserted().is_empty());
}

#[test]
fn emails_are_looked_up_in_lower_case() {
    assert_eq!(email_lookup_key("Admin@Example.COM"), "admin@example.com");
    assert_eq!(email_lookup_key("jamesbond@example.com"), "jamesbond@example.com");
    assert_eq!(email_lookup_key("ÜBER@X.DE"), "über@x.de");
}

/// An HS256 token over the given claims, signed directly with jsonwebtoken.
fn raw_token(sub: &str, role: &str, exp: u64, secret: &str) -> String {
    let mut body = serde_json::Map::new();
    body.insert("sub".to_string(), serde_json::Value::from(sub));
    body.insert("email".to_string(), serde_json::Value::from("jamesbond@example.com"));
    body.insert("role".to_string(), serde_json::Value::from(role));
    body.insert("exp".to_string(), serde_json::Value::from(exp));
    body.insert("iat".to_string(), serde_json::Value::from(1u64));
    jsonwebtoken::encode(
        &jsonwebtoken::Header::default(),
        &body,
        &jsonwebtoken::EncodingKey::from_secret(secret.as_bytes()),
    )
    .expect("token")
}

#[test]
fn token_checks() {
    let forever = raw_token("65a1b2c3000000000000002a", "staff", u64::MAX, "s");
    let claims = decode_access_token(&forever, "s").expect("a token that never expires is accepted");
    assert_eq!(claims.exp, usize::MAX);
    let caller = authenticate(&forever, "s").expect("names a user");
    assert_eq!(caller.id, some_id());
    assert_eq!(caller.role, UserRole::Staff);
    assert_eq!(authenticate(&forever, "t").unwrap_err(), unauthorized("invalid access token"));

    let expired = raw_token("65a1b2c3000000000000002a", "staff", 1, "s");
    assert!(decode_access_token(&expired, "s").is_err());
    assert_eq!(authenticate(&expired, "s").unwrap_err(), unauthorized("invalid access token"));

    let bad_subject = raw_token("xyz", "staff", u64::MAX, "s");
    assert_eq!(authenticate(&bad_subject, "s").unwrap_err(), unauthorized("invalid token subject"));
    let bad_role = raw_token("65a1b2c3000000000000002a", "root", u64::MAX, "s");
    assert_eq!(authenticate(&bad_role, "s").unwrap_err(), unauthorized("invalid token role"));
}
