use backend::auth::{
    check_password, create_jwt, login, register, verify_jwt, ApiToken, ApiTokenRepository, AuthUser,
    JwtError, LoginRequest, PasswordCheck, RegisterRequest, TokenLookupNext, TokenQueryOutcome, User,
    create_jwt_at, user_of_verification, verify_jwt_at, Claims,
};
use backend::clock::Instant;
use backend::config::Config;
use backend::http::ErrorBody;
use backend::storage::RepoError;

const USER: u128 = 0x67e5504410b1426f9247bb680e5fe0c8;
const USER_TEXT: &str = "67e55044-10b1-426f-9247-bb680e5fe0c8";

fn config(hours: i64) -> Config {
    Config {
        http_server_host: "127.0.0.1".to_string(),
        http_server_port: 8080,
        db_url: "sqlite::memory:".to_string(),
        jwt_secret: "top secret".to_string(),
        jwt_expires_hours: hours,
        llm_base_url: "http://localhost:11434".to_string(),
        llm_model: "m".to_string(),
    }
}

fn token_row(hash: &str) -> ApiToken {
    ApiToken {
        id: "t1".to_string(),
        user_id: USER_TEXT.to_string(),
        token_hash: hash.to_string(),
        name: None,
        last_used_at: None,
        created_at: "t".to_string(),
    }
}

#[test]
fn token_hash_is_the_hex_sha256() {
    assert_eq!(
        ApiTokenRepository::hash_token("abc"),
        "ba7816bf8f01cfea414140de5dae2223b00361a396177a9cb410ff61f20015ad"
    );
    let h = ApiTokenRepository::hash_token("store-token");
    assert_eq!(h.len(), 64);
    assert_eq!(h, ApiTokenRepository::hash_token("store-token"));
}

#[test]
fn issued_tokens_carry_the_user_and_expiry() {
    let token = create_jwt(USER, &config(24)).unwrap();
    let claims = verify_jwt(&token, &config(24)).unwrap();
    assert_eq!(claims.sub, USER_TEXT);
    assert_eq!(claims.exp - claims.iat, 24 * 3600);
}

#[test]
fn tokens_are_bound_to_the_secret() {
    let token = create_jwt(USER, &config(1)).unwrap();
    let mut other = config(1);
    other.jwt_secret = "another secret".to_string();
    assert!(matches!(verify_jwt(&token, &other), Err(JwtError::Invalid)));
    assert!(matches!(verify_jwt("not.a.token", &config(1)), Err(JwtError::Invalid)));
}

#[test]
fn expired_tokens_are_refused() {
    let now = Instant { secs: 1_000_000, nanos: 0 };
    let token = create_jwt_at(USER, &config(1), &now);
    assert!(matches!(verify_jwt(&token, &config(1)), Err(JwtError::Invalid)));
}

#[test]
fn expiry_out_of_chrono_range_is_reported() {
    assert!(matches!(create_jwt(USER, &config(i64::MAX)), Err(JwtError::ExpiryOutOfRange)));
}

#[test]
fn an_issued_token_authenticates_its_user() {
    let token = create_jwt(USER, &config(1)).unwrap();
    let user = AuthUser::authenticate(Some(format!("Bearer {}", token)), &config(1)).unwrap();
    assert_eq!(user.id, USER);
}

#[test]
fn missing_or_malformed_headers_are_refused() {
    for header in [None, Some("Basic abc".to_string()), Some("bearer x".to_string())] {
        let e = AuthUser::authenticate(header, &config(1)).unwrap_err();
        assert_eq!(e.status, 401);
        assert_eq!(e.body, ErrorBody::Error("Missing or invalid Authorization header".to_string()));
    }
    let e = AuthUser::authenticate(Some("Bearer nonsense".to_string()), &config(1)).unwrap_err();
    assert_eq!((e.status, e.body), (401, ErrorBody::Error("Invalid or expired token".to_string())));
}

#[test]
fn a_token_naming_no_uuid_is_a_server_error() {
    let mut claims = serde_json::Map::new();
    claims.insert("sub".to_string(), serde_json::Value::from("alice"));
    claims.insert("exp".to_string(), serde_json::Value::from(4_000_000_000u64));
    claims.insert("iat".to_string(), serde_json::Value::from(1u64));
    let key = jsonwebtoken::EncodingKey::from_secret(b"top secret");
    let token = jsonwebtoken::encode(&jsonwebtoken::Header::default(), &claims, &key).unwrap();
    let e = AuthUser::authenticate(Some(format!("Bearer {}", token)), &config(1)).unwrap_err();
    assert_eq!((e.status, e.body), (500, ErrorBody::Error("Invalid user ID format in token".to_string())));
}

#[test]
fn a_token_without_iat_is_refused() {
    let mut claims = serde_json::Map::new();
    claims.insert("sub".to_string(), serde_json::Value::from(USER_TEXT));
    claims.insert("exp".to_string(), serde_json::Value::from(4_000_000_000u64));
    let key = jsonwebtoken::EncodingKey::from_secret(b"top secret");
    let token = jsonwebtoken::encode(&jsonwebtoken::Header::default(), &claims, &key).unwrap();
    assert!(matches!(verify_jwt(&token, &config(1)), Err(JwtError::Invalid)));
}

#[test]
fn a_registered_password_logs_in() {
    let insert = register(RegisterRequest { email: "a@b.c".to_string(), password: "hunter22".to_string() }).unwrap();
    assert_eq!(insert.email, "a@b.c");
    assert_eq!(check_password("hunter22", &insert.password_hash), PasswordCheck::Match);
    assert_eq!(check_password("hunter23", &insert.password_hash), PasswordCheck::Mismatch);
    assert_eq!(check_password("hunter22", "not a phc string"), PasswordCheck::Malformed);
}

#[test]
fn registration_outcomes() {
    let insert = register(RegisterRequest { email: "a@b.c".to_string(), password: "pw".to_string() }).unwrap();
    let user = User { id: insert.id, email: insert.email.clone(), password_hash: insert.password_hash.clone() };
    let (status, resp) = insert.finish(Ok(user.clone()), &config(1)).unwrap();
    assert_eq!(status, 201);
    assert_eq!(resp.user, user);
    assert!(verify_jwt(&resp.token, &config(1)).is_ok());

    let insert = register(RegisterRequest { email: "a@b.c".to_string(), password: "pw".to_string() }).unwrap();
    let taken = RepoError {
        message: "error returned from database".to_string(),
        database_message: Some("UNIQUE constraint failed: users.email".to_string()),
    };
    let e = insert.finish(Err(taken), &config(1)).unwrap_err();
    assert_eq!(e.status, 409);
    match e.body {
        ErrorBody::Errors(v) => assert_eq!((v[0].field.as_str(), v[0].message.as_str()), ("email", "Email already exists")),
        _ => panic!("expected field errors"),
    }
    let insert = register(RegisterRequest { email: "a@b.c".to_string(), password: "pw".to_string() }).unwrap();
    let e = insert.finish(Err(RepoError { message: "x".to_string(), database_message: None }), &config(1)).unwrap_err();
    assert_eq!((e.status, e.body), (500, ErrorBody::Error("Database error".to_string())));
}

#[test]
fn login_outcomes() {
    let insert = register(RegisterRequest { email: "a@b.c".to_string(), password: "pw".to_string() }).unwrap();
    let user = User { id: insert.id, email: insert.email.clone(), password_hash: insert.password_hash.clone() };
    let req = || LoginRequest { email: "a@b.c".to_string(), password: "pw".to_string() };

    let (status, resp) = login(req()).finish(Ok(Some(user.clone())), &config(1)).unwrap();
    assert_eq!(status, 200);
    assert_eq!(resp.user.id, user.id);

    let e = login(req()).finish(Ok(None), &config(1)).unwrap_err();
    assert_eq!(e.status, 401);
    let wrong = LoginRequest { email: "a@b.c".to_string(), password: "nope".to_string() };
    let e = login(wrong).finish(Ok(Some(user.clone())), &config(1)).unwrap_err();
    assert_eq!(e.status, 401);
    match e.body {
        ErrorBody::Errors(v) => assert_eq!((v[0].field.as_str(), v[0].message.as_str()), ("detail", "Invalid credentials")),
        _ => panic!("expected field errors"),
    }
    let broken = User { password_hash: "garbage".to_string(), ..user.clone() };
    let e = login(req()).finish(Ok(Some(broken)), &config(1)).unwrap_err();
    assert_eq!((e.status, e.body), (500, ErrorBody::Error("Password hash error".to_string())));
    let e = login(req()).finish(Err(RepoError { message: "x".to_string(), database_message: None }), &config(1)).unwrap_err();
    assert_eq!((e.status, e.body), (500, ErrorBody::Error("Database error".to_string())));
}

#[test]
fn token_lookup_prefers_the_cache_then_caches_storage_answers() {
    let l = ApiTokenRepository::find_by_hash("h1");
    match l.resume(Some(token_row("h1"))) {
        TokenLookupNext::Cached(t) => assert_eq!(t.token_hash, "h1"),
        TokenLookupNext::Query(_) => panic!("a cached token is the answer"),
    }
    let q = match ApiTokenRepository::find_by_hash("h1").resume(None) {
        TokenLookupNext::Query(q) => q,
        TokenLookupNext::Cached(_) => panic!("expected a query"),
    };
    assert_eq!(q.token_hash, "h1");
    match q.finish(Ok(Some(token_row("h1")))).unwrap() {
        TokenQueryOutcome::CacheAndAnswer { key, token } => {
            assert_eq!(key, "h1");
            assert_eq!(token.id, "t1");
        },
        TokenQueryOutcome::Missing => panic!("expected a token"),
    }
}

#[test]
fn token_deletion_evicts_the_cache_entry() {
    let d = ApiTokenRepository::delete("t1").resume(Ok(Some(token_row("h9")))).unwrap();
    assert_eq!(d.id, "t1");
    assert_eq!(d.evict.as_deref(), Some("h9"));
    let d = ApiTokenRepository::delete("t2").resume(Ok(None)).unwrap();
    assert_eq!(d.evict, None);
}

#[test]
fn expiry_allows_sixty_seconds_of_leeway() {
    let issued = Instant { secs: 1_000_000, nanos: 0 };
    let token = create_jwt_at(USER, &config(1), &issued);
    let exp = 1_000_000 + 3600;
    let at = |secs: i64| Instant { secs, nanos: 0 };
    let claims = verify_jwt_at(&token, &config(1), &at(exp + 60)).unwrap();
    assert_eq!((claims.sub.as_str(), claims.exp, claims.iat), (USER_TEXT, exp as usize, 1_000_000usize));
    assert!(matches!(verify_jwt_at(&token, &config(1), &at(exp + 61)), Err(JwtError::Invalid)));
    let user = AuthUser::authenticate_at(Some(format!("Bearer {}", token)), &config(1), &at(exp)).unwrap();
    assert_eq!(user.id, USER);
    let e = AuthUser::authenticate_at(Some(format!("Bearer {}", token)), &config(1), &at(exp + 61)).unwrap_err();
    assert_eq!((e.status, e.body), (401, ErrorBody::Error("Invalid or expired token".to_string())));
    let mut other = config(1);
    other.jwt_secret = "another secret".to_string();
    assert!(matches!(verify_jwt_at(&token, &other, &at(exp)), Err(JwtError::Invalid)));
}

#[test]
fn verification_results_name_the_user() {
    let ok = Claims { sub: USER_TEXT.to_string(), exp: 10, iat: 1 };
    assert_eq!(user_of_verification(Ok(ok)).unwrap().id, USER);
    let bad = Claims { sub: "alice".to_string(), exp: 10, iat: 1 };
    let e = user_of_verification(Ok(bad)).unwrap_err();
    assert_eq!((e.status, e.body), (500, ErrorBody::Error("Invalid user ID format in token".to_string())));
    let e = user_of_verification(Err(JwtError::Invalid)).unwrap_err();
    assert_eq!((e.status, e.body), (401, ErrorBody::Error("Invalid or expired token".to_string())));
}

#[test]
fn tokens_with_non_positive_hours_are_always_made() {
    assert!(create_jwt(USER, &config(0)).is_ok());
    assert!(create_jwt(USER, &config(-5)).is_ok());
}

#[test]
fn stored_hashes_are_argon2id_texts() {
    let insert = register(RegisterRequest { email: "a@b.c".to_string(), password: "pw".to_string() }).unwrap();
    assert!(insert.password_hash.starts_with("$argon2id$v=19$"));
    assert_ne!(insert.password_hash, "pw");
}
