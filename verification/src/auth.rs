//! Authentication: JSON Web Tokens, password hashes, API token hashes, and
//! the decisions of registration and login.

use vstd::prelude::*;
use argon2::{PasswordHasher, PasswordVerifier};
use sha2::Digest;
use vstd::utf8::encode_utf8;
use crate::clock::{max_timestamp, min_timestamp, representable, utc_now, Instant};
use crate::config::Config;
use crate::http::{
    error_response, field_error_response, json_error, json_field_error, ApiError, ErrorBodyView,
    STATUS_CONFLICT, STATUS_CREATED, STATUS_INTERNAL_SERVER_ERROR, STATUS_OK, STATUS_UNAUTHORIZED,
};
use crate::ids::{
    hex_digit, is_hex_lower, is_v4, lemma_hex_digit, new_uuid_v4, parse_uuid, spec_parse_uuid, uuid_hyphenated,
    uuid_to_string,
};
use crate::storage::{is_refused_with, refused_with, RepoError};
use crate::text::{has_prefix, strip_prefix};

verus! {

/// The claims of an access token: the user id, the expiry and the issue
/// time, as Unix seconds.
#[derive(Debug, Clone, PartialEq, Eq)]
pub struct Claims {
    pub sub: String,
    pub exp: usize,
    pub iat: usize,
}

/// An API token as kept in the database.
#[derive(Debug, Clone, PartialEq, Eq)]
pub struct ApiToken {
    pub id: String,
    pub user_id: String,
    pub token_hash: String,
    pub name: Option<String>,
    pub last_used_at: Option<String>,
    pub created_at: String,
}

/// A user account.
#[derive(Debug, Clone, PartialEq, Eq)]
pub struct User {
    pub id: u128,
    pub email: String,
    pub password_hash: String,
}

/// The answer to a registration or login: an access token and the user.
#[derive(Debug, Clone, PartialEq, Eq)]
pub struct AuthResponse {
    pub token: String,
    pub user: User,
}

/// Body of a registration request.
#[derive(Debug, Clone, PartialEq, Eq)]
pub struct RegisterRequest {
    pub email: String,
    pub password: String,
}

/// Body of a login request.
#[derive(Debug, Clone, PartialEq, Eq)]
pub struct LoginRequest {
    pub email: String,
    pub password: String,
}

// ---------------------------------------------------------------------------
// JSON Web Tokens

/// The HS256 token `jsonwebtoken::encode` makes, with the default header,
/// for the claims `{"sub", "exp", "iat"}` (in that order) and the secret.
pub uninterp spec fn spec_jwt_hs256(sub: Seq<char>, exp: usize, iat: usize, secret: Seq<u8>) -> Seq<char>;

/// What `jsonwebtoken::decode` reads from a token checked against an HMAC
/// secret under the default validation without its expiry check: nothing
/// when the token is malformed, not HS256, not signed with that secret, has
/// no numeric `exp` or carries an audience; otherwise the `sub`, `exp` and
/// `iat` claims of its payload, each present when it is a string,
/// respectively an unsigned integer.
pub uninterp spec fn spec_jwt_decode(token: Seq<char>, secret: Seq<u8>) -> Option<(Option<Seq<char>>, Option<usize>, Option<usize>)>;

/// `jsonwebtoken::encode` with the default header (HS256), the claims
/// `sub`, `exp`, `iat` as a JSON object in that order, and an HMAC key made
/// from the secret. Claimed: the result is the token named by
/// `spec_jwt_hs256` (encode only fails on a key of another family or
/// claims that do not serialize, neither of which can happen here), and
/// decoding it under the same secret gives back the three claims (the
/// signature is the HMAC of that secret, the header names HS256, `exp` is a
/// number and there is no audience).
#[verifier::external_body]
fn jwt_encode(sub: &str, exp: usize, iat: usize, secret: &[u8]) -> (token: String)
    ensures
        token@ == spec_jwt_hs256(sub@, exp, iat, secret@),
        spec_jwt_decode(token@, secret@) == Some((Some(sub@), Some(exp), Some(iat))),
{
    let mut claims = serde_json::Map::new();
    claims.insert("sub".to_string(), serde_json::Value::from(sub));
    claims.insert("exp".to_string(), serde_json::Value::from(exp));
    claims.insert("iat".to_string(), serde_json::Value::from(iat));
    let key = jsonwebtoken::EncodingKey::from_secret(secret);
    jsonwebtoken::encode(&jsonwebtoken::Header::default(), &claims, &key).unwrap_or_default()
}

/// The claims read from a token's payload.
#[derive(Debug, Clone, PartialEq, Eq)]
pub struct TokenClaims {
    pub sub: Option<String>,
    pub exp: Option<usize>,
    pub iat: Option<usize>,
}

/// `jsonwebtoken::decode` with the default validation but `validate_exp`
/// off, and an HMAC key made from the secret, reading the payload as a JSON
/// object. Claimed: the answer is the one named by `spec_jwt_decode`. The
/// expiry is checked by the caller against a clock reading.
#[verifier::external_body]
fn jwt_decode(token: &str, secret: &[u8]) -> (r: Option<TokenClaims>)
    ensures
        match r {
            None => spec_jwt_decode(token@, secret@) is None,
            Some(c) => spec_jwt_decode(token@, secret@) == Some((c.sub.deep_view(), c.exp, c.iat)),
        },
{
    let key = jsonwebtoken::DecodingKey::from_secret(secret);
    let mut validation = jsonwebtoken::Validation::default();
    validation.validate_exp = false;
    let data = jsonwebtoken::decode::<serde_json::Map<String, serde_json::Value>>(token, &key, &validation).ok()?;
    let number = |k: &str| data.claims.get(k).and_then(|v| v.as_u64()).and_then(|n| usize::try_from(n).ok());
    Some(TokenClaims {
        sub: data.claims.get("sub").and_then(|v| v.as_str()).map(|s| s.to_string()),
        exp: number("exp"),
        iat: number("iat"),
    })
}

/// Why a token could not be made or read.
#[derive(Debug, Clone, PartialEq, Eq)]
pub enum JwtError {
    /// The expiry falls outside what chrono can represent.
    ExpiryOutOfRange,
    /// The token is malformed, badly signed, expired, or lacks a claim.
    Invalid,
}

/// `hours` hours from `now` can be represented: chrono's `TimeDelta::hours`
/// accepts the hours and the sum stays within chrono's range.
pub open spec fn expiry_in_range(now_secs: int, hours: int) -> bool {
    &&& -9_223_372_036_854_775 <= hours * 3600 <= 9_223_372_036_854_775
    &&& min_timestamp() <= now_secs + hours * 3600 <= max_timestamp()
}

/// Hours for which the expiry is in range at every instant from the epoch
/// on: no more than zero, and no further back than chrono's first instant.
pub open spec fn hours_always_in_range(hours: int) -> bool {
    min_timestamp() <= hours * 3600 <= 0
}

/// The token issued at `iat` seconds for a user, expiring `hours` later.
pub open spec fn issued_token(user_id: u128, iat: i64, hours: i64, secret: Seq<char>) -> Seq<char> {
    spec_jwt_hs256(
        uuid_hyphenated(user_id),
        (iat + hours * 3600) as usize,
        iat as usize,
        encode_utf8(secret),
    )
}

/// `token` is the access token issued to a user at `iat` under the
/// configuration: the HS256 token of its claims, which decode under the
/// configured secret to the user's id (a text that reads back as that id),
/// the expiry and the issue time.
pub open spec fn token_issued_at(token: Seq<char>, user_id: u128, iat: i64, config: Config) -> bool {
    &&& token == issued_token(user_id, iat, config.jwt_expires_hours, config.jwt_secret@)
    &&& spec_parse_uuid(uuid_hyphenated(user_id)) == Some(user_id)
    &&& spec_jwt_decode(token, encode_utf8(config.jwt_secret@)) == Some((
        Some(uuid_hyphenated(user_id)),
        Some((iat + config.jwt_expires_hours * 3600) as usize),
        Some(iat as usize),
    ))
}

/// What making a token at `now` gives: the token issued then when the
/// expiry is in range, `ExpiryOutOfRange` otherwise.
pub open spec fn jwt_made_at(user_id: u128, config: Config, now: Instant, r: Result<String, JwtError>) -> bool {
    if expiry_in_range(now.secs as int, config.jwt_expires_hours as int) {
        r matches Ok(t) && token_issued_at(t@, user_id, now.secs, config)
    } else {
        r == Err::<String, JwtError>(JwtError::ExpiryOutOfRange)
    }
}

/// A clock reading `utc_now` can give.
pub open spec fn clock_reading(now: Instant) -> bool {
    representable(now) && 0 <= now.secs
}

/// The claims of an access token for a user, issued at `iat` and expiring
/// at `exp` (Unix seconds, kept as `usize` as `as` does).
pub fn claims_for(user_id: u128, iat: i64, exp: i64) -> (c: Claims)
    ensures
        c.sub@ == uuid_hyphenated(user_id),
        spec_parse_uuid(c.sub@) == Some(user_id),
        c.exp == exp as usize,
        c.iat == iat as usize,
{
    Claims {
        sub: uuid_to_string(user_id),
        exp: #[verifier::truncate] (exp as usize),
        iat: #[verifier::truncate] (iat as usize),
    }
}

/// Makes the access token for a user at instant `now`, expiring after the
/// configured number of hours.
pub fn create_jwt_at(user_id: u128, config: &Config, now: &Instant) -> (token: String)
    requires
        expiry_in_range(now.secs as int, config.jwt_expires_hours as int),
    ensures
        token_issued_at(token@, user_id, now.secs, *config),
        spec_jwt_decode(token@, encode_utf8(config.jwt_secret@)) matches Some((Some(sub), _, _))
            && spec_parse_uuid(sub) == Some(user_id),
{
    let exp: i64 = now.secs + config.jwt_expires_hours * 3600;
    let claims = claims_for(user_id, now.secs, exp);
    jwt_encode(claims.sub.as_str(), claims.exp, claims.iat, config.jwt_secret.as_str().as_bytes())
}

/// Makes the access token for a user now. Where chrono cannot represent
/// the expiry the answer is `ExpiryOutOfRange`; for expiry hours that are
/// in range at every instant the token is always made.
pub fn create_jwt(user_id: u128, config: &Config) -> (r: Result<String, JwtError>)
    ensures
        exists|now: Instant| clock_reading(now) && jwt_made_at(user_id, *config, now, r),
        hours_always_in_range(config.jwt_expires_hours as int) ==> r is Ok,
{
    let now = utc_now();
    let hours: i128 = config.jwt_expires_hours as i128;
    let delta: i128 = hours * 3600;
    let exp: i128 = now.secs as i128 + delta;
    if -9_223_372_036_854_775 <= delta && delta <= 9_223_372_036_854_775
        && -8334601315200 <= exp && exp <= 8210266876799 {
        let r = Ok(create_jwt_at(user_id, config, &now));
        assert(clock_reading(now) && jwt_made_at(user_id, *config, now, r));
        r
    } else {
        let r = Err(JwtError::ExpiryOutOfRange);
        assert(clock_reading(now) && jwt_made_at(user_id, *config, now, r));
        r
    }
}

/// A token whose expiry lies more than the validation's 60 seconds of
/// leeway before `now_secs` has expired.
pub open spec fn token_expired(exp: usize, now_secs: int) -> bool {
    exp + 60 < now_secs
}

/// The claims a token verifies to at `now_secs` under a secret: the three
/// claims, when it decodes under the secret with all of them and has not
/// expired; nothing otherwise.
pub open spec fn verified_claims(token: Seq<char>, secret: Seq<char>, now_secs: int) -> Option<(Seq<char>, usize, usize)> {
    match spec_jwt_decode(token, encode_utf8(secret)) {
        Some((Some(sub), Some(exp), Some(iat))) => if token_expired(exp, now_secs) {
            None
        } else {
            Some((sub, exp, iat))
        },
        _ => None,
    }
}

/// A verification result agrees with `verified_claims`.
pub open spec fn verification_is(r: Result<Claims, JwtError>, expected: Option<(Seq<char>, usize, usize)>) -> bool {
    match expected {
        Some((sub, exp, iat)) => r matches Ok(c) && c.sub@ == sub && c.exp == exp && c.iat == iat,
        None => r == Err::<Claims, JwtError>(JwtError::Invalid),
    }
}

/// Checks a token against the configured secret at instant `now`, giving
/// its claims.
pub fn verify_jwt_at(token: &str, config: &Config, now: &Instant) -> (r: Result<Claims, JwtError>)
    ensures
        verification_is(r, verified_claims(token@, config.jwt_secret@, now.secs as int)),
{
    match jwt_decode(token, config.jwt_secret.as_str().as_bytes()) {
        None => Err(JwtError::Invalid),
        Some(tc) => match (tc.sub, tc.exp, tc.iat) {
            (Some(sub), Some(exp), Some(iat)) => {
                if (exp as i128) + 60 < now.secs as i128 {
                    Err(JwtError::Invalid)
                } else {
                    Ok(Claims { sub, exp, iat })
                }
            },
            _ => Err(JwtError::Invalid),
        },
    }
}

/// Checks a token against the configured secret and the clock, giving its
/// claims.
pub fn verify_jwt(token: &str, config: &Config) -> (r: Result<Claims, JwtError>)
    ensures
        exists|now: Instant| clock_reading(now) && verification_is(r, verified_claims(token@, config.jwt_secret@, now.secs as int)),
        r matches Ok(c) ==> spec_jwt_decode(token@, encode_utf8(config.jwt_secret@)) == Some((Some(c.sub@), Some(c.exp), Some(c.iat))),
{
    let now = utc_now();
    let r = verify_jwt_at(token, config, &now);
    assert(clock_reading(now) && verification_is(r, verified_claims(token@, config.jwt_secret@, now.secs as int)));
    r
}

// ---------------------------------------------------------------------------
// The authenticated user of a request

/// The user a request acts for.
#[derive(Debug, Clone, PartialEq, Eq)]
pub struct AuthUser {
    pub id: u128,
}

/// The token of an `Authorization` header: the text after `"Bearer "`.
pub open spec fn bearer_token(header: Option<Seq<char>>) -> Option<Seq<char>> {
    match header {
        Some(h) => if has_prefix(h, "Bearer "@) {
            Some(h.skip(7))
        } else {
            None
        },
        None => None,
    }
}

/// The answer to a request whose token is missing or malformed.
pub open spec fn missing_token_response() -> (u16, ErrorBodyView) {
    error_response(STATUS_UNAUTHORIZED, "Missing or invalid Authorization header"@)
}

/// The answer to a request whose token does not verify.
pub open spec fn invalid_token_response() -> (u16, ErrorBodyView) {
    error_response(STATUS_UNAUTHORIZED, "Invalid or expired token"@)
}

/// The answer to a token that verifies but whose subject is not a UUID.
pub open spec fn bad_subject_response() -> (u16, ErrorBodyView) {
    error_response(STATUS_INTERNAL_SERVER_ERROR, "Invalid user ID format in token"@)
}

/// Who a verification result names: the user id its subject holds,
/// `401 {"error": "Invalid or expired token"}` when it failed, `500
/// {"error": "Invalid user ID format in token"}` when the subject is not a
/// UUID.
pub open spec fn verified_user(v: Option<(Seq<char>, usize, usize)>) -> Result<u128, (u16, ErrorBodyView)> {
    match v {
        None => Err(invalid_token_response()),
        Some((sub, _, _)) => match spec_parse_uuid(sub) {
            Some(id) => Ok(id),
            None => Err(bad_subject_response()),
        },
    }
}

/// Who a request with the given `Authorization` header acts for, at
/// `now_secs` under the secret: a missing bearer token is refused as
/// missing; otherwise the token's verification decides.
pub open spec fn authentication_answer(header: Option<Seq<char>>, secret: Seq<char>, now_secs: int) -> Result<u128, (u16, ErrorBodyView)> {
    match bearer_token(header) {
        None => Err(missing_token_response()),
        Some(token) => verified_user(verified_claims(token, secret, now_secs)),
    }
}

/// An authentication result agrees with an expected answer.
pub open spec fn answered_as(r: Result<AuthUser, ApiError>, expected: Result<u128, (u16, ErrorBodyView)>) -> bool {
    match expected {
        Ok(id) => r == Ok::<AuthUser, ApiError>(AuthUser { id }),
        Err(a) => r matches Err(e) && e.view() == a,
    }
}

/// The user a verification result names, as the answer to a request.
pub fn user_of_verification(v: Result<Claims, JwtError>) -> (r: Result<AuthUser, ApiError>)
    ensures
        answered_as(r, match v {
            Err(_) => verified_user(None),
            Ok(c) => verified_user(Some((c.sub@, c.exp, c.iat))),
        }),
{
    let claims = match v {
        Ok(c) => c,
        Err(_) => return Err(json_error(STATUS_UNAUTHORIZED, "Invalid or expired token")),
    };
    match parse_uuid(claims.sub.as_str()) {
        Some(id) => Ok(AuthUser { id }),
        None => Err(json_error(STATUS_INTERNAL_SERVER_ERROR, "Invalid user ID format in token")),
    }
}

impl AuthUser {
    /// Finds the user of a request from its `Authorization` header (given
    /// when present and readable as text) at instant `now`.
    pub fn authenticate_at(authorization: Option<String>, config: &Config, now: &Instant) -> (r: Result<AuthUser, ApiError>)
        ensures
            answered_as(r, authentication_answer(authorization.deep_view(), config.jwt_secret@, now.secs as int)),
    {
        let header = match authorization {
            Some(h) => h,
            None => return Err(json_error(STATUS_UNAUTHORIZED, "Missing or invalid Authorization header")),
        };
        let token = match strip_prefix(header.as_str(), "Bearer ") {
            Some(t) => t,
            None => return Err(json_error(STATUS_UNAUTHORIZED, "Missing or invalid Authorization header")),
        };
        proof {
            reveal_strlit("Bearer ");
        }
        user_of_verification(verify_jwt_at(token.as_str(), config, now))
    }

    /// Finds the user of a request from its `Authorization` header (given
    /// when present and readable as text): a bearer token that verifies
    /// under the configured secret and has not expired, and names a user by
    /// UUID.
    pub fn authenticate(authorization: Option<String>, config: &Config) -> (r: Result<AuthUser, ApiError>)
        ensures
            exists|now: Instant| clock_reading(now)
                && answered_as(r, authentication_answer(authorization.deep_view(), config.jwt_secret@, now.secs as int)),
            r matches Ok(u) ==> (bearer_token(authorization.deep_view()) matches Some(token)
                && spec_jwt_decode(token, encode_utf8(config.jwt_secret@)) matches Some((Some(sub), Some(_), Some(_)))
                && spec_parse_uuid(sub) == Some(u.id)),
    {
        let now = utc_now();
        let r = Self::authenticate_at(authorization, config, &now);
        assert(clock_reading(now)
            && answered_as(r, authentication_answer(authorization.deep_view(), config.jwt_secret@, now.secs as int)));
        r
    }
}

// ---------------------------------------------------------------------------
// Password hashes

/// Whether `password_hash::PasswordHash::new` accepts a text as a PHC
/// password hash.
pub uninterp spec fn spec_phc_well_formed(phc: Seq<char>) -> bool;

/// Whether `Argon2::default().verify_password` accepts a password against
/// a well-formed PHC hash.
pub uninterp spec fn spec_argon2_verifies(password: Seq<u8>, phc: Seq<char>) -> bool;

/// `password_hash::PasswordHash::new`, telling whether it parses. Claimed:
/// the answer is the one named by `spec_phc_well_formed`.
#[verifier::external_body]
fn phc_is_well_formed(phc: &str) -> (b: bool)
    ensures
        b == spec_phc_well_formed(phc@),
{
    argon2::password_hash::PasswordHash::new(phc).is_ok()
}

/// `argon2::Argon2::default().verify_password` on a password and a parsed
/// PHC hash. Claimed: the answer is the one named by
/// `spec_argon2_verifies`.
#[verifier::external_body]
fn argon2_verify(password: &str, phc: &str) -> (b: bool)
    requires
        spec_phc_well_formed(phc@),
    ensures
        b == spec_argon2_verifies(encode_utf8(password@), phc@),
{
    match argon2::password_hash::PasswordHash::new(phc) {
        Ok(h) => argon2::Argon2::default().verify_password(password.as_bytes(), &h).is_ok(),
        Err(_) => false,
    }
}

/// How a PHC text written by `Argon2::default()` begins: the algorithm
/// Argon2id and version 19.
pub open spec fn argon2id_prefix() -> Seq<char> {
    "$argon2id$v=19$"@
}

/// `argon2::Argon2::default().hash_password` with a salt from
/// `SaltString::generate(&mut OsRng)`, written as a PHC text. The salt is
/// random, so the text is not named. Claimed: the text parses as a PHC hash,
/// the password verifies against it (verification recomputes the hash with
/// the parameters and salt the text records), and it begins with the
/// default algorithm and version; hashing fails only for a password of more
/// than `u32::MAX` bytes (`verify_inputs`; the generated salt and the
/// default output length always pass).
#[verifier::external_body]
fn argon2_hash_password(password: &str) -> (r: Option<String>)
    ensures
        r matches Some(h) ==> spec_phc_well_formed(h@) && spec_argon2_verifies(encode_utf8(password@), h@)
            && has_prefix(h@, argon2id_prefix()),
        encode_utf8(password@).len() <= 0xFFFF_FFFF ==> r is Some,
{
    let salt = argon2::password_hash::SaltString::generate(&mut rand_core::OsRng);
    argon2::Argon2::default().hash_password(password.as_bytes(), &salt).ok().map(|h| h.to_string())
}

/// How a login password fares against a stored hash.
#[derive(Debug, Clone, PartialEq, Eq)]
pub enum PasswordCheck {
    /// The stored hash is not a PHC text.
    Malformed,
    /// The password does not match.
    Mismatch,
    /// The password matches.
    Match,
}

/// The outcome of checking a password against a stored hash.
pub open spec fn password_check(password: Seq<char>, phc: Seq<char>) -> PasswordCheck {
    if !spec_phc_well_formed(phc) {
        PasswordCheck::Malformed
    } else if spec_argon2_verifies(encode_utf8(password), phc) {
        PasswordCheck::Match
    } else {
        PasswordCheck::Mismatch
    }
}

/// Checks a password against a stored hash.
pub fn check_password(password: &str, phc: &str) -> (c: PasswordCheck)
    ensures
        c == password_check(password@, phc@),
{
    if !phc_is_well_formed(phc) {
        PasswordCheck::Malformed
    } else if argon2_verify(password, phc) {
        PasswordCheck::Match
    } else {
        PasswordCheck::Mismatch
    }
}

// ---------------------------------------------------------------------------
// API token hashes

/// What `sha2::Sha256` computes of some bytes.
pub uninterp spec fn spec_sha256(data: Seq<u8>) -> Seq<u8>;

/// `Sha256::new().update(data).finalize()`. Claimed: the digest is the one
/// named by `spec_sha256`.
#[verifier::external_body]
fn sha256(data: &[u8]) -> (digest: Vec<u8>)
    ensures
        digest@ == spec_sha256(data@),
        digest@.len() == 32,
{
    let mut hasher = sha2::Sha256::new();
    hasher.update(data);
    hasher.finalize().to_vec()
}

/// Bytes as lowercase hexadecimal, two digits per byte.
pub open spec fn hex_lower(bytes: Seq<u8>) -> Seq<char>
    decreases bytes.len(),
{
    if bytes.len() == 0 {
        Seq::empty()
    } else {
        hex_lower(bytes.drop_last()) + seq![hex_digit(bytes.last() as int / 16), hex_digit(bytes.last() as int % 16)]
    }
}

/// Hexadecimal text has two lowercase digits per byte.
pub proof fn lemma_hex_lower(bytes: Seq<u8>)
    ensures
        hex_lower(bytes).len() == 2 * bytes.len(),
        forall|k: int| 0 <= k < hex_lower(bytes).len() ==> is_hex_lower(#[trigger] hex_lower(bytes)[k]),
    decreases bytes.len(),
{
    if bytes.len() > 0 {
        lemma_hex_lower(bytes.drop_last());
        let b = bytes.last() as int;
        lemma_hex_digit(b / 16);
        lemma_hex_digit(b % 16);
        let prev = hex_lower(bytes.drop_last());
        let tail = seq![hex_digit(b / 16), hex_digit(b % 16)];
        assert forall|k: int| 0 <= k < hex_lower(bytes).len() implies is_hex_lower(#[trigger] hex_lower(bytes)[k]) by {
            if k < prev.len() {
                assert(hex_lower(bytes)[k] == prev[k]);
            } else {
                assert(hex_lower(bytes)[k] == tail[k - prev.len()]);
            }
        }
    }
}

/// `hex::encode`: lowercase hexadecimal. Claimed, as its documentation
/// says: two lowercase digits per byte, in order.
#[verifier::external_body]
fn hex_encode(bytes: &[u8]) -> (text: String)
    ensures
        text@ == hex_lower(bytes@),
{
    hex::encode(bytes)
}

/// The API token repository's rules that need no storage.
#[derive(Debug, Clone, PartialEq, Eq)]
pub struct ApiTokenRepository;

impl ApiTokenRepository {
    /// The stored form of an API token: the hexadecimal SHA-256 of its
    /// UTF-8 bytes, 64 lowercase hexadecimal digits.
    pub fn hash_token(token: &str) -> (h: String)
        ensures
            h@ == hex_lower(spec_sha256(encode_utf8(token@))),
            h@.len() == 64,
            forall|k: int| 0 <= k < 64 ==> is_hex_lower(#[trigger] h@[k]),
    {
        let digest = sha256(token.as_bytes());
        let h = hex_encode(digest.as_slice());
        proof {
            lemma_hex_lower(digest@);
        }
        h
    }
}

/// Finding an API token by its hash: the cache is asked first for
/// `token_hash`.
#[derive(Debug, Clone, PartialEq, Eq)]
pub struct TokenLookup {
    pub token_hash: String,
}

/// After the cache: the token was cached, or storage is asked for it.
#[derive(Debug, Clone, PartialEq, Eq)]
pub enum TokenLookupNext {
    Cached(ApiToken),
    Query(TokenQuery),
}

/// Finding an API token waiting for storage's answer for `token_hash`.
#[derive(Debug, Clone, PartialEq, Eq)]
pub struct TokenQuery {
    pub token_hash: String,
}

/// What storage said of a token: none is stored, or the stored token is to
/// be cached under `key` and answered.
#[derive(Debug, Clone, PartialEq, Eq)]
pub enum TokenQueryOutcome {
    Missing,
    CacheAndAnswer { key: String, token: ApiToken },
}

impl TokenLookup {
    /// Continues once the cache has answered: a cached token is the answer.
    pub fn resume(self, cached: Option<ApiToken>) -> (n: TokenLookupNext)
        ensures
            cached matches Some(t) ==> n == TokenLookupNext::Cached(t),
            cached is None ==> n == TokenLookupNext::Query(TokenQuery { token_hash: self.token_hash }),
    {
        match cached {
            Some(t) => TokenLookupNext::Cached(t),
            None => TokenLookupNext::Query(TokenQuery { token_hash: self.token_hash }),
        }
    }
}

impl TokenQuery {
    /// Finishes once storage has answered: a stored token is cached under
    /// the hash it was asked for, then answered.
    pub fn finish(self, found: Result<Option<ApiToken>, RepoError>) -> (r: Result<TokenQueryOutcome, RepoError>)
        ensures
            found matches Err(e) ==> r == Err::<TokenQueryOutcome, RepoError>(e),
            found matches Ok(None) ==> r == Ok::<TokenQueryOutcome, RepoError>(TokenQueryOutcome::Missing),
            found matches Ok(Some(t)) ==> r == Ok::<TokenQueryOutcome, RepoError>(
                TokenQueryOutcome::CacheAndAnswer { key: self.token_hash, token: t },
            ),
    {
        match found {
            Err(e) => Err(e),
            Ok(None) => Ok(TokenQueryOutcome::Missing),
            Ok(Some(t)) => Ok(TokenQueryOutcome::CacheAndAnswer { key: self.token_hash, token: t }),
        }
    }
}

/// Deleting an API token: storage is asked for the token `id` first.
#[derive(Debug, Clone, PartialEq, Eq)]
pub struct TokenDeletion {
    pub id: String,
}

/// Deleting an API token after it was looked up: the cache entry `evict`,
/// if any, is dropped, then the row `id` is deleted.
#[derive(Debug, Clone, PartialEq, Eq)]
pub struct TokenDelete {
    pub id: String,
    pub evict: Option<String>,
}

impl TokenDeletion {
    /// Continues once the token has been looked up: a stored token's cache
    /// entry is dropped before the row is deleted.
    pub fn resume(self, found: Result<Option<ApiToken>, RepoError>) -> (r: Result<TokenDelete, RepoError>)
        ensures
            found matches Err(e) ==> r == Err::<TokenDelete, RepoError>(e),
            found matches Ok(None) ==> r == Ok::<TokenDelete, RepoError>(TokenDelete { id: self.id, evict: None }),
            found matches Ok(Some(t)) ==> r == Ok::<TokenDelete, RepoError>(TokenDelete { id: self.id, evict: Some(t.token_hash) }),
    {
        match found {
            Err(e) => Err(e),
            Ok(None) => Ok(TokenDelete { id: self.id, evict: None }),
            Ok(Some(t)) => Ok(TokenDelete { id: self.id, evict: Some(t.token_hash) }),
        }
    }
}

impl ApiTokenRepository {
    /// Starts finding an API token by its hash.
    pub fn find_by_hash(token_hash: &str) -> (l: TokenLookup)
        ensures
            l.token_hash@ == token_hash@,
    {
        TokenLookup { token_hash: token_hash.to_owned() }
    }

    /// Starts deleting the API token `id`.
    pub fn delete(id: &str) -> (d: TokenDeletion)
        ensures
            d.id@ == id@,
    {
        TokenDeletion { id: id.to_owned() }
    }
}

// ---------------------------------------------------------------------------
// Registration and login

/// The answer to a request for which no token could be made.
pub open spec fn token_failure_response() -> (u16, ErrorBodyView) {
    error_response(STATUS_INTERNAL_SERVER_ERROR, "Failed to generate token"@)
}

/// What answering a user with a token at `now` gives: the token issued
/// then, or `500 {"error": "Failed to generate token"}` when the expiry is
/// out of range.
pub open spec fn token_answer_at(user_id: u128, config: Config, now: Instant, r: Result<String, ApiError>) -> bool {
    if expiry_in_range(now.secs as int, config.jwt_expires_hours as int) {
        r matches Ok(t) && token_issued_at(t@, user_id, now.secs, config)
    } else {
        r matches Err(e) && e.view() == token_failure_response()
    }
}

/// Makes the access token answered to a user.
pub fn generate_token(user: &User, config: &Config) -> (r: Result<String, ApiError>)
    ensures
        exists|now: Instant| clock_reading(now) && token_answer_at(user.id, *config, now, r),
        hours_always_in_range(config.jwt_expires_hours as int) ==> r is Ok,
{
    let r = create_jwt(user.id, config);
    let ghost now = choose|now: Instant| clock_reading(now) && jwt_made_at(user.id, *config, now, r);
    let out = match r {
        Ok(t) => Ok(t),
        Err(_) => Err(json_error(STATUS_INTERNAL_SERVER_ERROR, "Failed to generate token")),
    };
    assert(token_answer_at(user.id, *config, now, out));
    out
}

/// The token is one issued to `user` under the configuration at some clock
/// reading: its claims decode under the secret to the user's id.
pub open spec fn issued_to(token: String, user: User, config: Config) -> bool {
    exists|now: Instant| {
        &&& clock_reading(now)
        &&& expiry_in_range(now.secs as int, config.jwt_expires_hours as int)
        &&& token_issued_at(token@, user.id, now.secs, config)
    }
}

/// Answers a user with a fresh token and the given success status.
fn answer_with_token(user: User, config: &Config, status: u16) -> (r: Result<(u16, AuthResponse), ApiError>)
    ensures
        r matches Ok((s, resp)) ==> s == status && resp.user == user && issued_to(resp.token, user, *config),
        r matches Err(e) ==> e.view() == token_failure_response(),
        hours_always_in_range(config.jwt_expires_hours as int) ==> r is Ok,
{
    match generate_token(&user, config) {
        Ok(token) => Ok((status, AuthResponse { token, user })),
        Err(e) => Err(e),
    }
}

/// A stored hash made for a password at registration: a PHC text against
/// which the password verifies, written by Argon2id version 19.
pub open spec fn registered_hash(password: Seq<char>, phc: Seq<char>) -> bool {
    &&& spec_phc_well_formed(phc)
    &&& spec_argon2_verifies(encode_utf8(password), phc)
    &&& has_prefix(phc, argon2id_prefix())
}

/// A registration waiting for the insert of the new user.
#[derive(Debug, Clone, PartialEq, Eq)]
pub struct UserInsert {
    pub id: u128,
    pub email: String,
    pub password_hash: String,
}

/// Starts a registration: the password is hashed with a fresh salt and the
/// user gets a fresh id. A failed hash, which only a password of more than
/// `u32::MAX` bytes gives, is answered `500 {"error": "Failed to hash
/// password"}`.
pub fn register(request: RegisterRequest) -> (r: Result<UserInsert, ApiError>)
    ensures
        r matches Ok(u) ==> u.email == request.email && registered_hash(request.password@, u.password_hash@)
            && is_v4(u.id),
        r matches Err(e) ==> e.view() == error_response(STATUS_INTERNAL_SERVER_ERROR, "Failed to hash password"@),
        encode_utf8(request.password@).len() <= 0xFFFF_FFFF ==> r is Ok,
{
    let hash = match argon2_hash_password(request.password.as_str()) {
        Some(h) => h,
        None => return Err(json_error(STATUS_INTERNAL_SERVER_ERROR, "Failed to hash password")),
    };
    let id = new_uuid_v4();
    Ok(UserInsert { id, email: request.email, password_hash: hash })
}

impl UserInsert {
    /// Finishes a registration once storage has answered the insert: a
    /// taken e-mail is `409 {"errors": {"email": "Email already exists"}}`,
    /// other failures `500 {"error": "Database error"}`; a stored user is
    /// answered `201` with a fresh token.
    pub fn finish(self, created: Result<User, RepoError>, config: &Config) -> (r: Result<(u16, AuthResponse), ApiError>)
        ensures
            created matches Err(e) ==> (r matches Err(a) && a.view() == if refused_with(e, "UNIQUE constraint failed: users.email"@) {
                field_error_response(STATUS_CONFLICT, "email"@, "Email already exists"@)
            } else {
                error_response(STATUS_INTERNAL_SERVER_ERROR, "Database error"@)
            }),
            created matches Ok(user) ==> match r {
                Ok((s, resp)) => s == STATUS_CREATED && resp.user == user && issued_to(resp.token, user, *config),
                Err(a) => a.view() == token_failure_response(),
            },
            created is Ok && hours_always_in_range(config.jwt_expires_hours as int) ==> r is Ok,
    {
        match created {
            Err(e) => {
                if is_refused_with(&e, "UNIQUE constraint failed: users.email") {
                    Err(json_field_error(STATUS_CONFLICT, "email", "Email already exists"))
                } else {
                    Err(json_error(STATUS_INTERNAL_SERVER_ERROR, "Database error"))
                }
            },
            Ok(user) => answer_with_token(user, config, STATUS_CREATED),
        }
    }
}

/// A login waiting for the lookup of the user by e-mail.
#[derive(Debug, Clone, PartialEq, Eq)]
pub struct UserLookup {
    pub email: String,
    pub password: String,
}

/// Starts a login: the user is looked up by e-mail.
pub fn login(request: LoginRequest) -> (l: UserLookup)
    ensures
        l.email == request.email,
        l.password == request.password,
{
    UserLookup { email: request.email, password: request.password }
}

/// The answer to a login with unknown e-mail or wrong password.
pub open spec fn invalid_credentials_response() -> (u16, ErrorBodyView) {
    field_error_response(STATUS_UNAUTHORIZED, "detail"@, "Invalid credentials"@)
}

impl UserLookup {
    /// Finishes a login once the user has been looked up: an unknown e-mail
    /// or a wrong password is `401 {"errors": {"detail": "Invalid
    /// credentials"}}`; a stored hash that does not parse is `500 {"error":
    /// "Password hash error"}`; storage failures are `500 {"error":
    /// "Database error"}`; a matching password is answered `200` with a
    /// fresh token.
    pub fn finish(self, found: Result<Option<User>, RepoError>, config: &Config) -> (r: Result<(u16, AuthResponse), ApiError>)
        ensures
            found is Err ==> (r matches Err(a) && a.view() == error_response(STATUS_INTERNAL_SERVER_ERROR, "Database error"@)),
            found matches Ok(None) ==> (r matches Err(a) && a.view() == invalid_credentials_response()),
            found matches Ok(Some(user)) ==> match password_check(self.password@, user.password_hash@) {
                PasswordCheck::Malformed => r matches Err(a) && a.view() == error_response(STATUS_INTERNAL_SERVER_ERROR, "Password hash error"@),
                PasswordCheck::Mismatch => r matches Err(a) && a.view() == invalid_credentials_response(),
                PasswordCheck::Match => match r {
                    Ok((s, resp)) => s == STATUS_OK && resp.user == user && issued_to(resp.token, user, *config),
                    Err(a) => a.view() == token_failure_response(),
                },
            },
            found matches Ok(Some(user)) && password_check(self.password@, user.password_hash@) == PasswordCheck::Match
                && hours_always_in_range(config.jwt_expires_hours as int) ==> r is Ok,
    {
        let user = match found {
            Err(_) => return Err(json_error(STATUS_INTERNAL_SERVER_ERROR, "Database error")),
            Ok(None) => return Err(json_field_error(STATUS_UNAUTHORIZED, "detail", "Invalid credentials")),
            Ok(Some(u)) => u,
        };
        match check_password(self.password.as_str(), user.password_hash.as_str()) {
            PasswordCheck::Malformed => Err(json_error(STATUS_INTERNAL_SERVER_ERROR, "Password hash error")),
            PasswordCheck::Mismatch => Err(json_field_error(STATUS_UNAUTHORIZED, "detail", "Invalid credentials")),
            PasswordCheck::Match => answer_with_token(user, config, STATUS_OK),
        }
    }
}

} // verus!
