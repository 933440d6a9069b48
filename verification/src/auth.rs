//! Authentication: credentials rules, password hashing, bearer tokens,
//! token claims and sessions.

use vstd::prelude::*;
use vstd::string::StringSliceAdditionalSpecFns;
use crate::error::{AppError, ErrorView};
use crate::ids::{hyphenated, push_uuid, read_uuid, uuid_parse};
use crate::text::{contains_char, push_str, strip_prefix, has_prefix};
use argon2::password_hash::{PasswordHash, PasswordHasher, PasswordVerifier, SaltString};
use rand::SeedableRng;

verus! {

// ---------------------------------------------------------------------------
// Requests

/// A request to set up the instance's owner account.
#[derive(Debug)]
pub struct BootstrapRequest {
    pub username: String,
    pub password: String,
}

/// A request to create an account.
#[derive(Debug)]
pub struct RegisterRequest {
    pub username: String,
    pub password: String,
    pub invite_code: Option<String>,
}

/// A request to log in, by user name or e-mail address, optionally from a
/// device that is then registered.
#[derive(Debug)]
pub struct LoginRequest {
    pub username_or_email: String,
    pub password: String,
    pub client: Option<crate::domain::ClientInfo>,
}

/// A request for new tokens in exchange for a refresh token.
#[derive(Debug)]
pub struct RefreshRequest {
    pub refresh_token: String,
}

/// A request to end the current session.
#[derive(Debug)]
pub struct LogoutRequest {
    pub refresh_token: Option<String>,
}

// ---------------------------------------------------------------------------
// Credentials

/// The rule on new user names: at least three bytes, and no space.
pub open spec fn username_error(username: &str) -> Option<Seq<char>> {
    if username.spec_bytes().len() < 3 {
        Some("Username must be at least 3 characters"@)
    } else if username@.contains(' ') {
        Some("Username must not contain spaces"@)
    } else {
        None
    }
}

/// Checks a new user name.
pub fn check_username(username: &str) -> (r: Result<(), AppError>)
    ensures
        r is Ok <==> username_error(username) is None,
        r is Err ==> r->Err_0@ == ErrorView::BadRequest(username_error(username)->0),
{
    if username.as_bytes().len() < 3 {
        return Err(crate::error::bad_request("Username must be at least 3 characters"));
    }
    if contains_char(username, ' ') {
        return Err(crate::error::bad_request("Username must not contain spaces"));
    }
    Ok(())
}

/// Checks the user name and password of a registration: the name first,
/// then a password of at least six bytes.
pub fn check_registration(username: &str, password: &str) -> (r: Result<(), AppError>)
    ensures
        r is Ok <==> username_error(username) is None && password.spec_bytes().len() >= 6,
        username_error(username) is Some ==> r->Err_0@ == ErrorView::BadRequest(username_error(username)->0),
        username_error(username) is None && password.spec_bytes().len() < 6 ==> r->Err_0@
            == ErrorView::BadRequest("Password must be at least 6 characters"@),
{
    check_username(username)?;
    if password.as_bytes().len() < 6 {
        return Err(crate::error::bad_request("Password must be at least 6 characters"));
    }
    Ok(())
}

/// Registration refuses a name that is taken.
pub fn check_username_available(taken: bool) -> (r: Result<(), AppError>)
    ensures
        r is Ok <==> !taken,
        taken ==> r->Err_0@ == ErrorView::Conflict("Username already taken"@),
{
    if taken {
        return Err(crate::error::conflict("Username already taken"));
    }
    Ok(())
}

/// The owner can be set up once: while the instance has no owner, and with
/// a valid user name (the password is not checked here).
pub fn check_bootstrap(owner_exists: bool, username: &str) -> (r: Result<(), AppError>)
    ensures
        r is Ok <==> !owner_exists && username_error(username) is None,
        owner_exists ==> r->Err_0@ == ErrorView::Conflict("Instance already has an owner"@),
        !owner_exists && username_error(username) is Some ==> r->Err_0@ == ErrorView::BadRequest(
            username_error(username)->0,
        ),
{
    if owner_exists {
        return Err(crate::error::conflict("Instance already has an owner"));
    }
    check_username(username)
}

/// A login with a password that does not match is refused.
pub fn check_login_password(valid: bool) -> (r: Result<(), AppError>)
    ensures
        r is Ok <==> valid,
        !valid ==> r->Err_0@ == ErrorView::Unauthorized("Invalid password"@),
{
    if !valid {
        return Err(crate::error::unauthorized("Invalid password"));
    }
    Ok(())
}

// ---------------------------------------------------------------------------
// Passwords

/// What is hashed for a password: the server's pepper, then the password.
pub open spec fn peppered(password: Seq<char>, pepper: Seq<char>) -> Seq<char> {
    pepper + password
}

/// What `argon2` makes of checking a text against a stored hash: whether it
/// matches, or the text of the error from reading the hash.
pub uninterp spec fn argon2_check(text: Seq<char>, hash: Seq<char>) -> Result<bool, Seq<char>>;

/// Whether checking `text` against `hash` succeeds.
pub open spec fn checks_against(text: Seq<char>, hash: Seq<char>) -> bool {
    argon2_check(text, hash) == Ok::<bool, Seq<char>>(true)
}

/// The start of the PHC string of an Argon2id hash (version 19) made with
/// the `argon2` crate's default parameters.
pub open spec fn argon2_default_prefix() -> Seq<char> {
    "$argon2id$v=19$m=19456,t=2,p=1$"@
}

/// Hashes `text` with `argon2::Argon2::default()` and a fresh random salt
/// from `rand::rngs::StdRng::from_entropy`, giving the PHC string of the hash
/// or the text of the error. Claimed, as the sources show: the string starts
/// with the algorithm (Argon2id), its version and the default parameters;
/// checking the same text against it succeeds (verification recomputes the
/// hash with the stored salt and parameters); and the only failure is a text
/// longer than `u32::MAX` bytes, which no text of at most `0x3FFF_FFFF`
/// characters is. The salt is random, so the string itself is not named.
#[verifier::external_body]
fn argon2_hash(text: &str) -> (r: Result<String, String>)
    ensures
        r matches Ok(h) ==> has_prefix(h@, argon2_default_prefix()),
        r matches Ok(h) ==> checks_against(text@, h@),
        r is Ok || text@.len() > 0x3FFF_FFFF,
{
    let mut rng = rand::rngs::StdRng::from_entropy();
    let salt = SaltString::generate(&mut rng);
    match argon2::Argon2::default().hash_password(text.as_bytes(), &salt) {
        Ok(h) => Ok(h.to_string()),
        Err(e) => Err(e.to_string()),
    }
}

/// Reads `hash` with `argon2::password_hash::PasswordHash::new` and checks
/// `text` against it with `argon2::Argon2::default().verify_password`.
/// Claimed besides the name, as `PasswordHash::parse` shows: an empty text,
/// or one that does not start with `$`, is not read as a hash.
#[verifier::external_body]
fn argon2_verify(text: &str, hash: &str) -> (r: Result<bool, String>)
    ensures
        r is Ok ==> argon2_check(text@, hash@) == Ok::<bool, Seq<char>>(r->Ok_0),
        r is Err ==> argon2_check(text@, hash@) == Err::<bool, Seq<char>>(r->Err_0@),
        r is Err || (hash@.len() > 0 && hash@[0] == '$'),
{
    match PasswordHash::new(hash) {
        Ok(parsed) => Ok(argon2::Argon2::default().verify_password(text.as_bytes(), &parsed).is_ok()),
        Err(e) => Err(e.to_string()),
    }
}

fn pepper_password(password: &str, pepper: &str) -> (s: String)
    ensures
        s@ == peppered(password@, pepper@),
{
    let mut s = pepper.to_owned();
    push_str(&mut s, password);
    s
}

/// Hashes a password with the server's pepper, as an Argon2id PHC string
/// with the default parameters, against which the same pepper and password
/// check; a failure of the hasher (a text too long for it) is an internal
/// error.
pub fn hash_password(password: &str, pepper: &str) -> (r: Result<String, AppError>)
    ensures
        r matches Ok(h) ==> has_prefix(h@, argon2_default_prefix()),
        r matches Ok(h) ==> checks_against(peppered(password@, pepper@), h@),
        pepper@.len() + password@.len() <= 0x3FFF_FFFF ==> r is Ok,
        r is Err ==> r->Err_0@ is InternalServerError,
{
    let salted = pepper_password(password, pepper);
    match argon2_hash(salted.as_str()) {
        Ok(h) => Ok(h),
        Err(m) => Err(AppError::InternalServerError(m)),
    }
}

/// Checks a password, with the server's pepper, against a stored hash; a
/// hash that cannot be read is an internal error.
pub fn verify_password(password: &str, pepper: &str, hash: &str) -> (r: Result<bool, AppError>)
    ensures
        match argon2_check(peppered(password@, pepper@), hash@) {
            Ok(b) => r == Ok::<bool, AppError>(b),
            Err(m) => r is Err && r->Err_0@ == ErrorView::InternalServerError(m),
        },
        hash@.len() == 0 || hash@[0] != '$' ==> r is Err && r->Err_0@ is InternalServerError,
{
    let salted = pepper_password(password, pepper);
    match argon2_verify(salted.as_str(), hash) {
        Ok(b) => Ok(b),
        Err(m) => Err(AppError::InternalServerError(m)),
    }
}

// ---------------------------------------------------------------------------
// Bearer tokens and the authenticated user

/// The token of an `Authorization` header, when it has the `Bearer ` scheme.
pub fn bearer_token(header: Option<&str>) -> (r: Result<&str, AppError>)
    ensures
        match header {
            Some(h) => if has_prefix(h@, "Bearer "@) {
                r is Ok && h@ == "Bearer "@ + r->Ok_0@
            } else {
                r is Err
            },
            None => r is Err,
        },
        r is Err ==> r->Err_0@ == ErrorView::Unauthorized("Missing authorization header"@),
{
    match header {
        Some(h) => match strip_prefix(h, "Bearer ") {
            Some(t) => Ok(t),
            None => Err(crate::error::unauthorized("Missing authorization header")),
        },
        None => Err(crate::error::unauthorized("Missing authorization header")),
    }
}

/// The token that the middleware verifies: the header without a leading
/// `Bearer `, or the whole header when it has none.
pub fn middleware_token(header: Option<&str>) -> (r: Option<String>)
    ensures
        match header {
            Some(h) => r is Some && (if has_prefix(h@, "Bearer "@) {
                h@ == "Bearer "@ + r->0@
            } else {
                r->0@ == h@
            }),
            None => r is None,
        },
{
    match header {
        Some(h) => match strip_prefix(h, "Bearer ") {
            Some(t) => Some(t.to_owned()),
            None => Some(h.to_owned()),
        },
        None => None,
    }
}

/// The user on whose behalf a request is made, as the token names it.
#[derive(Debug, Clone)]
pub struct AuthUser {
    pub user_id: String,
    pub session_id: String,
}

/// Reads a UUID from a text; a text that is not one is refused as
/// unauthorized, with the parser's error as the message.
fn parse_uuid_unauthorized(s: &str) -> (r: Result<u128, AppError>)
    ensures
        match uuid_parse(s@) {
            Ok(u) => r == Ok::<u128, AppError>(u),
            Err(m) => r is Err && r->Err_0@ == ErrorView::Unauthorized(m),
        },
        forall|u: u128| #[trigger] hyphenated(u) == s@ ==> r == Ok::<u128, AppError>(u),
{
    match read_uuid(s) {
        Ok(u) => Ok(u),
        Err(m) => Err(AppError::Unauthorized(m)),
    }
}

impl AuthUser {
    /// The user id as a UUID; a text that is not one is unauthorized.
    pub fn user_id_uuid(&self) -> (r: Result<u128, AppError>)
        ensures
            match uuid_parse(self.user_id@) {
                Ok(u) => r == Ok::<u128, AppError>(u),
                Err(m) => r is Err && r->Err_0@ == ErrorView::Unauthorized(m),
            },
            forall|u: u128| #[trigger] hyphenated(u) == self.user_id@ ==> r == Ok::<u128, AppError>(u),
    {
        parse_uuid_unauthorized(self.user_id.as_str())
    }

    /// The session id as a UUID; a text that is not one is unauthorized.
    pub fn session_id_uuid(&self) -> (r: Result<u128, AppError>)
        ensures
            match uuid_parse(self.session_id@) {
                Ok(u) => r == Ok::<u128, AppError>(u),
                Err(m) => r is Err && r->Err_0@ == ErrorView::Unauthorized(m),
            },
            forall|u: u128| #[trigger] hyphenated(u) == self.session_id@ ==> r == Ok::<u128, AppError>(u),
    {
        parse_uuid_unauthorized(self.session_id.as_str())
    }
}

/// The session named by a token's claims; a name that is not a UUID is an
/// invalid session.
pub fn claims_session_id(claims: &Claims) -> (r: Result<u128, AppError>)
    ensures
        match uuid_parse(claims.session_id@) {
            Ok(u) => r == Ok::<u128, AppError>(u),
            Err(_) => r is Err && r->Err_0@ == ErrorView::Unauthorized("Invalid session"@),
        },
        forall|u: u128| #[trigger] hyphenated(u) == claims.session_id@ ==> r == Ok::<u128, AppError>(u),
{
    match read_uuid(claims.session_id.as_str()) {
        Ok(u) => Ok(u),
        Err(_) => Err(crate::error::unauthorized("Invalid session")),
    }
}

/// The user named by a token's claims, for requests that check the token
/// alone; a name that is not a UUID is an invalid user.
pub fn claims_user_id(claims: &Claims) -> (r: Result<u128, AppError>)
    ensures
        match uuid_parse(claims.sub@) {
            Ok(u) => r == Ok::<u128, AppError>(u),
            Err(_) => r is Err && r->Err_0@ == ErrorView::Unauthorized("Invalid user"@),
        },
        forall|u: u128| #[trigger] hyphenated(u) == claims.sub@ ==> r == Ok::<u128, AppError>(u),
{
    match read_uuid(claims.sub.as_str()) {
        Ok(u) => Ok(u),
        Err(_) => Err(crate::error::unauthorized("Invalid user")),
    }
}

/// The authenticated user, once the session of the claims has been looked
/// up: a failed lookup and a missing (revoked or expired) session are both
/// refused.
pub fn authenticate(claims: Claims, session_found: Result<bool, ()>) -> (r: Result<AuthUser, AppError>)
    ensures
        session_found == Ok::<bool, ()>(true) ==> r is Ok && r->Ok_0.user_id@ == claims.sub@
            && r->Ok_0.session_id@ == claims.session_id@,
        session_found == Ok::<bool, ()>(false) ==> r is Err && r->Err_0@ == ErrorView::Unauthorized(
            "Session revoked or expired"@,
        ),
        session_found is Err ==> r is Err && r->Err_0@ == ErrorView::Unauthorized("Session error"@),
{
    match session_found {
        Err(_) => Err(crate::error::unauthorized("Session error")),
        Ok(false) => Err(crate::error::unauthorized("Session revoked or expired")),
        Ok(true) => Ok(AuthUser { user_id: claims.sub, session_id: claims.session_id }),
    }
}

// ---------------------------------------------------------------------------
// Token claims

/// The claims of an access or refresh token.
#[derive(Debug, Clone)]
pub struct Claims {
    pub sub: String,
    pub session_id: String,
    pub exp: i64,
    pub iat: i64,
}

/// The claims of a token issued at `now` (seconds since the epoch) for a
/// lifetime of `ttl` seconds.
pub fn make_claims(user_id: &str, session_id: &str, now: i64, ttl: i64) -> (c: Claims)
    requires
        i64::MIN <= now + ttl <= i64::MAX,
    ensures
        c.sub@ == user_id@,
        c.session_id@ == session_id@,
        c.iat == now,
        c.exp == now + ttl,
{
    Claims { sub: user_id.to_owned(), session_id: session_id.to_owned(), exp: now + ttl, iat: now }
}

/// How far from the epoch, in seconds, any time that the clock reads can lie:
/// chrono's `DateTime<Utc>` spans the years -262143 to 262143.
pub const CLOCK_SPAN_SECS: i64 = 10_000_000_000_000;

/// `chrono::Utc::now().timestamp()`: the current time in seconds since the
/// epoch. Claimed: it lies within `CLOCK_SPAN_SECS` of the epoch, as every
/// `DateTime<Utc>` lies between chrono's `MIN_UTC` and `MAX_UTC`; which time
/// it reads is left open.
#[verifier::external_body]
pub(crate) fn now_timestamp() -> (t: i64)
    ensures
        -CLOCK_SPAN_SECS < t < CLOCK_SPAN_SECS,
{
    chrono::Utc::now().timestamp()
}

/// The claims of a token issued now, for user and session given by their
/// UUIDs; `None` when the expiry would not fit in an `i64`, which no
/// lifetime within `i64` less the clock's span can cause.
pub fn claims_now(user_id: u128, session_id: u128, ttl: i64) -> (c: Option<Claims>)
    ensures
        i64::MIN + CLOCK_SPAN_SECS <= ttl <= i64::MAX - CLOCK_SPAN_SECS ==> c is Some,
        c is Some ==> c->0.sub@ == hyphenated(user_id) && c->0.session_id@ == hyphenated(session_id)
            && c->0.exp == c->0.iat + ttl && -CLOCK_SPAN_SECS < c->0.iat < CLOCK_SPAN_SECS,
{
    let now = now_timestamp();
    let exp = now.checked_add(ttl);
    match exp {
        Some(_) => {
            let user = crate::ids::uuid_to_string(user_id);
            let session = crate::ids::uuid_to_string(session_id);
            Some(make_claims(user.as_str(), session.as_str(), now, ttl))
        },
        None => None,
    }
}


// ---------------------------------------------------------------------------
// Signed tokens (HS256 JWTs)

/// The JWT that `jsonwebtoken::encode` makes, with an HS256 header and the
/// key `secret`, of the claims `sub`, `session_id`, `exp` and `iat`.
pub uninterp spec fn jwt_hs256(sub: Seq<char>, session_id: Seq<char>, exp: i64, iat: i64, secret: Seq<u8>) -> Seq<char>;

/// `jsonwebtoken::encode` of the four claims (as a JSON object, in the order
/// `sub`, `session_id`, `exp`, `iat`: serde_json keeps insertion order) with an
/// HS256 header and `EncodingKey::from_secret(secret)`. Claimed: it succeeds
/// (an HMAC key fits HS256 and signing with it cannot fail, nor can writing
/// the JSON object) and gives `jwt_hs256` of its arguments.
#[verifier::external_body]
fn jwt_encode_hs256(sub: &str, session_id: &str, exp: i64, iat: i64, secret: &[u8]) -> (r: Result<String, String>)
    ensures
        r is Ok && r->Ok_0@ == jwt_hs256(sub@, session_id@, exp, iat, secret@),
{
    let mut claims = serde_json::Map::new();
    claims.insert("sub".to_owned(), serde_json::Value::from(sub));
    claims.insert("session_id".to_owned(), serde_json::Value::from(session_id));
    claims.insert("exp".to_owned(), serde_json::Value::from(exp));
    claims.insert("iat".to_owned(), serde_json::Value::from(iat));
    let header = jsonwebtoken::Header::new(jsonwebtoken::Algorithm::HS256);
    let key = jsonwebtoken::EncodingKey::from_secret(secret);
    jsonwebtoken::encode(&header, &claims, &key).map_err(|e| e.to_string())
}

/// `jsonwebtoken::decode` of `token` as a JSON object with
/// `DecodingKey::from_secret(secret)` and `Validation::new(HS256)`: the
/// signature is checked, and so is the expiry, against the clock with a
/// leeway of a minute. Gives the text claims `sub` and `session_id` and the
/// integer claims `exp` and `iat` where the object has them, or the text of
/// the error. The outcome depends on the time, so it is not named; claimed:
/// a token that `jwt_hs256` made, when it is accepted, gives back the claims
/// it was made of.
#[verifier::external_body]
fn jwt_decode_hs256(token: &str, secret: &[u8]) -> (r: Result<(Option<String>, Option<String>, Option<i64>, Option<i64>), String>)
    ensures
        forall|sub: Seq<char>, sid: Seq<char>, exp: i64, iat: i64|
            #[trigger] jwt_hs256(sub, sid, exp, iat, secret@) == token@ && r is Ok ==> (r->Ok_0.0 matches Some(s) && s@ == sub)
                && (r->Ok_0.1 matches Some(i) && i@ == sid) && r->Ok_0.2 == Some(exp) && r->Ok_0.3 == Some(iat),
{
    let validation = jsonwebtoken::Validation::new(jsonwebtoken::Algorithm::HS256);
    let key = jsonwebtoken::DecodingKey::from_secret(secret);
    let data = jsonwebtoken::decode::<serde_json::Map<String, serde_json::Value>>(token, &key, &validation);
    let c = data.map_err(|e| e.to_string())?.claims;
    let text = |k: &str| c.get(k).and_then(serde_json::Value::as_str).map(str::to_owned);
    Ok((text("sub"), text("session_id"), c.get("exp").and_then(serde_json::Value::as_i64), c.get("iat").and_then(serde_json::Value::as_i64)))
}

/// The claims of a decoded token: all four must be there, else the token is
/// refused as unauthorized; a token that did not decode is refused with the
/// decoder's error.
pub fn claims_from_decoded(decoded: Result<(Option<String>, Option<String>, Option<i64>, Option<i64>), String>) -> (r: Result<Claims, AppError>)
    ensures
        match decoded {
            Ok((Some(s), Some(i), Some(e), Some(t))) => r matches Ok(c) && c.sub@ == s@ && c.session_id@ == i@ && c.exp == e && c.iat == t,
            Ok(_) => r is Err && r->Err_0@ == ErrorView::Unauthorized("Missing or malformed claims"@),
            Err(m) => r is Err && r->Err_0@ == ErrorView::Unauthorized(m@),
        },
{
    match decoded {
        Ok((Some(s), Some(i), Some(e), Some(t))) => Ok(Claims { sub: s, session_id: i, exp: e, iat: t }),
        Ok(_) => Err(crate::error::unauthorized("Missing or malformed claims")),
        Err(m) => Err(AppError::Unauthorized(m)),
    }
}

/// The claims of a token that this server signed with `secret` and that has
/// not expired; any other token is refused as unauthorized. A token made by
/// `issue_token` with the same secret, when accepted, gives back its claims.
pub fn verify_token(secret: &[u8], token: &str) -> (r: Result<Claims, AppError>)
    ensures
        r is Err ==> r->Err_0@ is Unauthorized,
        forall|sub: Seq<char>, sid: Seq<char>, exp: i64, iat: i64|
            #[trigger] jwt_hs256(sub, sid, exp, iat, secret@) == token@ && r is Ok ==> r->Ok_0.sub@ == sub
                && r->Ok_0.session_id@ == sid && r->Ok_0.exp == exp && r->Ok_0.iat == iat,
{
    let decoded = jwt_decode_hs256(token, secret);
    claims_from_decoded(decoded)
}

/// Whether `t` is a signed token for the user and session, issued at a time
/// the clock can read and expiring `ttl` seconds later.
pub open spec fn token_of(secret: Seq<u8>, user_id: u128, session_id: u128, ttl: i64, t: Seq<char>) -> bool {
    exists|iat: i64|
        -CLOCK_SPAN_SECS < iat < CLOCK_SPAN_SECS && i64::MIN <= iat + ttl <= i64::MAX && t == #[trigger] jwt_hs256(
            hyphenated(user_id),
            hyphenated(session_id),
            (iat + ttl) as i64,
            iat,
            secret,
        )
}

/// A signed token for the user and session, issued now for `ttl` seconds:
/// the JWT of their hyphenated UUIDs, the issue time and the expiry. It is
/// issued for every lifetime within `i64` less the clock's span; otherwise
/// the expiry may not fit, which is an internal error.
pub fn issue_token(secret: &[u8], user_id: u128, session_id: u128, ttl: i64) -> (r: Result<String, AppError>)
    ensures
        i64::MIN + CLOCK_SPAN_SECS <= ttl <= i64::MAX - CLOCK_SPAN_SECS ==> r is Ok,
        r is Ok ==> token_of(secret@, user_id, session_id, ttl, r->Ok_0@),
        r is Err ==> r->Err_0@ == ErrorView::InternalServerError("Token expiry out of range"@),
{
    match claims_now(user_id, session_id, ttl) {
        None => Err(crate::error::internal_error("Token expiry out of range")),
        Some(c) => {
            let t = jwt_encode_hs256(c.sub.as_str(), c.session_id.as_str(), c.exp, c.iat, secret);
            match t {
                Ok(token) => {
                    proof {
                        let iat = c.iat;
                        assert(c.exp == (iat + ttl) as i64);
                        assert(token@ == jwt_hs256(hyphenated(user_id), hyphenated(session_id), (iat + ttl) as i64, iat, secret@));
                    }
                    Ok(token)
                },
                Err(m) => Err(AppError::InternalServerError(m)),
            }
        },
    }
}

// ---------------------------------------------------------------------------
// Refreshing tokens and logging in

/// The user and session that a refresh token names; a name that is not a
/// UUID is refused as unauthorized, with the parser's error as message.
pub fn refresh_ids(claims: &Claims) -> (r: Result<(u128, u128), AppError>)
    ensures
        match (uuid_parse(claims.sub@), uuid_parse(claims.session_id@)) {
            (Ok(u), Ok(s)) => r == Ok::<(u128, u128), AppError>((u, s)),
            (Err(m), _) => r is Err && r->Err_0@ == ErrorView::Unauthorized(m),
            (Ok(_), Err(m)) => r is Err && r->Err_0@ == ErrorView::Unauthorized(m),
        },
        forall|u: u128, s: u128| #![trigger hyphenated(u), hyphenated(s)]
            hyphenated(u) == claims.sub@ && hyphenated(s) == claims.session_id@ ==> r == Ok::<(u128, u128), AppError>((u, s)),
{
    let user_id = parse_uuid_unauthorized(claims.sub.as_str())?;
    let session_id = parse_uuid_unauthorized(claims.session_id.as_str())?;
    Ok((user_id, session_id))
}

/// A refresh needs the session to be still usable.
pub fn check_refresh_session(found: bool) -> (r: Result<(), AppError>)
    ensures
        r is Ok <==> found,
        !found ==> r->Err_0@ == ErrorView::Unauthorized("Session not found or expired"@),
{
    if !found {
        return Err(crate::error::unauthorized("Session not found or expired"));
    }
    Ok(())
}

/// The hash a login checks the password against: the stored one, or the
/// empty text for a user without one (which no hash reading accepts).
pub fn hash_to_check(stored: &Option<String>) -> (h: &str)
    ensures
        h@ == match stored {
            Some(s) => s@,
            None => ""@,
        },
{
    match stored {
        Some(s) => s.as_str(),
        None => "",
    }
}

/// A user account.
#[derive(Debug)]
pub struct User {
    pub id: u128,
    pub username: String,
    pub email: Option<String>,
    pub status: crate::domain::UserStatus,
    pub password_hash: Option<String>,
    /// Nanoseconds since the epoch.
    pub created_at: i128,
    pub updated_at: i128,
}

/// The user as it is shown: everything but the password hash.
pub fn strip_password_hash(user: User) -> (u: User)
    ensures
        u.password_hash is None,
        u.id == user.id,
        u.username == user.username,
        u.email == user.email,
        u.status == user.status,
        u.created_at == user.created_at,
        u.updated_at == user.updated_at,
{
    User { password_hash: None, ..user }
}

// ---------------------------------------------------------------------------
// Sessions

/// The state of a login session.
#[derive(Debug, Clone, Copy, PartialEq, Eq, Structural)]
pub enum SessionStatus {
    Active,
    Revoked,
    Expired,
}

pub open spec fn session_status_name(s: SessionStatus) -> Seq<char> {
    match s {
        SessionStatus::Active => "active"@,
        SessionStatus::Revoked => "revoked"@,
        SessionStatus::Expired => "expired"@,
    }
}

impl SessionStatus {
    /// The status as it is displayed.
    pub fn as_str(&self) -> (s: &'static str)
        ensures
            s@ == session_status_name(*self),
    {
        match self {
            SessionStatus::Active => "active",
            SessionStatus::Revoked => "revoked",
            SessionStatus::Expired => "expired",
        }
    }
}

/// A stored session is usable while it is active and not yet expired.
pub fn session_is_usable(status: SessionStatus, expires_at: i128, now: i128) -> (b: bool)
    ensures
        b == (status == SessionStatus::Active && expires_at > now),
{
    status == SessionStatus::Active && expires_at > now
}

/// The key under which a session is stored.
pub fn session_key(session_id: u128) -> (k: String)
    ensures
        k@ == "session:"@ + hyphenated(session_id),
{
    let mut k = "session:".to_owned();
    push_uuid(&mut k, session_id);
    k
}

} // verus!
