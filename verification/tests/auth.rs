use rust_chat_server::auth::{
    authenticate, bearer_token, check_bootstrap, check_login_password, check_refresh_session, check_registration,
    check_username_available, claims_now, claims_session_id, claims_user_id, hash_password, hash_to_check, make_claims,
    middleware_token, refresh_ids, session_is_usable, session_key, strip_password_hash, verify_password, AuthUser,
    BootstrapRequest, Claims, LoginRequest, LogoutRequest, RefreshRequest, RegisterRequest, SessionStatus, User,
};
use rust_chat_server::auth::{claims_from_decoded, issue_token, verify_token};
use rust_chat_server::domain::UserStatus;
use rust_chat_server::refresh::{RefreshFlow, RefreshStage, RefreshStep};
use rust_chat_server::error::AppError;

const SAMPLE: u128 = 0x67e5_5044_10b1_426f_9247_bb68_0e5f_e0c8;

fn bad_request(r: Result<(), AppError>) -> String {
    match r {
        Err(AppError::BadRequest(m)) => m,
        other => panic!("unexpected {:?}", other),
    }
}

#[test]
fn registration_rules() {
    assert!(check_registration("alice", "secret1").is_ok());
    assert_eq!(bad_request(check_registration("al", "secret1")), "Username must be at least 3 characters");
    assert_eq!(bad_request(check_registration("al ice", "secret1")), "Username must not contain spaces");
    assert_eq!(bad_request(check_registration("alice", "12345")), "Password must be at least 6 characters");
    assert_eq!(bad_request(check_registration("a", "1")), "Username must be at least 3 characters");
    // lengths count bytes: two two-byte letters are four bytes
    assert!(check_registration("éé", "secret1").is_ok());
    assert!(check_registration("abc", "ééé").is_ok());
    match check_username_available(true) {
        Err(AppError::Conflict(m)) => assert_eq!(m, "Username already taken"),
        other => panic!("unexpected {:?}", other),
    }
    assert!(check_username_available(false).is_ok());
}

#[test]
fn bootstrap_rules() {
    match check_bootstrap(true, "al") {
        Err(AppError::Conflict(m)) => assert_eq!(m, "Instance already has an owner"),
        other => panic!("unexpected {:?}", other),
    }
    assert_eq!(bad_request(check_bootstrap(false, "a b c")), "Username must not contain spaces");
    assert!(check_bootstrap(false, "owner").is_ok());
}

#[test]
fn login_rules() {
    assert!(check_login_password(true).is_ok());
    match check_login_password(false) {
        Err(AppError::Unauthorized(m)) => assert_eq!(m, "Invalid password"),
        other => panic!("unexpected {:?}", other),
    }
    assert_eq!(hash_to_check(&None), "");
    assert_eq!(hash_to_check(&Some("h".to_string())), "h");
}

#[test]
fn password_hash_round_trip() {
    let h = hash_password("hunter22", "pepper").unwrap();
    assert!(h.starts_with("$argon2id$v=19$m=19456,t=2,p=1$"));
    assert_eq!(verify_password("hunter22", "pepper", &h).unwrap(), true);
    assert_eq!(verify_password("hunter23", "pepper", &h).unwrap(), false);
    assert_eq!(verify_password("hunter22", "other", &h).unwrap(), false);
    match verify_password("hunter22", "pepper", "") {
        Err(AppError::InternalServerError(_)) => {}
        other => panic!("unexpected {:?}", other),
    }
}

#[test]
fn bearer_headers() {
    assert_eq!(bearer_token(Some("Bearer abc")).unwrap(), "abc");
    match bearer_token(Some("Basic abc")) {
        Err(AppError::Unauthorized(m)) => assert_eq!(m, "Missing authorization header"),
        other => panic!("unexpected {:?}", other),
    }
    assert!(bearer_token(None).is_err());
    assert_eq!(middleware_token(Some("Bearer abc")).as_deref(), Some("abc"));
    assert_eq!(middleware_token(Some("abc")).as_deref(), Some("abc"));
    assert_eq!(middleware_token(None), None);
}

#[test]
fn auth_user_ids() {
    let u = AuthUser { user_id: "67e55044-10b1-426f-9247-bb680e5fe0c8".into(), session_id: "nope".into() };
    assert_eq!(u.user_id_uuid().unwrap(), SAMPLE);
    match u.session_id_uuid() {
        Err(AppError::Unauthorized(m)) => assert!(!m.is_empty()),
        other => panic!("unexpected {:?}", other),
    }
    let simple = AuthUser { user_id: "67e5504410b1426f9247bb680e5fe0c8".into(), session_id: String::new() };
    assert_eq!(simple.user_id_uuid().unwrap(), SAMPLE);
}

#[test]
fn claims_and_sessions() {
    let c = make_claims("u", "s", 1000, 900);
    assert_eq!((c.sub.as_str(), c.session_id.as_str(), c.iat, c.exp), ("u", "s", 1000, 1900));
    let now = claims_now(SAMPLE, 1, 60).unwrap();
    assert_eq!(now.sub, "67e55044-10b1-426f-9247-bb680e5fe0c8");
    assert_eq!(now.session_id, "00000000-0000-0000-0000-000000000001");
    assert_eq!(now.exp - now.iat, 60);
    assert!(claims_now(SAMPLE, 1, i64::MAX).is_none());
    match claims_session_id(&Claims { sub: "x".into(), session_id: "bad".into(), exp: 0, iat: 0 }) {
        Err(AppError::Unauthorized(m)) => assert_eq!(m, "Invalid session"),
        other => panic!("unexpected {:?}", other),
    }
    assert_eq!(session_key(SAMPLE), "session:67e55044-10b1-426f-9247-bb680e5fe0c8");
    assert!(session_is_usable(SessionStatus::Active, 10, 5));
    assert!(!session_is_usable(SessionStatus::Active, 5, 5));
    assert!(!session_is_usable(SessionStatus::Revoked, 10, 5));
    assert_eq!(SessionStatus::Expired.as_str(), "expired");
}

#[test]
fn authenticating_a_session() {
    let claims = || Claims { sub: "user".into(), session_id: "sess".into(), exp: 0, iat: 0 };
    let ok = authenticate(claims(), Ok(true)).unwrap();
    assert_eq!((ok.user_id.as_str(), ok.session_id.as_str()), ("user", "sess"));
    match authenticate(claims(), Ok(false)) {
        Err(AppError::Unauthorized(m)) => assert_eq!(m, "Session revoked or expired"),
        other => panic!("unexpected {:?}", other),
    }
    match authenticate(claims(), Err(())) {
        Err(AppError::Unauthorized(m)) => assert_eq!(m, "Session error"),
        other => panic!("unexpected {:?}", other),
    }
}

#[test]
fn refreshing() {
    let good = Claims { sub: "67e55044-10b1-426f-9247-bb680e5fe0c8".into(), session_id: "00000000-0000-0000-0000-000000000002".into(), exp: 0, iat: 0 };
    assert_eq!(refresh_ids(&good).unwrap(), (SAMPLE, 2));
    let bad = Claims { sub: "x".into(), session_id: "00000000-0000-0000-0000-000000000002".into(), exp: 0, iat: 0 };
    assert!(matches!(refresh_ids(&bad), Err(AppError::Unauthorized(_))));
    match check_refresh_session(false) {
        Err(AppError::Unauthorized(m)) => assert_eq!(m, "Session not found or expired"),
        other => panic!("unexpected {:?}", other),
    }
    assert!(check_refresh_session(true).is_ok());
}

#[test]
fn stripping_password_hashes() {
    let u = User {
        id: 1,
        username: "a".into(),
        email: None,
        status: UserStatus::Active,
        password_hash: Some("h".into()),
        created_at: 3,
        updated_at: 4,
    };
    let s = strip_password_hash(u);
    assert_eq!(s.password_hash, None);
    assert_eq!((s.id, s.username.as_str(), s.created_at, s.updated_at), (1, "a", 3, 4));
}

#[test]
fn token_user_ids() {
    let claims = Claims { sub: "00000000-0000-0000-0000-00000000002a".into(), session_id: "s".into(), exp: 0, iat: 0 };
    assert_eq!(claims_user_id(&claims).unwrap(), 42);
    match claims_user_id(&Claims { sub: "nope".into(), session_id: "s".into(), exp: 0, iat: 0 }) {
        Err(AppError::Unauthorized(m)) => assert_eq!(m, "Invalid user"),
        other => panic!("unexpected {:?}", other),
    }
}

#[test]
fn request_shapes() {
    let login = LoginRequest { username_or_email: "alice".into(), password: "secret1".into(), client: None };
    assert!(check_registration(&login.username_or_email, &login.password).is_ok());
    let register = RegisterRequest { username: "a b".into(), password: "secret1".into(), invite_code: None };
    assert!(check_registration(&register.username, &register.password).is_err());
    let boot = BootstrapRequest { username: "owner".into(), password: "x".into() };
    assert!(check_bootstrap(false, &boot.username).is_ok());
    let refresh = RefreshRequest { refresh_token: "t".into() };
    assert_eq!(refresh.refresh_token, "t");
    let logout = LogoutRequest { refresh_token: None };
    assert!(logout.refresh_token.is_none());
}

#[test]
fn issued_ids_read_back() {
    let claims = claims_now(SAMPLE, 99, 60).unwrap();
    assert_eq!(refresh_ids(&claims).unwrap(), (SAMPLE, 99));
    assert_eq!(claims_user_id(&claims).unwrap(), SAMPLE);
    assert_eq!(claims_session_id(&claims).unwrap(), 99);
    let user = authenticate(claims, Ok(true)).unwrap();
    assert_eq!(user.user_id_uuid().unwrap(), SAMPLE);
    assert_eq!(user.session_id_uuid().unwrap(), 99);
}

#[test]
fn signed_tokens_read_back() {
    let token = issue_token(b"secret", SAMPLE, 9, 600).unwrap();
    assert_eq!(token.split('.').count(), 3);
    let c = verify_token(b"secret", &token).unwrap();
    assert_eq!(c.sub, "67e55044-10b1-426f-9247-bb680e5fe0c8");
    assert_eq!(c.session_id, "00000000-0000-0000-0000-000000000009");
    assert_eq!(c.exp, c.iat + 600);
    // Another secret, an expired token and text that is no token are refused.
    assert!(matches!(verify_token(b"other", &token), Err(AppError::Unauthorized(_))));
    let expired = issue_token(b"secret", SAMPLE, 9, -3600).unwrap();
    assert!(matches!(verify_token(b"secret", &expired), Err(AppError::Unauthorized(_))));
    assert!(matches!(verify_token(b"secret", "not.a.token"), Err(AppError::Unauthorized(_))));
    // A lifetime the clock cannot add is an internal error.
    assert!(matches!(issue_token(b"secret", SAMPLE, 9, i64::MAX), Err(AppError::InternalServerError(m)) if m == "Token expiry out of range"));
}

#[test]
fn decoded_claims() {
    let c = claims_from_decoded(Ok((Some("u".into()), Some("s".into()), Some(5), Some(1)))).unwrap();
    assert_eq!((c.sub.as_str(), c.session_id.as_str(), c.exp, c.iat), ("u", "s", 5, 1));
    assert!(matches!(claims_from_decoded(Ok((Some("u".into()), None, Some(5), Some(1)))),
        Err(AppError::Unauthorized(m)) if m == "Missing or malformed claims"));
    assert!(matches!(claims_from_decoded(Err("ExpiredSignature".into())), Err(AppError::Unauthorized(m)) if m == "ExpiredSignature"));
}

#[test]
fn password_round_trip_over_pepper_and_password() {
    let h = hash_password("word", "pep").unwrap();
    assert!(h.starts_with("$argon2id$v=19$m=19456,t=2,p=1$"));
    // Only the pepper followed by the password matters.
    assert_eq!(verify_password("pword", "pe", &h).unwrap(), true);
    assert_eq!(verify_password("word", "pe", &h).unwrap(), false);
    assert!(matches!(verify_password("word", "pep", "not a hash"), Err(AppError::InternalServerError(_))));
}

fn base64url_decode(text: &str) -> Vec<u8> {
    let alphabet = "ABCDEFGHIJKLMNOPQRSTUVWXYZabcdefghijklmnopqrstuvwxyz0123456789-_";
    let mut bits: u32 = 0;
    let mut count = 0;
    let mut out = Vec::new();
    for c in text.chars() {
        bits = (bits << 6) | alphabet.find(c).unwrap() as u32;
        count += 6;
        if count >= 8 {
            count -= 8;
            out.push((bits >> count) as u8);
            bits &= (1 << count) - 1;
        }
    }
    out
}

#[test]
fn signed_token_claims_in_declared_order() {
    let token = issue_token(b"secret", SAMPLE, 9, 600).unwrap();
    let payload = String::from_utf8(base64url_decode(token.split('.').nth(1).unwrap())).unwrap();
    assert!(payload.starts_with("{\"sub\":\"67e55044-10b1-426f-9247-bb680e5fe0c8\",\"session_id\":\"00000000-0000-0000-0000-000000000009\",\"exp\":"));
    let iat_at = payload.find("\"iat\":").unwrap();
    assert!(payload.find("\"exp\":").unwrap() < iat_at);
}

fn refresh_user() -> User {
    User {
        id: SAMPLE,
        username: "ann".into(),
        email: Some("a@x".into()),
        status: UserStatus::Active,
        password_hash: Some("h".into()),
        created_at: 3,
        updated_at: 4,
    }
}

#[test]
fn refresh_flow() {
    let token = issue_token(b"secret", SAMPLE, 9, 600).unwrap();
    let (mut flow, step) = RefreshFlow::start(b"secret".to_vec(), &token, 900, 3600);
    assert!(matches!(step, RefreshStep::LookupSession { session_id: 9 }));
    assert_eq!(flow.stage(), RefreshStage::AwaitSession);
    assert!(matches!(flow.on_session(Ok(true)), RefreshStep::LookupUser { user_id: SAMPLE }));
    match flow.on_user(Ok(refresh_user())) {
        RefreshStep::Done(Ok(t)) => {
            assert_eq!((t.user.id, t.user.username.as_str(), t.user.password_hash), (SAMPLE, "ann", None));
            let a = verify_token(b"secret", &t.access_token).unwrap();
            let r = verify_token(b"secret", &t.refresh_token).unwrap();
            assert_eq!((a.sub.as_str(), a.session_id.as_str()), ("67e55044-10b1-426f-9247-bb680e5fe0c8", "00000000-0000-0000-0000-000000000009"));
            assert_eq!((a.exp - a.iat, r.exp - r.iat), (900, 3600));
        }
        other => panic!("unexpected {:?}", other),
    }
    assert_eq!(flow.stage(), RefreshStage::Finished);
}

#[test]
fn refresh_flow_refusals() {
    let (flow, step) = RefreshFlow::start(b"secret".to_vec(), "garbage", 900, 3600);
    assert!(matches!(step, RefreshStep::Done(Err(AppError::Unauthorized(_)))));
    assert_eq!(flow.stage(), RefreshStage::Finished);
    let token = issue_token(b"other", SAMPLE, 9, 600).unwrap();
    assert!(matches!(RefreshFlow::start(b"secret".to_vec(), &token, 900, 3600).1, RefreshStep::Done(Err(AppError::Unauthorized(_)))));
    let claims = Claims { sub: "bob".into(), session_id: "x".into(), exp: 0, iat: 0 };
    assert!(matches!(RefreshFlow::start_with_claims(b"s".to_vec(), Ok(claims), 1, 1).1, RefreshStep::Done(Err(AppError::Unauthorized(_)))));
    let token = issue_token(b"secret", SAMPLE, 9, 600).unwrap();
    let (mut flow, _) = RefreshFlow::start(b"secret".to_vec(), &token, 900, 3600);
    assert!(matches!(flow.on_session(Ok(false)), RefreshStep::Done(Err(AppError::Unauthorized(m))) if m == "Session not found or expired"));
    let (mut flow, _) = RefreshFlow::start(b"secret".to_vec(), &token, 900, i64::MAX);
    flow.on_session(Ok(true));
    assert!(matches!(flow.on_user(Ok(refresh_user())), RefreshStep::Done(Err(AppError::InternalServerError(m))) if m == "Token expiry out of range"));
    let (mut flow, _) = RefreshFlow::start(b"secret".to_vec(), &token, 900, 3600);
    flow.on_session(Ok(true));
    assert!(matches!(flow.on_user(Err(AppError::NotFound("User not found".into()))), RefreshStep::Done(Err(AppError::NotFound(_)))));
}
