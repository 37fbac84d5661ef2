use wx_shop::credential::{digests_equal, hash_password, verify_password};
use wx_shop::handler::{
    get_user_by_id_handler, handler_404, hash_handler, login_handler, require_login, Gate, HashReq,
    LoginReq, CODE_AUTH_FAILED, CODE_NOT_FOUND, CODE_NOT_LOGGED_IN, CODE_OK, CODE_SERVER_ERROR,
};
use wx_shop::models::User;
use wx_shop::service::{ServiceError, UserServiceImpl};
use wx_shop::session::{SessionError, SessionStore, SESSION_INACTIVITY_SECS};

const ABC_SHA256: &str = "ba7816bf8f01cfea414140de5dae2223b00361a396177a9cb410ff61f20015ad";

fn user(id: u32, name: &str, password: &str, salt: &str) -> User {
    User {
        id,
        username: name.to_string(),
        passwd: hash_password(password, salt),
        salt: salt.to_string(),
        created_at: None,
        updated_at: None,
    }
}

fn login_req(name: &str, password: &str) -> LoginReq {
    LoginReq { username: name.to_string(), passwd: password.to_string() }
}

#[test]
fn test_hash_handler() {
    let payload = HashReq { passwd: "a".into(), salt: "b".into() };
    let hash = hash_handler(&payload);
    assert_eq!(hash.len(), 64);
    assert!(hash.chars().all(|c| c.is_ascii_hexdigit()));
}

#[test]
fn test_get_user_by_id_handler() {
    let service = UserServiceImpl::new();
    let found = User {
        id: 1,
        username: "u".into(),
        passwd: "p".into(),
        salt: "s".into(),
        created_at: None,
        updated_at: None,
    };
    let resp = get_user_by_id_handler(&service, 1, Ok(Some(found)));
    assert_eq!(resp.code, 0);
    assert_eq!(resp.data.unwrap().id, 1);
}

#[test]
fn hash_is_sha256_hex_of_password_then_salt() {
    assert_eq!(hash_password("ab", "c"), ABC_SHA256);
    assert_eq!(hash_password("", "abc"), ABC_SHA256);
    let payload = HashReq { passwd: "a".into(), salt: "bc".into() };
    assert_eq!(hash_handler(&payload), ABC_SHA256);
}

#[test]
fn verify_accepts_own_hash_and_rejects_other_password() {
    let stored = hash_password("secret", "salt1");
    assert!(verify_password("secret", &stored, "salt1"));
    assert!(!verify_password("secreT", &stored, "salt1"));
    assert!(!verify_password("secret", &stored, "salt2"));
    assert!(!verify_password("", &stored, "salt1"));
}

#[test]
fn digests_equal_compares_whole_text() {
    assert!(digests_equal("abc", "abc"));
    assert!(digests_equal("", ""));
    assert!(!digests_equal("abc", "abd"));
    assert!(!digests_equal("abc", "ab"));
    assert!(!digests_equal("xbc", "abc"));
}

#[test]
fn login_unknown_user_fails_without_session() {
    let service = UserServiceImpl::new();
    let mut sessions = SessionStore::new();
    let r = login_handler(&service, &mut sessions, Ok(None), &login_req("bob", "x"), 7, 100);
    assert_eq!(r.code, CODE_AUTH_FAILED);
    assert_eq!(r.msg, "User not found");
    assert_eq!(sessions.len(), 0);
}

#[test]
fn login_wrong_password_fails_without_session() {
    let service = UserServiceImpl::new();
    let mut sessions = SessionStore::new();
    let u = user(1, "alice", "secret", "salt1");
    let r = login_handler(&service, &mut sessions, Ok(Some(u)), &login_req("alice", "wrong"), 7, 100);
    assert_eq!(r.code, CODE_AUTH_FAILED);
    assert_eq!(r.msg, "Invalid password");
    assert_eq!(sessions.len(), 0);
}

#[test]
fn login_directory_failure_is_an_auth_failure() {
    let service = UserServiceImpl::new();
    let mut sessions = SessionStore::new();
    let r = login_handler(&service, &mut sessions, Err("pool timed out".to_string()), &login_req("a", "b"), 7, 100);
    assert_eq!(r.code, CODE_AUTH_FAILED);
    assert_eq!(r.msg, "pool timed out");
    assert_eq!(sessions.len(), 0);
}

#[test]
fn login_success_creates_one_session() {
    let service = UserServiceImpl::new();
    let mut sessions = SessionStore::new();
    let u = user(1, "alice", "secret", "salt1");
    let r = login_handler(&service, &mut sessions, Ok(Some(u)), &login_req("alice", "secret"), 7, 100);
    assert_eq!(r.code, CODE_OK);
    assert_eq!(r.msg, "login success");
    assert_eq!(sessions.len(), 1);
    assert!(sessions.is_live(7, 100));
}

#[test]
fn login_with_live_session_id_reports_session_error() {
    let service = UserServiceImpl::new();
    let mut sessions = SessionStore::new();
    let u1 = user(1, "alice", "secret", "salt1");
    let u2 = user(2, "carol", "pw", "salt2");
    login_handler(&service, &mut sessions, Ok(Some(u1)), &login_req("alice", "secret"), 7, 100);
    let r = login_handler(&service, &mut sessions, Ok(Some(u2)), &login_req("carol", "pw"), 7, 200);
    assert_eq!(r.code, CODE_SERVER_ERROR);
    assert_eq!(r.msg, "Session error: session id already in use");
    assert_eq!(sessions.resolve(7, 200).unwrap().id, 1);
}

#[test]
fn session_resolves_to_creating_user() {
    let mut sessions = SessionStore::new();
    assert_eq!(sessions.create(42, user(3, "dave", "pw", "s"), 1000), Ok(()));
    let got = sessions.resolve(42, 1000).unwrap();
    assert_eq!(got.id, 3);
    assert_eq!(got.username, "dave");
}

#[test]
fn session_expires_after_inactivity_window() {
    let mut sessions = SessionStore::new();
    sessions.create(42, user(3, "dave", "pw", "s"), 1000).unwrap();
    assert!(sessions.resolve(42, 1000 + SESSION_INACTIVITY_SECS - 1).is_some());
    let mut other = SessionStore::new();
    other.create(42, user(3, "dave", "pw", "s"), 1000).unwrap();
    assert!(other.resolve(42, 1000 + SESSION_INACTIVITY_SECS).is_none());
    assert_eq!(other.len(), 0);
}

#[test]
fn session_expiry_slides_on_access() {
    let mut sessions = SessionStore::new();
    sessions.create(42, user(3, "dave", "pw", "s"), 0).unwrap();
    assert!(sessions.resolve(42, 3000).is_some());
    assert!(sessions.resolve(42, 6000).is_some());
    assert!(sessions.resolve(42, 9599).is_some());
    assert!(sessions.resolve(42, 9599 + 3600).is_none());
}

#[test]
fn session_id_in_use_is_refused() {
    let mut sessions = SessionStore::new();
    sessions.create(5, user(1, "a", "p", "s"), 10).unwrap();
    assert_eq!(sessions.create(5, user(2, "b", "p", "s"), 20), Err(SessionError::IdInUse));
    assert_eq!(sessions.create(5, user(2, "b", "p", "s"), 10 + 3600), Ok(()));
    assert_eq!(sessions.resolve(5, 10 + 3600).unwrap().id, 2);
}

#[test]
fn session_expiry_saturates_at_clock_end() {
    let mut sessions = SessionStore::new();
    sessions.create(1, user(1, "a", "p", "s"), u64::MAX - 10).unwrap();
    assert!(sessions.is_live(1, u64::MAX - 1));
    assert!(!sessions.is_live(1, u64::MAX));
}

#[test]
fn invalidated_session_is_absent() {
    let mut sessions = SessionStore::new();
    sessions.create(9, user(1, "a", "p", "s"), 10).unwrap();
    sessions.invalidate(9);
    assert!(sessions.resolve(9, 11).is_none());
    assert_eq!(sessions.len(), 0);
}

#[test]
fn gate_rejects_request_without_session() {
    let mut sessions = SessionStore::new();
    sessions.create(9, user(1, "a", "p", "s"), 10).unwrap();
    match require_login(&mut sessions, None, 11) {
        Gate::Reject(r) => {
            assert_eq!(r.code, CODE_NOT_LOGGED_IN);
            assert_eq!(r.msg, "not logged in");
        }
        Gate::Forward(_) => panic!("let through without a session"),
    }
    assert_eq!(sessions.len(), 1);
}

#[test]
fn gate_rejects_unknown_or_expired_session() {
    let mut sessions = SessionStore::new();
    sessions.create(9, user(1, "a", "p", "s"), 10).unwrap();
    assert!(matches!(require_login(&mut sessions, Some(8), 11), Gate::Reject(_)));
    assert!(matches!(require_login(&mut sessions, Some(9), 10 + 3600), Gate::Reject(_)));
}

#[test]
fn gate_forwards_live_session() {
    let mut sessions = SessionStore::new();
    sessions.create(9, user(1, "a", "p", "s"), 10).unwrap();
    match require_login(&mut sessions, Some(9), 11) {
        Gate::Forward(u) => assert_eq!(u.id, 1),
        Gate::Reject(_) => panic!("live session rejected"),
    }
}

#[test]
fn id_lookup_not_found_names_the_id() {
    let service = UserServiceImpl::new();
    let r = get_user_by_id_handler(&service, 407, Ok(None));
    assert_eq!(r.status, 404);
    assert_eq!(r.code, CODE_NOT_FOUND);
    assert_eq!(r.msg, "User with ID 407 not found");
    assert!(r.data.is_none());
    match service.find_user_by_id(0, Ok(None)) {
        Err(ServiceError::NotFound(m)) => assert_eq!(m, "User with ID 0 not found"),
        _ => panic!("expected not found"),
    }
}

#[test]
fn id_lookup_directory_failure_hides_detail() {
    let service = UserServiceImpl::new();
    let r = get_user_by_id_handler(&service, 1, Err("connection refused".to_string()));
    assert_eq!(r.status, 500);
    assert_eq!(r.code, CODE_SERVER_ERROR);
    assert_eq!(r.msg, "Internal Server Error");
}

#[test]
fn unknown_route_reply() {
    let r = handler_404();
    assert_eq!(r.status, 404);
    assert_eq!(r.code, 404);
    assert_eq!(r.msg, "not found");
}

#[test]
fn end_to_end_alice() {
    let service = UserServiceImpl::new();
    let mut sessions = SessionStore::new();
    let alice = || User {
        id: 1,
        username: "alice".to_string(),
        passwd: hash_password("secret", "salt1"),
        salt: "salt1".to_string(),
        created_at: None,
        updated_at: None,
    };
    let ok = login_handler(&service, &mut sessions, Ok(Some(alice())), &login_req("alice", "secret"), 77, 500);
    assert_eq!(ok.code, 0);
    assert_eq!(sessions.len(), 1);

    let bad = login_handler(&service, &mut sessions, Ok(Some(alice())), &login_req("alice", "wrong"), 78, 501);
    assert_eq!(bad.code, CODE_AUTH_FAILED);
    assert_eq!(sessions.len(), 1);
    assert!(!sessions.is_live(78, 501));

    match require_login(&mut sessions, Some(77), 502) {
        Gate::Forward(_) => {
            let r = get_user_by_id_handler(&service, 1, Ok(Some(alice())));
            assert_eq!(r.code, 0);
            let data = r.data.unwrap();
            assert_eq!(data.id, 1);
            assert_eq!(data.username, "alice");
        }
        Gate::Reject(_) => panic!("valid session rejected"),
    }

    match require_login(&mut sessions, None, 503) {
        Gate::Reject(r) => assert_eq!(r.code, 4010),
        Gate::Forward(_) => panic!("let through without a session"),
    }
}
