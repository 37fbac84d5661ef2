//! Request-level operations: the replies for login, hashing, the
//! authorization check and the protected id lookup.

use crate::credential::{hash_password, password_hash, password_matches};
use crate::models::User;
use crate::service::{login_spec, not_found_message, Lookup, ServiceError, UserServiceImpl};
use crate::session::{after_resolve, created, expiry_after, is_live, resolved_user, SessionRecord, SessionStore};
use vstd::prelude::*;
use vstd::string::StringExecFns;

verus! {

/// Reply code of a success.
pub const CODE_OK: u32 = 0;
/// Reply code of a failed login.
pub const CODE_AUTH_FAILED: u32 = 4001;
/// Reply code of a request without a valid session.
pub const CODE_NOT_LOGGED_IN: u32 = 4010;
/// Reply code of an id lookup that found nothing.
pub const CODE_NOT_FOUND: u32 = 4040;
/// Reply code of a store failure.
pub const CODE_SERVER_ERROR: u32 = 5000;

/// Body of a request to hash a password.
pub struct HashReq {
    pub passwd: String,
    pub salt: String,
}

/// Body of a login request.
pub struct LoginReq {
    pub username: String,
    pub passwd: String,
}

/// A structured reply: the transport status, the code, a message, and the
/// user record for lookups.
pub struct Reply {
    pub status: u16,
    pub code: u32,
    pub msg: String,
    pub data: Option<User>,
}

/// What the authorization check decides.
pub enum Gate {
    /// Go on to the protected operation, on behalf of this user.
    Forward(User),
    /// Stop here and send this reply.
    Reject(Reply),
}

/// The message of a login whose session could not be stored.
pub open spec fn session_error_message() -> Seq<char> {
    "Session error: session id already in use"@
}

/// The code that login answers.
pub open spec fn login_code(m: Map<u64, SessionRecord>, found: Lookup, password: Seq<char>, id: u64, now: u64) -> u32 {
    match login_spec(found, password) {
        Err(_) => CODE_AUTH_FAILED,
        Ok(_) => if is_live(m, id, now) {
            CODE_SERVER_ERROR
        } else {
            CODE_OK
        },
    }
}

/// The message that login answers.
pub open spec fn login_message(m: Map<u64, SessionRecord>, found: Lookup, password: Seq<char>, id: u64, now: u64) -> Seq<char> {
    match login_spec(found, password) {
        Err(e) => e,
        Ok(_) => if is_live(m, id, now) {
            session_error_message()
        } else {
            "login success"@
        },
    }
}

/// The session table after login.
pub open spec fn login_sessions(
    m: Map<u64, SessionRecord>,
    found: Lookup,
    password: Seq<char>,
    id: u64,
    now: u64,
) -> Map<u64, SessionRecord> {
    match login_spec(found, password) {
        Ok(u) => if is_live(m, id, now) {
            m
        } else {
            created(m, id, u, now)
        },
        Err(_) => m,
    }
}

/// The user that the login check lets through, if any.
pub open spec fn gate_user(m: Map<u64, SessionRecord>, session_id: Option<u64>, now: u64) -> Option<User> {
    match session_id {
        None => None,
        Some(id) => resolved_user(m, id, now),
    }
}

/// The session table after the login check has looked.
pub open spec fn gate_sessions(m: Map<u64, SessionRecord>, session_id: Option<u64>, now: u64) -> Map<u64, SessionRecord> {
    match session_id {
        None => m,
        Some(id) => after_resolve(m, id, now),
    }
}

/// The stored form of the password and salt in the request.
pub fn hash_handler(payload: &HashReq) -> (r: String)
    ensures
        r@ == password_hash(payload.passwd@, payload.salt@),
{
    hash_password(payload.passwd.as_str(), payload.salt.as_str())
}

/// Login: checks the credential against what the directory found under the
/// username and, only when it matches, stores a session for the user under
/// `session_id`.
pub fn login_handler(
    service: &UserServiceImpl,
    sessions: &mut SessionStore,
    found: Lookup,
    payload: &LoginReq,
    session_id: u64,
    now: u64,
) -> (r: Reply)
    ensures
        r.status == 200,
        r.data is None,
        r.code == login_code(old(sessions)@, found, payload.passwd@, session_id, now),
        r.msg@ == login_message(old(sessions)@, found, payload.passwd@, session_id, now),
        final(sessions)@ == login_sessions(old(sessions)@, found, payload.passwd@, session_id, now),
{
    match service.login(found, payload.passwd.as_str()) {
        Ok(user) => match sessions.create(session_id, user, now) {
            Ok(()) => Reply { status: 200, code: CODE_OK, msg: String::from_str("login success"), data: None },
            Err(_) => Reply {
                status: 200,
                code: CODE_SERVER_ERROR,
                msg: String::from_str("Session error: session id already in use"),
                data: None,
            },
        },
        Err(msg) => Reply { status: 200, code: CODE_AUTH_FAILED, msg, data: None },
    }
}

/// The authorization check: lets a request through only with the id of a
/// live session, whose expiry it refreshes.
pub fn require_login(sessions: &mut SessionStore, session_id: Option<u64>, now: u64) -> (r: Gate)
    ensures
        final(sessions)@ == gate_sessions(old(sessions)@, session_id, now),
        match gate_user(old(sessions)@, session_id, now) {
            Some(u) => r == Gate::Forward(u),
            None => match r {
                Gate::Reject(reply) => reply.status == 200 && reply.code == CODE_NOT_LOGGED_IN
                    && reply.msg@ == "not logged in"@ && reply.data is None,
                Gate::Forward(_) => false,
            },
        },
{
    let user = match session_id {
        None => None,
        Some(id) => sessions.resolve(id, now),
    };
    match user {
        Some(u) => Gate::Forward(u),
        None => Gate::Reject(
            Reply { status: 200, code: CODE_NOT_LOGGED_IN, msg: String::from_str("not logged in"), data: None },
        ),
    }
}

impl ServiceError {
    /// The reply for a failed id lookup; a directory failure shows no detail.
    pub fn into_response(self) -> (r: Reply)
        ensures
            r.data is None,
            match self {
                ServiceError::NotFound(m) => r.status == 404 && r.code == CODE_NOT_FOUND && r.msg == m,
                ServiceError::Database(_) => r.status == 500 && r.code == CODE_SERVER_ERROR
                    && r.msg@ == "Internal Server Error"@,
            },
    {
        match self {
            ServiceError::NotFound(msg) => Reply { status: 404, code: CODE_NOT_FOUND, msg, data: None },
            ServiceError::Database(_) => Reply {
                status: 500,
                code: CODE_SERVER_ERROR,
                msg: String::from_str("Internal Server Error"),
                data: None,
            },
        }
    }
}

/// The protected id lookup, over what the directory found under `id`.
pub fn get_user_by_id_handler(service: &UserServiceImpl, id: u32, found: Lookup) -> (r: Reply)
    ensures
        match found {
            Ok(Some(u)) => r.status == 200 && r.code == CODE_OK && r.data == Some(u),
            Ok(None) => r.status == 404 && r.code == CODE_NOT_FOUND && r.msg@ == not_found_message(id)
                && r.data is None,
            Err(_) => r.status == 500 && r.code == CODE_SERVER_ERROR && r.msg@ == "Internal Server Error"@
                && r.data is None,
        },
{
    match service.find_user_by_id(id, found) {
        Ok(user) => Reply { status: 200, code: CODE_OK, msg: String::new(), data: Some(user) },
        Err(e) => e.into_response(),
    }
}

/// The reply for a route that does not exist.
pub fn handler_404() -> (r: Reply)
    ensures
        r.status == 404,
        r.code == 404,
        r.msg@ == "not found"@,
        r.data is None,
{
    Reply { status: 404, code: 404, msg: String::from_str("not found"), data: None }
}

/// Login under a username that the directory does not know fails as an
/// authentication failure and stores no session.
pub proof fn lemma_unknown_user_rejected(m: Map<u64, SessionRecord>, password: Seq<char>, id: u64, now: u64)
    ensures
        login_code(m, Ok(None), password, id, now) == CODE_AUTH_FAILED,
        login_sessions(m, Ok(None), password, id, now) == m,
{
}

/// Login with a wrong password fails as an authentication failure and
/// stores no session.
pub proof fn lemma_wrong_password_rejected(
    m: Map<u64, SessionRecord>,
    user: User,
    password: Seq<char>,
    id: u64,
    now: u64,
)
    requires
        !password_matches(password, user.passwd@, user.salt@),
    ensures
        login_code(m, Ok(Some(user)), password, id, now) == CODE_AUTH_FAILED,
        login_sessions(m, Ok(Some(user)), password, id, now) == m,
{
}

/// Login with the right password under a free session id succeeds with code
/// 0 and adds exactly one session, which resolves to the user at once.
pub proof fn lemma_correct_login_creates_session(
    m: Map<u64, SessionRecord>,
    user: User,
    password: Seq<char>,
    id: u64,
    now: u64,
)
    requires
        password_matches(password, user.passwd@, user.salt@),
        !is_live(m, id, now),
        now < u64::MAX,
    ensures
        login_code(m, Ok(Some(user)), password, id, now) == CODE_OK,
        login_sessions(m, Ok(Some(user)), password, id, now).dom() == m.dom().insert(id),
        login_sessions(m, Ok(Some(user)), password, id, now).remove(id) == m.remove(id),
        login_sessions(m, Ok(Some(user)), password, id, now)[id] == (SessionRecord { user, expires_at: expiry_after(now) }),
        gate_user(login_sessions(m, Ok(Some(user)), password, id, now), Some(id), now) == Some(user),
{
    let n = login_sessions(m, Ok(Some(user)), password, id, now);
    assert(n.dom() =~= m.dom().insert(id));
    assert(n.remove(id) =~= m.remove(id));
}

/// A request that carries no session is never let through, and the check
/// touches no session for it.
pub proof fn lemma_gate_rejects_without_session(m: Map<u64, SessionRecord>, now: u64)
    ensures
        gate_user(m, None, now) is None,
        gate_sessions(m, None, now) == m,
{
}

} // verus!
