//! The auth service: login and id lookup, decided over what the user
//! directory answered.

use crate::credential::{password_matches, verify_password};
use crate::models::User;
use vstd::prelude::*;
use vstd::string::StringExecFns;

verus! {

/// What a directory lookup gives: a user, no user, or the text of a backend failure.
pub type Lookup = Result<Option<User>, String>;

/// Failure of an id lookup.
#[derive(Debug)]
pub enum ServiceError {
    /// No user has the id; the message names it.
    NotFound(String),
    /// The directory failed; the detail is kept for the server log only.
    Database(String),
}

/// The decimal digit of a value below 10.
pub open spec fn digit_char(n: nat) -> char {
    seq!['0', '1', '2', '3', '4', '5', '6', '7', '8', '9'][n as int]
}

/// Decimal text of a natural number, without leading zeros.
pub open spec fn decimal_of(n: nat) -> Seq<char>
    decreases n,
{
    if n < 10 {
        seq![digit_char(n)]
    } else {
        decimal_of(n / 10) + seq![digit_char(n % 10)]
    }
}

/// The message of a failed id lookup.
pub open spec fn not_found_message(id: u32) -> Seq<char> {
    "User with ID "@ + decimal_of(id as nat) + " not found"@
}

/// What login answers for a lookup and a submitted password.
pub open spec fn login_spec(found: Lookup, password: Seq<char>) -> Result<User, Seq<char>> {
    match found {
        Err(e) => Err(e@),
        Ok(None) => Err("User not found"@),
        Ok(Some(u)) => if password_matches(password, u.passwd@, u.salt@) {
            Ok(u)
        } else {
            Err("Invalid password"@)
        },
    }
}

/// A login result with its message as text.
pub open spec fn login_view(r: Result<User, String>) -> Result<User, Seq<char>> {
    match r {
        Ok(u) => Ok(u),
        Err(m) => Err(m@),
    }
}

/// Relies on the standard `ToString` of `u32`: its decimal text.
#[verifier::external_body]
fn decimal_text(n: u32) -> (r: String)
    ensures
        r@ == decimal_of(n as nat),
{
    n.to_string()
}

/// The service; it holds no state of its own.
pub struct UserServiceImpl {}

impl UserServiceImpl {
    pub fn new() -> (r: UserServiceImpl) {
        UserServiceImpl {  }
    }

    /// Login: the user named in the lookup, if the password matches its stored hash.
    pub fn login(&self, found: Lookup, password: &str) -> (r: Result<User, String>)
        ensures
            login_view(r) == login_spec(found, password@),
    {
        match found {
            Err(e) => Err(e),
            Ok(None) => Err(String::from_str("User not found")),
            Ok(Some(u)) => {
                if verify_password(password, u.passwd.as_str(), u.salt.as_str()) {
                    Ok(u)
                } else {
                    Err(String::from_str("Invalid password"))
                }
            },
        }
    }

    /// The user with the given id, `NotFound` if the directory has none.
    pub fn find_user_by_id(&self, id: u32, found: Lookup) -> (r: Result<User, ServiceError>)
        ensures
            match (r, found) {
                (Ok(u), Ok(Some(f))) => u == f,
                (Err(ServiceError::Database(m)), Err(e)) => m == e,
                (Err(ServiceError::NotFound(m)), Ok(None)) => m@ == not_found_message(id),
                _ => false,
            },
    {
        match found {
            Err(e) => Err(ServiceError::Database(e)),
            Ok(None) => {
                let digits = decimal_text(id);
                let msg = String::from_str("User with ID ").concat(digits.as_str()).concat(" not found");
                Err(ServiceError::NotFound(msg))
            },
            Ok(Some(u)) => Ok(u),
        }
    }
}

} // verus!
