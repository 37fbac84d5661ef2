//! The user record as the directory hands it over.

use vstd::prelude::*;

verus! {

/// A user of the directory. `passwd` holds the stored hash and `salt` the
/// salt it was made with; neither is ever shown outward. Timestamps are
/// seconds since the Unix epoch, when the directory keeps them.
#[derive(Debug)]
pub struct User {
    pub id: u32,
    pub username: String,
    pub passwd: String,
    pub salt: String,
    pub created_at: Option<i64>,
    pub updated_at: Option<i64>,
}

impl User {
    /// A field-by-field copy.
    pub fn duplicate(&self) -> (r: User)
        ensures
            r == *self,
    {
        User {
            id: self.id,
            username: self.username.clone(),
            passwd: self.passwd.clone(),
            salt: self.salt.clone(),
            created_at: self.created_at,
            updated_at: self.updated_at,
        }
    }
}

} // verus!
