//! Sessions: records keyed by an opaque id, each holding the user who logged
//! in and the instant after which it counts as expired. Every successful
//! resolve pushes that instant forward by the inactivity window.

use crate::models::User;
use std::collections::HashMap;
use vstd::prelude::*;

verus! {

broadcast use vstd::std_specs::hash::group_hash_axioms;

/// Seconds of inactivity after which a session expires.
pub const SESSION_INACTIVITY_SECS: u64 = 3600;

/// One stored session.
pub struct SessionRecord {
    pub user: User,
    /// The session is live while the clock reads less than this.
    pub expires_at: u64,
}

/// Why a session could not be written.
#[derive(Debug, PartialEq, Eq, Structural)]
pub enum SessionError {
    /// A live session already has this id.
    IdInUse,
}

/// The expiry set at `now`: the window later, held at the clock's end.
pub open spec fn expiry_after(now: u64) -> u64 {
    if now <= u64::MAX - SESSION_INACTIVITY_SECS {
        (now + SESSION_INACTIVITY_SECS) as u64
    } else {
        u64::MAX
    }
}

/// A session with this id is stored and not expired at `now`.
pub open spec fn is_live(m: Map<u64, SessionRecord>, id: u64, now: u64) -> bool {
    m.contains_key(id) && now < m[id].expires_at
}

/// The table after creating a session for `user` under `id` at `now`.
pub open spec fn created(m: Map<u64, SessionRecord>, id: u64, user: User, now: u64) -> Map<u64, SessionRecord> {
    m.insert(id, SessionRecord { user, expires_at: expiry_after(now) })
}

/// What resolving `id` at `now` answers.
pub open spec fn resolved_user(m: Map<u64, SessionRecord>, id: u64, now: u64) -> Option<User> {
    if is_live(m, id, now) {
        Some(m[id].user)
    } else {
        None
    }
}

/// The table after resolving `id` at `now`: a live session gets a fresh
/// expiry, an expired one is dropped.
pub open spec fn after_resolve(m: Map<u64, SessionRecord>, id: u64, now: u64) -> Map<u64, SessionRecord> {
    if is_live(m, id, now) {
        m.insert(id, SessionRecord { user: m[id].user, expires_at: expiry_after(now) })
    } else {
        m.remove(id)
    }
}

fn expiry_at(now: u64) -> (r: u64)
    ensures
        r == expiry_after(now),
{
    if now <= u64::MAX - SESSION_INACTIVITY_SECS {
        now + SESSION_INACTIVITY_SECS
    } else {
        u64::MAX
    }
}

/// The session table.
pub struct SessionStore {
    records: HashMap<u64, SessionRecord>,
}

impl View for SessionStore {
    type V = Map<u64, SessionRecord>;

    closed spec fn view(&self) -> Map<u64, SessionRecord> {
        self.records@
    }
}

impl SessionStore {
    /// An empty table.
    pub fn new() -> (r: SessionStore)
        ensures
            r@ == Map::<u64, SessionRecord>::empty(),
    {
        SessionStore { records: HashMap::new() }
    }

    /// Number of stored sessions, expired ones not yet dropped included.
    pub fn len(&self) -> (r: usize)
        ensures
            r == self@.len(),
    {
        self.records.len()
    }

    /// Whether a session with this id is stored and live at `now`.
    pub fn is_live(&self, id: u64, now: u64) -> (r: bool)
        ensures
            r == is_live(self@, id, now),
    {
        match self.records.get(&id) {
            Some(rec) => now < rec.expires_at,
            None => false,
        }
    }

    /// Stores a session for `user` under `id`, expiring one window after `now`.
    /// Fails, and changes nothing, when a live session already has the id.
    pub fn create(&mut self, id: u64, user: User, now: u64) -> (r: Result<(), SessionError>)
        ensures
            is_live(old(self)@, id, now) ==> r == Err::<(), SessionError>(SessionError::IdInUse) && final(self)@ == old(self)@,
            !is_live(old(self)@, id, now) ==> r is Ok && final(self)@ == created(old(self)@, id, user, now),
    {
        if self.is_live(id, now) {
            return Err(SessionError::IdInUse);
        }
        let expires_at = expiry_at(now);
        self.records.insert(id, SessionRecord { user, expires_at });
        Ok(())
    }

    /// The user of a live session, whose expiry moves to one window after
    /// `now`; `None` for an unknown or expired id, which is then dropped.
    pub fn resolve(&mut self, id: u64, now: u64) -> (r: Option<User>)
        ensures
            r == resolved_user(old(self)@, id, now),
            final(self)@ == after_resolve(old(self)@, id, now),
    {
        match self.records.remove(&id) {
            None => None,
            Some(rec) => {
                if now < rec.expires_at {
                    let user = rec.user.duplicate();
                    let expires_at = expiry_at(now);
                    self.records.insert(id, SessionRecord { user: rec.user, expires_at });
                    Some(user)
                } else {
                    None
                }
            },
        }
    }

    /// Ends the session with this id, if there is one.
    pub fn invalidate(&mut self, id: u64)
        ensures
            final(self)@ == old(self)@.remove(id),
    {
        self.records.remove(&id);
    }
}

/// A session resolved right after it was created gives back the user it was
/// created for.
pub proof fn lemma_resolve_after_create(m: Map<u64, SessionRecord>, id: u64, user: User, now: u64)
    requires
        now < u64::MAX,
    ensures
        resolved_user(created(m, id, user, now), id, now) == Some(user),
{
}

/// A session left untouched for a whole window after it was created or last
/// resolved is absent when resolved.
pub proof fn lemma_expired_after_window(m: Map<u64, SessionRecord>, id: u64, user: User, t0: u64, t1: u64)
    requires
        t1 >= expiry_after(t0),
    ensures
        resolved_user(created(m, id, user, t0), id, t1) is None,
        resolved_user(after_resolve(created(m, id, user, t0), id, t0), id, t1) is None,
{
}

} // verus!
