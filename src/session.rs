//! The volatile session store, the per-request session accessors and the
//! identity resolver.
//!
//! The store maps each live token to a fixed payload with one field per
//! value. Every operation is a plain call whose effect on the map is stated,
//! and a request works on a copy of the payload that is written back, or
//! removed, in one step when the request ends.
//!
//! Two writable sessions saved for the same token race: the later save
//! replaces the whole payload, so the stored payload is always exactly one
//! writer's payload, never a mixture of fields (see `lemma_last_save_wins`).

use vstd::prelude::*;
use std::collections::HashMap;
use crate::ids::random_uuid;

verus! {

broadcast use vstd::std_specs::hash::group_hash_axioms;

/// What the server keeps for one session: the signed-in user, if any, and
/// the visit counter.
#[derive(Clone, Copy, Debug, PartialEq, Eq, Structural)]
pub struct SessionPayload {
    pub id: Option<u128>,
    pub count: Option<i32>,
}

impl SessionPayload {
    /// A payload with no identity and no counter.
    pub open spec fn empty_spec() -> SessionPayload {
        SessionPayload { id: None, count: None }
    }

    /// The payload of a fresh session.
    pub fn empty() -> (r: SessionPayload)
        ensures
            r == SessionPayload::empty_spec(),
    {
        SessionPayload { id: None, count: None }
    }
}

/// The payload a request sees for its inbound token: the stored one for a
/// live token, an empty one otherwise.
pub open spec fn payload_for(m: Map<u128, SessionPayload>, token: Option<u128>) -> SessionPayload {
    match token {
        Some(t) => if m.contains_key(t) { m[t] } else { SessionPayload::empty_spec() },
        None => SessionPayload::empty_spec(),
    }
}

/// Whether `token` names a live session of `m`.
pub open spec fn is_live(m: Map<u128, SessionPayload>, token: Option<u128>) -> bool {
    token matches Some(t) && m.contains_key(t)
}

/// An in-process session store: a map from token to payload, lost when the
/// process ends.
pub struct MemoryStore {
    sessions: HashMap<u128, SessionPayload>,
}

impl View for MemoryStore {
    type V = Map<u128, SessionPayload>;

    closed spec fn view(&self) -> Map<u128, SessionPayload> {
        self.sessions@
    }
}

impl MemoryStore {
    /// A store with no session.
    pub fn new() -> (r: MemoryStore)
        ensures
            r@ == Map::<u128, SessionPayload>::empty(),
    {
        MemoryStore { sessions: HashMap::new() }
    }

    /// The payload of a live token, `None` for an unknown or destroyed one.
    pub fn load(&self, token: u128) -> (r: Option<SessionPayload>)
        ensures
            r == (if self@.contains_key(token) { Some(self@[token]) } else { None::<SessionPayload> }),
    {
        match self.sessions.get(&token) {
            Some(p) => Some(*p),
            None => None,
        }
    }

    /// Stores `payload` under `token`, replacing whatever was there.
    pub fn save(&mut self, token: u128, payload: SessionPayload)
        ensures
            final(self)@ == old(self)@.insert(token, payload),
    {
        self.sessions.insert(token, payload);
    }

    /// Removes the session of `token`; an unknown token is no error.
    pub fn destroy(&mut self, token: u128)
        ensures
            final(self)@ == old(self)@.remove(token),
    {
        self.sessions.remove(&token);
    }

    /// Starts a session under `token` with `payload`, unless `token` is
    /// already live, in which case nothing changes and `false` comes back.
    pub fn create_with(&mut self, token: u128, payload: SessionPayload) -> (r: bool)
        ensures
            r == !old(self)@.contains_key(token),
            r ==> final(self)@ == old(self)@.insert(token, payload),
            !r ==> final(self)@ == old(self)@,
    {
        if self.sessions.contains_key(&token) {
            false
        } else {
            self.sessions.insert(token, payload);
            true
        }
    }

    /// Starts an empty session under a fresh random token and returns it;
    /// `None` when no token can be drawn or the drawn token is already live,
    /// leaving the store as it was.
    pub fn create(&mut self) -> (r: Option<u128>)
        ensures
            r matches Some(t) ==> !old(self)@.contains_key(t)
                && final(self)@ == old(self)@.insert(t, SessionPayload::empty_spec()),
            r is None ==> final(self)@ == old(self)@,
    {
        let token = match random_uuid() {
            Some(t) => t,
            None => return None,
        };
        if self.create_with(token, SessionPayload::empty()) {
            Some(token)
        } else {
            None
        }
    }

    /// A read-only view of the session of the inbound token.
    pub fn readable(&self, token: Option<u128>) -> (r: ReadableSession)
        ensures
            r.payload == payload_for(self@, token),
    {
        match token {
            Some(t) => match self.load(t) {
                Some(p) => ReadableSession { payload: p },
                None => ReadableSession { payload: SessionPayload::empty() },
            },
            None => ReadableSession { payload: SessionPayload::empty() },
        }
    }

    /// A mutable view of the session of the inbound token. It keeps the token
    /// only when it is live.
    pub fn writable(&self, token: Option<u128>) -> (r: WritableSession)
        ensures
            r.payload == payload_for(self@, token),
            r.token == (if is_live(self@, token) { token } else { None::<u128> }),
            !r.destroyed,
    {
        match token {
            Some(t) => match self.load(t) {
                Some(p) => WritableSession { token: Some(t), payload: p, destroyed: false },
                None => WritableSession { token: None, payload: SessionPayload::empty(), destroyed: false },
            },
            None => WritableSession { token: None, payload: SessionPayload::empty(), destroyed: false },
        }
    }

    /// Persists a writable session at the end of its request and returns the
    /// token to hand back to the caller, if any.
    ///
    /// A destroyed session is removed and no token is handed back. Otherwise
    /// the payload is saved under the session's token, or under `fresh` when
    /// the session had none; a `fresh` token that is already live is not
    /// used, and then nothing is saved.
    pub fn commit_with(&mut self, s: WritableSession, fresh: u128) -> (r: Option<u128>)
        ensures
            s.destroyed ==> r is None && final(self)@ == (match s.token {
                Some(t) => old(self)@.remove(t),
                None => old(self)@,
            }),
            !s.destroyed && s.token is Some ==> r == s.token
                && final(self)@ == old(self)@.insert(s.token->Some_0, s.payload),
            !s.destroyed && s.token is None && !old(self)@.contains_key(fresh) ==> r == Some(fresh)
                && final(self)@ == old(self)@.insert(fresh, s.payload),
            !s.destroyed && s.token is None && old(self)@.contains_key(fresh) ==> r is None
                && final(self)@ == old(self)@,
    {
        if s.destroyed {
            match s.token {
                Some(t) => self.destroy(t),
                None => {},
            }
            None
        } else {
            match s.token {
                Some(t) => {
                    self.save(t, s.payload);
                    Some(t)
                },
                None => {
                    if self.create_with(fresh, s.payload) {
                        Some(fresh)
                    } else {
                        None
                    }
                },
            }
        }
    }

    /// `commit_with` under a fresh random token, drawn only for a session
    /// that is kept and has no token yet. When that draw fails, nothing is
    /// saved and no token is handed back.
    pub fn commit(&mut self, s: WritableSession) -> (r: Option<u128>)
        ensures
            s.destroyed ==> r is None && final(self)@ == (match s.token {
                Some(t) => old(self)@.remove(t),
                None => old(self)@,
            }),
            !s.destroyed && s.token is Some ==> r == s.token
                && final(self)@ == old(self)@.insert(s.token->Some_0, s.payload),
            !s.destroyed && s.token is None ==> match r {
                Some(t) => !old(self)@.contains_key(t) && final(self)@ == old(self)@.insert(t, s.payload),
                None => final(self)@ == old(self)@,
            },
    {
        if s.destroyed || s.token.is_some() {
            // `commit_with` uses its fresh token only for a kept session without one.
            self.commit_with(s, 0)
        } else {
            match random_uuid() {
                Some(fresh) => self.commit_with(s, fresh),
                None => None,
            }
        }
    }
}

/// A session opened read-only for one request; it is never written back.
pub struct ReadableSession {
    pub payload: SessionPayload,
}

/// A session opened for one request that may be changed and is persisted by
/// `MemoryStore::commit` when the request ends.
pub struct WritableSession {
    pub token: Option<u128>,
    pub payload: SessionPayload,
    pub destroyed: bool,
}

impl ReadableSession {
    /// The signed-in user of this session.
    pub fn current_identity(&self) -> (r: Option<u128>)
        ensures
            r == self.payload.id,
    {
        self.payload.id
    }
}

impl WritableSession {
    /// The signed-in user of this session.
    pub fn current_identity(&self) -> (r: Option<u128>)
        ensures
            r == self.payload.id,
    {
        self.payload.id
    }

    /// Records `id` as the signed-in user.
    pub fn insert_id(&mut self, id: u128)
        ensures
            final(self).payload == (SessionPayload { id: Some(id), ..old(self).payload }),
            final(self).token == old(self).token,
            final(self).destroyed == old(self).destroyed,
    {
        self.payload.id = Some(id);
    }

    /// Records the visit counter.
    pub fn insert_count(&mut self, count: i32)
        ensures
            final(self).payload == (SessionPayload { count: Some(count), ..old(self).payload }),
            final(self).token == old(self).token,
            final(self).destroyed == old(self).destroyed,
    {
        self.payload.count = Some(count);
    }

    /// Marks the session for removal; this wins over any insert of the same
    /// request.
    pub fn destroy(&mut self)
        ensures
            final(self).destroyed,
            final(self).token == old(self).token,
            final(self).payload == old(self).payload,
    {
        self.destroyed = true;
    }
}

/// Of two saves of whole payloads under one token, the stored payload is
/// the one saved last: exactly one writer's payload.
pub proof fn lemma_last_save_wins(m: Map<u128, SessionPayload>, token: u128, first: SessionPayload, second: SessionPayload)
    ensures
        m.insert(token, first).insert(token, second)[token] == second,
        m.insert(token, first).insert(token, second).dom() == m.dom().insert(token),
{
}

/// Once a destroyed session is committed, its token resolves to no identity,
/// and committing a destroyed session for a token that is gone already
/// changes nothing.
pub proof fn lemma_destroyed_session_has_no_identity(m: Map<u128, SessionPayload>, token: u128)
    ensures
        payload_for(m.remove(token), Some(token)).id is None,
        !is_live(m.remove(token), Some(token)),
        m.remove(token).remove(token) == m.remove(token),
{
    assert(m.remove(token).remove(token) =~= m.remove(token));
}

} // verus!
