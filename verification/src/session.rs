//! Sessions and their single-use nonces.

use std::collections::HashMap;
use vstd::prelude::*;
use vstd::std_specs::hash::*;
use crate::bytes::{bytes_eq, copy_bytes};

verus! {

broadcast use group_hash_axioms;

/// The least number of bytes in a nonce: 128 bits.
pub const MIN_NONCE_LEN: usize = 16;

/// One attestation attempt of one client.
#[derive(Clone, Debug, PartialEq, Eq)]
pub struct Session {
    pub nonce: Vec<u8>,
    pub created_at: u64,
    pub ttl: u64,
    /// Whether a verification attempt has used the nonce up.
    pub consumed: bool,
}

/// The mathematical content of a session.
pub struct SessionView {
    pub nonce: Seq<u8>,
    pub created_at: u64,
    pub ttl: u64,
    pub consumed: bool,
}

impl View for Session {
    type V = SessionView;

    open spec fn view(&self) -> SessionView {
        SessionView {
            nonce: self.nonce@,
            created_at: self.created_at,
            ttl: self.ttl,
            consumed: self.consumed,
        }
    }
}

/// Why a nonce was not accepted.
#[derive(Clone, Copy, Debug, PartialEq, Eq, Structural)]
pub enum SessionError {
    /// The nonce is not the one issued, or was used before.
    InvalidNonce,
    /// The session outlived its time to live.
    ExpiredSession,
    /// No session has this identifier.
    UnknownSession,
}

/// Why no session was started.
#[derive(Clone, Copy, Debug, PartialEq, Eq, Structural)]
pub enum StartError {
    /// The store has handed out every identifier.
    StoreFull,
    /// The random source gave no nonce.
    NoEntropy,
}

/// The error stack with which OpenSSL reports a failure.
#[verifier::external_type_specification]
#[verifier::external_body]
pub struct ExErrorStack(openssl::error::ErrorStack);

/// Calls `openssl::rand::rand_bytes` on a buffer of `len` bytes. The
/// contract claims the length of what comes back, which is that of the
/// buffer, and nothing of the bytes. The call refuses a buffer longer than
/// a C `int` can count.
#[verifier::external_body]
fn random_bytes(len: usize) -> (result: Result<Vec<u8>, openssl::error::ErrorStack>)
    requires
        len <= 0x7fff_ffff,
    ensures
        result matches Ok(bytes) ==> bytes@.len() == len,
{
    let mut buf: Vec<u8> = vec![0u8; len];
    match openssl::rand::rand_bytes(buf.as_mut_slice()) {
        Ok(()) => Ok(buf),
        Err(e) => Err(e),
    }
}

/// The sessions in flight, by identifier.
pub struct SessionStore {
    sessions: HashMap<u64, Session>,
    /// No session has an identifier below this one.
    floor: u64,
    next_id: u64,
    ttl: u64,
}

/// The mathematical content of a session store.
pub struct StoreView {
    pub sessions: Map<u64, SessionView>,
    /// Every session below this identifier has been reclaimed.
    pub floor: u64,
    /// The identifier that the next session gets.
    pub next_id: u64,
    /// The time to live of the sessions that the store starts.
    pub ttl: u64,
}

/// Whether a session has outlived its time to live at `now`.
pub open spec fn expired(s: SessionView, now: u64) -> bool {
    now > s.created_at + s.ttl
}

/// What an attempt to consume a nonce answers.
pub open spec fn consume_result(
    sessions: Map<u64, SessionView>,
    id: u64,
    nonce: Seq<u8>,
    now: u64,
) -> Result<(), SessionError> {
    if !sessions.contains_key(id) {
        Err(SessionError::UnknownSession)
    } else if expired(sessions[id], now) {
        Err(SessionError::ExpiredSession)
    } else if sessions[id].consumed || sessions[id].nonce != nonce {
        Err(SessionError::InvalidNonce)
    } else {
        Ok(())
    }
}

/// What an attempt to consume a nonce leaves behind: an expired session is
/// dropped, and any other session that was named has its nonce used up,
/// whether or not the attempt succeeded.
pub open spec fn consume_effect(
    sessions: Map<u64, SessionView>,
    id: u64,
    now: u64,
) -> Map<u64, SessionView> {
    if !sessions.contains_key(id) {
        sessions
    } else if expired(sessions[id], now) {
        sessions.remove(id)
    } else {
        sessions.insert(id, SessionView { consumed: true, ..sessions[id] })
    }
}

impl View for SessionStore {
    type V = StoreView;

    closed spec fn view(&self) -> StoreView {
        StoreView {
            sessions: self.sessions@.map_values(|s: Session| s@),
            floor: self.floor,
            next_id: self.next_id,
            ttl: self.ttl,
        }
    }
}

impl SessionStore {
    /// Every session's identifier was handed out by this store and has
    /// not been reclaimed.
    pub open spec fn wf(&self) -> bool {
        &&& self@.floor <= self@.next_id
        &&& forall|id: u64| #[trigger]
            self@.sessions.contains_key(id) ==> self@.floor <= id < self@.next_id
    }

    /// An empty store whose sessions live for `ttl`.
    pub fn new(ttl: u64) -> (store: SessionStore)
        ensures
            store.wf(),
            store@.sessions == Map::<u64, SessionView>::empty(),
            store@.floor == 0,
            store@.next_id == 0,
            store@.ttl == ttl,
    {
        let store = SessionStore { sessions: HashMap::new(), floor: 0, next_id: 0, ttl };
        proof {
            assert(store@.sessions =~= Map::<u64, SessionView>::empty());
        }
        store
    }

    /// Whether the store can still hand out an identifier.
    pub fn has_room(&self) -> (room: bool)
        ensures
            room == (self@.next_id < u64::MAX),
    {
        self.next_id < u64::MAX
    }

    /// Starts a session around a nonce that the caller drew at random, and
    /// gives its identifier.
    pub fn start_session_with(&mut self, nonce: Vec<u8>, now: u64) -> (id: u64)
        requires
            old(self).wf(),
            old(self)@.next_id < u64::MAX,
            nonce@.len() >= MIN_NONCE_LEN,
        ensures
            final(self).wf(),
            id == old(self)@.next_id,
            !old(self)@.sessions.contains_key(id),
            final(self)@.sessions == old(self)@.sessions.insert(
                id,
                SessionView { nonce: nonce@, created_at: now, ttl: old(self)@.ttl, consumed: false },
            ),
            final(self)@.next_id == id + 1,
            final(self)@.floor == old(self)@.floor,
            final(self)@.ttl == old(self)@.ttl,
    {
        let id = self.next_id;
        let session = Session { nonce, created_at: now, ttl: self.ttl, consumed: false };
        self.sessions.insert(id, session);
        self.next_id = id + 1;
        proof {
            assert(final(self)@.sessions =~= old(self)@.sessions.insert(id, session@));
        }
        id
    }

    /// Starts a session around a nonce drawn from the random source, and
    /// gives its identifier and the nonce. Nothing changes where no session
    /// is started.
    pub fn start_session(&mut self, now: u64) -> (result: Result<(u64, Vec<u8>), StartError>)
        requires
            old(self).wf(),
        ensures
            final(self).wf(),
            match result {
                Ok((id, nonce)) => {
                    &&& old(self)@.next_id < u64::MAX
                    &&& id == old(self)@.next_id
                    &&& nonce@.len() == MIN_NONCE_LEN
                    &&& final(self)@.sessions == old(self)@.sessions.insert(
                        id,
                        SessionView {
                            nonce: nonce@,
                            created_at: now,
                            ttl: old(self)@.ttl,
                            consumed: false,
                        },
                    )
                    &&& final(self)@.next_id == id + 1
                    &&& final(self)@.floor == old(self)@.floor
                    &&& final(self)@.ttl == old(self)@.ttl
                },
                Err(e) => {
                    &&& final(self)@ == old(self)@
                    &&& e == StartError::StoreFull <==> old(self)@.next_id == u64::MAX
                },
            },
    {
        if !self.has_room() {
            return Err(StartError::StoreFull);
        }
        match random_bytes(MIN_NONCE_LEN) {
            Err(_) => Err(StartError::NoEntropy),
            Ok(nonce) => {
                let issued = copy_bytes(&nonce);
                let id = self.start_session_with(nonce, now);
                Ok((id, issued))
            },
        }
    }

    /// Uses up the nonce of a session. Succeeds once per session at most:
    /// where the session is known, has not expired, and `nonce` is the one
    /// issued and was not presented before.
    pub fn consume(&mut self, session_id: u64, nonce: &Vec<u8>, now: u64) -> (result: Result<
        (),
        SessionError,
    >)
        requires
            old(self).wf(),
        ensures
            final(self).wf(),
            result == consume_result(old(self)@.sessions, session_id, nonce@, now),
            final(self)@.sessions == consume_effect(old(self)@.sessions, session_id, now),
            final(self)@.next_id == old(self)@.next_id,
            final(self)@.floor == old(self)@.floor,
            final(self)@.ttl == old(self)@.ttl,
    {
        match self.sessions.remove(&session_id) {
            None => {
                proof {
                    assert(final(self)@.sessions =~= old(self)@.sessions);
                }
                Err(SessionError::UnknownSession)
            },
            Some(s) => {
                if now > s.created_at && now - s.created_at > s.ttl {
                    proof {
                        assert(final(self)@.sessions =~= old(self)@.sessions.remove(session_id));
                    }
                    Err(SessionError::ExpiredSession)
                } else {
                    let fresh = !s.consumed && bytes_eq(&s.nonce, nonce);
                    let used = Session {
                        nonce: s.nonce,
                        created_at: s.created_at,
                        ttl: s.ttl,
                        consumed: true,
                    };
                    self.sessions.insert(session_id, used);
                    proof {
                        assert(final(self)@.sessions =~= old(self)@.sessions.insert(
                            session_id,
                            SessionView { consumed: true, ..s@ },
                        ));
                    }
                    if fresh {
                        Ok(())
                    } else {
                        Err(SessionError::InvalidNonce)
                    }
                }
            },
        }
    }
}

/// The identifiers from `from` up to, not including, `to`.
pub open spec fn id_range(from: u64, to: u64) -> Set<u64> {
    Set::new(|id: u64| from <= id < to)
}

/// Whether a session is in the store and has not outlived its time.
pub open spec fn live(sessions: Map<u64, SessionView>, id: u64, now: u64) -> bool {
    sessions.contains_key(id) && !expired(sessions[id], now)
}

impl SessionStore {
    /// Reclaims the sessions that have outlived their time, oldest first,
    /// up to the first one that has not. Sessions are given back by their
    /// age alone, whether or not anyone asks for them again.
    pub fn reclaim(&mut self, now: u64)
        requires
            old(self).wf(),
        ensures
            final(self).wf(),
            final(self)@.next_id == old(self)@.next_id,
            final(self)@.ttl == old(self)@.ttl,
            old(self)@.floor <= final(self)@.floor <= old(self)@.next_id,
            final(self)@.sessions == old(self)@.sessions.remove_keys(
                id_range(old(self)@.floor, final(self)@.floor),
            ),
            forall|id: u64|
                old(self)@.floor <= id < final(self)@.floor ==> !live(
                    old(self)@.sessions,
                    id,
                    now,
                ),
            final(self)@.floor < old(self)@.next_id ==> live(
                old(self)@.sessions,
                final(self)@.floor,
                now,
            ),
    {
        let mut stop = false;
        proof {
            assert(self@.sessions =~= old(self)@.sessions.remove_keys(
                id_range(old(self)@.floor, self@.floor),
            ));
        }
        while !stop && self.floor < self.next_id
            invariant
                self.wf(),
                self@.next_id == old(self)@.next_id,
                self@.ttl == old(self)@.ttl,
                old(self)@.floor <= self@.floor <= old(self)@.next_id,
                self@.sessions == old(self)@.sessions.remove_keys(
                    id_range(old(self)@.floor, self@.floor),
                ),
                forall|id: u64|
                    old(self)@.floor <= id < self@.floor ==> !live(old(self)@.sessions, id, now),
                stop ==> live(old(self)@.sessions, self@.floor, now),
            decreases self.next_id - self.floor, if stop { 0int } else { 1int },
        {
            let id = self.floor;
            let ghost before = self@.sessions;
            let alive = match self.sessions.get(&id) {
                Some(s) => !(now > s.created_at && now - s.created_at > s.ttl),
                None => false,
            };
            proof {
                assert(before.contains_key(id) ==> before[id] == self.sessions@[id]@);
                assert(alive == live(old(self)@.sessions, id, now));
            }
            if alive {
                stop = true;
            } else {
                self.sessions.remove(&id);
                self.floor = id + 1;
                proof {
                    assert(self@.sessions =~= before.remove(id));
                    assert(self@.sessions =~= old(self)@.sessions.remove_keys(
                        id_range(old(self)@.floor, self@.floor),
                    ));
                }
            }
        }
    }
}

/// A nonce is consumed at most once: whatever a first attempt on a session
/// presented and answered, every later attempt on that session fails.
pub proof fn lemma_nonce_single_use(
    sessions: Map<u64, SessionView>,
    id: u64,
    first_nonce: Seq<u8>,
    first_at: u64,
    second_nonce: Seq<u8>,
    second_at: u64,
)
    ensures
        consume_result(
            consume_effect(sessions, id, first_at),
            id,
            second_nonce,
            second_at,
        ) is Err,
        consume_result(sessions, id, first_nonce, first_at) is Ok ==> consume_result(
            consume_effect(sessions, id, first_at),
            id,
            second_nonce,
            second_at,
        ) == Err::<(), SessionError>(
            if expired(sessions[id], second_at) {
                SessionError::ExpiredSession
            } else {
                SessionError::InvalidNonce
            },
        ),
{
}

/// An expired session cannot be revived: once an attempt found it expired,
/// the store no longer knows it.
pub proof fn lemma_expired_session_is_gone(
    sessions: Map<u64, SessionView>,
    id: u64,
    nonce: Seq<u8>,
    now: u64,
    later_nonce: Seq<u8>,
    later: u64,
)
    requires
        consume_result(sessions, id, nonce, now) == Err::<(), SessionError>(
            SessionError::ExpiredSession,
        ),
    ensures
        consume_result(consume_effect(sessions, id, now), id, later_nonce, later) == Err::<
            (),
            SessionError,
        >(SessionError::UnknownSession),
{
}

/// An attempt on one session leaves every other session as it was.
pub proof fn lemma_consume_is_local(sessions: Map<u64, SessionView>, id: u64, now: u64, other: u64)
    requires
        other != id,
    ensures
        consume_effect(sessions, id, now).contains_key(other) == sessions.contains_key(other),
        sessions.contains_key(other) ==> consume_effect(sessions, id, now)[other]
            == sessions[other],
{
}

} // verus!
