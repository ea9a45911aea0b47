//! The view that one request has of its session.

use crate::session::error::SessionError;
use crate::session::store::{
    first_free, first_free_is_the_first, taken, visible, Record, Row, SessionStore, TOKEN_ATTEMPTS,
};
use crate::session::token::draw_tokens;
use vstd::prelude::*;

verus! {

/// How long a session lives after its last use, in seconds: one day.
pub const SESSION_TTL_SECONDS: i64 = 86_400;

/// What the response does to the client's session cookie. The cookie holds
/// the token and nothing else.
#[derive(Clone, Copy, Debug, PartialEq, Eq, Structural)]
pub enum Cookie {
    /// The client keeps what it has.
    Unchanged,
    /// The client is given this token.
    Issue(u128),
    /// The client is told to forget its token.
    Clear,
}

/// The moment `ttl` seconds after `now`, or the last moment there is where
/// that is out of range.
pub open spec fn moment_after(now: i64, ttl: i64) -> i64 {
    if now + ttl > i64::MAX {
        i64::MAX
    } else if now + ttl < i64::MIN {
        i64::MIN
    } else {
        (now + ttl) as i64
    }
}

/// The expiry of a session that is used at `now` and lives `ttl` seconds.
pub fn expiry_after(now: i64, ttl: i64) -> (expiry: i64)
    ensures
        expiry == moment_after(now, ttl),
{
    match now.checked_add(ttl) {
        Some(expiry) => expiry,
        None => if ttl > 0 {
            i64::MAX
        } else {
            i64::MIN
        },
    }
}

/// The data of the valid session under the token, and no data where there is
/// no token or no valid session under it.
pub open spec fn carried_data(rows: Map<u128, Row>, token: Option<u128>, now: i64) -> Seq<u8> {
    match token {
        Some(t) => match visible(rows, t, now) {
            Some(row) => row.data,
            None => Seq::empty(),
        },
        None => Seq::empty(),
    }
}

/// The rows without the one under the token, if there is a token.
pub open spec fn without(rows: Map<u128, Row>, token: Option<u128>) -> Map<u128, Row> {
    match token {
        Some(t) => rows.remove(t),
        None => rows,
    }
}

/// The tokens that a login must not move the session to, though the store
/// may keep nothing under them: the token the request came with, and the
/// token of the session's record.
pub open spec fn avoided(presented: Option<u128>, token: Option<u128>) -> Seq<u128> {
    let first = match presented {
        Some(t) => Seq::<u128>::empty().push(t),
        None => Seq::<u128>::empty(),
    };
    match token {
        Some(t) => first.push(t),
        None => first,
    }
}

/// A copy of the bytes.
pub fn copy_bytes(bytes: &Vec<u8>) -> (copy: Vec<u8>)
    ensures
        copy@ == bytes@,
{
    let mut copy: Vec<u8> = Vec::new();
    let mut i: usize = 0;
    while i < bytes.len()
        invariant
            i <= bytes@.len(),
            copy@ == bytes@.take(i as int),
        decreases bytes@.len() - i,
    {
        copy.push(bytes[i]);
        i += 1;
        assert(bytes@.take(i as int) =~= bytes@.take(i - 1).push(bytes@[i - 1]));
    }
    assert(bytes@.take(i as int) =~= bytes@);
    copy
}

/// One request's session: the token it came with, the record that the token
/// led to, and who is logged in.
#[derive(Debug)]
pub struct SessionManager {
    presented: Option<u128>,
    token: Option<u128>,
    user: Option<u128>,
    cookie: Cookie,
}

impl SessionManager {
    /// The token that the request came with.
    pub closed spec fn presented(&self) -> Option<u128> {
        self.presented
    }

    /// The token of the session's record in the store, if it has one.
    pub closed spec fn token(&self) -> Option<u128> {
        self.token
    }

    /// Who is logged in.
    pub closed spec fn user(&self) -> Option<u128> {
        self.user
    }

    /// What the response does to the client's cookie.
    pub closed spec fn cookie(&self) -> Cookie {
        self.cookie
    }

    /// The session of a request, from what the store gave for the token that
    /// the request came with. A failure of the store leaves the request
    /// anonymous and is handed back for the log.
    pub fn from_loaded(presented: Option<u128>, loaded: Result<Option<&Record>, SessionError>) -> (r:
        (SessionManager, Option<SessionError>))
        ensures
            r.0.presented() == presented,
            r.0.cookie() == Cookie::Unchanged,
            match loaded {
                Ok(Some(record)) => r.0.token() == Some(record.token) && r.0.user()
                    == record.user_id && r.1 is None,
                Ok(None) => r.0.token() is None && r.0.user() is None && r.1 is None,
                Err(e) => r.0.token() is None && r.0.user() is None && r.1 == Some(e),
            },
    {
        match loaded {
            Ok(Some(record)) => (
                SessionManager {
                    presented,
                    token: Some(record.token),
                    user: record.user_id,
                    cookie: Cookie::Unchanged,
                },
                None,
            ),
            Ok(None) => (
                SessionManager { presented, token: None, user: None, cookie: Cookie::Unchanged },
                None,
            ),
            Err(e) => (
                SessionManager { presented, token: None, user: None, cookie: Cookie::Unchanged },
                Some(e),
            ),
        }
    }

    /// The session of a request that came with `presented`, at `now`. A token
    /// under which the store keeps nothing, or nothing that is still valid,
    /// gives an anonymous session without a record.
    pub fn bind(store: &SessionStore, presented: Option<u128>, now: i64) -> (session:
        SessionManager)
        ensures
            session.presented() == presented,
            session.cookie() == Cookie::Unchanged,
            match presented {
                Some(t) => match visible(store@, t, now) {
                    Some(row) => session.token() == Some(t) && session.user() == row.user_id,
                    None => session.token() is None && session.user() is None,
                },
                None => session.token() is None && session.user() is None,
            },
    {
        let loaded = match presented {
            Some(t) => store.load(t, now),
            None => None,
        };
        Self::from_loaded(presented, Ok(loaded)).0
    }

    /// Who is logged in, if anybody.
    pub fn current_user(&self) -> (user: Option<u128>)
        ensures
            user == self.user(),
    {
        self.user
    }

    /// The token of the session's record, if it has one.
    pub fn session_token(&self) -> (token: Option<u128>)
        ensures
            token == self.token(),
    {
        self.token
    }

    /// What the response does to the client's cookie.
    pub fn outbound_cookie(&self) -> (cookie: Cookie)
        ensures
            cookie == self.cookie(),
    {
        self.cookie
    }

    /// Logs the user in under the first of `draws` that is free: one that the
    /// store keeps nothing under, and that is neither the token the request
    /// came with nor the token of the session's record. The session moves to
    /// that token; the record under the old token is deleted, and its data, if
    /// it was still valid, goes with the session. Where every draw is taken
    /// nothing changes.
    pub fn login_from(
        &mut self,
        store: &mut SessionStore,
        draws: &Vec<u128>,
        user_id: u128,
        now: i64,
        expiry: i64,
    ) -> (r: Result<(), SessionError>)
        ensures
            final(self).presented() == old(self).presented(),
            match first_free(
                old(store)@,
                avoided(old(self).presented(), old(self).token()),
                draws@,
            ) {
                Some(fresh) => {
                    &&& r is Ok
                    &&& final(self).token() == Some(fresh)
                    &&& final(self).user() == Some(user_id)
                    &&& final(self).cookie() == Cookie::Issue(fresh)
                    &&& final(store)@ == without(old(store)@, old(self).token()).insert(
                        fresh,
                        Row {
                            user_id: Some(user_id),
                            data: carried_data(old(store)@, old(self).token(), now),
                            expiry,
                        },
                    )
                },
                None => {
                    &&& r == Err::<(), SessionError>(SessionError::StoreUnavailable)
                    &&& *final(self) == *old(self)
                    &&& final(store)@ == old(store)@
                },
            },
    {
        let data = match self.token {
            Some(t) => match store.load(t, now) {
                Some(record) => copy_bytes(&record.data),
                None => Vec::new(),
            },
            None => Vec::new(),
        };
        let mut avoid: Vec<u128> = Vec::new();
        match self.presented {
            Some(t) => {
                avoid.push(t);
            },
            None => {},
        }
        match self.token {
            Some(t) => {
                avoid.push(t);
            },
            None => {},
        }
        assert(avoid@ =~= avoided(self.presented, self.token));
        proof {
            first_free_is_the_first(store@, avoid@, draws@);
        }
        match store.create_from(&avoid, draws, Some(user_id), data, expiry) {
            Ok(fresh) => {
                match self.token {
                    Some(t) => {
                        proof {
                            assert(avoid@[avoid@.len() - 1] == t);
                        }
                        store.delete(t);
                        assert(store@ =~= without(old(store)@, old(self).token()).insert(
                            fresh,
                            Row {
                                user_id: Some(user_id),
                                data: carried_data(old(store)@, old(self).token(), now),
                                expiry,
                            },
                        ));
                    },
                    None => {},
                }
                self.token = Some(fresh);
                self.user = Some(user_id);
                self.cookie = Cookie::Issue(fresh);
                Ok(())
            },
            Err(e) => Err(e),
        }
    }

    /// Logs the user in. `TOKEN_ATTEMPTS` tokens are drawn, and the session
    /// moves to the first of them that is free, as `login_from` says: a token
    /// that is neither the one the request came with nor one that the store
    /// knows. Where all of them are taken nothing changes. A request that
    /// came without a token is logged in to a store without records whatever
    /// is drawn: there is no token to collide with.
    pub fn login(&mut self, store: &mut SessionStore, user_id: u128, now: i64, expiry: i64) -> (r:
        Result<(), SessionError>)
        ensures
            final(self).presented() == old(self).presented(),
            old(self).presented() is None && old(self).token() is None && (forall|token: u128|
                !old(store)@.dom().contains(token)) ==> r is Ok,
            match r {
                Ok(_) => {
                    &&& final(self).token() matches Some(fresh)
                    &&& !old(store)@.dom().contains(fresh)
                    &&& old(self).presented() != Some(fresh)
                    &&& old(self).token() != Some(fresh)
                    &&& final(self).user() == Some(user_id)
                    &&& final(self).cookie() == Cookie::Issue(fresh)
                    &&& final(store)@ == without(old(store)@, old(self).token()).insert(
                        fresh,
                        Row {
                            user_id: Some(user_id),
                            data: carried_data(old(store)@, old(self).token(), now),
                            expiry,
                        },
                    )
                },
                Err(e) => {
                    &&& e == SessionError::StoreUnavailable
                    &&& *final(self) == *old(self)
                    &&& final(store)@ == old(store)@
                },
            },
    {
        let draws = draw_tokens(TOKEN_ATTEMPTS);
        proof {
            let avoid = avoided(self.presented, self.token);
            first_free_is_the_first(store@, avoid, draws@);
            if self.presented is Some {
                assert(avoid[0] == self.presented->0);
            }
            if self.token is Some {
                assert(avoid[avoid.len() - 1] == self.token->0);
            }
            if first_free(store@, avoid, draws@) is Some {
                let fresh = first_free(store@, avoid, draws@)->0;
                assert(!taken(store@, avoid, fresh));
            }
        }
        self.login_from(store, &draws, user_id, now, expiry)
    }

    /// Logs out: deletes the session's record and has the client forget its
    /// token.
    pub fn logout(&mut self, store: &mut SessionStore)
        ensures
            final(self).presented() == old(self).presented(),
            final(self).token() is None,
            final(self).user() is None,
            final(self).cookie() == Cookie::Clear,
            final(store)@ == without(old(store)@, old(self).token()),
    {
        match self.token {
            Some(t) => {
                store.delete(t);
            },
            None => {},
        }
        self.token = None;
        self.user = None;
        self.cookie = Cookie::Clear;
    }

    /// Moves the expiry of the session's record to `expiry`, if the session
    /// has a record that is still valid at `now`, and says whether it did.
    pub fn refresh(&self, store: &mut SessionStore, now: i64, expiry: i64) -> (refreshed: bool)
        ensures
            refreshed == (self.token() matches Some(t) && visible(old(store)@, t, now) is Some),
            refreshed ==> final(store)@ == old(store)@.insert(
                self.token()->0,
                Row { expiry, ..old(store)@[self.token()->0] },
            ),
            !refreshed ==> final(store)@ == old(store)@,
    {
        match self.token {
            Some(t) => {
                let renewed = match store.load(t, now) {
                    Some(record) => Some(
                        Record {
                            token: t,
                            user_id: record.user_id,
                            data: copy_bytes(&record.data),
                            expiry,
                        },
                    ),
                    None => None,
                };
                match renewed {
                    Some(record) => {
                        store.save(record);
                        true
                    },
                    None => false,
                }
            },
            None => false,
        }
    }
}

} // verus!
