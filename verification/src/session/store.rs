//! The session store: one record for each token, each with the moment at
//! which it expires.

use crate::session::error::SessionError;
use crate::session::token::draw_tokens;
use vstd::prelude::*;

verus! {

/// How many tokens are drawn for a new session before the store gives up.
pub const TOKEN_ATTEMPTS: usize = 8;

/// What the store keeps under a token.
pub struct Row {
    /// The user who is logged in, if any.
    pub user_id: Option<u128>,
    /// The session's data, serialised.
    pub data: Seq<u8>,
    /// The first moment, in seconds since the epoch, at which the session is
    /// no longer valid.
    pub expiry: i64,
}

/// A session as it is stored.
#[derive(Debug)]
pub struct Record {
    pub token: u128,
    pub user_id: Option<u128>,
    pub data: Vec<u8>,
    pub expiry: i64,
}

impl View for Record {
    type V = Row;

    open spec fn view(&self) -> Row {
        Row { user_id: self.user_id, data: self.data@, expiry: self.expiry }
    }
}

/// Whether a row is still valid at `now`. A row whose expiry is `now` is not.
pub open spec fn live(row: Row, now: i64) -> bool {
    row.expiry > now
}

/// What a reader finds under the token at `now`: the row, if there is one and
/// it is still valid. A row that has expired is not found, whether or not it
/// has been deleted yet.
pub open spec fn visible(rows: Map<u128, Row>, token: u128, now: i64) -> Option<Row> {
    if rows.dom().contains(token) && live(rows[token], now) {
        Some(rows[token])
    } else {
        None
    }
}

/// Whether the token cannot be given to a new session: the store keeps a
/// record under it, or it is one of the tokens to avoid.
pub open spec fn taken(rows: Map<u128, Row>, avoid: Seq<u128>, token: u128) -> bool {
    rows.dom().contains(token) || avoid.contains(token)
}

/// The first of `draws` that can be given to a new session, if there is one.
pub open spec fn first_free(rows: Map<u128, Row>, avoid: Seq<u128>, draws: Seq<u128>) -> Option<
    u128,
>
    decreases draws.len(),
{
    if draws.len() == 0 {
        None
    } else if !taken(rows, avoid, draws[0]) {
        Some(draws[0])
    } else {
        first_free(rows, avoid, draws.drop_first())
    }
}

/// The rows of `rows` that are still valid at `now`.
pub open spec fn live_rows(rows: Map<u128, Row>, now: i64) -> Map<u128, Row> {
    Map::new(
        |token: u128| rows.dom().contains(token) && live(rows[token], now),
        |token: u128| rows[token],
    )
}

/// The tokens of the rows of `rows` that have expired at `now`.
pub open spec fn expired_tokens(rows: Map<u128, Row>, now: i64) -> Set<u128> {
    Set::new(|token: u128| rows.dom().contains(token) && !live(rows[token], now))
}

spec fn holds(records: Seq<Record>, token: u128) -> bool {
    exists|i: int| 0 <= i < records.len() && (#[trigger] records[i]).token == token
}

spec fn place(records: Seq<Record>, token: u128) -> int {
    choose|i: int| 0 <= i < records.len() && (#[trigger] records[i]).token == token
}

spec fn distinct(records: Seq<Record>) -> bool {
    forall|i: int, j: int|
        0 <= i < j < records.len() ==> (#[trigger] records[i]).token
            != (#[trigger] records[j]).token
}

spec fn rows_of(records: Seq<Record>) -> Map<u128, Row> {
    Map::new(|token: u128| holds(records, token), |token: u128| records[place(records, token)]@)
}

proof fn lemma_place(records: Seq<Record>, i: int)
    requires
        distinct(records),
        0 <= i < records.len(),
    ensures
        holds(records, records[i].token),
        place(records, records[i].token) == i,
        rows_of(records).dom().contains(records[i].token),
        rows_of(records)[records[i].token] == records[i]@,
{
    let token = records[i].token;
    assert(holds(records, token));
    let p = place(records, token);
    assert(0 <= p < records.len() && records[p].token == token);
    if p < i {
        assert(records[p].token != records[i].token);
    } else if i < p {
        assert(records[i].token != records[p].token);
    }
}

proof fn lemma_push(records: Seq<Record>, record: Record)
    requires
        distinct(records),
        !holds(records, record.token),
    ensures
        distinct(records.push(record)),
        rows_of(records.push(record)) == rows_of(records).insert(record.token, record@),
{
    let after = records.push(record);
    assert forall|i: int, j: int| 0 <= i < j < after.len() implies
        (#[trigger] after[i]).token != (#[trigger] after[j]).token by {
        if j == records.len() {
            assert(after[i] == records[i]);
        } else {
            assert(after[i] == records[i] && after[j] == records[j]);
        }
    }
    let expected = rows_of(records).insert(record.token, record@);
    assert forall|token: u128|
        rows_of(after).dom().contains(token) <==> expected.dom().contains(token) by {
        if holds(after, token) {
            let i = place(after, token);
            if i < records.len() {
                assert(records[i].token == token);
            }
        }
        if holds(records, token) {
            let i = place(records, token);
            assert(after[i].token == token);
        }
        if token == record.token {
            assert(after[records.len() as int].token == token);
        }
    }
    assert forall|token: u128| rows_of(after).dom().contains(token) implies
        rows_of(after)[token] == expected[token] by {
        let i = place(after, token);
        lemma_place(after, i);
        if i < records.len() {
            assert(after[i] == records[i]);
            lemma_place(records, i);
        }
    }
    assert(rows_of(after) =~= expected);
}

proof fn lemma_update(records: Seq<Record>, at: int, record: Record)
    requires
        distinct(records),
        0 <= at < records.len(),
        records[at].token == record.token,
    ensures
        distinct(records.update(at, record)),
        rows_of(records.update(at, record)) == rows_of(records).insert(record.token, record@),
{
    let after = records.update(at, record);
    assert forall|i: int, j: int| 0 <= i < j < after.len() implies
        (#[trigger] after[i]).token != (#[trigger] after[j]).token by {
        assert(after[i].token == records[i].token);
        assert(after[j].token == records[j].token);
    }
    let expected = rows_of(records).insert(record.token, record@);
    assert forall|token: u128|
        rows_of(after).dom().contains(token) <==> expected.dom().contains(token) by {
        if holds(after, token) {
            let i = place(after, token);
            assert(records[i].token == token);
        }
        if holds(records, token) {
            let i = place(records, token);
            assert(after[i].token == token);
        }
        if token == record.token {
            assert(after[at].token == token);
        }
    }
    assert forall|token: u128| rows_of(after).dom().contains(token) implies
        rows_of(after)[token] == expected[token] by {
        let i = place(after, token);
        lemma_place(after, i);
        if i != at {
            assert(after[i] == records[i]);
            lemma_place(records, i);
        }
    }
    assert(rows_of(after) =~= expected);
}

proof fn lemma_swap_remove(records: Seq<Record>, at: int)
    requires
        distinct(records),
        0 <= at < records.len(),
    ensures
        distinct(records.update(at, records.last()).drop_last()),
        rows_of(records.update(at, records.last()).drop_last()) == rows_of(records).remove(
            records[at].token,
        ),
{
    let after = records.update(at, records.last()).drop_last();
    let gone = records[at].token;
    let end = records.len() - 1;
    assert forall|i: int| 0 <= i < after.len() implies
        #[trigger] after[i] == records[if i == at { end } else { i }] by {}
    assert forall|i: int, j: int| 0 <= i < j < after.len() implies
        (#[trigger] after[i]).token != (#[trigger] after[j]).token by {
        let a = if i == at { end } else { i };
        let b = if j == at { end } else { j };
        assert(after[i] == records[a] && after[j] == records[b]);
        if a < b {
            assert(records[a].token != records[b].token);
        } else {
            assert(records[b].token != records[a].token);
        }
    }
    let expected = rows_of(records).remove(gone);
    assert forall|token: u128|
        rows_of(after).dom().contains(token) <==> expected.dom().contains(token) by {
        if holds(after, token) {
            let i = place(after, token);
            let a = if i == at { end } else { i };
            assert(after[i] == records[a]);
            assert(records[a].token == token);
            if a < at {
                assert(records[a].token != records[at].token);
            } else {
                assert(records[at].token != records[a].token);
            }
        }
        if holds(records, token) && token != gone {
            let a = place(records, token);
            let i = if a == end { at } else { a };
            assert(after[i] == records[a]);
            assert(after[i].token == token);
        }
    }
    assert forall|token: u128| rows_of(after).dom().contains(token) implies
        rows_of(after)[token] == expected[token] by {
        let i = place(after, token);
        lemma_place(after, i);
        let a = if i == at { end } else { i };
        assert(after[i] == records[a]);
        lemma_place(records, a);
    }
    assert(rows_of(after) =~= expected);
}

proof fn lemma_count(records: Seq<Record>)
    requires
        distinct(records),
    ensures
        rows_of(records).dom().finite(),
        rows_of(records).dom().len() == records.len(),
    decreases records.len(),
{
    if records.len() == 0 {
        assert(rows_of(records).dom() =~= Set::<u128>::empty());
    } else {
        let front = records.drop_last();
        let last = records.last();
        assert(records =~= front.push(last));
        assert forall|i: int, j: int| 0 <= i < j < front.len() implies
            (#[trigger] front[i]).token != (#[trigger] front[j]).token by {
            assert(front[i] == records[i] && front[j] == records[j]);
        }
        if holds(front, last.token) {
            let i = place(front, last.token);
            assert(front[i] == records[i]);
            assert(records[i].token != records[records.len() - 1].token);
        }
        lemma_count(front);
        lemma_push(front, last);
        assert(rows_of(records).dom() =~= rows_of(front).dom().insert(last.token));
    }
}

/// Whether the token is one of `tokens`.
pub fn listed(tokens: &Vec<u128>, token: u128) -> (found: bool)
    ensures
        found == tokens@.contains(token),
{
    let mut i: usize = 0;
    while i < tokens.len()
        invariant
            i <= tokens@.len(),
            forall|j: int| 0 <= j < i ==> tokens@[j] != token,
        decreases tokens@.len() - i,
    {
        if tokens[i] == token {
            return true;
        }
        i += 1;
    }
    false
}

/// The sessions of a service, in memory.
pub struct SessionStore {
    records: Vec<Record>,
}

impl View for SessionStore {
    type V = Map<u128, Row>;

    closed spec fn view(&self) -> Map<u128, Row> {
        rows_of(self.records@)
    }
}

impl SessionStore {
    #[verifier::type_invariant]
    spec fn one_record_per_token(self) -> bool {
        distinct(self.records@)
    }

    /// A store without sessions.
    pub fn new() -> (store: SessionStore)
        ensures
            store@ == Map::<u128, Row>::empty(),
    {
        let store = SessionStore { records: Vec::new() };
        assert(store@ =~= Map::<u128, Row>::empty());
        store
    }

    /// Takes the records out and leaves the store empty.
    fn take_records(&mut self) -> (records: Vec<Record>)
        ensures
            records@ == old(self).records@,
            final(self).records@.len() == 0,
    {
        let mut records: Vec<Record> = Vec::new();
        core::mem::swap(&mut self.records, &mut records);
        records
    }

    /// Puts the records into a store that `take_records` has emptied.
    fn put_records(&mut self, records: Vec<Record>)
        requires
            old(self).records@.len() == 0,
            distinct(records@),
        ensures
            final(self).records@ == records@,
    {
        let mut records = records;
        core::mem::swap(&mut self.records, &mut records);
    }

    fn position(&self, token: u128) -> (at: Option<usize>)
        ensures
            match at {
                Some(i) => i < self.records@.len() && self.records@[i as int].token == token,
                None => !holds(self.records@, token),
            },
    {
        let mut i: usize = 0;
        while i < self.records.len()
            invariant
                i <= self.records@.len(),
                forall|j: int| 0 <= j < i ==> (#[trigger] self.records@[j]).token != token,
            decreases self.records@.len() - i,
        {
            if self.records[i].token == token {
                return Some(i);
            }
            i += 1;
        }
        None
    }

    /// Writes the record under its token, in place of the one that was there,
    /// if any.
    pub fn save(&mut self, record: Record)
        ensures
            final(self)@ == old(self)@.insert(record.token, record@),
    {
        proof {
            use_type_invariant(&*self);
        }
        let at = self.position(record.token);
        let mut records = self.take_records();
        match at {
            Some(i) => {
                proof {
                    lemma_update(records@, i as int, record);
                }
                records.set(i, record);
            },
            None => {
                proof {
                    lemma_push(records@, record);
                }
                records.push(record);
            },
        }
        self.put_records(records);
    }

    /// Removes the record under the token, if there is one.
    pub fn delete(&mut self, token: u128)
        ensures
            final(self)@ == old(self)@.remove(token),
    {
        proof {
            use_type_invariant(&*self);
        }
        match self.position(token) {
            Some(i) => {
                let mut records = self.take_records();
                proof {
                    lemma_swap_remove(records@, i as int);
                }
                records.swap_remove(i);
                self.put_records(records);
            },
            None => {
                assert(self@ =~= self@.remove(token));
            },
        }
    }

    /// Writes the record if no record is kept under its token, and says
    /// whether it did.
    pub fn insert_new(&mut self, record: Record) -> (added: bool)
        ensures
            added == !old(self)@.dom().contains(record.token),
            added ==> final(self)@ == old(self)@.insert(record.token, record@),
            !added ==> final(self)@ == old(self)@,
    {
        proof {
            use_type_invariant(&*self);
        }
        match self.position(record.token) {
            Some(i) => {
                proof {
                    lemma_place(self.records@, i as int);
                }
                false
            },
            None => {
                let mut records = self.take_records();
                proof {
                    lemma_push(records@, record);
                }
                records.push(record);
                self.put_records(records);
                true
            },
        }
    }

    /// Opens a session under the first of `draws` that is free: under which
    /// the store keeps nothing, and which is none of `avoid`. Where every draw
    /// is taken the store stays as it was.
    pub fn create_from(
        &mut self,
        avoid: &Vec<u128>,
        draws: &Vec<u128>,
        user_id: Option<u128>,
        data: Vec<u8>,
        expiry: i64,
    ) -> (r: Result<u128, SessionError>)
        ensures
            r == match first_free(old(self)@, avoid@, draws@) {
                Some(token) => Ok::<u128, SessionError>(token),
                None => Err(SessionError::StoreUnavailable),
            },
            final(self)@ == match first_free(old(self)@, avoid@, draws@) {
                Some(token) => old(self)@.insert(token, Row { user_id, data: data@, expiry }),
                None => old(self)@,
            },
    {
        let mut i: usize = 0;
        assert(draws@.skip(0) =~= draws@);
        while i < draws.len()
            invariant
                *self == *old(self),
                i <= draws@.len(),
                first_free(self@, avoid@, draws@) == first_free(
                    self@,
                    avoid@,
                    draws@.skip(i as int),
                ),
            decreases draws@.len() - i,
        {
            let token = draws[i];
            proof {
                let rest = draws@.skip(i as int);
                assert(rest[0] == token);
                assert(rest.drop_first() =~= draws@.skip(i + 1));
                assert(taken(self@, avoid@, token) == (self@.dom().contains(token)
                    || avoid@.contains(token)));
            }
            if !listed(avoid, token) && !self.contains(token) {
                let added = self.insert_new(Record { token, user_id, data, expiry });
                assert(added);
                return Ok(token);
            }
            i += 1;
        }
        assert(draws@.skip(i as int).len() == 0);
        Err(SessionError::StoreUnavailable)
    }

    /// Opens a session under a token drawn at random: one under which the
    /// store keeps nothing, and which is none of `avoid`. `TOKEN_ATTEMPTS`
    /// tokens are drawn, and the first of them that is free is taken, as
    /// `create_from` says; where all of them are taken the store stays as it
    /// was. Where no token at all is taken the session is opened, whatever is
    /// drawn.
    pub fn create_avoiding(
        &mut self,
        avoid: &Vec<u128>,
        user_id: Option<u128>,
        data: Vec<u8>,
        expiry: i64,
    ) -> (r: Result<u128, SessionError>)
        ensures
            match r {
                Ok(token) => {
                    &&& !taken(old(self)@, avoid@, token)
                    &&& final(self)@ == old(self)@.insert(
                        token,
                        Row { user_id, data: data@, expiry },
                    )
                },
                Err(e) => e == SessionError::StoreUnavailable && final(self)@ == old(self)@,
            },
            (forall|token: u128| !#[trigger] taken(old(self)@, avoid@, token)) ==> r is Ok,
    {
        let draws = draw_tokens(TOKEN_ATTEMPTS);
        proof {
            first_free_is_the_first(self@, avoid@, draws@);
        }
        self.create_from(avoid, &draws, user_id, data, expiry)
    }

    /// Opens a session under a token drawn at random, under which the store
    /// keeps nothing: `create_avoiding` with no token to avoid. In a store
    /// without records the session is opened, whatever is drawn.
    pub fn create(&mut self, user_id: Option<u128>, data: Vec<u8>, expiry: i64) -> (r: Result<
        u128,
        SessionError,
    >)
        ensures
            match r {
                Ok(token) => {
                    &&& !old(self)@.dom().contains(token)
                    &&& final(self)@ == old(self)@.insert(
                        token,
                        Row { user_id, data: data@, expiry },
                    )
                },
                Err(e) => e == SessionError::StoreUnavailable && final(self)@ == old(self)@,
            },
            (forall|token: u128| !old(self)@.dom().contains(token)) ==> r is Ok,
    {
        let avoid: Vec<u128> = Vec::new();
        assert forall|token: u128| taken(self@, avoid@, token) == self@.dom().contains(
            token,
        ) by {}
        self.create_avoiding(&avoid, user_id, data, expiry)
    }

    /// Removes every record that has expired at `now`, leaves the others as
    /// they are, and says how many it removed.
    pub fn delete_expired(&mut self, now: i64) -> (count: usize)
        ensures
            final(self)@ == live_rows(old(self)@, now),
            expired_tokens(old(self)@, now).finite(),
            count == expired_tokens(old(self)@, now).len(),
    {
        proof {
            use_type_invariant(&*self);
        }
        let mut records = self.take_records();
        let ghost before = rows_of(records@);
        let ghost total: usize = records.len();
        let ghost mut gone: Set<u128> = Set::empty();
        let mut count: usize = 0;
        let mut i: usize = 0;
        assert(before =~= before.remove_keys(gone));
        while i < records.len()
            invariant
                distinct(records@),
                i <= records@.len(),
                count + records@.len() == total,
                gone.finite(),
                gone.len() == count,
                forall|token: u128| #[trigger]
                    gone.contains(token) ==> before.dom().contains(token) && !live(
                        before[token],
                        now,
                    ),
                rows_of(records@) == before.remove_keys(gone),
                forall|j: int| 0 <= j < i ==> live((#[trigger] records@[j])@, now),
            decreases records@.len() - i,
        {
            if records[i].expiry <= now {
                proof {
                    let token = records@[i as int].token;
                    lemma_place(records@, i as int);
                    lemma_swap_remove(records@, i as int);
                    assert(!gone.contains(token));
                    assert(before.remove_keys(gone).remove(token) =~= before.remove_keys(
                        gone.insert(token),
                    ));
                    gone = gone.insert(token);
                }
                records.swap_remove(i);
                count += 1;
            } else {
                i += 1;
            }
        }
        proof {
            assert forall|token: u128| before.dom().contains(token) && !gone.contains(
                token,
            ) implies live(before[token], now) by {
                assert(rows_of(records@).dom().contains(token));
                let j = place(records@, token);
                lemma_place(records@, j);
            }
            assert(rows_of(records@) =~= live_rows(before, now));
            assert(gone =~= expired_tokens(before, now));
        }
        self.put_records(records);
        count
    }

    /// The number of records in the store, expired ones included.
    pub fn len(&self) -> (n: usize)
        ensures
            self@.dom().finite(),
            n == self@.dom().len(),
    {
        proof {
            use_type_invariant(self);
            lemma_count(self.records@);
        }
        self.records.len()
    }

    /// Whether the store keeps a record under the token, expired or not.
    pub fn contains(&self, token: u128) -> (found: bool)
        ensures
            found == self@.dom().contains(token),
    {
        self.position(token).is_some()
    }

    /// The record under the token, if there is one and it has not expired at
    /// `now`. An expired record counts as absent, whether or not it has been
    /// deleted yet.
    pub fn load(&self, token: u128, now: i64) -> (found: Option<&Record>)
        ensures
            match found {
                Some(record) => record.token == token && visible(self@, token, now) == Some(
                    record@,
                ),
                None => visible(self@, token, now) is None,
            },
    {
        proof {
            use_type_invariant(self);
        }
        match self.position(token) {
            Some(i) => {
                proof {
                    lemma_place(self.records@, i as int);
                }
                let record = &self.records[i];
                if record.expiry > now {
                    Some(record)
                } else {
                    None
                }
            },
            None => None,
        }
    }
}

/// What the first free draw is: a draw that is not taken, with none but
/// taken draws before it; and there is none exactly if every draw is taken.
pub proof fn first_free_is_the_first(rows: Map<u128, Row>, avoid: Seq<u128>, draws: Seq<u128>)
    ensures
        match first_free(rows, avoid, draws) {
            Some(token) => {
                &&& !taken(rows, avoid, token)
                &&& exists|k: int|
                    {
                        &&& 0 <= k < draws.len()
                        &&& #[trigger] draws[k] == token
                        &&& forall|j: int| 0 <= j < k ==> taken(rows, avoid, #[trigger] draws[j])
                    }
            },
            None => forall|k: int| 0 <= k < draws.len() ==> taken(rows, avoid, #[trigger] draws[k]),
        },
    decreases draws.len(),
{
    if draws.len() > 0 {
        let rest = draws.drop_first();
        first_free_is_the_first(rows, avoid, rest);
        if !taken(rows, avoid, draws[0]) {
            assert(draws[0] == draws[0] && forall|j: int|
                0 <= j < 0 ==> taken(rows, avoid, #[trigger] draws[j]));
        } else {
            match first_free(rows, avoid, rest) {
                Some(token) => {
                    let k = choose|k: int|
                        {
                            &&& 0 <= k < rest.len()
                            &&& #[trigger] rest[k] == token
                            &&& forall|j: int|
                                0 <= j < k ==> taken(rows, avoid, #[trigger] rest[j])
                        };
                    assert(draws[k + 1] == rest[k]);
                    assert forall|j: int| 0 <= j < k + 1 implies taken(
                        rows,
                        avoid,
                        #[trigger] draws[j],
                    ) by {
                        if j > 0 {
                            assert(draws[j] == rest[j - 1]);
                        }
                    }
                },
                None => {
                    assert forall|k: int| 0 <= k < draws.len() implies taken(
                        rows,
                        avoid,
                        #[trigger] draws[k],
                    ) by {
                        if k > 0 {
                            assert(draws[k] == rest[k - 1]);
                        }
                    }
                },
            }
        }
    }
}

/// Deleting the expired rows leaves exactly the rows that are still valid,
/// each as it was.
pub proof fn live_rows_are_the_valid_ones(rows: Map<u128, Row>, now: i64)
    ensures
        forall|token: u128|
            live_rows(rows, now).dom().contains(token) <==> rows.dom().contains(token)
                && rows[token].expiry > now,
        forall|token: u128|
            live_rows(rows, now).dom().contains(token) ==> live_rows(rows, now)[token]
                == rows[token],
        forall|token: u128|
            expired_tokens(rows, now).contains(token) <==> rows.dom().contains(token)
                && rows[token].expiry <= now,
{
}

/// A session that has expired stays expired: what is not found at one moment
/// is not found at a later one, unless it is written anew.
pub proof fn expired_stays_expired(rows: Map<u128, Row>, token: u128, now: i64, later: i64)
    requires
        now <= later,
        visible(rows, token, now) is None,
    ensures
        visible(rows, token, later) is None,
{
}

/// Deleting the expired rows takes nothing from any reader: at the moment of
/// the deletion and at any later one, a reader finds under every token what
/// it would have found without the deletion.
pub proof fn deletion_is_unseen(rows: Map<u128, Row>, before: i64, token: u128, now: i64)
    requires
        before <= now,
    ensures
        visible(live_rows(rows, before), token, now) == visible(rows, token, now),
{
}

/// Deleting the expired rows a second time, at the same moment, changes
/// nothing and finds no row to delete.
pub proof fn delete_expired_twice(rows: Map<u128, Row>, now: i64)
    ensures
        live_rows(live_rows(rows, now), now) == live_rows(rows, now),
        expired_tokens(live_rows(rows, now), now) == Set::<u128>::empty(),
        expired_tokens(live_rows(rows, now), now).len() == 0,
{
    assert(live_rows(live_rows(rows, now), now) =~= live_rows(rows, now));
    assert(expired_tokens(live_rows(rows, now), now) =~= Set::<u128>::empty());
}

} // verus!
