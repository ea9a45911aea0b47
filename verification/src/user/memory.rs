//! Users kept in memory.

use crate::text::{same_ignoring_ascii_case, same_text_ignoring_ascii_case};
use crate::user::model::{
    first_with_email, first_with_id, AuthError, User, UserRepository, UserView,
};
use vstd::prelude::*;

verus! {

/// The users as contracts speak of them.
pub open spec fn views(users: Seq<User>) -> Seq<UserView> {
    users.map_values(|user: User| user@)
}

/// Whether no two users share an id or, ASCII case aside, an email.
pub open spec fn no_two_alike(users: Seq<UserView>) -> bool {
    forall|i: int, j: int|
        0 <= i < j < users.len() ==> (#[trigger] users[i]).id != (#[trigger] users[j]).id
            && !same_ignoring_ascii_case(users[i].email, users[j].email)
}

/// Why a user was not added.
#[derive(Clone, Copy, Debug, PartialEq, Eq, Structural)]
pub enum Conflict {
    /// A user with this id is registered.
    IdTaken,
    /// A user with this email is registered.
    EmailTaken,
}

/// A user store in memory. No two of its users share an id or an email.
pub struct MemoryUsers {
    users: Vec<User>,
}

impl View for MemoryUsers {
    type V = Seq<UserView>;

    closed spec fn view(&self) -> Seq<UserView> {
        views(self.users@)
    }
}

proof fn lemma_skip_email(users: Seq<UserView>, email: Seq<char>, i: int)
    requires
        0 <= i < users.len(),
        forall|j: int| 0 <= j < i ==> !same_ignoring_ascii_case((#[trigger] users[j]).email, email),
    ensures
        first_with_email(users, email) == first_with_email(users.skip(i), email),
    decreases i,
{
    if i > 0 {
        lemma_skip_email(users, email, i - 1);
        assert(users.skip(i - 1).drop_first() =~= users.skip(i));
        assert(users.skip(i - 1)[0] == users[i - 1]);
    } else {
        assert(users.skip(0) =~= users);
    }
}

proof fn lemma_none_email(users: Seq<UserView>, email: Seq<char>)
    requires
        forall|j: int|
            0 <= j < users.len() ==> !same_ignoring_ascii_case((#[trigger] users[j]).email, email),
    ensures
        first_with_email(users, email) is None,
    decreases users.len(),
{
    if users.len() > 0 {
        let rest = users.drop_first();
        assert forall|j: int| 0 <= j < rest.len() implies !same_ignoring_ascii_case(
            (#[trigger] rest[j]).email,
            email,
        ) by {
            assert(rest[j] == users[j + 1]);
        }
        lemma_none_email(rest, email);
    }
}

proof fn lemma_skip_id(users: Seq<UserView>, id: u128, i: int)
    requires
        0 <= i < users.len(),
        forall|j: int| 0 <= j < i ==> (#[trigger] users[j]).id != id,
    ensures
        first_with_id(users, id) == first_with_id(users.skip(i), id),
    decreases i,
{
    if i > 0 {
        lemma_skip_id(users, id, i - 1);
        assert(users.skip(i - 1).drop_first() =~= users.skip(i));
        assert(users.skip(i - 1)[0] == users[i - 1]);
    } else {
        assert(users.skip(0) =~= users);
    }
}

proof fn lemma_none_id(users: Seq<UserView>, id: u128)
    requires
        forall|j: int| 0 <= j < users.len() ==> (#[trigger] users[j]).id != id,
    ensures
        first_with_id(users, id) is None,
    decreases users.len(),
{
    if users.len() > 0 {
        let rest = users.drop_first();
        assert forall|j: int| 0 <= j < rest.len() implies (#[trigger] rest[j]).id != id by {
            assert(rest[j] == users[j + 1]);
        }
        lemma_none_id(rest, id);
    }
}

impl MemoryUsers {
    #[verifier::type_invariant]
    spec fn unique(self) -> bool {
        no_two_alike(views(self.users@))
    }

    /// A store without users.
    pub fn new() -> (store: MemoryUsers)
        ensures
            store@ == Seq::<UserView>::empty(),
    {
        let store = MemoryUsers { users: Vec::new() };
        assert(store@ =~= Seq::<UserView>::empty());
        store
    }

    /// The number of users.
    pub fn len(&self) -> (n: usize)
        ensures
            n == self@.len(),
    {
        self.users.len()
    }

    fn position_by_email(&self, email: &str) -> (at: Option<usize>)
        ensures
            match at {
                Some(i) => i < self@.len() && first_with_email(self@, email@) == Some(
                    self@[i as int],
                ),
                None => first_with_email(self@, email@) is None && forall|j: int|
                    0 <= j < self@.len() ==> !same_ignoring_ascii_case(
                        (#[trigger] self@[j]).email,
                        email@,
                    ),
            },
    {
        let mut i: usize = 0;
        while i < self.users.len()
            invariant
                i <= self.users@.len(),
                forall|j: int|
                    0 <= j < i ==> !same_ignoring_ascii_case((#[trigger] self@[j]).email, email@),
            decreases self.users@.len() - i,
        {
            if same_text_ignoring_ascii_case(self.users[i].email.as_str(), email) {
                proof {
                    lemma_skip_email(self@, email@, i as int);
                    assert(self@.skip(i as int)[0] == self@[i as int]);
                }
                return Some(i);
            }
            i += 1;
        }
        proof {
            lemma_none_email(self@, email@);
        }
        None
    }

    fn position_by_id(&self, id: u128) -> (at: Option<usize>)
        ensures
            match at {
                Some(i) => i < self@.len() && first_with_id(self@, id) == Some(self@[i as int]),
                None => first_with_id(self@, id) is None && forall|j: int|
                    0 <= j < self@.len() ==> (#[trigger] self@[j]).id != id,
            },
    {
        let mut i: usize = 0;
        while i < self.users.len()
            invariant
                i <= self.users@.len(),
                forall|j: int| 0 <= j < i ==> (#[trigger] self@[j]).id != id,
            decreases self.users@.len() - i,
        {
            if self.users[i].id == id {
                proof {
                    lemma_skip_id(self@, id, i as int);
                    assert(self@.skip(i as int)[0] == self@[i as int]);
                }
                return Some(i);
            }
            i += 1;
        }
        proof {
            lemma_none_id(self@, id);
        }
        None
    }

    /// Adds the user, unless a user with the same id or the same email is
    /// registered. The id is looked at first.
    pub fn insert(&mut self, user: User) -> (r: Result<(), Conflict>)
        ensures
            match r {
                Ok(_) => {
                    &&& first_with_id(old(self)@, user.id) is None
                    &&& first_with_email(old(self)@, user.email@) is None
                    &&& final(self)@ == old(self)@.push(user@)
                },
                Err(Conflict::IdTaken) => {
                    &&& first_with_id(old(self)@, user.id) is Some
                    &&& final(self)@ == old(self)@
                },
                Err(Conflict::EmailTaken) => {
                    &&& first_with_id(old(self)@, user.id) is None
                    &&& first_with_email(old(self)@, user.email@) is Some
                    &&& final(self)@ == old(self)@
                },
            },
    {
        proof {
            use_type_invariant(&*self);
        }
        if self.position_by_id(user.id).is_some() {
            return Err(Conflict::IdTaken);
        }
        if self.position_by_email(user.email.as_str()).is_some() {
            return Err(Conflict::EmailTaken);
        }
        let mut users: Vec<User> = Vec::new();
        core::mem::swap(&mut self.users, &mut users);
        let ghost before = views(users@);
        users.push(user);
        proof {
            let after = views(users@);
            assert(after =~= before.push(user@));
            assert forall|i: int, j: int| 0 <= i < j < after.len() implies
                (#[trigger] after[i]).id != (#[trigger] after[j]).id
                && !same_ignoring_ascii_case(after[i].email, after[j].email) by {
                assert(after[i] == before[i]);
                if j < before.len() {
                    assert(after[j] == before[j]);
                }
            }
        }
        core::mem::swap(&mut self.users, &mut users);
        Ok(())
    }
}

impl UserRepository for MemoryUsers {
    open spec fn users(&self) -> Seq<UserView> {
        self@
    }

    open spec fn dependable(&self) -> bool {
        true
    }

    fn find_by_email(&self, email: &str) -> (r: Result<Option<User>, AuthError>) {
        match self.position_by_email(email) {
            Some(i) => Ok(Some(self.users[i].duplicate())),
            None => Ok(None),
        }
    }

    fn find_by_id(&self, id: u128) -> (r: Result<Option<User>, AuthError>) {
        match self.position_by_id(id) {
            Some(i) => Ok(Some(self.users[i].duplicate())),
            None => Ok(None),
        }
    }
}

} // verus!
