use vstd::prelude::*;

use crate::email::Email;
use crate::password::Password;
use crate::store::{
    add_effect,
    add_outcome,
    get_outcome,
    validate_outcome,
    UserStore,
    UserStoreError,
};
use crate::user::User;

verus! {

/// The map that a sequence of records with distinct addresses stands for.
pub open spec fn records_of(users: Seq<User>) -> Map<Seq<char>, User>
    decreases users.len(),
{
    if users.len() == 0 {
        Map::empty()
    } else {
        records_of(users.drop_last()).insert(users.last().email@, users.last())
    }
}

/// No two records share an address.
pub open spec fn distinct_emails(users: Seq<User>) -> bool {
    forall|i: int, j: int|
        0 <= i < users.len() && 0 <= j < users.len() && i != j ==> users[i].email@
            != users[j].email@
}

/// An address is a key exactly when some record carries it.
proof fn lemma_records_keys(users: Seq<User>, k: Seq<char>)
    ensures
        records_of(users).contains_key(k) <==> exists|i: int|
            0 <= i < users.len() && users[i].email@ == k,
    decreases users.len(),
{
    if users.len() > 0 {
        let init = users.drop_last();
        lemma_records_keys(init, k);
        if records_of(init).contains_key(k) {
            let i = choose|i: int| 0 <= i < init.len() && init[i].email@ == k;
            assert(users[i] == init[i]);
        }
        if exists|i: int| 0 <= i < users.len() && users[i].email@ == k {
            let i = choose|i: int| 0 <= i < users.len() && users[i].email@ == k;
            if i < users.len() - 1 {
                assert(init[i] == users[i]);
            }
        }
    }
}

/// With distinct addresses, the key of a record maps to that record.
proof fn lemma_records_at(users: Seq<User>, i: int)
    requires
        distinct_emails(users),
        0 <= i < users.len(),
    ensures
        records_of(users).contains_key(users[i].email@),
        records_of(users)[users[i].email@] == users[i],
    decreases users.len(),
{
    let init = users.drop_last();
    if i < users.len() - 1 {
        assert(init[i] == users[i]);
        assert(distinct_emails(init)) by {
            assert forall|a: int, b: int|
                0 <= a < init.len() && 0 <= b < init.len() && a != b implies init[a].email@
                != init[b].email@ by {
                assert(init[a] == users[a] && init[b] == users[b]);
            }
        }
        lemma_records_at(init, i);
        assert(users.last().email@ != users[i].email@);
    }
}

/// The in-memory user store: records kept in insertion order, no two with
/// the same address. They sit in a `Vec` searched by address rather than in
/// a `HashMap`: a map keyed by `Email` would carry no specification that the
/// proofs of `add_user` and `get_user` could use, while the `Vec` with its
/// invariant is proved to stand for exactly the map in `records`.
pub struct HashmapUserStore {
    users: Vec<User>,
}

impl HashmapUserStore {
    #[verifier::type_invariant]
    closed spec fn inv(self) -> bool {
        distinct_emails(self.users@)
    }

    /// An empty store.
    pub fn new() -> (r: HashmapUserStore)
        ensures
            r.records() == Map::<Seq<char>, User>::empty(),
    {
        HashmapUserStore { users: Vec::new() }
    }

    /// The position of the record with `email`'s address, if any.
    fn position(&self, email: &Email) -> (r: Option<usize>)
        ensures
            r matches Some(i) ==> i < self.users@.len() && self.users@[i as int].email@
                == email@,
            r is None ==> forall|i: int|
                0 <= i < self.users@.len() ==> self.users@[i].email@ != email@,
    {
        let mut i: usize = 0;
        while i < self.users.len()
            invariant
                i <= self.users@.len(),
                forall|j: int| 0 <= j < i ==> self.users@[j].email@ != email@,
            decreases self.users@.len() - i,
        {
            if self.users[i].email == *email {
                return Some(i);
            }
            i = i + 1;
        }
        None
    }

    /// Inserts `user` unless its address is already taken.
    pub fn add_user(&mut self, user: User) -> (r: Result<(), UserStoreError>)
        ensures
            r == add_outcome(old(self).records(), user),
            final(self).records() == add_effect(old(self).records(), user),
    {
        proof {
            use_type_invariant(&*self);
            lemma_records_keys(self.users@, user.email@);
        }
        match self.position(&user.email) {
            Some(_) => Err(UserStoreError::UserAlreadyExists),
            None => {
                let mut taken = HashmapUserStore::new();
                std::mem::swap(self, &mut taken);
                let HashmapUserStore { mut users } = taken;
                let ghost before = users@;
                users.push(user);
                proof {
                    assert(users@.drop_last() =~= before);
                    assert(distinct_emails(users@)) by {
                        assert forall|a: int, b: int|
                            0 <= a < users@.len() && 0 <= b < users@.len() && a != b implies users@[a].email@
                            != users@[b].email@ by {
                            if a < before.len() {
                                assert(users@[a] == before[a]);
                            }
                            if b < before.len() {
                                assert(users@[b] == before[b]);
                            }
                        }
                    }
                }
                *self = HashmapUserStore { users };
                Ok(())
            },
        }
    }

    /// A copy of the record stored under `email`.
    pub fn get_user(&self, email: &Email) -> (r: Result<User, UserStoreError>)
        ensures
            r == get_outcome(self.records(), email@),
    {
        proof {
            use_type_invariant(self);
            lemma_records_keys(self.users@, email@);
        }
        match self.position(email) {
            Some(i) => {
                proof {
                    lemma_records_at(self.users@, i as int);
                }
                Ok(self.users[i].clone())
            },
            None => Err(UserStoreError::UserNotFound),
        }
    }

    /// Whether `password` is the one stored for `email`.
    pub fn validate_user(&self, email: &Email, password: &Password) -> (r: Result<
        (),
        UserStoreError,
    >)
        ensures
            r == validate_outcome(self.records(), email@, password@),
    {
        let user = self.get_user(email)?;
        if user.password != *password {
            return Err(UserStoreError::InvalidCredentials);
        }
        Ok(())
    }
}

impl Default for HashmapUserStore {
    fn default() -> (r: HashmapUserStore)
        ensures
            r.records() == Map::<Seq<char>, User>::empty(),
    {
        HashmapUserStore::new()
    }
}

impl UserStore for HashmapUserStore {
    /// The records held, keyed by address.
    closed spec fn records(&self) -> Map<Seq<char>, User> {
        records_of(self.users@)
    }

    open spec fn fallible(&self) -> bool {
        false
    }

    fn add_user(&mut self, user: User) -> (r: Result<(), UserStoreError>) {
        HashmapUserStore::add_user(self, user)
    }

    fn get_user(&self, email: &Email) -> (r: Result<User, UserStoreError>) {
        HashmapUserStore::get_user(self, email)
    }

    fn validate_user(&self, email: &Email, password: &Password) -> (r: Result<
        (),
        UserStoreError,
    >) {
        HashmapUserStore::validate_user(self, email, password)
    }
}

} // verus!
