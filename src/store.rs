use vstd::prelude::*;

use crate::email::Email;
use crate::password::Password;
use crate::user::User;

verus! {

/// Every outcome a user store may report besides success.
#[derive(Debug, Clone, Copy, PartialEq, Eq, Structural)]
pub enum UserStoreError {
    UserAlreadyExists,
    UserNotFound,
    InvalidCredentials,
    UnexpectedError,
}

/// What adding `user` to a store holding `records` reports.
pub open spec fn add_outcome(records: Map<Seq<char>, User>, user: User) -> Result<
    (),
    UserStoreError,
> {
    if records.contains_key(user.email@) {
        Err(UserStoreError::UserAlreadyExists)
    } else {
        Ok(())
    }
}

/// The records after adding `user`: unchanged when its address is taken.
pub open spec fn add_effect(records: Map<Seq<char>, User>, user: User) -> Map<Seq<char>, User> {
    if records.contains_key(user.email@) {
        records
    } else {
        records.insert(user.email@, user)
    }
}

/// What looking up `email` in a store holding `records` reports.
pub open spec fn get_outcome(records: Map<Seq<char>, User>, email: Seq<char>) -> Result<
    User,
    UserStoreError,
> {
    if records.contains_key(email) {
        Ok(records[email])
    } else {
        Err(UserStoreError::UserNotFound)
    }
}

/// What checking `password` for `email` against `records` reports.
pub open spec fn validate_outcome(
    records: Map<Seq<char>, User>,
    email: Seq<char>,
    password: Seq<char>,
) -> Result<(), UserStoreError> {
    if !records.contains_key(email) {
        Err(UserStoreError::UserNotFound)
    } else if records[email].password@ != password {
        Err(UserStoreError::InvalidCredentials)
    } else {
        Ok(())
    }
}

/// Storage of user records keyed by email address, whatever the backend.
/// A backend reports exactly the outcomes below, or, if it is `fallible`,
/// `UnexpectedError` when it fails on its own side, and then leaves its
/// records as they were.
pub trait UserStore {
    /// The records held, keyed by the view of each user's address.
    spec fn records(&self) -> Map<Seq<char>, User>;

    /// Whether the backend may fail on its own side (storage unavailable).
    spec fn fallible(&self) -> bool;

    /// Inserts `user` unless its address is already taken.
    fn add_user(&mut self, user: User) -> (r: Result<(), UserStoreError>)
        ensures
            r == add_outcome(old(self).records(), user) || (old(self).fallible() && r == Err::<
                (),
                UserStoreError,
            >(UserStoreError::UnexpectedError)),
            final(self).fallible() == old(self).fallible(),
            r is Ok ==> final(self).records() == add_effect(old(self).records(), user),
            r is Err ==> final(self).records() == old(self).records(),
    ;

    /// A copy of the record stored under `email`.
    fn get_user(&self, email: &Email) -> (r: Result<User, UserStoreError>)
        ensures
            r == get_outcome(self.records(), email@) || (self.fallible() && r == Err::<
                User,
                UserStoreError,
            >(UserStoreError::UnexpectedError)),
    ;

    /// Whether `password` is the one stored for `email`.
    fn validate_user(&self, email: &Email, password: &Password) -> (r: Result<
        (),
        UserStoreError,
    >)
        ensures
            r == validate_outcome(self.records(), email@, password@) || (self.fallible() && r
                == Err::<(), UserStoreError>(UserStoreError::UnexpectedError)),
    ;
}

/// Adding the same user twice: the first call succeeds, the second reports
/// `UserAlreadyExists`, and the address then holds one record, the first.
pub proof fn lemma_add_twice(records: Map<Seq<char>, User>, user: User)
    requires
        !records.contains_key(user.email@),
    ensures
        add_outcome(records, user) == Ok::<(), UserStoreError>(()),
        add_outcome(add_effect(records, user), user) == Err::<(), UserStoreError>(
            UserStoreError::UserAlreadyExists,
        ),
        add_effect(add_effect(records, user), user) == add_effect(records, user),
        add_effect(records, user)[user.email@] == user,
{
}

/// After a successful add, looking the address up returns that user; an
/// address that was never added is not found.
pub proof fn lemma_lookup(records: Map<Seq<char>, User>, user: User, missing: Seq<char>)
    requires
        add_outcome(records, user) is Ok,
        !records.contains_key(missing),
        missing != user.email@,
    ensures
        get_outcome(add_effect(records, user), user.email@) == Ok::<User, UserStoreError>(user),
        get_outcome(add_effect(records, user), missing) == Err::<User, UserStoreError>(
            UserStoreError::UserNotFound,
        ),
{
}

/// Once a user is stored, their own password validates, any other password
/// is `InvalidCredentials`, and an address that is not stored is
/// `UserNotFound`.
pub proof fn lemma_credentials(
    records: Map<Seq<char>, User>,
    user: User,
    other: Seq<char>,
    missing: Seq<char>,
)
    requires
        add_outcome(records, user) is Ok,
        other != user.password@,
        !records.contains_key(missing),
        missing != user.email@,
    ensures
        ({
            let stored = add_effect(records, user);
            &&& validate_outcome(stored, user.email@, user.password@) == Ok::<(), UserStoreError>(())
            &&& validate_outcome(stored, user.email@, other) == Err::<(), UserStoreError>(
                UserStoreError::InvalidCredentials,
            )
            &&& validate_outcome(stored, missing, user.password@) == Err::<(), UserStoreError>(
                UserStoreError::UserNotFound,
            )
        }),
{
}

} // verus!
