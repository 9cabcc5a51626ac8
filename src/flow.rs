use vstd::prelude::*;

use crate::email::Email;
use crate::password::Password;
use crate::store::{add_effect, add_outcome, validate_outcome, UserStore, UserStoreError};
use crate::user::User;

verus! {

/// The raw fields of a signup request, not yet validated.
#[derive(Debug, PartialEq, Eq)]
pub struct SignupRequest {
    pub email: String,
    pub password: String,
    pub requires_2fa: bool,
}

/// The body sent back for a created account.
#[derive(Debug, PartialEq, Eq)]
pub struct SignupResponse {
    pub message: String,
}

impl SignupResponse {
    /// The confirmation sent when signup created the account.
    pub fn created() -> (r: SignupResponse)
        ensures
            r.message@ == "User created successfully!"@,
    {
        SignupResponse { message: "User created successfully!".to_string() }
    }
}

/// What a signup request comes to at the protocol boundary.
#[derive(Debug, PartialEq, Eq)]
pub enum SignupOutcome {
    Created,
    Conflict,
    InvalidInput(String),
    ServerError,
}

/// What a login request comes to at the protocol boundary. A missing user
/// and a wrong password both come to `AuthenticationFailed`.
#[derive(Debug, PartialEq, Eq)]
pub enum LoginOutcome {
    SessionIssued,
    SecondFactorPending,
    AuthenticationFailed,
    InvalidInput(String),
    ServerError,
}

/// Registers a user from raw credentials: both are validated before any
/// record exists, and a taken address is a conflict.
pub fn signup<S: UserStore>(store: &mut S, request: SignupRequest) -> (r: SignupOutcome)
    ensures
        !(Email::accepts(request.email@) && Password::accepts(request.password@)) <==> r
            is InvalidInput,
        r is Conflict ==> old(store).records().contains_key(request.email@),
        r is Created ==> !old(store).records().contains_key(request.email@) && exists|u: User|
            u.email@ == request.email@ && u.password@ == request.password@ && u.requires_2fa
                == request.requires_2fa && #[trigger] final(store).records()
                == old(store).records().insert(request.email@, u),
        Email::accepts(request.email@) && Password::accepts(request.password@) && !(r
            is ServerError) ==> (r is Conflict <==> old(store).records().contains_key(
            request.email@,
        )),
        !(r is Created) ==> final(store).records() == old(store).records(),
        r is ServerError ==> old(store).fallible(),
{
    let SignupRequest { email, password, requires_2fa } = request;
    let email = match Email::parse(email) {
        Ok(e) => e,
        Err(m) => return SignupOutcome::InvalidInput(m),
    };
    let password = match Password::parse(password) {
        Ok(p) => p,
        Err(m) => return SignupOutcome::InvalidInput(m),
    };
    let user = User::new(email, password, requires_2fa);
    match store.add_user(user) {
        Ok(()) => SignupOutcome::Created,
        Err(UserStoreError::UserAlreadyExists) => SignupOutcome::Conflict,
        Err(_) => SignupOutcome::ServerError,
    }
}

/// Logs a user in from raw credentials. When the password matches, a user
/// who needs a second factor is left pending; any other is given a session.
pub fn login<S: UserStore>(store: &S, email: String, password: String) -> (r: LoginOutcome)
    ensures
        !(Email::accepts(email@) && Password::accepts(password@)) <==> r is InvalidInput,
        Email::accepts(email@) && Password::accepts(password@) && !(r is ServerError) ==> {
            let records = store.records();
            &&& r is AuthenticationFailed <==> validate_outcome(records, email@, password@) is Err
            &&& r is SecondFactorPending <==> validate_outcome(records, email@, password@) is Ok
                && records[email@].requires_2fa
            &&& r is SessionIssued <==> validate_outcome(records, email@, password@) is Ok
                && !records[email@].requires_2fa
        },
        r is ServerError ==> store.fallible(),
{
    let email = match Email::parse(email) {
        Ok(e) => e,
        Err(m) => return LoginOutcome::InvalidInput(m),
    };
    let password = match Password::parse(password) {
        Ok(p) => p,
        Err(m) => return LoginOutcome::InvalidInput(m),
    };
    match store.validate_user(&email, &password) {
        Ok(()) => {},
        Err(UserStoreError::UnexpectedError) => return LoginOutcome::ServerError,
        Err(_) => return LoginOutcome::AuthenticationFailed,
    }
    match store.get_user(&email) {
        Ok(user) => if user.requires_2fa {
            LoginOutcome::SecondFactorPending
        } else {
            LoginOutcome::SessionIssued
        },
        Err(_) => LoginOutcome::ServerError,
    }
}

/// A login that passed the password check and waits for its second
/// factor: whose it is, the code sent to them, and the time it lapses at.
pub struct PendingSecondFactor {
    pub email: Email,
    pub code: String,
    pub expires_at: u64,
}

/// What a second-factor submission comes to. A wrong code and a lapsed
/// challenge both come to `AuthenticationFailed`.
#[derive(Debug, PartialEq, Eq)]
pub enum SecondFactorOutcome {
    SessionIssued(Email),
    AuthenticationFailed,
}

/// Whether `code`, submitted for `email` at time `now`, completes `pending`.
pub open spec fn second_factor_accepted(
    pending: Option<PendingSecondFactor>,
    email: Seq<char>,
    code: Seq<char>,
    now: u64,
) -> bool {
    match pending {
        Some(p) => p.email@ == email && now < p.expires_at && code == p.code@,
        None => false,
    }
}

/// Checks a code submitted for `email` against a pending login at time
/// `now`. When the address is the pending user's, the challenge has not
/// lapsed and the code matches, the login completes for that user and the
/// challenge is used up; otherwise nothing changes.
pub fn verify_2fa(
    pending: &mut Option<PendingSecondFactor>,
    email: &String,
    code: &String,
    now: u64,
) -> (r: SecondFactorOutcome)
    ensures
        r is SessionIssued <==> second_factor_accepted(*old(pending), email@, code@, now),
        r matches SecondFactorOutcome::SessionIssued(e) ==> *old(pending) matches Some(p) && e
            == p.email && e@ == email@,
        r is SessionIssued ==> *final(pending) is None,
        r is AuthenticationFailed ==> *final(pending) == *old(pending),
{
    let accepted = match pending {
        Some(p) => {
            let address = p.email.as_str().to_owned();
            address == *email && now < p.expires_at && p.code == *code
        },
        None => false,
    };
    if accepted {
        match pending.take() {
            Some(p) => SecondFactorOutcome::SessionIssued(p.email),
            None => SecondFactorOutcome::AuthenticationFailed,
        }
    } else {
        SecondFactorOutcome::AuthenticationFailed
    }
}

/// After signup stored `user`, their own password passes the check that
/// `login` makes, and login then goes by the user's own second-factor flag:
/// a session at once, or a pending second factor. A wrong password and an
/// unknown address both fail that check, so `login` answers both alike,
/// with `AuthenticationFailed`.
pub proof fn lemma_login_after_signup(
    records: Map<Seq<char>, User>,
    user: User,
    other: Seq<char>,
    missing: Seq<char>,
)
    requires
        add_outcome(records, user) is Ok,
        other != user.password@,
        !records.contains_key(missing),
        missing != user.email@,
    ensures
        ({
            let stored = add_effect(records, user);
            &&& validate_outcome(stored, user.email@, user.password@) is Ok
            &&& stored[user.email@].requires_2fa == user.requires_2fa
            &&& validate_outcome(stored, user.email@, other) is Err
            &&& validate_outcome(stored, missing, user.password@) is Err
        }),
{
}

} // verus!
