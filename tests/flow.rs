use auth_service::flow::{
    login, signup, verify_2fa, LoginOutcome, PendingSecondFactor, SecondFactorOutcome,
    SignupOutcome, SignupRequest, SignupResponse,
};
use auth_service::session::{LogoutOutcome, RevokedTokens, TokenOutcome};
use auth_service::{Email, HashmapUserStore};

fn s(v: &str) -> String {
    v.to_string()
}

fn req(email: &str, password: &str, requires_2fa: bool) -> SignupRequest {
    SignupRequest {
        email: s(email),
        password: s(password),
        requires_2fa,
    }
}

#[test]
fn created_response_message() {
    assert_eq!(SignupResponse::created().message, "User created successfully!");
}

#[test]
fn signup_then_login_without_second_factor() {
    let mut store = HashmapUserStore::new();
    assert_eq!(
        signup(&mut store, req("a@example.com", "password1", false)),
        SignupOutcome::Created
    );
    assert_eq!(
        signup(&mut store, req("a@example.com", "password1", false)),
        SignupOutcome::Conflict
    );
    assert_eq!(
        login(&store, s("a@example.com"), s("password1")),
        LoginOutcome::SessionIssued
    );
    let wrong = login(&store, s("a@example.com"), s("password2"));
    let unknown = login(&store, s("nobody@example.com"), s("password1"));
    assert_eq!(wrong, LoginOutcome::AuthenticationFailed);
    assert_eq!(wrong, unknown);
}

#[test]
fn signup_with_second_factor_then_verify_code() {
    let mut store = HashmapUserStore::new();
    assert_eq!(
        signup(&mut store, req("b@example.com", "password1", true)),
        SignupOutcome::Created
    );
    assert_eq!(
        login(&store, s("b@example.com"), s("password1")),
        LoginOutcome::SecondFactorPending
    );
    let mut pending = Some(PendingSecondFactor {
        email: Email::parse(s("b@example.com")).unwrap(),
        code: s("123456"),
        expires_at: 100,
    });
    assert_eq!(
        verify_2fa(&mut pending, &s("b@example.com"), &s("654321"), 10),
        SecondFactorOutcome::AuthenticationFailed
    );
    assert!(pending.is_some());
    assert_eq!(
        verify_2fa(&mut pending, &s("b@example.com"), &s("123456"), 10),
        SecondFactorOutcome::SessionIssued(Email::parse(s("b@example.com")).unwrap())
    );
    assert!(pending.is_none());
    assert_eq!(
        verify_2fa(&mut pending, &s("b@example.com"), &s("123456"), 10),
        SecondFactorOutcome::AuthenticationFailed
    );
}

#[test]
fn lapsed_challenge_fails_like_a_wrong_code() {
    let mut pending = Some(PendingSecondFactor {
        email: Email::parse(s("c@example.com")).unwrap(),
        code: s("111111"),
        expires_at: 50,
    });
    assert_eq!(
        verify_2fa(&mut pending, &s("c@example.com"), &s("111111"), 50),
        SecondFactorOutcome::AuthenticationFailed
    );
    assert_eq!(
        verify_2fa(&mut pending, &s("c@example.com"), &s("222222"), 10),
        SecondFactorOutcome::AuthenticationFailed
    );
}

#[test]
fn code_for_another_address_is_refused() {
    let mut pending = Some(PendingSecondFactor {
        email: Email::parse(s("e@example.com")).unwrap(),
        code: s("333333"),
        expires_at: 100,
    });
    assert_eq!(
        verify_2fa(&mut pending, &s("f@example.com"), &s("333333"), 10),
        SecondFactorOutcome::AuthenticationFailed
    );
    assert!(pending.is_some());
    assert_eq!(
        verify_2fa(&mut pending, &s("e@example.com"), &s("333333"), 10),
        SecondFactorOutcome::SessionIssued(Email::parse(s("e@example.com")).unwrap())
    );
}

#[test]
fn invalid_credentials_are_rejected_before_the_store() {
    let mut store = HashmapUserStore::new();
    assert!(matches!(
        signup(&mut store, req("not-an-email", "password1", false)),
        SignupOutcome::InvalidInput(_)
    ));
    assert!(matches!(
        signup(&mut store, req("d@example.com", "short", false)),
        SignupOutcome::InvalidInput(_)
    ));
    assert!(matches!(
        login(&store, s("d@example.com"), s("short")),
        LoginOutcome::InvalidInput(_)
    ));
    assert_eq!(
        login(&store, s("d@example.com"), s("password1")),
        LoginOutcome::AuthenticationFailed
    );
}

#[test]
fn logout_twice_is_no_error() {
    let mut revoked = RevokedTokens::new();
    let token = s("token-abc");
    assert_eq!(revoked.verify_token(&token, true), TokenOutcome::Valid);
    assert_eq!(revoked.logout(&token, true), LogoutOutcome::LoggedOut);
    assert_eq!(revoked.logout(&token, true), LogoutOutcome::LoggedOut);
    assert!(revoked.is_revoked(&token));
    assert_eq!(revoked.verify_token(&token, true), TokenOutcome::Invalid);
    assert_eq!(revoked.verify_token(&s("token-def"), true), TokenOutcome::Valid);
}

#[test]
fn forged_tokens_are_refused() {
    let mut revoked = RevokedTokens::new();
    let token = s("forged");
    assert_eq!(revoked.logout(&token, false), LogoutOutcome::InvalidToken);
    assert!(!revoked.is_revoked(&token));
    assert_eq!(revoked.verify_token(&token, false), TokenOutcome::Invalid);
}
