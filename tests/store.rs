use auth_service::{Email, HashmapUserStore, Password, User, UserStore, UserStoreError};

fn email(s: &str) -> Email {
    Email::parse(s.to_owned()).unwrap()
}

fn password(s: &str) -> Password {
    Password::parse(s.to_owned()).unwrap()
}

#[test]
fn test_add_user() {
    let mut store = HashmapUserStore::default();
    let user = User::new(email("a@example.com"), password("password"), false);

    assert_eq!(store.add_user(user.clone()), Ok(()));
    assert_eq!(store.add_user(user), Err(UserStoreError::UserAlreadyExists));
}

#[test]
fn test_get_user() {
    let mut store = HashmapUserStore::default();
    let email_b = email("b@example.com");
    let user = User::new(email_b.clone(), password("password"), true);
    store.add_user(user.clone()).unwrap();

    assert_eq!(store.get_user(&email_b), Ok(user));
    assert_eq!(
        store.get_user(&email("missing@example.com")),
        Err(UserStoreError::UserNotFound)
    );
}

#[test]
fn test_validate_user() {
    let mut store = HashmapUserStore::default();
    let email_c = email("c@example.com");
    let pass = password("secret12");
    let user = User::new(email_c.clone(), pass.clone(), false);
    store.add_user(user).unwrap();

    assert_eq!(store.validate_user(&email_c, &pass), Ok(()));
    assert_eq!(
        store.validate_user(&email_c, &password("wrongpwd")),
        Err(UserStoreError::InvalidCredentials)
    );
    assert_eq!(
        store.validate_user(&email("missing@example.com"), &pass),
        Err(UserStoreError::UserNotFound)
    );
}

#[test]
fn duplicate_add_keeps_the_first_record() {
    let mut store = HashmapUserStore::new();
    let first = User::new(email("d@example.com"), password("password1"), false);
    let second = User::new(email("d@example.com"), password("password2"), true);
    assert_eq!(store.add_user(first.clone()), Ok(()));
    assert_eq!(store.add_user(second), Err(UserStoreError::UserAlreadyExists));
    assert_eq!(store.get_user(&email("d@example.com")), Ok(first));
}

#[test]
fn many_users_are_kept_apart() {
    let mut store = HashmapUserStore::new();
    let users: Vec<User> = (0..5)
        .map(|i| {
            User::new(
                email(&format!("user{i}@example.com")),
                password(&format!("password{i}")),
                i % 2 == 0,
            )
        })
        .collect();
    for u in &users {
        assert_eq!(store.add_user(u.clone()), Ok(()));
    }
    for u in &users {
        assert_eq!(store.get_user(&u.email), Ok(u.clone()));
        assert_eq!(store.validate_user(&u.email, &u.password), Ok(()));
    }
    assert_eq!(
        store.validate_user(&users[0].email, &users[1].password),
        Err(UserStoreError::InvalidCredentials)
    );
}

fn through_contract<S: UserStore>(store: &mut S, user: User) -> Result<User, UserStoreError> {
    store.add_user(user.clone())?;
    store.validate_user(&user.email, &user.password)?;
    store.get_user(&user.email)
}

#[test]
fn backend_works_through_the_store_contract() {
    let mut store = HashmapUserStore::new();
    let user = User::new(email("e@example.com"), password("password9"), true);
    assert_eq!(through_contract(&mut store, user.clone()), Ok(user.clone()));
    assert_eq!(
        through_contract(&mut store, user),
        Err(UserStoreError::UserAlreadyExists)
    );
}
