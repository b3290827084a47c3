use blockpress::creator::{authenticate, Creator, CreatorRole, LoginError, LOCKED};

#[test]
fn password_verifies_against_its_hash() {
    let hash = Creator::hash_password("hunter2").unwrap();
    assert!(hash.starts_with("$argon2"));
    assert!(Creator::verify_password("hunter2", &hash).unwrap());
    assert!(!Creator::verify_password("hunter3", &hash).unwrap());
}

#[test]
fn malformed_hash_is_an_error() {
    let err = Creator::verify_password("x", "not a hash").unwrap_err();
    assert_eq!(err.status, 500);
}

#[test]
fn create_hashes_the_password() {
    let c = Creator::create("sven.svensson", "Sven Svensson", "123", false).unwrap();
    assert_eq!(c.username, "sven.svensson");
    assert_eq!(c.display_name, "Sven Svensson");
    assert_eq!(c.role, CreatorRole::Writer);
    assert_ne!(c.password, "123");
    assert!(Creator::verify_password("123", &c.password).unwrap());
    let p = Creator::create("boss", "Boss", "pw", true).unwrap();
    assert!(p.is_publisher());
}

#[test]
fn locking_twice_keeps_the_sentinel_and_login_says_locked() {
    let mut c = Creator::create("anna", "Anna", "secret", false).unwrap();
    assert!(c.login("secret").is_ok());
    c.lock();
    c.lock();
    assert_eq!(c.password, LOCKED);
    assert_eq!(c.login("secret").unwrap_err(), LoginError::Locked);
    assert_eq!(c.login("LOCKED").unwrap_err(), LoginError::Locked);
    assert_eq!(
        LoginError::Locked.message(),
        "Detta konto är låst. Kontakta din ansvariga utgivare för att låsa upp kontot."
    );
    assert_ne!(LoginError::Locked.message(), LoginError::WrongPassword.message());
}

#[test]
fn login_outcomes() {
    let c = Creator::create("anna", "Anna", "secret", true).unwrap();
    assert_eq!(authenticate(None, "secret").unwrap_err(), LoginError::UnknownUser);
    assert_eq!(authenticate(Some(&c), "wrong").unwrap_err(), LoginError::WrongPassword);
    let claims = authenticate(Some(&c), "secret").unwrap();
    assert_eq!(claims.sub, "anna");
    assert!(claims.admin);
    assert_eq!(claims.data.password, c.password);
    assert_eq!(LoginError::WrongPassword.message(), "Fel lösenord");
}

#[test]
fn login_at_a_time_sets_expiry() {
    let c = Creator::create("anna", "Anna", "secret", false).unwrap();
    let claims = c.login_at("secret", 1_000).unwrap();
    assert_eq!(claims.exp, 1_000 + 4 * 60 * 60);
    assert!(!claims.admin);
    assert_eq!(c.login_at("secret", -1).unwrap_err(), LoginError::Clock);
}

#[test]
fn change_own_password_checks_first() {
    let mut c = Creator::create("anna", "Anna", "old", false).unwrap();
    let before = c.password.clone();
    let e = c.change_own_password("old", "new1", "new2").unwrap_err();
    assert_eq!(e.err_string, "Password does not match!");
    assert_eq!(e.status, 400);
    let e = c.change_own_password("wrong", "new", "new").unwrap_err();
    assert_eq!(e.err_string, "Password is incorrect!");
    assert_eq!(c.password, before);
    c.change_own_password("old", "new", "new").unwrap();
    assert_ne!(c.password, before);
    assert!(Creator::verify_password("new", &c.password).unwrap());
}

#[test]
fn roles_and_profile() {
    let mut c = Creator {
        display_name: "A".to_string(),
        username: "a".to_string(),
        password: "h".to_string(),
        biography: "B".to_string(),
        joined_at: 0,
        role: CreatorRole::Writer,
    };
    c.promote();
    assert!(c.is_publisher());
    c.demote();
    assert!(!c.is_publisher());
    c.update_profile(Some("New"), None);
    assert_eq!(c.display_name, "New");
    assert_eq!(c.biography, "B");
    c.update_profile(None, Some("Bio"));
    assert_eq!(c.display_name, "New");
    assert_eq!(c.biography, "Bio");
}

#[test]
fn taken_username_conflicts() {
    assert!(blockpress::creator::ensure_new_username(false).is_ok());
    let e = blockpress::creator::ensure_new_username(true).unwrap_err();
    assert_eq!(e.status, 409);
    assert_eq!(e.err_string, "User already exists!");
    assert_eq!(e.to_string(), "Creator: User already exists!");
}

#[test]
fn correct_login_gets_a_session() {
    let c = Creator::create("berit", "Berit", "rätt", false).unwrap();
    let claims = authenticate(Some(&c), "rätt").unwrap();
    assert_eq!(claims.sub, "berit");
    assert_eq!(claims.data.username, "berit");
    assert!(!claims.admin);
}

#[test]
fn failed_password_change_keeps_record() {
    let mut c = Creator::create("berit", "Berit", "old", false).unwrap();
    let before = c.password.clone();
    assert!(c.change_own_password("old", "a", "b").is_err());
    assert!(c.change_own_password("nope", "a", "a").is_err());
    assert_eq!(c.password, before);
}
