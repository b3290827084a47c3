use blockpress::creator::{Creator, CreatorRole};
use blockpress::session::{check_token, optional_claims, Claims, GuardError, SESSION_SECONDS};

fn creator(password: &str, role: CreatorRole) -> Creator {
    Creator {
        display_name: "Sven".to_string(),
        username: "sven".to_string(),
        password: password.to_string(),
        biography: "".to_string(),
        joined_at: 0,
        role,
    }
}

#[test]
fn issue_snapshots_the_account() {
    let c = creator("hash-a", CreatorRole::Publisher);
    let claims = Claims::issue(&c, 100);
    assert_eq!(claims.exp, 100 + SESSION_SECONDS);
    assert_eq!(SESSION_SECONDS, 14400);
    assert_eq!(claims.sub, "sven");
    assert!(claims.admin);
    assert_eq!(claims.data.password, "hash-a");
}

#[test]
fn unchanged_account_keeps_session() {
    let c = creator("hash-a", CreatorRole::Writer);
    let claims = Claims::issue(&c, 0);
    let back = claims.revalidate(Some(&c)).unwrap();
    assert_eq!(back.sub, "sven");
}

#[test]
fn password_change_makes_session_stale() {
    let c = creator("hash-a", CreatorRole::Writer);
    let claims = Claims::issue(&c, 0);
    let changed = creator("hash-b", CreatorRole::Writer);
    assert_eq!(claims.revalidate(Some(&changed)).unwrap_err(), GuardError::StaleSession);
}

#[test]
fn real_password_change_makes_session_stale() {
    let mut c = Creator::create("sven", "Sven", "old", false).unwrap();
    let claims = c.login("old").unwrap();
    c.change_password("new").unwrap();
    assert_eq!(claims.revalidate(Some(&c)).unwrap_err(), GuardError::StaleSession);
}

#[test]
fn role_change_makes_session_stale() {
    let c = creator("hash-a", CreatorRole::Writer);
    let claims = Claims::issue(&c, 0);
    let promoted = creator("hash-a", CreatorRole::Publisher);
    assert_eq!(claims.revalidate(Some(&promoted)).unwrap_err(), GuardError::StaleSession);
}

#[test]
fn unknown_account_is_refused() {
    let c = creator("hash-a", CreatorRole::Writer);
    let claims = Claims::issue(&c, 0);
    assert_eq!(claims.revalidate(None).unwrap_err(), GuardError::UnknownCreator);
}

#[test]
fn token_steps() {
    let c = creator("hash-a", CreatorRole::Writer);
    assert_eq!(check_token(false, None).unwrap_err(), GuardError::MissingCredential);
    assert_eq!(check_token(true, None).unwrap_err(), GuardError::InvalidCredential);
    assert_eq!(check_token(true, Some(Claims::issue(&c, 0))).unwrap().sub, "sven");
    assert!(optional_claims(Err(GuardError::MissingCredential)).unwrap().is_none());
    assert_eq!(optional_claims(Err(GuardError::InvalidCredential)).unwrap_err(), GuardError::InvalidCredential);
    assert!(optional_claims(Ok(Claims::issue(&c, 0))).unwrap().is_some());
}

#[test]
fn inconsistent_claims_are_invalid() {
    let c = creator("hash-a", CreatorRole::Writer);
    let mut claims = Claims::issue(&c, 0);
    claims.sub = "someone-else".to_string();
    assert_eq!(claims.revalidate(Some(&c)).unwrap_err(), GuardError::InvalidCredential);
    let mut claims = Claims::issue(&c, 0);
    claims.admin = true;
    assert_eq!(claims.revalidate(Some(&c)).unwrap_err(), GuardError::InvalidCredential);
}
