use vstd::prelude::*;

use crate::creator::{Creator, CreatorRole};

verus! {

/// How long a session lasts: four hours, in seconds.
pub const SESSION_SECONDS: u64 = 14400;

/// The payload of a session token: who it is for, until when, whether they
/// were a publisher, and their account as it was at issuance.
#[derive(Debug)]
pub struct Claims {
    /// Expiry, in seconds since the Unix epoch.
    pub exp: u64,
    /// The username.
    pub sub: String,
    /// The account as it was when the session was issued.
    pub data: Creator,
    /// Whether the account had the publisher role when the session was issued.
    pub admin: bool,
}

/// The claims of a session issued to a creator at a time.
pub open spec fn issued(c: Creator, now: u64) -> Claims {
    Claims {
        exp: (now + SESSION_SECONDS) as u64,
        sub: c.username,
        data: c,
        admin: c.role == CreatorRole::Publisher,
    }
}

/// Why a request's session is not accepted.
#[derive(Debug, Clone, Copy, PartialEq, Eq, Structural)]
pub enum GuardError {
    /// No session cookie.
    MissingCredential,
    /// The token's signature or expiry is not valid.
    InvalidCredential,
    /// The store has no account of the session's username.
    UnknownCreator,
    /// The account's password or role changed since the session was issued.
    StaleSession,
}

/// The outcome of checking a session against the account as the store holds
/// it now.
pub open spec fn revalidate_spec(claims: Claims, live: Option<Creator>) -> Result<Claims, GuardError> {
    if !claims.wf() {
        Err(GuardError::InvalidCredential)
    } else {
        match live {
            None => Err(GuardError::UnknownCreator),
            Some(c) => if claims.data.password@ != c.password@ {
                Err(GuardError::StaleSession)
            } else if claims.admin != (c.role == CreatorRole::Publisher) {
                Err(GuardError::StaleSession)
            } else {
                Ok(claims)
            },
        }
    }
}

impl Claims {
    /// The claims agree with their own snapshot: the subject is the
    /// snapshot's username, and the publisher flag is the snapshot's role.
    /// Every issued session is so.
    pub open spec fn wf(&self) -> bool {
        &&& self.sub@ == self.data.username@
        &&& self.admin == (self.data.role == CreatorRole::Publisher)
    }

    /// A session for the creator, issued at `now`, lasting four hours.
    pub fn issue(creator: &Creator, now: u64) -> (r: Claims)
        requires
            now <= u64::MAX - SESSION_SECONDS,
        ensures
            r == issued(*creator, now),
            r.wf(),
    {
        Claims {
            exp: now + SESSION_SECONDS,
            sub: creator.username.clone(),
            data: creator.snapshot(),
            admin: creator.is_publisher(),
        }
    }

    /// Checks the session against the account that the store holds now for
    /// its username: the password hash and the role must be those that the
    /// session was issued with, so that changing either ends every session.
    /// Claims that disagree with their own snapshot were not issued here and
    /// are refused as invalid, so an accepted session is well formed.
    pub fn revalidate(self, live: Option<&Creator>) -> (r: Result<Claims, GuardError>)
        ensures
            r == revalidate_spec(
                self,
                match live {
                    Some(c) => Some(*c),
                    None => None,
                },
            ),
            r matches Ok(c) ==> c.wf(),
    {
        let consistent = self.sub == self.data.username && self.admin == self.data.is_publisher();
        if !consistent {
            return Err(GuardError::InvalidCredential);
        }
        match live {
            None => Err(GuardError::UnknownCreator),
            Some(c) => {
                if self.data.password != c.password {
                    Err(GuardError::StaleSession)
                } else if self.admin != c.is_publisher() {
                    Err(GuardError::StaleSession)
                } else {
                    Ok(self)
                }
            },
        }
    }
}

/// The first steps of the guard: a request without the session cookie has
/// no credential, and one whose token did not decode has an invalid one.
pub fn check_token(cookie_present: bool, decoded: Option<Claims>) -> (r: Result<Claims, GuardError>)
    ensures
        !cookie_present ==> r == Err::<Claims, GuardError>(GuardError::MissingCredential),
        cookie_present && decoded is None ==> r == Err::<Claims, GuardError>(
            GuardError::InvalidCredential,
        ),
        cookie_present && decoded is Some ==> r == Ok::<Claims, GuardError>(decoded.unwrap()),
{
    if !cookie_present {
        return Err(GuardError::MissingCredential);
    }
    match decoded {
        Some(c) => Ok(c),
        None => Err(GuardError::InvalidCredential),
    }
}

/// The guard for pages that work without a session: an absent session is no
/// error, a present but invalid or stale one is.
pub fn optional_claims(outcome: Result<Claims, GuardError>) -> (r: Result<Option<Claims>, GuardError>)
    ensures
        outcome matches Ok(c) ==> r == Ok::<Option<Claims>, GuardError>(Some(c)),
        outcome == Err::<Claims, GuardError>(GuardError::MissingCredential) ==> r == Ok::<
            Option<Claims>,
            GuardError,
        >(None),
        outcome is Err && outcome != Err::<Claims, GuardError>(GuardError::MissingCredential) ==> r
            == Err::<Option<Claims>, GuardError>(outcome->Err_0),
{
    match outcome {
        Ok(c) => Ok(Some(c)),
        Err(GuardError::MissingCredential) => Ok(None),
        Err(e) => Err(e),
    }
}

/// A session stops being accepted once the password hash of its creator
/// changes: checked against the account with a new hash, a session issued
/// before fails as stale.
pub proof fn lemma_password_change_stales_session(c: Creator, now: u64, changed: Creator)
    requires
        changed.password@ != c.password@,
    ensures
        revalidate_spec(issued(c, now), Some(changed)) == Err::<Claims, GuardError>(
            GuardError::StaleSession,
        ),
{
}

/// A session stops being accepted once the role of its creator changes.
pub proof fn lemma_role_change_stales_session(c: Creator, now: u64, changed: Creator)
    requires
        changed.password@ == c.password@,
        changed.role != c.role,
    ensures
        revalidate_spec(issued(c, now), Some(changed)) == Err::<Claims, GuardError>(
            GuardError::StaleSession,
        ),
{
}

/// A session checked against the unchanged account it was issued to is
/// accepted as it is.
pub proof fn lemma_unchanged_account_keeps_session(c: Creator, now: u64)
    ensures
        revalidate_spec(issued(c, now), Some(c)) == Ok::<Claims, GuardError>(issued(c, now)),
{
}

} // verus!
