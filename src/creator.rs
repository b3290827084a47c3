use vstd::prelude::*;
use vstd::string::StringSliceAdditionalSpecFns;

use crate::clock::unix_now;
use crate::error::{Error, STATUS_BAD_REQUEST, STATUS_CONFLICT, STATUS_INTERNAL};
use crate::session::{issued, Claims, SESSION_SECONDS};

verus! {

/// The value of the password field of a locked account. It is no hash, so
/// no password matches it, and login refuses it before checking anything.
pub const LOCKED: &'static str = "LOCKED";

/// Whether a text is a PHC string that argon2 can read.
pub uninterp spec fn phc_parses(encoded: Seq<char>) -> bool;

/// Whether argon2 accepts a password against a readable PHC string.
pub uninterp spec fn argon2_accepts(password: Seq<char>, encoded: Seq<char>) -> bool;

/// Relies on password_hash::PasswordHash::parse with the default encoding:
/// whether the text is a PHC string. An empty text, or one whose first field
/// before a `$` is not empty, is refused.
#[verifier::external_body]
fn hash_is_readable(encoded: &str) -> (r: bool)
    ensures
        r == phc_parses(encoded@),
        encoded@.len() == 0 || encoded@[0] != '$' ==> !r,
{
    argon2::PasswordHash::parse(encoded, argon2::password_hash::Encoding::default()).is_ok()
}

/// Relies on argon2's PasswordVerifier::verify_password with the default
/// Argon2 instance: it recomputes the digest of the password with the
/// algorithm, parameters and salt read from the PHC string, and compares.
#[verifier::external_body]
fn argon2_verify(password: &str, encoded: &str) -> (r: bool)
    requires
        phc_parses(encoded@),
    ensures
        r == argon2_accepts(password@, encoded@),
{
    match argon2::PasswordHash::parse(encoded, argon2::password_hash::Encoding::default()) {
        Ok(parsed) => <argon2::Argon2 as argon2::PasswordVerifier>::verify_password(
            &argon2::Argon2::default(),
            password.as_bytes(),
            &parsed,
        ).is_ok(),
        Err(_) => false,
    }
}

/// Relies on argon2's PasswordHasher::hash_password with the default Argon2
/// instance and a fresh salt from the operating system (SaltString::generate
/// with OsRng). The PHC string it writes reads back, and verifying the same
/// password against it recomputes the same digest with the same salt and
/// parameters. With the default parameters and a fresh salt it fails only on
/// a password longer than `u32::MAX` bytes (argon2's MAX_PWD_LEN). The salt
/// is random, so nothing else is known of the string.
#[verifier::external_body]
fn argon2_hash(password: &str) -> (r: Option<String>)
    ensures
        r matches Some(h) ==> phc_parses(h@) && argon2_accepts(password@, h@),
        password.spec_bytes().len() <= 0xFFFF_FFFF ==> r is Some,
{
    let salt = argon2::password_hash::SaltString::generate(
        &mut argon2::password_hash::rand_core::OsRng,
    );
    match <argon2::Argon2 as argon2::PasswordHasher>::hash_password(
        &argon2::Argon2::default(),
        password.as_bytes(),
        &salt,
    ) {
        Ok(h) => Some(h.to_string()),
        Err(_) => None,
    }
}

/// What checking a password against a stored hash gives: `None` where the
/// hash cannot be read, else whether the password matches.
pub open spec fn verify_outcome(password: Seq<char>, encoded: Seq<char>) -> Option<bool> {
    if phc_parses(encoded) {
        Some(argon2_accepts(password, encoded))
    } else {
        None
    }
}

/// The role of a creator: a writer, or a publisher, who may also publish
/// texts and manage accounts.
#[derive(Debug, Clone, Copy, PartialEq, Eq, Structural)]
pub enum CreatorRole {
    Publisher,
    Writer,
}

/// A user account that can write texts.
#[derive(Debug)]
pub struct Creator {
    /// Any characters.
    pub display_name: String,
    /// Never changes; letters, digits, `_`, `-` and `.`.
    pub username: String,
    /// A PHC hash string, or the `LOCKED` sentinel.
    pub password: String,
    pub biography: String,
    /// Seconds since the Unix epoch.
    pub joined_at: i64,
    pub role: CreatorRole,
}

/// Why a login was refused.
#[derive(Debug, Clone, Copy, PartialEq, Eq, Structural)]
pub enum LoginError {
    /// The account is locked.
    Locked,
    /// The password does not match, or the stored hash cannot be read.
    WrongPassword,
    /// The clock gave a time at which no session can be issued.
    Clock,
    /// No account has the username.
    UnknownUser,
}

impl LoginError {
    /// The message shown on the login page.
    pub fn message(&self) -> (r: &'static str)
        ensures
            r@ == login_message(*self),
    {
        match self {
            LoginError::Locked => "Detta konto är låst. Kontakta din ansvariga utgivare för att låsa upp kontot.",
            LoginError::WrongPassword => "Fel lösenord",
            LoginError::Clock => "Kunde inte skapa en session",
            LoginError::UnknownUser => "Användaren finns inte!",
        }
    }
}

pub open spec fn login_message(e: LoginError) -> Seq<char> {
    match e {
        LoginError::Locked => "Detta konto är låst. Kontakta din ansvariga utgivare för att låsa upp kontot."@,
        LoginError::WrongPassword => "Fel lösenord"@,
        LoginError::Clock => "Kunde inte skapa en session"@,
        LoginError::UnknownUser => "Användaren finns inte!"@,
    }
}

/// Why a login attempt is refused before a session is issued, if it is.
pub open spec fn login_refusal(c: Creator, password: Seq<char>) -> Option<LoginError> {
    if c.password@ == LOCKED@ {
        Some(LoginError::Locked)
    } else if verify_outcome(password, c.password@) == Some(true) {
        None
    } else {
        Some(LoginError::WrongPassword)
    }
}

/// Whether a session can be issued at this time.
pub open spec fn time_in_range(now: i64) -> bool {
    0 <= now && now <= u64::MAX - SESSION_SECONDS
}

/// What a login at a given time gives.
pub open spec fn login_spec(c: Creator, password: Seq<char>, now: i64) -> Result<Claims, LoginError> {
    match login_refusal(c, password) {
        Some(e) => Err(e),
        None => if time_in_range(now) {
            Ok(issued(c, now as u64))
        } else {
            Err(LoginError::Clock)
        },
    }
}


impl Creator {
    /// The password field holds a readable hash, or the lock sentinel.
    pub open spec fn wf(&self) -> bool {
        phc_parses(self.password@) || self.password@ == LOCKED@
    }

    pub open spec fn is_publisher_spec(&self) -> bool {
        self.role == CreatorRole::Publisher
    }

    pub open spec fn is_locked(&self) -> bool {
        self.password@ == LOCKED@
    }

    /// A copy of this record.
    pub fn snapshot(&self) -> (r: Creator)
        ensures
            r == *self,
    {
        Creator {
            display_name: self.display_name.clone(),
            username: self.username.clone(),
            password: self.password.clone(),
            biography: self.biography.clone(),
            joined_at: self.joined_at,
            role: self.role,
        }
    }

    /// A salted hash of the password, as a PHC string. The password checks
    /// against it.
    pub fn hash_password(password: &str) -> (r: Result<String, Error>)
        ensures
            r matches Ok(h) ==> verify_outcome(password@, h@) == Some(true),
            password.spec_bytes().len() <= 0xFFFF_FFFF ==> r is Ok,
            r matches Err(e) ==> e.status == STATUS_INTERNAL,
    {
        match argon2_hash(password) {
            Some(h) => Ok(h),
            None => Err(Error::create("Argon2", "Failed to hash password!", STATUS_INTERNAL)),
        }
    }

    /// Whether the password matches the hash; an error where the hash cannot
    /// be read.
    pub fn verify_password(password: &str, password_hash: &str) -> (r: Result<bool, Error>)
        ensures
            r is Ok <==> verify_outcome(password@, password_hash@) is Some,
            r matches Ok(b) ==> verify_outcome(password@, password_hash@) == Some(b),
            r matches Err(e) ==> e.status == STATUS_INTERNAL,
    {
        if !hash_is_readable(password_hash) {
            return Err(Error::create("Argon2", "Password hash could not be parsed!", STATUS_INTERNAL));
        }
        Ok(argon2_verify(password, password_hash))
    }

    /// A new account, joined now, with an empty biography note. The password
    /// is stored hashed.
    pub fn create(username: &str, display_name: &str, password: &str, as_publisher: bool) -> (r:
        Result<Self, Error>)
        ensures
            r matches Ok(c) ==> {
                &&& c.wf()
                &&& c.username@ == username@
                &&& c.display_name@ == display_name@
                &&& verify_outcome(password@, c.password@) == Some(true)
                &&& c.biography@ == "Empty biography."@
                &&& c.role == (if as_publisher {
                    CreatorRole::Publisher
                } else {
                    CreatorRole::Writer
                })
            },
            password.spec_bytes().len() <= 0xFFFF_FFFF ==> r is Ok,
            r matches Err(e) ==> e.status == STATUS_INTERNAL,
    {
        let hashed = Self::hash_password(password)?;
        Ok(Creator {
            display_name: display_name.to_string(),
            username: username.to_string(),
            password: hashed,
            biography: "Empty biography.".to_string(),
            joined_at: unix_now(),
            role: if as_publisher {
                CreatorRole::Publisher
            } else {
                CreatorRole::Writer
            },
        })
    }

    /// Whether the creator has the publisher role.
    pub fn is_publisher(&self) -> (r: bool)
        ensures
            r == self.is_publisher_spec(),
    {
        self.role == CreatorRole::Publisher
    }

    /// Gives the creator the publisher role.
    pub fn promote(&mut self)
        ensures
            old(self).wf() ==> final(self).wf(),
            *final(self) == (Creator { role: CreatorRole::Publisher, ..*old(self) }),
    {
        self.role = CreatorRole::Publisher;
    }

    /// Gives the creator the writer role.
    pub fn demote(&mut self)
        ensures
            old(self).wf() ==> final(self).wf(),
            *final(self) == (Creator { role: CreatorRole::Writer, ..*old(self) }),
    {
        self.role = CreatorRole::Writer;
    }

    /// Changes the profile: each field that is given replaces the current
    /// one, and each that is not keeps it.
    pub fn update_profile(&mut self, display_name: Option<&str>, biography: Option<&str>)
        ensures
            old(self).wf() ==> final(self).wf(),
            final(self).display_name@ == (match display_name {
                Some(d) => d@,
                None => old(self).display_name@,
            }),
            final(self).biography@ == (match biography {
                Some(b) => b@,
                None => old(self).biography@,
            }),
            final(self).username == old(self).username,
            final(self).password == old(self).password,
            final(self).joined_at == old(self).joined_at,
            final(self).role == old(self).role,
    {
        if let Some(d) = display_name {
            self.display_name = d.to_string();
        }
        if let Some(b) = biography {
            self.biography = b.to_string();
        }
    }

    /// Locks the account: its password field becomes the sentinel, whatever
    /// it was, so no password logs in any more. The rest is kept.
    pub fn lock(&mut self)
        ensures
            final(self).password@ == LOCKED@,
            final(self).wf(),
            final(self).username == old(self).username,
            final(self).display_name == old(self).display_name,
            final(self).biography == old(self).biography,
            final(self).joined_at == old(self).joined_at,
            final(self).role == old(self).role,
    {
        self.password = LOCKED.to_string();
    }

    /// Replaces the password: the new one is stored hashed. On an error the
    /// record is unchanged.
    pub fn change_password(&mut self, password: &str) -> (r: Result<(), Error>)
        ensures
            r is Ok ==> verify_outcome(password@, final(self).password@) == Some(true),
            r is Err ==> *final(self) == *old(self),
            password.spec_bytes().len() <= 0xFFFF_FFFF ==> r is Ok,
            old(self).wf() ==> final(self).wf(),
            final(self).username == old(self).username,
            final(self).display_name == old(self).display_name,
            final(self).biography == old(self).biography,
            final(self).joined_at == old(self).joined_at,
            final(self).role == old(self).role,
    {
        let hashed = Self::hash_password(password)?;
        self.password = hashed;
        Ok(())
    }

    /// A creator changes their own password: the new password must be typed
    /// twice alike, and the current one must match, before anything changes.
    pub fn change_own_password(&mut self, current: &str, new: &str, confirm: &str) -> (r: Result<
        (),
        Error,
    >)
        ensures
            old(self).wf() ==> final(self).wf(),
            new@ != confirm@ ==> (r matches Err(e) && e.status == STATUS_BAD_REQUEST
                && e.err_string@ == "Password does not match!"@),
            new@ == confirm@ && verify_outcome(current@, old(self).password@) != Some(true) ==> (r
                matches Err(e) && e.status == STATUS_BAD_REQUEST && e.err_string@
                == "Password is incorrect!"@),
            r is Ok ==> new@ == confirm@ && verify_outcome(current@, old(self).password@) == Some(
                true,
            ) && verify_outcome(new@, final(self).password@) == Some(true),
            r is Err ==> *final(self) == *old(self),
            final(self).username == old(self).username,
            final(self).display_name == old(self).display_name,
            final(self).biography == old(self).biography,
            final(self).joined_at == old(self).joined_at,
            final(self).role == old(self).role,
    {
        if new.to_string() != confirm.to_string() {
            return Err(Error::create("Password check", "Password does not match!", STATUS_BAD_REQUEST));
        }
        let matches = match Self::verify_password(current, self.password.as_str()) {
            Ok(b) => b,
            Err(_) => false,
        };
        if !matches {
            return Err(Error::create("Password check", "Password is incorrect!", STATUS_BAD_REQUEST));
        }
        self.change_password(new)
    }

    /// Logs in at the given time (seconds since the Unix epoch): a locked
    /// account is refused first, then a password that does not match; else
    /// a session is issued for this record.
    pub fn login_at(&self, password: &str, now: i64) -> (r: Result<Claims, LoginError>)
        ensures
            r == login_spec(*self, password@, now),
    {
        if self.password.as_str().to_string() == LOCKED.to_string() {
            return Err(LoginError::Locked);
        }
        let matches = match Self::verify_password(password, self.password.as_str()) {
            Ok(b) => b,
            Err(_) => false,
        };
        if !matches {
            return Err(LoginError::WrongPassword);
        }
        if now < 0 {
            return Err(LoginError::Clock);
        }
        Ok(Claims::issue(self, now as u64))
    }

    /// Logs in now: as `login_at` at the time that the clock gives.
    pub fn login(&self, password: &str) -> (r: Result<Claims, LoginError>)
        ensures
            login_refusal(*self, password@) matches Some(e) ==> r == Err::<Claims, LoginError>(e),
            login_refusal(*self, password@) is None ==> r is Ok || r == Err::<Claims, LoginError>(
                LoginError::Clock,
            ),
            r matches Ok(c) ==> login_refusal(*self, password@) is None && exists|now: u64|
                c == issued(*self, now),
    {
        self.login_at(password, unix_now())
    }
}

/// A new account may not take a username that the store already holds.
pub fn ensure_new_username(taken: bool) -> (r: Result<(), Error>)
    ensures
        !taken ==> r is Ok,
        taken ==> (r matches Err(e) && e.status == STATUS_CONFLICT && e.err_string@
            == "User already exists!"@),
{
    if taken {
        return Err(Error::create("Creator", "User already exists!", STATUS_CONFLICT));
    }
    Ok(())
}

/// Logs in with the account that the store found for the username, if any:
/// an unknown username is refused first, then as `Creator::login`.
pub fn authenticate(found: Option<&Creator>, password: &str) -> (r: Result<Claims, LoginError>)
    ensures
        match found {
            None => r == Err::<Claims, LoginError>(LoginError::UnknownUser),
            Some(c) => {
                &&& (login_refusal(*c, password@) matches Some(e) ==> r == Err::<Claims, LoginError>(e))
                &&& (login_refusal(*c, password@) is None ==> r is Ok || r == Err::<Claims, LoginError>(
                    LoginError::Clock,
                ))
                &&& (r is Ok ==> login_refusal(*c, password@) is None && exists|now: u64|
                    r == Ok::<Claims, LoginError>(issued(*c, now)))
            },
        },
{
    match found {
        None => Err(LoginError::UnknownUser),
        Some(c) => c.login(password),
    }
}

/// Locking is idempotent: a locked account locked again stays locked with
/// the same sentinel, and a login on it is refused as locked, whatever the
/// password, rather than as a wrong password.
pub proof fn lemma_lock_idempotent(c: Creator, password: Seq<char>, now: i64)
    requires
        c.is_locked(),
    ensures
        login_refusal(c, password) == Some(LoginError::Locked),
        login_spec(c, password, now) == Err::<Claims, LoginError>(LoginError::Locked),
{
}

} // verus!
