use vstd::prelude::*;

verus! {

/// HTTP status code for a malformed request.
pub const STATUS_BAD_REQUEST: u16 = 400;

/// HTTP status code for a missing or stale session, or a missing role.
pub const STATUS_UNAUTHORIZED: u16 = 401;

/// HTTP status code for an action that needs the publisher role.
pub const STATUS_FORBIDDEN: u16 = 403;

/// HTTP status code for an absent entity.
pub const STATUS_NOT_FOUND: u16 = 404;

/// HTTP status code for a duplicate unique key.
pub const STATUS_CONFLICT: u16 = 409;

/// HTTP status code for a failure not caused by the caller's input.
pub const STATUS_INTERNAL: u16 = 500;

/// An error as it is reported to a client: where it came from, what went
/// wrong, and the HTTP status that goes with it.
#[derive(Debug)]
pub struct Error {
    pub source: String,
    pub err_string: String,
    pub status: u16,
}

impl Error {
    pub fn create(source: &str, err_string: &str, status: u16) -> (r: Error)
        ensures
            r.source@ == source@,
            r.err_string@ == err_string@,
            r.status == status,
    {
        Error { source: source.to_string(), err_string: err_string.to_string(), status }
    }

    /// The text shown to a user: the source, a colon, and the message.
    pub fn to_string(&self) -> (r: String)
        ensures
            r@ == self.source@ + ": "@ + self.err_string@,
    {
        let mut s = self.source.clone();
        s.append(": ");
        s.append(self.err_string.as_str());
        s
    }
}

} // verus!
