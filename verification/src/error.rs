//! The denial taxonomy: every failed operation surfaces one of these stable
//! codes; the service never panics on a missing record or an invalid token.

use vstd::prelude::*;

verus! {

/// Why an operation was denied.
///
/// An internal inconsistency (a token that resolves while its backing record
/// is gone) is surfaced as `Unauthorized` so that no internal state leaks.
#[derive(Debug, PartialEq, Eq, Structural, Clone, Copy)]
pub enum Error {
    /// Login against an email that was never registered.
    NoSuchAccount,
    /// Login with a password that does not match the stored secret.
    BadCredentials,
    /// A missing, malformed, or never-issued token.
    Unauthorized,
}

impl Error {
    /// The stable machine-readable code of this denial.
    pub fn code(&self) -> (r: &'static str)
        ensures
            self is NoSuchAccount ==> r@ == "NO_SUCH_ACCOUNT"@,
            self is BadCredentials ==> r@ == "BAD_CREDENTIALS"@,
            self is Unauthorized ==> r@ == "UNAUTHORIZED"@,
    {
        match self {
            Error::NoSuchAccount => "NO_SUCH_ACCOUNT",
            Error::BadCredentials => "BAD_CREDENTIALS",
            Error::Unauthorized => "UNAUTHORIZED",
        }
    }

    /// The human-readable message of this denial.
    pub fn message(&self) -> (r: &'static str)
        ensures
            self is NoSuchAccount ==> r@ == "User has not signed up"@,
            self is BadCredentials ==> r@ == "Invalid credentials"@,
            self is Unauthorized ==> r@ == "Unauthorized"@,
    {
        match self {
            Error::NoSuchAccount => "User has not signed up",
            Error::BadCredentials => "Invalid credentials",
            Error::Unauthorized => "Unauthorized",
        }
    }
}

} // verus!
