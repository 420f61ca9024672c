//! The request context: the shared store plus the bearer credential the
//! caller presented, and the token-verification decision made from them.

use vstd::prelude::*;

use crate::error::Error;
use crate::store::MemoryDb;
use crate::types::User;

verus! {

/// One request's view of the world: a handle on the shared store and the
/// (already extracted) bearer token, if the request carried a well-formed
/// authorization header.
#[derive(Debug)]
pub struct GqlContext<'a> {
    pub db: &'a MemoryDb,
    pub auth: Option<String>,
}

impl<'a> GqlContext<'a> {
    /// Resolves the presented bearer token to the canonical identity record.
    /// A missing credential or a never-issued token is denied `Unauthorized`;
    /// a session whose backing record vanished would be denied the same way
    /// rather than panic, though the store's invariant rules that state out.
    pub fn verify_token(&self) -> (r: Result<User, Error>)
        requires
            self.db.wf(),
        ensures
            self.auth is None ==> (r matches Err(e) && e == Error::Unauthorized),
            self.auth matches Some(t) ==> ({
                if self.db@.sessions.contains_key(t@) {
                    let email = self.db@.sessions[t@].email;
                    &&& self.db@.users.contains_key(email)
                    &&& r matches Ok(u) && u@ == self.db@.users[email]
                } else {
                    r matches Err(e) && e == Error::Unauthorized
                }
            }),
    {
        match &self.auth {
            None => Err(Error::Unauthorized),
            Some(t) => {
                match self.db.get_authed_user(t.as_str()) {
                    None => Err(Error::Unauthorized),
                    Some(authed) => {
                        proof {
                            self.db.lemma_wf_inv();
                        }
                        match self.db.get_signed_up_user(authed.email.as_str()) {
                            Some(u) => Ok(u),
                            None => Err(Error::Unauthorized),
                        }
                    },
                }
            },
        }
    }
}

} // verus!
