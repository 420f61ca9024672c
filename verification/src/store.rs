//! The in-memory store: the canonical identity table keyed by email, and the
//! session table keyed by issued token. Every operation is a single critical
//! section over one table; mutations of favorite cities always go through the
//! canonical identity table, never through a session snapshot.

use vstd::prelude::*;

use crate::error::Error;
use crate::table::Table;
use crate::types::City;
use crate::types::User;
use crate::types::UserV;
use crate::types::fav_insert;
use crate::types::fav_remove;
use crate::types::insert_city;
use crate::types::lemma_fav_insert_props;
use crate::types::lemma_fav_remove_props;
use crate::types::remove_city;

verus! {

/// Mathematical value of the store: the identity map and the session map.
pub ghost struct DbView {
    pub users: Map<Seq<char>, UserV>,
    pub sessions: Map<Seq<char>, UserV>,
}

/// The record `u` with its favorite-city set replaced by `s`.
pub open spec fn with_favorites(u: UserV, s: Seq<crate::types::CityV>) -> UserV {
    UserV { favorite_cities: s, ..u }
}

/// The store's invariant over its mathematical value: every identity sits
/// under its own email, every stored favorite set is duplicate-free, and
/// every issued session points at a registered identity.
pub open spec fn db_inv(v: DbView) -> bool {
    &&& forall|k: Seq<char>| v.users.contains_key(k) ==> (#[trigger] v.users[k]).email == k
    &&& forall|k: Seq<char>| v.users.contains_key(k) ==> (#[trigger] v.users[k]).wf()
    &&& forall|t: Seq<char>| v.sessions.contains_key(t) ==> (#[trigger] v.sessions[t]).wf()
    &&& forall|t: Seq<char>|
        v.sessions.contains_key(t) ==> v.users.contains_key((#[trigger] v.sessions[t]).email)
}

/// Inserting a well-formed record under its own email keeps the invariant.
proof fn lemma_inv_after_user_insert(pre: DbView, post: DbView, k: Seq<char>, u: UserV)
    requires
        db_inv(pre),
        u.email == k,
        u.wf(),
        post.users == pre.users.insert(k, u),
        post.sessions == pre.sessions,
    ensures
        db_inv(post),
{
    assert forall|x: Seq<char>| post.users.contains_key(x) implies ((#[trigger] post.users[x]).email
        == x && post.users[x].wf()) by {
        if x != k {
            assert(pre.users.contains_key(x));
            assert(post.users[x] == pre.users[x]);
        }
    }
    assert forall|t: Seq<char>| post.sessions.contains_key(t) implies ((
    #[trigger] post.sessions[t]).wf() && post.users.contains_key(post.sessions[t].email)) by {
        assert(pre.sessions.contains_key(t));
        assert(pre.users.contains_key(pre.sessions[t].email));
    }
}

/// Relies on uuid::Uuid::new_v4 printed through Display: an opaque,
/// high-entropy random identifier. Nothing is promised of its value;
/// in particular two calls may or may not return distinct strings.
#[verifier::external_body]
fn mint_token() -> (r: String) {
    uuid::Uuid::new_v4().to_string()
}

/// The shared mutable store; identities and sessions each form one logical
/// table, mutually exclusive per table when shared between tasks.
#[derive(Debug)]
pub struct MemoryDb {
    users: Table,
    authed_users: Table,
}

impl View for MemoryDb {
    type V = DbView;

    closed spec fn view(&self) -> DbView {
        DbView { users: self.users@, sessions: self.authed_users@ }
    }
}

impl MemoryDb {
    /// Both tables keep their keys unique and their records well-formed.
    pub closed spec fn wf(&self) -> bool {
        self.users.wf() && self.authed_users.wf() && db_inv(self@)
    }

    /// A well-formed store satisfies the visible invariant on its value.
    pub proof fn lemma_wf_inv(&self)
        requires
            self.wf(),
        ensures
            db_inv(self@),
    {
    }

    pub fn new() -> (r: MemoryDb)
        ensures
            r.wf(),
            r@.users == Map::<Seq<char>, UserV>::empty(),
            r@.sessions == Map::<Seq<char>, UserV>::empty(),
    {
        MemoryDb { users: Table::new(), authed_users: Table::new() }
    }

    /// Inserts or overwrites the record keyed by the identity's email: always
    /// succeeds, last write wins on duplicate registration, and the stored
    /// record is returned.
    pub fn add_user(&mut self, user: User) -> (r: Result<User, Error>)
        requires
            old(self).wf(),
            user@.wf(),
        ensures
            final(self).wf(),
            final(self)@.users == old(self)@.users.insert(user@.email, user@),
            final(self)@.sessions == old(self)@.sessions,
            r matches Ok(u) && u@ == user@,
    {
        let key = user.email.clone();
        let stored = user.clone();
        self.users.insert(key, stored);
        proof {
            lemma_inv_after_user_insert(old(self)@, self@, user@.email, user@);
        }
        Ok(user)
    }

    /// Mints an opaque random token, stores the token→identity snapshot, and
    /// returns the token; the identity must already be registered, so that
    /// every issued token resolves to a canonical record.
    pub fn login_user(&mut self, user: User) -> (r: Result<String, Error>)
        requires
            old(self).wf(),
            user@.wf(),
            old(self)@.users.contains_key(user@.email),
        ensures
            final(self).wf(),
            final(self)@.users == old(self)@.users,
            r matches Ok(t) && final(self)@.sessions == old(self)@.sessions.insert(t@, user@),
    {
        let token = mint_token();
        let ghost user_v = user@;
        let key = token.clone();
        self.authed_users.insert(key, user);
        proof {
            assert(db_inv(self@)) by {
                assert forall|t: Seq<char>| self@.sessions.contains_key(t) implies ((
                #[trigger] self@.sessions[t]).wf() && self@.users.contains_key(
                    self@.sessions[t].email,
                )) by {
                    if t != token@ {
                        assert(old(self)@.sessions.contains_key(t));
                        assert(self@.sessions[t] == old(self)@.sessions[t]);
                    } else {
                        assert(self@.sessions[t] == user_v);
                    }
                }
            }
        }
        Ok(token)
    }

    /// Exact-match lookup of a registered identity by email; case-sensitive,
    /// no trimming or normalization.
    pub fn get_signed_up_user(&self, email: &str) -> (r: Option<User>)
        requires
            self.wf(),
        ensures
            r matches Some(u) ==> self@.users.contains_key(email@) && u@ == self@.users[email@],
            r is None ==> !self@.users.contains_key(email@),
    {
        match self.users.get(email) {
            Some(u) => Some(u.clone()),
            None => None,
        }
    }

    /// Exact-match lookup of the identity snapshot a token was issued for.
    /// The snapshot's favorite cities can go stale: callers re-resolve the
    /// canonical record by email before acting on them.
    pub fn get_authed_user(&self, token: &str) -> (r: Option<User>)
        requires
            self.wf(),
        ensures
            r matches Some(u) ==> self@.sessions.contains_key(token@) && u@ == self@.sessions[token@],
            r is None ==> !self@.sessions.contains_key(token@),
    {
        match self.authed_users.get(token) {
            Some(u) => Some(u.clone()),
            None => None,
        }
    }

    /// Loads the canonical record keyed by the user's email — absence is an
    /// authorization failure, not a mere "not found" — then inserts the city
    /// into the favorite set (idempotent when already present) and returns
    /// the updated record. One single critical section: load, update and
    /// store happen atomically with respect to other operations.
    pub fn add_favorite_city(&mut self, user: &User, city: City) -> (r: Result<User, Error>)
        requires
            old(self).wf(),
        ensures
            final(self).wf(),
            final(self)@.sessions == old(self)@.sessions,
            !old(self)@.users.contains_key(user@.email) ==> ({
                &&& final(self)@.users == old(self)@.users
                &&& r matches Err(e) && e == Error::Unauthorized
            }),
            old(self)@.users.contains_key(user@.email) ==> ({
                let prev = old(self)@.users[user@.email];
                let upd = with_favorites(prev, fav_insert(prev.favorite_cities, city@));
                &&& final(self)@.users == old(self)@.users.insert(user@.email, upd)
                &&& r matches Ok(u) && u@ == upd
            }),
    {
        match self.users.get(user.email.as_str()) {
            None => Err(Error::Unauthorized),
            Some(existing) => {
                let ghost prev = old(self)@.users[user@.email];
                let mut updated = existing.clone();
                proof {
                    lemma_fav_insert_props(prev.favorite_cities, city@);
                }
                insert_city(&mut updated.favorite_cities, city);
                let ghost upd = with_favorites(prev, fav_insert(prev.favorite_cities, city@));
                proof {
                    assert(updated@ == upd);
                    assert(upd.email == user@.email);
                    assert(upd.wf());
                }
                let out = updated.clone();
                let key = updated.email.clone();
                self.users.insert(key, updated);
                proof {
                    lemma_inv_after_user_insert(old(self)@, self@, user@.email, upd);
                }
                Ok(out)
            },
        }
    }

    /// Loads the canonical record keyed by the user's email — absence is an
    /// authorization failure — then removes the city from the favorite set
    /// (a no-op, not an error, when absent) and returns the updated record.
    pub fn remove_favorite_city(&mut self, user: &User, city: &City) -> (r: Result<User, Error>)
        requires
            old(self).wf(),
        ensures
            final(self).wf(),
            final(self)@.sessions == old(self)@.sessions,
            !old(self)@.users.contains_key(user@.email) ==> ({
                &&& final(self)@.users == old(self)@.users
                &&& r matches Err(e) && e == Error::Unauthorized
            }),
            old(self)@.users.contains_key(user@.email) ==> ({
                let prev = old(self)@.users[user@.email];
                let upd = with_favorites(prev, fav_remove(prev.favorite_cities, city@));
                &&& final(self)@.users == old(self)@.users.insert(user@.email, upd)
                &&& r matches Ok(u) && u@ == upd
            }),
    {
        match self.users.get(user.email.as_str()) {
            None => Err(Error::Unauthorized),
            Some(existing) => {
                let ghost prev = old(self)@.users[user@.email];
                let mut updated = existing.clone();
                proof {
                    lemma_fav_remove_props(prev.favorite_cities, city@);
                }
                remove_city(&mut updated.favorite_cities, city);
                let ghost upd = with_favorites(prev, fav_remove(prev.favorite_cities, city@));
                proof {
                    assert(updated@ == upd);
                    assert(upd.email == user@.email);
                    assert(upd.wf());
                }
                let out = updated.clone();
                let key = updated.email.clone();
                self.users.insert(key, updated);
                proof {
                    lemma_inv_after_user_insert(old(self)@, self@, user@.email, upd);
                }
                Ok(out)
            },
        }
    }
}

impl Default for MemoryDb {
    /// The default store is the empty one.
    fn default() -> (r: MemoryDb)
        ensures
            r.wf(),
            r@.users == Map::<Seq<char>, UserV>::empty(),
            r@.sessions == Map::<Seq<char>, UserV>::empty(),
    {
        MemoryDb::new()
    }
}

} // verus!
