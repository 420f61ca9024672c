//! The write side: registration, login, and the token-guarded favorite-city
//! mutations, each one decision over the store in a single critical section.

use vstd::prelude::*;

use crate::error::Error;
use crate::query::CityData;
use crate::store::MemoryDb;
use crate::store::with_favorites;
use crate::types::City;
use crate::types::CityV;
use crate::types::User;
use crate::types::UserV;
use crate::types::fav_insert;
use crate::types::fav_remove;

verus! {

/// The write-side entry point.
#[derive(Debug, Default)]
pub struct Mutation;

/// A registration request; duplicate emails overwrite (last write wins).
#[derive(Clone, Debug)]
pub struct SignupInput {
    pub email: String,
    pub name: String,
    pub password: String,
}

/// What a successful registration echoes back.
#[derive(Clone, Debug)]
pub struct SignupResult {
    pub email: String,
    pub name: String,
}

/// A login request: the email and the password secret, compared byte-for-byte.
#[derive(Clone, Debug)]
pub struct LoginInput {
    pub email: String,
    pub password: String,
}

/// A favorite-city mutation request: the bearer token that authorizes it and
/// the (name, country) pair it concerns.
#[derive(Clone, Debug)]
pub struct AddFavoriteCityInput {
    pub token: String,
    pub name: String,
    pub country: String,
}

/// What a successful favorite-city insertion echoes back.
#[derive(Clone, Debug)]
pub struct AddFavoriteCityResult {
    pub city: CityData,
}

/// A favorite-city removal request keyed by city name alone.
#[derive(Clone, Debug)]
pub struct RemoveFavoriteCityInput {
    pub token: String,
    pub name: String,
}

/// What a successful favorite-city removal reports.
#[derive(Clone, Debug)]
pub struct RemoveFavoriteCityResult {
    pub success: bool,
}

/// The minted bearer token a successful login returns.
#[derive(Clone, Debug)]
pub struct LoginResult {
    pub token: String,
}

/// The record a registration request creates: the given fields and an empty
/// favorite-city set.
pub open spec fn signup_user_view(i: SignupInput) -> UserV {
    UserV {
        name: i.name@,
        email: i.email@,
        password: i.password@,
        favorite_cities: Seq::empty(),
    }
}

impl From<SignupInput> for User {
    fn from(v: SignupInput) -> (r: User)
        ensures
            r@ == signup_user_view(v),
            r@.wf(),
    {
        let r = User {
            name: v.name,
            email: v.email,
            password: v.password,
            favorite_cities: Vec::new(),
        };
        proof {
            assert(crate::types::cities_view(r.favorite_cities@) =~= Seq::<CityV>::empty());
        }
        r
    }
}

impl vstd::std_specs::convert::FromSpecImpl<SignupInput> for User {
    open spec fn obeys_from_spec() -> bool {
        false
    }

    open spec fn from_spec(v: SignupInput) -> User {
        arbitrary()
    }
}

impl From<User> for SignupResult {
    fn from(v: User) -> (r: SignupResult)
        ensures
            r.email@ == v@.email,
            r.name@ == v@.name,
    {
        SignupResult { name: v.name, email: v.email }
    }
}

impl vstd::std_specs::convert::FromSpecImpl<User> for SignupResult {
    open spec fn obeys_from_spec() -> bool {
        false
    }

    open spec fn from_spec(v: User) -> SignupResult {
        arbitrary()
    }
}

impl Mutation {
    /// Registers the identity built from the input, with an empty favorite
    /// set; always succeeds, and a duplicate email overwrites the prior
    /// record (last write wins — no uniqueness error is raised).
    pub fn signup(&self, db: &mut MemoryDb, input: SignupInput) -> (r: Result<SignupResult, Error>)
        requires
            old(db).wf(),
        ensures
            final(db).wf(),
            final(db)@.users == old(db)@.users.insert(input.email@, signup_user_view(input)),
            final(db)@.sessions == old(db)@.sessions,
            r matches Ok(s) && s.email@ == input.email@ && s.name@ == input.name@,
    {
        match db.add_user(User::from(input)) {
            Ok(u) => Ok(SignupResult::from(u)),
            Err(e) => Err(e),
        }
    }

    /// Checks the password secret byte-for-byte and mints a session token on
    /// success. An unregistered email is `NoSuchAccount`, a mismatch is
    /// `BadCredentials`; each successful call issues a fresh token, so
    /// repeated logins are not idempotent.
    pub fn login(&self, db: &mut MemoryDb, input: LoginInput) -> (r: Result<LoginResult, Error>)
        requires
            old(db).wf(),
        ensures
            final(db).wf(),
            final(db)@.users == old(db)@.users,
            !old(db)@.users.contains_key(input.email@) ==> ({
                &&& r matches Err(e) && e == Error::NoSuchAccount
                &&& final(db)@.sessions == old(db)@.sessions
            }),
            old(db)@.users.contains_key(input.email@) && old(db)@.users[input.email@].password
                != input.password@ ==> ({
                &&& r matches Err(e) && e == Error::BadCredentials
                &&& final(db)@.sessions == old(db)@.sessions
            }),
            old(db)@.users.contains_key(input.email@) && old(db)@.users[input.email@].password
                == input.password@ ==> (r matches Ok(lr) && final(db)@.sessions == old(
                db,
            )@.sessions.insert(lr.token@, old(db)@.users[input.email@])),
    {
        match db.get_signed_up_user(input.email.as_str()) {
            None => Err(Error::NoSuchAccount),
            Some(user) => {
                if user.verify_password(input.password.as_str()) {
                    proof {
                        db.lemma_wf_inv();
                    }
                    match db.login_user(user) {
                        Ok(token) => Ok(LoginResult { token }),
                        Err(e) => Err(e),
                    }
                } else {
                    Err(Error::BadCredentials)
                }
            },
        }
    }

    /// Adds a favorite city for the identity the token resolves to — never
    /// for an email the caller names directly. An unknown token is denied
    /// `Unauthorized` before any lookup of the record; the insertion itself
    /// is idempotent.
    pub fn add_favorite_city(&self, db: &mut MemoryDb, input: AddFavoriteCityInput) -> (r: Result<
        AddFavoriteCityResult,
        Error,
    >)
        requires
            old(db).wf(),
        ensures
            final(db).wf(),
            final(db)@.sessions == old(db)@.sessions,
            !old(db)@.sessions.contains_key(input.token@) ==> ({
                &&& r matches Err(e) && e == Error::Unauthorized
                &&& final(db)@.users == old(db)@.users
            }),
            old(db)@.sessions.contains_key(input.token@) ==> ({
                let email = old(db)@.sessions[input.token@].email;
                let prev = old(db)@.users[email];
                let c = (CityV { name: input.name@, country: input.country@ });
                let upd = with_favorites(prev, fav_insert(prev.favorite_cities, c));
                &&& old(db)@.users.contains_key(email)
                &&& final(db)@.users == old(db)@.users.insert(email, upd)
                &&& r matches Ok(res) && res.city@ == c
            }),
    {
        match db.get_authed_user(input.token.as_str()) {
            None => Err(Error::Unauthorized),
            Some(authed) => {
                proof {
                    db.lemma_wf_inv();
                }
                let city = City { name: input.name, country: input.country };
                let echoed = city.clone();
                match db.add_favorite_city(&authed, city) {
                    Ok(_user) => Ok(AddFavoriteCityResult { city: CityData::from(echoed) }),
                    Err(e) => Err(e),
                }
            },
        }
    }

    /// Removes a favorite city for the identity the token resolves to; the
    /// removal of an absent city is a no-op, not an error.
    pub fn remove_favorite_city(&self, db: &mut MemoryDb, input: AddFavoriteCityInput) -> (r:
        Result<RemoveFavoriteCityResult, Error>)
        requires
            old(db).wf(),
        ensures
            final(db).wf(),
            final(db)@.sessions == old(db)@.sessions,
            !old(db)@.sessions.contains_key(input.token@) ==> ({
                &&& r matches Err(e) && e == Error::Unauthorized
                &&& final(db)@.users == old(db)@.users
            }),
            old(db)@.sessions.contains_key(input.token@) ==> ({
                let email = old(db)@.sessions[input.token@].email;
                let prev = old(db)@.users[email];
                let c = (CityV { name: input.name@, country: input.country@ });
                let upd = with_favorites(prev, fav_remove(prev.favorite_cities, c));
                &&& old(db)@.users.contains_key(email)
                &&& final(db)@.users == old(db)@.users.insert(email, upd)
                &&& r matches Ok(res) && res.success == true
            }),
    {
        match db.get_authed_user(input.token.as_str()) {
            None => Err(Error::Unauthorized),
            Some(authed) => {
                proof {
                    db.lemma_wf_inv();
                }
                let city = City { name: input.name, country: input.country };
                match db.remove_favorite_city(&authed, &city) {
                    Ok(_user) => Ok(RemoveFavoriteCityResult { success: true }),
                    Err(e) => Err(e),
                }
            },
        }
    }
}

} // verus!
