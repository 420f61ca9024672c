//! The read side: resolving a token to the canonical user data, favorite
//! cities included, and the data shapes handed back to callers.

use vstd::prelude::*;

use crate::context::GqlContext;
use crate::error::Error;
use crate::types::City;
use crate::types::CityV;
use crate::types::User;
use crate::types::UserV;
use crate::types::cities_view;

verus! {

/// The read-side entry point.
#[derive(Debug, Default)]
pub struct Query {}

/// The caller-supplied argument of a user lookup; the identity itself comes
/// from the verified token, never from this input.
#[derive(Clone, Debug)]
pub struct GetUserInput {
    pub token: String,
}

/// Mathematical value of the user data returned to a caller: the canonical
/// record without its password secret.
pub ghost struct UserDataV {
    pub email: Seq<char>,
    pub name: Seq<char>,
    pub favorite_cities: Seq<CityV>,
}

/// The data a caller sees of the record `u`.
pub open spec fn user_data_view(u: UserV) -> UserDataV {
    UserDataV { email: u.email, name: u.name, favorite_cities: u.favorite_cities }
}

/// A user as handed back to callers.
#[derive(Clone, Debug)]
pub struct UserData {
    pub email: String,
    pub name: String,
    pub favorite_cities: Vec<CityData>,
}

impl View for UserData {
    type V = UserDataV;

    open spec fn view(&self) -> UserDataV {
        UserDataV {
            email: self.email@,
            name: self.name@,
            favorite_cities: self.favorite_cities@.map_values(|c: CityData| c@),
        }
    }
}

/// A city as handed back to callers.
#[derive(Clone, Debug)]
pub struct CityData {
    pub name: String,
    pub country: String,
}

impl View for CityData {
    type V = CityV;

    open spec fn view(&self) -> CityV {
        CityV { name: self.name@, country: self.country@ }
    }
}

impl From<City> for CityData {
    fn from(v: City) -> (r: CityData)
        ensures
            r@ == v@,
    {
        CityData { name: v.name, country: v.country }
    }
}

impl vstd::std_specs::convert::FromSpecImpl<City> for CityData {
    open spec fn obeys_from_spec() -> bool {
        false
    }

    open spec fn from_spec(v: City) -> CityData {
        arbitrary()
    }
}

fn cities_to_data(v: &Vec<City>) -> (r: Vec<CityData>)
    ensures
        r@.map_values(|c: CityData| c@) == cities_view(v@),
{
    let mut r: Vec<CityData> = Vec::new();
    let mut i: usize = 0;
    while i < v.len()
        invariant
            i <= v@.len(),
            r@.map_values(|c: CityData| c@) =~= cities_view(v@.take(i as int)),
        decreases v@.len() - i,
    {
        let ghost prev = r@;
        let city = v[i].clone();
        r.push(CityData { name: city.name, country: city.country });
        proof {
            assert(v@.take(i + 1 as int) =~= v@.take(i as int).push(v@[i as int]));
            assert(r@.map_values(|c: CityData| c@) =~= prev.map_values(|c: CityData| c@).push(
                r@[prev.len() as int]@,
            ));
            assert(cities_view(v@.take(i + 1 as int)) =~= cities_view(v@.take(i as int)).push(
                v@[i as int]@,
            ));
        }
        i += 1;
    }
    proof {
        assert(v@.take(v@.len() as int) =~= v@);
        assert(r@.map_values(|c: CityData| c@) =~= cities_view(v@));
    }
    r
}

impl From<User> for UserData {
    fn from(v: User) -> (r: UserData)
        ensures
            r@ == user_data_view(v@),
    {
        let favorite_cities = cities_to_data(&v.favorite_cities);
        UserData { email: v.email, name: v.name, favorite_cities }
    }
}

impl vstd::std_specs::convert::FromSpecImpl<User> for UserData {
    open spec fn obeys_from_spec() -> bool {
        false
    }

    open spec fn from_spec(v: User) -> UserData {
        arbitrary()
    }
}

impl Query {
    /// Gets the canonical user data, favorite cities included, for the
    /// identity the presented token resolves to.
    pub fn get_user<'a>(&self, ctx: &GqlContext<'a>, _input: GetUserInput) -> (r: Result<
        UserData,
        Error,
    >)
        requires
            ctx.db.wf(),
        ensures
            ctx.auth is None ==> (r matches Err(e) && e == Error::Unauthorized),
            ctx.auth matches Some(t) ==> ({
                if ctx.db@.sessions.contains_key(t@) {
                    let email = ctx.db@.sessions[t@].email;
                    &&& ctx.db@.users.contains_key(email)
                    &&& r matches Ok(d) && d@ == user_data_view(ctx.db@.users[email])
                } else {
                    r matches Err(e) && e == Error::Unauthorized
                }
            }),
    {
        match ctx.verify_token() {
            Ok(u) => Ok(UserData::from(u)),
            Err(e) => Err(e),
        }
    }
}

} // verus!
