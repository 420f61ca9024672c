//! The identity records: a `User` keyed by email, and the `City` pairs that
//! make up a user's favorite-city set.

use vstd::prelude::*;

verus! {

/// Mathematical value of a `City`: the (name, country) pair as character
/// sequences. Two cities are the same exactly when both components agree.
pub ghost struct CityV {
    pub name: Seq<char>,
    pub country: Seq<char>,
}

/// A favorite city, compared and deduplicated by the pair (name, country).
#[derive(Debug, Eq, Hash)]
pub struct City {
    pub name: String,
    pub country: String,
}

impl View for City {
    type V = CityV;

    open spec fn view(&self) -> CityV {
        CityV { name: self.name@, country: self.country@ }
    }
}

impl PartialEq for City {
    fn eq(&self, other: &City) -> (r: bool) {
        self.name == other.name && self.country == other.country
    }
}

impl vstd::std_specs::cmp::PartialEqSpecImpl for City {
    open spec fn obeys_eq_spec() -> bool {
        true
    }

    open spec fn eq_spec(&self, other: &City) -> bool {
        self@ == other@
    }
}

impl Clone for City {
    fn clone(&self) -> (r: Self)
        ensures
            r@ == self@,
    {
        City { name: self.name.clone(), country: self.country.clone() }
    }
}

/// Mathematical value of a `User` record. The favorite cities are carried as
/// a duplicate-free sequence standing for a set.
pub ghost struct UserV {
    pub name: Seq<char>,
    pub email: Seq<char>,
    pub password: Seq<char>,
    pub favorite_cities: Seq<CityV>,
}

impl UserV {
    /// A well-formed record keeps its favorite cities as a true set:
    /// no (name, country) pair occurs twice.
    pub open spec fn wf(&self) -> bool {
        self.favorite_cities.no_duplicates()
    }
}

/// The cities of a vector, as mathematical values, in order.
pub open spec fn cities_view(s: Seq<City>) -> Seq<CityV> {
    s.map_values(|c: City| c@)
}

/// A registered identity: email is the unique key, the password secret is
/// compared byte-for-byte, and the favorite cities form a set.
#[derive(Debug)]
pub struct User {
    pub name: String,
    pub email: String,
    pub password: String,
    pub favorite_cities: Vec<City>,
}

impl View for User {
    type V = UserV;

    open spec fn view(&self) -> UserV {
        UserV {
            name: self.name@,
            email: self.email@,
            password: self.password@,
            favorite_cities: cities_view(self.favorite_cities@),
        }
    }
}

impl Clone for User {
    fn clone(&self) -> (r: Self)
        ensures
            r@ == self@,
    {
        let r = User {
            name: self.name.clone(),
            email: self.email.clone(),
            password: self.password.clone(),
            favorite_cities: clone_cities(&self.favorite_cities),
        };
        r
    }
}

impl User {
    /// Compares the stored password secret with the presented one,
    /// byte for byte; no hashing takes place in this design.
    pub fn verify_password(&self, input_password: &str) -> (r: bool)
        ensures
            r == (self.password@ == input_password@),
    {
        if str_eq(self.password.as_str(), input_password) {
            true
        } else {
            false
        }
    }
}

/// Relies on str's `PartialEq`: two string slices are equal exactly when
/// their character sequences are equal.
#[verifier::external_body]
pub(crate) fn str_eq(a: &str, b: &str) -> (r: bool)
    ensures
        r == (a@ == b@),
{
    a == b
}

fn clone_cities(v: &Vec<City>) -> (r: Vec<City>)
    ensures
        cities_view(r@) == cities_view(v@),
{
    let mut r: Vec<City> = Vec::new();
    let mut i: usize = 0;
    while i < v.len()
        invariant
            i <= v@.len(),
            cities_view(r@) =~= cities_view(v@.take(i as int)),
        decreases v@.len() - i,
    {
        let ghost prev = r@;
        r.push(v[i].clone());
        proof {
            assert(v@.take(i + 1 as int) =~= v@.take(i as int).push(v@[i as int]));
            assert(cities_view(r@) =~= cities_view(prev).push(r@[prev.len() as int]@));
            assert(cities_view(v@.take(i + 1 as int)) =~= cities_view(v@.take(i as int)).push(
                v@[i as int]@,
            ));
        }
        i += 1;
    }
    proof {
        assert(v@.take(v@.len() as int) =~= v@);
        assert(cities_view(r@) =~= cities_view(v@));
    }
    r
}

/// Set-insert on a favorite-city sequence: a no-op when the pair is already
/// present (idempotent), otherwise the pair is appended.
pub open spec fn fav_insert(s: Seq<CityV>, c: CityV) -> Seq<CityV> {
    if s.contains(c) {
        s
    } else {
        s.push(c)
    }
}

/// Set-remove on a favorite-city sequence: a no-op when the pair is absent,
/// otherwise its (single) occurrence is taken out.
pub open spec fn fav_remove(s: Seq<CityV>, c: CityV) -> Seq<CityV> {
    s.remove_value(c)
}

/// Set-insert of each city of `cs` in turn, left to right.
pub open spec fn fav_insert_all(s: Seq<CityV>, cs: Seq<CityV>) -> Seq<CityV>
    decreases cs.len(),
{
    if cs.len() == 0 {
        s
    } else {
        fav_insert(fav_insert_all(s, cs.drop_last()), cs.last())
    }
}

pub proof fn lemma_no_dup_push<A>(s: Seq<A>, x: A)
    requires
        s.no_duplicates(),
        !s.contains(x),
    ensures
        s.push(x).no_duplicates(),
{
    assert forall|i: int, j: int|
        (0 <= i < s.push(x).len() && 0 <= j < s.push(x).len() && i != j) implies s.push(x)[i]
        != s.push(x)[j] by {
        if i < s.len() && j < s.len() {
        } else if j == s.len() {
            assert(s[i] != x);
        } else {
            assert(s[j] != x);
        }
    }
}

/// What set-insert does to membership, cardinality and well-formedness.
pub proof fn lemma_fav_insert_props(s: Seq<CityV>, c: CityV)
    requires
        s.no_duplicates(),
    ensures
        fav_insert(s, c).no_duplicates(),
        fav_insert(s, c).contains(c),
        forall|x: CityV| #[trigger] fav_insert(s, c).contains(x) <==> (s.contains(x) || x == c),
        s.contains(c) ==> fav_insert(s, c) == s,
        !s.contains(c) ==> fav_insert(s, c).len() == s.len() + 1,
{
    if !s.contains(c) {
        lemma_no_dup_push(s, c);
        assert(s.push(c)[s.len() as int] == c);
        assert forall|x: CityV| #[trigger] s.push(c).contains(x) implies (s.contains(x) || x
            == c) by {
            let k = choose|k: int| 0 <= k < s.push(c).len() && s.push(c)[k] == x;
            if k < s.len() {
                assert(s[k] == x);
            }
        }
        assert forall|x: CityV| (s.contains(x) || x == c) implies #[trigger] s.push(c).contains(
            x,
        ) by {
            if s.contains(x) {
                let k = choose|k: int| 0 <= k < s.len() && s[k] == x;
                assert(s.push(c)[k] == x);
            } else {
                assert(s.push(c)[s.len() as int] == x);
            }
        }
    }
}

/// What set-remove does to membership, cardinality and well-formedness.
pub proof fn lemma_fav_remove_props(s: Seq<CityV>, c: CityV)
    requires
        s.no_duplicates(),
    ensures
        fav_remove(s, c).no_duplicates(),
        forall|x: CityV| #[trigger] fav_remove(s, c).contains(x) <==> (s.contains(x) && x != c),
        !s.contains(c) ==> fav_remove(s, c) == s,
        s.contains(c) ==> fav_remove(s, c).len() == s.len() - 1,
{
    s.index_of_first_ensures(c);
    if s.contains(c) {
        let i = s.index_of_first(c)->Some_0;
        s.remove_ensures(i);
        let r = s.remove(i);
        assert forall|x: CityV| #[trigger] r.contains(x) implies (s.contains(x) && x != c) by {
            let k = choose|k: int| 0 <= k < r.len() && r[k] == x;
            if k < i {
                assert(s[k] == x);
                assert(x != c) by {
                    if x == c {
                        assert(s[k] == s[i]);
                    }
                }
            } else {
                assert(s[k + 1] == x);
                assert(x != c) by {
                    if x == c {
                        assert(s[k + 1] == s[i]);
                    }
                }
            }
        }
        assert forall|x: CityV| (s.contains(x) && x != c) implies #[trigger] r.contains(x) by {
            let k = choose|k: int| 0 <= k < s.len() && s[k] == x;
            if k < i {
                assert(r[k] == x);
            } else {
                assert(k != i);
                assert(r[k - 1] == x);
            }
        }
        assert forall|p: int, q: int|
            (0 <= p < r.len() && 0 <= q < r.len() && p != q) implies r[p] != r[q] by {
            let p0: int = if p < i {
                p
            } else {
                p + 1
            };
            let q0: int = if q < i {
                q
            } else {
                q + 1
            };
            assert(r[p] == s[p0]);
            assert(r[q] == s[q0]);
        }
    }
}

/// Whether the pair `c` is already among the favorites.
pub(crate) fn contains_city(v: &Vec<City>, c: &City) -> (r: bool)
    ensures
        r == cities_view(v@).contains(c@),
{
    let mut i: usize = 0;
    while i < v.len()
        invariant
            i <= v@.len(),
            forall|j: int| 0 <= j < i ==> cities_view(v@)[j] != c@,
        decreases v@.len() - i,
    {
        if v[i] == *c {
            proof {
                assert(cities_view(v@)[i as int] == c@);
            }
            return true;
        }
        i += 1;
    }
    false
}

/// Inserts the pair into the favorite set; idempotent when already present.
pub(crate) fn insert_city(v: &mut Vec<City>, c: City)
    requires
        cities_view(old(v)@).no_duplicates(),
    ensures
        cities_view(final(v)@) == fav_insert(cities_view(old(v)@), c@),
{
    let present = contains_city(v, &c);
    if !present {
        v.push(c);
        proof {
            assert(cities_view(v@) =~= cities_view(old(v)@).push(v@[old(v)@.len() as int]@));
        }
    }
}

/// Removes the pair from the favorite set; a no-op when absent.
pub(crate) fn remove_city(v: &mut Vec<City>, c: &City)
    requires
        cities_view(old(v)@).no_duplicates(),
    ensures
        cities_view(final(v)@) == fav_remove(cities_view(old(v)@), c@),
{
    let ghost s = cities_view(v@);
    let mut i: usize = 0;
    while i < v.len()
        invariant
            i <= v@.len(),
            v@ == old(v)@,
            s == cities_view(v@),
            forall|j: int| 0 <= j < i ==> cities_view(v@)[j] != c@,
        decreases v@.len() - i,
    {
        if v[i] == *c {
            proof {
                assert(s[i as int] == c@);
                s.index_of_first_ensures(c@);
                assert(s.contains(c@));
                let idx = s.index_of_first(c@)->Some_0;
                assert(s[idx] == c@);
                assert(idx == i as int) by {
                    if idx < i as int {
                        assert(s[idx] != c@);
                    }
                    if (i as int) < idx {
                        assert(s[i as int] != c@);
                    }
                }
                s.remove_ensures(i as int);
            }
            v.remove(i);
            proof {
                assert(cities_view(v@) =~= s.remove(i as int)) by {
                    assert(v@ =~= old(v)@.remove(i as int));
                    old(v)@.remove_ensures(i as int);
                    assert forall|k: int| 0 <= k < v@.len() implies cities_view(v@)[k] == s.remove(
                        i as int,
                    )[k] by {
                        if k < i as int {
                            assert(v@[k] == old(v)@[k]);
                        } else {
                            assert(v@[k] == old(v)@[k + 1]);
                        }
                    }
                }
            }
            return;
        }
        i += 1;
    }
    proof {
        assert(!s.contains(c@));
        s.index_of_first_ensures(c@);
    }
}

} // verus!
