//! The laws the store obeys, stated over the mathematical values that the
//! operations' contracts speak of and proved once and for all inputs.

use vstd::prelude::*;

use crate::mutation::SignupInput;
use crate::mutation::signup_user_view;
use crate::store::DbView;
use crate::types::CityV;
use crate::types::fav_insert;
use crate::types::fav_insert_all;
use crate::types::fav_remove;
use crate::types::lemma_fav_insert_props;
use crate::types::lemma_fav_remove_props;

verus! {

/// Law: a just-registered identity is immediately found under its email,
/// with exactly the registered name and password and an empty favorite set.
pub proof fn lemma_find_after_signup(users: Map<Seq<char>, crate::types::UserV>, input: SignupInput)
    ensures
        ({
            let after = users.insert(input.email@, signup_user_view(input));
            &&& after.contains_key(input.email@)
            &&& after[input.email@] == signup_user_view(input)
            &&& after[input.email@].name == input.name@
            &&& after[input.email@].password == input.password@
            &&& after[input.email@].favorite_cities.len() == 0
        }),
{
}

/// Law: registering the same email twice overwrites the prior record — the
/// later registration wins and is all that a lookup sees.
pub proof fn lemma_register_last_write_wins(
    users: Map<Seq<char>, crate::types::UserV>,
    u1: crate::types::UserV,
    u2: crate::types::UserV,
)
    requires
        u1.email == u2.email,
    ensures
        users.insert(u1.email, u1).insert(u2.email, u2) == users.insert(u2.email, u2),
        users.insert(u1.email, u1).insert(u2.email, u2)[u2.email] == u2,
{
    assert(users.insert(u1.email, u1).insert(u2.email, u2) =~= users.insert(u2.email, u2));
}

/// Law: two sequential logins for one registered identity leave both issued
/// tokens independently resolvable to that identity. The hypothesis that the
/// two tokens differ is needed: minting is random and cannot itself rule out
/// a collision, in which case the later session overwrites the earlier one.
pub proof fn lemma_two_logins_both_verify(
    db: DbView,
    u: crate::types::UserV,
    t1: Seq<char>,
    t2: Seq<char>,
)
    requires
        t1 != t2,
        db.users.contains_key(u.email),
    ensures
        ({
            let sessions2 = db.sessions.insert(t1, u).insert(t2, u);
            &&& sessions2.contains_key(t1) && sessions2[t1] == u
            &&& sessions2.contains_key(t2) && sessions2[t2] == u
            &&& db.users.contains_key(sessions2[t1].email)
            &&& db.users.contains_key(sessions2[t2].email)
        }),
{
}

/// Law: inserting the same city twice is idempotent — the set after the
/// second insert equals the set after the first, and from an empty set the
/// result has exactly one member.
pub proof fn lemma_add_favorite_idempotent(s: Seq<CityV>, c: CityV)
    requires
        s.no_duplicates(),
    ensures
        fav_insert(fav_insert(s, c), c) == fav_insert(s, c),
        s.len() == 0 ==> fav_insert(fav_insert(s, c), c).len() == 1,
{
    lemma_fav_insert_props(s, c);
    lemma_fav_insert_props(fav_insert(s, c), c);
}

/// Law: removing a city that is not in the favorite set is a no-op,
/// not an error.
pub proof fn lemma_remove_absent_is_noop(s: Seq<CityV>, c: CityV)
    requires
        s.no_duplicates(),
        !s.contains(c),
    ensures
        fav_remove(s, c) == s,
{
    lemma_fav_remove_props(s, c);
}

/// Law: as sets, two favorite-city insertions commute — whichever of two
/// concurrent adds is serialized first, both apply and neither is lost.
pub proof fn lemma_add_add_commute(s: Seq<CityV>, c1: CityV, c2: CityV)
    requires
        s.no_duplicates(),
    ensures
        fav_insert(fav_insert(s, c1), c2).to_set() == fav_insert(fav_insert(s, c2), c1).to_set(),
{
    lemma_fav_insert_props(s, c1);
    lemma_fav_insert_props(s, c2);
    lemma_fav_insert_props(fav_insert(s, c1), c2);
    lemma_fav_insert_props(fav_insert(s, c2), c1);
    assert(fav_insert(fav_insert(s, c1), c2).to_set() =~= fav_insert(
        fav_insert(s, c2),
        c1,
    ).to_set());
}

/// Law: as sets, an insertion and a removal of two different cities commute —
/// both apply, in either serialization, with no lost update.
pub proof fn lemma_add_remove_commute(s: Seq<CityV>, c1: CityV, c2: CityV)
    requires
        s.no_duplicates(),
        c1 != c2,
    ensures
        fav_remove(fav_insert(s, c1), c2).to_set() == fav_insert(
            fav_remove(s, c2),
            c1,
        ).to_set(),
{
    lemma_fav_insert_props(s, c1);
    lemma_fav_remove_props(s, c2);
    lemma_fav_remove_props(fav_insert(s, c1), c2);
    lemma_fav_insert_props(fav_remove(s, c2), c1);
    assert(fav_remove(fav_insert(s, c1), c2).to_set() =~= fav_insert(
        fav_remove(s, c2),
        c1,
    ).to_set());
}

/// Law: distinct adds all apply — inserting pairwise-distinct cities into the
/// empty favorite set, one after the other, yields a set with exactly one
/// member per city, as in a race of one add per distinct city.
pub proof fn lemma_distinct_adds_all_apply(cs: Seq<CityV>)
    requires
        cs.no_duplicates(),
    ensures
        fav_insert_all(Seq::<CityV>::empty(), cs).no_duplicates(),
        fav_insert_all(Seq::<CityV>::empty(), cs).len() == cs.len(),
        forall|x: CityV| #[trigger] fav_insert_all(Seq::<CityV>::empty(), cs).contains(x)
            <==> cs.contains(x),
    decreases cs.len(),
{
    let e = Seq::<CityV>::empty();
    if cs.len() == 0 {
        assert(fav_insert_all(e, cs) == e);
        assert forall|x: CityV| !(#[trigger] e.contains(x)) && !cs.contains(x) by {
        }
    } else {
        let cs0 = cs.drop_last();
        let c = cs.last();
        assert(cs0.no_duplicates());
        lemma_distinct_adds_all_apply(cs0);
        let f0 = fav_insert_all(e, cs0);
        lemma_fav_insert_props(f0, c);
        assert(!cs0.contains(c)) by {
            if cs0.contains(c) {
                let j = choose|j: int| 0 <= j < cs0.len() && cs0[j] == c;
                assert(cs[j] == cs[cs.len() - 1]);
            }
        }
        assert(fav_insert_all(e, cs) == fav_insert(f0, c));
        assert(!f0.contains(c));
        assert forall|x: CityV| #[trigger] fav_insert_all(e, cs).contains(x) implies cs.contains(
            x,
        ) by {
            if f0.contains(x) {
                assert(cs0.contains(x));
                let j = choose|j: int| 0 <= j < cs0.len() && cs0[j] == x;
                assert(cs[j] == x);
            } else {
                assert(x == c);
                assert(cs[cs.len() - 1] == x);
            }
        }
        assert forall|x: CityV| cs.contains(x) implies #[trigger] fav_insert_all(e, cs).contains(
            x,
        ) by {
            let j = choose|j: int| 0 <= j < cs.len() && cs[j] == x;
            if j < cs.len() - 1 {
                assert(cs0[j] == x);
                assert(cs0.contains(x));
            }
        }
    }
}

} // verus!
