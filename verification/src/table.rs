//! The keyed in-memory table standing behind both logical stores (identities
//! keyed by email, sessions keyed by token): a vector of entries with
//! pairwise-distinct keys, viewed as a map from key to record value.

use vstd::prelude::*;

use crate::types::User;
use crate::types::UserV;
use crate::types::lemma_no_dup_push;
use crate::types::str_eq;

verus! {

#[derive(Debug)]
pub(crate) struct Entry {
    pub key: String,
    pub user: User,
}

/// The map held by a sequence of entries; a later entry with the same key
/// overwrites an earlier one.
pub(crate) open spec fn table_map(s: Seq<Entry>) -> Map<Seq<char>, UserV>
    decreases s.len(),
{
    if s.len() == 0 {
        Map::empty()
    } else {
        table_map(s.drop_last()).insert(s.last().key@, s.last().user@)
    }
}

/// The keys of the entries, in order.
pub(crate) open spec fn table_keys(s: Seq<Entry>) -> Seq<Seq<char>> {
    s.map_values(|e: Entry| e.key@)
}

pub(crate) proof fn lemma_table_map_contains(s: Seq<Entry>, k: Seq<char>)
    ensures
        table_map(s).contains_key(k) <==> (exists|i: int| 0 <= i < s.len() && s[i].key@ == k),
    decreases s.len(),
{
    if s.len() > 0 {
        lemma_table_map_contains(s.drop_last(), k);
        if table_map(s).contains_key(k) {
            if k == s.last().key@ {
                assert(s[s.len() - 1].key@ == k);
            } else {
                let i = choose|i: int| 0 <= i < s.drop_last().len() && s.drop_last()[i].key@ == k;
                assert(s[i].key@ == k);
            }
        }
        if exists|i: int| 0 <= i < s.len() && s[i].key@ == k {
            let i = choose|i: int| 0 <= i < s.len() && s[i].key@ == k;
            if i < s.len() - 1 {
                assert(s.drop_last()[i].key@ == k);
            }
        }
    }
}

pub(crate) proof fn lemma_table_map_index(s: Seq<Entry>, i: int)
    requires
        table_keys(s).no_duplicates(),
        0 <= i < s.len(),
    ensures
        table_map(s).contains_key(s[i].key@),
        table_map(s)[s[i].key@] == s[i].user@,
    decreases s.len(),
{
    if i == s.len() - 1 {
    } else {
        assert(table_keys(s.drop_last()) =~= table_keys(s).drop_last());
        assert(table_keys(s).drop_last().no_duplicates());
        lemma_table_map_index(s.drop_last(), i);
        assert(s.drop_last()[i] == s[i]);
        assert(table_keys(s)[i] != table_keys(s)[s.len() - 1]);
        assert(s[i].key@ != s.last().key@);
    }
}

pub(crate) proof fn lemma_table_map_update(s: Seq<Entry>, i: int, e: Entry)
    requires
        table_keys(s).no_duplicates(),
        0 <= i < s.len(),
        e.key@ == s[i].key@,
    ensures
        table_map(s.update(i, e)) == table_map(s).insert(e.key@, e.user@),
    decreases s.len(),
{
    let t = s.update(i, e);
    if i == s.len() - 1 {
        assert(t.drop_last() =~= s.drop_last());
        assert(t.last() == e);
        assert(table_map(t) == table_map(s.drop_last()).insert(e.key@, e.user@));
        assert(table_map(s.drop_last()).insert(s.last().key@, s.last().user@).insert(
            e.key@,
            e.user@,
        ) =~= table_map(s.drop_last()).insert(e.key@, e.user@));
    } else {
        assert(t.drop_last() =~= s.drop_last().update(i, e));
        assert(t.last() == s.last());
        assert(table_keys(s.drop_last()) =~= table_keys(s).drop_last());
        assert(table_keys(s).drop_last().no_duplicates());
        assert(s.drop_last()[i] == s[i]);
        lemma_table_map_update(s.drop_last(), i, e);
        assert(table_keys(s)[i] != table_keys(s)[s.len() - 1]);
        assert(e.key@ != s.last().key@);
        assert(table_map(t) == table_map(s.drop_last()).insert(e.key@, e.user@).insert(
            s.last().key@,
            s.last().user@,
        ));
        assert(table_map(s.drop_last()).insert(e.key@, e.user@).insert(
            s.last().key@,
            s.last().user@,
        ) =~= table_map(s.drop_last()).insert(s.last().key@, s.last().user@).insert(
            e.key@,
            e.user@,
        ));
    }
}

pub(crate) proof fn lemma_table_map_push(s: Seq<Entry>, e: Entry)
    ensures
        table_map(s.push(e)) == table_map(s).insert(e.key@, e.user@),
{
    assert(s.push(e).drop_last() =~= s);
    assert(s.push(e).last() == e);
}

/// One logical table of the store: records under pairwise-distinct keys,
/// read and written as a whole map in a single critical section.
#[derive(Debug)]
pub(crate) struct Table {
    entries: Vec<Entry>,
}

impl View for Table {
    type V = Map<Seq<char>, UserV>;

    closed spec fn view(&self) -> Map<Seq<char>, UserV> {
        table_map(self.entries@)
    }
}

impl Table {
    /// Keys never repeat, so a lookup has exactly one answer.
    pub(crate) closed spec fn wf(&self) -> bool {
        table_keys(self.entries@).no_duplicates()
    }

    pub(crate) fn new() -> (r: Table)
        ensures
            r.wf(),
            r@ == Map::<Seq<char>, UserV>::empty(),
    {
        Table { entries: Vec::new() }
    }

    fn find_index(&self, key: &str) -> (r: Option<usize>)
        ensures
            r matches Some(i) ==> i < self.entries@.len() && self.entries@[i as int].key@ == key@,
            r is None ==> forall|j: int|
                0 <= j < self.entries@.len() ==> self.entries@[j].key@ != key@,
    {
        let mut i: usize = 0;
        while i < self.entries.len()
            invariant
                i <= self.entries@.len(),
                forall|j: int| 0 <= j < i ==> self.entries@[j].key@ != key@,
            decreases self.entries@.len() - i,
        {
            if str_eq(self.entries[i].key.as_str(), key) {
                return Some(i);
            }
            i += 1;
        }
        None
    }

    /// Exact-match lookup: the record under `key`, if the map holds one.
    pub(crate) fn get(&self, key: &str) -> (r: Option<&User>)
        requires
            self.wf(),
        ensures
            r matches Some(u) ==> self@.contains_key(key@) && u@ == self@[key@],
            r is None ==> !self@.contains_key(key@),
    {
        proof {
            lemma_table_map_contains(self.entries@, key@);
        }
        match self.find_index(key) {
            Some(i) => {
                proof {
                    lemma_table_map_index(self.entries@, i as int);
                }
                Some(&self.entries[i].user)
            },
            None => None,
        }
    }

    /// Inserts or overwrites the record under `key` (last write wins).
    pub(crate) fn insert(&mut self, key: String, user: User)
        requires
            old(self).wf(),
        ensures
            final(self).wf(),
            final(self)@ == old(self)@.insert(key@, user@),
    {
        let ghost s = self.entries@;
        match self.find_index(key.as_str()) {
            Some(i) => {
                self.entries[i] = Entry { key, user };
                proof {
                    lemma_table_map_update(s, i as int, self.entries@[i as int]);
                    assert(table_keys(self.entries@) =~= table_keys(s));
                }
            },
            None => {
                proof {
                    assert(!table_keys(s).contains(key@)) by {
                        if table_keys(s).contains(key@) {
                            let j = choose|j: int|
                                0 <= j < table_keys(s).len() && table_keys(s)[j] == key@;
                            assert(s[j].key@ == key@);
                        }
                    }
                }
                self.entries.push(Entry { key, user });
                proof {
                    let e = self.entries@.last();
                    assert(self.entries@ =~= s.push(e));
                    lemma_table_map_push(s, e);
                    assert(table_keys(self.entries@) =~= table_keys(s).push(e.key@));
                    lemma_no_dup_push(table_keys(s), e.key@);
                }
            },
        }
    }
}

} // verus!
