//! A small verified table from names to values, with insert-overwrites
//! semantics: the single flat namespace the language gives to variables and
//! to procedures.

use vstd::prelude::*;
use crate::strutil::str_equal;

verus! {

/// The map a sequence of recorded entries denotes: a later entry for the
/// same name wins, as insertion does.
pub open spec fn table_view<V>(m: Seq<(String, V)>) -> Map<Seq<char>, V>
    decreases m.len(),
{
    if m.len() == 0 {
        Map::empty()
    } else {
        table_view(m.drop_last()).insert(m.last().0@, m.last().1)
    }
}

/// Replacing the last entry holding key `k` and then appending `(k, v)`
/// denotes the same map as inserting `(k, v)` over the original entries.
proof fn lemma_table_remove_insert<V>(m: Seq<(String, V)>, i: int, k: Seq<char>, v: V)
    requires
        0 <= i < m.len(),
        m[i].0@ == k,
        forall|j: int| i < j < m.len() ==> (#[trigger] m[j]).0@ != k,
    ensures
        table_view(m.remove(i)).insert(k, v) == table_view(m).insert(k, v),
    decreases m.len(),
{
    if i == m.len() - 1 {
        assert(m.remove(i) =~= m.drop_last());
        assert(table_view(m.drop_last()).insert(k, v) =~= table_view(m.drop_last()).insert(
            k,
            m[i].1,
        ).insert(k, v));
    } else {
        let dl = m.drop_last();
        assert(m.remove(i).drop_last() =~= dl.remove(i));
        assert(m.remove(i).last() == m.last());
        lemma_table_remove_insert(dl, i, k, v);
        let lk = m.last().0@;
        let lv = m.last().1;
        assert(lk != k);
        // Unfold both sides and commute the two distinct-key insertions.
        assert(table_view(m.remove(i)) == table_view(dl.remove(i)).insert(lk, lv));
        assert(table_view(dl.remove(i)).insert(lk, lv).insert(k, v) =~= table_view(
            dl.remove(i),
        ).insert(k, v).insert(lk, lv));
        assert(table_view(dl).insert(k, v).insert(lk, lv) =~= table_view(dl).insert(
            lk,
            lv,
        ).insert(k, v));
    }
}

/// A table from names to values; one flat namespace, insertion overwrites.
pub struct Table<V> {
    entries: Vec<(String, V)>,
}

impl<V> View for Table<V> {
    type V = Map<Seq<char>, V>;

    closed spec fn view(&self) -> Map<Seq<char>, V> {
        table_view(self.entries@)
    }
}

fn lookup_index<V>(m: &Vec<(String, V)>, name: &str, n: usize) -> (r: Option<usize>)
    requires
        n <= m@.len(),
    ensures
        match r {
            Some(i) => {
                &&& i < n
                &&& m@[i as int].0@ == name@
                &&& forall|j: int| i < j < n ==> (#[trigger] m@[j]).0@ != name@
                &&& table_view(m@.subrange(0, n as int)).contains_key(name@)
                &&& table_view(m@.subrange(0, n as int))[name@] == m@[i as int].1
            },
            None => !table_view(m@.subrange(0, n as int)).contains_key(name@),
        },
    decreases n,
{
    if n == 0 {
        proof {
            assert(m@.subrange(0, 0) =~= Seq::<(String, V)>::empty());
        }
        None
    } else {
        proof {
            assert(m@.subrange(0, n as int).drop_last() =~= m@.subrange(0, n - 1));
            assert(m@.subrange(0, n as int).last() == m@[n - 1]);
        }
        if str_equal(m[n - 1].0.as_str(), name) {
            Some(n - 1)
        } else {
            lookup_index(m, name, n - 1)
        }
    }
}

impl<V> Table<V> {
    /// Returns an empty table.
    pub fn new() -> (r: Self)
        ensures
            r@ == Map::<Seq<char>, V>::empty(),
    {
        let t = Table { entries: Vec::new() };
        proof {
            assert(t.entries@.len() == 0);
        }
        t
    }

    /// Looks a name up.
    pub fn get(&self, name: &str) -> (r: Option<&V>)
        ensures
            match r {
                Some(v) => self@.contains_key(name@) && *v == self@[name@],
                None => !self@.contains_key(name@),
            },
    {
        proof {
            assert(self.entries@.subrange(0, self.entries@.len() as int) =~= self.entries@);
        }
        match lookup_index(&self.entries, name, self.entries.len()) {
            Some(i) => Some(&self.entries[i].1),
            None => None,
        }
    }

    /// Binds `name` to `v`, replacing any prior binding.
    pub fn insert(&mut self, name: String, v: V)
        ensures
            final(self)@ == old(self)@.insert(name@, v),
    {
        let ghost gname = name@;
        let ghost gv = v;
        proof {
            assert(self.entries@.subrange(0, self.entries@.len() as int) =~= self.entries@);
        }
        match lookup_index(&self.entries, name.as_str(), self.entries.len()) {
            Some(i) => {
                let ghost before = self.entries@;
                let _old_entry = self.entries.remove(i);
                proof {
                    lemma_table_remove_insert(before, i as int, gname, gv);
                }
                let ghost removed = self.entries@;
                self.entries.push((name, v));
                proof {
                    assert(self.entries@.drop_last() =~= removed);
                    assert(self.entries@.last().0@ == gname);
                }
            },
            None => {
                let ghost before = self.entries@;
                self.entries.push((name, v));
                proof {
                    assert(self.entries@.drop_last() =~= before);
                    assert(self.entries@.last().0@ == gname);
                }
            },
        }
    }
}

} // verus!
