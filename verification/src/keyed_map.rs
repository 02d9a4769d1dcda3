//! A small insertion-ordered map keyed by instance name, used for
//! dynamically discovered resources such as disks: per-instance data,
//! history series, previews and pages. Keys are unique; a key, once
//! observed, is never removed.

use vstd::prelude::*;

verus! {

/// The first value stored under key `k`, if any.
pub open spec fn spec_assoc_index<V>(s: Seq<(String, V)>, k: Seq<char>) -> Option<V>
    decreases s.len(),
{
    if s.len() == 0 {
        None
    } else if s[0].0@ == k {
        Some(s[0].1)
    } else {
        spec_assoc_index(s.drop_first(), k)
    }
}

/// A key is absent exactly when no entry carries it.
pub proof fn lemma_assoc_none<V>(s: Seq<(String, V)>, k: Seq<char>)
    ensures
        (spec_assoc_index(s, k) is None) <==> (forall|j: int|
            0 <= j < s.len() ==> (#[trigger] s[j].0)@ != k),
    decreases s.len(),
{
    if s.len() > 0 {
        lemma_assoc_none(s.drop_first(), k);
        assert(forall|j: int| 1 <= j < s.len() ==> s.drop_first()[j - 1] == #[trigger] s[j]);
    }
}

proof fn lemma_assoc_update<V>(s: Seq<(String, V)>, i: int, e: (String, V))
    requires
        0 <= i < s.len(),
        e.0@ == s[i].0@,
        forall|j: int| 0 <= j < i ==> (#[trigger] s[j].0)@ != s[i].0@,
    ensures
        spec_assoc_index(s.update(i, e), s[i].0@) == Some(e.1),
        forall|q: Seq<char>|
            q != s[i].0@ ==> #[trigger] spec_assoc_index(s.update(i, e), q) == spec_assoc_index(
                s,
                q,
            ),
    decreases i,
{
    let t = s.update(i, e);
    if i == 0 {
        assert(t[0] == e);
        assert(t.drop_first() =~= s.drop_first());
        assert forall|q: Seq<char>| q != s[i].0@ implies #[trigger] spec_assoc_index(t, q)
            == spec_assoc_index(s, q) by {
            assert(spec_assoc_index(t, q) == spec_assoc_index(t.drop_first(), q));
            assert(spec_assoc_index(s, q) == spec_assoc_index(s.drop_first(), q));
        }
    } else {
        assert(t[0] == s[0]);
        assert(t.drop_first() =~= s.drop_first().update(i - 1, e));
        assert(forall|j: int| 1 <= j < s.len() ==> s.drop_first()[j - 1] == #[trigger] s[j]);
        assert(s.drop_first()[i - 1] == s[i]);
        lemma_assoc_update(s.drop_first(), i - 1, e);
        assert(s[0].0@ != s[i].0@);
        assert(spec_assoc_index(t, s[i].0@) == spec_assoc_index(t.drop_first(), s[i].0@));
        assert forall|q: Seq<char>| q != s[i].0@ implies #[trigger] spec_assoc_index(t, q)
            == spec_assoc_index(s, q) by {
            if s[0].0@ == q {
            } else {
                assert(spec_assoc_index(t, q) == spec_assoc_index(t.drop_first(), q));
                assert(spec_assoc_index(s, q) == spec_assoc_index(s.drop_first(), q));
                assert(spec_assoc_index(s.drop_first().update(i - 1, e), q) == spec_assoc_index(
                    s.drop_first(),
                    q,
                ));
            }
        }
    }
}

proof fn lemma_assoc_push<V>(s: Seq<(String, V)>, e: (String, V), q: Seq<char>)
    ensures
        spec_assoc_index(s, q) is Some ==> spec_assoc_index(s.push(e), q) == spec_assoc_index(
            s,
            q,
        ),
        spec_assoc_index(s, q) is None && e.0@ == q ==> spec_assoc_index(s.push(e), q) == Some(
            e.1,
        ),
        spec_assoc_index(s, q) is None && e.0@ != q ==> spec_assoc_index(s.push(e), q) is None,
    decreases s.len(),
{
    if s.len() == 0 {
        assert(s.push(e)[0] == e);
        assert(s.push(e).drop_first() =~= Seq::<(String, V)>::empty());
        assert(spec_assoc_index(s.push(e).drop_first(), q) is None);
        if e.0@ != q {
            assert(spec_assoc_index(s.push(e), q) == spec_assoc_index(s.push(e).drop_first(), q));
        }
    } else {
        assert(s.push(e)[0] == s[0]);
        assert(s.push(e).drop_first() =~= s.drop_first().push(e));
        lemma_assoc_push(s.drop_first(), e, q);
    }
}

/// With pairwise distinct keys, every entry is found under its own key.
pub proof fn lemma_wf_index_at<V>(s: Seq<(String, V)>, j: int)
    requires
        0 <= j < s.len(),
        forall|a: int, b: int| 0 <= a < b < s.len() ==> (#[trigger] s[a].0)@ != (#[trigger] s[b].0)@,
    ensures
        spec_assoc_index(s, s[j].0@) == Some(s[j].1),
    decreases j,
{
    if j == 0 {
    } else {
        assert(s[0].0@ != s[j].0@);
        assert(forall|a: int, b: int|
            0 <= a < b < s.drop_first().len() ==> (#[trigger] s.drop_first()[a].0)@ != (
            #[trigger] s.drop_first()[b].0)@) by {
            assert(forall|a: int| 0 <= a < s.drop_first().len() ==> s.drop_first()[a] == s[a + 1]);
        }
        assert(s.drop_first()[j - 1] == s[j]);
        lemma_wf_index_at(s.drop_first(), j - 1);
    }
}

/// An insertion-ordered map from instance names to values, with unique keys.
#[derive(Debug)]
pub struct KeyedMap<V> {
    pub entries: Vec<(String, V)>,
}

impl<V> KeyedMap<V> {
    /// The value stored under key `k`, if any.
    pub open spec fn index(self, k: Seq<char>) -> Option<V> {
        spec_assoc_index(self.entries@, k)
    }

    /// Whether key `k` has been observed.
    pub open spec fn contains_key(self, k: Seq<char>) -> bool {
        self.index(k) is Some
    }

    /// Keys are pairwise distinct.
    pub open spec fn wf(self) -> bool {
        forall|i: int, j: int|
            0 <= i < j < self.entries@.len() ==> (#[trigger] self.entries@[i].0)@ != (
            #[trigger] self.entries@[j].0)@
    }

    pub fn new() -> (r: Self)
        ensures
            r.entries@.len() == 0,
            r.wf(),
            forall|k: Seq<char>| #[trigger] r.index(k) is None,
    {
        KeyedMap { entries: Vec::new() }
    }

    pub fn len(&self) -> (r: usize)
        ensures
            r == self.entries@.len(),
    {
        self.entries.len()
    }

    pub fn key_at(&self, i: usize) -> (r: &String)
        requires
            i < self.entries@.len(),
        ensures
            r@ == self.entries@[i as int].0@,
    {
        &self.entries[i].0
    }

    pub fn value_at(&self, i: usize) -> (r: &V)
        requires
            i < self.entries@.len(),
        ensures
            *r == self.entries@[i as int].1,
    {
        &self.entries[i].1
    }

    /// Finds the position of `name`, scanning from the front.
    pub fn position(&self, name: &String) -> (r: Option<usize>)
        ensures
            match r {
                Some(i) => {
                    &&& i < self.entries@.len()
                    &&& self.entries@[i as int].0@ == name@
                    &&& forall|j: int| 0 <= j < i ==> (#[trigger] self.entries@[j].0)@ != name@
                    &&& self.index(name@) == Some(self.entries@[i as int].1)
                },
                None => self.index(name@) is None,
            },
    {
        let ghost s = self.entries@;
        let mut i: usize = 0;
        proof {
            assert(s.skip(0) =~= s);
        }
        loop
            invariant
                i <= s.len(),
                s == self.entries@,
                spec_assoc_index(s, name@) == spec_assoc_index(s.skip(i as int), name@),
                forall|j: int| 0 <= j < i ==> (#[trigger] s[j].0)@ != name@,
            ensures
                s == self.entries@,
                i <= s.len(),
                forall|j: int| 0 <= j < i ==> (#[trigger] s[j].0)@ != name@,
                i < s.len() ==> s[i as int].0@ == name@ && spec_assoc_index(s, name@) == Some(
                    s[i as int].1,
                ),
                i == s.len() ==> spec_assoc_index(s, name@) is None,
            decreases s.len() - i,
        {
            if i == self.entries.len() {
                proof {
                    assert(s.skip(i as int).len() == 0);
                }
                break ;
            }
            proof {
                assert(s.skip(i as int)[0] == s[i as int]);
                assert(s.skip(i as int).drop_first() =~= s.skip(i + 1));
            }
            if self.entries[i].0 == *name {
                break ;
            }
            i = i + 1;
        }
        if i < self.entries.len() {
            Some(i)
        } else {
            None
        }
    }

    /// Appends a binding for a key not yet observed.
    pub fn insert_new(&mut self, name: String, v: V)
        requires
            old(self).wf(),
            old(self).index(name@) is None,
        ensures
            final(self).wf(),
            final(self).entries@ == old(self).entries@.push((name, v)),
            final(self).index(name@) == Some(v),
            forall|q: Seq<char>|
                q != name@ ==> #[trigger] final(self).index(q) == old(self).index(q),
    {
        proof {
            lemma_assoc_none(old(self).entries@, name@);
            assert forall|q: Seq<char>| true implies #[trigger] spec_assoc_index(
                old(self).entries@.push((name, v)),
                q,
            ) == (if q == name@ {
                Some(v)
            } else {
                spec_assoc_index(old(self).entries@, q)
            }) by {
                lemma_assoc_push(old(self).entries@, (name, v), q);
            }
        }
        self.entries.push((name, v));
    }

    /// Swaps the value at position `i` for `v`, keeping its key, and hands
    /// the previous value back.
    pub fn swap_at(&mut self, i: usize, v: V) -> (prev: V)
        requires
            old(self).wf(),
            i < old(self).entries@.len(),
        ensures
            prev == old(self).entries@[i as int].1,
            final(self).wf(),
            final(self).entries@.len() == old(self).entries@.len(),
            final(self).entries@ == old(self).entries@.update(
                i as int,
                (old(self).entries@[i as int].0, v),
            ),
            final(self).index(old(self).entries@[i as int].0@) == Some(v),
            forall|q: Seq<char>|
                q != old(self).entries@[i as int].0@ ==> #[trigger] final(self).index(q) == old(
                    self,
                ).index(q),
    {
        let (k, prev) = self.entries.remove(i);
        let ghost olds = old(self).entries@;
        proof {
            assert(k == olds[i as int].0);
            lemma_assoc_update(olds, i as int, (k, v));
            assert(olds.remove(i as int).insert(i as int, (k, v)) =~= olds.update(
                i as int,
                (k, v),
            ));
        }
        self.entries.insert(i, (k, v));
        prev
    }

    /// Replaces the value at position `i`, keeping its key.
    pub fn replace_at(&mut self, i: usize, v: V)
        requires
            old(self).wf(),
            i < old(self).entries@.len(),
        ensures
            final(self).wf(),
            final(self).entries@.len() == old(self).entries@.len(),
            final(self).entries@ == old(self).entries@.update(
                i as int,
                (old(self).entries@[i as int].0, v),
            ),
            final(self).index(old(self).entries@[i as int].0@) == Some(v),
            forall|q: Seq<char>|
                q != old(self).entries@[i as int].0@ ==> #[trigger] final(self).index(q) == old(
                    self,
                ).index(q),
    {
        let (k, _prev) = self.entries.remove(i);
        let ghost olds = old(self).entries@;
        proof {
            assert(k == olds[i as int].0);
            lemma_assoc_update(olds, i as int, (k, v));
            assert(olds.remove(i as int).insert(i as int, (k, v)) =~= olds.update(
                i as int,
                (k, v),
            ));
        }
        self.entries.insert(i, (k, v));
    }
}

} // verus!
