//! Name-keyed collections in which a later entry for a name replaces the earlier
//! one. Entries keep the order in which their names first came in.

use vstd::prelude::*;
use vstd::string::StringExecFns;

verus! {

/// Whether some entry of `s` has the name `key`.
pub open spec fn has_key<V>(s: Seq<(Seq<char>, V)>, key: Seq<char>) -> bool {
    exists|i: int| 0 <= i < s.len() && (#[trigger] s[i]).0 == key
}

/// The place of an entry of `s` with the name `key`, where there is one.
pub open spec fn position<V>(s: Seq<(Seq<char>, V)>, key: Seq<char>) -> int {
    choose|i: int| 0 <= i < s.len() && (#[trigger] s[i]).0 == key
}

/// What `s` holds under the name `key`.
pub open spec fn lookup<V>(s: Seq<(Seq<char>, V)>, key: Seq<char>) -> Option<V> {
    if has_key(s, key) {
        Some(s[position(s, key)].1)
    } else {
        None
    }
}

/// `s` after `value` was set under the name `key`: the entry of that name is
/// replaced where it stands, and a new name goes to the end.
pub open spec fn put<V>(s: Seq<(Seq<char>, V)>, key: Seq<char>, value: V) -> Seq<(Seq<char>, V)> {
    if has_key(s, key) {
        s.update(position(s, key), (key, value))
    } else {
        s.push((key, value))
    }
}

/// `s` without the entry of the name `key`, where there is one.
pub open spec fn without<V>(s: Seq<(Seq<char>, V)>, key: Seq<char>) -> Seq<(Seq<char>, V)> {
    if has_key(s, key) {
        s.remove(position(s, key))
    } else {
        s
    }
}

/// No two entries of `s` share a name.
pub open spec fn distinct_keys<V>(s: Seq<(Seq<char>, V)>) -> bool {
    forall|i: int, j: int| 0 <= i < j < s.len() ==> (#[trigger] s[i]).0 != (#[trigger] s[j]).0
}

/// How many entries of `s` have the name `key`.
pub open spec fn occurrences<V>(s: Seq<(Seq<char>, V)>, key: Seq<char>) -> nat
    decreases s.len(),
{
    if s.len() == 0 {
        0
    } else {
        occurrences(s.drop_last(), key) + if s.last().0 == key {
            1nat
        } else {
            0nat
        }
    }
}

/// Where names are distinct, the entry found under a name is the one to which
/// `position` points.
pub proof fn lemma_position<V>(s: Seq<(Seq<char>, V)>, key: Seq<char>, i: int)
    requires
        distinct_keys(s),
        0 <= i < s.len(),
        s[i].0 == key,
    ensures
        has_key(s, key),
        position(s, key) == i,
        lookup(s, key) == Some(s[i].1),
{
    let p = position(s, key);
    assert(0 <= p < s.len() && s[p].0 == key);
    if p < i {
        assert(s[p].0 != s[i].0);
    } else if i < p {
        assert(s[i].0 != s[p].0);
    }
}

/// Setting a name keeps the names distinct, and changes the number of entries
/// only for a new name.
pub proof fn lemma_put_distinct<V>(s: Seq<(Seq<char>, V)>, key: Seq<char>, value: V)
    requires
        distinct_keys(s),
    ensures
        distinct_keys(put(s, key, value)),
        has_key(put(s, key, value), key),
        has_key(s, key) ==> put(s, key, value).len() == s.len(),
        !has_key(s, key) ==> put(s, key, value).len() == s.len() + 1,
{
    let t = put(s, key, value);
    if has_key(s, key) {
        let p = position(s, key);
        assert(0 <= p < s.len() && s[p].0 == key);
        assert forall|i: int, j: int| 0 <= i < j < t.len() implies (#[trigger] t[i]).0 != (
        #[trigger] t[j]).0 by {
            assert(t[i].0 == s[i].0);
            assert(t[j].0 == s[j].0);
        }
        assert(t[p].0 == key);
    } else {
        assert forall|i: int, j: int| 0 <= i < j < t.len() implies (#[trigger] t[i]).0 != (
        #[trigger] t[j]).0 by {
            if j < s.len() {
                assert(t[i] == s[i]);
                assert(t[j] == s[j]);
            } else {
                assert(t[i] == s[i]);
                assert(t[j].0 == key);
            }
        }
        assert(t[s.len() as int].0 == key);
    }
}

/// After a name was set it holds the value set, and every other name holds what
/// it held before.
pub proof fn lemma_put_lookup<V>(s: Seq<(Seq<char>, V)>, key: Seq<char>, value: V, other: Seq<char>)
    requires
        distinct_keys(s),
    ensures
        lookup(put(s, key, value), key) == Some(value),
        other != key ==> lookup(put(s, key, value), other) == lookup(s, other),
        other != key ==> (has_key(put(s, key, value), other) <==> has_key(s, other)),
{
    let t = put(s, key, value);
    lemma_put_distinct(s, key, value);
    if has_key(s, key) {
        let p = position(s, key);
        assert(0 <= p < s.len() && s[p].0 == key);
        assert(t[p] == (key, value));
        lemma_position(t, key, p);
        if other != key {
            if has_key(s, other) {
                let q = position(s, other);
                assert(0 <= q < s.len() && s[q].0 == other);
                assert(t[q] == s[q]);
                lemma_position(t, other, q);
            }
            if has_key(t, other) {
                let q = position(t, other);
                assert(0 <= q < t.len() && t[q].0 == other);
                assert(s[q] == t[q]);
                lemma_position(s, other, q);
            }
        }
    } else {
        let p = s.len() as int;
        assert(t[p] == (key, value));
        lemma_position(t, key, p);
        if other != key {
            if has_key(s, other) {
                let q = position(s, other);
                assert(0 <= q < s.len() && s[q].0 == other);
                assert(t[q] == s[q]);
                lemma_position(t, other, q);
            }
            if has_key(t, other) {
                let q = position(t, other);
                assert(0 <= q < t.len() && t[q].0 == other);
                assert(s[q] == t[q]);
                lemma_position(s, other, q);
            }
        }
    }
}

/// Where names are distinct, a name that is there occurs once, and one that is
/// not there occurs never.
pub proof fn lemma_occurrences<V>(s: Seq<(Seq<char>, V)>, key: Seq<char>)
    requires
        distinct_keys(s),
    ensures
        has_key(s, key) ==> occurrences(s, key) == 1,
        !has_key(s, key) ==> occurrences(s, key) == 0,
    decreases s.len(),
{
    if s.len() > 0 {
        let front = s.drop_last();
        assert forall|i: int, j: int| 0 <= i < j < front.len() implies (#[trigger] front[i]).0 != (
        #[trigger] front[j]).0 by {
            assert(front[i] == s[i]);
            assert(front[j] == s[j]);
        }
        lemma_occurrences(front, key);
        if s.last().0 == key {
            if has_key(front, key) {
                let p = position(front, key);
                assert(0 <= p < front.len() && front[p].0 == key);
                assert(s[p] == front[p]);
                assert(s[p].0 != s[s.len() - 1].0);
            }
            assert(s[s.len() - 1].0 == key);
        } else {
            if has_key(s, key) {
                let p = position(s, key);
                assert(0 <= p < s.len() && s[p].0 == key);
                assert(front[p] == s[p]);
            }
            if has_key(front, key) {
                let p = position(front, key);
                assert(0 <= p < front.len() && front[p].0 == key);
                assert(s[p] == front[p]);
            }
        }
    }
}

/// Setting one name twice in a row leaves exactly one entry of
/// that name, which holds the second value; the collection is the one that the
/// second setting alone would have left.
pub proof fn lemma_override<V>(s: Seq<(Seq<char>, V)>, key: Seq<char>, first: V, second: V)
    requires
        distinct_keys(s),
    ensures
        put(put(s, key, first), key, second) == put(s, key, second),
        occurrences(put(put(s, key, first), key, second), key) == 1,
        lookup(put(put(s, key, first), key, second), key) == Some(second),
        distinct_keys(put(put(s, key, first), key, second)),
{
    let t = put(s, key, first);
    let u = put(t, key, second);
    lemma_put_distinct(s, key, first);
    lemma_put_distinct(t, key, second);
    lemma_put_lookup(t, key, second, key);
    lemma_occurrences(u, key);
    if has_key(s, key) {
        let p = position(s, key);
        assert(0 <= p < s.len() && s[p].0 == key);
        assert(t[p].0 == key);
        lemma_position(t, key, p);
        assert(u =~= put(s, key, second));
    } else {
        let p = s.len() as int;
        assert(t[p].0 == key);
        lemma_position(t, key, p);
        assert(u =~= put(s, key, second));
    }
}

/// Taking a name out keeps the names distinct, leaves the name absent, and leaves
/// every other name with what it held.
pub proof fn lemma_without<V>(s: Seq<(Seq<char>, V)>, key: Seq<char>, other: Seq<char>)
    requires
        distinct_keys(s),
    ensures
        distinct_keys(without(s, key)),
        !has_key(without(s, key), key),
        other != key ==> lookup(without(s, key), other) == lookup(s, other),
{
    let t = without(s, key);
    if has_key(s, key) {
        let p = position(s, key);
        assert(0 <= p < s.len() && s[p].0 == key);
        assert forall|i: int, j: int| 0 <= i < j < t.len() implies (#[trigger] t[i]).0 != (
        #[trigger] t[j]).0 by {
            let a = if i < p { i } else { i + 1 };
            let b = if j < p { j } else { j + 1 };
            assert(t[i] == s[a]);
            assert(t[j] == s[b]);
        }
        if has_key(t, key) {
            let q = position(t, key);
            assert(0 <= q < t.len() && t[q].0 == key);
            let a = if q < p { q } else { q + 1 };
            assert(t[q] == s[a]);
            if a < p {
                assert(s[a].0 != s[p].0);
            } else {
                assert(s[p].0 != s[a].0);
            }
        }
        if other != key {
            if has_key(s, other) {
                let q = position(s, other);
                assert(0 <= q < s.len() && s[q].0 == other);
                let a = if q < p { q } else { q - 1 };
                assert(t[a] == s[q]);
                lemma_position(t, other, a);
            }
            if has_key(t, other) {
                let q = position(t, other);
                assert(0 <= q < t.len() && t[q].0 == other);
                let a = if q < p { q } else { q + 1 };
                assert(t[q] == s[a]);
                lemma_position(s, other, a);
            }
        }
    }
}

/// Setting two different names in either order gives the same collection, where
/// the name set second is there already.
pub proof fn lemma_put_present_commutes<V>(
    s: Seq<(Seq<char>, V)>,
    a: Seq<char>,
    x: V,
    b: Seq<char>,
    y: V,
)
    requires
        distinct_keys(s),
        has_key(s, a),
        a != b,
    ensures
        put(put(s, b, y), a, x) == put(put(s, a, x), b, y),
{
    let p = position(s, a);
    assert(0 <= p < s.len() && s[p].0 == a);
    let sb = put(s, b, y);
    let sa = put(s, a, x);
    lemma_put_distinct(s, b, y);
    lemma_put_distinct(s, a, x);
    assert(sa == s.update(p, (a, x)));
    if has_key(s, b) {
        let q = position(s, b);
        assert(0 <= q < s.len() && s[q].0 == b);
        assert(sb[p] == s[p]);
        lemma_position(sb, a, p);
        assert(sa[q] == s[q]);
        lemma_position(sa, b, q);
        assert(put(sb, a, x) =~= put(sa, b, y));
    } else {
        assert(sb[p] == s[p]);
        lemma_position(sb, a, p);
        if has_key(sa, b) {
            let q = position(sa, b);
            assert(0 <= q < sa.len() && sa[q].0 == b);
            assert(s[q].0 == b);
        }
        assert(put(sb, a, x) =~= put(sa, b, y));
    }
}

/// Setting a pair of names twice leaves what the second setting alone would have
/// left.
pub proof fn lemma_put_pair_twice<V>(
    s: Seq<(Seq<char>, V)>,
    a: Seq<char>,
    b: Seq<char>,
    x1: V,
    y1: V,
    x2: V,
    y2: V,
)
    requires
        distinct_keys(s),
        a != b,
    ensures
        put(put(put(put(s, a, x1), b, y1), a, x2), b, y2) == put(put(s, a, x2), b, y2),
{
    let t1 = put(s, a, x1);
    lemma_put_distinct(s, a, x1);
    lemma_put_present_commutes(t1, a, x2, b, y1);
    lemma_override(s, a, x1, x2);
    let w = put(s, a, x2);
    lemma_put_distinct(s, a, x2);
    lemma_override(w, b, y1, y2);
}

/// A collection of values under names, in which setting a name that is there
/// replaces its value. No name occurs twice.
#[derive(Debug)]
pub struct Dictionary<V: View> {
    entries: Vec<(String, V)>,
}

impl<V: View> View for Dictionary<V> {
    type V = Seq<(Seq<char>, V::V)>;

    /// The entries, each as its name and its value, in the order in which the
    /// names first came in.
    closed spec fn view(&self) -> Seq<(Seq<char>, V::V)> {
        Seq::new(self.entries@.len(), |i: int| (self.entries@[i].0@, self.entries@[i].1@))
    }
}

impl<V: View> Dictionary<V> {
    /// What holds of every collection: no name occurs twice.
    #[verifier::type_invariant]
    pub open spec fn names_are_distinct(self) -> bool {
        distinct_keys(self@)
    }

    /// The collection without entries.
    pub fn new() -> (r: Dictionary<V>)
        ensures
            r@ == Seq::<(Seq<char>, V::V)>::empty(),
    {
        let r = Dictionary { entries: Vec::new() };
        assert(r@ =~= Seq::<(Seq<char>, V::V)>::empty());
        r
    }

    /// The number of entries.
    pub fn len(&self) -> (r: usize)
        ensures
            r == self@.len(),
    {
        self.entries.len()
    }

    /// The place of the entry named `key`, if there is one.
    pub fn find(&self, key: &str) -> (r: Option<usize>)
        ensures
            match r {
                Some(i) => i < self@.len() && self@[i as int].0 == key@ && position(self@, key@)
                    == i,
                None => !has_key(self@, key@),
            },
            r is Some <==> has_key(self@, key@),
    {
        proof {
            use_type_invariant(self);
        }
        let wanted = String::from_str(key);
        let mut i: usize = 0;
        while i < self.entries.len()
            invariant
                i <= self.entries@.len(),
                wanted@ == key@,
                distinct_keys(self@),
                forall|j: int| 0 <= j < i ==> (#[trigger] self@[j]).0 != key@,
            decreases self.entries@.len() - i,
        {
            if self.entries[i].0 == wanted {
                proof {
                    lemma_position(self@, key@, i as int);
                }
                return Some(i);
            }
            i = i + 1;
        }
        None
    }

    /// The name of the entry at place `i`.
    pub fn name_at(&self, i: usize) -> (r: &String)
        requires
            i < self@.len(),
        ensures
            r@ == self@[i as int].0,
    {
        &self.entries[i].0
    }

    /// The value of the entry at place `i`.
    pub fn value_at(&self, i: usize) -> (r: &V)
        requires
            i < self@.len(),
        ensures
            r@ == self@[i as int].1,
    {
        &self.entries[i].1
    }

    /// The value under the name `key`, if there is one.
    pub fn get(&self, key: &str) -> (r: Option<&V>)
        ensures
            match r {
                Some(v) => lookup(self@, key@) == Some(v@),
                None => lookup(self@, key@) is None,
            },
    {
        match self.find(key) {
            Some(i) => Some(&self.entries[i].1),
            None => None,
        }
    }

    /// Sets `value` under the name `key`: it replaces the value that the name had,
    /// or comes in as a new entry at the end.
    pub fn set(&mut self, key: &str, value: V)
        ensures
            final(self)@ == put(old(self)@, key@, value@),
    {
        proof {
            use_type_invariant(&*self);
            lemma_put_distinct(self@, key@, value@);
        }
        let found = self.find(key);
        let name = String::from_str(key);
        let ghost before = self@;
        let mut entries: Vec<(String, V)> = Vec::new();
        assert(self.entries@.len() == before.len());
        assert(forall|j: int|
            0 <= j < before.len() ==> before[j] == (
                (#[trigger] self.entries@[j]).0@,
                self.entries@[j].1@,
            ));
        core::mem::swap(&mut self.entries, &mut entries);
        match found {
            Some(i) => {
                entries[i] = (name, value);
            },
            None => {
                entries.push((name, value));
            },
        }
        assert(Seq::new(entries@.len(), |j: int| (entries@[j].0@, entries@[j].1@)) =~= put(
            before,
            key@,
            value@,
        ));
        core::mem::swap(&mut self.entries, &mut entries);
    }
}

impl<V: View> Dictionary<V> {
    /// Takes out the entry named `key`, if there is one. The entries behind it
    /// move up by one place.
    pub fn remove(&mut self, key: &str)
        ensures
            final(self)@ == without(old(self)@, key@),
    {
        proof {
            use_type_invariant(&*self);
            lemma_without(self@, key@, key@);
        }
        let found = self.find(key);
        let ghost before = self@;
        match found {
            Some(i) => {
                let mut entries: Vec<(String, V)> = Vec::new();
                assert(self.entries@.len() == before.len());
                assert(forall|j: int|
                    0 <= j < before.len() ==> before[j] == (
                        (#[trigger] self.entries@[j]).0@,
                        self.entries@[j].1@,
                    ));
                core::mem::swap(&mut self.entries, &mut entries);
                let _ = entries.remove(i);
                assert(Seq::new(entries@.len(), |j: int| (entries@[j].0@, entries@[j].1@))
                    =~= without(before, key@));
                core::mem::swap(&mut self.entries, &mut entries);
            },
            None => {},
        }
    }
}

impl Dictionary<String> {
    /// A collection of its own with the same entries in the same order.
    pub fn duplicate(&self) -> (r: Dictionary<String>)
        ensures
            r@ == self@,
    {
        proof {
            use_type_invariant(self);
        }
        let mut entries: Vec<(String, String)> = Vec::new();
        let mut i: usize = 0;
        while i < self.entries.len()
            invariant
                i <= self.entries@.len(),
                entries@.len() == i,
                forall|j: int|
                    0 <= j < i ==> (#[trigger] entries@[j]).0@ == self.entries@[j].0@
                        && entries@[j].1@ == self.entries@[j].1@,
            decreases self.entries@.len() - i,
        {
            let name = self.entries[i].0.clone();
            let value = self.entries[i].1.clone();
            entries.push((name, value));
            i = i + 1;
        }
        assert(Seq::new(entries@.len(), |j: int| (entries@[j].0@, entries@[j].1@)) =~= self@);
        Dictionary { entries }
    }
}

} // verus!
