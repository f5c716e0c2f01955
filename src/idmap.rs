//! A map from record ids to records that keeps its entries in ascending id order.
use vstd::prelude::*;

verus! {

/// No two entries share an id.
pub open spec fn ids_unique<V>(s: Seq<(String, V)>) -> bool {
    forall|i: int, j: int|
        0 <= i < s.len() && 0 <= j < s.len() && i != j ==> #[trigger] s[i].0@ != #[trigger] s[j].0@
}

/// The id-to-record map that a sequence of entries stands for.
pub open spec fn entries_map<V>(s: Seq<(String, V)>) -> Map<Seq<char>, V> {
    Map::new(
        |k: Seq<char>| exists|i: int| 0 <= i < s.len() && s[i].0@ == k,
        |k: Seq<char>| s[choose|i: int| 0 <= i < s.len() && s[i].0@ == k].1,
    )
}

/// `a` comes before `b` in lexicographic order of characters.
pub open spec fn id_lt(a: Seq<char>, b: Seq<char>) -> bool
    decreases a.len(),
{
    if a.len() == 0 {
        b.len() > 0
    } else if b.len() == 0 {
        false
    } else if a[0] < b[0] {
        true
    } else if a[0] == b[0] {
        id_lt(a.drop_first(), b.drop_first())
    } else {
        false
    }
}

/// No id comes before itself.
pub proof fn lemma_id_lt_irreflexive(a: Seq<char>)
    ensures
        !id_lt(a, a),
    decreases a.len(),
{
    if a.len() > 0 {
        lemma_id_lt_irreflexive(a.drop_first());
    }
}

/// The order of ids is transitive.
pub proof fn lemma_id_lt_transitive(a: Seq<char>, b: Seq<char>, c: Seq<char>)
    requires
        id_lt(a, b),
        id_lt(b, c),
    ensures
        id_lt(a, c),
    decreases a.len(),
{
    if a.len() > 0 && a[0] == b[0] && b[0] == c[0] {
        lemma_id_lt_transitive(a.drop_first(), b.drop_first(), c.drop_first());
    }
}

/// Of two different ids, one comes before the other.
pub proof fn lemma_id_lt_total(a: Seq<char>, b: Seq<char>)
    requires
        a != b,
    ensures
        id_lt(a, b) || id_lt(b, a),
    decreases a.len(),
{
    if a.len() == 0 && b.len() == 0 {
        assert(a =~= b);
    } else if a.len() > 0 && b.len() > 0 && a[0] == b[0] {
        if a.drop_first() == b.drop_first() {
            assert(a =~= seq![a[0]] + a.drop_first());
            assert(b =~= seq![b[0]] + b.drop_first());
        }
        lemma_id_lt_total(a.drop_first(), b.drop_first());
    }
}

/// The ids of the entries ascend strictly.
pub open spec fn ids_sorted<V>(s: Seq<(String, V)>) -> bool {
    forall|i: int, j: int| 0 <= i < j < s.len() ==> id_lt(#[trigger] s[i].0@, #[trigger] s[j].0@)
}

/// Whether `a` comes before `b`.
pub fn id_less(a: &str, b: &str) -> (r: bool)
    ensures
        r == id_lt(a@, b@),
{
    let la = a.unicode_len();
    let lb = b.unicode_len();
    let mut i: usize = 0;
    proof {
        assert(a@.subrange(0, la as int) =~= a@);
        assert(b@.subrange(0, lb as int) =~= b@);
    }
    while i < la && i < lb
        invariant
            i <= la,
            i <= lb,
            la == a@.len(),
            lb == b@.len(),
            id_lt(a@, b@) == id_lt(a@.subrange(i as int, la as int), b@.subrange(i as int, lb as int)),
        decreases la - i,
    {
        let ca = a.get_char(i);
        let cb = b.get_char(i);
        proof {
            assert(a@.subrange(i as int, la as int).drop_first() =~= a@.subrange(i + 1, la as int));
            assert(b@.subrange(i as int, lb as int).drop_first() =~= b@.subrange(i + 1, lb as int));
        }
        if ca < cb {
            return true;
        }
        if ca != cb {
            return false;
        }
        i = i + 1;
    }
    i == la && i < lb
}

/// Inserting an entry with a new id at position `p` adds it to the map.
pub proof fn lemma_entries_insert<V>(s: Seq<(String, V)>, p: int, e: (String, V))
    requires
        ids_unique(s),
        0 <= p <= s.len(),
        !entries_map(s).dom().contains(e.0@),
    ensures
        ids_unique(s.insert(p, e)),
        entries_map(s.insert(p, e)) == entries_map(s).insert(e.0@, e.1),
{
    let t = s.insert(p, e);
    assert forall|j: int| 0 <= j < t.len() implies #[trigger] t[j] == if j < p {
        s[j]
    } else if j == p {
        e
    } else {
        s[j - 1]
    } by {}
    assert forall|j: int| 0 <= j < s.len() implies s[j].0@ != e.0@ by {
        if s[j].0@ == e.0@ {
            assert(entries_map(s).dom().contains(e.0@));
        }
    }
    assert(ids_unique(t)) by {
        assert forall|a: int, b: int|
            0 <= a < t.len() && 0 <= b < t.len() && a != b implies #[trigger] t[a].0@
            != #[trigger] t[b].0@ by {
            let a2 = if a < p { a } else { a - 1 };
            let b2 = if b < p { b } else { b - 1 };
            if a != p && b != p {
                assert(t[a] == s[a2] && t[b] == s[b2]);
            } else if a == p {
                assert(t[b] == s[b2]);
            } else {
                assert(t[a] == s[a2]);
            }
        }
    }
    let m = entries_map(s).insert(e.0@, e.1);
    assert forall|q: Seq<char>| entries_map(t).dom().contains(q) <==> m.dom().contains(q) by {
        if entries_map(s).dom().contains(q) {
            let j = choose|j: int| 0 <= j < s.len() && s[j].0@ == q;
            if j < p {
                assert(t[j].0@ == q);
            } else {
                assert(t[j + 1].0@ == q);
            }
        }
        if q == e.0@ {
            assert(t[p].0@ == q);
        }
        if entries_map(t).dom().contains(q) && q != e.0@ {
            let j = choose|j: int| 0 <= j < t.len() && t[j].0@ == q;
            let j2 = if j < p { j } else { j - 1 };
            assert(s[j2].0@ == q);
        }
    }
    assert forall|q: Seq<char>| #[trigger] entries_map(t).dom().contains(q) implies entries_map(
        t,
    )[q] == m[q] by {
        let j = choose|j: int| 0 <= j < t.len() && t[j].0@ == q;
        lemma_entries_lookup(t, j);
        if j < p {
            lemma_entries_lookup(s, j);
        } else if j > p {
            lemma_entries_lookup(s, j - 1);
        }
    }
    assert(entries_map(t) =~= m);
}

/// Records keyed by their string id. Ids are unique, and entries are kept in ascending
/// id order.
#[derive(Debug, PartialEq, Eq)]
pub struct IdMap<V> {
    items: Vec<(String, V)>,
}

impl<V: Clone> Clone for IdMap<V> {
    fn clone(&self) -> (r: Self)
        ensures
            r.entries().len() == self.entries().len(),
            forall|i: int|
                0 <= i < self.entries().len() ==> r.entries()[i].0 == self.entries()[i].0
                    && cloned::<V>(self.entries()[i].1, r.entries()[i].1),
    {
        proof {
            use_type_invariant(self);
        }
        let mut items: Vec<(String, V)> = Vec::new();
        let mut i: usize = 0;
        while i < self.items.len()
            invariant
                i <= self.items@.len(),
                items@.len() == i,
                ids_unique(self.items@),
                ids_sorted(self.items@),
                forall|j: int|
                    0 <= j < i ==> items@[j].0 == self.items@[j].0 && cloned::<V>(
                        self.items@[j].1,
                        items@[j].1,
                    ),
            decreases self.items@.len() - i,
        {
            let k = self.items[i].0.clone();
            let v = self.items[i].1.clone();
            items.push((k, v));
            i = i + 1;
        }
        proof {
            assert(ids_unique(items@)) by {
                assert forall|a: int, b: int|
                    0 <= a < items@.len() && 0 <= b < items@.len() && a != b implies #[trigger] items@[a].0@
                    != #[trigger] items@[b].0@ by {
                    assert(items@[a].0 == self.items@[a].0);
                    assert(items@[b].0 == self.items@[b].0);
                }
            }
            assert(ids_sorted(items@)) by {
                assert forall|a: int, b: int| 0 <= a < b < items@.len() implies id_lt(
                    #[trigger] items@[a].0@,
                    #[trigger] items@[b].0@,
                ) by {
                    assert(items@[a].0 == self.items@[a].0);
                    assert(items@[b].0 == self.items@[b].0);
                }
            }
        }
        IdMap { items }
    }
}

impl<V> View for IdMap<V> {
    type V = Map<Seq<char>, V>;

    open spec fn view(&self) -> Map<Seq<char>, V> {
        entries_map(self.entries())
    }
}

/// An entry of a uniquely keyed sequence is what the map holds for its id.
pub proof fn lemma_entries_lookup<V>(s: Seq<(String, V)>, i: int)
    requires
        ids_unique(s),
        0 <= i < s.len(),
    ensures
        entries_map(s).dom().contains(s[i].0@),
        entries_map(s)[s[i].0@] == s[i].1,
{
    let k = s[i].0@;
    assert(exists|j: int| 0 <= j < s.len() && s[j].0@ == k);
    let j = choose|j: int| 0 <= j < s.len() && s[j].0@ == k;
    assert(j == i);
}

/// Replacing the record of an existing entry replaces it in the map.
pub proof fn lemma_entries_update<V>(s: Seq<(String, V)>, i: int, e: (String, V))
    requires
        ids_unique(s),
        0 <= i < s.len(),
        s[i].0@ == e.0@,
    ensures
        ids_unique(s.update(i, e)),
        entries_map(s.update(i, e)) == entries_map(s).insert(e.0@, e.1),
{
    let t = s.update(i, e);
    assert(ids_unique(t)) by {
        assert forall|a: int, b: int|
            0 <= a < t.len() && 0 <= b < t.len() && a != b implies #[trigger] t[a].0@
            != #[trigger] t[b].0@ by {
            assert(t[a].0@ == s[a].0@);
            assert(t[b].0@ == s[b].0@);
        }
    }
    let m = entries_map(s).insert(e.0@, e.1);
    assert forall|q: Seq<char>| entries_map(t).dom().contains(q) <==> m.dom().contains(q) by {
        if entries_map(s).dom().contains(q) {
            let j = choose|j: int| 0 <= j < s.len() && s[j].0@ == q;
            assert(t[j].0@ == q);
        }
        if entries_map(t).dom().contains(q) {
            let j = choose|j: int| 0 <= j < t.len() && t[j].0@ == q;
            assert(s[j].0@ == q);
        }
    }
    assert forall|q: Seq<char>| #[trigger] entries_map(t).dom().contains(q) implies entries_map(
        t,
    )[q] == m[q] by {
        let j = choose|j: int| 0 <= j < t.len() && t[j].0@ == q;
        lemma_entries_lookup(t, j);
        if j != i {
            lemma_entries_lookup(s, j);
        } else {
            lemma_entries_lookup(t, i);
        }
    }
    assert(entries_map(t) =~= m);
}

/// Removing the entry at position `i` removes its id from the map.
pub proof fn lemma_entries_remove<V>(s: Seq<(String, V)>, i: int)
    requires
        ids_unique(s),
        0 <= i < s.len(),
    ensures
        ids_unique(s.remove(i)),
        entries_map(s.remove(i)) == entries_map(s).remove(s[i].0@),
{
    let t = s.remove(i);
    let k = s[i].0@;
    assert forall|j: int| 0 <= j < t.len() implies #[trigger] t[j] == if j < i {
        s[j]
    } else {
        s[j + 1]
    } by {}
    assert(ids_unique(t)) by {
        assert forall|a: int, b: int|
            0 <= a < t.len() && 0 <= b < t.len() && a != b implies #[trigger] t[a].0@
            != #[trigger] t[b].0@ by {
            let a2 = if a < i { a } else { a + 1 };
            let b2 = if b < i { b } else { b + 1 };
            assert(t[a] == s[a2] && t[b] == s[b2]);
        }
    }
    let m = entries_map(s).remove(k);
    assert forall|q: Seq<char>| entries_map(t).dom().contains(q) <==> m.dom().contains(q) by {
        if m.dom().contains(q) {
            let j = choose|j: int| 0 <= j < s.len() && s[j].0@ == q;
            if j < i {
                assert(t[j].0@ == q);
            } else {
                assert(t[j - 1].0@ == q);
            }
        }
        if entries_map(t).dom().contains(q) {
            let j = choose|j: int| 0 <= j < t.len() && t[j].0@ == q;
            let j2 = if j < i { j } else { j + 1 };
            assert(s[j2].0@ == q);
        }
    }
    assert forall|q: Seq<char>| #[trigger] entries_map(t).dom().contains(q) implies entries_map(
        t,
    )[q] == m[q] by {
        let j = choose|j: int| 0 <= j < t.len() && t[j].0@ == q;
        let j2 = if j < i { j } else { j + 1 };
        lemma_entries_lookup(t, j);
        lemma_entries_lookup(s, j2);
    }
    assert(entries_map(t) =~= m);
}

impl<V> IdMap<V> {
    /// The entries in order.
    pub closed spec fn entries(&self) -> Seq<(String, V)> {
        self.items@
    }

    #[verifier::type_invariant]
    spec fn inv(&self) -> bool {
        ids_unique(self.items@) && ids_sorted(self.items@)
    }

    /// An empty map.
    pub fn new() -> (r: Self)
        ensures
            r.entries() == Seq::<(String, V)>::empty(),
            r@ == Map::<Seq<char>, V>::empty(),
    {
        let r = IdMap { items: Vec::new() };
        assert(r@ =~= Map::<Seq<char>, V>::empty());
        r
    }

    /// The number of entries; the entries ascend by id.
    pub fn len(&self) -> (r: usize)
        ensures
            r == self.entries().len(),
            ids_sorted(self.entries()),
    {
        proof {
            use_type_invariant(self);
        }
        self.items.len()
    }

    /// The entry at position `i`.
    pub fn entry(&self, i: usize) -> (r: (&String, &V))
        requires
            i < self.entries().len(),
        ensures
            *r.0 == self.entries()[i as int].0,
            *r.1 == self.entries()[i as int].1,
            self@.dom().contains(r.0@),
            self@[r.0@] == *r.1,
    {
        proof {
            use_type_invariant(self);
            lemma_entries_lookup(self.entries(), i as int);
        }
        let e = &self.items[i];
        (&e.0, &e.1)
    }

    /// The position of the entry with id `id`, if there is one.
    pub fn position(&self, id: &str) -> (r: Option<usize>)
        ensures
            r is None <==> !self@.dom().contains(id@),
            r matches Some(i) ==> i < self.entries().len() && self.entries()[i as int].0@ == id@,
    {
        proof {
            use_type_invariant(self);
        }
        let key = String::from_str(id);
        let mut i: usize = 0;
        while i < self.items.len()
            invariant
                i <= self.items@.len(),
                key@ == id@,
                forall|j: int| 0 <= j < i ==> self.items@[j].0@ != id@,
            decreases self.items@.len() - i,
        {
            if self.items[i].0.eq(&key) {
                return Some(i);
            }
            i = i + 1;
        }
        None
    }

    /// The record with id `id`, if there is one.
    pub fn get(&self, id: &str) -> (r: Option<&V>)
        ensures
            r is Some <==> self@.dom().contains(id@),
            r matches Some(v) ==> *v == self@[id@],
    {
        match self.position(id) {
            Some(i) => {
                proof {
                    use_type_invariant(self);
                    lemma_entries_lookup(self.entries(), i as int);
                }
                Some(&self.items[i].1)
            },
            None => None,
        }
    }
    /// Sets the record of `id`, returning the record it replaces. A new id goes to its
    /// place in id order.
    pub fn insert(&mut self, id: String, v: V) -> (r: Option<V>)
        ensures
            final(self)@ == old(self)@.insert(id@, v),
            old(self)@.dom().contains(id@) ==> r == Some(old(self)@[id@]),
            !old(self)@.dom().contains(id@) ==> r is None,
    {
        proof {
            use_type_invariant(&*self);
        }
        match self.position(id.as_str()) {
            Some(i) => {
                proof {
                    lemma_entries_lookup(self.items@, i as int);
                    lemma_entries_update(self.items@, i as int, (id, v));
                }
                let ghost before = self.items@;
                let mut items = Vec::new();
                core::mem::swap(&mut self.items, &mut items);
                let old_entry = items.remove(i);
                items.insert(i, (id, v));
                proof {
                    assert(items@ =~= before.update(i as int, (id, v)));
                    assert forall|a: int, b: int| 0 <= a < b < items@.len() implies id_lt(
                        #[trigger] items@[a].0@,
                        #[trigger] items@[b].0@,
                    ) by {
                        assert(items@[a].0@ == before[a].0@);
                        assert(items@[b].0@ == before[b].0@);
                    }
                }
                core::mem::swap(&mut self.items, &mut items);
                Some(old_entry.1)
            },
            None => {
                let ghost before = self.items@;
                let mut p: usize = 0;
                while p < self.items.len() && !id_less(id.as_str(), self.items[p].0.as_str())
                    invariant
                        p <= self.items@.len(),
                        self.items@ == before,
                        ids_sorted(before),
                        !entries_map(before).dom().contains(id@),
                        forall|j: int| 0 <= j < p ==> id_lt(#[trigger] before[j].0@, id@),
                    decreases self.items@.len() - p,
                {
                    proof {
                        if before[p as int].0@ == id@ {
                            assert(entries_map(before).dom().contains(id@));
                        }
                        lemma_id_lt_total(before[p as int].0@, id@);
                    }
                    p = p + 1;
                }
                proof {
                    lemma_entries_insert(before, p as int, (id, v));
                }
                let mut items = Vec::new();
                core::mem::swap(&mut self.items, &mut items);
                items.insert(p, (id, v));
                proof {
                    let t = before.insert(p as int, (id, v));
                    assert(items@ == t);
                    assert forall|a: int, b: int| 0 <= a < b < t.len() implies id_lt(
                        #[trigger] t[a].0@,
                        #[trigger] t[b].0@,
                    ) by {
                        if b < p {
                            assert(t[a] == before[a] && t[b] == before[b]);
                        } else if b == p {
                            assert(t[a] == before[a]);
                        } else if a < p {
                            assert(t[a] == before[a] && t[b] == before[b - 1]);
                        } else if a == p {
                            assert(t[b] == before[b - 1]);
                            if b - 1 > p {
                                lemma_id_lt_transitive(id@, before[p as int].0@, before[b - 1].0@);
                            }
                        } else {
                            assert(t[a] == before[a - 1] && t[b] == before[b - 1]);
                        }
                    }
                }
                core::mem::swap(&mut self.items, &mut items);
                None
            },
        }
    }

    /// Removes the record of `id`, returning it.
    pub fn remove(&mut self, id: &str) -> (r: Option<V>)
        ensures
            final(self)@ == old(self)@.remove(id@),
            old(self)@.dom().contains(id@) ==> r == Some(old(self)@[id@]),
            !old(self)@.dom().contains(id@) ==> r is None,
    {
        proof {
            use_type_invariant(&*self);
        }
        match self.position(id) {
            Some(i) => {
                proof {
                    lemma_entries_lookup(self.items@, i as int);
                    lemma_entries_remove(self.items@, i as int);
                }
                let ghost before = self.items@;
                let mut items = Vec::new();
                core::mem::swap(&mut self.items, &mut items);
                let e = items.remove(i);
                proof {
                    assert forall|a: int, b: int| 0 <= a < b < items@.len() implies id_lt(
                        #[trigger] items@[a].0@,
                        #[trigger] items@[b].0@,
                    ) by {
                        let a2 = if a < i { a } else { a + 1 };
                        let b2 = if b < i { b } else { b + 1 };
                        assert(items@[a] == before[a2] && items@[b] == before[b2]);
                    }
                }
                core::mem::swap(&mut self.items, &mut items);
                Some(e.1)
            },
            None => {
                proof {
                    assert(old(self)@.remove(id@) =~= old(self)@);
                }
                None
            },
        }
    }
}

} // verus!
