//! Small maps keyed by strings, held as vectors of pairs.
//!
//! A map here is a `Vec<(String, V)>`; a lookup finds the first pair with the key and an
//! insertion replaces the value of that pair or appends a new one, so keys stay unique
//! when every change goes through [`map_insert`].

use vstd::prelude::*;
use crate::text::str_eq;

verus! {

/// Value of the first pair of `m` whose key is `k`.
pub open spec fn lookup<V>(m: Seq<(String, V)>, k: Seq<char>) -> Option<V>
    decreases m.len(),
{
    if m.len() == 0 {
        None
    } else if m[0].0@ == k {
        Some(m[0].1)
    } else {
        lookup(m.drop_first(), k)
    }
}

/// Keys of `m`, in order.
pub open spec fn keys<V>(m: Seq<(String, V)>) -> Seq<Seq<char>> {
    m.map_values(|p: (String, V)| p.0@)
}

/// `m` after inserting `v` under `k`: the first pair with key `k` gets value `v`, or a new
/// pair is appended when there is none.
pub open spec fn insert_spec<V>(m: Seq<(String, V)>, k: String, v: V) -> Seq<(String, V)>
    decreases m.len(),
{
    if m.len() == 0 {
        seq![(k, v)]
    } else if m[0].0@ == k@ {
        seq![(m[0].0, v)] + m.drop_first()
    } else {
        seq![m[0]] + insert_spec(m.drop_first(), k, v)
    }
}

/// Index of the first pair with key `k`.
pub fn map_position<V>(m: &Vec<(String, V)>, k: &str) -> (r: Option<usize>)
    ensures
        match r {
            Some(i) => {
                &&& i < m@.len()
                &&& lookup(m@, k@) == Some(m@[i as int].1)
                &&& m@[i as int].0@ == k@
                &&& forall|j: int| 0 <= j < i ==> m@[j].0@ != k@
            },
            None => lookup(m@, k@) == None::<V>,
        },
{
    let mut i: usize = 0;
    assert(m@.skip(0) == m@);
    while i < m.len()
        invariant
            i <= m@.len(),
            lookup(m@, k@) == lookup(m@.skip(i as int), k@),
            forall|j: int| 0 <= j < i ==> m@[j].0@ != k@,
        decreases m@.len() - i,
    {
        if str_eq(m[i].0.as_str(), k) {
            assert(m@.skip(i as int)[0] == m@[i as int]);
            return Some(i);
        }
        assert(m@.skip(i as int).drop_first() == m@.skip(i + 1));
        i = i + 1;
    }
    None
}

/// Inserts `v` under `k`, replacing the value of an existing pair with that key.
pub fn map_insert<V>(m: &mut Vec<(String, V)>, k: String, v: V)
    ensures
        final(m)@ == insert_spec(old(m)@, k, v),
{
    let ghost m0 = m@;
    let pos = map_position(m, k.as_str());
    match pos {
        Some(i) => {
            proof {
                lemma_insert_at(m0, k, v, i as int);
            }
            let old_key = m[i].0.clone();
            m.set(i, (old_key, v));
            assert(m@ =~= m0.update(i as int, (m0[i as int].0, v)));
        },
        None => {
            proof {
                lemma_lookup_none(m0, k@);
                lemma_insert_absent(m0, k, v);
            }
            m.push((k, v));
        },
    }
}

/// With no pair for `k`, no key equals `k`.
pub proof fn lemma_lookup_none<V>(m: Seq<(String, V)>, k: Seq<char>)
    requires
        lookup(m, k) == None::<V>,
    ensures
        forall|j: int| 0 <= j < m.len() ==> m[j].0@ != k,
    decreases m.len(),
{
    if m.len() > 0 {
        lemma_lookup_none(m.drop_first(), k);
        assert forall|j: int| 0 <= j < m.len() implies m[j].0@ != k by {
            if j > 0 {
                assert(m[j] == m.drop_first()[j - 1]);
            }
        }
    }
}

/// Inserting a key whose first occurrence is at `i` replaces that pair's value.
pub proof fn lemma_insert_at<V>(m: Seq<(String, V)>, k: String, v: V, i: int)
    requires
        0 <= i < m.len(),
        m[i].0@ == k@,
        forall|j: int| 0 <= j < i ==> m[j].0@ != k@,
    ensures
        insert_spec(m, k, v) == m.update(i, (m[i].0, v)),
    decreases i,
{
    if i == 0 {
        assert(seq![(m[0].0, v)] + m.drop_first() =~= m.update(0, (m[0].0, v)));
    } else {
        lemma_insert_at(m.drop_first(), k, v, i - 1);
        assert(seq![m[0]] + m.drop_first().update(i - 1, (m[i].0, v)) =~= m.update(i, (m[i].0, v)));
    }
}

/// `m` with the value of the first pair whose key is `k` replaced by `v`; `m` itself when
/// no pair has that key.
pub open spec fn update_first<V>(m: Seq<(String, V)>, k: Seq<char>, v: V) -> Seq<(String, V)>
    decreases m.len(),
{
    if m.len() == 0 {
        m
    } else if m[0].0@ == k {
        seq![(m[0].0, v)] + m.drop_first()
    } else {
        seq![m[0]] + update_first(m.drop_first(), k, v)
    }
}

/// Updating a key whose first occurrence is at `i` replaces that pair's value.
pub proof fn lemma_update_first_at<V>(m: Seq<(String, V)>, k: Seq<char>, v: V, i: int)
    requires
        0 <= i < m.len(),
        m[i].0@ == k,
        forall|j: int| 0 <= j < i ==> m[j].0@ != k,
    ensures
        update_first(m, k, v) == m.update(i, (m[i].0, v)),
    decreases i,
{
    if i == 0 {
        assert(seq![(m[0].0, v)] + m.drop_first() =~= m.update(0, (m[0].0, v)));
    } else {
        lemma_update_first_at(m.drop_first(), k, v, i - 1);
        assert(seq![m[0]] + m.drop_first().update(i - 1, (m[i].0, v)) =~= m.update(i, (m[i].0, v)));
    }
}

/// Inserting an absent key appends a pair.
pub proof fn lemma_insert_absent<V>(m: Seq<(String, V)>, k: String, v: V)
    requires
        forall|j: int| 0 <= j < m.len() ==> m[j].0@ != k@,
    ensures
        insert_spec(m, k, v) == m.push((k, v)),
    decreases m.len(),
{
    if m.len() == 0 {
        assert(seq![(k, v)] =~= m.push((k, v)));
    } else {
        lemma_insert_absent(m.drop_first(), k, v);
        assert(seq![m[0]] + m.drop_first().push((k, v)) =~= m.push((k, v)));
    }
}

/// `m` (a map of views) after inserting `w` under `k`, as [`insert_spec`] does.
pub open spec fn insert_view<W>(m: Seq<(Seq<char>, W)>, k: Seq<char>, w: W) -> Seq<(Seq<char>, W)>
    decreases m.len(),
{
    if m.len() == 0 {
        seq![(k, w)]
    } else if m[0].0 == k {
        seq![(m[0].0, w)] + m.drop_first()
    } else {
        seq![m[0]] + insert_view(m.drop_first(), k, w)
    }
}

/// The map with keys and values taken by view.
pub open spec fn map_view<V, W>(m: Seq<(String, V)>, f: spec_fn(V) -> W) -> Seq<(Seq<char>, W)> {
    m.map_values(|p: (String, V)| (p.0@, f(p.1)))
}

/// Inserting and then taking views is taking views and then inserting.
pub proof fn lemma_insert_view<V, W>(m: Seq<(String, V)>, k: String, v: V, f: spec_fn(V) -> W)
    ensures
        map_view(insert_spec(m, k, v), f) == insert_view(map_view(m, f), k@, f(v)),
    decreases m.len(),
{
    if m.len() == 0 {
        assert(map_view(insert_spec(m, k, v), f) =~= insert_view(map_view(m, f), k@, f(v)));
    } else {
        lemma_insert_view(m.drop_first(), k, v, f);
        assert(map_view(m, f).drop_first() =~= map_view(m.drop_first(), f));
        if m[0].0@ == k@ {
            assert(map_view(insert_spec(m, k, v), f) =~= insert_view(map_view(m, f), k@, f(v)));
        } else {
            assert(map_view(insert_spec(m, k, v), f) =~= insert_view(map_view(m, f), k@, f(v)));
        }
    }
}

/// Whether no two pairs share a key.
pub open spec fn unique_keys<V>(m: Seq<(String, V)>) -> bool {
    forall|i: int, j: int| 0 <= i < j < m.len() ==> #[trigger] m[i].0@ != #[trigger] m[j].0@
}

/// After inserting under a key, a lookup of that key finds the value.
pub proof fn lemma_lookup_inserted<V>(m: Seq<(String, V)>, k: String, v: V)
    ensures
        lookup(insert_spec(m, k, v), k@) == Some(v),
    decreases m.len(),
{
    if m.len() > 0 && m[0].0@ != k@ {
        lemma_lookup_inserted(m.drop_first(), k, v);
        assert((seq![m[0]] + insert_spec(m.drop_first(), k, v)).drop_first() == insert_spec(m.drop_first(), k, v));
    } else if m.len() > 0 {
        assert((seq![(m[0].0, v)] + m.drop_first())[0] == (m[0].0, v));
    }
}

/// Unique keys are keys without duplicates.
pub proof fn lemma_unique_keys_no_duplicates<V>(m: Seq<(String, V)>)
    ensures
        unique_keys(m) <==> keys(m).no_duplicates(),
{
    let ks = keys(m);
    if unique_keys(m) {
        assert forall|i: int, j: int| 0 <= i < ks.len() && 0 <= j < ks.len() && i != j implies ks[i] != ks[j] by {
            if i < j {
                assert(m[i].0@ != m[j].0@);
            } else {
                assert(m[j].0@ != m[i].0@);
            }
        }
    }
    if ks.no_duplicates() {
        assert forall|i: int, j: int| 0 <= i < j < m.len() implies #[trigger] m[i].0@ != #[trigger] m[j].0@ by {
            assert(ks[i] == m[i].0@ && ks[j] == m[j].0@);
        }
    }
}

/// The keys after an insertion: unchanged when the key was there, else the key appended.
pub proof fn lemma_keys_insert<V>(m: Seq<(String, V)>, k: String, v: V)
    ensures
        keys(insert_spec(m, k, v)) == if keys(m).contains(k@) {
            keys(m)
        } else {
            keys(m).push(k@)
        },
    decreases m.len(),
{
    if m.len() == 0 {
        assert(keys(insert_spec(m, k, v)) =~= keys(m).push(k@));
    } else {
        let rest = m.drop_first();
        assert(keys(m) =~= seq![m[0].0@] + keys(rest));
        if m[0].0@ == k@ {
            assert(keys(m)[0] == k@);
            assert(keys(insert_spec(m, k, v)) =~= keys(m));
        } else {
            lemma_keys_insert(rest, k, v);
            let r = insert_spec(rest, k, v);
            assert(keys(seq![m[0]] + r) =~= seq![m[0].0@] + keys(r));
            if keys(rest).contains(k@) {
                let j = choose|j: int| 0 <= j < keys(rest).len() && keys(rest)[j] == k@;
                assert(keys(m)[j + 1] == k@);
                assert(keys(insert_spec(m, k, v)) =~= keys(m));
            } else {
                assert(!keys(m).contains(k@)) by {
                    if keys(m).contains(k@) {
                        let j = choose|j: int| 0 <= j < keys(m).len() && keys(m)[j] == k@;
                        assert(j > 0);
                        assert(keys(rest)[j - 1] == k@);
                    }
                }
                assert(keys(insert_spec(m, k, v)) =~= keys(m).push(k@));
            }
        }
    }
}

/// Inserting keeps the keys unique.
pub proof fn lemma_insert_keeps_unique<V>(m: Seq<(String, V)>, k: String, v: V)
    requires
        unique_keys(m),
    ensures
        unique_keys(insert_spec(m, k, v)),
{
    lemma_unique_keys_no_duplicates(m);
    lemma_keys_insert(m, k, v);
    lemma_unique_keys_no_duplicates(insert_spec(m, k, v));
    let ks = keys(m);
    if !ks.contains(k@) {
        let ks2 = ks.push(k@);
        assert forall|i: int, j: int| 0 <= i < ks2.len() && 0 <= j < ks2.len() && i != j implies ks2[i] != ks2[j] by {
            if i < ks.len() && j < ks.len() {
                assert(ks2[i] == ks[i] && ks2[j] == ks[j]);
            } else if i < ks.len() {
                assert(ks2[i] == ks[i]);
            } else if j < ks.len() {
                assert(ks2[j] == ks[j]);
            }
        }
    }
}

/// A lookup of the key at an index, with no earlier pair holding that key, finds the value
/// there.
pub proof fn lemma_lookup_first<V>(m: Seq<(String, V)>, i: int)
    requires
        0 <= i < m.len(),
        forall|j: int| 0 <= j < i ==> m[j].0@ != m[i].0@,
    ensures
        lookup(m, m[i].0@) == Some(m[i].1),
    decreases i,
{
    if i > 0 {
        assert(m[0].0@ != m[i].0@);
        let t = m.drop_first();
        assert(t[i - 1] == m[i]);
        assert forall|j: int| 0 <= j < i - 1 implies (#[trigger] t[j]).0@ != t[i - 1].0@ by {
            assert(t[j] == m[j + 1]);
        }
        lemma_lookup_first(t, i - 1);
    }
}

} // verus!
