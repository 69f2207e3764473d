//! Association lists keyed by participant identity, kept sorted by strictly
//! increasing key. Both the participant registry and the strategies registered
//! on a session are such tables, so lookups are unambiguous and iteration
//! visits identities in ascending order.

use vstd::prelude::*;

verus! {

/// Keys strictly increase along the list; in particular every key occurs once.
pub open spec fn sorted_unique<V>(s: Seq<(u64, V)>) -> bool {
    forall|i: int, j: int| 0 <= i < j < s.len() ==> (#[trigger] s[i]).0 < (#[trigger] s[j]).0
}

/// Some entry of `s` carries the key `id`.
pub open spec fn has_key<V>(s: Seq<(u64, V)>, id: u64) -> bool {
    exists|i: int| 0 <= i < s.len() && (#[trigger] s[i]).0 == id
}

/// The index of the entry carrying `id`; meaningful only when `has_key` holds.
pub open spec fn key_index<V>(s: Seq<(u64, V)>, id: u64) -> int {
    choose|i: int| 0 <= i < s.len() && (#[trigger] s[i]).0 == id
}

/// In a sorted table an index holding `id` is the one `key_index` denotes.
pub proof fn lemma_key_index<V>(s: Seq<(u64, V)>, id: u64, i: int)
    requires
        sorted_unique(s),
        0 <= i < s.len(),
        s[i].0 == id,
    ensures
        has_key(s, id),
        key_index(s, id) == i,
{
    assert(has_key(s, id));
    let j = key_index(s, id);
    if j < i {
        assert(s[j].0 < s[i].0);
    } else if i < j {
        assert(s[i].0 < s[j].0);
    }
}

/// The index of the entry carrying `id`, if one is present.
pub fn find_index<V>(v: &Vec<(u64, V)>, id: u64) -> (r: Option<usize>)
    ensures
        match r {
            Some(i) => i < v@.len() && v@[i as int].0 == id,
            None => !has_key(v@, id),
        },
{
    let mut i: usize = 0;
    while i < v.len()
        invariant
            i <= v@.len(),
            forall|j: int| 0 <= j < i ==> (#[trigger] v@[j]).0 != id,
        decreases v@.len() - i,
    {
        if v[i].0 == id {
            return Some(i);
        }
        i = i + 1;
    }
    None
}

/// The position at which a fresh key `id` belongs in the sorted table `v`.
pub fn insert_position<V>(v: &Vec<(u64, V)>, id: u64) -> (p: usize)
    requires
        sorted_unique(v@),
        !has_key(v@, id),
    ensures
        p <= v@.len(),
        forall|j: int| 0 <= j < p ==> (#[trigger] v@[j]).0 < id,
        forall|j: int| p <= j < v@.len() ==> id < (#[trigger] v@[j]).0,
{
    let mut i: usize = 0;
    while i < v.len()
        invariant
            i <= v@.len(),
            sorted_unique(v@),
            !has_key(v@, id),
            forall|j: int| 0 <= j < i ==> (#[trigger] v@[j]).0 < id,
        decreases v@.len() - i,
    {
        proof {
            if v@[i as int].0 == id {
                assert(has_key(v@, id));
            }
        }
        if v[i].0 > id {
            return i;
        }
        i = i + 1;
    }
    i
}

/// Inserting an entry at its sorted position keeps the table sorted, and the
/// new key is present afterwards while every old key stays present.
pub proof fn lemma_insert_sorted<V>(s: Seq<(u64, V)>, p: int, e: (u64, V))
    requires
        sorted_unique(s),
        0 <= p <= s.len(),
        forall|j: int| 0 <= j < p ==> (#[trigger] s[j]).0 < e.0,
        forall|j: int| p <= j < s.len() ==> e.0 < (#[trigger] s[j]).0,
    ensures
        sorted_unique(s.insert(p, e)),
        has_key(s.insert(p, e), e.0),
        forall|id: u64| #[trigger] has_key(s.insert(p, e), id) <==> has_key(s, id) || id == e.0,
{
    s.insert_ensures(p, e);
    let t = s.insert(p, e);
    assert forall|i: int, j: int| 0 <= i < j < t.len() implies (#[trigger] t[i]).0 < (#[trigger] t[j]).0 by {
        if i < p {
            assert(t[i] == s[i]);
        } else if i == p {
            assert(t[i] == e);
        } else {
            assert(t[i] == s[i - 1]);
        }
        if j < p {
            assert(t[j] == s[j]);
        } else if j == p {
            assert(t[j] == e);
        } else {
            assert(t[j] == s[j - 1]);
        }
    }
    assert(t[p] == e);
    assert(has_key(t, e.0));
    assert forall|id: u64| #[trigger] has_key(t, id) implies has_key(s, id) || id == e.0 by {
        let i = choose|i: int| 0 <= i < t.len() && (#[trigger] t[i]).0 == id;
        if i < p {
            assert(t[i] == s[i]);
            assert(has_key(s, id));
        } else if i == p {
            assert(t[i] == e);
        } else {
            assert(t[i] == s[i - 1]);
            assert(has_key(s, id));
        }
    }
    assert forall|id: u64| has_key(s, id) || id == e.0 implies #[trigger] has_key(t, id) by {
        if has_key(s, id) {
            let i = choose|i: int| 0 <= i < s.len() && (#[trigger] s[i]).0 == id;
            if i < p {
                assert(t[i] == s[i]);
                assert(has_key(t, id));
            } else {
                assert(t[i + 1] == s[i]);
                assert(has_key(t, id));
            }
        }
    }
}

} // verus!
