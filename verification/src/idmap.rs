//! Association list with unique keys, read as a mathematical map.
//!
//! Both the registry's runtime map and the in-memory session store keep
//! their entries as a vector of (identifier, value) pairs; this module gives
//! that representation its map view and the lemmas the operations need.

use vstd::prelude::*;

verus! {

/// Is `k` one of the identifiers among the entries?
pub open spec fn has_id<H>(s: Seq<(String, H)>, k: Seq<char>) -> bool {
    exists|i: int| 0 <= i < s.len() && (#[trigger] s[i]).0@ == k
}

/// The index of `k`'s entry (meaningful only while `has_id(s, k)` holds).
pub open spec fn entry_index<H>(s: Seq<(String, H)>, k: Seq<char>) -> int {
    choose|i: int| 0 <= i < s.len() && (#[trigger] s[i]).0@ == k
}

/// The entries as a mathematical map from identifier to value.
pub open spec fn entries_map<H>(s: Seq<(String, H)>) -> Map<Seq<char>, H> {
    Map::new(|k: Seq<char>| has_id(s, k), |k: Seq<char>| s[entry_index(s, k)].1)
}

/// No identifier occurs twice among the entries.
pub open spec fn unique_ids<H>(s: Seq<(String, H)>) -> bool {
    forall|i: int, j: int|
        0 <= i < j < s.len() ==> (#[trigger] s[i]).0@ != (#[trigger] s[j]).0@
}

pub proof fn lemma_at_index<H>(s: Seq<(String, H)>, i: int)
    requires
        unique_ids(s),
        0 <= i < s.len(),
    ensures
        has_id(s, s[i].0@),
        entry_index(s, s[i].0@) == i,
        entries_map(s).contains_key(s[i].0@),
        entries_map(s)[s[i].0@] == s[i].1,
{
    let k = s[i].0@;
    assert(has_id(s, k));
    let j = entry_index(s, k);
    assert(0 <= j < s.len() && s[j].0@ == k);
    if j < i {
        assert(s[j].0@ != s[i].0@);
    } else if i < j {
        assert(s[i].0@ != s[j].0@);
    }
}

/// Registering under an identifier that already has an entry replaces the
/// handle and nothing else.
pub proof fn lemma_update_entry<H>(s1: Seq<(String, H)>, i: int, id: String, h: H)
    requires
        unique_ids(s1),
        0 <= i < s1.len(),
        s1[i].0@ == id@,
    ensures
        unique_ids(s1.update(i, (id, h))),
        entries_map(s1.update(i, (id, h))) == entries_map(s1).insert(id@, h),
{
    let s2 = s1.update(i, (id, h));
    let m2 = entries_map(s2);
    let m1i = entries_map(s1).insert(id@, h);
    assert forall|a: int, b: int| 0 <= a < b < s2.len() implies (#[trigger] s2[a]).0@ != (
    #[trigger] s2[b]).0@ by {
        assert(s1[a].0@ != s1[b].0@);
        assert(s2[a].0@ == s1[a].0@);
        assert(s2[b].0@ == s1[b].0@);
    }
    assert forall|k: Seq<char>| #[trigger] m2.contains_key(k) implies m1i.contains_key(k) by {
        let j = choose|j: int| 0 <= j < s2.len() && (#[trigger] s2[j]).0@ == k;
        if j != i {
            assert(s1[j].0@ == k);
            assert(has_id(s1, k));
        }
    }
    assert forall|k: Seq<char>| #[trigger] m1i.contains_key(k) implies m2.contains_key(k) by {
        if k == id@ {
            assert(s2[i].0@ == k);
            assert(has_id(s2, k));
        } else {
            let j = choose|j: int| 0 <= j < s1.len() && (#[trigger] s1[j]).0@ == k;
            assert(s2[j].0@ == k);
            assert(has_id(s2, k));
        }
    }
    assert forall|k: Seq<char>| #[trigger] m2.contains_key(k) implies m2[k] == m1i[k] by {
        let j = entry_index(s2, k);
        assert(0 <= j < s2.len() && s2[j].0@ == k);
        lemma_at_index(s2, j);
        if j == i {
            assert(k == id@);
            assert(m2[k] == h);
        } else {
            assert(s2[i].0@ == id@);
            assert(s2[j].0@ != s2[i].0@) by {
                if j < i {
                    assert(s2[j].0@ != s2[i].0@);
                } else {
                    assert(s2[i].0@ != s2[j].0@);
                }
            }
            assert(k != id@);
            assert(s1[j].0@ == k);
            lemma_at_index(s1, j);
            assert(m2[k] == s2[j].1);
            assert(m1i[k] == entries_map(s1)[k]);
            assert(entries_map(s1)[k] == s1[j].1);
        }
    }
    assert(m2 =~= m1i);
}

/// Registering under a fresh identifier adds exactly one entry.
pub proof fn lemma_push_entry<H>(s1: Seq<(String, H)>, id: String, h: H)
    requires
        unique_ids(s1),
        !has_id(s1, id@),
    ensures
        unique_ids(s1.push((id, h))),
        entries_map(s1.push((id, h))) == entries_map(s1).insert(id@, h),
{
    let s2 = s1.push((id, h));
    let m2 = entries_map(s2);
    let m1i = entries_map(s1).insert(id@, h);
    let n = s1.len() as int;
    assert forall|a: int, b: int| 0 <= a < b < s2.len() implies (#[trigger] s2[a]).0@ != (
    #[trigger] s2[b]).0@ by {
        if b == n {
            assert(s2[a] == s1[a]);
            assert(s2[b].0@ == id@);
            assert(has_id(s1, id@) == false);
            assert(s1[a].0@ != id@);
        } else {
            assert(s2[a] == s1[a]);
            assert(s2[b] == s1[b]);
        }
    }
    assert forall|k: Seq<char>| #[trigger] m2.contains_key(k) implies m1i.contains_key(k) by {
        let j = choose|j: int| 0 <= j < s2.len() && (#[trigger] s2[j]).0@ == k;
        if j != n {
            assert(s1[j].0@ == k);
            assert(has_id(s1, k));
        }
    }
    assert forall|k: Seq<char>| #[trigger] m1i.contains_key(k) implies m2.contains_key(k) by {
        if k == id@ {
            assert(s2[n].0@ == k);
            assert(has_id(s2, k));
        } else {
            let j = choose|j: int| 0 <= j < s1.len() && (#[trigger] s1[j]).0@ == k;
            assert(s2[j].0@ == k);
            assert(has_id(s2, k));
        }
    }
    assert forall|k: Seq<char>| #[trigger] m2.contains_key(k) implies m2[k] == m1i[k] by {
        let j = entry_index(s2, k);
        assert(0 <= j < s2.len() && s2[j].0@ == k);
        lemma_at_index(s2, j);
        if j == n {
            assert(k == id@);
            assert(m2[k] == h);
        } else {
            assert(s2[j] == s1[j]);
            assert(s2[n].0@ == id@);
            assert(s2[j].0@ != s2[n].0@);
            assert(k != id@);
            lemma_at_index(s1, j);
            assert(m1i[k] == s1[j].1);
        }
    }
    assert(m2 =~= m1i);
}

/// Removing the one entry for an identifier removes that key and no other.
pub proof fn lemma_remove_entry<H>(s1: Seq<(String, H)>, i: int)
    requires
        unique_ids(s1),
        0 <= i < s1.len(),
    ensures
        unique_ids(s1.remove(i)),
        entries_map(s1.remove(i)) == entries_map(s1).remove(s1[i].0@),
{
    let id = s1[i].0@;
    let s2 = s1.remove(i);
    let m2 = entries_map(s2);
    let m1r = entries_map(s1).remove(id);
    assert forall|a: int, b: int| 0 <= a < b < s2.len() implies (#[trigger] s2[a]).0@ != (
    #[trigger] s2[b]).0@ by {
        let a1: int = if a < i { a } else { a + 1 };
        let b1: int = if b < i { b } else { b + 1 };
        assert(s2[a] == s1[a1]);
        assert(s2[b] == s1[b1]);
        assert(s1[a1].0@ != s1[b1].0@);
    }
    assert forall|k: Seq<char>| #[trigger] m2.contains_key(k) implies m1r.contains_key(k) by {
        let j = choose|j: int| 0 <= j < s2.len() && (#[trigger] s2[j]).0@ == k;
        let j1: int = if j < i { j } else { j + 1 };
        assert(s2[j] == s1[j1]);
        assert(has_id(s1, k));
        assert(k != id) by {
            if j1 < i {
                assert(s1[j1].0@ != s1[i].0@);
            } else {
                assert(s1[i].0@ != s1[j1].0@);
            }
        }
    }
    assert forall|k: Seq<char>| #[trigger] m1r.contains_key(k) implies m2.contains_key(k) by {
        let j = choose|j: int| 0 <= j < s1.len() && (#[trigger] s1[j]).0@ == k;
        assert(k != id);
        assert(j != i);
        let j2: int = if j < i { j } else { j - 1 };
        assert(s2[j2] == s1[j]);
        assert(has_id(s2, k));
    }
    assert forall|k: Seq<char>| #[trigger] m2.contains_key(k) implies m2[k] == m1r[k] by {
        let j = entry_index(s2, k);
        assert(0 <= j < s2.len() && s2[j].0@ == k);
        lemma_at_index(s2, j);
        let j1: int = if j < i { j } else { j + 1 };
        assert(s2[j] == s1[j1]);
        lemma_at_index(s1, j1);
        assert(m2[k] == s2[j].1);
        assert(m1r[k] == entries_map(s1)[k]);
        assert(entries_map(s1)[k] == s1[j1].1);
    }
    assert(m2 =~= m1r);
}

} // verus!
