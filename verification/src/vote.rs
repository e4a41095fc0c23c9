//! Vote directions and the per-user vote record: an association list from ad
//! id to direction, with at most one entry per ad id.

use vstd::prelude::*;

verus! {

/// The two directions a vote can take.
#[derive(PartialEq, Eq, Structural, Clone, Copy, Debug)]
pub enum VoteDirection {
    Up,
    Down,
}

/// The direction a vote record holds for ad id `k`, if any. Scans from the
/// back, so with unique keys it is the record's single entry for `k`.
pub open spec fn lookup(s: Seq<(u64, VoteDirection)>, k: u64) -> Option<VoteDirection>
    decreases s.len(),
{
    if s.len() == 0 {
        None
    } else if s.last().0 == k {
        Some(s.last().1)
    } else {
        lookup(s.drop_last(), k)
    }
}

/// No ad id occurs twice in the record.
pub open spec fn unique_keys(s: Seq<(u64, VoteDirection)>) -> bool {
    forall|i: int, j: int| 0 <= i < j < s.len() ==> (#[trigger] s[i]).0 != (#[trigger] s[j]).0
}

/// A present key is found by `lookup`.
pub proof fn lemma_lookup_at(s: Seq<(u64, VoteDirection)>, i: int)
    requires
        unique_keys(s),
        0 <= i < s.len(),
    ensures
        lookup(s, s[i].0) == Some(s[i].1),
    decreases s.len(),
{
    if i == s.len() - 1 {
    } else {
        assert(s.drop_last()[i] == s[i]);
        lemma_lookup_at(s.drop_last(), i);
    }
}

/// A key that `lookup` finds is present at some index.
pub proof fn lemma_lookup_some_index(s: Seq<(u64, VoteDirection)>, k: u64) -> (i: int)
    requires
        lookup(s, k) is Some,
    ensures
        0 <= i < s.len(),
        s[i].0 == k,
        s[i].1 == lookup(s, k)->Some_0,
    decreases s.len(),
{
    if s.last().0 == k {
        s.len() - 1
    } else {
        let i = lemma_lookup_some_index(s.drop_last(), k);
        assert(s.drop_last()[i] == s[i]);
        i
    }
}

/// Replacing the entry at `i` by one with the same key changes `lookup` only
/// at that key.
pub proof fn lemma_lookup_update(s: Seq<(u64, VoteDirection)>, i: int, d: VoteDirection, k: u64)
    requires
        unique_keys(s),
        0 <= i < s.len(),
    ensures
        lookup(s.update(i, (s[i].0, d)), k) == (if k == s[i].0 {
            Some(d)
        } else {
            lookup(s, k)
        }),
    decreases s.len(),
{
    let t = s.update(i, (s[i].0, d));
    assert(t.len() == s.len());
    if i == s.len() - 1 {
        assert(t.last() == (s[i].0, d));
        assert(t.drop_last() =~= s.drop_last());
    } else {
        assert(t.last() == s.last());
        assert(t.drop_last() =~= s.drop_last().update(i, (s[i].0, d)));
        assert(s.drop_last()[i] == s[i]);
        lemma_lookup_update(s.drop_last(), i, d, k);
    }
}

/// Removing the entry at `i` erases `lookup` at its key and keeps every other
/// key unchanged.
pub proof fn lemma_lookup_remove(s: Seq<(u64, VoteDirection)>, i: int, k: u64)
    requires
        unique_keys(s),
        0 <= i < s.len(),
    ensures
        lookup(s.remove(i), k) == (if k == s[i].0 {
            None::<VoteDirection>
        } else {
            lookup(s, k)
        }),
    decreases s.len(),
{
    let t = s.remove(i);
    if i == s.len() - 1 {
        assert(t =~= s.drop_last());
        if k == s[i].0 {
            if lookup(t, k) is Some {
                let j = lemma_lookup_some_index(t, k);
                assert(s[j] == t[j]);
            }
        }
    } else {
        assert(t.last() == s.last());
        assert(t.drop_last() =~= s.drop_last().remove(i));
        assert(s.drop_last()[i] == s[i]);
        lemma_lookup_remove(s.drop_last(), i, k);
    }
}

/// Appending an entry sets `lookup` at its key and keeps every other key.
pub proof fn lemma_lookup_push(s: Seq<(u64, VoteDirection)>, k: u64, d: VoteDirection, k2: u64)
    ensures
        lookup(s.push((k, d)), k2) == (if k2 == k {
            Some(d)
        } else {
            lookup(s, k2)
        }),
{
    let t = s.push((k, d));
    assert(t.last() == (k, d));
    assert(t.drop_last() =~= s);
}

/// Finds the index holding key `k`, if any.
fn find_key(v: &Vec<(u64, VoteDirection)>, k: u64) -> (r: Option<usize>)
    ensures
        match r {
            Some(i) => i < v@.len() && v@[i as int].0 == k,
            None => forall|i: int| 0 <= i < v@.len() ==> (#[trigger] v@[i]).0 != k,
        },
{
    let mut i: usize = 0;
    while i < v.len()
        invariant
            i <= v@.len(),
            forall|j: int| 0 <= j < i ==> (#[trigger] v@[j]).0 != k,
        decreases v@.len() - i,
    {
        if v[i].0 == k {
            return Some(i);
        }
        i += 1;
    }
    None
}

/// Reads the vote a record holds for ad id `k`.
pub fn votes_get(v: &Vec<(u64, VoteDirection)>, k: u64) -> (r: Option<VoteDirection>)
    requires
        unique_keys(v@),
    ensures
        r == lookup(v@, k),
{
    match find_key(v, k) {
        Some(i) => {
            proof {
                lemma_lookup_at(v@, i as int);
            }
            Some(v[i].1)
        },
        None => {
            proof {
                if lookup(v@, k) is Some {
                    lemma_lookup_some_index(v@, k);
                }
            }
            None
        },
    }
}

/// Writes direction `d` for ad id `k`, overwriting any prior entry.
pub fn votes_set(v: &mut Vec<(u64, VoteDirection)>, k: u64, d: VoteDirection)
    requires
        unique_keys(old(v)@),
    ensures
        unique_keys(final(v)@),
        lookup(final(v)@, k) == Some(d),
        forall|k2: u64| k2 != k ==> lookup(final(v)@, k2) == lookup(old(v)@, k2),
        forall|i: int|
            0 <= i < final(v)@.len() ==> (#[trigger] final(v)@[i]).0 == k || exists|j: int|
                0 <= j < old(v)@.len() && (#[trigger] old(v)@[j]).0 == final(v)@[i].0,
{
    match find_key(v, k) {
        Some(i) => {
            let ghost s = v@;
            v.remove(i);
            v.insert(i, (k, d));
            proof {
                assert(v@ =~= s.update(i as int, (s[i as int].0, d)));
                assert forall|k2: u64| true implies lookup(v@, k2) == (if k2 == k {
                    Some(d)
                } else {
                    lookup(s, k2)
                }) by {
                    lemma_lookup_update(s, i as int, d, k2);
                }
                assert forall|i2: int|
                    0 <= i2 < v@.len() implies (#[trigger] v@[i2]).0 == k || exists|j: int|
                        0 <= j < s.len() && (#[trigger] s[j]).0 == v@[i2].0 by {
                    if i2 != i {
                        assert(s[i2].0 == v@[i2].0);
                    }
                }
            }
        },
        None => {
            let ghost s = v@;
            v.push((k, d));
            proof {
                assert forall|k2: u64| true implies lookup(v@, k2) == (if k2 == k {
                    Some(d)
                } else {
                    lookup(s, k2)
                }) by {
                    lemma_lookup_push(s, k, d, k2);
                }
                assert forall|i2: int|
                    0 <= i2 < v@.len() implies (#[trigger] v@[i2]).0 == k || exists|j: int|
                        0 <= j < s.len() && (#[trigger] s[j]).0 == v@[i2].0 by {
                    if i2 != s.len() {
                        assert(s[i2].0 == v@[i2].0);
                    }
                }
            }
        },
    }
}

/// Removes the entry for ad id `k`, returning the direction it held.
pub fn votes_remove(v: &mut Vec<(u64, VoteDirection)>, k: u64) -> (r: Option<VoteDirection>)
    requires
        unique_keys(old(v)@),
    ensures
        unique_keys(final(v)@),
        r == lookup(old(v)@, k),
        lookup(final(v)@, k) is None,
        lookup(old(v)@, k) is None ==> final(v)@ == old(v)@,
        forall|k2: u64| k2 != k ==> lookup(final(v)@, k2) == lookup(old(v)@, k2),
        forall|i: int|
            0 <= i < final(v)@.len() ==> exists|j: int|
                0 <= j < old(v)@.len() && (#[trigger] old(v)@[j]).0 == (#[trigger] final(v)@[i]).0,
{
    match find_key(v, k) {
        Some(i) => {
            let ghost s = v@;
            let e = v.remove(i);
            proof {
                lemma_lookup_at(s, i as int);
                assert forall|k2: u64| true implies lookup(v@, k2) == (if k2 == k {
                    None::<VoteDirection>
                } else {
                    lookup(s, k2)
                }) by {
                    lemma_lookup_remove(s, i as int, k2);
                }
                assert forall|i2: int| 0 <= i2 < v@.len() implies exists|j: int|
                    0 <= j < s.len() && (#[trigger] s[j]).0 == (#[trigger] v@[i2]).0 by {
                    if i2 < i {
                        assert(s[i2].0 == v@[i2].0);
                    } else {
                        assert(s[i2 + 1].0 == v@[i2].0);
                    }
                }
            }
            Some(e.1)
        },
        None => {
            proof {
                if lookup(v@, k) is Some {
                    lemma_lookup_some_index(v@, k);
                }
            }
            None
        },
    }
}

} // verus!
