//! Canonical cache keys: the identifiers taking part in one binding request
//! are collected into a strictly sorted list, so that two requests naming the
//! same buffers in any order produce the same key.

use vstd::prelude::*;

verus! {

/// A strictly increasing sequence: sorted, and free of duplicates.
pub open spec fn strictly_sorted(s: Seq<u32>) -> bool {
    forall|i: int, j: int| 0 <= i < j < s.len() ==> s[i] < s[j]
}

/// The set of identifiers a binding request is keyed on: every vertex-source
/// buffer id together with the index buffer id.
pub open spec fn spec_key_ids(buffer_ids: Seq<u32>, index_buffer: u32) -> Set<u32> {
    buffer_ids.to_set().insert(index_buffer)
}

/// Inserts `x` into a strictly sorted list, keeping it strictly sorted; a
/// value already present is not duplicated.
pub fn insert_sorted_unique(ids: &mut Vec<u32>, x: u32)
    requires
        strictly_sorted(old(ids)@),
    ensures
        strictly_sorted(final(ids)@),
        final(ids)@.to_set() == old(ids)@.to_set().insert(x),
{
    let ghost orig = ids@;
    let mut i: usize = 0;
    while i < ids.len() && ids[i] < x
        invariant
            ids@ == orig,
            strictly_sorted(ids@),
            0 <= i <= ids@.len(),
            forall|k: int| 0 <= k < i ==> ids@[k] < x,
        decreases ids@.len() - i,
    {
        i += 1;
    }
    if i < ids.len() && ids[i] == x {
        proof {
            assert(ids@.contains(x));
            assert(ids@.to_set() =~= orig.to_set().insert(x));
        }
    } else {
        proof {
            assert(forall|k: int| i <= k < orig.len() ==> orig[k] > x) by {
                if i < orig.len() {
                    assert(orig[i as int] != x);
                    assert(orig[i as int] >= x);
                }
            }
        }
        ids.insert(i, x);
        proof {
            let s = ids@;
            assert(s == orig.insert(i as int, x));
            assert forall|p: int, q: int| 0 <= p < q < s.len() implies s[p] < s[q] by {
                if q < i {
                    assert(s[p] == orig[p] && s[q] == orig[q]);
                } else if p > i {
                    assert(s[p] == orig[p - 1] && s[q] == orig[q - 1]);
                } else if p < i && q == i {
                    assert(s[p] == orig[p] && s[q] == x);
                } else if p == i {
                    assert(s[p] == x && s[q] == orig[q - 1]);
                } else {
                    assert(p < i && q > i);
                    assert(s[p] == orig[p] && s[q] == orig[q - 1]);
                }
            }
            assert forall|y: u32| s.contains(y) implies orig.to_set().insert(x).contains(y) by {
                let k = choose|k: int| 0 <= k < s.len() && s[k] == y;
                if k < i {
                    assert(orig[k] == y);
                    assert(orig.contains(y));
                } else if k == i {
                    assert(y == x);
                } else {
                    assert(orig[k - 1] == y);
                    assert(orig.contains(y));
                }
            }
            assert forall|y: u32| orig.to_set().insert(x).contains(y) implies s.contains(y) by {
                if y == x {
                    assert(s[i as int] == x);
                } else {
                    assert(orig.contains(y));
                    let k = choose|k: int| 0 <= k < orig.len() && orig[k] == y;
                    if k < i {
                        assert(s[k] == y);
                    } else {
                        assert(s[k + 1] == y);
                    }
                }
            }
            assert(s.to_set() =~= orig.to_set().insert(x));
        }
    }
}

/// Builds the canonical, strictly sorted identifier list for a request: the
/// buffer ids in any order, plus the index buffer id.
pub fn sorted_id_list(buffer_ids: &Vec<u32>, index_buffer: u32) -> (r: Vec<u32>)
    ensures
        strictly_sorted(r@),
        r@.to_set() == spec_key_ids(buffer_ids@, index_buffer),
{
    let mut r: Vec<u32> = Vec::new();
    proof {
        assert(r@.to_set() =~= buffer_ids@.take(0).to_set());
    }
    let mut i: usize = 0;
    while i < buffer_ids.len()
        invariant
            0 <= i <= buffer_ids@.len(),
            strictly_sorted(r@),
            r@.to_set() == buffer_ids@.take(i as int).to_set(),
        decreases buffer_ids@.len() - i,
    {
        insert_sorted_unique(&mut r, buffer_ids[i]);
        proof {
            let pre = buffer_ids@.take(i as int);
            let post = buffer_ids@.take(i + 1);
            assert forall|y: u32| post.contains(y) implies pre.to_set().insert(buffer_ids@[i as int]).contains(y) by {
                let k = choose|k: int| 0 <= k < post.len() && post[k] == y;
                if k < i {
                    assert(pre[k] == y);
                    assert(pre.contains(y));
                }
            }
            assert forall|y: u32| pre.to_set().insert(buffer_ids@[i as int]).contains(y) implies post.contains(y) by {
                if y == buffer_ids@[i as int] {
                    assert(post[i as int] == y);
                } else {
                    let k = choose|k: int| 0 <= k < pre.len() && pre[k] == y;
                    assert(post[k] == y);
                }
            }
            assert(post.to_set() =~= pre.to_set().insert(buffer_ids@[i as int]));
        }
        i += 1;
    }
    proof {
        assert(buffer_ids@.take(i as int) == buffer_ids@);
    }
    insert_sorted_unique(&mut r, index_buffer);
    r
}

/// Compares two identifier lists for equality.
pub fn ids_equal(a: &Vec<u32>, b: &Vec<u32>) -> (r: bool)
    ensures
        r == (a@ == b@),
{
    if a.len() != b.len() {
        proof {
            assert(a@ != b@) by {
                if a@ == b@ {
                    assert(a@.len() == b@.len());
                }
            }
        }
        return false;
    }
    let mut i: usize = 0;
    while i < a.len()
        invariant
            0 <= i <= a@.len(),
            a@.len() == b@.len(),
            forall|k: int| 0 <= k < i ==> a@[k] == b@[k],
        decreases a@.len() - i,
    {
        if a[i] != b[i] {
            proof {
                assert(a@ != b@) by {
                    if a@ == b@ {
                        assert(a@[i as int] == b@[i as int]);
                    }
                }
            }
            return false;
        }
        i += 1;
    }
    proof {
        assert(a@ =~= b@);
    }
    true
}

/// Order independence of the key: two requests naming the same buffers, in
/// any order, with the same index buffer, are keyed on the same identifier
/// set, and so select the same cache entry.
pub proof fn lemma_key_order_independent(ids1: Seq<u32>, ids2: Seq<u32>, index_buffer: u32)
    requires
        ids1.to_set() == ids2.to_set(),
    ensures
        spec_key_ids(ids1, index_buffer) == spec_key_ids(ids2, index_buffer),
{
}

/// Two strictly sorted lists carrying the same set of identifiers are the
/// same list: the canonical key is determined by the identifier set alone,
/// regardless of the order in which the sources were added.
pub proof fn lemma_strictly_sorted_same_set(s1: Seq<u32>, s2: Seq<u32>)
    requires
        strictly_sorted(s1),
        strictly_sorted(s2),
        s1.to_set() == s2.to_set(),
    ensures
        s1 == s2,
    decreases s1.len(),
{
    if s1.len() == 0 {
        if s2.len() > 0 {
            assert(s2.contains(s2[0]));
            assert(s1.to_set().contains(s2[0]));
            assert(s1.contains(s2[0]));
        }
        assert(s1 =~= s2);
    } else {
        assert(s1.contains(s1[0]));
        assert(s2.to_set().contains(s1[0]));
        assert(s2.contains(s1[0]));
        let j = choose|j: int| 0 <= j < s2.len() && s2[j] == s1[0];
        assert(s2.contains(s2[0]));
        assert(s1.to_set().contains(s2[0]));
        assert(s1.contains(s2[0]));
        let i = choose|i: int| 0 <= i < s1.len() && s1[i] == s2[0];
        assert(s1[0] <= s1[i]);
        assert(s2[0] <= s2[j]);
        assert(s1[0] == s2[0]);
        let t1 = s1.drop_first();
        let t2 = s2.drop_first();
        assert(strictly_sorted(t1)) by {
            assert(forall|p: int, q: int| 0 <= p < q < t1.len() ==> t1[p] == s1[p + 1] && t1[q] == s1[q + 1]);
        }
        assert(strictly_sorted(t2)) by {
            assert(forall|p: int, q: int| 0 <= p < q < t2.len() ==> t2[p] == s2[p + 1] && t2[q] == s2[q + 1]);
        }
        assert(t1.to_set() =~= t2.to_set()) by {
            assert forall|y: u32| t1.contains(y) implies t2.contains(y) by {
                let k = choose|k: int| 0 <= k < t1.len() && t1[k] == y;
                assert(s1[k + 1] == y);
                assert(s1.contains(y));
                assert(s2.to_set().contains(y));
                assert(s2.contains(y));
                let m = choose|m: int| 0 <= m < s2.len() && s2[m] == y;
                assert(y > s1[0]);
                assert(m != 0);
                assert(t2[m - 1] == y);
            }
            assert forall|y: u32| t2.contains(y) implies t1.contains(y) by {
                let k = choose|k: int| 0 <= k < t2.len() && t2[k] == y;
                assert(s2[k + 1] == y);
                assert(s2.contains(y));
                assert(s1.to_set().contains(y));
                assert(s1.contains(y));
                let m = choose|m: int| 0 <= m < s1.len() && s1[m] == y;
                assert(y > s2[0]);
                assert(m != 0);
                assert(t1[m - 1] == y);
            }
        }
        lemma_strictly_sorted_same_set(t1, t2);
        assert(s1 =~= s2) by {
            assert(s1.len() == t1.len() + 1);
            assert(s2.len() == t2.len() + 1);
            assert(forall|k: int| 1 <= k < s1.len() ==> s1[k] == t1[k - 1] && s2[k] == t2[k - 1]);
        }
    }
}

} // verus!
