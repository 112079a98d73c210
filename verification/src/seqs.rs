//! Sequence facts shared by the window lists of a workspace.
use vstd::prelude::*;

verus! {

/// `s` with every occurrence of `id` taken out, order kept.
pub open spec fn remove_id(s: Seq<u64>, id: u64) -> Seq<u64>
    decreases s.len(),
{
    if s.len() == 0 {
        s
    } else {
        let r = remove_id(s.drop_last(), id);
        if s.last() == id {
            r
        } else {
            r.push(s.last())
        }
    }
}

/// The first element of `s` that differs from `id`, if any.
pub open spec fn first_other(s: Seq<u64>, id: u64) -> Option<u64>
    decreases s.len(),
{
    if s.len() == 0 {
        None
    } else if s[0] != id {
        Some(s[0])
    } else {
        first_other(s.drop_first(), id)
    }
}

/// Membership of a sequence extended by one element.
pub proof fn lemma_push_contains(a: Seq<u64>, e: u64, x: u64)
    ensures
        a.push(e).contains(x) <==> (a.contains(x) || x == e),
{
    if a.push(e).contains(x) {
        let k = choose|k: int| 0 <= k < a.push(e).len() && a.push(e)[k] == x;
        if k < a.len() {
            assert(a[k] == x);
        }
    }
    if a.contains(x) {
        let k = choose|k: int| 0 <= k < a.len() && a[k] == x;
        assert(a.push(e)[k] == x);
    }
    if x == e {
        assert(a.push(e)[a.len() as int] == x);
    }
}

/// Membership after removal: exactly the old members other than `id`.
pub proof fn lemma_remove_id_contains(s: Seq<u64>, id: u64, x: u64)
    ensures
        remove_id(s, id).contains(x) <==> (s.contains(x) && x != id),
    decreases s.len(),
{
    if s.len() > 0 {
        let d = s.drop_last();
        lemma_remove_id_contains(d, id, x);
        assert(s =~= d.push(s.last()));
        lemma_push_contains(d, s.last(), x);
        lemma_push_contains(remove_id(d, id), s.last(), x);
    }
}

/// Removal never lengthens a sequence.
pub proof fn lemma_remove_id_len(s: Seq<u64>, id: u64)
    ensures
        remove_id(s, id).len() <= s.len(),
        !s.contains(id) ==> remove_id(s, id) == s,
    decreases s.len(),
{
    if s.len() > 0 {
        lemma_remove_id_len(s.drop_last(), id);
        if !s.contains(id) {
            assert(!s.drop_last().contains(id)) by {
                if s.drop_last().contains(id) {
                    let k = choose|k: int| 0 <= k < s.drop_last().len() && s.drop_last()[k] == id;
                    assert(s[k] == id);
                }
            }
            assert(s.last() != id) by {
                assert(s[s.len() - 1] == s.last());
            }
            assert(s.drop_last().push(s.last()) =~= s);
        }
    }
}

/// Removal keeps a duplicate-free sequence duplicate-free.
pub proof fn lemma_remove_id_no_dup(s: Seq<u64>, id: u64)
    requires
        s.no_duplicates(),
    ensures
        remove_id(s, id).no_duplicates(),
    decreases s.len(),
{
    if s.len() > 0 {
        let d = s.drop_last();
        assert(d.no_duplicates()) by {
            assert forall|i: int, j: int| 0 <= i < d.len() && 0 <= j < d.len() && i != j implies d[i] != d[j] by {
                assert(s[i] == d[i] && s[j] == d[j]);
            }
        }
        lemma_remove_id_no_dup(d, id);
        let r = remove_id(d, id);
        if s.last() != id {
            assert(!r.contains(s.last())) by {
                lemma_remove_id_contains(d, id, s.last());
                if d.contains(s.last()) {
                    let k = choose|k: int| 0 <= k < d.len() && d[k] == s.last();
                    assert(s[k] == s[s.len() - 1]);
                }
            }
            assert forall|i: int, j: int| 0 <= i < r.push(s.last()).len() && 0 <= j < r.push(s.last()).len() && i != j
                implies r.push(s.last())[i] != r.push(s.last())[j] by {
                if i == r.len() {
                    assert(r[j] != s.last()) by {
                        if r[j] == s.last() {
                            assert(r.contains(s.last()));
                        }
                    }
                } else if j == r.len() {
                    assert(r[i] != s.last()) by {
                        if r[i] == s.last() {
                            assert(r.contains(s.last()));
                        }
                    }
                }
            }
        }
    }
}

/// The first element different from `id` is the first element of the
/// sequence with `id` removed.
pub proof fn lemma_first_other(s: Seq<u64>, id: u64)
    ensures
        first_other(s, id) is Some ==> {
            let x = first_other(s, id)->0;
            &&& x != id
            &&& s.contains(x)
        },
        first_other(s, id) is None <==> (forall|i: int| 0 <= i < s.len() ==> s[i] == id),
    decreases s.len(),
{
    if s.len() > 0 {
        lemma_first_other(s.drop_first(), id);
        if s[0] == id {
            if first_other(s, id) is Some {
                let x = first_other(s, id)->0;
                let k = choose|k: int| 0 <= k < s.drop_first().len() && s.drop_first()[k] == x;
                assert(s[k + 1] == x);
            }
            assert((forall|i: int| 0 <= i < s.len() ==> s[i] == id) <==> (forall|i: int|
                0 <= i < s.drop_first().len() ==> s.drop_first()[i] == id)) by {
                if forall|i: int| 0 <= i < s.drop_first().len() ==> s.drop_first()[i] == id {
                    assert forall|i: int| 0 <= i < s.len() implies s[i] == id by {
                        if i > 0 {
                            assert(s[i] == s.drop_first()[i - 1]);
                        }
                    }
                }
            }
        } else {
            assert(s.contains(s[0]));
        }
    }
}

/// Copy of `v` without `id`.
pub fn vec_without(v: &Vec<u64>, id: u64) -> (r: Vec<u64>)
    ensures
        r@ == remove_id(v@, id),
{
    let mut r: Vec<u64> = Vec::new();
    let mut i: usize = 0;
    while i < v.len()
        invariant
            i <= v.len(),
            r@ == remove_id(v@.take(i as int), id),
        decreases v.len() - i,
    {
        assert(v@.take(i as int + 1).drop_last() =~= v@.take(i as int));
        if v[i] != id {
            r.push(v[i]);
        }
        i += 1;
    }
    assert(v@.take(v.len() as int) =~= v@);
    r
}

/// Remove every occurrence of `id` from `v` in place.
pub fn retain_not(v: &mut Vec<u64>, id: u64)
    ensures
        final(v)@ == remove_id(old(v)@, id),
{
    let r = vec_without(v, id);
    *v = r;
}

/// The first element of `v` other than `id`.
pub fn find_other(v: &Vec<u64>, id: u64) -> (r: Option<u64>)
    ensures
        r == first_other(v@, id),
{
    let mut i: usize = 0;
    assert(v@.skip(0) =~= v@);
    while i < v.len()
        invariant
            i <= v.len(),
            first_other(v@, id) == first_other(v@.skip(i as int), id),
            forall|k: int| 0 <= k < i ==> v@[k] == id,
        decreases v.len() - i,
    {
        assert(v@.skip(i as int).drop_first() =~= v@.skip(i as int + 1));
        if v[i] != id {
            assert(v@.skip(i as int)[0] == v@[i as int]);
            return Some(v[i]);
        }
        i += 1;
    }
    None
}

/// Whether `v` holds `id`.
pub fn vec_contains(v: &Vec<u64>, id: u64) -> (r: bool)
    ensures
        r == v@.contains(id),
{
    let mut i: usize = 0;
    while i < v.len()
        invariant
            i <= v.len(),
            forall|k: int| 0 <= k < i ==> v@[k] != id,
        decreases v.len() - i,
    {
        if v[i] == id {
            assert(v@[i as int] == id);
            return true;
        }
        i += 1;
    }
    false
}

/// Position of the first occurrence of `id` in `v`.
pub fn position_of(v: &Vec<u64>, id: u64) -> (r: Option<usize>)
    ensures
        match r {
            Some(p) => p < v@.len() && v@[p as int] == id && forall|k: int| 0 <= k < p ==> v@[k] != id,
            None => !v@.contains(id),
        },
{
    let mut i: usize = 0;
    while i < v.len()
        invariant
            i <= v.len(),
            forall|k: int| 0 <= k < i ==> v@[k] != id,
        decreases v.len() - i,
    {
        if v[i] == id {
            return Some(i);
        }
        i += 1;
    }
    None
}

} // verus!
