//! Insertion-ordered handle lists: removing entries while keeping the order of
//! the rest.

use vstd::prelude::*;

verus! {

/// The test that keeps every entry other than `x`.
pub open spec fn other_than(x: usize) -> spec_fn(usize) -> bool {
    |y: usize| y != x
}

/// `s` without every occurrence of `x`, the rest in their order.
pub open spec fn without(s: Seq<usize>, x: usize) -> Seq<usize> {
    s.filter(other_than(x))
}

/// Filtering keeps exactly the entries that pass, and keeps them distinct.
pub proof fn lemma_filter_facts(s: Seq<usize>, f: spec_fn(usize) -> bool)
    ensures
        forall|x: usize| #[trigger] s.filter(f).contains(x) <==> (s.contains(x) && f(x)),
        s.no_duplicates() ==> s.filter(f).no_duplicates(),
    decreases s.len(),
{
    reveal(Seq::filter);
    if s.len() == 0 {
        assert(s.filter(f) =~= Seq::<usize>::empty());
    } else {
        let d = s.drop_last();
        let l = s.last();
        lemma_filter_facts(d, f);
        assert(s =~= d.push(l));
        assert forall|x: usize| s.contains(x) <==> (d.contains(x) || x == l) by {
            if s.contains(x) {
                let i = choose|i: int| 0 <= i < s.len() && s[i] == x;
                if i < s.len() - 1 {
                    assert(d[i] == x);
                }
            }
            if d.contains(x) {
                let i = choose|i: int| 0 <= i < d.len() && d[i] == x;
                assert(s[i] == x);
            }
            if x == l {
                assert(s[s.len() - 1] == x);
            }
        }
        let t = d.filter(f);
        assert(s.drop_last() == d);
        assert(s.filter(f) == (if f(l) { t.push(l) } else { t }));
        assert forall|x: usize| t.push(l).contains(x) <==> (t.contains(x) || x == l) by {
            if t.push(l).contains(x) {
                let i = choose|i: int| 0 <= i < t.len() + 1 && t.push(l)[i] == x;
                if i < t.len() {
                    assert(t[i] == x);
                }
            }
            if t.contains(x) {
                let i = choose|i: int| 0 <= i < t.len() && t[i] == x;
                assert(t.push(l)[i] == x);
            }
            if x == l {
                assert(t.push(l)[t.len() as int] == x);
            }
        }
        assert forall|x: usize| #[trigger] s.filter(f).contains(x) <==> (s.contains(x) && f(x)) by {
            assert(t.contains(x) <==> (d.contains(x) && f(x)));
            assert(s.contains(x) <==> (d.contains(x) || x == l));
            assert(t.push(l).contains(x) <==> (t.contains(x) || x == l));
            if f(l) {
                assert(s.filter(f) == t.push(l));
            } else {
                assert(s.filter(f) == t);
            }
        }
        if s.no_duplicates() {
            assert(d.no_duplicates()) by {
                assert forall|i: int, j: int| 0 <= i < d.len() && 0 <= j < d.len() && i != j implies d[i] != d[j] by {
                    assert(s[i] == d[i] && s[j] == d[j]);
                }
            }
            assert(!d.contains(l)) by {
                if d.contains(l) {
                    let i = choose|i: int| 0 <= i < d.len() && d[i] == l;
                    assert(s[i] == s[s.len() - 1]);
                }
            }
            if f(l) {
                let u = t.push(l);
                assert forall|i: int, j: int| 0 <= i < u.len() && 0 <= j < u.len() && i != j implies u[i] != u[j] by {
                    if i < t.len() && j < t.len() {
                        assert(u[i] == t[i] && u[j] == t[j]);
                    } else if i < t.len() {
                        assert(t.contains(u[i]));
                    } else if j < t.len() {
                        assert(t.contains(u[j]));
                    }
                }
            }
        }
    }
}

/// The entries of `v` other than `x`, in their order.
pub fn vec_without(v: &Vec<usize>, x: usize) -> (r: Vec<usize>)
    ensures
        r@ == without(v@, x),
{
    let mut out: Vec<usize> = Vec::new();
    let mut k: usize = 0;
    while k < v.len()
        invariant
            k <= v@.len(),
            out@ == without(v@.take(k as int), x),
        decreases v@.len() - k,
    {
        let y = v[k];
        proof {
            let t = v@.take(k as int + 1);
            assert(t.drop_last() =~= v@.take(k as int));
            assert(t.last() == y);
            reveal(Seq::filter);
        }
        if y != x {
            out.push(y);
        }
        k += 1;
    }
    assert(v@.take(v@.len() as int) =~= v@);
    out
}

} // verus!
