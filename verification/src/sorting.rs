//! A stable insertion sort under a strict weak order, the order the runner
//! lists diagnostics and recent sessions in.
use vstd::prelude::*;

verus! {

/// A strict weak order: `precedes` is asymmetric and "does not precede"
/// is transitive, so values that neither precede the other are equivalent.
pub trait StrictWeakOrder: Sized {
    spec fn precedes(&self, other: &Self) -> bool;

    fn comes_before(&self, other: &Self) -> (b: bool)
        ensures
            b == self.precedes(other),
    ;

    proof fn lemma_strict_weak_order(a: &Self, b: &Self, c: &Self)
        ensures
            a.precedes(b) ==> !b.precedes(a),
            !a.precedes(b) && !b.precedes(c) ==> !a.precedes(c),
    ;
}

/// `after` is `before` rearranged by the permutation `p` (`after[i]` is
/// `before[p[i]]`), in order, with equivalent values in their earlier
/// relative order.
pub open spec fn is_stable_sort<T: StrictWeakOrder>(before: Seq<T>, after: Seq<T>, p: Seq<int>) -> bool {
    &&& after.len() == before.len()
    &&& p.len() == before.len()
    &&& forall|i: int| 0 <= i < p.len() ==> 0 <= #[trigger] p[i] < before.len()
    &&& forall|i: int, j: int| 0 <= i < j < p.len() ==> #[trigger] p[i] != #[trigger] p[j]
    &&& forall|i: int| 0 <= i < after.len() ==> #[trigger] after[i] == before[p[i]]
    &&& forall|i: int, j: int|
        #![trigger after[i], after[j]]
        0 <= i < j < after.len() ==> !after[j].precedes(&after[i])
    &&& forall|i: int, j: int|
        #![trigger after[i], after[j]]
        0 <= i < j < after.len() && !after[i].precedes(&after[j]) ==> p[i] < p[j]
}

/// Sorts `v` stably: each value is inserted after every value it does not
/// precede among those already placed.
pub fn stable_sort<T: StrictWeakOrder>(v: Vec<T>) -> (r: Vec<T>)
    ensures
        exists|p: Seq<int>| is_stable_sort(v@, r@, p),
{
    let ghost s0 = v@;
    let n = v.len();
    let mut rest = v;
    let mut out: Vec<T> = Vec::new();
    let ghost mut p: Seq<int> = Seq::empty();
    let mut k: usize = 0;
    assert(rest@ =~= s0.subrange(0, n as int));
    while k < n
        invariant
            n == s0.len(),
            k <= n,
            rest@ == s0.subrange(k as int, n as int),
            out@.len() == k,
            p.len() == k,
            forall|i: int| 0 <= i < k ==> 0 <= #[trigger] p[i] < k,
            forall|i: int, j: int| 0 <= i < j < k ==> #[trigger] p[i] != #[trigger] p[j],
            forall|i: int| 0 <= i < k ==> #[trigger] out@[i] == s0[p[i]],
            forall|i: int, j: int|
                #![trigger out@[i], out@[j]]
                0 <= i < j < k ==> !out@[j].precedes(&out@[i]),
            forall|i: int, j: int|
                #![trigger out@[i], out@[j]]
                0 <= i < j < k && !out@[i].precedes(&out@[j]) ==> p[i] < p[j],
        decreases n - k,
    {
        let ghost rest_before = rest@;
        let x = rest.remove(0);
        assert(x == s0[k as int]);
        assert(rest@ =~= s0.subrange(k + 1, n as int));
        let mut j: usize = k;
        while j > 0 && x.comes_before(&out[j - 1])
            invariant
                j <= k,
                out@.len() == k,
                forall|m: int| j <= m < k ==> x.precedes(#[trigger] &out@[m]),
            decreases j,
        {
            j = j - 1;
        }
        let ghost old_out = out@;
        let ghost old_p = p;
        proof {
            assert forall|i: int| 0 <= i < j implies !x.precedes(&#[trigger] old_out[i]) by {
                let y = old_out[j - 1];
                assert(!x.precedes(&y));
                if i < j - 1 {
                    assert(!y.precedes(&old_out[i]));
                    T::lemma_strict_weak_order(&x, &y, &old_out[i]);
                }
            }
            assert forall|m: int| j <= m < k implies !(#[trigger] old_out[m]).precedes(&x) by {
                T::lemma_strict_weak_order(&x, &old_out[m], &x);
            }
        }
        out.insert(j, x);
        proof {
            p = old_p.insert(j as int, k as int);
            old_out.insert_ensures(j as int, x);
            old_p.insert_ensures(j as int, k as int);
            assert forall|i: int| 0 <= i < k + 1 implies 0 <= #[trigger] p[i] < k + 1 by {
                if i > j {
                    assert(p[i] == old_p[i - 1]);
                }
            }
            assert forall|i: int| 0 <= i < k + 1 implies #[trigger] out@[i] == s0[p[i]] by {
                if i > j {
                    assert(out@[i] == old_out[i - 1]);
                    assert(p[i] == old_p[i - 1]);
                }
            }
            assert forall|a: int, b: int| 0 <= a < b < k + 1 implies #[trigger] p[a]
                != #[trigger] p[b] by {
                if a > j {
                    assert(p[a] == old_p[a - 1]);
                }
                if b > j {
                    assert(p[b] == old_p[b - 1]);
                }
            }
            assert forall|a: int, b: int|
                #![trigger out@[a], out@[b]]
                0 <= a < b < k + 1 implies !out@[b].precedes(&out@[a]) && (!out@[a].precedes(
                &out@[b],
            ) ==> p[a] < p[b]) by {
                if b < j {
                } else if b == j {
                    assert(!x.precedes(&old_out[a]));
                } else if a < j {
                    assert(out@[b] == old_out[b - 1]);
                    assert(p[b] == old_p[b - 1]);
                    assert(old_out[a] == out@[a]);
                } else if a == j {
                    assert(out@[b] == old_out[b - 1]);
                    assert(x.precedes(&old_out[b - 1]));
                } else {
                    assert(out@[a] == old_out[a - 1]);
                    assert(out@[b] == old_out[b - 1]);
                    assert(p[a] == old_p[a - 1]);
                    assert(p[b] == old_p[b - 1]);
                }
            }
        }
        k = k + 1;
    }
    assert(is_stable_sort(s0, out@, p));
    out
}

} // verus!
