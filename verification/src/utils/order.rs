//! The keys of a set of indices in ascending order.

use vstd::prelude::*;

verus! {

/// Whether each item of `s` is less than every later one.
pub open spec fn strictly_increasing(s: Seq<u32>) -> bool {
    forall|i: int, j: int| 0 <= i < j < s.len() ==> s[i] < s[j]
}

/// The members of `keys` that are less than `bound`, in ascending order.
pub open spec fn keys_below(keys: Set<u32>, bound: nat) -> Seq<u32>
    decreases bound,
{
    if bound == 0 {
        Seq::empty()
    } else {
        let k = (bound - 1) as nat;
        let rest = keys_below(keys, k);
        if k <= u32::MAX && keys.contains(k as u32) {
            rest.push(k as u32)
        } else {
            rest
        }
    }
}

/// The members of `keys` in ascending order.
pub open spec fn sorted_keys(keys: Set<u32>) -> Seq<u32> {
    keys_below(keys, 0x1_0000_0000)
}

/// `keys_below` is ascending and holds exactly the members below the bound.
pub proof fn lemma_keys_below(keys: Set<u32>, bound: nat)
    ensures
        strictly_increasing(keys_below(keys, bound)),
        forall|i: int|
            0 <= i < keys_below(keys, bound).len() ==> keys.contains(
                #[trigger] keys_below(keys, bound)[i],
            ) && keys_below(keys, bound)[i] < bound,
        forall|k: u32| keys.contains(k) && k < bound ==> keys_below(keys, bound).contains(k),
    decreases bound,
{
    if bound > 0 {
        let b = (bound - 1) as nat;
        let rest = keys_below(keys, b);
        let all = keys_below(keys, bound);
        lemma_keys_below(keys, b);
        if b <= u32::MAX && keys.contains(b as u32) {
            assert(all == rest.push(b as u32));
            assert forall|k: u32| keys.contains(k) && k < bound implies all.contains(k) by {
                if k < b {
                    let i = choose|i: int| 0 <= i < rest.len() && rest[i] == k;
                    assert(all[i] == k);
                } else {
                    assert(all[rest.len() as int] == k);
                }
            }
        } else {
            assert forall|k: u32| keys.contains(k) && k < bound implies all.contains(k) by {
                assert(k < b);
            }
        }
    }
}

/// Two ascending sequences with the same items are the same sequence.
pub proof fn lemma_increasing_unique(a: Seq<u32>, b: Seq<u32>)
    requires
        strictly_increasing(a),
        strictly_increasing(b),
        forall|k: u32| a.contains(k) <==> b.contains(k),
    ensures
        a == b,
    decreases a.len(),
{
    if a.len() == 0 {
        if b.len() > 0 {
            assert(b.contains(b[0]));
        }
        assert(a =~= b);
    } else {
        assert(a.contains(a.last()));
        assert(b.contains(a.last()));
        assert(b.len() > 0);
        assert(b.contains(b.last()));
        assert(a.contains(b.last()));
        let i = choose|i: int| 0 <= i < b.len() && b[i] == a.last();
        let j = choose|j: int| 0 <= j < a.len() && a[j] == b.last();
        assert(a.last() == b.last());
        let a0 = a.drop_last();
        let b0 = b.drop_last();
        assert forall|k: u32| a0.contains(k) <==> b0.contains(k) by {
            if a0.contains(k) {
                let x = choose|x: int| 0 <= x < a0.len() && a0[x] == k;
                assert(a[x] == k);
                assert(a.contains(k));
                let y = choose|y: int| 0 <= y < b.len() && b[y] == k;
                assert(k < a.last());
                assert(y < b.len() - 1);
                assert(b0[y] == k);
            }
            if b0.contains(k) {
                let y = choose|y: int| 0 <= y < b0.len() && b0[y] == k;
                assert(b[y] == k);
                assert(b.contains(k));
                let x = choose|x: int| 0 <= x < a.len() && a[x] == k;
                assert(k < b.last());
                assert(x < a.len() - 1);
                assert(a0[x] == k);
            }
        }
        lemma_increasing_unique(a0, b0);
        assert(a =~= a0.push(a.last()));
        assert(b =~= b0.push(b.last()));
    }
}

/// An ascending sequence that holds exactly the members of `keys` is
/// `sorted_keys(keys)`.
pub proof fn lemma_sorted_keys_unique(keys: Set<u32>, s: Seq<u32>)
    requires
        strictly_increasing(s),
        forall|k: u32| s.contains(k) <==> keys.contains(k),
    ensures
        s == sorted_keys(keys),
{
    let t = sorted_keys(keys);
    lemma_keys_below(keys, 0x1_0000_0000);
    assert forall|k: u32| s.contains(k) <==> t.contains(k) by {
        if t.contains(k) {
            let i = choose|i: int| 0 <= i < t.len() && t[i] == k;
            assert(keys.contains(t[i]));
        }
    }
    lemma_increasing_unique(s, t);
}

} // verus!
