use vstd::prelude::*;

verus! {

/// Every later entry of `s` is strictly larger than every earlier one.
pub open spec fn strictly_increasing(s: Seq<int>) -> bool {
    forall|i: int, j: int| 0 <= i < j < s.len() ==> s[i] < s[j]
}

/// Every later entry of `s` is at least as large as every earlier one.
pub open spec fn nondecreasing(s: Seq<u64>) -> bool {
    forall|i: int, j: int| 0 <= i <= j < s.len() ==> s[i] <= s[j]
}

/// Appending an element larger than all entries keeps a sequence strictly
/// increasing.
pub proof fn lemma_strictly_increasing_push(s: Seq<int>, x: int)
    requires
        strictly_increasing(s),
        forall|i: int| 0 <= i < s.len() ==> s[i] < x,
    ensures
        strictly_increasing(s.push(x)),
{
    assert forall|i: int, j: int| 0 <= i < j < s.push(x).len() implies s.push(x)[i] < s.push(
        x,
    )[j] by {
        if j < s.len() {
            assert(s.push(x)[i] == s[i]);
            assert(s.push(x)[j] == s[j]);
        } else {
            assert(s.push(x)[i] == s[i]);
            assert(s.push(x)[j] == x);
        }
    }
}

/// Removing an entry keeps a sequence strictly increasing.
pub proof fn lemma_strictly_increasing_remove(s: Seq<int>, k: int)
    requires
        strictly_increasing(s),
        0 <= k < s.len(),
    ensures
        strictly_increasing(s.remove(k)),
{
    s.remove_ensures(k);
    let t = s.remove(k);
    assert forall|i: int, j: int| 0 <= i < j < t.len() implies t[i] < t[j] by {
        if i < k {
            assert(t[i] == s[i]);
        } else {
            assert(t[i] == s[i + 1]);
        }
        if j < k {
            assert(t[j] == s[j]);
        } else {
            assert(t[j] == s[j + 1]);
        }
    }
}

/// Removing an entry from a strictly increasing sequence of positions below
/// `bound` keeps it strictly increasing and below `bound`.
pub proof fn lemma_bounded_remove(s: Seq<int>, k: int, bound: int)
    requires
        strictly_increasing(s),
        0 <= k < s.len(),
        forall|i: int| 0 <= i < s.len() ==> 0 <= #[trigger] s[i] < bound,
    ensures
        strictly_increasing(s.remove(k)),
        forall|i: int| 0 <= i < s.remove(k).len() ==> 0 <= #[trigger] s.remove(k)[i] < bound,
{
    lemma_strictly_increasing_remove(s, k);
    s.remove_ensures(k);
    assert forall|i: int| 0 <= i < s.remove(k).len() implies 0 <= #[trigger] s.remove(k)[i]
        < bound by {
        if i < k {
            assert(s.remove(k)[i] == s[i]);
        } else {
            assert(s.remove(k)[i] == s[i + 1]);
        }
    }
}

} // verus!
