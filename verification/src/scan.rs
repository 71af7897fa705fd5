use vstd::prelude::*;

verus! {

/// The least index at or after `k` whose element satisfies `p`, if any.
pub open spec fn lookup_from<T>(s: Seq<T>, p: spec_fn(T) -> bool, k: int) -> Option<int>
    decreases s.len() - k,
    when 0 <= k <= s.len()
{
    if k >= s.len() {
        Option::None
    } else if p(s[k]) {
        Option::Some(k)
    } else {
        lookup_from(s, p, k + 1)
    }
}

/// The least index whose element satisfies `p`, if any.
pub open spec fn lookup<T>(s: Seq<T>, p: spec_fn(T) -> bool) -> Option<int> {
    lookup_from(s, p, 0)
}

/// What `lookup_from` finds: the first hit at or after `k`, or nothing when
/// everything from `k` on misses.
pub proof fn lemma_lookup_from<T>(s: Seq<T>, p: spec_fn(T) -> bool, k: int)
    requires
        0 <= k <= s.len(),
    ensures
        match lookup_from(s, p, k) {
            Option::Some(i) => k <= i < s.len() && p(s[i]) && (forall|j: int|
                k <= j < i ==> !p(s[j])),
            Option::None => forall|j: int| k <= j < s.len() ==> !p(s[j]),
        },
    decreases s.len() - k,
{
    if k < s.len() && !p(s[k]) {
        lemma_lookup_from(s, p, k + 1);
    }
}

/// Skipping a miss-free prefix does not change what is found.
pub proof fn lemma_lookup_prefix<T>(s: Seq<T>, p: spec_fn(T) -> bool, k: int)
    requires
        0 <= k <= s.len(),
        forall|j: int| 0 <= j < k ==> !p(s[j]),
    ensures
        lookup(s, p) == lookup_from(s, p, k),
    decreases k,
{
    if k > 0 {
        lemma_lookup_prefix(s, p, k - 1);
        assert(lookup_from(s, p, k - 1) == lookup_from(s, p, k));
    }
}

} // verus!
