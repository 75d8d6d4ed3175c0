//! Sender authorization: a sender is authorized when at least one allow-list
//! entry occurs as a contiguous substring of the sender's byte representation
//! (case-sensitive, exact match).

use vstd::prelude::*;

verus! {

/// The needle `n` occurs in the haystack `h` starting at position `k`.
pub open spec fn sub_at(h: Seq<u8>, n: Seq<u8>, k: int) -> bool {
    0 <= k && k + n.len() <= h.len() && h.subrange(k, k + n.len()) == n
}

/// `n` is a contiguous substring of `h` (the empty needle matches anywhere).
pub open spec fn is_substring(n: Seq<u8>, h: Seq<u8>) -> bool {
    exists|k: int| sub_at(h, n, k)
}

/// The view of an allow-list: each entry as a byte sequence.
pub open spec fn entries_view(v: Seq<Vec<u8>>) -> Seq<Seq<u8>> {
    v.map_values(|e: Vec<u8>| e@)
}

/// A sender is authorized iff some allow-list entry is a substring of it.
pub open spec fn authorized(allow: Seq<Seq<u8>>, sender: Seq<u8>) -> bool {
    exists|k: int| 0 <= k < allow.len() && is_substring(allow[k], sender)
}

/// Does `needle` occur as a contiguous byte substring of `hay`?
pub fn contains_subslice(hay: &Vec<u8>, needle: &Vec<u8>) -> (r: bool)
    ensures
        r == is_substring(needle@, hay@),
{
    let n = needle.len();
    let h = hay.len();
    if n > h {
        assert(forall|k: int| !sub_at(hay@, needle@, k));
        return false;
    }
    if n == 0 {
        proof {
            assert(hay@.subrange(0, 0) =~= needle@);
            assert(sub_at(hay@, needle@, 0));
        }
        return true;
    }
    let mut i: usize = 0;
    while i <= h - n
        invariant
            1 <= n <= h,
            h == hay@.len(),
            n == needle@.len(),
            i <= h - n + 1,
            forall|k: int| 0 <= k < i ==> !sub_at(hay@, needle@, k),
        decreases h - n - i + 1,
    {
        let mut j: usize = 0;
        let mut mismatch = false;
        while j < n
            invariant
                n <= h,
                h == hay@.len(),
                n == needle@.len(),
                i + n <= h,
                j <= n,
                !mismatch ==> forall|t: int| 0 <= t < j ==> hay@[i + t] == needle@[t],
                mismatch ==> !sub_at(hay@, needle@, i as int),
        decreases n - j,
        {
            if hay[i + j] != needle[j] {
                proof {
                    if sub_at(hay@, needle@, i as int) {
                        assert(hay@.subrange(i as int, i + n)[j as int] == hay@[i + j]);
                    }
                }
                mismatch = true;
                j = n;
            } else {
                j = j + 1;
            }
        }
        if !mismatch {
            proof {
                assert(hay@.subrange(i as int, i + n) =~= needle@);
                assert(sub_at(hay@, needle@, i as int));
            }
            return true;
        }
        i = i + 1;
    }
    assert(forall|k: int| i <= k ==> !sub_at(hay@, needle@, k));
    false
}

/// Is the sender authorized by the allow-list?
pub fn is_authorized(sender: &Vec<u8>, allow: &Vec<Vec<u8>>) -> (r: bool)
    ensures
        r == authorized(entries_view(allow@), sender@),
{
    let mut k: usize = 0;
    while k < allow.len()
        invariant
            forall|t: int| 0 <= t < k ==> !is_substring(entries_view(allow@)[t], sender@),
            k <= allow@.len(),
        decreases allow@.len() - k,
    {
        if contains_subslice(sender, &allow[k]) {
            assert(entries_view(allow@)[k as int] == allow@[k as int]@);
            return true;
        }
        k = k + 1;
    }
    false
}

/// The authorization verdict does not depend on the order (or multiplicity)
/// of the allow-list entries: two allow-lists holding the same entries
/// authorize exactly the same senders.
pub proof fn lemma_authorized_order_insensitive(a1: Seq<Seq<u8>>, a2: Seq<Seq<u8>>, sender: Seq<u8>)
    requires
        forall|e: Seq<u8>| a1.contains(e) <==> a2.contains(e),
    ensures
        authorized(a1, sender) == authorized(a2, sender),
{
    if authorized(a1, sender) {
        let k = choose|k: int| 0 <= k < a1.len() && is_substring(a1[k], sender);
        assert(a1.contains(a1[k]));
        let j = choose|j: int| 0 <= j < a2.len() && a2[j] == a1[k];
        assert(is_substring(a2[j], sender));
    }
    if authorized(a2, sender) {
        let k = choose|k: int| 0 <= k < a2.len() && is_substring(a2[k], sender);
        assert(a2.contains(a2[k]));
        let j = choose|j: int| 0 <= j < a1.len() && a1[j] == a2[k];
        assert(is_substring(a1[j], sender));
    }
}

} // verus!
