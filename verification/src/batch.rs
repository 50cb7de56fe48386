use vstd::prelude::*;

verus! {

/// The part number `pn` occurs in `nums`.
pub open spec fn spec_has_part(nums: Seq<u64>, pn: int) -> bool {
    exists|k: int| 0 <= k < nums.len() && #[trigger] nums[k] == pn
}

/// `nums` lists each part number of the batch `first..first+count`
/// exactly once, in some order.
pub open spec fn spec_batch_cover(nums: Seq<u64>, first: int, count: int) -> bool {
    &&& nums.len() == count
    &&& forall|i: int| 0 <= i < nums.len() ==> first <= #[trigger] nums[i] < first + count
    &&& forall|i: int, j: int| 0 <= i < j < nums.len() ==> nums[i] != nums[j]
    &&& forall|j: int| 0 <= j < count ==> #[trigger] spec_has_part(nums, first + j)
}

/// A covering batch holds every part number of its range.
pub proof fn lemma_cover_has(nums: Seq<u64>, first: int, count: int, pn: int)
    requires
        spec_batch_cover(nums, first, count),
        first <= pn < first + count,
    ensures
        spec_has_part(nums, pn),
{
    let j = pn - first;
    assert(0 <= j < count);
    assert(spec_has_part(nums, first + j));
}

/// The number of true entries in a boolean sequence.
spec fn count_true(s: Seq<bool>) -> int
    decreases s.len(),
{
    if s.len() == 0 {
        0
    } else {
        count_true(s.drop_last()) + if s.last() {
            1int
        } else {
            0int
        }
    }
}

proof fn lemma_count_true_bound(s: Seq<bool>)
    ensures
        0 <= count_true(s) <= s.len(),
    decreases s.len(),
{
    if s.len() > 0 {
        lemma_count_true_bound(s.drop_last());
    }
}

proof fn lemma_count_true_all_false(s: Seq<bool>)
    requires
        forall|j: int| 0 <= j < s.len() ==> !s[j],
    ensures
        count_true(s) == 0,
    decreases s.len(),
{
    if s.len() > 0 {
        assert(forall|j: int| 0 <= j < s.drop_last().len() ==> !s.drop_last()[j]);
        lemma_count_true_all_false(s.drop_last());
    }
}

/// A boolean sequence whose true count equals its length is all true.
proof fn lemma_count_true_complete(s: Seq<bool>)
    requires
        count_true(s) == s.len(),
    ensures
        forall|j: int| 0 <= j < s.len() ==> s[j],
    decreases s.len(),
{
    if s.len() > 0 {
        lemma_count_true_bound(s.drop_last());
        assert(s.last());
        lemma_count_true_complete(s.drop_last());
        assert forall|j: int| 0 <= j < s.len() implies s[j] by {
            if j < s.len() - 1 {
                assert(s.drop_last()[j]);
            }
        }
    }
}

proof fn lemma_count_true_update(s: Seq<bool>, j: int)
    requires
        0 <= j < s.len(),
        !s[j],
    ensures
        count_true(s.update(j, true)) == count_true(s) + 1,
    decreases s.len(),
{
    let t = s.update(j, true);
    if j == s.len() - 1 {
        assert(t.drop_last() =~= s.drop_last());
    } else {
        assert(t.drop_last() =~= s.drop_last().update(j, true));
        lemma_count_true_update(s.drop_last(), j);
    }
}

/// Decides whether `nums` is exactly the batch `first..first+count`, each
/// number once, in any order.
pub fn check_batch_cover(nums: &Vec<u64>, first: u64, count: usize) -> (ok: bool)
    requires
        first >= 1,
    ensures
        ok == spec_batch_cover(nums@, first as int, count as int),
{
    let mut seen: Vec<bool> = Vec::new();
    let mut z: usize = 0;
    while z < count
        invariant
            z <= count,
            seen@.len() == z,
            forall|j: int| 0 <= j < z ==> !seen@[j],
        decreases count - z,
    {
        seen.push(false);
        z = z + 1;
    }
    proof {
        lemma_count_true_all_false(seen@);
    }
    let n = nums.len();
    let mut i: usize = 0;
    while i < n
        invariant
            n == nums@.len(),
            i <= n,
            first >= 1,
            seen@.len() == count,
            count_true(seen@) == i,
            i <= count,
            forall|k: int| 0 <= k < i ==> first <= #[trigger] nums@[k] < first + count,
            forall|k1: int, k2: int| 0 <= k1 < k2 < i ==> nums@[k1] != nums@[k2],
            forall|j: int|
                0 <= j < count ==> (seen@[j] <==> exists|k: int|
                    0 <= k < i && #[trigger] nums@[k] == first + j),
        decreases n - i,
    {
        let pn = nums[i];
        if pn < first || pn - first >= count as u64 {
            proof {
                assert(!(first <= nums@[i as int] < first + count));
            }
            return false;
        }
        let j = (pn - first) as usize;
        if seen[j] {
            proof {
                let k = choose|k: int| 0 <= k < i && #[trigger] nums@[k] == first + j;
                assert(nums@[k] == nums@[i as int]);
            }
            return false;
        }
        proof {
            lemma_count_true_update(seen@, j as int);
        }
        seen.set(j, true);
        proof {
            assert forall|jj: int|
                0 <= jj < count implies (seen@[jj] <==> exists|k: int|
                    0 <= k < i + 1 && #[trigger] nums@[k] == first + jj) by {
                if jj == j {
                    assert(nums@[i as int] == first + jj);
                } else {
                    if exists|k: int| 0 <= k < i + 1 && #[trigger] nums@[k] == first + jj {
                        let k = choose|k: int|
                            0 <= k < i + 1 && #[trigger] nums@[k] == first + jj;
                        assert(k < i);
                    }
                }
            }
            lemma_count_true_bound(seen@);
        }
        i = i + 1;
    }
    if n != count {
        return false;
    }
    proof {
        lemma_count_true_complete(seen@);
        assert forall|j: int| 0 <= j < count implies #[trigger] spec_has_part(
            nums@,
            first + j,
        ) by {
            assert(seen@[j]);
            let k = choose|k: int| 0 <= k < n && #[trigger] nums@[k] == first + j;
            assert(nums@[k] == first + j);
        }
    }
    true
}

} // verus!
