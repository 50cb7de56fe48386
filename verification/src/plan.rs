use vstd::prelude::*;
use vstd::arithmetic::div_mod::lemma_fundamental_div_mod_converse;
use vstd::arithmetic::mul::lemma_mul_inequality;

verus! {

/// One contiguous byte range of the source file, owned by one part number.
///
/// Part numbers are 1-based; part `n` owns the bytes
/// `[(n-1)*part_size, min(n*part_size, file_size))`.
#[derive(Debug, Clone, Copy, PartialEq, Eq, Structural)]
pub struct PartDescriptor {
    pub part_number: u64,
    pub start: u64,
    pub end: u64,
}

/// The number of parts a file of `file_size` bytes needs when each part
/// holds `part_size` bytes: the ceiling of their quotient.
pub open spec fn spec_part_count(file_size: int, part_size: int) -> int {
    (file_size + part_size - 1) / part_size
}

/// The byte offset at which the first `index` parts end: `index * part_size`,
/// capped at the file size (only the last part may be short).
pub open spec fn spec_offset(index: int, part_size: int, file_size: int) -> int {
    if index * part_size <= file_size {
        index * part_size
    } else {
        file_size
    }
}

/// The part count equals the closed form `(file_size - 1) / part_size + 1`,
/// is at least one, and brackets the file size between the end of the
/// next-to-last part and the capacity of all parts.
pub proof fn lemma_part_count(file_size: int, part_size: int)
    requires
        file_size >= 1,
        part_size >= 1,
    ensures
        spec_part_count(file_size, part_size) == (file_size - 1) / part_size + 1,
        spec_part_count(file_size, part_size) >= 1,
        (spec_part_count(file_size, part_size) - 1) * part_size < file_size,
        file_size <= spec_part_count(file_size, part_size) * part_size,
        spec_part_count(file_size, part_size) <= file_size,
{
    let q = (file_size - 1) / part_size;
    let r = (file_size - 1) % part_size;
    vstd::arithmetic::div_mod::lemma_fundamental_div_mod(file_size - 1, part_size);
    vstd::arithmetic::div_mod::lemma_mod_pos_bound(file_size - 1, part_size);
    vstd::arithmetic::div_mod::lemma_div_pos_is_pos(file_size - 1, part_size);
    assert(file_size - 1 == part_size * q + r);
    // file_size + part_size - 1 == (q + 1) * part_size + r, with 0 <= r < part_size
    assert((q + 1) * part_size + r == file_size + part_size - 1) by {
        assert((q + 1) * part_size == q * part_size + part_size) by (nonlinear_arith);
        assert(part_size * q == q * part_size) by (nonlinear_arith);
    }
    lemma_fundamental_div_mod_converse(file_size + part_size - 1, part_size, q + 1, r);
    assert(spec_part_count(file_size, part_size) == q + 1);
    assert(q * part_size + r == file_size - 1) by {
        assert(part_size * q == q * part_size) by (nonlinear_arith);
    }
    assert(q * part_size < file_size);
    assert(file_size <= (q + 1) * part_size) by {
        assert((q + 1) * part_size == q * part_size + part_size) by (nonlinear_arith);
    }
    assert(q + 1 <= file_size) by {
        vstd::arithmetic::div_mod::lemma_div_nonincreasing(file_size - 1, part_size);
    }
}

/// Splits a file of `file_size` bytes into parts of `part_size` bytes.
///
/// The result has exactly `ceil(file_size / part_size)` parts, numbered
/// `1..=count` in ascending order; their ranges are contiguous, pairwise
/// disjoint, cover exactly `[0, file_size)`, and every part except
/// possibly the last has length exactly `part_size`, the last at most that.
#[verifier::rlimit(60)]
pub fn plan_parts(file_size: u64, part_size: u64) -> (parts: Vec<PartDescriptor>)
    requires
        file_size > 0,
        part_size > 0,
    ensures
        parts.len() == spec_part_count(file_size as int, part_size as int),
        forall|i: int| 0 <= i < parts.len() ==> (#[trigger] parts[i]).part_number == i + 1,
        forall|i: int| 0 <= i < parts.len() ==> (#[trigger] parts[i]).start == i * (part_size as int),
        forall|i: int| 0 <= i < parts.len() ==> (#[trigger] parts[i]).end
            == spec_offset(i + 1, part_size as int, file_size as int),
        forall|i: int| 0 <= i < parts.len() ==> (#[trigger] parts[i]).start < parts[i].end,
        forall|i: int| 0 <= i < parts.len() ==> (#[trigger] parts[i]).end - parts[i].start <= part_size,
        forall|i: int| 0 <= i < parts.len() - 1 ==> (#[trigger] parts[i]).end - parts[i].start == part_size,
        forall|i: int| 0 <= i < parts.len() - 1 ==> (#[trigger] parts[i]).end == parts[i + 1].start,
        parts.len() >= 1,
        parts[0].start == 0,
        parts[parts.len() - 1].end == file_size,
{
    proof {
        lemma_part_count(file_size as int, part_size as int);
    }
    let mut parts: Vec<PartDescriptor> = Vec::new();
    let mut start: u64 = 0;
    let mut n: u64 = 0;
    while start < file_size
        invariant
            file_size > 0,
            part_size > 0,
            n == parts.len(),
            n <= spec_part_count(file_size as int, part_size as int),
            start == spec_offset(n as int, part_size as int, file_size as int),
            n > 0 ==> (n - 1) * (part_size as int) < file_size,
            forall|i: int| 0 <= i < n ==> (#[trigger] parts[i]).part_number == i + 1,
            forall|i: int| 0 <= i < n ==> (#[trigger] parts[i]).start == i * (part_size as int),
            forall|i: int| 0 <= i < n ==> (#[trigger] parts[i]).end
                == spec_offset(i + 1, part_size as int, file_size as int),
        decreases file_size - start,
    {
        proof {
            lemma_part_count(file_size as int, part_size as int);
            // start < file_size rules out the capped branch of spec_offset,
            // so start == n * part_size here.
            assert((n as int) * (part_size as int) <= file_size);
            // n < count, hence n + 1 <= count <= file_size and no overflow below.
            if n as int == spec_part_count(file_size as int, part_size as int) {
                assert(file_size <= (n as int) * (part_size as int));
                assert(false);
            }
        }
        let end: u64 = if file_size - start > part_size {
            start + part_size
        } else {
            file_size
        };
        proof {
            assert((n as int + 1) * (part_size as int)
                == (n as int) * (part_size as int) + part_size) by (nonlinear_arith);
            assert(end == spec_offset(n as int + 1, part_size as int, file_size as int));
        }
        parts.push(PartDescriptor { part_number: n + 1, start, end });
        n = n + 1;
        start = end;
    }
    proof {
        // On exit start == spec_offset(n) == file_size forces n * part_size >= file_size,
        // and with (n-1) * part_size < file_size this pins n to the ceiling count.
        lemma_part_count(file_size as int, part_size as int);
        let count = spec_part_count(file_size as int, part_size as int);
        assert(n > 0);
        assert((n as int) * (part_size as int) >= file_size);
        if (n as int) < count {
            assert((n as int) <= count - 1);
            lemma_mul_inequality(n as int, count - 1, part_size as int);
            assert((n as int) * (part_size as int) <= (count - 1) * (part_size as int));
            assert(false);
        }
        assert(n as int == count);
        assert(forall|i: int| 0 <= i < parts.len() ==> (#[trigger] parts[i]).start < parts[i].end)
            by {
            assert forall|i: int| 0 <= i < parts.len() implies (#[trigger] parts[i]).start
                < parts[i].end by {
                assert(parts[i].start == i * (part_size as int));
                assert(i * (part_size as int) < file_size) by {
                    lemma_mul_inequality(i, count - 1, part_size as int);
                }
                assert((i + 1) * (part_size as int)
                    == i * (part_size as int) + part_size) by (nonlinear_arith);
            }
        }
        assert forall|i: int| 0 <= i < parts.len() implies (#[trigger] parts[i]).end
            - parts[i].start <= part_size by {
            assert((i + 1) * (part_size as int)
                == i * (part_size as int) + part_size) by (nonlinear_arith);
        }
        assert forall|i: int| 0 <= i < parts.len() - 1 implies (#[trigger] parts[i]).end
            - parts[i].start == part_size by {
            assert(parts[i].start == i * (part_size as int));
            assert((i + 1) * (part_size as int)
                == i * (part_size as int) + part_size) by (nonlinear_arith);
            // i + 1 <= count - 1, so (i+1) * part_size < file_size: the range is not capped.
            lemma_mul_inequality(i + 1, count - 1, part_size as int);
        }
        assert forall|i: int| 0 <= i < parts.len() - 1 implies (#[trigger] parts[i]).end
            == parts[i + 1].start by {
            lemma_mul_inequality(i + 1, count - 1, part_size as int);
            assert((i + 1) * (part_size as int)
                == i * (part_size as int) + part_size) by (nonlinear_arith);
        }
        assert(parts[0].start == 0 * (part_size as int));
        assert(parts[parts.len() - 1].end == file_size);
    }
    parts
}

/// The byte range of one part, computed as the backend's arithmetic
/// fixes it: part `n` owns `[(n-1)*part_size, min(n*part_size, file_size))`.
pub fn part_range(part_number: u64, part_size: u64, file_size: u64, total_parts: u64) -> (r: (
    u64,
    u64,
))
    requires
        file_size >= 1,
        part_size >= 1,
        1 <= part_number <= total_parts,
        total_parts as int == spec_part_count(file_size as int, part_size as int),
    ensures
        r.0 == (part_number - 1) * (part_size as int),
        r.1 == spec_offset(part_number as int, part_size as int, file_size as int),
        r.0 < r.1 <= file_size,
        r.1 - r.0 <= part_size,
{
    proof {
        lemma_part_count(file_size as int, part_size as int);
        lemma_mul_inequality(part_number - 1, total_parts - 1, part_size as int);
        assert((part_number - 1) * (part_size as int) < file_size);
    }
    let start: u64 = (part_number - 1) * part_size;
    let end: u64 = if file_size - start > part_size {
        start + part_size
    } else {
        file_size
    };
    proof {
        assert((part_number as int) * (part_size as int)
            == (part_number - 1) * (part_size as int) + part_size) by (nonlinear_arith);
    }
    (start, end)
}

/// The bytes transferred once the first `done` of `total` parts are
/// complete: `done * part_size`, or the whole file when every part is done.
pub open spec fn spec_progress(done: int, part_size: int, total: int, file_size: int) -> int {
    if done == total {
        file_size
    } else {
        done * part_size
    }
}

/// Progress never decreases as parts complete, and never passes the file
/// size.
pub proof fn lemma_progress_monotone(done1: int, done2: int, part_size: int, total: int, file_size: int)
    requires
        0 <= done1 <= done2 <= total,
        file_size >= 1,
        part_size >= 1,
        total == spec_part_count(file_size, part_size),
    ensures
        spec_progress(done1, part_size, total, file_size)
            <= spec_progress(done2, part_size, total, file_size),
        spec_progress(done1, part_size, total, file_size) <= file_size,
        spec_progress(done1, part_size, total, file_size) >= 0,
{
    lemma_part_count(file_size, part_size);
    if done1 < total {
        lemma_mul_inequality(done1, total - 1, part_size);
        vstd::arithmetic::mul::lemma_mul_nonnegative(done1, part_size);
        if done2 < total {
            lemma_mul_inequality(done1, done2, part_size);
        }
    }
}

} // verus!
