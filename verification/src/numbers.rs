use vstd::prelude::*;
use vstd::string::StringExecFns;

verus! {

/// The digit character for a value below ten.
pub open spec fn spec_digit_char(d: int) -> char {
    if d == 0 {
        '0'
    } else if d == 1 {
        '1'
    } else if d == 2 {
        '2'
    } else if d == 3 {
        '3'
    } else if d == 4 {
        '4'
    } else if d == 5 {
        '5'
    } else if d == 6 {
        '6'
    } else if d == 7 {
        '7'
    } else if d == 8 {
        '8'
    } else {
        '9'
    }
}

/// The decimal rendering of a non-negative number, most significant
/// digit first, with no leading zeros (except for zero itself).
pub open spec fn spec_dec(n: int) -> Seq<char>
    decreases n,
{
    if n < 10 {
        seq![spec_digit_char(n)]
    } else {
        spec_dec(n / 10) + seq![spec_digit_char(n % 10)]
    }
}

/// The single-character string for a digit value.
fn digit_str(d: u64) -> (r: &'static str)
    requires
        d < 10,
    ensures
        r@ == seq![spec_digit_char(d as int)],
{
    let r: &'static str = if d == 0 {
        "0"
    } else if d == 1 {
        "1"
    } else if d == 2 {
        "2"
    } else if d == 3 {
        "3"
    } else if d == 4 {
        "4"
    } else if d == 5 {
        "5"
    } else if d == 6 {
        "6"
    } else if d == 7 {
        "7"
    } else if d == 8 {
        "8"
    } else {
        "9"
    };
    proof {
        reveal_strlit("0");
        reveal_strlit("1");
        reveal_strlit("2");
        reveal_strlit("3");
        reveal_strlit("4");
        reveal_strlit("5");
        reveal_strlit("6");
        reveal_strlit("7");
        reveal_strlit("8");
        reveal_strlit("9");
        assert(r@ =~= seq![spec_digit_char(d as int)]);
    }
    r
}

/// Renders `n` in decimal.
pub fn u64_to_string(n: u64) -> (r: String)
    ensures
        r@ == spec_dec(n as int),
    decreases n,
{
    if n < 10 {
        digit_str(n).to_owned()
    } else {
        let high = u64_to_string(n / 10);
        let low = digit_str(n % 10);
        proof {
            vstd::arithmetic::div_mod::lemma_mod_pos_bound(n as int, 10);
        }
        high.concat(low)
    }
}

/// The comma-separated decimal rendering of a number sequence.
pub open spec fn spec_comma_join(s: Seq<u64>) -> Seq<char>
    decreases s.len(),
{
    if s.len() == 0 {
        Seq::<char>::empty()
    } else if s.len() == 1 {
        spec_dec(s[0] as int)
    } else {
        spec_comma_join(s.drop_last()) + seq![','] + spec_dec(s.last() as int)
    }
}

/// Joins the numbers with commas, as the part-URL query expects them.
pub fn comma_join(nums: &Vec<u64>) -> (r: String)
    ensures
        r@ == spec_comma_join(nums@),
{
    let mut out: String = String::new();
    let mut i: usize = 0;
    while i < nums.len()
        invariant
            i <= nums@.len(),
            out@ == spec_comma_join(nums@.subrange(0, i as int)),
        decreases nums@.len() - i,
    {
        if i > 0 {
            out.append(",");
            proof {
                reveal_strlit(",");
                assert(","@ =~= seq![',']);
            }
        }
        let piece = u64_to_string(nums[i]);
        out.append(piece.as_str());
        proof {
            let pre = nums@.subrange(0, i as int);
            let post = nums@.subrange(0, i + 1);
            assert(post.drop_last() =~= pre);
            assert(post.last() == nums@[i as int]);
            if i == 0 {
                assert(out@ =~= spec_comma_join(post));
            } else {
                assert(out@ =~= spec_comma_join(post));
            }
        }
        i = i + 1;
    }
    proof {
        assert(nums@.subrange(0, nums@.len() as int) =~= nums@);
    }
    out
}

} // verus!
