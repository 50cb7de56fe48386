use vstd::prelude::*;
use vstd::string::StrSliceExecFns;
use vstd::string::StringExecFns;

verus! {

/// Character-wise equality of two strings.
pub fn str_eq(a: &str, b: &str) -> (r: bool)
    ensures
        r == (a@ == b@),
{
    let la = a.unicode_len();
    let lb = b.unicode_len();
    if la != lb {
        return false;
    }
    let mut i: usize = 0;
    while i < la
        invariant
            la == a@.len(),
            lb == b@.len(),
            la == lb,
            i <= la,
            forall|j: int| 0 <= j < i ==> a@[j] == b@[j],
        decreases la - i,
    {
        let ca = a.get_char(i);
        let cb = b.get_char(i);
        if ca != cb {
            proof {
                assert(a@[i as int] != b@[i as int]);
            }
            return false;
        }
        i = i + 1;
    }
    proof {
        assert(a@ =~= b@);
    }
    true
}

/// The Unicode scalar value of `c` folded to lower case over the ASCII
/// letters only.
pub open spec fn spec_lower_code(c: char) -> u32 {
    if 65 <= c as u32 && c as u32 <= 90 {
        (c as u32 + 32) as u32
    } else {
        c as u32
    }
}

/// Two character sequences are equal once ASCII letters are folded to
/// lower case.
pub open spec fn spec_eq_ignore_ascii_case(a: Seq<char>, b: Seq<char>) -> bool {
    a.len() == b.len() && forall|i: int|
        0 <= i < a.len() ==> spec_lower_code(#[trigger] a[i]) == spec_lower_code(b[i])
}

/// ASCII-case-insensitive equality of two strings.
pub fn eq_ignore_ascii_case(a: &str, b: &str) -> (r: bool)
    ensures
        r == spec_eq_ignore_ascii_case(a@, b@),
{
    let la = a.unicode_len();
    let lb = b.unicode_len();
    if la != lb {
        return false;
    }
    let mut i: usize = 0;
    while i < la
        invariant
            la == a@.len(),
            lb == b@.len(),
            la == lb,
            i <= la,
            forall|j: int| 0 <= j < i ==> spec_lower_code(#[trigger] a@[j])
                == spec_lower_code(b@[j]),
        decreases la - i,
    {
        let ca = a.get_char(i) as u32;
        let cb = b.get_char(i) as u32;
        let fa = if 65 <= ca && ca <= 90 { ca + 32 } else { ca };
        let fb = if 65 <= cb && cb <= 90 { cb + 32 } else { cb };
        if fa != fb {
            return false;
        }
        i = i + 1;
    }
    true
}

/// `c` occurs somewhere in `s`.
pub open spec fn spec_contains_char(s: Seq<char>, c: char) -> bool {
    exists|i: int| 0 <= i < s.len() && s[i] == c
}

/// The greatest index at which `c` occurs in `s` (meaningful only when
/// `spec_contains_char(s, c)` holds).
pub open spec fn spec_last_char_at(s: Seq<char>, c: char) -> int {
    choose|i: int|
        0 <= i < s.len() && s[i] == c && (forall|j: int| i < j < s.len() ==> s[j] != c)
}

/// An occurrence after every other occurrence is the greatest one.
proof fn lemma_last_char_at(s: Seq<char>, c: char, i: int)
    requires
        0 <= i < s.len(),
        s[i] == c,
        forall|j: int| i < j < s.len() ==> s[j] != c,
    ensures
        spec_last_char_at(s, c) == i,
{
    let w = spec_last_char_at(s, c);
    assert(0 <= w < s.len() && s[w] == c && (forall|j: int|
        w < j < s.len() ==> s[j] != c)) by {
        assert(0 <= i < s.len() && s[i] == c && (forall|j: int|
            i < j < s.len() ==> s[j] != c));
    }
    if w < i {
        assert(s[i] != c);
    }
    if i < w {
        assert(s[w] != c);
    }
}

/// Whether the character `c` occurs anywhere in `s`.
pub fn contains_char(s: &str, c: char) -> (r: bool)
    ensures
        r == spec_contains_char(s@, c),
{
    let len = s.unicode_len();
    let mut i: usize = 0;
    while i < len
        invariant
            len == s@.len(),
            i <= len,
            forall|j: int| 0 <= j < i ==> s@[j] != c,
        decreases len - i,
    {
        if s.get_char(i) == c {
            return true;
        }
        i = i + 1;
    }
    false
}

/// `p` is a prefix of `s`.
pub open spec fn spec_starts_with(s: Seq<char>, p: Seq<char>) -> bool {
    p.len() <= s.len() && s.subrange(0, p.len() as int) == p
}

/// Whether `prefix` starts the string `s`.
pub fn starts_with_str(s: &str, prefix: &str) -> (r: bool)
    ensures
        r == spec_starts_with(s@, prefix@),
{
    let ls = s.unicode_len();
    let lp = prefix.unicode_len();
    if lp > ls {
        return false;
    }
    let mut i: usize = 0;
    while i < lp
        invariant
            ls == s@.len(),
            lp == prefix@.len(),
            lp <= ls,
            i <= lp,
            forall|j: int| 0 <= j < i ==> s@[j] == prefix@[j],
        decreases lp - i,
    {
        if s.get_char(i) != prefix.get_char(i) {
            proof {
                if spec_starts_with(s@, prefix@) {
                    assert(s@.subrange(0, lp as int)[i as int] == s@[i as int]);
                }
            }
            return false;
        }
        i = i + 1;
    }
    proof {
        assert(s@.subrange(0, lp as int) =~= prefix@);
    }
    true
}

/// `p` occurs in `s` at index `i`.
pub open spec fn spec_occurs_at(s: Seq<char>, p: Seq<char>, i: int) -> bool {
    0 <= i && i + p.len() <= s.len() && s.subrange(i, i + p.len() as int) == p
}

/// `p` occurs somewhere in `s`.
pub open spec fn spec_contains(s: Seq<char>, p: Seq<char>) -> bool {
    exists|i: int| spec_occurs_at(s, p, i)
}

/// The least index at which `p` occurs in `s` (meaningful only when
/// `spec_contains(s, p)` holds).
pub open spec fn spec_first_at(s: Seq<char>, p: Seq<char>) -> int {
    choose|i: int|
        spec_occurs_at(s, p, i) && (forall|j: int| 0 <= j < i ==> !spec_occurs_at(s, p, j))
}

/// An occurrence before every other occurrence is the least one.
proof fn lemma_first_at(s: Seq<char>, p: Seq<char>, i: int)
    requires
        spec_occurs_at(s, p, i),
        forall|j: int| 0 <= j < i ==> !spec_occurs_at(s, p, j),
    ensures
        spec_first_at(s, p) == i,
{
    let w = spec_first_at(s, p);
    assert(spec_occurs_at(s, p, w) && (forall|j: int|
        0 <= j < w ==> !spec_occurs_at(s, p, j))) by {
        assert(spec_occurs_at(s, p, i) && (forall|j: int|
            0 <= j < i ==> !spec_occurs_at(s, p, j)));
    }
    if w < i {
        assert(!spec_occurs_at(s, p, w));
    }
    if i < w {
        assert(!spec_occurs_at(s, p, i));
    }
}

/// The least index at which `p` occurs in `s`, if it occurs at all.
pub fn find_sub(s: &str, p: &str) -> (r: Option<usize>)
    ensures
        match r {
            Some(i) => spec_contains(s@, p@) && i as int == spec_first_at(s@, p@)
                && spec_occurs_at(s@, p@, i as int),
            None => !spec_contains(s@, p@),
        },
{
    let ls = s.unicode_len();
    let lp = p.unicode_len();
    if lp > ls {
        return None;
    }
    if lp == 0 {
        proof {
            assert(s@.subrange(0, 0) =~= p@);
            lemma_first_at(s@, p@, 0);
        }
        return Some(0);
    }
    let mut i: usize = 0;
    while i <= ls - lp
        invariant
            ls == s@.len(),
            lp == p@.len(),
            1 <= lp <= ls,
            i <= ls - lp + 1,
            forall|j: int| 0 <= j < i ==> !spec_occurs_at(s@, p@, j),
        decreases ls - lp - i + 1,
    {
        let mut k: usize = 0;
        let mut matched = true;
        while k < lp
            invariant
                ls == s@.len(),
                lp == p@.len(),
                i + lp <= ls,
                k <= lp,
                matched ==> forall|m: int| 0 <= m < k ==> s@[i + m] == p@[m],
                !matched ==> !spec_occurs_at(s@, p@, i as int),
            decreases lp - k,
        {
            if matched && s.get_char(i + k) != p.get_char(k) {
                proof {
                    if spec_occurs_at(s@, p@, i as int) {
                        assert(s@.subrange(i as int, i + lp as int)[k as int]
                            == s@[i + k as int]);
                    }
                }
                matched = false;
            }
            k = k + 1;
        }
        if matched {
            proof {
                assert(s@.subrange(i as int, i + lp as int) =~= p@);
                assert(spec_occurs_at(s@, p@, i as int));
                assert(spec_contains(s@, p@));
                lemma_first_at(s@, p@, i as int);
            }
            return Some(i);
        }
        i = i + 1;
    }
    proof {
        assert forall|j: int| !spec_occurs_at(s@, p@, j) by {
            if 0 <= j && j + p@.len() <= s@.len() {
                assert(j < i);
            }
        }
    }
    None
}

/// Whether `p` occurs in `s`.
pub fn contains_sub(s: &str, p: &str) -> (r: bool)
    ensures
        r == spec_contains(s@, p@),
{
    match find_sub(s, p) {
        Some(_) => true,
        None => false,
    }
}

/// Everything after the first occurrence of `p` in `s` (meaningful only
/// when `spec_contains(s, p)` holds).
pub open spec fn spec_after(s: Seq<char>, p: Seq<char>) -> Seq<char> {
    s.subrange(spec_first_at(s, p) + p.len(), s.len() as int)
}

/// Everything before the first occurrence of `p` in `s`, or all of `s`
/// when `p` does not occur.
pub open spec fn spec_before(s: Seq<char>, p: Seq<char>) -> Seq<char> {
    if spec_contains(s, p) {
        s.subrange(0, spec_first_at(s, p))
    } else {
        s
    }
}

/// Everything after the first occurrence of `p` in `s`, or nothing when
/// `p` does not occur.
pub fn text_after(s: &str, p: &str) -> (r: Option<String>)
    ensures
        r is Some <==> spec_contains(s@, p@),
        r matches Some(t) ==> t@ == spec_after(s@, p@),
{
    let ls = s.unicode_len();
    let lp = p.unicode_len();
    match find_sub(s, p) {
        Some(i) => {
            let piece = s.substring_char(i + lp, ls);
            Some(piece.to_owned())
        },
        None => None,
    }
}

/// Everything before the first occurrence of `p` in `s`, or all of `s`
/// when `p` does not occur.
pub fn text_before(s: &str, p: &str) -> (r: String)
    ensures
        r@ == spec_before(s@, p@),
{
    match find_sub(s, p) {
        Some(i) => {
            let piece = s.substring_char(0, i);
            piece.to_owned()
        },
        None => s.to_owned(),
    }
}

/// `s` with every leading repetition of `p` removed.
pub open spec fn spec_trim_start_matches(s: Seq<char>, p: Seq<char>) -> Seq<char>
    decreases s.len(),
{
    if p.len() > 0 && spec_starts_with(s, p) {
        spec_trim_start_matches(s.subrange(p.len() as int, s.len() as int), p)
    } else {
        s
    }
}

/// Removes every leading repetition of `p` from `s`.
pub fn trim_start_matches_str(s: &str, p: &str) -> (r: String)
    ensures
        r@ == spec_trim_start_matches(s@, p@),
{
    let lp = p.unicode_len();
    let mut cur: String = s.to_owned();
    if lp == 0 {
        return cur;
    }
    let mut go = starts_with_str(cur.as_str(), p);
    while go
        invariant
            lp == p@.len(),
            lp > 0,
            go == spec_starts_with(cur@, p@),
            spec_trim_start_matches(cur@, p@) == spec_trim_start_matches(s@, p@),
        decreases cur@.len(),
    {
        let lc = cur.as_str().unicode_len();
        let tail = cur.as_str().substring_char(lp, lc);
        let next = tail.to_owned();
        cur = next;
        go = starts_with_str(cur.as_str(), p);
    }
    cur
}

/// `s` without a single leading `p`, when `p` starts it.
pub fn strip_prefix_str(s: &str, p: &str) -> (r: Option<String>)
    ensures
        r is Some <==> spec_starts_with(s@, p@),
        r matches Some(t) ==> t@ == s@.subrange(p@.len() as int, s@.len() as int),
{
    if starts_with_str(s, p) {
        let ls = s.unicode_len();
        let lp = p.unicode_len();
        let piece = s.substring_char(lp, ls);
        Some(piece.to_owned())
    } else {
        None
    }
}

/// The greatest index at which `c` occurs in `s`, if it occurs at all.
pub fn rfind_char(s: &str, c: char) -> (r: Option<usize>)
    ensures
        match r {
            Some(i) => spec_contains_char(s@, c) && i as int == spec_last_char_at(s@, c)
                && i < s@.len() && s@[i as int] == c,
            None => !spec_contains_char(s@, c),
        },
{
    let len = s.unicode_len();
    let mut i: usize = len;
    while i > 0
        invariant
            len == s@.len(),
            i <= len,
            forall|j: int| i <= j < len ==> s@[j] != c,
        decreases i,
    {
        i = i - 1;
        if s.get_char(i) == c {
            proof {
                lemma_last_char_at(s@, c, i as int);
            }
            return Some(i);
        }
    }
    None
}

/// `c` folded to lower case when it is an ASCII capital letter, itself
/// otherwise.
pub open spec fn spec_lower_char(c: char) -> char {
    if c == 'A' { 'a' }
    else if c == 'B' { 'b' }
    else if c == 'C' { 'c' }
    else if c == 'D' { 'd' }
    else if c == 'E' { 'e' }
    else if c == 'F' { 'f' }
    else if c == 'G' { 'g' }
    else if c == 'H' { 'h' }
    else if c == 'I' { 'i' }
    else if c == 'J' { 'j' }
    else if c == 'K' { 'k' }
    else if c == 'L' { 'l' }
    else if c == 'M' { 'm' }
    else if c == 'N' { 'n' }
    else if c == 'O' { 'o' }
    else if c == 'P' { 'p' }
    else if c == 'Q' { 'q' }
    else if c == 'R' { 'r' }
    else if c == 'S' { 's' }
    else if c == 'T' { 't' }
    else if c == 'U' { 'u' }
    else if c == 'V' { 'v' }
    else if c == 'W' { 'w' }
    else if c == 'X' { 'x' }
    else if c == 'Y' { 'y' }
    else if c == 'Z' { 'z' }
    else { c }
}

/// `s` with its ASCII capital letters folded to lower case.
pub open spec fn spec_ascii_lower(s: Seq<char>) -> Seq<char> {
    Seq::new(s.len(), |i: int| spec_lower_char(s[i]))
}

fn lower_char_str(c: char) -> (r: &'static str)
    requires
        65 <= c as u32 <= 90,
    ensures
        r@ == seq![spec_lower_char(c)],
{
    let r: &'static str = if c == 'A' { "a" }
    else if c == 'B' { "b" }
    else if c == 'C' { "c" }
    else if c == 'D' { "d" }
    else if c == 'E' { "e" }
    else if c == 'F' { "f" }
    else if c == 'G' { "g" }
    else if c == 'H' { "h" }
    else if c == 'I' { "i" }
    else if c == 'J' { "j" }
    else if c == 'K' { "k" }
    else if c == 'L' { "l" }
    else if c == 'M' { "m" }
    else if c == 'N' { "n" }
    else if c == 'O' { "o" }
    else if c == 'P' { "p" }
    else if c == 'Q' { "q" }
    else if c == 'R' { "r" }
    else if c == 'S' { "s" }
    else if c == 'T' { "t" }
    else if c == 'U' { "u" }
    else if c == 'V' { "v" }
    else if c == 'W' { "w" }
    else if c == 'X' { "x" }
    else if c == 'Y' { "y" }
    else { "z" };
    proof {
        reveal_strlit("a");
        reveal_strlit("b");
        reveal_strlit("c");
        reveal_strlit("d");
        reveal_strlit("e");
        reveal_strlit("f");
        reveal_strlit("g");
        reveal_strlit("h");
        reveal_strlit("i");
        reveal_strlit("j");
        reveal_strlit("k");
        reveal_strlit("l");
        reveal_strlit("m");
        reveal_strlit("n");
        reveal_strlit("o");
        reveal_strlit("p");
        reveal_strlit("q");
        reveal_strlit("r");
        reveal_strlit("s");
        reveal_strlit("t");
        reveal_strlit("u");
        reveal_strlit("v");
        reveal_strlit("w");
        reveal_strlit("x");
        reveal_strlit("y");
        reveal_strlit("z");
        assert(r@ =~= seq![spec_lower_char(c)]);
    }
    r
}

/// Folds the ASCII capital letters of `s` to lower case, leaving every
/// other character as it is.
pub fn ascii_lowercase(s: &str) -> (r: String)
    ensures
        r@ == spec_ascii_lower(s@),
{
    let len = s.unicode_len();
    let mut out: String = String::new();
    let mut i: usize = 0;
    while i < len
        invariant
            len == s@.len(),
            i <= len,
            out@ =~= spec_ascii_lower(s@).subrange(0, i as int),
        decreases len - i,
    {
        let c = s.get_char(i);
        let u = c as u32;
        if 65 <= u && u <= 90 {
            out.append(lower_char_str(c));
        } else {
            proof {
                assert(spec_lower_char(c) == c);
            }
            out.append(s.substring_char(i, i + 1));
        }
        proof {
            assert(out@ =~= spec_ascii_lower(s@).subrange(0, i + 1));
        }
        i = i + 1;
    }
    proof {
        assert(spec_ascii_lower(s@).subrange(0, len as int) =~= spec_ascii_lower(s@));
    }
    out
}

/// A clone of an optional string, equal under the deep view.
pub fn clone_opt_string(o: &Option<String>) -> (r: Option<String>)
    ensures
        r.deep_view() == o.deep_view(),
{
    match o {
        Some(s) => Some(s.clone()),
        None => None,
    }
}

/// `c` is an ASCII decimal digit.
pub open spec fn spec_is_digit(c: char) -> bool {
    48 <= c as u32 && c as u32 <= 57
}

/// The numeric value of the digit `c`.
pub open spec fn spec_digit_val(c: char) -> int {
    c as u32 - 48
}

/// Every character of `s` is an ASCII decimal digit.
pub open spec fn spec_all_digits(s: Seq<char>) -> bool {
    forall|i: int| 0 <= i < s.len() ==> spec_is_digit(#[trigger] s[i])
}

/// The value of `s` read as a big-endian sequence of decimal digits.
pub open spec fn spec_digits_val(s: Seq<char>) -> int
    decreases s.len(),
{
    if s.len() == 0 {
        0
    } else {
        spec_digits_val(s.drop_last()) * 10 + spec_digit_val(s.last())
    }
}

proof fn lemma_digits_val_nonneg(s: Seq<char>)
    requires
        spec_all_digits(s),
    ensures
        spec_digits_val(s) >= 0,
    decreases s.len(),
{
    if s.len() > 0 {
        assert(spec_all_digits(s.drop_last()));
        lemma_digits_val_nonneg(s.drop_last());
    }
}

/// A digit string is worth at least any of its prefixes.
proof fn lemma_digits_val_prefix_le(s: Seq<char>, i: int)
    requires
        spec_all_digits(s),
        0 <= i <= s.len(),
    ensures
        spec_digits_val(s.subrange(0, i)) <= spec_digits_val(s),
    decreases s.len() - i,
{
    if i == s.len() {
        assert(s.subrange(0, i) =~= s);
    } else {
        lemma_digits_val_prefix_le(s, i + 1);
        let a = s.subrange(0, i);
        let b = s.subrange(0, i + 1);
        assert(b.drop_last() =~= a);
        assert(spec_all_digits(a));
        lemma_digits_val_nonneg(a);
        assert(spec_digits_val(b) == spec_digits_val(a) * 10 + spec_digit_val(s[i]));
        assert(spec_digits_val(a) * 10 >= spec_digits_val(a)) by (nonlinear_arith)
            requires spec_digits_val(a) >= 0;
    }
}

/// The number `s` denotes under Rust's `u32` parsing rules: an optional
/// leading `+`, then one or more ASCII decimal digits, with a value that
/// fits in a `u32`; anything else denotes nothing.
pub open spec fn spec_parse_u32(s: Seq<char>) -> Option<u32> {
    let t = if s.len() > 0 && s[0] == '+' {
        s.subrange(1, s.len() as int)
    } else {
        s
    };
    if t.len() > 0 && spec_all_digits(t) && spec_digits_val(t) <= u32::MAX {
        Some(spec_digits_val(t) as u32)
    } else {
        None
    }
}

/// Parses `s` as a `u32`, accepting exactly what Rust's own parser accepts.
pub fn parse_u32(s: &str) -> (r: Option<u32>)
    ensures
        r == spec_parse_u32(s@),
{
    let ls = s.unicode_len();
    let mut start: usize = 0;
    if ls > 0 && s.get_char(0) == '+' {
        start = 1;
    }
    let ghost t: Seq<char> = s@.subrange(start as int, ls as int);
    proof {
        if start == 0 {
            assert(t =~= s@);
        }
    }
    if start >= ls {
        return None;
    }
    let mut acc: u32 = 0;
    let mut i: usize = start;
    while i < ls
        invariant
            ls == s@.len(),
            start <= i <= ls,
            start < ls,
            start == 0 || start == 1,
            start == 1 ==> s@[0] == '+',
            start == 0 ==> !(s@.len() > 0 && s@[0] == '+'),
            t == s@.subrange(start as int, ls as int),
            start == 0 ==> t == s@,
            spec_all_digits(t.subrange(0, i - start)),
            acc == spec_digits_val(t.subrange(0, i - start)),
        decreases ls - i,
    {
        let c = s.get_char(i);
        let u = c as u32;
        proof {
            assert(t[i - start] == s@[i as int]);
        }
        if u < 48 || u > 57 {
            proof {
                assert(!spec_is_digit(t[i - start]));
            }
            return None;
        }
        let d = u - 48;
        let ghost pre = t.subrange(0, i - start);
        let ghost post = t.subrange(0, i + 1 - start);
        proof {
            assert(post.drop_last() =~= pre);
            assert(post.last() == t[i - start]);
            assert(spec_digits_val(post) == acc * 10 + d);
        }
        if acc > (u32::MAX - d) / 10 {
            proof {
                let m = (u32::MAX - d) as int;
                vstd::arithmetic::div_mod::lemma_fundamental_div_mod(m, 10);
                vstd::arithmetic::div_mod::lemma_mod_pos_bound(m, 10);
                assert(acc >= m / 10 + 1);
                assert(acc * 10 >= (m / 10 + 1) * 10) by (nonlinear_arith)
                    requires acc >= m / 10 + 1;
                assert((m / 10 + 1) * 10 == (m / 10) * 10 + 10) by (nonlinear_arith);
                assert(10 * (m / 10) == (m / 10) * 10) by (nonlinear_arith);
                assert(spec_digits_val(post) > u32::MAX);
                if spec_all_digits(t) && spec_digits_val(t) <= u32::MAX {
                    lemma_digits_val_prefix_le(t, i + 1 - start);
                    assert(false);
                }
            }
            return None;
        }
        acc = acc * 10 + d;
        proof {
            assert(acc == spec_digits_val(post));
        }
        i = i + 1;
    }
    proof {
        assert(t.subrange(0, ls - start) =~= t);
    }
    Some(acc)
}

/// The first `n` characters of `s`, or all of `s` if it is shorter.
pub fn prefix_chars(s: &str, n: usize) -> (r: String)
    ensures
        r@ == s@.subrange(0, if n <= s@.len() { n as int } else { s@.len() as int }),
{
    let len = s.unicode_len();
    let upto = if n <= len { n } else { len };
    let piece = s.substring_char(0, upto);
    piece.to_owned()
}

} // verus!
