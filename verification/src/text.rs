//! Verified text utilities: trimming, equality, substring search, decimal
//! parsing and decimal rendering.
//!
//! Interactive input arrives as raw lines and the remote service renders
//! numbers as strings, so the whole pipeline leans on these few functions.

use vstd::prelude::*;

verus! {

/// ASCII whitespace, the only whitespace interactive input produces.
pub open spec fn is_space(c: char) -> bool {
    c as u32 == 32 || c as u32 == 9 || c as u32 == 10 || c as u32 == 13 || c as u32 == 11
        || c as u32 == 12
}

pub open spec fn is_digit(c: char) -> bool {
    48 <= c as u32 && c as u32 <= 57
}

pub open spec fn digit_val(c: char) -> int {
    c as u32 - 48
}

pub open spec fn all_digits(s: Seq<char>) -> bool {
    forall|i: int| 0 <= i < s.len() ==> is_digit(#[trigger] s[i])
}

/// The value of a digit string, most significant digit first.
pub open spec fn digits_to_int(s: Seq<char>) -> int
    decreases s.len(),
{
    if s.len() == 0 {
        0
    } else {
        10 * digits_to_int(s.drop_last()) + digit_val(s.last())
    }
}

pub proof fn lemma_digits_nonneg(s: Seq<char>)
    requires
        all_digits(s),
    ensures
        digits_to_int(s) >= 0,
    decreases s.len(),
{
    if s.len() > 0 {
        assert(all_digits(s.drop_last())) by {
            assert(forall|i: int|
                0 <= i < s.drop_last().len() ==> #[trigger] s.drop_last()[i] == s[i]);
        }
        lemma_digits_nonneg(s.drop_last());
    }
}

/// A digit string is at least as large as any of its prefixes.
pub proof fn lemma_digits_prefix_le(s: Seq<char>, i: int)
    requires
        all_digits(s),
        0 <= i <= s.len(),
    ensures
        digits_to_int(s.take(i)) <= digits_to_int(s),
    decreases s.len(),
{
    if i == s.len() {
        assert(s.take(i) =~= s);
    } else {
        assert(all_digits(s.drop_last())) by {
            assert(forall|i: int|
                0 <= i < s.drop_last().len() ==> #[trigger] s.drop_last()[i] == s[i]);
        }
        assert(s.drop_last().take(i) =~= s.take(i));
        lemma_digits_prefix_le(s.drop_last(), i);
        lemma_digits_nonneg(s.drop_last());
    }
}

pub open spec fn digit_char(d: int) -> char {
    if d == 0 {
        '0'
    } else if d == 1 {
        '1'
    } else if d == 2 {
        '2'
    } else if d == 3 {
        '3'
    } else if d == 4 {
        '4'
    } else if d == 5 {
        '5'
    } else if d == 6 {
        '6'
    } else if d == 7 {
        '7'
    } else if d == 8 {
        '8'
    } else {
        '9'
    }
}

/// The decimal rendering of a non-negative integer, no sign, no leading zero
/// except for zero itself.
pub open spec fn dec_digits(n: int) -> Seq<char>
    decreases n,
{
    if n < 10 {
        seq![digit_char(n)]
    } else {
        dec_digits(n / 10).push(digit_char(n % 10))
    }
}

/// The decimal rendering of any integer, with a sign for negative ones.
pub open spec fn int_seq(y: int) -> Seq<char> {
    if y < 0 {
        seq!['-'] + dec_digits(-y)
    } else {
        dec_digits(y)
    }
}

/// Rendering and evaluation are inverse on non-negative integers.
pub proof fn lemma_dec_digits_value(n: int)
    requires
        n >= 0,
    ensures
        all_digits(dec_digits(n)),
        digits_to_int(dec_digits(n)) == n,
        dec_digits(n).len() >= 1,
    decreases n,
{
    if n < 10 {
        let s = dec_digits(n);
        assert(s =~= seq![digit_char(n)]);
        assert(s.drop_last() =~= Seq::<char>::empty());
        assert(digits_to_int(Seq::<char>::empty()) == 0);
        assert(digits_to_int(s) == digit_val(digit_char(n)));
    } else {
        lemma_dec_digits_value(n / 10);
        let p = dec_digits(n / 10);
        let s = dec_digits(n);
        assert(s == p.push(digit_char(n % 10)));
        assert(s.drop_last() =~= p);
        assert(s.last() == digit_char(n % 10));
        assert(digits_to_int(s) == 10 * (n / 10) + (n % 10));
    }
}

pub open spec fn trim_front(s: Seq<char>) -> Seq<char>
    decreases s.len(),
{
    if s.len() > 0 && is_space(s[0]) {
        trim_front(s.subrange(1, s.len() as int))
    } else {
        s
    }
}

pub open spec fn trim_back(s: Seq<char>) -> Seq<char>
    decreases s.len(),
{
    if s.len() > 0 && is_space(s.last()) {
        trim_back(s.drop_last())
    } else {
        s
    }
}

/// What is left after removing leading and trailing whitespace.
pub open spec fn spec_trim(s: Seq<char>) -> Seq<char> {
    trim_back(trim_front(s))
}

/// A string that neither starts nor ends with whitespace trims to itself.
pub proof fn lemma_trim_untouched(s: Seq<char>)
    requires
        s.len() == 0 || (!is_space(s[0]) && !is_space(s.last())),
    ensures
        spec_trim(s) == s,
{
}

fn is_space_char(c: char) -> (b: bool)
    ensures
        b == is_space(c),
{
    let v = c as u32;
    v == 32 || v == 9 || v == 10 || v == 13 || v == 11 || v == 12
}

fn trim_front_str(s: &str) -> (r: &str)
    ensures
        r@ == trim_front(s@),
    decreases s@.len(),
{
    let n: usize = s.unicode_len();
    if n > 0 {
        let c = s.get_char(0);
        if is_space_char(c) {
            let rest = s.substring_char(1, n);
            return trim_front_str(rest);
        }
    }
    s
}

fn trim_back_str(s: &str) -> (r: &str)
    ensures
        r@ == trim_back(s@),
    decreases s@.len(),
{
    let n: usize = s.unicode_len();
    if n > 0 {
        let c = s.get_char(n - 1);
        if is_space_char(c) {
            let rest = s.substring_char(0, n - 1);
            assert(rest@ =~= s@.drop_last());
            return trim_back_str(rest);
        }
    }
    s
}

/// Removes leading and trailing whitespace.
pub fn trim_str(s: &str) -> (r: &str)
    ensures
        r@ == spec_trim(s@),
{
    trim_back_str(trim_front_str(s))
}

/// Character-for-character string equality.
pub fn str_eq(a: &str, b: &str) -> (r: bool)
    ensures
        r == (a@ == b@),
{
    let na: usize = a.unicode_len();
    let nb: usize = b.unicode_len();
    if na != nb {
        return false;
    }
    let mut i: usize = 0;
    while i < na
        invariant
            na == a@.len(),
            na == b@.len(),
            0 <= i <= na,
            forall|k: int| 0 <= k < i ==> a@[k] == b@[k],
        decreases na - i,
    {
        if a.get_char(i) != b.get_char(i) {
            return false;
        }
        i = i + 1;
    }
    assert(a@ =~= b@);
    true
}

/// Whether `n` occurs in `h` as a contiguous substring.
pub open spec fn spec_contains(h: Seq<char>, n: Seq<char>) -> bool {
    exists|i: int| 0 <= i && i + n.len() <= h.len() && #[trigger] h.subrange(i, i + n.len()) == n
}

fn match_at(h: &str, n: &str, at: usize) -> (r: bool)
    requires
        at + n@.len() <= h@.len(),
        h@.len() <= usize::MAX,
    ensures
        r == (h@.subrange(at as int, at + n@.len()) == n@),
{
    let nn: usize = n.unicode_len();
    let mut j: usize = 0;
    while j < nn
        invariant
            nn == n@.len(),
            at + nn <= h@.len(),
            h@.len() <= usize::MAX,
            0 <= j <= nn,
            forall|k: int| 0 <= k < j ==> h@[at + k] == n@[k],
        decreases nn - j,
    {
        if h.get_char(at + j) != n.get_char(j) {
            assert(h@.subrange(at as int, at + n@.len())[j as int] == h@[at + j]);
            return false;
        }
        j = j + 1;
    }
    assert(h@.subrange(at as int, at + n@.len()) =~= n@);
    true
}

/// Substring search, returning whether any occurrence exists.
pub fn contains_str(h: &str, n: &str) -> (r: bool)
    ensures
        r == spec_contains(h@, n@),
{
    let hn: usize = h.unicode_len();
    let nn: usize = n.unicode_len();
    if nn > hn {
        return false;
    }
    if nn == 0 {
        assert(h@.subrange(0, 0 + n@.len() as int) =~= n@);
        return true;
    }
    let end: usize = hn - nn;
    let mut i: usize = 0;
    while i <= end
        invariant
            hn == h@.len(),
            nn == n@.len(),
            1 <= nn <= hn,
            end == hn - nn,
            0 <= i <= end + 1,
            forall|k: int| 0 <= k < i ==> #[trigger] h@.subrange(k, k + n@.len()) != n@,
        decreases end + 1 - i,
    {
        if match_at(h, n, i) {
            assert(h@.subrange(i as int, i + n@.len()) == n@);
            return true;
        }
        i = i + 1;
    }
    false
}

/// The value of a digit string, when it has one and it fits in a `u64`.
pub open spec fn spec_parse_u64(s: Seq<char>) -> Option<u64> {
    if s.len() > 0 && all_digits(s) && digits_to_int(s) <= u64::MAX as int {
        Some(digits_to_int(s) as u64)
    } else {
        None
    }
}

/// Parses a string of decimal digits; anything else is `None`.
pub fn parse_u64(s: &str) -> (r: Option<u64>)
    ensures
        r == spec_parse_u64(s@),
{
    let n: usize = s.unicode_len();
    if n == 0 {
        return None;
    }
    let mut acc: u64 = 0;
    let mut i: usize = 0;
    while i < n
        invariant
            n == s@.len(),
            0 <= i <= n,
            all_digits(s@.take(i as int)),
            acc == digits_to_int(s@.take(i as int)),
        decreases n - i,
    {
        let c = s.get_char(i);
        let v = c as u32;
        if v < 48 || v > 57 {
            assert(!is_digit(s@[i as int]));
            return None;
        }
        let d: u64 = (v - 48) as u64;
        proof {
            assert(s@.take(i + 1).drop_last() =~= s@.take(i as int));
            assert(s@.take(i + 1).last() == s@[i as int]);
            assert(digits_to_int(s@.take(i + 1)) == 10 * acc + d);
            assert(all_digits(s@.take(i + 1)));
        }
        if acc > (u64::MAX - d) / 10 {
            proof {
                if all_digits(s@) {
                    lemma_digits_prefix_le(s@, i + 1);
                }
            }
            return None;
        }
        acc = acc * 10 + d;
        i = i + 1;
    }
    assert(s@.take(n as int) =~= s@);
    Some(acc)
}

fn digit_str(d: u64) -> (r: &'static str)
    requires
        d < 10,
    ensures
        r@ == seq![digit_char(d as int)],
{
    proof {
        reveal_strlit("0");
        reveal_strlit("1");
        reveal_strlit("2");
        reveal_strlit("3");
        reveal_strlit("4");
        reveal_strlit("5");
        reveal_strlit("6");
        reveal_strlit("7");
        reveal_strlit("8");
        reveal_strlit("9");
    }
    let r: &'static str = if d == 0 {
        "0"
    } else if d == 1 {
        "1"
    } else if d == 2 {
        "2"
    } else if d == 3 {
        "3"
    } else if d == 4 {
        "4"
    } else if d == 5 {
        "5"
    } else if d == 6 {
        "6"
    } else if d == 7 {
        "7"
    } else if d == 8 {
        "8"
    } else {
        "9"
    };
    assert(r@ =~= seq![digit_char(d as int)]);
    r
}

/// Renders a number in decimal, inverse to `spec_parse_u64` by
/// `lemma_dec_digits_value`.
pub fn u64_to_string(n: u64) -> (r: String)
    ensures
        r@ == dec_digits(n as int),
    decreases n,
{
    if n < 10 {
        let s = digit_str(n);
        s.to_owned()
    } else {
        let mut prefix = u64_to_string(n / 10);
        let d = digit_str(n % 10);
        prefix.append(d);
        proof {
            assert(dec_digits(n as int) =~= dec_digits(n as int / 10) + seq![
                digit_char(n as int % 10),
            ]);
        }
        prefix
    }
}

} // verus!
