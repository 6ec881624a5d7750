//! Small text rules of the configuration: keyword keys such as `unit 01`,
//! decimal numbers and durations such as `10 ms`.

use vstd::prelude::*;
use vstd::string::StrSliceExecFns;
use crate::estimator::Ratio;

verus! {

/// `key` is `name`, one space, then a non-empty title; the title.
pub open spec fn keyword_title(key: Seq<char>, name: Seq<char>) -> Option<Seq<char>> {
    if key.len() > name.len() + 1 && key.subrange(0, name.len() as int) == name && key[name.len() as int]
        == ' ' {
        Some(key.subrange(name.len() + 1int, key.len() as int))
    } else {
        None
    }
}

pub open spec fn is_digit(c: char) -> bool {
    '0' <= c <= '9'
}

pub open spec fn all_digits(s: Seq<char>) -> bool {
    forall|i: int| 0 <= i < s.len() ==> is_digit(#[trigger] s[i])
}

/// The value of a string of decimal digits.
pub open spec fn decimal_value(s: Seq<char>) -> int
    decreases s.len(),
{
    if s.len() == 0 {
        0
    } else {
        10 * decimal_value(s.drop_last()) + (s.last() as u32 - '0' as u32)
    }
}

/// The number that `s` writes in decimal digits, if it is one and at most
/// `max`.
pub open spec fn decimal_spec(s: Seq<char>, max: int) -> Option<int> {
    if s.len() > 0 && all_digits(s) && decimal_value(s) <= max {
        Some(decimal_value(s))
    } else {
        None
    }
}

/// The characters of `s`.
pub fn to_chars(s: &str) -> (r: Vec<char>)
    ensures
        r@ == s@,
{
    let n = s.unicode_len();
    let mut r: Vec<char> = Vec::new();
    let mut i: usize = 0;
    while i < n
        invariant
            n == s@.len(),
            i <= n,
            r@ == s@.subrange(0, i as int),
        decreases n - i,
    {
        r.push(s.get_char(i));
        i = i + 1;
        assert(r@ =~= s@.subrange(0, i as int));
    }
    assert(s@.subrange(0, n as int) =~= s@);
    r
}

/// Whether `a` and `b` hold the same characters.
pub fn same_chars(a: &Vec<char>, b: &Vec<char>) -> (r: bool)
    ensures
        r == (a@ == b@),
{
    if a.len() != b.len() {
        return false;
    }
    let mut i: usize = 0;
    while i < a.len()
        invariant
            a@.len() == b@.len(),
            i <= a@.len(),
            a@.subrange(0, i as int) == b@.subrange(0, i as int),
        decreases a@.len() - i,
    {
        if a[i] != b[i] {
            assert(a@[i as int] != b@[i as int]);
            return false;
        }
        assert(a@.subrange(0, i as int + 1) =~= a@.subrange(0, i as int).push(a@[i as int]));
        assert(b@.subrange(0, i as int + 1) =~= b@.subrange(0, i as int).push(b@[i as int]));
        i = i + 1;
    }
    assert(a@ =~= a@.subrange(0, a@.len() as int));
    assert(b@ =~= b@.subrange(0, b@.len() as int));
    true
}

fn slice_chars(s: &Vec<char>, from: usize, to: usize) -> (r: Vec<char>)
    requires
        from <= to <= s@.len(),
    ensures
        r@ == s@.subrange(from as int, to as int),
{
    let mut r: Vec<char> = Vec::new();
    let mut i: usize = from;
    while i < to
        invariant
            from <= i <= to <= s@.len(),
            r@ == s@.subrange(from as int, i as int),
        decreases to - i,
    {
        r.push(s[i]);
        i = i + 1;
        assert(r@ =~= s@.subrange(from as int, i as int));
    }
    r
}

/// The title of a keyword key `name title`, or `None` when `key` is not
/// one.
pub fn keyword_of(key: &Vec<char>, name: &Vec<char>) -> (r: Option<Vec<char>>)
    ensures
        r matches Some(t) ==> keyword_title(key@, name@) == Some(t@),
        r is None ==> keyword_title(key@, name@) is None,
{
    if key.len() <= name.len() || key.len() - name.len() < 2 {
        return None;
    }
    let head = slice_chars(key, 0, name.len());
    if !same_chars(&head, name) || key[name.len()] != ' ' {
        return None;
    }
    Some(slice_chars(key, name.len() + 1, key.len()))
}

proof fn lemma_decimal_grows(s: Seq<char>, i: int)
    requires
        0 <= i <= s.len(),
        all_digits(s),
    ensures
        decimal_value(s.subrange(0, i)) <= decimal_value(s),
    decreases s.len() - i,
{
    if i < s.len() {
        let p = s.subrange(0, i + 1);
        assert(p.drop_last() =~= s.subrange(0, i));
        assert(is_digit(s[i]));
        assert(decimal_value(p) >= decimal_value(s.subrange(0, i))) by {
            assert(decimal_value(s.subrange(0, i)) >= 0) by {
                lemma_decimal_nonneg(s.subrange(0, i));
            }
        }
        lemma_decimal_grows(s, i + 1);
    } else {
        assert(s.subrange(0, i) =~= s);
    }
}

proof fn lemma_decimal_nonneg(s: Seq<char>)
    requires
        all_digits(s),
    ensures
        decimal_value(s) >= 0,
    decreases s.len(),
{
    if s.len() > 0 {
        assert(is_digit(s.last()));
        lemma_decimal_nonneg(s.drop_last());
    }
}

/// The number written in decimal digits in `s`, if it is one and at most
/// `max`.
pub fn parse_decimal(s: &Vec<char>, max: u64) -> (r: Option<u64>)
    ensures
        r matches Some(v) ==> decimal_spec(s@, max as int) == Some(v as int),
        r is None ==> decimal_spec(s@, max as int) is None,
{
    if s.len() == 0 {
        return None;
    }
    let mut v: u128 = 0;
    let mut i: usize = 0;
    while i < s.len()
        invariant
            i <= s@.len(),
            v == decimal_value(s@.subrange(0, i as int)),
            v <= max,
            all_digits(s@.subrange(0, i as int)),
        decreases s@.len() - i,
    {
        let c = s[i];
        if !('0' <= c && c <= '9') {
            assert(!is_digit(s@[i as int]));
            return None;
        }
        assert(s@.subrange(0, i as int + 1).drop_last() =~= s@.subrange(0, i as int));
        v = v * 10 + (c as u32 - '0' as u32) as u128;
        i = i + 1;
        assert(all_digits(s@.subrange(0, i as int))) by {
            assert forall|j: int| 0 <= j < i implies is_digit(#[trigger] s@.subrange(0, i as int)[j]) by {
                if j < i - 1 {
                    assert(s@.subrange(0, i as int)[j] == s@.subrange(0, i as int - 1)[j]);
                }
            }
        }
        if v > max as u128 {
            proof {
                if all_digits(s@) {
                    lemma_decimal_grows(s@, i as int);
                }
            }
            return None;
        }
    }
    assert(s@.subrange(0, s@.len() as int) =~= s@);
    Some(v as u64)
}


/// The index of the first `c` in `s`, or -1.
pub open spec fn index_of(s: Seq<char>, c: char) -> int
    decreases s.len(),
{
    if s.len() == 0 {
        -1
    } else if s[0] == c {
        0
    } else if index_of(s.drop_first(), c) < 0 {
        -1
    } else {
        index_of(s.drop_first(), c) + 1
    }
}

/// `10` to the power `k`.
pub open spec fn pow10(k: nat) -> int
    decreases k,
{
    if k == 0 {
        1
    } else {
        10 * pow10((k - 1) as nat)
    }
}

/// The most fraction digits that a ratio may have: its denominator stays
/// within 32 bits.
pub const MAX_FRACTION_DIGITS: usize = 9;

/// The fraction that a decimal number such as `0.8` or `2` writes: all its
/// digits over the power of ten of its fraction digits.
pub open spec fn ratio_spec(s: Seq<char>) -> Option<Ratio> {
    let p = index_of(s, '.');
    if p < 0 {
        match decimal_spec(s, u32::MAX as int) {
            Some(v) => Some(Ratio { num: v as u32, den: 1 }),
            None => None,
        }
    } else {
        let a = s.subrange(0, p);
        let b = s.subrange(p + 1, s.len() as int);
        if a.len() > 0 && b.len() > 0 && b.len() <= MAX_FRACTION_DIGITS {
            match decimal_spec(a + b, u32::MAX as int) {
                Some(v) => Some(Ratio { num: v as u32, den: pow10(b.len()) as u32 }),
                None => None,
            }
        } else {
            None
        }
    }
}

proof fn lemma_index_of(s: Seq<char>, c: char, p: int)
    requires
        0 <= p <= s.len(),
        forall|j: int| 0 <= j < p ==> s[j] != c,
        p < s.len() ==> s[p] == c,
    ensures
        index_of(s, c) == if p < s.len() { p } else { -1 },
    decreases p,
{
    if p > 0 {
        lemma_index_of(s.drop_first(), c, p - 1);
    }
}

fn first_dot(s: &Vec<char>) -> (r: usize)
    ensures
        r <= s@.len(),
        forall|j: int| 0 <= j < r ==> s@[j] != '.',
        r < s@.len() ==> s@[r as int] == '.',
{
    let mut i: usize = 0;
    while i < s.len()
        invariant
            i <= s@.len(),
            forall|j: int| 0 <= j < i ==> s@[j] != '.',
        decreases s@.len() - i,
    {
        if s[i] == '.' {
            return i;
        }
        i = i + 1;
    }
    i
}

/// Reads a non-negative decimal number such as `0.8` as an exact fraction.
pub fn parse_ratio(s: &str) -> (r: Option<Ratio>)
    ensures
        r == ratio_spec(s@),
{
    let c = to_chars(s);
    let p = first_dot(&c);
    proof {
        lemma_index_of(c@, '.', p as int);
    }
    if p == c.len() {
        return match parse_decimal(&c, 0xffff_ffff) {
            Some(v) => Some(Ratio { num: v as u32, den: 1 }),
            None => None,
        };
    }
    let frac_len = c.len() - p - 1;
    if p == 0 || frac_len == 0 || frac_len > MAX_FRACTION_DIGITS {
        return None;
    }
    let mut digits: Vec<char> = Vec::new();
    let mut i: usize = 0;
    while i < c.len()
        invariant
            p < c@.len(),
            i <= c@.len(),
            digits@ == if i <= p {
                c@.subrange(0, i as int)
            } else {
                c@.subrange(0, p as int) + c@.subrange(p + 1, i as int)
            },
        decreases c@.len() - i,
    {
        if i != p {
            digits.push(c[i]);
        }
        i = i + 1;
        assert(digits@ =~= if i <= p {
            c@.subrange(0, i as int)
        } else {
            c@.subrange(0, p as int) + c@.subrange(p + 1, i as int)
        });
    }
    let mut den: u32 = 1;
    let mut k: usize = 0;
    while k < frac_len
        invariant
            k <= frac_len <= MAX_FRACTION_DIGITS,
            den == pow10(k as nat),
            den <= 1_000_000_000,
        decreases frac_len - k,
    {
        assert(den <= 100_000_000) by {
            lemma_pow10_bound(k as nat);
        }
        den = den * 10;
        k = k + 1;
    }
    match parse_decimal(&digits, 0xffff_ffff) {
        Some(v) => Some(Ratio { num: v as u32, den }),
        None => None,
    }
}

proof fn lemma_pow10_bound(k: nat)
    requires
        k < MAX_FRACTION_DIGITS,
    ensures
        pow10(k) <= 100_000_000,
{
    reveal_with_fuel(pow10, 10);
    assert(k <= 8);
    if k == 0 {
    } else if k == 1 {
    } else if k == 2 {
    } else if k == 3 {
    } else if k == 4 {
    } else if k == 5 {
    } else if k == 6 {
    } else if k == 7 {
    } else {
        assert(k == 8);
    }
}

} // verus!
