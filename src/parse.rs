//! Reading amounts and stack sizes from the text that the user types.

use vstd::prelude::*;

use crate::ratio::Amount;
use crate::text::chars_of;

verus! {

/// An ASCII decimal digit.
pub open spec fn is_digit(c: char) -> bool {
    '0' <= c && c <= '9'
}

/// Every character is a decimal digit.
pub open spec fn all_digits(s: Seq<char>) -> bool {
    forall|i: int| 0 <= i < s.len() ==> is_digit(#[trigger] s[i])
}

/// The number that a string of decimal digits writes (0 for none).
pub open spec fn digits_value(s: Seq<char>) -> nat
    decreases s.len(),
{
    if s.len() == 0 {
        0
    } else {
        digits_value(s.drop_last()) * 10 + (s.last() as nat - '0' as nat) as nat
    }
}

/// Ten to the power `n`.
pub open spec fn pow10(n: nat) -> nat
    decreases n,
{
    if n == 0 {
        1
    } else {
        10 * pow10((n - 1) as nat)
    }
}

/// `s` writes a decimal number with integer digits `a` and fraction digits
/// `b`: either `a` alone or `a`, a point and `b`, with at least one digit
/// in all.
pub open spec fn decimal_text(s: Seq<char>, a: Seq<char>, b: Seq<char>) -> bool {
    &&& all_digits(a)
    &&& all_digits(b)
    &&& a.len() + b.len() > 0
    &&& (s == a && b.len() == 0) || s == a + seq!['.'] + b
}

/// `s` writes a decimal number whose digits, read as one whole number, and
/// whose power of ten in the denominator both fit in 64 bits.
pub open spec fn amount_text_fits(s: Seq<char>) -> bool {
    exists|a: Seq<char>, b: Seq<char>|
        #![trigger decimal_text(s, a, b)]
        decimal_text(s, a, b) && digits_value(a + b) <= u64::MAX && b.len() <= 19
}

/// `s` writes a decimal number with integer digits `a` and fraction digits
/// `b`, and `x` is that number as a fraction over a power of ten.
pub open spec fn amount_of_text(s: Seq<char>, x: Amount) -> bool {
    exists|a: Seq<char>, b: Seq<char>|
        #![trigger decimal_text(s, a, b)]
        decimal_text(s, a, b) && x.numer == digits_value(a + b) && x.denom == pow10(b.len())
}

/// The value of a string of digits grows with each digit taken.
pub proof fn lemma_digits_value_prefix(s: Seq<char>, k: int)
    requires
        0 <= k <= s.len(),
    ensures
        digits_value(s.take(k)) <= digits_value(s),
    decreases s.len(),
{
    if k < s.len() {
        lemma_digits_value_prefix(s.drop_last(), k);
        assert(s.drop_last().take(k) =~= s.take(k));
    } else {
        assert(s.take(k) =~= s);
    }
}

/// Any reading of `s` as a decimal number splits it at its first character
/// that is not a digit, `k`: that character is the point, or there is none.
pub proof fn lemma_decimal_split(s: Seq<char>, k: int, a: Seq<char>, b: Seq<char>)
    requires
        decimal_text(s, a, b),
        0 <= k <= s.len(),
        all_digits(s.take(k)),
        k < s.len() ==> !is_digit(s[k]),
    ensures
        k < s.len() ==> s[k] == '.' && a == s.take(k) && b == s.skip(k + 1),
        k == s.len() ==> a == s && b.len() == 0,
{
    if s == a && b.len() == 0 {
        if k < s.len() {
            assert(is_digit(a[k]));
        }
    } else {
        let p = a.len() as int;
        assert(s[p] == '.');
        if k < p {
            assert(s[k] == a[k]);
            assert(is_digit(a[k]));
        } else if k > p {
            assert(s.take(k)[p] == '.');
            assert(!is_digit(s.take(k)[p]));
        }
        assert(a =~= s.take(k));
        assert(b =~= s.skip(k + 1));
    }
}

/// Reads a string of decimal digits as a number, or `None` when it does not
/// fit in 64 bits.
pub fn digits_to_u64(ds: &Vec<char>) -> (r: Option<u64>)
    requires
        all_digits(ds@),
    ensures
        r is Some <==> digits_value(ds@) <= u64::MAX,
        r matches Some(v) ==> v == digits_value(ds@),
{
    let mut v: u64 = 0;
    let mut i: usize = 0;
    while i < ds.len()
        invariant
            all_digits(ds@),
            i <= ds.len(),
            v == digits_value(ds@.take(i as int)),
        decreases ds.len() - i,
    {
        let c = ds[i];
        assert(is_digit(ds@[i as int]));
        let d = (c as u32 - '0' as u32) as u64;
        assert(ds@.take(i + 1).drop_last() =~= ds@.take(i as int));
        proof {
            lemma_digits_value_prefix(ds@, i + 1);
        }
        if v > (u64::MAX - d) / 10 {
            return None;
        }
        v = v * 10 + d;
        i = i + 1;
    }
    assert(ds@.take(i as int) =~= ds@);
    Some(v)
}

/// Reads a stack size: decimal digits only, for a positive number that fits
/// in 32 bits.
pub fn parse_stack_size(text: &str) -> (r: Option<u32>)
    ensures
        r is Some <==> (all_digits(text@) && 0 < digits_value(text@) <= u32::MAX),
        r matches Some(v) ==> v == digits_value(text@),
{
    let cs = chars_of(text);
    let mut i: usize = 0;
    while i < cs.len()
        invariant
            cs@ == text@,
            i <= cs.len(),
            all_digits(cs@.take(i as int)),
        decreases cs.len() - i,
    {
        let c = cs[i];
        if !('0' <= c && c <= '9') {
            assert(!is_digit(text@[i as int]));
            return None;
        }
        assert(cs@.take(i + 1) =~= cs@.take(i as int).push(c));
        i = i + 1;
    }
    assert(cs@.take(i as int) =~= cs@);
    match digits_to_u64(&cs) {
        Some(v) => {
            if v == 0 || v > u32::MAX as u64 {
                None
            } else {
                Some(v as u32)
            }
        },
        None => None,
    }
}

/// Powers of ten grow with the exponent.
pub proof fn lemma_pow10_monotone(a: nat, b: nat)
    requires
        a <= b,
    ensures
        1 <= pow10(a) <= pow10(b),
    decreases b,
{
    if a < b {
        lemma_pow10_monotone(a, (b - 1) as nat);
    } else if a > 0 {
        lemma_pow10_monotone((a - 1) as nat, (a - 1) as nat);
    }
}

/// Ten to the power `n`, for `n` of at most 19.
pub fn pow10_u64(n: usize) -> (r: u64)
    requires
        n <= 19,
    ensures
        r == pow10(n as nat),
{
    proof {
        reveal_with_fuel(pow10, 19);
    }
    assert(pow10(18) == 1_000_000_000_000_000_000nat);
    let mut r: u64 = 1;
    let mut i: usize = 0;
    while i < n
        invariant
            n <= 19,
            i <= n,
            r == pow10(i as nat),
            pow10(18) == 1_000_000_000_000_000_000nat,
        decreases n - i,
    {
        proof {
            lemma_pow10_monotone(i as nat, 18);
        }
        r = r * 10;
        i = i + 1;
    }
    r
}

/// Reads an amount written as a decimal number: digits, optionally a point
/// and more digits, with at least one digit in all (`12`, `7.5`, `.25`,
/// `3.`). The result is the exact fraction over a power of ten.
///
/// Gives `None` for any other text, and where the digits, read as one whole
/// number, or the power of ten do not fit in 64 bits.
pub fn parse_amount(text: &str) -> (r: Option<Amount>)
    ensures
        r is Some <==> amount_text_fits(text@),
        r matches Some(x) ==> amount_of_text(text@, x) && x.wf(),
{
    let cs = chars_of(text);
    let n = cs.len();
    let mut k: usize = 0;
    while k < n && '0' <= cs[k] && cs[k] <= '9'
        invariant
            cs@ == text@,
            n == cs.len(),
            k <= n,
            all_digits(cs@.take(k as int)),
        decreases n - k,
    {
        assert(cs@.take(k + 1) =~= cs@.take(k as int).push(cs@[k as int]));
        k = k + 1;
    }
    let ghost s = text@;
    let ghost a = s.take(k as int);
    let ghost b = if k < n {
        s.skip(k + 1)
    } else {
        Seq::<char>::empty()
    };
    if k < n {
        if cs[k] != '.' {
            proof {
                assert forall|a2: Seq<char>, b2: Seq<char>| !#[trigger] decimal_text(s, a2, b2) by {
                    if decimal_text(s, a2, b2) {
                        lemma_decimal_split(s, k as int, a2, b2);
                    }
                }
            }
            return None;
        }
        let mut j: usize = k + 1;
        while j < n
            invariant
                cs@ == text@,
                s == text@,
                n == cs.len(),
                k < j <= n,
                all_digits(cs@.take(k as int)),
                !is_digit(cs@[k as int]),
                all_digits(cs@.subrange(k + 1, j as int)),
            decreases n - j,
        {
            let c = cs[j];
            if !('0' <= c && c <= '9') {
                proof {
                    assert forall|a2: Seq<char>, b2: Seq<char>| !#[trigger] decimal_text(s, a2, b2) by {
                        if decimal_text(s, a2, b2) {
                            lemma_decimal_split(s, k as int, a2, b2);
                            assert(b2[j - k - 1] == s[j as int]);
                            assert(!is_digit(b2[j - k - 1]));
                        }
                    }
                }
                return None;
            }
            assert(cs@.subrange(k + 1, j + 1) =~= cs@.subrange(k + 1, j as int).push(c));
            j = j + 1;
        }
        assert(cs@.subrange(k + 1, n as int) =~= b);
    }
    assert(all_digits(a) && all_digits(b));
    assert(k < n ==> s =~= a + seq!['.'] + b);
    assert(k == n ==> s =~= a);
    let frac_len: usize = if k < n {
        n - k - 1
    } else {
        0
    };
    assert(frac_len == b.len());
    if k == 0 && frac_len == 0 {
        proof {
            assert forall|a2: Seq<char>, b2: Seq<char>| !#[trigger] decimal_text(s, a2, b2) by {
                if decimal_text(s, a2, b2) {
                    lemma_decimal_split(s, k as int, a2, b2);
                }
            }
        }
        return None;
    }
    assert(decimal_text(s, a, b));
    if frac_len > 19 {
        proof {
            assert forall|a2: Seq<char>, b2: Seq<char>|
                #![trigger decimal_text(s, a2, b2)]
                decimal_text(s, a2, b2) implies b2.len() > 19 by {
                lemma_decimal_split(s, k as int, a2, b2);
            }
        }
        return None;
    }
    let mut ds: Vec<char> = Vec::new();
    let mut i: usize = 0;
    while i < k
        invariant
            cs@ == text@,
            s == text@,
            a == s.take(k as int),
            n == cs.len(),
            k <= n,
            i <= k,
            ds@ == a.take(i as int),
        decreases k - i,
    {
        ds.push(cs[i]);
        i = i + 1;
        assert(ds@ =~= a.take(i as int));
    }
    assert(a.take(k as int) =~= a);
    if k < n {
        let mut i: usize = k + 1;
        while i < n
            invariant
                cs@ == text@,
                s == text@,
                b == s.skip(k + 1),
                n == cs.len(),
                k < i <= n,
                ds@ == a + b.take(i - k - 1),
            decreases n - i,
        {
            ds.push(cs[i]);
            i = i + 1;
            assert(ds@ =~= a + b.take(i - k - 1));
        }
        assert(b.take(n - k - 1) =~= b);
    }
    assert(ds@ =~= a + b);
    assert(all_digits(ds@));
    match digits_to_u64(&ds) {
        Some(v) => {
            let denom = pow10_u64(frac_len);
            proof {
                lemma_pow10_monotone(0, frac_len as nat);
            }
            Some(Amount { numer: v, denom })
        },
        None => {
            proof {
                assert forall|a2: Seq<char>, b2: Seq<char>|
                    #![trigger decimal_text(s, a2, b2)]
                    decimal_text(s, a2, b2) implies digits_value(a2 + b2) > u64::MAX by {
                    lemma_decimal_split(s, k as int, a2, b2);
                }
            }
            None
        },
    }
}
} // verus!
