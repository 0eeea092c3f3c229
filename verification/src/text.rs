//! Small text utilities: appending characters and decimal numbers to a
//! `String`, and first-occurrence substring search.

use vstd::prelude::*;
use vstd::string::StrSliceExecFns;

verus! {

/// Relies on `String::push`: appends exactly the one character.
#[verifier::external_body]
pub fn string_push(s: &mut String, c: char)
    ensures
        final(s)@ == old(s)@ + seq![c],
{
    s.push(c);
}

pub open spec fn spec_digit_char(d: int) -> char {
    if d == 0 {
        '0'
    } else if d == 1 {
        '1'
    } else if d == 2 {
        '2'
    } else if d == 3 {
        '3'
    } else if d == 4 {
        '4'
    } else if d == 5 {
        '5'
    } else if d == 6 {
        '6'
    } else if d == 7 {
        '7'
    } else if d == 8 {
        '8'
    } else {
        '9'
    }
}

/// Decimal spelling of a non-negative number, most significant digit first.
pub open spec fn spec_decimal(n: int) -> Seq<char>
    decreases n,
{
    if n < 10 {
        seq![spec_digit_char(n)]
    } else {
        spec_decimal(n / 10) + seq![spec_digit_char(n % 10)]
    }
}

/// Decimal spelling of a signed number: a leading minus when negative.
pub open spec fn spec_decimal_signed(n: int) -> Seq<char> {
    if n >= 0 {
        spec_decimal(n)
    } else {
        seq!['-'] + spec_decimal(-n)
    }
}

fn digit_char(d: u64) -> (c: char)
    requires
        d < 10,
    ensures
        c == spec_digit_char(d as int),
{
    if d == 0 {
        '0'
    } else if d == 1 {
        '1'
    } else if d == 2 {
        '2'
    } else if d == 3 {
        '3'
    } else if d == 4 {
        '4'
    } else if d == 5 {
        '5'
    } else if d == 6 {
        '6'
    } else if d == 7 {
        '7'
    } else if d == 8 {
        '8'
    } else {
        '9'
    }
}

/// Appends the decimal spelling of `n`.
pub fn push_decimal(s: &mut String, n: u64)
    ensures
        final(s)@ == old(s)@ + spec_decimal(n as int),
    decreases n,
{
    if n >= 10 {
        push_decimal(s, n / 10);
    }
    string_push(s, digit_char(n % 10));
    proof {
        if n < 10 {
            assert(old(s)@ + spec_decimal(n as int) == old(s)@ + seq![
                spec_digit_char(n as int),
            ]);
        }
        assert(final(s)@ =~= old(s)@ + spec_decimal(n as int));
    }
}

/// Appends the decimal spelling of a signed number.
pub fn push_decimal_signed(s: &mut String, n: i64)
    ensures
        final(s)@ == old(s)@ + spec_decimal_signed(n as int),
{
    if n >= 0 {
        push_decimal(s, n as u64);
    } else {
        string_push(s, '-');
        let m: u64 = (-(n as i128)) as u64;
        push_decimal(s, m);
    }
    proof {
        assert(final(s)@ =~= old(s)@ + spec_decimal_signed(n as int));
    }
}

/// Position of the first occurrence of `pat` at or after `i`.
pub open spec fn spec_find_from(s: Seq<char>, pat: Seq<char>, i: int) -> Option<int>
    decreases s.len() - i + 1,
{
    if i < 0 || i + pat.len() > s.len() {
        None
    } else if s.subrange(i, i + pat.len() as int) == pat {
        Some(i)
    } else {
        spec_find_from(s, pat, i + 1)
    }
}

/// Position of the first occurrence of `pat` in `s`.
pub open spec fn spec_find(s: Seq<char>, pat: Seq<char>) -> Option<int> {
    spec_find_from(s, pat, 0)
}

/// A found position is a real occurrence within bounds.
pub proof fn lemma_find_from_bounds(s: Seq<char>, pat: Seq<char>, j: int, i: int)
    requires
        spec_find_from(s, pat, j) == Some(i),
    ensures
        j <= i,
        i + pat.len() <= s.len(),
        s.subrange(i, i + pat.len() as int) == pat,
    decreases s.len() - j + 1,
{
    if j < 0 || j + pat.len() > s.len() {
    } else if s.subrange(j, j + pat.len() as int) == pat {
    } else {
        lemma_find_from_bounds(s, pat, j + 1, i);
    }
}

/// First occurrence of `pat` in `s`.
pub fn find(s: &str, pat: &str) -> (r: Option<usize>)
    ensures
        match r {
            Some(i) => spec_find(s@, pat@) == Some(i as int),
            None => spec_find(s@, pat@) is None,
        },
{
    let n = s.unicode_len();
    let m = pat.unicode_len();
    if m > n {
        return None;
    }
    if m == 0 {
        proof {
            assert(s@.subrange(0, 0) =~= pat@);
        }
        return Some(0);
    }
    let mut i: usize = 0;
    loop
        invariant
            n == s@.len(),
            m == pat@.len(),
            1 <= m <= n,
            0 <= i <= n - m + 1,
            spec_find(s@, pat@) == spec_find_from(s@, pat@, i as int),
        decreases n - i,
    {
        if i > n - m {
            assert(spec_find_from(s@, pat@, i as int) is None);
            return None;
        }
        let mut k: usize = 0;
        let mut matched = true;
        while k < m
            invariant
                n == s@.len(),
                m == pat@.len(),
                0 <= i,
                i + m <= n,
                k <= m,
                matched ==> forall|q: int| 0 <= q < k ==> s@[i + q] == pat@[q],
                !matched ==> s@.subrange(i as int, i + m as int) != pat@,
            decreases m - k,
        {
            let a = s.get_char(i + k);
            let b = pat.get_char(k);
            if a != b {
                proof {
                    let sub = s@.subrange(i as int, i + m as int);
                    assert(sub[k as int] == s@[i + k]);
                    assert(sub != pat@);
                }
                matched = false;
                k = m;
            } else {
                k = k + 1;
            }
        }
        if matched {
            proof {
                assert(s@.subrange(i as int, i + m as int) =~= pat@);
            }
            return Some(i);
        }
        i = i + 1;
    }
}

} // verus!
