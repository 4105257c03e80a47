use vstd::prelude::*;

use crate::numbers::{
    all_digits, digits_value, int_body, int_sign_len, is_digit, lemma_digits_value_nonneg,
    lemma_digits_value_prefix_le,
};
use crate::text::str_to_chars;

verus! {

/// The value that stands for a percentage that could not be parsed: minus
/// one percent, scaled to thousandths of a percent.
pub const PERCENT_SENTINEL_MILLI: i64 = -1000;

/// The largest whole-percent magnitude the parser accepts; anything bigger
/// coerces to the sentinel.
pub const PERCENT_INT_CAP: u64 = 9000000000000000;

pub proof fn lemma_index_of_first_is(s: Seq<char>, c: char, k: int)
    requires
        0 <= k < s.len(),
        s[k] == c,
        forall|j: int| 0 <= j < k ==> s[j] != c,
    ensures
        s.index_of_first(c) == Some(k),
{
    s.index_of_first_ensures(c);
    assert(s.contains(c));
    let idx = s.index_of_first(c)->0;
    if idx < k {
        assert(s[idx] == c);
        assert(false);
    }
    if idx > k {
        assert(s[k] != c);
        assert(false);
    }
}

pub proof fn lemma_index_of_first_none(s: Seq<char>, c: char)
    requires
        forall|j: int| 0 <= j < s.len() ==> s[j] != c,
    ensures
        s.index_of_first(c) is None,
{
    s.index_of_first_ensures(c);
    if s.contains(c) {
        let w = choose|i: int| 0 <= i < s.len() && s[i] == c;
        assert(s[w] == c);
        assert(false);
    }
}

/// The part of the string before its first percent sign, or the whole
/// string when there is none.
pub open spec fn percent_prefix(s: Seq<char>) -> Seq<char> {
    match s.index_of_first('%') {
        Some(k) => s.subrange(0, k),
        None => s,
    }
}

/// The digits before the first decimal point of an unsigned decimal body.
pub open spec fn decimal_int_part(b: Seq<char>) -> Seq<char> {
    match b.index_of_first('.') {
        Some(k) => b.subrange(0, k),
        None => b,
    }
}

/// The digits after the first decimal point of an unsigned decimal body.
pub open spec fn decimal_frac_part(b: Seq<char>) -> Seq<char> {
    match b.index_of_first('.') {
        Some(k) => b.subrange(k + 1, b.len() as int),
        None => Seq::empty(),
    }
}

/// An optional sign, then digits with at most one decimal point and at
/// least one digit overall: the plain decimal forms of a percentage.
pub open spec fn is_decimal_literal(s: Seq<char>) -> bool {
    let b = int_body(s);
    let ip = decimal_int_part(b);
    let fp = decimal_frac_part(b);
    ip.len() + fp.len() > 0 && all_digits(ip) && all_digits(fp)
}

/// The first three fractional digits, scaled to thousandths; digits past
/// the third are discarded.
pub open spec fn frac_milli(f: Seq<char>) -> int {
    if f.len() >= 3 {
        digits_value(f.subrange(0, 3))
    } else if f.len() == 2 {
        digits_value(f) * 10
    } else if f.len() == 1 {
        digits_value(f) * 100
    } else {
        0
    }
}

/// The value of a decimal literal in thousandths.
pub open spec fn decimal_milli(s: Seq<char>) -> int {
    let b = int_body(s);
    let whole = digits_value(decimal_int_part(b)) * 1000 + frac_milli(decimal_frac_part(b));
    if s.len() > 0 && s[0] == '-' {
        -whole
    } else {
        whole
    }
}

/// The percentage encoded by a wire string such as `"100%"`, in thousandths
/// of a percent; malformed or oversized strings give the sentinel.
pub open spec fn percent_milli_of(s: Seq<char>) -> int {
    let p = percent_prefix(s);
    if is_decimal_literal(p) && digits_value(decimal_int_part(int_body(p))) <= PERCENT_INT_CAP {
        decimal_milli(p)
    } else {
        PERCENT_SENTINEL_MILLI as int
    }
}

/// Parses a percentage string: everything before the first `%` is read as a
/// plain decimal number, and the result is scaled to thousandths of a
/// percent. A prefix that is not such a number coerces to the sentinel
/// rather than failing; fractional digits past the third are discarded, and
/// exponent or non-finite spellings also coerce to the sentinel.
pub fn parse_percent_milli(s: &str) -> (r: i64)
    ensures
        r as int == percent_milli_of(s@),
{
    let chars = str_to_chars(s);
    let n = chars.len();
    // find the first '%'
    let mut plen: usize = 0;
    loop
        invariant
            0 <= plen <= n,
            n == s@.len(),
            chars@ == s@,
            forall|j: int| 0 <= j < plen ==> s@[j] != '%',
        ensures
            0 <= plen <= n,
            percent_prefix(s@) == s@.subrange(0, plen as int),
        decreases n - plen,
    {
        if plen == n {
            proof {
                lemma_index_of_first_none(s@, '%');
                assert(s@.subrange(0, plen as int) =~= s@);
            }
            break ;
        }
        if chars[plen] == '%' {
            proof {
                lemma_index_of_first_is(s@, '%', plen as int);
            }
            break ;
        }
        plen += 1;
    }
    let ghost p = s@.subrange(0, plen as int);
    // sign
    let mut idx: usize = 0;
    let mut neg = false;
    if plen > 0 && (chars[0] == '-' || chars[0] == '+') {
        neg = chars[0] == '-';
        idx = 1;
    }
    proof {
        assert(idx as int == int_sign_len(p));
        assert(neg == (p.len() > 0 && p[0] == '-'));
    }
    let ghost b = p.subrange(idx as int, plen as int);
    proof {
        assert(b == int_body(p));
    }
    // integer part
    let int_start = idx;
    let mut mag: u64 = 0;
    let mut saw_dot = false;
    while idx < plen && !saw_dot
        invariant
            int_start <= idx <= plen <= n,
            n == s@.len(),
            chars@ == s@,
            p == s@.subrange(0, plen as int),
            p == percent_prefix(s@),
            b == int_body(p),
            int_start as int == int_sign_len(p),
            b == p.subrange(int_start as int, plen as int),
            !saw_dot ==> forall|j: int| int_start <= j < idx ==> s@[j] != '.',
            !saw_dot ==> all_digits(s@.subrange(int_start as int, idx as int)),
            !saw_dot ==> mag as int == digits_value(s@.subrange(int_start as int, idx as int)),
            saw_dot ==> idx > int_start && s@[idx - 1] == '.' && forall|j: int|
                int_start <= j < idx - 1 ==> s@[j] != '.',
            saw_dot ==> all_digits(s@.subrange(int_start as int, (idx - 1) as int)),
            saw_dot ==> mag as int == digits_value(s@.subrange(int_start as int, (idx - 1) as int)),
            mag <= PERCENT_INT_CAP,
        decreases plen - idx,
    {
        let c = chars[idx];
        if c == '.' {
            saw_dot = true;
            idx += 1;
        } else {
            let code = c as u32;
            if code < 48 || code > 57 {
                proof {
                    // the offending character sits in the integer part
                    let ki = b.index_of_first('.');
                    b.index_of_first_ensures('.');
                    let pos = idx - int_start;
                    if ki is Some {
                        assert(b[ki->0] == '.');
                        assert(pos < ki->0);
                    }
                    assert(decimal_int_part(b)[pos] == c);
                    assert(!is_digit(c));
                    assert(!is_decimal_literal(p));
                }
                return PERCENT_SENTINEL_MILLI;
            }
            let d = (code - 48) as u64;
            let ghost prev = s@.subrange(int_start as int, idx as int);
            let next_mag = mag * 10 + d;
            proof {
                let cur = s@.subrange(int_start as int, (idx + 1) as int);
                assert(cur.drop_last() =~= prev);
                assert(cur.last() == c);
                assert(digits_value(cur) == mag as int * 10 + d as int);
                assert(all_digits(cur));
            }
            if next_mag > PERCENT_INT_CAP {
                proof {
                    let cur = s@.subrange(int_start as int, (idx + 1) as int);
                    if is_decimal_literal(p) {
                        let ip = decimal_int_part(b);
                        let ki = b.index_of_first('.');
                        b.index_of_first_ensures('.');
                        if ki is Some {
                            assert(idx + 1 - int_start <= ki->0);
                        }
                        assert(cur =~= ip.subrange(0, (idx + 1 - int_start) as int));
                        lemma_digits_value_prefix_le(ip, (idx + 1 - int_start) as int);
                        assert(digits_value(ip) > PERCENT_INT_CAP);
                    }
                }
                return PERCENT_SENTINEL_MILLI;
            }
            mag = next_mag;
            idx += 1;
        }
    }
    let int_len: usize = if saw_dot {
        idx - 1 - int_start
    } else {
        idx - int_start
    };
    let ghost ip = decimal_int_part(b);
    let ghost fp = decimal_frac_part(b);
    proof {
        if saw_dot {
            lemma_index_of_first_is(b, '.', (idx - 1 - int_start) as int);
            assert(ip =~= s@.subrange(int_start as int, (idx - 1) as int));
            assert(fp =~= s@.subrange(idx as int, plen as int));
        } else {
            assert(idx == plen);
            lemma_index_of_first_none(b, '.');
            assert(ip =~= s@.subrange(int_start as int, idx as int));
            assert(fp =~= Seq::<char>::empty());
        }
        assert(all_digits(ip));
        assert(mag as int == digits_value(ip));
    }
    // fractional part: all characters must be digits; only the first three count
    let mut fmag: u64 = 0;
    let mut fcount: usize = 0;
    let frac_start = idx;
    while idx < plen
        invariant
            frac_start <= idx <= plen <= n,
            n == s@.len(),
            chars@ == s@,
            p == s@.subrange(0, plen as int),
            p == percent_prefix(s@),
            b == int_body(p),
            ip == decimal_int_part(b),
            fp == decimal_frac_part(b),
            fp == s@.subrange(frac_start as int, plen as int),
            all_digits(ip),
            mag as int == digits_value(ip),
            mag <= PERCENT_INT_CAP,
            all_digits(s@.subrange(frac_start as int, idx as int)),
            fcount == idx - frac_start,
            fcount <= 3 ==> fmag as int == digits_value(
                s@.subrange(frac_start as int, idx as int),
            ),
            fcount > 3 ==> fmag as int == digits_value(
                s@.subrange(frac_start as int, (frac_start + 3) as int),
            ),
            fcount == 0 ==> fmag == 0,
            fcount == 1 ==> fmag <= 9,
            fcount == 2 ==> fmag <= 99,
            fcount >= 3 ==> fmag <= 999,
        decreases plen - idx,
    {
        let c = chars[idx];
        let code = c as u32;
        if code < 48 || code > 57 {
            proof {
                assert(fp[idx - frac_start] == c);
                assert(!is_digit(c));
                assert(!is_decimal_literal(p));
            }
            return PERCENT_SENTINEL_MILLI;
        }
        let d = (code - 48) as u64;
        proof {
            let prev = s@.subrange(frac_start as int, idx as int);
            let cur = s@.subrange(frac_start as int, (idx + 1) as int);
            assert(cur.drop_last() =~= prev);
            assert(cur.last() == c);
            assert(digits_value(cur) == digits_value(prev) * 10 + d as int);
            assert(all_digits(cur));
        }
        if fcount < 3 {
            fmag = fmag * 10 + d;
        }
        fcount += 1;
        idx += 1;
    }
    proof {
        assert(s@.subrange(frac_start as int, plen as int) =~= fp);
        assert(all_digits(fp));
    }
    if int_len == 0 && fcount == 0 {
        // no digits at all: an empty prefix, or a bare sign or dot
        proof {
            assert(ip.len() == 0 && fp.len() == 0);
            assert(!is_decimal_literal(p));
        }
        return PERCENT_SENTINEL_MILLI;
    }
    // scale the fractional digits to thousandths
    let fmilli: u64 = if fcount == 0 {
        0
    } else if fcount == 1 {
        fmag * 100
    } else if fcount == 2 {
        fmag * 10
    } else {
        fmag
    };
    proof {
        if fcount >= 3 {
            assert(fp.subrange(0, 3) =~= s@.subrange(frac_start as int, (frac_start + 3) as int));
        }
        assert(fmilli as int == frac_milli(fp));
        lemma_digits_value_nonneg(ip);
        lemma_digits_value_nonneg(fp.subrange(0, if fp.len() >= 3 {
            3int
        } else {
            fp.len() as int
        }));
        assert(is_decimal_literal(p));
    }
    let whole: i64 = (mag as i64) * 1000 + (fmilli as i64);
    if neg {
        -whole
    } else {
        whole
    }
}

} // verus!
