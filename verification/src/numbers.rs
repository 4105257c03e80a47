use vstd::prelude::*;

use crate::text::{chars_to_string, str_to_chars};

verus! {

// ---------------------------------------------------------------------------
// Decimal digit strings: specification
// ---------------------------------------------------------------------------
pub open spec fn is_digit(c: char) -> bool {
    48 <= c as u32 <= 57
}

pub open spec fn digit_val(c: char) -> int {
    c as u32 - 48
}

pub open spec fn all_digits(s: Seq<char>) -> bool {
    forall|i: int| 0 <= i < s.len() ==> is_digit(#[trigger] s[i])
}

/// The value of a string of decimal digits, most significant digit first.
pub open spec fn digits_value(s: Seq<char>) -> int
    decreases s.len(),
{
    if s.len() == 0 {
        0
    } else {
        digits_value(s.drop_last()) * 10 + digit_val(s.last())
    }
}

pub proof fn lemma_digits_value_nonneg(s: Seq<char>)
    requires
        all_digits(s),
    ensures
        digits_value(s) >= 0,
    decreases s.len(),
{
    if s.len() > 0 {
        assert(all_digits(s.drop_last()));
        lemma_digits_value_nonneg(s.drop_last());
    }
}

/// Extending a digit string only increases its value.
pub proof fn lemma_digits_value_prefix_le(s: Seq<char>, k: int)
    requires
        all_digits(s),
        0 <= k <= s.len(),
    ensures
        digits_value(s.subrange(0, k)) <= digits_value(s),
    decreases s.len() - k,
{
    if k == s.len() {
        assert(s.subrange(0, k) =~= s);
    } else {
        let t = s.drop_last();
        assert(all_digits(t));
        assert(s.subrange(0, k) =~= t.subrange(0, k));
        lemma_digits_value_prefix_le(t, k);
        lemma_digits_value_nonneg(t);
        assert(digits_value(t) * 10 >= digits_value(t));
        assert(digits_value(s) >= digits_value(t));
    }
}

// ---------------------------------------------------------------------------
// Integer literals: specification
// ---------------------------------------------------------------------------
pub open spec fn int_sign_len(s: Seq<char>) -> int {
    if s.len() > 0 && (s[0] == '+' || s[0] == '-') {
        1
    } else {
        0
    }
}

pub open spec fn int_body(s: Seq<char>) -> Seq<char> {
    s.subrange(int_sign_len(s), s.len() as int)
}

/// An optional sign followed by at least one decimal digit: the form that
/// the standard library's integer parsers accept.
pub open spec fn is_int_literal(s: Seq<char>) -> bool {
    int_body(s).len() > 0 && all_digits(int_body(s))
}

/// An optional plus sign followed by at least one decimal digit: the form
/// accepted when parsing an unsigned integer.
pub open spec fn is_uint_literal(s: Seq<char>) -> bool {
    is_int_literal(s) && !(s.len() > 0 && s[0] == '-')
}

pub open spec fn int_literal_value(s: Seq<char>) -> int {
    if s.len() > 0 && s[0] == '-' {
        -digits_value(int_body(s))
    } else {
        digits_value(int_body(s))
    }
}

// ---------------------------------------------------------------------------
// Parsing
// ---------------------------------------------------------------------------
/// Parses a signed 64-bit integer, accepting exactly the strings that are an
/// optional sign followed by decimal digits, with a value in range.
pub fn parse_i64(s: &str) -> (r: Option<i64>)
    ensures
        r is Some <==> is_int_literal(s@) && i64::MIN <= int_literal_value(s@) <= i64::MAX,
        r matches Some(v) ==> v == int_literal_value(s@),
{
    let chars = str_to_chars(s);
    let n = chars.len();
    if n == 0 {
        return None;
    }
    let c0 = chars[0];
    let neg = c0 == '-';
    let start: usize = if c0 == '-' || c0 == '+' {
        1
    } else {
        0
    };
    if start == n {
        return None;
    }
    let cap: u128 = if neg {
        9223372036854775808u128
    } else {
        9223372036854775807u128
    };
    let ghost body = s@.subrange(start as int, n as int);
    proof {
        assert(body == int_body(s@));
    }
    let mut mag: u128 = 0;
    let mut i: usize = start;
    while i < n
        invariant
            start <= i <= n,
            n == s@.len(),
            chars@ == s@,
            start as int == int_sign_len(s@),
            body == int_body(s@),
            all_digits(s@.subrange(start as int, i as int)),
            mag as int == digits_value(s@.subrange(start as int, i as int)),
            mag <= cap,
            neg == (s@[0] == '-'),
            cap as int == if neg {
                9223372036854775808int
            } else {
                9223372036854775807int
            },
        decreases n - i,
    {
        let c = chars[i];
        let code = c as u32;
        if code < 48 || code > 57 {
            proof {
                assert(body[i - start] == c);
                assert(!is_digit(c));
            }
            return None;
        }
        let d = (code - 48) as u128;
        let ghost prev = s@.subrange(start as int, i as int);
        let next_mag = mag * 10 + d;
        proof {
            let cur = s@.subrange(start as int, (i + 1) as int);
            assert(cur.drop_last() =~= prev);
            assert(cur.last() == c);
            assert(is_digit(c));
            assert(digit_val(c) == d as int);
            assert(digits_value(cur) == mag as int * 10 + d as int);
            assert(all_digits(cur));
        }
        if next_mag > cap {
            proof {
                let cur = s@.subrange(start as int, (i + 1) as int);
                if is_int_literal(s@) {
                    lemma_digits_value_prefix_le(body, (i + 1 - start) as int);
                    assert(cur =~= body.subrange(0, (i + 1 - start) as int));
                    assert(digits_value(body) >= digits_value(cur));
                    assert(digits_value(body) > cap as int);
                    if neg {
                        assert(s@[0] == '-');
                        assert(int_literal_value(s@) == -digits_value(body));
                        assert(int_literal_value(s@) < i64::MIN);
                    } else {
                        assert(s@[0] != '-');
                        assert(int_literal_value(s@) == digits_value(body));
                        assert(int_literal_value(s@) > i64::MAX);
                    }
                }
            }
            return None;
        }
        mag = next_mag;
        i += 1;
    }
    proof {
        assert(s@.subrange(start as int, n as int) =~= body);
        assert(is_int_literal(s@));
    }
    if neg {
        if mag == 9223372036854775808u128 {
            Some(i64::MIN)
        } else {
            Some(-((mag as i64)))
        }
    } else {
        Some(mag as i64)
    }
}

/// Parses an unsigned 128-bit integer, accepting exactly the strings that
/// are an optional plus sign followed by decimal digits, with a value in
/// range.
pub fn parse_u128(s: &str) -> (r: Option<u128>)
    ensures
        r is Some <==> is_uint_literal(s@) && int_literal_value(s@) <= u128::MAX,
        r matches Some(v) ==> v == int_literal_value(s@),
{
    let chars = str_to_chars(s);
    let n = chars.len();
    if n == 0 {
        return None;
    }
    let c0 = chars[0];
    if c0 == '-' {
        return None;
    }
    let start: usize = if c0 == '+' {
        1
    } else {
        0
    };
    if start == n {
        return None;
    }
    let ghost body = s@.subrange(start as int, n as int);
    proof {
        assert(body == int_body(s@));
    }
    let mut mag: u128 = 0;
    let mut i: usize = start;
    while i < n
        invariant
            start <= i <= n,
            n == s@.len(),
            chars@ == s@,
            s@[0] != '-',
            start as int == int_sign_len(s@),
            body == int_body(s@),
            all_digits(s@.subrange(start as int, i as int)),
            mag as int == digits_value(s@.subrange(start as int, i as int)),
        decreases n - i,
    {
        let c = chars[i];
        let code = c as u32;
        if code < 48 || code > 57 {
            proof {
                assert(body[i - start] == c);
                assert(!is_digit(c));
            }
            return None;
        }
        let d = (code - 48) as u128;
        let ghost prev = s@.subrange(start as int, i as int);
        proof {
            let cur = s@.subrange(start as int, (i + 1) as int);
            assert(cur.drop_last() =~= prev);
            assert(cur.last() == c);
            assert(digit_val(c) == d as int);
            assert(digits_value(cur) == mag as int * 10 + d as int);
            assert(all_digits(cur));
        }
        if mag > (u128::MAX - d) / 10 {
            proof {
                assert(mag as int * 10 + d as int > u128::MAX) by (nonlinear_arith)
                    requires
                        mag as int > (u128::MAX - d as int) / 10,
                        0 <= d as int <= 9,
                        mag as int >= 0,
                ;
                let cur = s@.subrange(start as int, (i + 1) as int);
                if is_int_literal(s@) {
                    lemma_digits_value_prefix_le(body, (i + 1 - start) as int);
                    assert(cur =~= body.subrange(0, (i + 1 - start) as int));
                    assert(digits_value(body) > u128::MAX);
                }
            }
            return None;
        }
        proof {
            assert(mag as int * 10 + d as int <= u128::MAX) by (nonlinear_arith)
                requires
                    mag as int <= (u128::MAX - d as int) / 10,
                    0 <= d as int <= 9,
                    mag as int >= 0,
            ;
        }
        mag = mag * 10 + d;
        i += 1;
    }
    proof {
        assert(s@.subrange(start as int, n as int) =~= body);
        assert(is_uint_literal(s@));
    }
    Some(mag)
}

// ---------------------------------------------------------------------------
// Formatting
// ---------------------------------------------------------------------------
pub open spec fn digit_char(d: int) -> char {
    if d == 0 {
        '0'
    } else if d == 1 {
        '1'
    } else if d == 2 {
        '2'
    } else if d == 3 {
        '3'
    } else if d == 4 {
        '4'
    } else if d == 5 {
        '5'
    } else if d == 6 {
        '6'
    } else if d == 7 {
        '7'
    } else if d == 8 {
        '8'
    } else {
        '9'
    }
}

pub open spec fn dec_digits(n: int) -> Seq<char>
    decreases n,
{
    if n <= 0 {
        Seq::empty()
    } else {
        dec_digits(n / 10).push(digit_char(n % 10))
    }
}

/// The decimal rendering of a nonnegative integer, as the standard library
/// renders it.
pub open spec fn u64_dec_str(n: int) -> Seq<char> {
    if n == 0 {
        seq!['0']
    } else {
        dec_digits(n)
    }
}

/// The decimal rendering of a signed integer.
pub open spec fn i64_dec_str(n: int) -> Seq<char> {
    if n < 0 {
        seq!['-'] + u64_dec_str(-n)
    } else {
        u64_dec_str(n)
    }
}

pub fn digit_char_exec(d: u64) -> (r: char)
    requires
        d < 10,
    ensures
        r == digit_char(d as int),
{
    if d == 0 {
        '0'
    } else if d == 1 {
        '1'
    } else if d == 2 {
        '2'
    } else if d == 3 {
        '3'
    } else if d == 4 {
        '4'
    } else if d == 5 {
        '5'
    } else if d == 6 {
        '6'
    } else if d == 7 {
        '7'
    } else if d == 8 {
        '8'
    } else {
        '9'
    }
}

/// The hexadecimal-free digit of a small value, for 32-bit callers.
pub fn digit_char_exec32(d: u32) -> (r: char)
    requires
        d < 10,
    ensures
        r == digit_char(d as int),
{
    digit_char_exec(d as u64)
}

fn fmt_pos(n: u64) -> (r: Vec<char>)
    ensures
        r@ == dec_digits(n as int),
    decreases n,
{
    if n == 0 {
        Vec::new()
    } else {
        proof {
            assert(n as int / 10 < n as int) by (nonlinear_arith)
                requires
                    n as int > 0,
            ;
        }
        let mut digits = fmt_pos(n / 10);
        digits.push(digit_char_exec(n % 10));
        digits
    }
}

/// The decimal digits of `n`.
pub fn fmt_u64(n: u64) -> (r: Vec<char>)
    ensures
        r@ == u64_dec_str(n as int),
{
    if n == 0 {
        let mut digits: Vec<char> = Vec::new();
        digits.push('0');
        digits
    } else {
        fmt_pos(n)
    }
}

/// The decimal rendering of `n` as a string.
pub fn u64_to_string(n: u64) -> (r: String)
    ensures
        r@ == u64_dec_str(n as int),
{
    let digits = fmt_u64(n);
    chars_to_string(&digits)
}

/// The decimal rendering of a signed value as a string.
pub fn i64_to_string(n: i64) -> (r: String)
    ensures
        r@ == i64_dec_str(n as int),
{
    if n >= 0 {
        u64_to_string(n as u64)
    } else {
        let mag: u64 = if n == i64::MIN {
            9223372036854775808u64
        } else {
            (-n) as u64
        };
        let mut digits: Vec<char> = Vec::new();
        digits.push('-');
        let tail = fmt_u64(mag);
        crate::text::push_chars(&mut digits, &tail);
        proof {
            assert(digits@ =~= i64_dec_str(n as int));
        }
        chars_to_string(&digits)
    }
}

/// The rendering of a boolean, as the standard library renders it.
pub fn bool_to_string(b: bool) -> (r: String)
    ensures
        b ==> r@ == "true"@,
        !b ==> r@ == "false"@,
{
    if b {
        "true".to_owned()
    } else {
        "false".to_owned()
    }
}

pub proof fn lemma_dec_digits_value(n: int)
    requires
        n >= 0,
    ensures
        all_digits(dec_digits(n)),
        digits_value(dec_digits(n)) == n,
        n > 0 ==> dec_digits(n).len() > 0,
    decreases n,
{
    if n > 0 {
        assert(0 <= n / 10 < n) by (nonlinear_arith)
            requires
                n > 0,
        ;
        lemma_dec_digits_value(n / 10);
        let s = dec_digits(n);
        assert(s == dec_digits(n / 10).push(digit_char(n % 10)));
        assert(s.drop_last() =~= dec_digits(n / 10));
        assert(0 <= n % 10 < 10);
        assert(digit_val(digit_char(n % 10)) == n % 10);
        assert(digits_value(s) == (n / 10) * 10 + n % 10);
        assert((n / 10) * 10 + n % 10 == n) by (nonlinear_arith);
        assert(all_digits(s));
    }
}

/// Rendering a signed 64-bit value and reading it back gives the value
/// again: the decimal form is always a well-formed integer literal.
pub proof fn lemma_i64_dec_str_round_trip(n: i64)
    ensures
        is_int_literal(i64_dec_str(n as int)),
        int_literal_value(i64_dec_str(n as int)) == n,
{
    if n >= 0 {
        let s = u64_dec_str(n as int);
        if n == 0 {
            assert(s == seq!['0']);
            assert(s.drop_last() =~= Seq::<char>::empty());
            assert(digits_value(Seq::<char>::empty()) == 0);
            assert(digit_val('0') == 0);
            assert(digits_value(s) == 0);
        } else {
            lemma_dec_digits_value(n as int);
        }
        assert(all_digits(s));
        assert(s.len() > 0);
        assert(is_digit(s[0]));
        assert(s[0] != '+' && s[0] != '-');
        assert(int_body(s) =~= s);
    } else {
        let m = -(n as int);
        lemma_dec_digits_value(m);
        let t = u64_dec_str(m);
        let s = i64_dec_str(n as int);
        assert(s == seq!['-'] + t);
        assert(s[0] == '-');
        assert(int_body(s) =~= t);
        assert(int_literal_value(s) == -digits_value(t));
    }
}

} // verus!
