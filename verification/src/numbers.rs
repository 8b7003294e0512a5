//! Decimal integers in text: the grammar that `str::parse` accepts for the
//! integer types the services read (`i64`, `u16`) and the canonical
//! rendering of non-negative values.
use vstd::prelude::*;
use crate::text::{chars_of, is_ascii_digit, string_from_chars};

verus! {

/// The value of a non-empty run of ASCII digits, read as a decimal number.
pub open spec fn digits_value(d: Seq<char>) -> nat
    decreases d.len(),
{
    if d.len() == 0 {
        0
    } else {
        10 * digits_value(d.drop_last()) + ((d.last() as int - '0' as int) as nat)
    }
}

/// Every character of `d` is an ASCII digit.
pub open spec fn all_digits(d: Seq<char>) -> bool {
    forall|k: int| 0 <= k < d.len() ==> is_ascii_digit(#[trigger] d[k])
}

/// The sign and the digit part of an integer literal: a leading `-` makes it
/// negative, a leading `+` is dropped.
pub open spec fn sign_split(s: Seq<char>, allow_minus: bool) -> (bool, Seq<char>) {
    if s.len() > 0 && s[0] == '-' && allow_minus {
        (true, s.drop_first())
    } else if s.len() > 0 && s[0] == '+' {
        (false, s.drop_first())
    } else {
        (false, s)
    }
}

/// What `s.parse::<i64>()` gives: an optional sign, then one or more ASCII
/// digits, whose value fits in `i64`.
pub open spec fn parse_i64_spec(s: Seq<char>) -> Option<i64> {
    let (neg, body) = sign_split(s, true);
    if body.len() > 0 && all_digits(body) {
        let v: int = if neg {
            -(digits_value(body) as int)
        } else {
            digits_value(body) as int
        };
        if i64::MIN <= v <= i64::MAX {
            Some(v as i64)
        } else {
            None
        }
    } else {
        None
    }
}

/// What `s.parse::<u16>()` gives: an optional `+`, then one or more ASCII
/// digits, whose value fits in `u16`.
pub open spec fn parse_u16_spec(s: Seq<char>) -> Option<u16> {
    let (_neg, body) = sign_split(s, false);
    if body.len() > 0 && all_digits(body) && digits_value(body) <= u16::MAX {
        Some(digits_value(body) as u16)
    } else {
        None
    }
}

/// The decimal digit for `d < 10`.
pub open spec fn digit_char(d: nat) -> char {
    ((d + '0' as int) as u32) as char
}

/// The canonical decimal rendering of `n` (no sign, no leading zeros).
pub open spec fn decimal(n: nat) -> Seq<char>
    decreases n,
{
    if n < 10 {
        seq![digit_char(n)]
    } else {
        decimal(n / 10).push(digit_char(n % 10))
    }
}

proof fn lemma_digits_value_prefix(d: Seq<char>, k: int)
    requires
        0 <= k <= d.len(),
        all_digits(d),
    ensures
        digits_value(d.take(k)) <= digits_value(d),
    decreases d.len(),
{
    if k < d.len() {
        assert(d.drop_last().take(k) =~= d.take(k));
        lemma_digits_value_prefix(d.drop_last(), k);
        assert(all_digits(d.drop_last()));
    } else {
        assert(d.take(k) =~= d);
    }
}

proof fn lemma_digits_value_step(d: Seq<char>, k: int)
    requires
        0 <= k < d.len(),
    ensures
        digits_value(d.take(k + 1)) == 10 * digits_value(d.take(k)) + ((d[k] as int - '0' as int) as nat),
{
    assert(d.take(k + 1).drop_last() =~= d.take(k));
}

/// `s.parse::<i64>()`, `None` where it gives an error.
pub fn parse_i64(s: &str) -> (r: Option<i64>)
    ensures
        r == parse_i64_spec(s@),
{
    let v = chars_of(s);
    let mut from: usize = 0;
    let mut neg = false;
    if v.len() > 0 && v[0] == '-' {
        from = 1;
        neg = true;
    } else if v.len() > 0 && v[0] == '+' {
        from = 1;
    }
    let ghost body = v@.subrange(from as int, v.len() as int);
    assert(sign_split(s@, true) == (neg, body)) by {
        if from == 1 {
            assert(v@.drop_first() =~= body);
        } else {
            assert(v@ =~= body);
        }
    }
    // 2^63 is the largest magnitude that can be read (as i64::MIN).
    let limit: u64 = 0x8000_0000_0000_0000;
    let parsed = parse_digits_wide(&v, from, limit);
    match parsed {
        None => None,
        Some(x) => {
            if neg {
                if x == 0x8000_0000_0000_0000 {
                    Some(i64::MIN)
                } else {
                    Some(-(x as i64))
                }
            } else {
                if x > 0x7FFF_FFFF_FFFF_FFFF {
                    None
                } else {
                    Some(x as i64)
                }
            }
        },
    }
}

/// Reads the digits `v[from..]` as a number no larger than `limit`; `None`
/// when a character is not a digit, there are no digits, or the value is
/// larger.
fn parse_digits_wide(v: &Vec<char>, from: usize, limit: u64) -> (r: Option<u64>)
    requires
        from <= v.len(),
        limit <= 0x8000_0000_0000_0000,
    ensures
        ({
            let body = v@.subrange(from as int, v.len() as int);
            match r {
                Some(x) => body.len() > 0 && all_digits(body) && digits_value(body) == x
                    && x <= limit,
                None => !(body.len() > 0 && all_digits(body) && digits_value(body) <= limit),
            }
        }),
{
    let ghost body = v@.subrange(from as int, v.len() as int);
    if from == v.len() {
        return None;
    }
    let mut acc: u64 = 0;
    let mut k = from;
    assert(body.take(0) =~= Seq::<char>::empty());
    while k < v.len()
        invariant
            from <= k <= v.len(),
            body == v@.subrange(from as int, v.len() as int),
            limit <= 0x8000_0000_0000_0000,
            acc <= limit,
            acc == digits_value(body.take((k - from) as int)),
            forall|m: int| 0 <= m < k - from ==> is_ascii_digit(#[trigger] body[m]),
        decreases v.len() - k,
    {
        let c = v[k];
        if !('0' <= c && c <= '9') {
            assert(!is_ascii_digit(body[(k - from) as int]));
            return None;
        }
        let digit = (c as u32 - '0' as u32) as u64;
        proof {
            lemma_digits_value_step(body, (k - from) as int);
            assert(body[(k - from) as int] == c);
        }
        // acc * 10 + digit <= limit  <=>  acc <= (limit - digit) / 10
        if digit > limit || acc > (limit - digit) / 10 {
            proof {
                if all_digits(body) {
                    lemma_digits_value_prefix(body, (k - from) + 1);
                }
            }
            return None;
        }
        acc = acc * 10 + digit;
        k = k + 1;
    }
    assert(body.take(body.len() as int) =~= body);
    Some(acc)
}

/// `s.parse::<u16>()`, `None` where it gives an error.
pub fn parse_u16(s: &str) -> (r: Option<u16>)
    ensures
        r == parse_u16_spec(s@),
{
    let v = chars_of(s);
    let mut from: usize = 0;
    if v.len() > 0 && v[0] == '+' {
        from = 1;
    }
    let ghost body = v@.subrange(from as int, v.len() as int);
    assert(sign_split(s@, false).1 == body) by {
        if from == 1 {
            assert(v@.drop_first() =~= body);
        } else {
            assert(v@ =~= body);
        }
    }
    match parse_digits_wide(&v, from, 65535) {
        None => None,
        Some(x) => Some(x as u16),
    }
}

/// The decimal digit character for `d < 10`.
fn digit_to_char(d: u64) -> (c: char)
    requires
        d < 10,
    ensures
        c == digit_char(d as nat),
{
    let table: [char; 10] = ['0', '1', '2', '3', '4', '5', '6', '7', '8', '9'];
    let c = table[d as usize];
    assert(c == digit_char(d as nat)) by {
        assert(table@[d as int] as u32 == 0x30 + d);
    }
    c
}

/// Appends the decimal rendering of `m` to `out`.
fn push_decimal(m: u64, out: &mut Vec<char>)
    ensures
        final(out)@ == old(out)@ + decimal(m as nat),
    decreases m,
{
    let c = digit_to_char(m % 10);
    if m >= 10 {
        push_decimal(m / 10, out);
        out.push(c);
        assert(decimal(m as nat) == decimal((m / 10) as nat).push(c));
        assert(old(out)@ + decimal(m as nat) =~= old(out)@ + decimal((m / 10) as nat) + seq![c]);
    } else {
        out.push(c);
        assert(decimal(m as nat) == seq![c]);
    }
}

/// The canonical decimal rendering of `n` (`n.to_string()`).
pub fn format_u64(n: u64) -> (r: String)
    ensures
        r@ == decimal(n as nat),
{
    let mut out: Vec<char> = Vec::new();
    push_decimal(n, &mut out);
    assert(out@ =~= decimal(n as nat));
    string_from_chars(&out)
}

proof fn lemma_digit_char(d: nat)
    requires
        d < 10,
    ensures
        is_ascii_digit(digit_char(d)),
        (digit_char(d) as int - '0' as int) == d,
        digit_char(d) != '-' && digit_char(d) != '+',
{
    assert(('0' as int) == 48);
    assert((digit_char(d) as u32) == (d + 48) as u32);
}

proof fn lemma_decimal_digits(n: nat)
    ensures
        decimal(n).len() > 0,
        all_digits(decimal(n)),
        digits_value(decimal(n)) == n,
        decimal(n)[0] != '-' && decimal(n)[0] != '+',
    decreases n,
{
    if n < 10 {
        lemma_digit_char(n);
        assert(decimal(n) == seq![digit_char(n)]);
        assert(decimal(n).drop_last() =~= Seq::<char>::empty());
        assert(digits_value(decimal(n)) == 10 * digits_value(decimal(n).drop_last()) + ((
        decimal(n).last() as int - '0' as int) as nat));
        assert(decimal(n).last() == digit_char(n));
    } else {
        lemma_digit_char(n % 10);
        lemma_decimal_digits(n / 10);
        assert(n == 10 * (n / 10) + n % 10);
        let d = decimal(n / 10);
        assert(decimal(n) == d.push(digit_char(n % 10)));
        assert(decimal(n).drop_last() =~= d);
        assert(all_digits(decimal(n))) by {
            assert forall|k: int| 0 <= k < decimal(n).len() implies is_ascii_digit(
                #[trigger] decimal(n)[k],
            ) by {
                if k < d.len() {
                    assert(decimal(n)[k] == d[k]);
                }
            }
        }
        assert(decimal(n)[0] == d[0]);
        assert(decimal(n).last() == digit_char(n % 10));
        assert(digits_value(decimal(n)) == 10 * digits_value(d) + ((digit_char(n % 10) as int
            - '0' as int) as nat));
    }
}

/// Reading back a rendered non-negative number gives the number: the
/// page-token round trip.
pub proof fn lemma_parse_format_roundtrip(n: u64)
    requires
        n <= i64::MAX,
    ensures
        parse_i64_spec(decimal(n as nat)) == Some(n as i64),
{
    lemma_decimal_digits(n as nat);
    let s = decimal(n as nat);
    assert(sign_split(s, true) == (false, s));
}

} // verus!
