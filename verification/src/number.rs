//! Decimal numbers as text: reading unsigned and signed integers, recognising
//! floating-point literals, and writing integers.
//!
//! The accepted forms are those of the standard library's `from_str` for
//! `u32`, `i64` and double-precision floats.

use vstd::prelude::*;
use crate::text::{chars_of, leading, lemma_leading, string_from_chars};

verus! {

/// An ASCII decimal digit.
pub open spec fn is_digit(c: char) -> bool {
    0x30 <= c as u32 <= 0x39
}

/// The value of the digit `c`.
pub open spec fn digit_value(c: char) -> nat {
    (c as u32 - 0x30) as nat
}

/// Every character of `s` is a digit.
pub open spec fn all_digits(s: Seq<char>) -> bool {
    forall|i: int| 0 <= i < s.len() ==> is_digit(#[trigger] s[i])
}

/// The number that the digits `s` write in base ten; 0 for no digits.
pub open spec fn decimal_value(s: Seq<char>) -> nat
    decreases s.len(),
{
    if s.len() == 0 {
        0
    } else {
        decimal_value(s.drop_last()) * 10 + digit_value(s.last())
    }
}

/// `+` or `-`.
pub open spec fn is_sign(c: char) -> bool {
    c == '+' || c == '-'
}

/// The number that `s` writes as a `u32`: an optional `+`, then one or more
/// digits whose value fits. `None` for every other text.
pub open spec fn parse_u32(s: Seq<char>) -> Option<u32> {
    let digits = if s.len() > 0 && s[0] == '+' {
        s.drop_first()
    } else {
        s
    };
    if digits.len() > 0 && all_digits(digits) && decimal_value(digits) <= u32::MAX {
        Some(decimal_value(digits) as u32)
    } else {
        None
    }
}

/// The number that `s` writes as an `i64`: an optional `+` or `-`, then one
/// or more digits whose signed value fits. `None` for every other text.
pub open spec fn parse_i64(s: Seq<char>) -> Option<i64> {
    let digits = if s.len() > 0 && is_sign(s[0]) {
        s.drop_first()
    } else {
        s
    };
    let value = if s.len() > 0 && s[0] == '-' {
        -(decimal_value(digits) as int)
    } else {
        decimal_value(digits) as int
    };
    if digits.len() > 0 && all_digits(digits) && i64::MIN <= value <= i64::MAX {
        Some(value as i64)
    } else {
        None
    }
}

/// A longer run of digits never writes a smaller number than its prefix.
pub proof fn lemma_decimal_value_prefix(s: Seq<char>, n: int)
    requires
        0 <= n <= s.len(),
    ensures
        decimal_value(s.take(n)) <= decimal_value(s),
    decreases s.len() - n,
{
    if n == s.len() {
        assert(s.take(n) =~= s);
    } else {
        assert(s.drop_last().take(n) =~= s.take(n));
        lemma_decimal_value_prefix(s.drop_last(), n);
    }
}

/// Whether `c` is a digit.
pub fn is_decimal_digit(c: char) -> (r: bool)
    ensures
        r == is_digit(c),
{
    let n: u32 = c as u32;
    0x30 <= n && n <= 0x39
}

/// The value of `chars[from..]` read as digits, where that is one or more
/// digits that write at most `limit`.
pub fn digits_value(chars: &Vec<char>, from: usize, limit: u64) -> (r: Option<u64>)
    requires
        from <= chars.len(),
    ensures
        r == ({
            let digits = chars@.skip(from as int);
            if digits.len() > 0 && all_digits(digits) && decimal_value(digits) <= limit {
                Some(decimal_value(digits) as u64)
            } else {
                None
            }
        }),
{
    let ghost digits = chars@.skip(from as int);
    if from == chars.len() {
        return None;
    }
    let mut acc: u128 = 0;
    let mut i: usize = from;
    while i < chars.len()
        invariant
            from <= i <= chars.len(),
            digits == chars@.skip(from as int),
            all_digits(digits.take(i - from)),
            acc == decimal_value(digits.take(i - from)),
            acc <= limit,
        decreases chars.len() - i,
    {
        let c = chars[i];
        let ghost seen = digits.take(i - from);
        let ghost next = digits.take(i - from + 1);
        proof {
            assert(next.drop_last() =~= seen);
            assert(next.last() == c);
        }
        if !is_decimal_digit(c) {
            assert(!is_digit(digits[i - from]));
            return None;
        }
        let d: u128 = (c as u32 - 0x30) as u128;
        acc = acc * 10 + d;
        if acc > limit as u128 {
            proof {
                lemma_decimal_value_prefix(digits, i - from + 1);
            }
            return None;
        }
        i += 1;
    }
    assert(digits.take(i - from) =~= digits);
    Some(acc as u64)
}

/// Reads `s` as a `u32`.
pub fn read_u32(s: &str) -> (r: Option<u32>)
    ensures
        r == parse_u32(s@),
{
    let chars = chars_of(s);
    let from: usize = if chars.len() > 0 && chars[0] == '+' {
        1
    } else {
        0
    };
    proof {
        assert(chars@.skip(0) =~= s@);
        assert(chars@.skip(1) =~= s@.drop_first());
    }
    match digits_value(&chars, from, 0xffff_ffff) {
        Some(v) => Some(v as u32),
        None => None,
    }
}

/// Reads `s` as an `i64`.
pub fn read_i64(s: &str) -> (r: Option<i64>)
    ensures
        r == parse_i64(s@),
{
    let chars = chars_of(s);
    let negative = chars.len() > 0 && chars[0] == '-';
    let from: usize = if chars.len() > 0 && (chars[0] == '+' || chars[0] == '-') {
        1
    } else {
        0
    };
    let limit: u64 = if negative {
        0x8000_0000_0000_0000
    } else {
        0x7fff_ffff_ffff_ffff
    };
    proof {
        assert(chars@.skip(0) =~= s@);
        assert(chars@.skip(1) =~= s@.drop_first());
    }
    match digits_value(&chars, from, limit) {
        Some(v) => {
            if !negative {
                Some(v as i64)
            } else if v == 0x8000_0000_0000_0000 {
                Some(i64::MIN)
            } else {
                Some(-(v as i64))
            }
        },
        None => None,
    }
}

/// The end of the run of digits that starts at `from` in `s`.
pub open spec fn digit_run(s: Seq<char>, from: int) -> int {
    from + leading(s.skip(from), |c: char| is_digit(c))
}

/// `s` is `lower` up to the case of its letters, `upper` being `lower` in
/// capitals.
pub open spec fn spells(s: Seq<char>, lower: Seq<char>, upper: Seq<char>) -> bool {
    &&& s.len() == lower.len()
    &&& forall|i: int| 0 <= i < s.len() ==> s[i] == lower[i] || s[i] == #[trigger] upper[i]
}

/// A finite floating-point literal without its sign: digits with at most one
/// point among them and at least one digit in all, then, if anything, an
/// exponent: `e` or `E`, an optional sign and one or more digits.
pub open spec fn is_number_literal(s: Seq<char>) -> bool {
    let point = digit_run(s, 0);
    let pointed = point < s.len() && s[point] == '.';
    let end = if pointed {
        digit_run(s, point + 1)
    } else {
        point
    };
    let digits = if pointed {
        end - 1
    } else {
        end
    };
    let exponent = if end + 1 < s.len() && is_sign(s[end + 1]) {
        end + 2
    } else {
        end + 1
    };
    &&& digits > 0
    &&& end < s.len() ==> {
        &&& s[end] == 'e' || s[end] == 'E'
        &&& digit_run(s, exponent) > exponent
        &&& digit_run(s, exponent) == s.len()
    }
}

/// A floating-point literal: an optional sign, then `inf`, `infinity` or
/// `nan` in any case, or a finite literal.
pub open spec fn is_float_literal(s: Seq<char>) -> bool {
    let body = if s.len() > 0 && is_sign(s[0]) {
        s.drop_first()
    } else {
        s
    };
    ||| spells(body, "inf"@, "INF"@)
    ||| spells(body, "infinity"@, "INFINITY"@)
    ||| spells(body, "nan"@, "NAN"@)
    ||| is_number_literal(body)
}

/// The end of the run of digits that starts at `from`.
fn scan_digits(chars: &Vec<char>, from: usize) -> (r: usize)
    requires
        from <= chars.len(),
    ensures
        from <= r <= chars.len(),
        r == digit_run(chars@, from as int),
{
    let mut i: usize = from;
    while i < chars.len() && is_decimal_digit(chars[i])
        invariant
            from <= i <= chars.len(),
            forall|k: int| from <= k < i ==> is_digit(#[trigger] chars@[k]),
        decreases chars.len() - i,
    {
        i += 1;
    }
    proof {
        let rest = chars@.skip(from as int);
        let p = |c: char| is_digit(c);
        assert forall|k: int| 0 <= k < i - from implies p(#[trigger] rest[k]) by {
            assert(rest[k] == chars@[from + k]);
        }
        if i < chars.len() {
            assert(rest[i - from] == chars@[i as int]);
        }
        lemma_leading(rest, p, i - from);
    }
    i
}

/// Whether `chars[from..]` spells `lower`, whatever the case of its letters.
fn spells_from(chars: &Vec<char>, from: usize, lower: &str, upper: &str) -> (r: bool)
    requires
        from <= chars.len(),
        lower@.len() == upper@.len(),
    ensures
        r == spells(chars@.skip(from as int), lower@, upper@),
{
    let ghost s = chars@.skip(from as int);
    let n = lower.unicode_len();
    if chars.len() - from != n {
        return false;
    }
    let mut i: usize = 0;
    while i < n
        invariant
            0 <= i <= n,
            n == lower@.len(),
            n == upper@.len(),
            n == chars.len() - from,
            s == chars@.skip(from as int),
            forall|k: int| 0 <= k < i ==> s[k] == lower@[k] || s[k] == #[trigger] upper@[k],
        decreases n - i,
    {
        let c = chars[from + i];
        assert(c == s[i as int]);
        if c != lower.get_char(i) && c != upper.get_char(i) {
            return false;
        }
        i += 1;
    }
    true
}

/// Whether `s` is a floating-point literal.
pub fn float_literal(s: &str) -> (r: bool)
    ensures
        r == is_float_literal(s@),
{
    let chars = chars_of(s);
    let from: usize = if chars.len() > 0 && (chars[0] == '+' || chars[0] == '-') {
        1
    } else {
        0
    };
    let ghost body = chars@.skip(from as int);
    proof {
        reveal_strlit("inf");
        reveal_strlit("INF");
        reveal_strlit("infinity");
        reveal_strlit("INFINITY");
        reveal_strlit("nan");
        reveal_strlit("NAN");
        if from == 1 {
            assert(body =~= s@.drop_first());
        } else {
            assert(body =~= s@);
        }
    }
    if spells_from(&chars, from, "inf", "INF") || spells_from(&chars, from, "infinity", "INFINITY")
        || spells_from(&chars, from, "nan", "NAN") {
        return true;
    }
    let body_chars = vstd::slice::slice_to_vec(
        vstd::slice::slice_subrange(chars.as_slice(), from, chars.len()),
    );
    assert(body_chars@ =~= body);
    number_literal(&body_chars)
}

/// Whether `chars` is a finite floating-point literal without its sign.
fn number_literal(chars: &Vec<char>) -> (r: bool)
    ensures
        r == is_number_literal(chars@),
{
    let n = chars.len();
    let point = scan_digits(chars, 0);
    let pointed = point < n && chars[point] == '.';
    let end = if pointed {
        scan_digits(chars, point + 1)
    } else {
        point
    };
    let digits = if pointed {
        end - 1
    } else {
        end
    };
    if digits == 0 {
        return false;
    }
    if end == n {
        return true;
    }
    if chars[end] != 'e' && chars[end] != 'E' {
        return false;
    }
    let exponent = if end + 1 < n && (chars[end + 1] == '+' || chars[end + 1] == '-') {
        end + 2
    } else {
        end + 1
    };
    let last = scan_digits(chars, exponent);
    last > exponent && last == n
}

/// The character that writes the digit `d`.
pub open spec fn digit_char(d: nat) -> char {
    if d == 0 {
        '0'
    } else if d == 1 {
        '1'
    } else if d == 2 {
        '2'
    } else if d == 3 {
        '3'
    } else if d == 4 {
        '4'
    } else if d == 5 {
        '5'
    } else if d == 6 {
        '6'
    } else if d == 7 {
        '7'
    } else if d == 8 {
        '8'
    } else {
        '9'
    }
}

/// The digits that write `n` in base ten, without leading zeros.
pub open spec fn digits(n: nat) -> Seq<char>
    decreases n,
{
    if n < 10 {
        seq![digit_char(n)]
    } else {
        digits(n / 10).push(digit_char(n % 10))
    }
}

/// The text that writes `n` in base ten: `-` before the digits of a negative
/// number, nothing before the others.
pub open spec fn decimal(n: int) -> Seq<char> {
    if n < 0 {
        seq!['-'] + digits((-n) as nat)
    } else {
        digits(n as nat)
    }
}

/// The digits of a number are digits, at least one, and write that number.
pub proof fn lemma_digits_write_their_number(n: nat)
    ensures
        digits(n).len() > 0,
        all_digits(digits(n)),
        decimal_value(digits(n)) == n,
    decreases n,
{
    if n < 10 {
        assert(digits(n).drop_last() =~= Seq::<char>::empty());
        assert(decimal_value(Seq::<char>::empty()) == 0);
        assert(digits(n).last() == digit_char(n));
    } else {
        lemma_digits_write_their_number(n / 10);
        assert(digits(n).drop_last() =~= digits(n / 10));
        assert(digits(n).last() == digit_char(n % 10));
    }
}

/// A number that was written is read back: reading what writes `n` gives `n`.
pub proof fn lemma_written_number_is_read_back(n: int)
    requires
        i64::MIN <= n <= i64::MAX,
    ensures
        parse_i64(decimal(n)) == Some(n as i64),
        0 <= n <= u32::MAX ==> parse_u32(decimal(n)) == Some(n as u32),
{
    if n < 0 {
        lemma_digits_write_their_number((-n) as nat);
        assert(decimal(n).drop_first() =~= digits((-n) as nat));
    } else {
        lemma_digits_write_their_number(n as nat);
    }
}

/// The character that writes the digit `d`.
fn digit_to_char(d: u64) -> (r: char)
    requires
        d < 10,
    ensures
        r == digit_char(d as nat),
{
    if d == 0 {
        '0'
    } else if d == 1 {
        '1'
    } else if d == 2 {
        '2'
    } else if d == 3 {
        '3'
    } else if d == 4 {
        '4'
    } else if d == 5 {
        '5'
    } else if d == 6 {
        '6'
    } else if d == 7 {
        '7'
    } else if d == 8 {
        '8'
    } else {
        '9'
    }
}

/// Writes `n` in base ten.
pub fn write_decimal(n: i64) -> (r: String)
    ensures
        r@ == decimal(n as int),
{
    let magnitude: u64 = if n < 0 {
        (-(n + 1)) as u64 + 1
    } else {
        n as u64
    };
    let mut out: Vec<char> = Vec::new();
    out.push(digit_to_char(magnitude % 10));
    let mut m: u64 = magnitude / 10;
    while m > 0
        invariant
            digits(magnitude as nat) == if m == 0 {
                out@
            } else {
                digits(m as nat) + out@
            },
        decreases m,
    {
        let ghost before = out@;
        out.insert(0, digit_to_char(m % 10));
        proof {
            let d = digit_char((m % 10) as nat);
            assert(out@ =~= seq![d] + before);
            if m < 10 {
                assert(digits(m as nat) + before =~= out@);
            } else {
                assert(digits(m as nat) + before =~= digits((m / 10) as nat) + out@);
            }
        }
        m = m / 10;
    }
    if n < 0 {
        out.insert(0, '-');
        assert(out@ =~= seq!['-'] + digits(magnitude as nat));
    }
    string_from_chars(out.as_slice())
}

} // verus!
