//! Decimal text: how an integer is written into a query, how an unsigned
//! integer is read from a JSON number, and which texts denote a
//! floating-point value.

use crate::text::chars_of;
use vstd::prelude::*;

verus! {

/// Whether `c` is one of the ten decimal digits.
pub open spec fn is_digit(c: char) -> bool {
    '0' <= c && c <= '9'
}

/// The number that a decimal digit stands for.
pub open spec fn digit_value(c: char) -> int {
    c as int - '0' as int
}

/// The decimal digit that stands for `d`, for `d` in `0..10`.
pub open spec fn digit_char(d: int) -> char {
    (d + '0' as int) as char
}

/// The decimal text of a natural number, without sign or leading zeros.
pub open spec fn decimal_nat(n: nat) -> Seq<char>
    decreases n,
{
    if n < 10 {
        seq![digit_char(n as int)]
    } else {
        decimal_nat(n / 10).push(digit_char((n % 10) as int))
    }
}

/// The decimal text of an integer: a minus sign before a negative one.
pub open spec fn decimal(v: int) -> Seq<char> {
    if v < 0 {
        seq!['-'] + decimal_nat((-v) as nat)
    } else {
        decimal_nat(v as nat)
    }
}

/// The number that a run of decimal digits stands for, read from the left.
pub open spec fn digits_value(s: Seq<char>) -> nat
    decreases s.len(),
{
    if s.len() == 0 {
        0
    } else {
        (digits_value(s.drop_last()) * 10 + digit_value(s.last())) as nat
    }
}

/// Whether every character of `s` is a decimal digit.
pub open spec fn all_digits(s: Seq<char>) -> bool {
    forall|i: int| 0 <= i < s.len() ==> is_digit(#[trigger] s[i])
}

/// Whether `s` is an unsigned decimal number written the shortest way: at
/// least one digit, and no leading zero before another digit.
pub open spec fn is_plain_unsigned(s: Seq<char>) -> bool {
    &&& s.len() >= 1
    &&& all_digits(s)
    &&& (s.len() == 1 || s[0] != '0')
}

/// The `u64` that `s` denotes, if `s` is a plain unsigned decimal number that
/// fits.
pub open spec fn unsigned_of(s: Seq<char>) -> Option<u64> {
    if is_plain_unsigned(s) && digits_value(s) <= u64::MAX {
        Some(digits_value(s) as u64)
    } else {
        None
    }
}

/// Where the longest run of decimal digits that starts at `from` ends.
pub open spec fn digit_run(s: Seq<char>, from: int) -> int
    decreases s.len() - from,
{
    if 0 <= from < s.len() && is_digit(s[from]) {
        digit_run(s, from + 1)
    } else {
        from
    }
}

/// Whether `c` is a plus or a minus sign.
pub open spec fn is_sign(c: char) -> bool {
    c == '+' || c == '-'
}

/// An upper-case ASCII letter as its lower-case form; any other character
/// as it is.
pub open spec fn ascii_lower(c: char) -> char {
    if 'A' <= c && c <= 'Z' {
        ((c as u8) + 32) as char
    } else {
        c
    }
}

/// Whether `s` spells `word`, which is in lower case, in any mix of cases.
pub open spec fn spells(s: Seq<char>, word: Seq<char>) -> bool {
    &&& s.len() == word.len()
    &&& forall|i: int| 0 <= i < s.len() ==> ascii_lower(#[trigger] s[i]) == word[i]
}

/// Whether `s` names an infinity or a not-a-number.
pub open spec fn is_special(s: Seq<char>) -> bool {
    spells(s, "inf"@) || spells(s, "infinity"@) || spells(s, "nan"@)
}

/// Whether the text from `from` to the end is an exponent: the letter `e`,
/// an optional sign, and at least one digit.
pub open spec fn is_exponent(s: Seq<char>, from: int) -> bool {
    &&& 0 <= from < s.len()
    &&& ascii_lower(s[from]) == 'e'
    &&& {
        let digits = if from + 1 < s.len() && is_sign(s[from + 1]) {
            from + 2
        } else {
            from + 1
        };
        digits < s.len() && digit_run(s, digits) == s.len()
    }
}

/// Whether the text from `from` to the end is a number: digits with at most
/// one point among them, at least one digit in all, and an optional exponent.
pub open spec fn is_number(s: Seq<char>, from: int) -> bool {
    let whole_end = digit_run(s, from);
    let has_point = whole_end < s.len() && s[whole_end] == '.';
    let fraction = if has_point {
        whole_end + 1
    } else {
        whole_end
    };
    let fraction_end = digit_run(s, fraction);
    &&& 0 <= from <= s.len()
    &&& (whole_end - from) + (fraction_end - fraction) >= 1
    &&& (fraction_end == s.len() || is_exponent(s, fraction_end))
}

/// Whether `s` denotes a floating-point value: an optional sign, then a
/// number, an infinity or a not-a-number. These are the texts that parse as
/// a 64-bit float.
pub open spec fn is_float_text(s: Seq<char>) -> bool {
    let from: int = if s.len() > 0 && is_sign(s[0]) {
        1
    } else {
        0
    };
    is_number(s, from) || is_special(s.skip(from))
}

/// The text of one decimal digit.
fn digit_text(d: u8) -> (r: &'static str)
    requires
        d < 10,
    ensures
        r@ == seq![digit_char(d as int)],
{
    let r = if d == 0 {
        "0"
    } else if d == 1 {
        "1"
    } else if d == 2 {
        "2"
    } else if d == 3 {
        "3"
    } else if d == 4 {
        "4"
    } else if d == 5 {
        "5"
    } else if d == 6 {
        "6"
    } else if d == 7 {
        "7"
    } else if d == 8 {
        "8"
    } else {
        "9"
    };
    proof {
        reveal_strlit("0");
        reveal_strlit("1");
        reveal_strlit("2");
        reveal_strlit("3");
        reveal_strlit("4");
        reveal_strlit("5");
        reveal_strlit("6");
        reveal_strlit("7");
        reveal_strlit("8");
        reveal_strlit("9");
        assert(r@ =~= seq![digit_char(d as int)]);
    }
    r
}

/// Writes an unsigned integer in decimal.
pub fn unsigned_text(n: u64) -> (s: String)
    ensures
        s@ == decimal_nat(n as nat),
    decreases n,
{
    if n < 10 {
        String::from_str(digit_text(n as u8))
    } else {
        let mut s = unsigned_text(n / 10);
        s.append(digit_text((n % 10) as u8));
        assert(s@ =~= decimal_nat(n as nat));
        s
    }
}

/// Writes a signed integer in decimal.
pub fn signed_text(v: i64) -> (s: String)
    ensures
        s@ == decimal(v as int),
{
    if v >= 0 {
        unsigned_text(v as u64)
    } else {
        let magnitude: u64 = ((-(v + 1)) as u64) + 1;
        let digits = unsigned_text(magnitude);
        let mut s = String::from_str("-");
        s.append(digits.as_str());
        proof {
            reveal_strlit("-");
            assert(s@ =~= decimal(v as int));
        }
        s
    }
}

/// A run of digits stands for at least as much as any run it begins with.
proof fn lemma_digits_value_grows(s: Seq<char>, n: int)
    requires
        all_digits(s),
        0 <= n <= s.len(),
    ensures
        digits_value(s.take(n)) <= digits_value(s),
    decreases s.len() - n,
{
    if n < s.len() {
        lemma_digits_value_grows(s, n + 1);
        assert(s.take(n + 1).drop_last() =~= s.take(n));
        assert(is_digit(s[n]));
    } else {
        assert(s.take(n) =~= s);
    }
}

/// Reads a plain unsigned decimal number.
pub fn parse_unsigned(s: &Vec<char>) -> (r: Option<u64>)
    ensures
        r == unsigned_of(s@),
{
    let n = s.len();
    if n == 0 {
        return None;
    }
    if n > 1 && s[0] == '0' {
        return None;
    }
    let mut value: u64 = 0;
    let mut i: usize = 0;
    while i < n
        invariant
            n == s.len(),
            i <= n,
            all_digits(s@.take(i as int)),
            value == digits_value(s@.take(i as int)),
        decreases n - i,
    {
        let c = s[i];
        if !('0' <= c && c <= '9') {
            return None;
        }
        let d: u64 = ((c as u8) - 48) as u64;
        proof {
            assert(s@.take(i + 1).drop_last() =~= s@.take(i as int));
            assert(s@.take(i + 1).last() == c);
            assert forall|j: int| 0 <= j < i + 1 implies is_digit(
                #[trigger] s@.take(i + 1)[j],
            ) by {
                if j < i {
                    assert(s@.take(i as int)[j] == s@[j]);
                }
            }
        }
        if value > (u64::MAX - d) / 10 {
            proof {
                if all_digits(s@) {
                    lemma_digits_value_grows(s@, i + 1);
                }
            }
            return None;
        }
        value = value * 10 + d;
        i += 1;
    }
    proof {
        assert(s@.take(n as int) =~= s@);
    }
    Some(value)
}

/// Finds where the run of digits that starts at `from` ends.
fn skip_digits(s: &Vec<char>, from: usize) -> (end: usize)
    requires
        from <= s.len(),
    ensures
        end == digit_run(s@, from as int),
        from <= end <= s.len(),
{
    let mut i = from;
    while i < s.len() && '0' <= s[i] && s[i] <= '9'
        invariant
            from <= i <= s.len(),
            digit_run(s@, from as int) == digit_run(s@, i as int),
        decreases s.len() - i,
    {
        i += 1;
    }
    i
}

/// Whether the text from `from` on spells `word` in any mix of cases.
fn spells_from(s: &Vec<char>, from: usize, word: &str) -> (r: bool)
    requires
        from <= s.len(),
    ensures
        r == spells(s@.skip(from as int), word@),
{
    let w = chars_of(word);
    if s.len() - from != w.len() {
        return false;
    }
    let mut i: usize = 0;
    while i < w.len()
        invariant
            from <= s.len(),
            s.len() - from == w.len(),
            w@ == word@,
            i <= w.len(),
            forall|j: int| 0 <= j < i ==> ascii_lower(#[trigger] s@.skip(from as int)[j]) == w@[j],
        decreases w.len() - i,
    {
        let c = s[from + i];
        let lower = if 'A' <= c && c <= 'Z' {
            ((c as u8) + 32) as char
        } else {
            c
        };
        assert(s@.skip(from as int)[i as int] == c);
        if lower != w[i] {
            return false;
        }
        i += 1;
    }
    true
}

/// Whether the text from `from` to the end is an exponent.
fn exponent_from(s: &Vec<char>, from: usize) -> (r: bool)
    requires
        from <= s.len(),
    ensures
        r == is_exponent(s@, from as int),
{
    let n = s.len();
    if from >= n {
        return false;
    }
    if s[from] != 'e' && s[from] != 'E' {
        return false;
    }
    let digits = if from + 1 < n && (s[from + 1] == '+' || s[from + 1] == '-') {
        from + 2
    } else {
        from + 1
    };
    if digits >= n {
        return false;
    }
    skip_digits(s, digits) == n
}

/// Whether the text from `from` to the end is a number.
fn number_from(s: &Vec<char>, from: usize) -> (r: bool)
    requires
        from <= s.len(),
    ensures
        r == is_number(s@, from as int),
{
    let n = s.len();
    let whole_end = skip_digits(s, from);
    let fraction = if whole_end < n && s[whole_end] == '.' {
        whole_end + 1
    } else {
        whole_end
    };
    let fraction_end = skip_digits(s, fraction);
    if (whole_end - from) + (fraction_end - fraction) < 1 {
        return false;
    }
    fraction_end == n || exponent_from(s, fraction_end)
}

/// Whether `text` denotes a floating-point value.
pub fn is_float(text: &str) -> (r: bool)
    ensures
        r == is_float_text(text@),
{
    let s = chars_of(text);
    let from: usize = if s.len() > 0 && (s[0] == '+' || s[0] == '-') {
        1
    } else {
        0
    };
    number_from(&s, from) || spells_from(&s, from, "inf") || spells_from(&s, from, "infinity")
        || spells_from(&s, from, "nan")
}

} // verus!
