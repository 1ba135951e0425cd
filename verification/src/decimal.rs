//! Decimal notation of integers: how a number is written, and how a string is
//! read back as a number.

use vstd::prelude::*;

verus! {

/// Whether `c` is one of `'0'` to `'9'`.
pub open spec fn is_digit(c: char) -> bool {
    '0' as int <= c as int <= '9' as int
}

/// The number that the digit `c` stands for.
pub open spec fn digit_value(c: char) -> int {
    c as int - '0' as int
}

/// The digit that stands for `d`, for `d` from 0 to 9.
pub open spec fn digit_char(d: int) -> char {
    (d + '0' as int) as char
}

/// The digits of `n`, most significant first, without leading zeros.
pub open spec fn decimal_digits(n: nat) -> Seq<char>
    decreases n,
{
    if n < 10 {
        seq![digit_char(n as int)]
    } else {
        decimal_digits(n / 10).push(digit_char((n % 10) as int))
    }
}

/// How `i` is written: a minus sign for a negative number, then its digits.
pub open spec fn decimal(i: int) -> Seq<char> {
    if i < 0 {
        seq!['-'] + decimal_digits((-i) as nat)
    } else {
        decimal_digits(i as nat)
    }
}

/// Whether every character of `s` is a digit.
pub open spec fn all_digits(s: Seq<char>) -> bool {
    forall|k: int| 0 <= k < s.len() ==> is_digit(#[trigger] s[k])
}

/// The number that a run of digits denotes; leading zeros count for nothing.
pub open spec fn digits_value(s: Seq<char>) -> nat
    decreases s.len(),
{
    if s.len() == 0 {
        0
    } else {
        (digits_value(s.drop_last()) * 10 + digit_value(s.last())) as nat
    }
}

/// Whether `s` begins with a plus or minus sign.
pub open spec fn has_sign(s: Seq<char>) -> bool {
    s.len() > 0 && (s[0] == '-' || s[0] == '+')
}

/// The number that `s` denotes: an optional sign followed by at least one
/// digit and nothing else. Any other string denotes nothing.
pub open spec fn parse_integer(s: Seq<char>) -> Option<int> {
    let body = if has_sign(s) { s.skip(1) } else { s };
    if body.len() > 0 && all_digits(body) {
        if has_sign(s) && s[0] == '-' {
            Some(-(digits_value(body) as int))
        } else {
            Some(digits_value(body) as int)
        }
    } else {
        None
    }
}

/// The 32-bit signed number that `s` denotes, if it denotes one that fits.
pub open spec fn parse_i32_spec(s: Seq<char>) -> Option<i32> {
    match parse_integer(s) {
        Some(v) => if i32::MIN <= v <= i32::MAX { Some(v as i32) } else { None },
        None => None,
    }
}

/// Written digits are digits, and read back as the number they were written for.
pub proof fn lemma_digits_round_trip(n: nat)
    ensures
        decimal_digits(n).len() > 0,
        all_digits(decimal_digits(n)),
        digits_value(decimal_digits(n)) == n,
        !has_sign(decimal_digits(n)),
    decreases n,
{
    if n < 10 {
        let s = decimal_digits(n);
        assert(s.drop_last() =~= Seq::<char>::empty());
        assert(digits_value(s.drop_last()) == 0);
    } else {
        lemma_digits_round_trip(n / 10);
        let head = decimal_digits(n / 10);
        let s = decimal_digits(n);
        assert(s.drop_last() =~= head);
        assert(s[0] == head[0]);
    }
}

/// Every integer is read back from its own notation.
pub proof fn lemma_decimal_round_trip(i: int)
    ensures
        parse_integer(decimal(i)) == Some(i),
{
    if i < 0 {
        let body = decimal_digits((-i) as nat);
        lemma_digits_round_trip((-i) as nat);
        let s = decimal(i);
        assert(s[0] == '-');
        assert(s.skip(1) =~= body);
    } else {
        lemma_digits_round_trip(i as nat);
    }
}

/// Every 32-bit number is read back from its own notation.
pub proof fn lemma_i32_round_trip(i: i32)
    ensures
        parse_i32_spec(decimal(i as int)) == Some(i),
{
    lemma_decimal_round_trip(i as int);
}

/// The one-character string of the digit `d`.
fn digit_str(d: u64) -> (s: &'static str)
    requires
        d < 10,
    ensures
        s@ == seq![digit_char(d as int)],
{
    proof {
        reveal_strlit("0");
        reveal_strlit("1");
        reveal_strlit("2");
        reveal_strlit("3");
        reveal_strlit("4");
        reveal_strlit("5");
        reveal_strlit("6");
        reveal_strlit("7");
        reveal_strlit("8");
        reveal_strlit("9");
    }
    let s = if d == 0 {
        "0"
    } else if d == 1 {
        "1"
    } else if d == 2 {
        "2"
    } else if d == 3 {
        "3"
    } else if d == 4 {
        "4"
    } else if d == 5 {
        "5"
    } else if d == 6 {
        "6"
    } else if d == 7 {
        "7"
    } else if d == 8 {
        "8"
    } else {
        "9"
    };
    assert(s@ =~= seq![digit_char(d as int)]);
    s
}

/// Writes a non-negative number in decimal.
pub fn format_u64(n: u64) -> (out: String)
    ensures
        out@ == decimal_digits(n as nat),
    decreases n,
{
    if n < 10 {
        String::from_str(digit_str(n))
    } else {
        let mut out = format_u64(n / 10);
        out.append(digit_str(n % 10));
        assert(out@ =~= decimal_digits(n as nat));
        out
    }
}

/// Writes a signed number in decimal.
pub fn format_i32(i: i32) -> (out: String)
    ensures
        out@ == decimal(i as int),
{
    if i < 0 {
        let magnitude: u64 = (-(i as i64)) as u64;
        let digits = format_u64(magnitude);
        proof {
            reveal_strlit("-");
        }
        let mut out = String::from_str("-");
        out.append(digits.as_str());
        assert(out@ =~= decimal(i as int));
        out
    } else {
        format_u64(i as u64)
    }
}

/// Reads a 32-bit signed number: an optional sign, then digits only.
/// Returns nothing for any other string and for a number that does not fit.
pub fn parse_i32(s: &str) -> (r: Option<i32>)
    ensures
        r == parse_i32_spec(s@),
{
    let len = s.unicode_len();
    if len == 0 {
        return None;
    }
    let first = s.get_char(0);
    let negative = first == '-';
    let start: usize = if first == '-' || first == '+' { 1 } else { 0 };
    let ghost body = s@.skip(start as int);
    assert(body == if has_sign(s@) { s@.skip(1) } else { s@ });
    if start == len {
        return None;
    }
    let limit: u64 = 2147483648;
    let mut acc: u64 = 0;
    let mut too_big = false;
    let mut i: usize = start;
    assert(body.take(0) =~= Seq::<char>::empty());
    while i < len
        invariant
            start <= i <= len,
            len == s@.len(),
            body == s@.skip(start as int),
            body == if has_sign(s@) { s@.skip(1) } else { s@ },
            limit == 2147483648,
            all_digits(body.take(i - start)),
            !too_big ==> acc == digits_value(body.take(i - start)) && acc <= limit,
            too_big ==> digits_value(body.take(i - start)) > limit,
        decreases len - i,
    {
        let c = s.get_char(i);
        let ghost before = body.take(i - start);
        let ghost after = body.take(i - start + 1);
        assert(after.drop_last() =~= before);
        assert(after.last() == c);
        if !(c >= '0' && c <= '9') {
            assert(!is_digit(body[i - start]));
            return None;
        }
        assert(all_digits(after)) by {
            assert forall|k: int| 0 <= k < after.len() implies is_digit(#[trigger] after[k]) by {
                if k < before.len() {
                    assert(after[k] == before[k]);
                }
            }
        }
        let d: u64 = (c as u32 - '0' as u32) as u64;
        assert(d == digit_value(c));
        if !too_big {
            acc = acc * 10 + d;
            if acc > limit {
                too_big = true;
            }
        }
        i += 1;
    }
    assert(body.take(len - start) =~= body);
    if too_big {
        return None;
    }
    if negative {
        Some((-(acc as i64)) as i32)
    } else if acc == limit {
        None
    } else {
        Some(acc as i32)
    }
}

} // verus!
