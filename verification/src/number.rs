//! Counters as decimal text, the form in which the table stores numbers.

use vstd::prelude::*;
use vstd::string::*;
use vstd::utf8::{is_ascii_chars, is_ascii_chars_encode_utf8};
use crate::text::owned;

verus! {

/// The character for a digit below ten.
pub open spec fn digit(d: nat) -> char {
    (('0' as u8) + d) as u8 as char
}

/// Whether a character is a decimal digit.
pub open spec fn is_digit(c: char) -> bool {
    '0' <= c <= '9'
}

/// A number in decimal digits, without leading zeros.
pub open spec fn decimal(n: nat) -> Seq<char>
    decreases n,
{
    if n < 10 {
        seq![digit(n)]
    } else {
        decimal(n / 10).push(digit(n % 10))
    }
}

/// The number that a text of digits stands for.
pub open spec fn digits_value(s: Seq<char>) -> nat
    decreases s.len(),
{
    if s.len() == 0 {
        0
    } else {
        10 * digits_value(s.drop_last()) + ((s.last() as u8) - ('0' as u8)) as nat
    }
}

/// Whether a text is made of digits only.
pub open spec fn all_digits(s: Seq<char>) -> bool {
    forall|i: int| 0 <= i < s.len() ==> is_digit(#[trigger] s[i])
}

/// The number that a text stands for, if the text is a non-empty run of
/// digits whose value is at most `limit`. Leading zeros are accepted.
pub open spec fn digits_upto(s: Seq<char>, limit: nat) -> Option<nat> {
    if s.len() > 0 && all_digits(s) && digits_value(s) <= limit {
        Some(digits_value(s))
    } else {
        None
    }
}

/// The counter that a text stands for: a run of digits whose value fits 32
/// bits.
pub open spec fn parsed_u32(s: Seq<char>) -> Option<u32> {
    match digits_upto(s, 0xffff_ffff) {
        Some(v) => Some(v as u32),
        None => None,
    }
}

/// The signed number that a text stands for: a run of digits whose value
/// fits 64 bits with its sign, behind an optional `+` or `-`.
pub open spec fn parsed_i64(s: Seq<char>) -> Option<i64> {
    if s.len() > 0 && s[0] == '-' {
        match digits_upto(s.skip(1), 0x8000_0000_0000_0000) {
            Some(v) => Some((-v) as i64),
            None => None,
        }
    } else if s.len() > 0 && s[0] == '+' {
        match digits_upto(s.skip(1), 0x7fff_ffff_ffff_ffff) {
            Some(v) => Some(v as i64),
            None => None,
        }
    } else {
        match digits_upto(s, 0x7fff_ffff_ffff_ffff) {
            Some(v) => Some(v as i64),
            None => None,
        }
    }
}

/// The text of one digit.
fn digit_str(d: u32) -> (s: &'static str)
    requires
        d < 10,
    ensures
        s@ == seq![digit(d as nat)],
{
    proof {
        reveal_strlit("0");
        reveal_strlit("1");
        reveal_strlit("2");
        reveal_strlit("3");
        reveal_strlit("4");
        reveal_strlit("5");
        reveal_strlit("6");
        reveal_strlit("7");
        reveal_strlit("8");
        reveal_strlit("9");
    }
    let s = if d == 0 {
        "0"
    } else if d == 1 {
        "1"
    } else if d == 2 {
        "2"
    } else if d == 3 {
        "3"
    } else if d == 4 {
        "4"
    } else if d == 5 {
        "5"
    } else if d == 6 {
        "6"
    } else if d == 7 {
        "7"
    } else if d == 8 {
        "8"
    } else {
        "9"
    };
    assert(s@ =~= seq![digit(d as nat)]);
    s
}

/// Writes a counter in decimal digits.
pub fn format_u32(n: u32) -> (s: String)
    ensures
        s@ == decimal(n as nat),
{
    format_u64(n as u64)
}

/// Writes a number in decimal digits.
pub fn format_u64(n: u64) -> (s: String)
    ensures
        s@ == decimal(n as nat),
    decreases n,
{
    if n < 10 {
        owned(digit_str(n as u32))
    } else {
        let mut s = format_u64(n / 10);
        let d = digit_str((n % 10) as u32);
        s.append(d);
        proof {
            assert(decimal((n / 10) as nat) + seq![digit((n % 10) as nat)] =~= decimal((n / 10) as nat).push(
                digit((n % 10) as nat),
            ));
        }
        s
    }
}

/// The value of a run of digits does not shrink as the run grows.
proof fn lemma_value_grows(s: Seq<char>, i: int)
    requires
        0 <= i <= s.len(),
    ensures
        digits_value(s.take(i)) <= digits_value(s),
    decreases s.len() - i,
{
    if i < s.len() {
        assert(s.take(i + 1).drop_last() =~= s.take(i));
        lemma_value_grows(s, i + 1);
    } else {
        assert(s.take(i) =~= s);
    }
}

/// A text with a character that is not ASCII is not a run of digits, nor
/// a sign followed by one.
proof fn lemma_digits_are_ascii(s: Seq<char>)
    requires
        !is_ascii_chars(s),
    ensures
        !all_digits(s),
        s.len() > 0 && (s[0] == '-' || s[0] == '+') ==> !all_digits(s.skip(1)),
{
    let i = choose|i: int| 0 <= i < s.len() && !('\0' <= #[trigger] s[i] <= '\u{7f}');
    assert(!is_digit(s[i]));
    if s.len() > 0 && (s[0] == '-' || s[0] == '+') {
        assert(i > 0);
        assert(s.skip(1)[i - 1] == s[i]);
    }
}

/// Reads the digits of an ASCII text from position `from` on.
fn parse_digits(text: &str, from: usize, limit: u64) -> (r: Option<u64>)
    requires
        is_ascii_chars(text@),
        from <= text@.len(),
        limit <= 0x8000_0000_0000_0000,
    ensures
        match digits_upto(text@.skip(from as int), limit as nat) {
            Some(v) => r == Some(v as u64),
            None => r is None,
        },
{
    let bytes = text.as_bytes();
    let n = bytes.len();
    proof {
        is_ascii_chars_encode_utf8(text@);
    }
    if n == from {
        return None;
    }
    let ghost digits = text@.skip(from as int);
    let mut acc: u128 = 0;
    let mut i: usize = from;
    proof {
        assert(digits.take(0) =~= Seq::<char>::empty());
    }
    while i < n
        invariant
            from <= i <= n,
            n == text@.len(),
            n == bytes@.len(),
            digits == text@.skip(from as int),
            is_ascii_chars(text@),
            forall|j: int| 0 <= j < n ==> text@[j] as u8 == #[trigger] bytes@[j],
            all_digits(digits.take(i - from)),
            acc == digits_value(digits.take(i - from)),
            acc <= limit,
            limit <= 0x8000_0000_0000_0000,
        decreases n - i,
    {
        let b = bytes[i];
        proof {
            assert(digits.take(i - from + 1).drop_last() =~= digits.take(i - from));
            assert(digits.take(i - from + 1).last() == text@[i as int]);
            assert('\0' <= text@[i as int] <= '\u{7f}');
            assert(text@[i as int] as u8 == b);
        }
        if b < 48 || b > 57 {
            proof {
                assert(digits[i - from] == text@[i as int]);
                assert(!is_digit(digits[i - from]));
            }
            return None;
        }
        acc = acc * 10 + (b - 48) as u128;
        proof {
            assert(is_digit(text@[i as int]));
            assert forall|j: int| 0 <= j < i - from + 1 implies is_digit(
                #[trigger] digits.take(i - from + 1)[j],
            ) by {
                if j < i - from {
                    assert(digits.take(i - from)[j] == digits.take(i - from + 1)[j]);
                }
            }
            assert(acc == digits_value(digits.take(i - from + 1)));
        }
        if acc > limit as u128 {
            proof {
                lemma_value_grows(digits, i - from + 1);
            }
            return None;
        }
        i += 1;
    }
    proof {
        assert(digits.take(n - from) =~= digits);
    }
    Some(acc as u64)
}

/// Reads a counter from decimal digits.
pub fn parse_u32(text: &str) -> (r: Option<u32>)
    ensures
        r == parsed_u32(text@),
{
    if !text.is_ascii() {
        proof {
            lemma_digits_are_ascii(text@);
        }
        return None;
    }
    proof {
        assert(text@.skip(0) =~= text@);
    }
    match parse_digits(text, 0, 0xffff_ffff) {
        Some(v) => Some(v as u32),
        None => None,
    }
}

/// Reads a signed number from decimal digits with an optional sign.
pub fn parse_i64(text: &str) -> (r: Option<i64>)
    ensures
        r == parsed_i64(text@),
{
    if !text.is_ascii() {
        proof {
            lemma_digits_are_ascii(text@);
        }
        return None;
    }
    let bytes = text.as_bytes();
    proof {
        is_ascii_chars_encode_utf8(text@);
        assert(text@.skip(0) =~= text@);
    }
    if bytes.len() > 0 && bytes[0] == 45 {
        assert(text@[0] as u8 == bytes@[0]);
        assert(text@[0] == '-');
        match parse_digits(text, 1, 0x8000_0000_0000_0000) {
            Some(v) => {
                if v == 0x8000_0000_0000_0000 {
                    Some(i64::MIN)
                } else {
                    Some(0 - (v as i64))
                }
            },
            None => None,
        }
    } else if bytes.len() > 0 && bytes[0] == 43 {
        assert(text@[0] as u8 == bytes@[0]);
        assert(text@[0] == '+');
        match parse_digits(text, 1, 0x7fff_ffff_ffff_ffff) {
            Some(v) => Some(v as i64),
            None => None,
        }
    } else {
        proof {
            if text@.len() > 0 {
                assert(text@[0] as u8 == bytes@[0]);
                assert('\0' <= text@[0] <= '\u{7f}');
            }
        }
        match parse_digits(text, 0, 0x7fff_ffff_ffff_ffff) {
            Some(v) => Some(v as i64),
            None => None,
        }
    }
}

} // verus!
