//! Decimal text of integers: what an integer literal's text denotes, the
//! canonical decimal rendering that the print built-in emits, and verified
//! conversions in both directions.

use vstd::prelude::*;
use vstd::string::{StrSliceExecFns, StringExecFns};

verus! {

/// Is `c` an ASCII decimal digit?
pub open spec fn is_digit(c: char) -> bool {
    '0' <= c && c <= '9'
}

/// The value of a single decimal digit.
pub open spec fn digit_val(c: char) -> int {
    c as int - '0' as int
}

/// The digit character for `d`, which must lie in `0 ..= 9`.
pub open spec fn digit_char(d: int) -> char {
    if d == 0 {
        '0'
    } else if d == 1 {
        '1'
    } else if d == 2 {
        '2'
    } else if d == 3 {
        '3'
    } else if d == 4 {
        '4'
    } else if d == 5 {
        '5'
    } else if d == 6 {
        '6'
    } else if d == 7 {
        '7'
    } else if d == 8 {
        '8'
    } else {
        '9'
    }
}

/// Does `s` consist of decimal digits only?
pub open spec fn all_digits(s: Seq<char>) -> bool {
    forall|i: int| 0 <= i < s.len() ==> is_digit(#[trigger] s[i])
}

/// The value of a string of decimal digits.
pub open spec fn digits_val(s: Seq<char>) -> int
    decreases s.len(),
{
    if s.len() == 0 {
        0
    } else {
        digits_val(s.drop_last()) * 10 + digit_val(s.last())
    }
}

/// Is `s` the text of an integer as the tokenizer may produce it: an optional
/// sign followed by one or more decimal digits?
pub open spec fn is_int_text(s: Seq<char>) -> bool {
    if s.len() > 0 && (s[0] == '-' || s[0] == '+') {
        s.len() > 1 && all_digits(s.skip(1))
    } else {
        s.len() > 0 && all_digits(s)
    }
}

/// The integer an integer text denotes.
pub open spec fn int_text_val(s: Seq<char>) -> int {
    if s.len() > 0 && s[0] == '-' {
        -digits_val(s.skip(1))
    } else if s.len() > 0 && s[0] == '+' {
        digits_val(s.skip(1))
    } else {
        digits_val(s)
    }
}

/// Is `s` an integer text whose value fits a signed 32-bit integer?
pub open spec fn is_i32_text(s: Seq<char>) -> bool {
    is_int_text(s) && i32::MIN <= int_text_val(s) <= i32::MAX
}

/// The canonical decimal digits of a non-negative integer, most significant
/// first, without leading zeros (except for zero itself).
pub open spec fn nat_text(n: int) -> Seq<char>
    decreases n,
{
    if n < 10 {
        seq![digit_char(n)]
    } else {
        nat_text(n / 10).push(digit_char(n % 10))
    }
}

/// The canonical decimal text of an integer: a minus sign for negatives, no
/// sign otherwise, digits without leading zeros.
pub open spec fn int_text(n: int) -> Seq<char> {
    if n < 0 {
        seq!['-'].add(nat_text(-n))
    } else {
        nat_text(n)
    }
}

/// A digit string's value is never negative.
proof fn lemma_digits_val_nonneg(s: Seq<char>)
    requires
        all_digits(s),
    ensures
        digits_val(s) >= 0,
    decreases s.len(),
{
    if s.len() > 0 {
        lemma_digits_val_nonneg(s.drop_last());
    }
}

/// A prefix of a digit string denotes at most the whole string's value.
proof fn lemma_digits_prefix(s: Seq<char>, i: int)
    requires
        all_digits(s),
        0 <= i <= s.len(),
    ensures
        digits_val(s.take(i)) <= digits_val(s),
    decreases s.len() - i,
{
    if i < s.len() {
        lemma_digits_prefix(s, i + 1);
        assert(s.take(i + 1).drop_last() =~= s.take(i));
        assert(all_digits(s.take(i)));
        lemma_digits_val_nonneg(s.take(i));
        assert(digits_val(s.take(i)) <= digits_val(s.take(i + 1)));
    } else {
        assert(s.take(i) =~= s);
    }
}

/// Reads the decimal digits of `s` from `start` on; the digits' value must
/// not exceed `2^31`.
fn digits_to_i64(s: &str, start: usize) -> (acc: i64)
    requires
        start <= s@.len(),
        all_digits(s@.skip(start as int)),
        digits_val(s@.skip(start as int)) <= 0x8000_0000,
    ensures
        acc == digits_val(s@.skip(start as int)),
        0 <= acc <= 0x8000_0000,
{
    let ghost d = s@.skip(start as int);
    proof {
        lemma_digits_val_nonneg(d);
        assert(d.take(0) =~= Seq::<char>::empty());
    }
    let len = s.unicode_len();
    let mut acc: i64 = 0;
    let mut i: usize = start;
    while i < len
        invariant
            start <= i <= len,
            len == s@.len(),
            d == s@.skip(start as int),
            all_digits(d),
            digits_val(d) <= 0x8000_0000,
            acc == digits_val(d.take(i - start)),
            0 <= acc <= digits_val(d),
        decreases len - i,
    {
        let c = s.get_char(i);
        proof {
            let k = (i - start) as int;
            assert(d[k] == s@[i as int]);
            assert(is_digit(d[k]));
            assert(d.take(k + 1).drop_last() =~= d.take(k));
            assert(d.take(k + 1).last() == d[k]);
            lemma_digits_prefix(d, k + 1);
        }
        let dv: u32 = c as u32 - 48;
        acc = acc * 10 + dv as i64;
        i = i + 1;
    }
    proof {
        assert(d.take((len - start) as int) =~= d);
    }
    acc
}

/// Reads a signed 32-bit integer from its decimal text: an optional ASCII
/// sign followed by decimal digits denoting a value in the range of `i32`.
pub fn text_to_i32(s: &str) -> (n: i32)
    requires
        is_i32_text(s@),
    ensures
        n as int == int_text_val(s@),
{
    let c0 = s.get_char(0);
    if c0 == '-' {
        let acc = digits_to_i64(s, 1);
        (-acc) as i32
    } else if c0 == '+' {
        let acc = digits_to_i64(s, 1);
        acc as i32
    } else {
        proof {
            assert(s@.skip(0) =~= s@);
        }
        let acc = digits_to_i64(s, 0);
        acc as i32
    }
}

/// The one-character string for a decimal digit.
fn digit_str(d: u32) -> (s: &'static str)
    requires
        d < 10,
    ensures
        s@ == seq![digit_char(d as int)],
{
    proof {
        reveal_strlit("0");
        reveal_strlit("1");
        reveal_strlit("2");
        reveal_strlit("3");
        reveal_strlit("4");
        reveal_strlit("5");
        reveal_strlit("6");
        reveal_strlit("7");
        reveal_strlit("8");
        reveal_strlit("9");
    }
    if d == 0 {
        "0"
    } else if d == 1 {
        "1"
    } else if d == 2 {
        "2"
    } else if d == 3 {
        "3"
    } else if d == 4 {
        "4"
    } else if d == 5 {
        "5"
    } else if d == 6 {
        "6"
    } else if d == 7 {
        "7"
    } else if d == 8 {
        "8"
    } else {
        "9"
    }
}

/// Appends the canonical decimal digits of `n`, most significant first.
fn push_nat_text(out: &mut String, n: u32)
    ensures
        final(out)@ == old(out)@.add(nat_text(n as int)),
    decreases n,
{
    if n < 10 {
        out.append(digit_str(n));
    } else {
        push_nat_text(out, n / 10);
        out.append(digit_str(n % 10));
        proof {
            assert(old(out)@.add(nat_text(n as int / 10)).add(
                seq![digit_char(n as int % 10)],
            ) =~= old(out)@.add(nat_text(n as int)));
        }
    }
}

/// The canonical decimal text of a 32-bit integer: a minus sign for
/// negatives, digits without leading zeros.
pub fn i32_to_text(n: i32) -> (s: String)
    ensures
        s@ == int_text(n as int),
{
    let mut s = String::new();
    if n < 0 {
        proof {
            reveal_strlit("-");
        }
        s.append("-");
        let m: u32 = if n == i32::MIN {
            0x8000_0000
        } else {
            (-n) as u32
        };
        push_nat_text(&mut s, m);
        proof {
            assert(s@ =~= int_text(n as int));
        }
    } else {
        push_nat_text(&mut s, n as u32);
        proof {
            assert(s@ =~= int_text(n as int));
        }
    }
    s
}

} // verus!
