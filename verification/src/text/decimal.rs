//! Decimal numerals: how a number is written, and what a numeral reads as.
use crate::text::chars::characters;
use vstd::prelude::*;

verus! {

/// The decimal digit with the value `d`.
pub open spec fn digit(d: nat) -> char
    recommends
        d < 10,
{
    (0x30 + d) as char
}

/// The decimal numeral of `n`, without leading zeros.
pub open spec fn decimal(n: nat) -> Seq<char>
    decreases n,
{
    if n < 10 {
        seq![digit(n)]
    } else {
        decimal(n / 10).push(digit(n % 10))
    }
}

/// Whether `c` is one of the ten ASCII digits.
pub open spec fn is_digit(c: char) -> bool {
    '0' <= c && c <= '9'
}

/// Whether `s` is made of digits only.
pub open spec fn all_digits(s: Seq<char>) -> bool {
    forall|i: int| 0 <= i < s.len() ==> is_digit(#[trigger] s[i])
}

/// The number that a run of digits stands for.
pub open spec fn digits_value(s: Seq<char>) -> nat
    decreases s.len(),
{
    if s.len() == 0 {
        0
    } else {
        digits_value(s.drop_last()) * 10 + (s.last() as u32 - 0x30) as nat
    }
}

/// The digits of an unsigned numeral: what follows an optional `+`.
pub open spec fn numeral_digits(s: Seq<char>) -> Seq<char> {
    if s.len() > 0 && s[0] == '+' {
        s.skip(1)
    } else {
        s
    }
}

/// What `s` reads as: an optional `+` and one or more digits make a number, nothing else does.
pub open spec fn read_decimal(s: Seq<char>) -> Option<nat> {
    let digits = numeral_digits(s);
    if digits.len() > 0 && all_digits(digits) {
        Some(digits_value(digits))
    } else {
        None
    }
}

/// What `s` reads as, where that number fits in 32 bits.
pub open spec fn read_u32(s: Seq<char>) -> Option<nat> {
    match read_decimal(s) {
        Some(n) if n <= u32::MAX => Some(n),
        _ => None,
    }
}

/// A numeral is one or more digits that stand for the number it was made from.
pub proof fn lemma_decimal_digits(n: nat)
    ensures
        decimal(n).len() > 0,
        all_digits(decimal(n)),
        digits_value(decimal(n)) == n,
    decreases n,
{
    if n < 10 {
        assert(decimal(n).drop_last() =~= Seq::<char>::empty());
        assert(digits_value(decimal(n).drop_last()) == 0);
    } else {
        lemma_decimal_digits(n / 10);
        assert(decimal(n).drop_last() =~= decimal(n / 10));
    }
}

/// What a number is written as reads back as that number.
pub proof fn law_decimal_round_trip(n: nat)
    ensures
        read_decimal(decimal(n)) == Some(n),
{
    lemma_decimal_digits(n);
    assert(is_digit(decimal(n)[0]));
}

/// A longer run of digits stands for no smaller number.
proof fn lemma_digits_value_grows(s: Seq<char>, k: int)
    requires
        0 <= k <= s.len(),
        all_digits(s),
    ensures
        digits_value(s.take(k)) <= digits_value(s),
    decreases s.len(),
{
    if k < s.len() {
        let rest = s.drop_last();
        assert forall|i: int| 0 <= i < rest.len() implies is_digit(#[trigger] rest[i]) by {
            assert(rest[i] == s[i]);
        }
        lemma_digits_value_grows(rest, k);
        assert(rest.take(k) =~= s.take(k));
    } else {
        assert(s.take(k) =~= s);
    }
}

/// The numeral of one digit.
fn digit_text(d: u64) -> (r: &'static str)
    requires
        d < 10,
    ensures
        r@ == seq![digit(d as nat)],
{
    proof {
        reveal_strlit("0");
        reveal_strlit("1");
        reveal_strlit("2");
        reveal_strlit("3");
        reveal_strlit("4");
        reveal_strlit("5");
        reveal_strlit("6");
        reveal_strlit("7");
        reveal_strlit("8");
        reveal_strlit("9");
    }
    let r = if d == 0 {
        "0"
    } else if d == 1 {
        "1"
    } else if d == 2 {
        "2"
    } else if d == 3 {
        "3"
    } else if d == 4 {
        "4"
    } else if d == 5 {
        "5"
    } else if d == 6 {
        "6"
    } else if d == 7 {
        "7"
    } else if d == 8 {
        "8"
    } else {
        "9"
    };
    assert(r@ =~= seq![digit(d as nat)]);
    r
}

/// The decimal numeral of `n`.
pub fn numeral(n: u64) -> (r: String)
    ensures
        r@ == decimal(n as nat),
    decreases n,
{
    if n < 10 {
        digit_text(n).to_string()
    } else {
        let mut s = numeral(n / 10);
        s.append(digit_text(n % 10));
        assert(s@ =~= decimal(n as nat));
        s
    }
}

/// The number that `text` reads as, where it reads as one that fits in 32 bits.
pub fn parse_u32(text: &str) -> (r: Option<u32>)
    ensures
        (match r {
            Some(n) => read_u32(text@) == Some(n as nat),
            None => read_u32(text@) is None,
        }),
{
    let chars = characters(text);
    let ghost digits = numeral_digits(text@);
    let start: usize = if chars.len() > 0 && chars[0] == '+' {
        1
    } else {
        0
    };
    assert(digits =~= text@.skip(start as int));
    if start == chars.len() {
        return None;
    }
    let mut n: u32 = 0;
    let mut i: usize = start;
    assert(digits.take(0) =~= Seq::<char>::empty());
    while i < chars.len()
        invariant
            start <= i <= chars.len(),
            chars@ == text@,
            digits == numeral_digits(text@),
            digits == text@.skip(start as int),
            digits.len() > 0,
            forall|j: int| 0 <= j < i - start ==> is_digit(#[trigger] digits[j]),
            n == digits_value(digits.take(i - start)),
        decreases chars.len() - i,
    {
        let c = chars[i];
        let ghost k = i - start;
        assert(digits[k] == c);
        if c < '0' || '9' < c {
            return None;
        }
        let d: u32 = (c as u32) - 0x30;
        proof {
            assert(digits.take(k + 1).drop_last() =~= digits.take(k));
            assert(digits_value(digits.take(k + 1)) == n * 10 + d);
            if all_digits(digits) {
                lemma_digits_value_grows(digits, k + 1);
            }
        }
        if n > 429496729 || (n == 429496729 && d > 5) {
            return None;
        }
        n = n * 10 + d;
        i = i + 1;
    }
    assert(digits.take(i - start) =~= digits);
    Some(n)
}

} // verus!
