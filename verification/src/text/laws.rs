//! What holds of text operations, said of characters and their places.
use crate::text::chars;
use crate::text::decimal;
use crate::text::order;
use crate::text::words;
use vstd::prelude::*;

verus! {

/// Whether `part` stands in `whole` from the place `at` on, all around it is white space, and it
/// neither starts nor ends with such.
pub open spec fn is_core(whole: Seq<char>, part: Seq<char>, at: int) -> bool {
    &&& 0 <= at <= at + part.len() <= whole.len()
    &&& part == whole.subrange(at, at + part.len())
    &&& forall|i: int|
        0 <= i < at || at + part.len() <= i < whole.len() ==> chars::is_white_space(
            #[trigger] whole[i],
        )
    &&& part.len() > 0 ==> !chars::is_white_space(part[0]) && !chars::is_white_space(
        part[part.len() - 1],
    )
}

/// Whether two letters are the same, but for the case of ASCII letters.
pub open spec fn is_same_letter(c: char, d: char) -> bool {
    ||| c == d
    ||| 'A' <= c && c <= 'Z' && d as int == c as int + 32
    ||| 'A' <= d && d <= 'Z' && c as int == d as int + 32
}

/// Whether two texts are equally long and the same letter by letter, but for the case of ASCII
/// letters.
pub open spec fn is_same_but_for_case(a: Seq<char>, b: Seq<char>) -> bool {
    a.len() == b.len() && forall|i: int|
        0 <= i < a.len() ==> is_same_letter(#[trigger] a[i], #[trigger] b[i])
}

/// Whether `c` is one of the ten digits.
pub open spec fn is_numeral_digit(c: char) -> bool {
    48 <= c as int <= 57
}

/// White space is the blank, the tab, the line breaks and the other spaces of Unicode.
pub proof fn law_white_space_is_listed(c: char)
    ensures
        chars::is_white_space(c) <==> (c == '\t' || c == '\n' || c == '\u{b}' || c == '\u{c}' || c
            == '\r' || c == ' ' || c == '\u{85}' || c == '\u{a0}' || c == '\u{1680}' || ('\u{2000}'
            <= c && c <= '\u{200a}') || c == '\u{2028}' || c == '\u{2029}' || c == '\u{202f}' || c
            == '\u{205f}' || c == '\u{3000}'),
{
}

/// Trimming leaves what stands between the white space at both ends: all of it, and it is the only
/// such part.
pub proof fn law_trim_leaves_the_core(s: Seq<char>)
    ensures
        exists|at: int| #[trigger] is_core(s, chars::trimmed(s), at),
        forall|part: Seq<char>, at: int| #[trigger]
            is_core(s, part, at) ==> part == chars::trimmed(s),
{
    let k = chars::trim_offset(s);
    let t = chars::trimmed(s);
    chars::lemma_trimmed_is_cut(s);
    chars::lemma_trim_start(s);
    chars::lemma_trim_end(chars::trim_start(s));
    if t.len() > 0 {
        assert(t[0] == chars::trim_start(s)[0]);
    }
    assert(is_core(s, t, k));
    assert forall|part: Seq<char>, at: int| #[trigger] is_core(s, part, at) implies part == t by {
        if part.len() > 0 {
            assert(s[at] == part[0]);
            assert(s[at + part.len() - 1] == part[part.len() - 1]);
        }
        if t.len() > 0 {
            assert(s[k] == t[0]);
            assert(s[k + t.len() - 1] == t[t.len() - 1]);
        }
        assert(part =~= t);
    }
}

/// Cutting keeps every character up to the limit, at its place.
pub proof fn law_cut_keeps_the_start(s: Seq<char>, n: nat)
    ensures
        chars::first_chars(s, n).len() == (if s.len() < n {
            s.len()
        } else {
            n
        }),
        forall|i: int|
            0 <= i < s.len() && i < n ==> #[trigger] chars::first_chars(s, n)[i] == s[i],
{
}

/// Texts are the same in lower case exactly where they are the same letter by letter but for case.
pub proof fn law_lower_case_compares_letter_by_letter(a: Seq<char>, b: Seq<char>)
    ensures
        chars::ascii_lower(a) == chars::ascii_lower(b) <==> is_same_but_for_case(a, b),
{
    let x = chars::ascii_lower(a);
    let y = chars::ascii_lower(b);
    if x == y {
        assert(x.len() == y.len());
        assert forall|i: int| 0 <= i < a.len() implies is_same_letter(
            #[trigger] a[i],
            #[trigger] b[i],
        ) by {
            assert(x[i] == y[i]);
            assert(x[i] == chars::ascii_lower_char(a[i]));
            assert(y[i] == chars::ascii_lower_char(b[i]));
        }
    }
    if is_same_but_for_case(a, b) {
        assert forall|i: int| 0 <= i < x.len() implies x[i] == y[i] by {
            assert(is_same_letter(a[i], b[i]));
        }
        assert(x =~= y);
    }
}

/// The views of strings hold the strings' characters, one for one.
pub proof fn law_views_hold_all_characters(texts: Seq<String>, text: String)
    ensures
        chars::string_list(texts).len() == texts.len(),
        forall|i: int|
            0 <= i < texts.len() ==> #[trigger] chars::string_list(texts)[i] == texts[i]@,
        chars::string_option(Some(text)) == Some(text@),
        chars::string_option(None) is None,
{
}

/// A number is written with the digits of its decimal places and no leading zero.
pub proof fn law_numeral_has_the_decimal_digits(n: nat)
    ensures
        n < 10 ==> decimal::decimal(n).len() == 1,
        n >= 10 ==> decimal::decimal(n).len() == decimal::decimal(n / 10).len() + 1 && forall|i: int|
            0 <= i < decimal::decimal(n / 10).len() ==> #[trigger] decimal::decimal(n)[i]
                == decimal::decimal(n / 10)[i],
        decimal::decimal(n)[decimal::decimal(n).len() - 1] as int == 48 + n % 10,
{
    decimal::lemma_decimal_digits(n);
}

/// A run of digits reads as the number that it stands for: one more digit multiplies by ten and adds
/// the digit.
pub proof fn law_digits_read_as_their_number(s: Seq<char>, d: char)
    requires
        forall|i: int| 0 <= i < s.len() ==> is_numeral_digit(#[trigger] s[i]),
        is_numeral_digit(d),
    ensures
        decimal::read_decimal(s.push(d)) == Some(
            (if s.len() == 0 {
                0
            } else {
                decimal::read_decimal(s)->0
            } * 10 + (d as int - 48)) as nat,
        ),
        s.len() > 0 ==> decimal::read_decimal(s) is Some,
        s.len() > 0 ==> decimal::read_decimal(seq!['+'] + s) == decimal::read_decimal(s),
{
    let t = s.push(d);
    assert forall|i: int| 0 <= i < t.len() implies decimal::is_digit(#[trigger] t[i]) by {
        if i < s.len() {
            assert(t[i] == s[i]);
        }
    }
    assert(t[0] != '+');
    assert(t.drop_last() =~= s);
    assert forall|i: int| 0 <= i < s.len() implies decimal::is_digit(#[trigger] s[i]) by {}
    if s.len() > 0 {
        assert(s[0] != '+');
        assert((seq!['+'] + s).skip(1) =~= s);
    } else {
        assert(decimal::digits_value(s) == 0);
    }
}

/// Only a run of digits, with or without a plus sign before it, reads as a number.
pub proof fn law_nothing_else_reads_as_a_number(s: Seq<char>)
    requires
        s.len() == 0 || s == seq!['+'] || exists|i: int|
            0 <= i < s.len() && !is_numeral_digit(#[trigger] s[i]) && (i > 0 || s[i] != '+'),
    ensures
        decimal::read_decimal(s) is None,
        decimal::read_u32(s) is None,
{
    let digits = decimal::numeral_digits(s);
    if s.len() > 0 && s != seq!['+'] {
        let i = choose|i: int|
            0 <= i < s.len() && !is_numeral_digit(#[trigger] s[i]) && (i > 0 || s[i] != '+');
        let k = if s[0] == '+' { i - 1 } else { i };
        assert(digits[k] == s[i]);
        assert(!decimal::is_digit(digits[k]));
    }
}

/// A number is read where it fits in 32 bits.
pub proof fn law_small_numbers_are_read(s: Seq<char>)
    ensures
        decimal::read_u32(s) == (match decimal::read_decimal(s) {
            Some(n) => if n < 0x1_0000_0000 {
                Some(n)
            } else {
                None
            },
            None => None,
        }),
{
}

/// The order of two texts is that of the first characters in which they differ.
pub proof fn law_first_difference_decides(
    start: Seq<char>,
    x: char,
    y: char,
    a: Seq<char>,
    b: Seq<char>,
)
    requires
        x < y,
    ensures
        order::at_or_before(start + seq![x] + a, start + seq![y] + b),
        !order::at_or_before(start + seq![y] + b, start + seq![x] + a),
    decreases start.len(),
{
    let s = start + seq![x] + a;
    let t = start + seq![y] + b;
    if start.len() > 0 {
        let rest = start.drop_first();
        law_first_difference_decides(rest, x, y, a, b);
        assert(s.drop_first() =~= rest + seq![x] + a);
        assert(t.drop_first() =~= rest + seq![y] + b);
    } else {
        assert(s[0] == x && t[0] == y);
    }
}

/// A text comes before every longer text that starts with it.
pub proof fn law_shorter_comes_first(start: Seq<char>, rest: Seq<char>)
    ensures
        order::at_or_before(start, start + rest),
        rest.len() > 0 ==> !order::at_or_before(start + rest, start),
    decreases start.len(),
{
    if start.len() > 0 {
        law_shorter_comes_first(start.drop_first(), rest);
        assert((start + rest).drop_first() =~= start.drop_first() + rest);
    }
}

/// White space before a text adds no word.
proof fn lemma_leading_space_adds_nothing(c: char, s: Seq<char>)
    requires
        chars::is_white_space(c),
    ensures
        words::words(seq![c] + s) == words::words(s),
{
    assert((seq![c] + s).drop_first() =~= s);
    assert(chars::trim_start(seq![c] + s) == chars::trim_start(s));
}

/// A text is split into words where it has white space.
pub proof fn law_words_are_split_at_white_space(a: Seq<char>, c: char, b: Seq<char>)
    requires
        chars::is_white_space(c),
    ensures
        words::words(a + seq![c] + b) == words::words(a) + words::words(b),
    decreases a.len(),
{
    let s = a + seq![c] + b;
    if a.len() == 0 {
        assert(s =~= seq![c] + b);
        lemma_leading_space_adds_nothing(c, b);
        assert(chars::trim_start(a) =~= a);
        assert(words::words(a) =~= Seq::<Seq<char>>::empty());
        assert(words::words(a) + words::words(b) =~= words::words(b));
    } else if chars::is_white_space(a[0]) {
        let rest = a.drop_first();
        law_words_are_split_at_white_space(rest, c, b);
        assert(a =~= seq![a[0]] + rest);
        assert(s =~= seq![a[0]] + (rest + seq![c] + b));
        lemma_leading_space_adds_nothing(a[0], rest);
        lemma_leading_space_adds_nothing(a[0], rest + seq![c] + b);
    } else {
        let n = words::word_len(a) as int;
        words::lemma_word_len(a);
        assert(chars::trim_start(a) == a);
        assert(s[0] == a[0]);
        assert(chars::trim_start(s) == s);
        words::lemma_word_len(s);
        assert(words::word_len(s) == n) by {
            let m = words::word_len(s) as int;
            assert(s[a.len() as int] == c);
            if m < n {
                assert(s[m] == a[m]);
            }
            if n < m {
                if n < a.len() {
                    assert(s[n] == a[n]);
                }
            }
        }
        assert(s.take(n) =~= a.take(n));
        let rest = a.skip(n);
        assert(s.skip(n) =~= rest + seq![c] + b);
        law_words_are_split_at_white_space(rest, c, b);
        assert(words::words(s) =~= seq![a.take(n)] + (words::words(rest) + words::words(b)));
        assert(words::words(a) + words::words(b) =~= seq![a.take(n)] + (words::words(rest)
            + words::words(b)));
    }
}

/// A text without white space is one word; the empty text has none.
pub proof fn law_text_without_white_space_is_one_word(s: Seq<char>)
    requires
        forall|i: int| 0 <= i < s.len() ==> !chars::is_white_space(#[trigger] s[i]),
    ensures
        s.len() > 0 ==> words::words(s) == seq![s],
        s.len() == 0 ==> words::words(s).len() == 0,
{
    if s.len() > 0 {
        assert(!chars::is_white_space(s[0]));
        assert(chars::trim_start(s) == s);
        words::lemma_word_len(s);
        let n = words::word_len(s) as int;
        assert(n == s.len());
        assert(s.take(n) =~= s);
        assert(s.skip(n) =~= Seq::<char>::empty());
        assert(chars::trim_start(Seq::<char>::empty()) =~= Seq::<char>::empty());
        assert(words::words(s.skip(n)) =~= Seq::<Seq<char>>::empty());
        assert(words::words(s) =~= seq![s]);
    } else {
        assert(chars::trim_start(s) =~= s);
    }
}

/// Joined texts stand one after the other, whole, with the separator between neighbours and nowhere
/// else.
pub proof fn law_joined_texts_stand_in_order(
    texts: Seq<Seq<char>>,
    text: Seq<char>,
    separator: Seq<char>,
)
    ensures
        words::joined(Seq::empty(), separator).len() == 0,
        words::joined(seq![text], separator) == text,
        texts.len() > 0 ==> words::joined(texts.push(text), separator) == words::joined(
            texts,
            separator,
        ) + separator + text,
{
    words::lemma_joined_push(texts, text, separator);
}

} // verus!
