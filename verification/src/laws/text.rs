//! Laws of the functions on text and on JSON arguments.
use crate::json;
use crate::text::chars;
use crate::text::decimal;
use crate::text::laws;
use crate::text::order;
use crate::text::words;
use vstd::prelude::*;

verus! {

/// A character counts as white space where it is listed as such.
pub proof fn law_white_space(c: char, r: bool)
    requires
        call_ensures(chars::white_space, (c,), r),
    ensures
        r <==> (c == '\t' || c == '\n' || c == '\u{b}' || c == '\u{c}' || c == '\r' || c == ' ' || c
            == '\u{85}' || c == '\u{a0}' || c == '\u{1680}' || ('\u{2000}' <= c && c <= '\u{200a}')
            || c == '\u{2028}' || c == '\u{2029}' || c == '\u{202f}' || c == '\u{205f}' || c
            == '\u{3000}'),
{
    laws::law_white_space_is_listed(c);
}

/// Trimming returns what stands between the white space at both ends, all of it.
pub proof fn law_trim(text: &str, r: &str)
    requires
        call_ensures(chars::trim, (text,), r),
    ensures
        exists|at: int| #[trigger] laws::is_core(text@, r@, at),
{
    laws::law_trim_leaves_the_core(text@);
}

/// All characters of a text are returned, in order.
pub proof fn law_characters(text: &str, r: Vec<char>)
    requires
        call_ensures(chars::characters, (text,), r),
    ensures
        r@ == text@,
{
}

/// Two texts are the same where all their characters are; but for case, where all their letters are
/// but for case.
pub proof fn law_comparison(a: &str, b: &str, same: bool, same_letters: bool)
    requires
        call_ensures(chars::same_text, (a, b), same),
        call_ensures(chars::same_ignoring_ascii_case, (a, b), same_letters),
    ensures
        same <==> a@ == b@,
        same_letters <==> laws::is_same_but_for_case(a@, b@),
{
    laws::law_lower_case_compares_letter_by_letter(a@, b@);
}

/// A character is found at its first place, and at its last, counted in characters.
pub proof fn law_search(text: &str, c: char, first: Option<usize>, last: Option<usize>)
    requires
        call_ensures(chars::find, (text, c), first),
        call_ensures(chars::find_last, (text, c), last),
    ensures
        first matches Some(i) ==> i < text@.len() && text@[i as int] == c && forall|j: int|
            0 <= j < i ==> text@[j] != c,
        last matches Some(i) ==> i < text@.len() && text@[i as int] == c && forall|j: int|
            i < j < text@.len() ==> text@[j] != c,
        first is None <==> forall|j: int| 0 <= j < text@.len() ==> text@[j] != c,
        last is None <==> forall|j: int| 0 <= j < text@.len() ==> text@[j] != c,
{
    text@.index_of_first_ensures(c);
    text@.index_of_last_ensures(c);
    if exists|j: int| 0 <= j < text@.len() && text@[j] == c {
        let j = choose|j: int| 0 <= j < text@.len() && text@[j] == c;
        assert(text@.contains(text@[j]));
    }
}

/// Stripping takes off the prefix or the suffix, where the text has it, and nothing more.
pub proof fn law_stripping(text: &str, piece: &str, rest: Option<&str>, front: Option<&str>)
    requires
        call_ensures(chars::strip_prefix, (text, piece), rest),
        call_ensures(chars::strip_suffix, (text, piece), front),
    ensures
        rest matches Some(t) ==> text@ == piece@ + t@,
        front matches Some(t) ==> text@ == t@ + piece@,
        forall|t: Seq<char>| text@ == #[trigger] (piece@ + t) ==> rest is Some,
        forall|t: Seq<char>| text@ == #[trigger] (t + piece@) ==> front is Some,
{
    if rest is Some {
        assert(text@ =~= piece@ + rest->0@);
    }
    if front is Some {
        assert(text@ =~= front->0@ + piece@);
    }
    assert forall|t: Seq<char>| text@ == #[trigger] (piece@ + t) implies rest is Some by {
        assert(piece@ =~= text@.subrange(0, piece@.len() as int));
    }
    assert forall|t: Seq<char>| text@ == #[trigger] (t + piece@) implies front is Some by {
        assert(piece@ =~= text@.subrange(t.len() as int, text@.len() as int));
    }
}

/// The start of a text is kept up to the limit, and all of a text that is no longer.
pub proof fn law_keep_first(text: &str, n: usize, r: &str)
    requires
        call_ensures(chars::keep_first, (text, n), r),
    ensures
        text@.len() <= n ==> r@ == text@,
        text@.len() > n ==> r@ == text@.subrange(0, n as int),
{
    if text@.len() > n {
        assert(r@ =~= text@.subrange(0, n as int));
    }
}

/// A numeral is read back as its number, and only digits, with or without a plus sign before them,
/// read as a number that fits.
pub proof fn law_numerals(n: u64, written: String, text: &str, read: Option<u32>)
    requires
        call_ensures(decimal::numeral, (n,), written),
        call_ensures(decimal::parse_u32, (text,), read),
    ensures
        written@ == decimal::decimal(n as nat),
        decimal::read_decimal(written@) == Some(n as nat),
        read matches Some(m) <==> (decimal::read_decimal(text@) matches Some(k) && k
            < 0x1_0000_0000),
        read matches Some(m) ==> decimal::read_decimal(text@) == Some(m as nat),
{
    decimal::law_decimal_round_trip(n as nat);
    laws::law_small_numbers_are_read(text@);
}

/// The first difference decides about the order of two texts; a start comes before what it starts.
pub proof fn law_order(a: &str, b: &str, r: bool)
    requires
        call_ensures(order::text_at_or_before, (a, b), r),
    ensures
        r == order::at_or_before(a@, b@),
        forall|start: Seq<char>, x: char, y: char, s: Seq<char>, t: Seq<char>|
            #![trigger start + seq![x] + s, start + seq![y] + t]
            x < y && a@ == start + seq![x] + s && b@ == start + seq![y] + t ==> r,
        forall|start: Seq<char>, x: char, y: char, s: Seq<char>, t: Seq<char>|
            #![trigger start + seq![x] + s, start + seq![y] + t]
            x > y && a@ == start + seq![x] + s && b@ == start + seq![y] + t ==> !r,
        forall|t: Seq<char>| b@ == #[trigger] (a@ + t) ==> r,
        forall|t: Seq<char>| a@ == #[trigger] (b@ + t) && t.len() > 0 ==> !r,
{
    assert forall|start: Seq<char>, x: char, y: char, s: Seq<char>, t: Seq<char>|
        #![trigger start + seq![x] + s, start + seq![y] + t]
        x < y && a@ == start + seq![x] + s && b@ == start + seq![y] + t implies r by {
        laws::law_first_difference_decides(start, x, y, s, t);
    }
    assert forall|start: Seq<char>, x: char, y: char, s: Seq<char>, t: Seq<char>|
        #![trigger start + seq![x] + s, start + seq![y] + t]
        x > y && a@ == start + seq![x] + s && b@ == start + seq![y] + t implies !r by {
        laws::law_first_difference_decides(start, y, x, t, s);
    }
    assert forall|t: Seq<char>| b@ == #[trigger] (a@ + t) implies r by {
        laws::law_shorter_comes_first(a@, t);
    }
    assert forall|t: Seq<char>| a@ == #[trigger] (b@ + t) && t.len() > 0 implies !r by {
        laws::law_shorter_comes_first(b@, t);
    }
}

/// White space is collapsed to single blanks between the words, and joined texts stand whole with
/// the separator between them.
pub proof fn law_joining(text: &str, r: String, texts: &Vec<String>, separator: &str, all: String)
    requires
        call_ensures(words::single_spaced, (text,), r),
        call_ensures(words::join, (texts, separator), all),
    ensures
        r@ == words::joined(words::words(text@), seq![' ']),
        texts@.len() == 0 ==> all@.len() == 0,
        texts@.len() == 1 ==> all@ == texts@[0]@,
        texts@.len() == 2 ==> all@ == texts@[0]@ + separator@ + texts@[1]@,
        all@ == words::joined(texts@.map_values(|t: String| t@), separator@),
{
    let views = chars::string_list(texts@);
    assert(texts@.map_values(|t: String| t@) =~= views);
    if texts@.len() == 2 {
        assert(views.drop_last()[0] == texts@[0]@);
        assert(words::joined(views.drop_last(), separator@) == texts@[0]@);
    }
}

/// An argument is read from the field of its name, where that holds a text, or an unsigned number.
pub proof fn law_arguments(
    value: &serde_json::Value,
    key: &str,
    text: Option<&str>,
    number: Option<u64>,
)
    requires
        call_ensures(json::text_argument, (value, key), text),
        call_ensures(json::unsigned_argument, (value, key), number),
    ensures
        text matches Some(t) ==> json::field_of(json::json_of(*value), key@) == Some(
            json::Json::Text(t@),
        ),
        text is None ==> !(json::field_of(json::json_of(*value), key@) matches Some(
            json::Json::Text(_),
        )),
        number matches Some(n) ==> json::field_of(json::json_of(*value), key@) == Some(
            json::Json::Unsigned(n),
        ),
        number is None ==> !(json::field_of(json::json_of(*value), key@) matches Some(
            json::Json::Unsigned(_),
        )),
{
}

} // verus!
