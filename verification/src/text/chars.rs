//! Trimming, searching, cutting and comparing text.
use vstd::prelude::*;

verus! {

/// The characters with the Unicode `White_Space` property.
pub open spec fn is_white_space(c: char) -> bool {
    let n = c as u32;
    ||| 0x9 <= n <= 0xd
    ||| n == 0x20
    ||| n == 0x85
    ||| n == 0xa0
    ||| n == 0x1680
    ||| 0x2000 <= n <= 0x200a
    ||| n == 0x2028
    ||| n == 0x2029
    ||| n == 0x202f
    ||| n == 0x205f
    ||| n == 0x3000
}

/// `s` without its leading white space.
pub open spec fn trim_start(s: Seq<char>) -> Seq<char>
    decreases s.len(),
{
    if s.len() > 0 && is_white_space(s.first()) {
        trim_start(s.drop_first())
    } else {
        s
    }
}

/// `s` without its trailing white space.
pub open spec fn trim_end(s: Seq<char>) -> Seq<char>
    decreases s.len(),
{
    if s.len() > 0 && is_white_space(s.last()) {
        trim_end(s.drop_last())
    } else {
        s
    }
}

/// `s` without its leading and trailing white space.
pub open spec fn trimmed(s: Seq<char>) -> Seq<char> {
    trim_end(trim_start(s))
}

/// Whether every character of `s` is white space.
pub open spec fn is_blank(s: Seq<char>) -> bool {
    forall|i: int| 0 <= i < s.len() ==> is_white_space(#[trigger] s[i])
}

/// `s` up to its `n`-th character, all of it where it is shorter.
pub open spec fn first_chars(s: Seq<char>, n: nat) -> Seq<char> {
    if s.len() <= n {
        s
    } else {
        s.take(n as int)
    }
}

/// The lower-case form of an ASCII letter; every other character is its own.
pub open spec fn ascii_lower_char(c: char) -> char {
    if 'A' <= c && c <= 'Z' {
        ((c as u32) + 32) as char
    } else {
        c
    }
}

/// `s` with its ASCII letters in lower case.
pub open spec fn ascii_lower(s: Seq<char>) -> Seq<char> {
    s.map_values(|c: char| ascii_lower_char(c))
}

/// The view of a string that may be absent.
pub open spec fn str_option(text: Option<&str>) -> Option<Seq<char>> {
    match text {
        Some(t) => Some(t@),
        None => None,
    }
}

/// The view of an owned string that may be absent.
pub open spec fn string_option(text: Option<String>) -> Option<Seq<char>> {
    match text {
        Some(t) => Some(t@),
        None => None,
    }
}

/// The views of a list of strings.
pub open spec fn string_list(texts: Seq<String>) -> Seq<Seq<char>> {
    texts.map_values(|t: String| t@)
}

/// What `trim_start` leaves is a suffix that starts with no white space, behind blank text.
pub proof fn lemma_trim_start(s: Seq<char>)
    ensures
        trim_start(s).len() <= s.len(),
        trim_start(s) == s.skip(s.len() - trim_start(s).len()),
        is_blank(s.take(s.len() - trim_start(s).len())),
        trim_start(s).len() > 0 ==> !is_white_space(trim_start(s).first()),
    decreases s.len(),
{
    if s.len() > 0 && is_white_space(s.first()) {
        let rest = s.drop_first();
        lemma_trim_start(rest);
        let k = s.len() - trim_start(s).len();
        assert(rest.skip(k - 1) =~= s.skip(k));
        assert forall|i: int| 0 <= i < k implies is_white_space(#[trigger] s.take(k)[i]) by {
            if i > 0 {
                assert(rest.take(k - 1)[i - 1] == s.take(k)[i]);
            }
        }
    } else {
        assert(s.skip(0) =~= s);
    }
}

/// What `trim_end` leaves is a prefix that ends with no white space, before blank text.
pub proof fn lemma_trim_end(s: Seq<char>)
    ensures
        trim_end(s).len() <= s.len(),
        trim_end(s) == s.take(trim_end(s).len() as int),
        is_blank(s.skip(trim_end(s).len() as int)),
        trim_end(s).len() > 0 ==> !is_white_space(trim_end(s).last()),
    decreases s.len(),
{
    if s.len() > 0 && is_white_space(s.last()) {
        let rest = s.drop_last();
        lemma_trim_end(rest);
        let k = trim_end(s).len() as int;
        assert(rest.take(k) =~= s.take(k));
        assert forall|i: int| 0 <= i < s.len() - k implies is_white_space(
            #[trigger] s.skip(k)[i],
        ) by {
            if i < rest.len() - k {
                assert(rest.skip(k)[i] == s.skip(k)[i]);
            }
        }
    } else {
        assert(s.take(s.len() as int) =~= s);
    }
}

/// Leading white space is gone once the first character that is none is reached.
proof fn lemma_trim_start_at(s: Seq<char>, k: int)
    requires
        0 <= k <= s.len(),
        forall|i: int| 0 <= i < k ==> is_white_space(#[trigger] s[i]),
        k < s.len() ==> !is_white_space(s[k]),
    ensures
        trim_start(s) == s.skip(k),
    decreases s.len(),
{
    if k > 0 {
        let rest = s.drop_first();
        assert forall|i: int| 0 <= i < k - 1 implies is_white_space(#[trigger] rest[i]) by {
            assert(rest[i] == s[i + 1]);
        }
        lemma_trim_start_at(rest, k - 1);
        assert(is_white_space(s[0]));
        assert(rest.skip(k - 1) =~= s.skip(k));
    } else {
        assert(s.skip(0) =~= s);
    }
}

/// Trailing white space is gone once the last character that is none is reached.
proof fn lemma_trim_end_at(s: Seq<char>, k: int)
    requires
        0 <= k <= s.len(),
        forall|i: int| k <= i < s.len() ==> is_white_space(#[trigger] s[i]),
        0 < k ==> !is_white_space(s[k - 1]),
    ensures
        trim_end(s) == s.take(k),
    decreases s.len(),
{
    if k < s.len() {
        let rest = s.drop_last();
        assert forall|i: int| k <= i < rest.len() implies is_white_space(#[trigger] rest[i]) by {
            assert(rest[i] == s[i]);
        }
        assert(is_white_space(s[s.len() - 1]));
        lemma_trim_end_at(rest, k);
        assert(rest.take(k) =~= s.take(k));
    } else {
        assert(s.take(k) =~= s);
    }
}

/// Trimming leaves nothing exactly where there was nothing but white space.
pub proof fn law_trimmed_empty_iff_blank(s: Seq<char>)
    ensures
        trimmed(s).len() == 0 <==> is_blank(s),
{
    let a = trim_start(s);
    let k = s.len() - a.len();
    lemma_trim_start(s);
    lemma_trim_end(a);
    if trimmed(s).len() == 0 {
        assert(a.skip(0) =~= a);
        if a.len() > 0 {
            assert(is_white_space(a.skip(0)[0]));
        }
        assert(s.take(k) =~= s);
    }
    if is_blank(s) && a.len() > 0 {
        assert(a[0] == s[k]);
    }
}

/// Trimming twice is trimming once.
pub proof fn law_trim_is_idempotent(s: Seq<char>)
    ensures
        trimmed(trimmed(s)) == trimmed(s),
{
    let a = trim_start(s);
    let t = trimmed(s);
    lemma_trim_start(s);
    lemma_trim_end(a);
    if t.len() > 0 {
        assert(t[0] == a[0]);
    }
}

/// How many leading characters are trimmed off `s`.
pub open spec fn trim_offset(s: Seq<char>) -> int {
    s.len() - trim_start(s).len()
}

/// Trimming cuts a text at both ends, and all that it cuts off is white space.
pub proof fn lemma_trimmed_is_cut(s: Seq<char>)
    ensures
        0 <= trim_offset(s) <= trim_offset(s) + trimmed(s).len() <= s.len(),
        trimmed(s) == s.subrange(trim_offset(s), trim_offset(s) + trimmed(s).len()),
        forall|i: int|
            0 <= i < trim_offset(s) || trim_offset(s) + trimmed(s).len() <= i < s.len()
                ==> is_white_space(#[trigger] s[i]),
{
    let a = trim_start(s);
    let k = trim_offset(s);
    let n = trimmed(s).len() as int;
    lemma_trim_start(s);
    lemma_trim_end(a);
    assert(trimmed(s) =~= s.subrange(k, k + n));
    assert forall|i: int| 0 <= i < k || k + n <= i < s.len() implies is_white_space(
        #[trigger] s[i],
    ) by {
        if i < k {
            assert(s.take(k)[i] == s[i]);
        } else {
            assert(a[i - k] == s[i]);
            assert(a.skip(n)[i - k - n] == s[i]);
        }
    }
}

/// Whether `c` is white space.
pub fn white_space(c: char) -> (r: bool)
    ensures
        r == is_white_space(c),
{
    let n: u32 = c as u32;
    (0x9 <= n && n <= 0xd) || n == 0x20 || n == 0x85 || n == 0xa0 || n == 0x1680 || (0x2000 <= n && n
        <= 0x200a) || n == 0x2028 || n == 0x2029 || n == 0x202f || n == 0x205f || n == 0x3000
}

/// The characters of `text`, in order.
pub fn characters(text: &str) -> (r: Vec<char>)
    ensures
        r@ == text@,
{
    let mut out: Vec<char> = Vec::new();
    for c in it: text.chars()
        invariant
            it.seq() == text@,
            out@ == it.seq().take(it.index() as int),
    {
        out.push(c);
    }
    out
}

/// `text` without its leading and trailing white space.
pub fn trim(text: &str) -> (r: &str)
    ensures
        r@ == trimmed(text@),
{
    let chars = characters(text);
    let mut from: usize = 0;
    while from < chars.len() && white_space(chars[from])
        invariant
            from <= chars.len(),
            chars@ == text@,
            forall|i: int| 0 <= i < from ==> is_white_space(#[trigger] text@[i]),
        decreases chars.len() - from,
    {
        from = from + 1;
    }
    let mut to: usize = chars.len();
    proof {
        lemma_trim_start_at(text@, from as int);
    }
    while from < to && white_space(chars[to - 1])
        invariant
            from <= to <= chars.len(),
            chars@ == text@,
            forall|i: int| to <= i < chars.len() ==> is_white_space(#[trigger] text@[i]),
        decreases to,
    {
        to = to - 1;
    }
    proof {
        let rest = text@.skip(from as int);
        assert forall|i: int| to - from <= i < rest.len() implies is_white_space(
            #[trigger] rest[i],
        ) by {
            assert(rest[i] == text@[i + from]);
        }
        lemma_trim_end_at(rest, to - from);
        assert(rest.take(to - from) =~= text@.subrange(from as int, to as int));
    }
    text.substring_char(from, to)
}

/// Whether two texts hold the same characters.
pub fn same_text(a: &str, b: &str) -> (r: bool)
    ensures
        r == (a@ == b@),
{
    let x = characters(a);
    let y = characters(b);
    if x.len() != y.len() {
        return false;
    }
    let mut i: usize = 0;
    while i < x.len()
        invariant
            i <= x.len() == y.len(),
            x@ == a@,
            y@ == b@,
            forall|j: int| 0 <= j < i ==> a@[j] == b@[j],
        decreases x.len() - i,
    {
        if x[i] != y[i] {
            return false;
        }
        i = i + 1;
    }
    assert(a@ =~= b@);
    true
}

/// Whether two texts are the same but for the case of their ASCII letters.
pub fn same_ignoring_ascii_case(a: &str, b: &str) -> (r: bool)
    ensures
        r == (ascii_lower(a@) == ascii_lower(b@)),
{
    let x = characters(a);
    let y = characters(b);
    if x.len() != y.len() {
        proof {
            assert(ascii_lower(a@).len() != ascii_lower(b@).len());
        }
        return false;
    }
    let mut i: usize = 0;
    while i < x.len()
        invariant
            i <= x.len() == y.len(),
            x@ == a@,
            y@ == b@,
            forall|j: int| 0 <= j < i ==> ascii_lower_char(#[trigger] a@[j]) == ascii_lower_char(b@[j]),
        decreases x.len() - i,
    {
        if to_ascii_lower(x[i]) != to_ascii_lower(y[i]) {
            proof {
                assert(ascii_lower(a@)[i as int] != ascii_lower(b@)[i as int]);
            }
            return false;
        }
        i = i + 1;
    }
    assert(ascii_lower(a@) =~= ascii_lower(b@));
    true
}

/// The lower-case form of an ASCII letter; every other character is its own. The result is the
/// scalar value.
fn to_ascii_lower(c: char) -> (r: u32)
    ensures
        r == ascii_lower_char(c) as u32,
{
    let n: u32 = c as u32;
    if 0x41 <= n && n <= 0x5a {
        n + 32
    } else {
        n
    }
}

/// The position of the first `c` in `text`, counted in characters.
pub fn find(text: &str, c: char) -> (r: Option<usize>)
    ensures
        (match r {
            Some(i) => text@.index_of_first(c) == Some(i as int),
            None => text@.index_of_first(c) is None,
        }),
{
    let chars = characters(text);
    proof {
        text@.index_of_first_ensures(c);
    }
    let mut i: usize = 0;
    while i < chars.len()
        invariant
            i <= chars.len(),
            chars@ == text@,
            forall|j: int| 0 <= j < i ==> text@[j] != c,
        decreases chars.len() - i,
    {
        if chars[i] == c {
            proof {
                text@.index_of_first_ensures(c);
                assert(text@.contains(text@[i as int]));
            }
            return Some(i);
        }
        i = i + 1;
    }
    None
}

/// The position of the last `c` in `text`, counted in characters.
pub fn find_last(text: &str, c: char) -> (r: Option<usize>)
    ensures
        (match r {
            Some(i) => text@.index_of_last(c) == Some(i as int) && i < usize::MAX,
            None => text@.index_of_last(c) is None,
        }),
{
    let chars = characters(text);
    proof {
        text@.index_of_last_ensures(c);
    }
    let mut i: usize = chars.len();
    while 0 < i
        invariant
            i <= chars.len(),
            chars@ == text@,
            forall|j: int| i <= j < chars.len() ==> text@[j] != c,
        decreases i,
    {
        if chars[i - 1] == c {
            proof {
                text@.index_of_last_ensures(c);
                assert(text@.contains(text@[i - 1]));
            }
            return Some(i - 1);
        }
        i = i - 1;
    }
    None
}

/// What follows `prefix` in `text`, where `text` starts with it.
pub fn strip_prefix<'a>(text: &'a str, prefix: &str) -> (r: Option<&'a str>)
    ensures
        r is Some <==> prefix@.is_prefix_of(text@),
        r is Some ==> r->0@ == text@.skip(prefix@.len() as int),
{
    let chars = characters(text);
    let wanted = characters(prefix);
    if chars.len() < wanted.len() {
        return None;
    }
    let head = text.substring_char(0, wanted.len());
    if same_text(head, prefix) {
        Some(text.substring_char(wanted.len(), chars.len()))
    } else {
        None
    }
}

/// What precedes `suffix` in `text`, where `text` ends with it.
pub fn strip_suffix<'a>(text: &'a str, suffix: &str) -> (r: Option<&'a str>)
    ensures
        r is Some <==> suffix@.is_suffix_of(text@),
        r is Some ==> r->0@ == text@.take(text@.len() - suffix@.len()),
{
    let chars = characters(text);
    let wanted = characters(suffix);
    if chars.len() < wanted.len() {
        return None;
    }
    let cut: usize = chars.len() - wanted.len();
    let tail = text.substring_char(cut, chars.len());
    if same_text(tail, suffix) {
        Some(text.substring_char(0, cut))
    } else {
        None
    }
}

/// The first `n` characters of `text`, all of it where it is shorter.
pub fn keep_first<'a>(text: &'a str, n: usize) -> (r: &'a str)
    ensures
        r@ == first_chars(text@, n as nat),
{
    let len = characters(text).len();
    if len <= n {
        text
    } else {
        text.substring_char(0, n)
    }
}

} // verus!
