//! Words: runs of text between white space, and texts joined with a separator.
use crate::text::chars;
use vstd::prelude::*;

verus! {

/// How many characters stand before the first white space of `s`.
pub open spec fn word_len(s: Seq<char>) -> nat
    decreases s.len(),
{
    if s.len() == 0 || chars::is_white_space(s.first()) {
        0
    } else {
        1 + word_len(s.drop_first())
    }
}

/// The words of `s`, in order: its longest runs without white space.
pub open spec fn words(s: Seq<char>) -> Seq<Seq<char>>
    decreases s.len(),
    via words_terminates
{
    let t = chars::trim_start(s);
    let n = word_len(t) as int;
    if t.len() == 0 {
        Seq::empty()
    } else {
        seq![t.take(n)] + words(t.skip(n))
    }
}

#[via_fn]
proof fn words_terminates(s: Seq<char>) {
    chars::lemma_trim_start(s);
    lemma_word_len(chars::trim_start(s));
}

/// The texts of the list one after the other, with `separator` between neighbours.
pub open spec fn joined(texts: Seq<Seq<char>>, separator: Seq<char>) -> Seq<char>
    decreases texts.len(),
{
    if texts.len() == 0 {
        Seq::empty()
    } else if texts.len() == 1 {
        texts[0]
    } else {
        joined(texts.drop_last(), separator) + separator + texts.last()
    }
}

/// A word ends at white space or at the end of the text, and holds none.
pub proof fn lemma_word_len(s: Seq<char>)
    ensures
        word_len(s) <= s.len(),
        forall|i: int| 0 <= i < word_len(s) ==> !chars::is_white_space(#[trigger] s[i]),
        word_len(s) < s.len() ==> chars::is_white_space(s[word_len(s) as int]),
        s.len() > 0 && !chars::is_white_space(s[0]) ==> word_len(s) > 0,
    decreases s.len(),
{
    if s.len() > 0 && !chars::is_white_space(s.first()) {
        let rest = s.drop_first();
        lemma_word_len(rest);
        assert forall|i: int| 0 <= i < word_len(s) implies !chars::is_white_space(#[trigger] s[i]) by {
            if i > 0 {
                assert(rest[i - 1] == s[i]);
            }
        }
    }
}

/// Every word of a text is non-empty and holds no white space.
pub proof fn law_words_hold_no_white_space(s: Seq<char>)
    ensures
        forall|i: int|
            0 <= i < words(s).len() ==> (#[trigger] words(s)[i]).len() > 0 && (forall|j: int|
                0 <= j < words(s)[i].len() ==> !chars::is_white_space(#[trigger] words(s)[i][j])),
    decreases s.len(),
{
    let t = chars::trim_start(s);
    let n = word_len(t) as int;
    chars::lemma_trim_start(s);
    lemma_word_len(t);
    if t.len() > 0 {
        law_words_hold_no_white_space(t.skip(n));
        assert forall|i: int| 0 <= i < words(s).len() implies (#[trigger] words(s)[i]).len() > 0 && (
        forall|j: int|
            0 <= j < words(s)[i].len() ==> !chars::is_white_space(#[trigger] words(s)[i][j])) by {
            if i > 0 {
                assert(words(s)[i] == words(t.skip(n))[i - 1]);
            } else {
                assert(words(s)[0] == t.take(n));
            }
        }
    }
}

/// Joining one more text puts the separator before it, unless it is the first.
pub proof fn lemma_joined_push(texts: Seq<Seq<char>>, text: Seq<char>, separator: Seq<char>)
    ensures
        joined(texts.push(text), separator) == (if texts.len() == 0 {
            text
        } else {
            joined(texts, separator) + separator + text
        }),
{
    assert(texts.push(text).drop_last() =~= texts);
}

/// `trim_start` of what is left once `k` leading white-space characters are passed.
proof fn lemma_trim_start_skip(s: Seq<char>, k: int)
    requires
        0 <= k <= s.len(),
        forall|i: int| 0 <= i < k ==> chars::is_white_space(#[trigger] s[i]),
    ensures
        chars::trim_start(s) == chars::trim_start(s.skip(k)),
    decreases k,
{
    if k > 0 {
        let rest = s.drop_first();
        assert(chars::is_white_space(s[0]));
        assert forall|i: int| 0 <= i < k - 1 implies chars::is_white_space(#[trigger] rest[i]) by {
            assert(rest[i] == s[i + 1]);
        }
        lemma_trim_start_skip(rest, k - 1);
        assert(rest.skip(k - 1) =~= s.skip(k));
    } else {
        assert(s.skip(0) =~= s);
    }
}

/// A run without white space that ends where white space or the end does is the whole word.
proof fn lemma_word_len_at(s: Seq<char>, n: int)
    requires
        0 <= n <= s.len(),
        forall|i: int| 0 <= i < n ==> !chars::is_white_space(#[trigger] s[i]),
        n < s.len() ==> chars::is_white_space(s[n]),
    ensures
        word_len(s) == n,
    decreases s.len(),
{
    if n > 0 {
        let rest = s.drop_first();
        assert(!chars::is_white_space(s[0]));
        assert forall|i: int| 0 <= i < n - 1 implies !chars::is_white_space(#[trigger] rest[i]) by {
            assert(rest[i] == s[i + 1]);
        }
        lemma_word_len_at(rest, n - 1);
    }
}

/// The words of `text` joined with single spaces.
pub fn single_spaced(text: &str) -> (r: String)
    ensures
        r@ == joined(words(text@), seq![' ']),
{
    let all = chars::characters(text);
    let mut out = String::new();
    let ghost mut done: Seq<Seq<char>> = Seq::empty();
    let mut at: usize = 0;
    proof {
        reveal_strlit(" ");
        assert(" "@ =~= seq![' ']);
        assert(text@.skip(0) =~= text@);
        assert(done + words(text@) =~= words(text@));
    }
    while at < all.len()
        invariant
            at <= all.len(),
            all@ == text@,
            " "@ == seq![' '],
            done + words(text@.skip(at as int)) == words(text@),
            (at == 0) == (done.len() == 0),
            out@ == joined(done, seq![' ']),
        decreases all.len() - at,
    {
        let ghost rest = text@.skip(at as int);
        let mut from: usize = at;
        while from < all.len() && chars::white_space(all[from])
            invariant
                at <= from <= all.len(),
                all@ == text@,
                rest == text@.skip(at as int),
                forall|i: int| 0 <= i < from - at ==> chars::is_white_space(#[trigger] rest[i]),
            decreases all.len() - from,
        {
            assert(rest[from - at] == all[from as int]);
            from = from + 1;
        }
        let ghost t = text@.skip(from as int);
        proof {
            lemma_trim_start_skip(rest, from - at);
            assert(rest.skip(from - at) =~= t);
            assert(chars::trim_start(rest) == t);
        }
        if from == all.len() {
            proof {
                assert(words(rest) =~= Seq::<Seq<char>>::empty());
                assert(done =~= words(text@));
            }
            return out;
        }
        let mut to: usize = from;
        while to < all.len() && !chars::white_space(all[to])
            invariant
                from <= to <= all.len(),
                all@ == text@,
                t == text@.skip(from as int),
                forall|i: int| 0 <= i < to - from ==> !chars::is_white_space(#[trigger] t[i]),
            decreases all.len() - to,
        {
            assert(t[to - from] == all[to as int]);
            to = to + 1;
        }
        proof {
            if to < all.len() {
                assert(t[to - from] == all[to as int]);
            }
            lemma_word_len_at(t, to - from);
            assert(t.skip(to - from) =~= text@.skip(to as int));
            assert(t.take(to - from) =~= text@.subrange(from as int, to as int));
            assert(words(rest) == seq![t.take(to - from)] + words(text@.skip(to as int)));
            lemma_joined_push(done, t.take(to - from), seq![' ']);
            assert(t[0] == all[from as int]);
            assert(done.push(t.take(to - from)) + words(text@.skip(to as int)) =~= done + words(rest));
        }
        if at > 0 {
            out.append(" ");
        }
        out.append(text.substring_char(from, to));
        proof {
            done = done.push(t.take(to - from));
        }
        at = to;
    }
    proof {
        assert(text@.skip(at as int) =~= Seq::<char>::empty());
        assert(chars::trim_start(Seq::<char>::empty()) =~= Seq::<char>::empty());
        assert(words(text@.skip(at as int)) =~= Seq::<Seq<char>>::empty());
        assert(done =~= words(text@));
    }
    out
}

/// The texts of `texts` one after the other, with `separator` between neighbours.
pub fn join(texts: &Vec<String>, separator: &str) -> (r: String)
    ensures
        r@ == joined(chars::string_list(texts@), separator@),
{
    let ghost views = chars::string_list(texts@);
    let mut out = String::new();
    let mut i: usize = 0;
    assert(views.take(0) =~= Seq::<Seq<char>>::empty());
    while i < texts.len()
        invariant
            i <= texts.len(),
            views == chars::string_list(texts@),
            out@ == joined(views.take(i as int), separator@),
        decreases texts.len() - i,
    {
        proof {
            assert(views.take(i + 1) =~= views.take(i as int).push(views[i as int]));
            lemma_joined_push(views.take(i as int), views[i as int], separator@);
            assert(joined(Seq::<Seq<char>>::empty(), separator@) =~= Seq::<char>::empty());
        }
        if i > 0 {
            out.append(separator);
        }
        out.append(texts[i].as_str());
        i = i + 1;
    }
    assert(views.take(i as int) =~= views);
    out
}

} // verus!
