//! The lexicographic order of texts by scalar value, which is also the order of their UTF-8 bytes.
use crate::text::chars::characters;
use vstd::prelude::*;

verus! {

/// Whether `a` comes before `b` or is `b`: at the first place where they differ `a` has ended, or
/// has the smaller character.
pub open spec fn at_or_before(a: Seq<char>, b: Seq<char>) -> bool
    decreases a.len(),
{
    if a.len() == 0 {
        true
    } else if b.len() == 0 {
        false
    } else if a[0] != b[0] {
        a[0] < b[0]
    } else {
        at_or_before(a.drop_first(), b.drop_first())
    }
}

/// Whether `a` comes before `b`.
pub open spec fn before(a: Seq<char>, b: Seq<char>) -> bool {
    at_or_before(a, b) && a != b
}

/// Whether each text of the list comes before all that follow it, so that none occurs twice.
pub open spec fn strictly_increasing(texts: Seq<Seq<char>>) -> bool {
    forall|i: int, j: int|
        0 <= i < j < texts.len() ==> before(#[trigger] texts[i], #[trigger] texts[j])
}

pub proof fn lemma_order_total(a: Seq<char>, b: Seq<char>)
    ensures
        at_or_before(a, b) || at_or_before(b, a),
        at_or_before(a, b) && at_or_before(b, a) ==> a == b,
    decreases a.len(),
{
    if a.len() > 0 && b.len() > 0 && a[0] == b[0] {
        lemma_order_total(a.drop_first(), b.drop_first());
        if at_or_before(a, b) && at_or_before(b, a) {
            assert(a =~= seq![a[0]] + a.drop_first());
            assert(b =~= seq![b[0]] + b.drop_first());
        }
    } else if a.len() == 0 && b.len() == 0 {
        assert(a =~= b);
    }
}

pub proof fn lemma_order_transitive(a: Seq<char>, b: Seq<char>, c: Seq<char>)
    requires
        at_or_before(a, b),
        at_or_before(b, c),
    ensures
        at_or_before(a, c),
    decreases a.len(),
{
    if a.len() > 0 && a[0] == b[0] && b[0] == c[0] {
        lemma_order_transitive(a.drop_first(), b.drop_first(), c.drop_first());
    }
}

/// Coming before carries over from neighbour to neighbour.
pub proof fn lemma_before_transitive(a: Seq<char>, b: Seq<char>, c: Seq<char>)
    requires
        before(a, b),
        before(b, c),
    ensures
        before(a, c),
{
    lemma_order_transitive(a, b, c);
    if a == c {
        lemma_order_total(a, b);
    }
}

/// A strictly increasing list is fixed by what it holds: two of them with the same members are
/// one list.
pub proof fn law_increasing_list_is_unique(a: Seq<Seq<char>>, b: Seq<Seq<char>>)
    requires
        strictly_increasing(a),
        strictly_increasing(b),
        forall|t: Seq<char>| a.contains(t) <==> b.contains(t),
    ensures
        a == b,
    decreases a.len(),
{
    if a.len() == 0 {
        if b.len() > 0 {
            assert(b.contains(b[0]));
            assert(a.contains(b[0]));
        }
        assert(a =~= b);
    } else {
        assert(a.contains(a.last()));
        assert(b.contains(a.last()));
        let i = choose|i: int| 0 <= i < b.len() && b[i] == a.last();
        assert(b.contains(b.last()));
        assert(a.contains(b.last()));
        let j = choose|j: int| 0 <= j < a.len() && a[j] == b.last();
        if j < a.len() - 1 && i < b.len() - 1 {
            assert(before(a[j], a[a.len() - 1]));
            assert(before(b[i], b[b.len() - 1]));
            lemma_order_total(a.last(), b.last());
        }
        assert(a.last() == b.last());
        let x = a.drop_last();
        let y = b.drop_last();
        assert forall|t: Seq<char>| x.contains(t) <==> y.contains(t) by {
            if x.contains(t) {
                let k = choose|k: int| 0 <= k < x.len() && x[k] == t;
                assert(a[k] == t && a.contains(t));
                assert(before(a[k], a[a.len() - 1]));
                let m = choose|m: int| 0 <= m < b.len() && b[m] == t;
                assert(m < b.len() - 1);
                assert(y[m] == t);
            }
            if y.contains(t) {
                let k = choose|k: int| 0 <= k < y.len() && y[k] == t;
                assert(b[k] == t && b.contains(t));
                assert(before(b[k], b[b.len() - 1]));
                let m = choose|m: int| 0 <= m < a.len() && a[m] == t;
                assert(m < a.len() - 1);
                assert(x[m] == t);
            }
        }
        law_increasing_list_is_unique(x, y);
        assert(a =~= x.push(a.last()));
        assert(b =~= y.push(b.last()));
    }
}

/// Whether `a` comes before `b` or is `b`.
pub fn text_at_or_before(a: &str, b: &str) -> (r: bool)
    ensures
        r == at_or_before(a@, b@),
{
    let x = characters(a);
    let y = characters(b);
    let mut i: usize = 0;
    assert(a@.skip(0) =~= a@);
    assert(b@.skip(0) =~= b@);
    while i < x.len() && i < y.len()
        invariant
            i <= x.len(),
            i <= y.len(),
            x@ == a@,
            y@ == b@,
            at_or_before(a@, b@) == at_or_before(a@.skip(i as int), b@.skip(i as int)),
        decreases x.len() - i,
    {
        proof {
            assert(a@.skip(i as int)[0] == x[i as int]);
            assert(b@.skip(i as int)[0] == y[i as int]);
            assert(a@.skip(i as int).drop_first() =~= a@.skip(i + 1));
            assert(b@.skip(i as int).drop_first() =~= b@.skip(i + 1));
        }
        if x[i] != y[i] {
            return x[i] < y[i];
        }
        i = i + 1;
    }
    i == x.len()
}

} // verus!
