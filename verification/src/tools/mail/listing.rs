//! Which messages of a folder are fetched, and how the server is asked for them.
use crate::text::{chars, decimal, words};
use vstd::prelude::*;

verus! {

/// Where a number goes in an ascending list: behind the last one that is not greater.
pub open spec fn place(numbers: Seq<u32>, n: u32) -> nat
    decreases numbers.len(),
{
    if numbers.len() == 0 {
        0
    } else if numbers.last() <= n {
        numbers.len()
    } else {
        place(numbers.drop_last(), n)
    }
}

/// The numbers in ascending order.
pub open spec fn ascending(numbers: Seq<u32>) -> Seq<u32>
    decreases numbers.len(),
{
    if numbers.len() == 0 {
        numbers
    } else {
        let earlier = ascending(numbers.drop_last());
        earlier.insert(place(earlier, numbers.last()) as int, numbers.last())
    }
}

/// Whether no number is less than one before it.
pub open spec fn is_ascending(numbers: Seq<u32>) -> bool {
    forall|i: int, j: int| 0 <= i < j < numbers.len() ==> numbers[i] <= numbers[j]
}

/// How many messages are fetched where up to `limit` are asked for: at least one, if there is one.
pub open spec fn fetch_count(available: nat, limit: nat) -> nat {
    let wanted = if limit < 1 {
        1
    } else {
        limit
    };
    if available < wanted {
        available
    } else {
        wanted
    }
}

/// The most recent messages of a folder: those with the greatest numbers, in ascending order.
pub open spec fn most_recent(uids: Seq<u32>, limit: nat) -> Seq<u32> {
    ascending(uids).skip(uids.len() - fetch_count(uids.len(), limit))
}

/// The decimal numerals of `numbers`.
pub open spec fn numerals(numbers: Seq<u32>) -> Seq<Seq<char>> {
    numbers.map_values(|n: u32| decimal::decimal(n as nat))
}

/// How the server is asked for these messages.
pub open spec fn uid_set(uids: Seq<u32>) -> Seq<char> {
    words::joined(numerals(uids), ","@)
}

proof fn lemma_place(numbers: Seq<u32>, n: u32)
    ensures
        place(numbers, n) <= numbers.len(),
        place(numbers, n) > 0 ==> numbers[place(numbers, n) - 1] <= n,
        forall|i: int| place(numbers, n) <= i < numbers.len() ==> #[trigger] numbers[i] > n,
    decreases numbers.len(),
{
    if numbers.len() > 0 && numbers.last() > n {
        lemma_place(numbers.drop_last(), n);
        assert forall|i: int| place(numbers, n) <= i < numbers.len() implies #[trigger] numbers[i]
            > n by {
            if i < numbers.len() - 1 {
                assert(numbers.drop_last()[i] == numbers[i]);
            }
        }
    }
}

/// Sorting leaves the numbers ascending, and neither loses nor adds one.
pub proof fn law_ascending_is_sorted(numbers: Seq<u32>)
    ensures
        is_ascending(ascending(numbers)),
        ascending(numbers).len() == numbers.len(),
        ascending(numbers).to_multiset() == numbers.to_multiset(),
    decreases numbers.len(),
{
    broadcast use vstd::seq_lib::group_to_multiset_ensures;

    if numbers.len() > 0 {
        let earlier = ascending(numbers.drop_last());
        let n = numbers.last();
        law_ascending_is_sorted(numbers.drop_last());
        lemma_place(earlier, n);
        let k = place(earlier, n) as int;
        let sorted = earlier.insert(k, n);
        vstd::seq_lib::to_multiset_insert(earlier, k, n);
        assert(numbers =~= numbers.drop_last().push(n));
        assert forall|i: int, j: int| 0 <= i < j < sorted.len() implies sorted[i] <= sorted[j] by {
            if i < k && k <= j {
                assert(earlier[i] <= earlier[k - 1] || i == k - 1);
            }
        }
    }
}

/// At least one message is fetched where there is one, and none that is passed over is more recent
/// than one that is fetched.
pub proof fn law_most_recent_are_fetched(uids: Seq<u32>, limit: nat)
    ensures
        most_recent(uids, limit).len() == fetch_count(uids.len(), limit),
        uids.len() > 0 ==> most_recent(uids, limit).len() > 0,
        forall|passed: int, fetched: int|
            0 <= passed < uids.len() - most_recent(uids, limit).len() && 0 <= fetched < most_recent(
                uids,
                limit,
            ).len() ==> #[trigger] ascending(uids)[passed] <= #[trigger] most_recent(
                uids,
                limit,
            )[fetched],
{
    law_ascending_is_sorted(uids);
}

/// The most recent messages of a folder, in ascending order.
pub fn select_recent(uids: Vec<u32>, limit: usize) -> (r: Vec<u32>)
    ensures
        r@ == most_recent(uids@, limit as nat),
{
    let mut sorted: Vec<u32> = Vec::new();
    let mut i: usize = 0;
    assert(ascending(uids@.take(0)) =~= sorted@);
    while i < uids.len()
        invariant
            i <= uids.len(),
            sorted@ == ascending(uids@.take(i as int)),
        decreases uids.len() - i,
    {
        let n = uids[i];
        proof {
            assert(uids@.take(i + 1).drop_last() =~= uids@.take(i as int));
            assert(sorted@.take(sorted@.len() as int) =~= sorted@);
        }
        let mut at: usize = sorted.len();
        while at > 0 && sorted[at - 1] > n
            invariant
                at <= sorted.len(),
                place(sorted@.take(at as int), n) == place(sorted@, n),
            decreases at,
        {
            proof {
                assert(sorted@.take(at as int).last() == sorted@[at - 1]);
                assert(sorted@.take(at as int).drop_last() =~= sorted@.take(at - 1));
            }
            at = at - 1;
        }
        proof {
            if at > 0 {
                assert(sorted@.take(at as int).last() == sorted@[at - 1]);
            }
        }
        sorted.insert(at, n);
        i = i + 1;
    }
    assert(uids@.take(i as int) =~= uids@);
    proof {
        law_ascending_is_sorted(uids@);
    }
    let wanted: usize = if limit < 1 {
        1
    } else {
        limit
    };
    let start: usize = if sorted.len() < wanted {
        0
    } else {
        sorted.len() - wanted
    };
    let r = sorted.split_off(start);
    assert(r@ =~= most_recent(uids@, limit as nat));
    r
}

/// How the server is asked for these messages.
pub fn render_uid_set(uids: &Vec<u32>) -> (r: String)
    ensures
        r@ == uid_set(uids@),
{
    let mut texts: Vec<String> = Vec::new();
    let mut i: usize = 0;
    while i < uids.len()
        invariant
            i <= uids.len(),
            texts.len() == i,
            forall|j: int|
                0 <= j < i ==> (#[trigger] texts@[j])@ == decimal::decimal(uids@[j] as nat),
        decreases uids.len() - i,
    {
        texts.push(decimal::numeral(uids[i] as u64));
        i = i + 1;
    }
    assert(chars::string_list(texts@) =~= numerals(uids@));
    words::join(&texts, ",")
}

/// What to ask the server for, to get the most recent messages of a folder that holds `uids`;
/// nothing where the folder is empty.
pub fn fetch_request(uids: Vec<u32>, limit: usize) -> (r: Option<String>)
    ensures
        (match r {
            Some(text) => uids@.len() > 0 && text@ == uid_set(most_recent(uids@, limit as nat)),
            None => uids@.len() == 0,
        }),
{
    proof {
        law_ascending_is_sorted(uids@);
    }
    let selected = select_recent(uids, limit);
    if selected.len() == 0 {
        None
    } else {
        Some(render_uid_set(&selected))
    }
}

} // verus!
