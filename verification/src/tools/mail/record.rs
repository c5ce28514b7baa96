//! What is kept of a fetched message, and the order in which messages are listed.
use crate::json;
use crate::text::chars;
use vstd::prelude::*;

verus! {

/// What is kept of a fetched message.
#[derive(Debug, Clone)]
pub struct MailRecord {
    pub folder: String,
    pub message_id: String,
    pub from: String,
    pub to: Vec<String>,
    pub subject: String,
    pub timestamp: u64,
    pub body_preview: String,
}

/// What a `MailRecord` says.
#[verifier::ext_equal]
pub struct RecordView {
    pub folder: Seq<char>,
    pub message_id: Seq<char>,
    pub from: Seq<char>,
    pub to: Seq<Seq<char>>,
    pub subject: Seq<char>,
    pub timestamp: u64,
    pub body_preview: Seq<char>,
}

impl View for MailRecord {
    type V = RecordView;

    open spec fn view(&self) -> RecordView {
        RecordView {
            folder: self.folder@,
            message_id: self.message_id@,
            from: self.from@,
            to: chars::string_list(self.to@),
            subject: self.subject@,
            timestamp: self.timestamp,
            body_preview: self.body_preview@,
        }
    }
}

/// What a list of records says.
pub open spec fn record_views(records: Seq<MailRecord>) -> Seq<RecordView> {
    records.map_values(|r: MailRecord| r@)
}

/// A record as a JSON object, its fields in the order of the record.
pub open spec fn record_json(r: RecordView) -> json::Json {
    json::Json::Object(
        seq![
            ("folder"@, json::Json::Text(r.folder)),
            ("message_id"@, json::Json::Text(r.message_id)),
            ("from"@, json::Json::Text(r.from)),
            ("to"@, json::text_list(r.to)),
            ("subject"@, json::Json::Text(r.subject)),
            ("timestamp"@, json::Json::Unsigned(r.timestamp)),
            ("body_preview"@, json::Json::Text(r.body_preview)),
        ],
    )
}

/// A record as a JSON object, its fields in alphabetic order.
pub open spec fn sorted_record_json(r: RecordView) -> json::Json {
    json::Json::Object(
        seq![
            ("body_preview"@, json::Json::Text(r.body_preview)),
            ("folder"@, json::Json::Text(r.folder)),
            ("from"@, json::Json::Text(r.from)),
            ("message_id"@, json::Json::Text(r.message_id)),
            ("subject"@, json::Json::Text(r.subject)),
            ("timestamp"@, json::Json::Unsigned(r.timestamp)),
            ("to"@, json::text_list(r.to)),
        ],
    )
}

/// Records as a JSON list.
pub open spec fn records_json(records: Seq<RecordView>) -> json::Json {
    json::Json::List(records.map_values(|r: RecordView| record_json(r)))
}

/// Where a record goes in a list with the newest first: behind the last one that is not older.
pub open spec fn place(records: Seq<RecordView>, r: RecordView) -> nat
    decreases records.len(),
{
    if records.len() == 0 {
        0
    } else if records.last().timestamp >= r.timestamp {
        records.len()
    } else {
        place(records.drop_last(), r)
    }
}

/// The records with the newest first; those of the same time keep their order.
pub open spec fn newest_first(records: Seq<RecordView>) -> Seq<RecordView>
    decreases records.len(),
{
    if records.len() == 0 {
        records
    } else {
        let earlier = newest_first(records.drop_last());
        earlier.insert(place(earlier, records.last()) as int, records.last())
    }
}

/// Whether no record is newer than one before it.
pub open spec fn is_newest_first(records: Seq<RecordView>) -> bool {
    forall|i: int, j: int|
        0 <= i < j < records.len() ==> (#[trigger] records[i]).timestamp >= (
        #[trigger] records[j]).timestamp
}

/// The records of one time.
pub open spec fn of_time(records: Seq<RecordView>, time: u64) -> Seq<RecordView> {
    records.filter(|r: RecordView| r.timestamp == time)
}

/// Beyond its place every record is older.
proof fn lemma_place(records: Seq<RecordView>, r: RecordView)
    ensures
        place(records, r) <= records.len(),
        place(records, r) > 0 ==> records[place(records, r) - 1].timestamp >= r.timestamp,
        forall|i: int|
            place(records, r) <= i < records.len() ==> (#[trigger] records[i]).timestamp
                < r.timestamp,
    decreases records.len(),
{
    if records.len() > 0 && records.last().timestamp < r.timestamp {
        lemma_place(records.drop_last(), r);
        assert forall|i: int| place(records, r) <= i < records.len() implies (
        #[trigger] records[i]).timestamp < r.timestamp by {
            if i < records.len() - 1 {
                assert(records.drop_last()[i] == records[i]);
            }
        }
    }
}

/// Sorting leaves the newest first.
pub proof fn law_sorted_is_newest_first(records: Seq<RecordView>)
    ensures
        is_newest_first(newest_first(records)),
        newest_first(records).len() == records.len(),
    decreases records.len(),
{
    if records.len() > 0 {
        let earlier = newest_first(records.drop_last());
        let r = records.last();
        law_sorted_is_newest_first(records.drop_last());
        lemma_place(earlier, r);
        let k = place(earlier, r) as int;
        let sorted = earlier.insert(k, r);
        assert forall|i: int, j: int| 0 <= i < j < sorted.len() implies (
        #[trigger] sorted[i]).timestamp >= (#[trigger] sorted[j]).timestamp by {
            if i < k && k <= j {
                assert(earlier[i].timestamp >= earlier[k - 1].timestamp || i == k - 1);
            }
        }
    }
}

/// Sorting neither loses nor adds a record.
pub proof fn law_sorting_keeps_records(records: Seq<RecordView>)
    ensures
        newest_first(records).to_multiset() == records.to_multiset(),
    decreases records.len(),
{
    broadcast use vstd::seq_lib::group_to_multiset_ensures;

    if records.len() > 0 {
        let earlier = newest_first(records.drop_last());
        let r = records.last();
        law_sorting_keeps_records(records.drop_last());
        lemma_place(earlier, r);
        earlier.insert_ensures(place(earlier, r) as int, r);
        vstd::seq_lib::to_multiset_insert(earlier, place(earlier, r) as int, r);
        assert(records =~= records.drop_last().push(r));
    }
}

/// Records of the same time stay in the order in which they came.
pub proof fn law_sorting_is_stable(records: Seq<RecordView>, time: u64)
    ensures
        of_time(newest_first(records), time) == of_time(records, time),
    decreases records.len(),
{
    if records.len() > 0 {
        let pred = |r: RecordView| r.timestamp == time;
        let rest = records.drop_last();
        let earlier = newest_first(rest);
        let r = records.last();
        let k = place(earlier, r) as int;
        law_sorting_is_stable(rest, time);
        lemma_place(earlier, r);
        let head = earlier.take(k);
        let tail = earlier.skip(k);
        assert(earlier =~= head + tail);
        assert(newest_first(records) =~= head + seq![r] + tail);
        assert(records =~= rest + seq![r]);
        Seq::filter_distributes_over_add(head, tail, pred);
        Seq::filter_distributes_over_add(head + seq![r], tail, pred);
        Seq::filter_distributes_over_add(head, seq![r], pred);
        Seq::filter_distributes_over_add(rest, seq![r], pred);
        if r.timestamp == time {
            assert(tail.filter(pred) =~= Seq::<RecordView>::empty()) by {
                assert forall|i: int| 0 <= i < tail.len() implies !pred(#[trigger] tail[i]) by {
                    assert(tail[i] == earlier[i + k]);
                }
                lemma_nothing_left(tail, pred);
            }
        } else {
            assert(seq![r].filter(pred) =~= Seq::<RecordView>::empty()) by {
                lemma_nothing_left(seq![r], pred);
            }
        }
        assert(of_time(newest_first(records), time) =~= of_time(records, time));
    } else {
        assert(newest_first(records) =~= records);
    }
}

proof fn lemma_nothing_left(records: Seq<RecordView>, pred: spec_fn(RecordView) -> bool)
    requires
        forall|i: int| 0 <= i < records.len() ==> !pred(#[trigger] records[i]),
    ensures
        records.filter(pred) == Seq::<RecordView>::empty(),
    decreases records.len(),
{
    reveal(Seq::filter);
    if records.len() > 0 {
        let rest = records.drop_last();
        assert forall|i: int| 0 <= i < rest.len() implies !pred(#[trigger] rest[i]) by {
            assert(rest[i] == records[i]);
        }
        assert(!pred(records[records.len() - 1]));
        lemma_nothing_left(rest, pred);
    }
}

/// Sorts records with the newest first; those of the same time keep their order.
pub fn sort_newest_first(records: Vec<MailRecord>) -> (r: Vec<MailRecord>)
    ensures
        record_views(r@) == newest_first(record_views(records@)),
{
    let ghost all = record_views(records@);
    let mut out: Vec<MailRecord> = Vec::new();
    assert(record_views(out@) =~= newest_first(all.take(0)));
    for next in it: records
        invariant
            all == record_views(it.seq()),
            record_views(out@) == newest_first(all.take(it.index() as int)),
    {
        let ghost done = it.index() as int;
        proof {
            assert(next@ == all[done]);
            assert(all.take(done + 1).drop_last() =~= all.take(done));
            assert(record_views(out@).take(out@.len() as int) =~= record_views(out@));
        }
        let mut at: usize = out.len();
        while at > 0 && out[at - 1].timestamp < next.timestamp
            invariant
                at <= out.len(),
                place(record_views(out@).take(at as int), next@) == place(
                    record_views(out@),
                    next@,
                ),
            decreases at,
        {
            proof {
                let head = record_views(out@).take(at as int);
                assert(head.last() == out@[at - 1]@);
                assert(head.drop_last() =~= record_views(out@).take(at - 1));
            }
            at = at - 1;
        }
        proof {
            let head = record_views(out@).take(at as int);
            if at > 0 {
                assert(head.last() == out@[at - 1]@);
            }
            assert(place(record_views(out@), next@) == at);
            assert(record_views(out@.insert(at as int, next)) =~= record_views(out@).insert(
                at as int,
                next@,
            ));
        }
        out.insert(at, next);
    }
    assert(all.take(all.len() as int) =~= all);
    out
}

/// A record as a JSON object, its fields in the order of the record.
pub fn record_value(r: &MailRecord) -> (value: serde_json::Value)
    ensures
        json::json_of(value) == record_json(r@),
{
    let fields: Vec<(String, serde_json::Value)> =
        vec![
        json::field("folder", json::text_value(r.folder.as_str())),
        json::field("message_id", json::text_value(r.message_id.as_str())),
        json::field("from", json::text_value(r.from.as_str())),
        json::field("to", json::texts_value(&r.to)),
        json::field("subject", json::text_value(r.subject.as_str())),
        json::field("timestamp", json::number_value(r.timestamp)),
        json::field("body_preview", json::text_value(r.body_preview.as_str())),
    ];
    proof {
        let f = json::fields_view(fields@);
        assert(f =~= record_json(r@)->Object_0);
        assert(json::distinct_keys(f)) by {
            lemma_record_keys();
            assert forall|i: int, j: int| 0 <= i < j < f.len() implies (#[trigger] f[i]).0 != (
            #[trigger] f[j]).0 by {
                assert(i == 0 || i == 1 || i == 2 || i == 3 || i == 4 || i == 5);
                assert(j == 1 || j == 2 || j == 3 || j == 4 || j == 5 || j == 6);
            }
        }
    }
    json::object_value(fields)
}

/// A record as a JSON object, its fields in alphabetic order.
pub fn sorted_record_value(r: &MailRecord) -> (value: serde_json::Value)
    ensures
        json::json_of(value) == sorted_record_json(r@),
{
    let fields: Vec<(String, serde_json::Value)> =
        vec![
        json::field("body_preview", json::text_value(r.body_preview.as_str())),
        json::field("folder", json::text_value(r.folder.as_str())),
        json::field("from", json::text_value(r.from.as_str())),
        json::field("message_id", json::text_value(r.message_id.as_str())),
        json::field("subject", json::text_value(r.subject.as_str())),
        json::field("timestamp", json::number_value(r.timestamp)),
        json::field("to", json::texts_value(&r.to)),
    ];
    proof {
        let f = json::fields_view(fields@);
        assert(f =~= sorted_record_json(r@)->Object_0);
        assert(json::distinct_keys(f)) by {
            lemma_record_keys();
            assert forall|i: int, j: int| 0 <= i < j < f.len() implies (#[trigger] f[i]).0 != (
            #[trigger] f[j]).0 by {
                assert(i == 0 || i == 1 || i == 2 || i == 3 || i == 4 || i == 5);
                assert(j == 1 || j == 2 || j == 3 || j == 4 || j == 5 || j == 6);
            }
        }
    }
    json::object_value(fields)
}

/// The names of a record's fields differ in length.
pub proof fn lemma_record_keys()
    ensures
        "folder"@.len() == 6,
        "message_id"@.len() == 10,
        "from"@.len() == 4,
        "to"@.len() == 2,
        "subject"@.len() == 7,
        "timestamp"@.len() == 9,
        "body_preview"@.len() == 12,
{
    reveal_strlit("folder");
    reveal_strlit("message_id");
    reveal_strlit("from");
    reveal_strlit("to");
    reveal_strlit("subject");
    reveal_strlit("timestamp");
    reveal_strlit("body_preview");
}

/// Records as a JSON list.
pub fn records_value(records: &Vec<MailRecord>) -> (value: serde_json::Value)
    ensures
        json::json_of(value) == records_json(record_views(records@)),
{
    let mut items: Vec<serde_json::Value> = Vec::new();
    let mut i: usize = 0;
    while i < records.len()
        invariant
            i <= records.len(),
            items.len() == i,
            forall|j: int|
                0 <= j < i ==> json::json_of(#[trigger] items@[j]) == record_json(records@[j]@),
        decreases records.len() - i,
    {
        items.push(record_value(&records[i]));
        i = i + 1;
    }
    assert(json::list_view(items@) =~= record_views(records@).map_values(
        |r: RecordView| record_json(r),
    ));
    json::list_value(items)
}

} // verus!
