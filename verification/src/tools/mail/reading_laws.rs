//! What holds of reading mail: which messages are asked for, what a date comes to, what is kept of a
//! message, and in which order messages are shown.
use crate::json;
use crate::text::chars;
use crate::text::decimal;
use crate::text::laws;
use crate::text::words;
use crate::tools::mail::calendar;
use crate::tools::mail::calendar::MailDate;
use crate::tools::mail::identifier;
use crate::tools::mail::listing;
use crate::tools::mail::message;
use crate::tools::mail::record;
use vstd::prelude::*;

verus! {

/// Whether a month has such a day.
pub open spec fn has_day(year: u16, month: u8, day: u8) -> bool {
    ||| 1 <= day <= 31 && (month == 1 || month == 3 || month == 5 || month == 7 || month == 8
        || month == 10 || month == 12)
    ||| 1 <= day <= 30 && (month == 4 || month == 6 || month == 9 || month == 11)
    ||| 1 <= day <= 28 && month == 2
    ||| day == 29 && month == 2 && year % 4 == 0 && (year % 100 != 0 || year % 400 == 0)
}

/// A date exists where its month is one of twelve, its day is one of that month, and its time is one
/// of a day.
pub proof fn law_dates_exist_as_in_the_calendar(date: MailDate)
    ensures
        calendar::exists_in_calendar(date) <==> has_day(date.year, date.month, date.day)
            && date.hour <= 23 && date.minute <= 59 && date.second <= 59,
{
    let y = date.year as int;
    assert(date.year % 4 == y % 4 && date.year % 100 == y % 100 && date.year % 400 == y % 400);
}

/// The time of day counts in hours, minutes and seconds.
pub proof fn law_time_of_day_adds_up(date: MailDate, midnight: MailDate)
    requires
        midnight.year == date.year && midnight.month == date.month && midnight.day == date.day,
        midnight.hour == 0 && midnight.minute == 0 && midnight.second == 0,
    ensures
        calendar::epoch_seconds(date) == calendar::epoch_seconds(midnight) + date.hour * 3600
            + date.minute * 60 + date.second,
{
}

/// Whether `next` is the day after `date`: in the same month, the first of the next month, or the
/// first of the next year.
pub open spec fn is_day_after(date: MailDate, next: MailDate) -> bool {
    ||| next.year == date.year && next.month == date.month && next.day == date.day + 1
    ||| next.year == date.year && next.month == date.month + 1 && next.day == 1 && !has_day(
        date.year,
        date.month,
        (date.day + 1) as u8,
    )
    ||| next.year == date.year + 1 && date.month == 12 && date.day == 31 && next.month == 1
        && next.day == 1
}

/// The seconds are counted from the start of 1970, and each day is one day after the one before it:
/// within a month, from the last day of a month to the first of the next, and from the last of
/// December to the first of January.
pub proof fn law_days_follow_each_other(start: MailDate, date: MailDate, next: MailDate)
    requires
        start.year == 1970 && start.month == 1 && start.day == 1,
        start.hour == 0 && start.minute == 0 && start.second == 0,
        has_day(date.year, date.month, date.day),
        has_day(next.year, next.month, next.day),
        next.hour == date.hour && next.minute == date.minute && next.second == date.second,
        is_day_after(date, next),
    ensures
        calendar::epoch_seconds(start) == 0,
        calendar::epoch_seconds(next) == calendar::epoch_seconds(date) + 86400,
{
    let y = date.year as int;
    assert(calendar::days_before_month(1970, 1) == 0);
    if next.year == date.year + 1 {
        reveal_with_fuel(calendar::days_before_month, 13);
        assert(calendar::days_before_month(y, 12) == 334 + if calendar::is_leap(y) {
            1int
        } else {
            0int
        });
        assert(calendar::days_before_month(y + 1, 1) == 0);
        lemma_year_length(y);
    } else if next.month == date.month + 1 {
        assert(date.day == calendar::days_in_month(y, date.month as int));
    }
}

/// One more multiple of `k` is passed exactly where `y` is one.
proof fn lemma_next_multiple(y: int, k: int)
    requires
        0 <= y,
        0 < k,
    ensures
        (y + k) / k == (y + k - 1) / k + (if y % k == 0 {
            1int
        } else {
            0int
        }),
{
    let q = y / k;
    let r = y % k;
    vstd::arithmetic::div_mod::lemma_fundamental_div_mod(y, k);
    vstd::arithmetic::mul::lemma_mul_is_distributive_add(k, q, 1);
    vstd::arithmetic::mul::lemma_mul_is_commutative(k, q);
    vstd::arithmetic::mul::lemma_mul_is_commutative(k, q + 1);
    vstd::arithmetic::div_mod::lemma_fundamental_div_mod_converse(y + k, k, q + 1, r);
    if r == 0 {
        vstd::arithmetic::div_mod::lemma_fundamental_div_mod_converse(y + k - 1, k, q, k - 1);
    } else {
        vstd::arithmetic::div_mod::lemma_fundamental_div_mod_converse(y + k - 1, k, q + 1, r - 1);
    }
}

/// A year has 365 days, and one more where it is a leap year.
proof fn lemma_year_length(y: int)
    requires
        0 <= y,
    ensures
        calendar::days_before_year(y + 1) == calendar::days_before_year(y) + 365 + (
        if calendar::is_leap(y) {
            1int
        } else {
            0int
        }),
{
    lemma_next_multiple(y, 4);
    lemma_next_multiple(y, 100);
    lemma_next_multiple(y, 400);
    assert(y + 1 + 3 == y + 4 && y + 1 + 99 == y + 100 && y + 1 + 399 == y + 400);
    assert(y % 400 == 0 ==> y % 100 == 0);
    assert(y % 100 == 0 ==> y % 4 == 0);
}

/// A message has the time of its date, in full; where the date is missing, does not exist or lies
/// before 1970, it has the time zero.
pub proof fn law_message_has_the_time_of_its_date(date: MailDate)
    ensures
        calendar::exists_in_calendar(date) && calendar::epoch_seconds(date) >= 0
            ==> calendar::message_time(Some(date)) == calendar::epoch_seconds(date),
        !calendar::exists_in_calendar(date) || calendar::epoch_seconds(date) < 0
            ==> calendar::message_time(Some(date)) == 0,
        calendar::message_time(None) == 0,
{
}

/// Of the messages in a folder as many are asked for as the limit says, or all where there are
/// fewer, or one where the limit is none; they are those with the greatest numbers, in ascending
/// order.
pub proof fn law_greatest_numbers_are_asked_for(uids: Seq<u32>, limit: nat) -> (sorted: Seq<u32>)
    ensures
        sorted.len() == uids.len(),
        sorted.to_multiset() == uids.to_multiset(),
        forall|i: int, j: int| 0 <= i < j < sorted.len() ==> sorted[i] <= sorted[j],
        ({
            let asked = listing::most_recent(uids, limit);
            let most = if limit == 0 {
                1
            } else {
                limit
            };
            &&& uids.len() <= most ==> asked.len() == uids.len()
            &&& uids.len() > most ==> asked.len() == most
            &&& forall|i: int|
                0 <= i < asked.len() ==> #[trigger] asked[i] == sorted[i + uids.len() - asked.len()]
        }),
{
    listing::law_ascending_is_sorted(uids);
    listing::ascending(uids)
}

/// The numbers are written one after the other in decimal, with commas between them.
pub proof fn law_request_lists_the_numbers(uids: Seq<u32>, n: u32)
    ensures
        listing::uid_set(seq![n]) == decimal::decimal(n as nat),
        uids.len() > 0 ==> listing::uid_set(uids.push(n)) == listing::uid_set(uids) + seq![',']
            + decimal::decimal(n as nat),
{
    reveal_strlit(",");
    assert(","@ =~= seq![',']);
    assert(listing::numerals(seq![n]) =~= seq![decimal::decimal(n as nat)]);
    assert(listing::numerals(uids.push(n)) =~= listing::numerals(uids).push(
        decimal::decimal(n as nat),
    ));
    words::lemma_joined_push(listing::numerals(uids), decimal::decimal(n as nat), ","@);
}

/// Angle brackets are taken off an identifier where it stands in a pair of them, and only then.
pub proof fn law_brackets_come_in_pairs(id: Seq<char>)
    ensures
        identifier::bare(seq!['<'] + id + seq!['>']) == id,
        id.len() < 2 || id[0] != '<' || id[id.len() - 1] != '>' ==> identifier::bare(id) == id,
{
    assert((seq!['<'] + id + seq!['>']).subrange(1, 1 + id.len() as int) =~= id);
}

/// Identifiers are the same where all their letters are, but for a pair of angle brackets around
/// them and for case.
pub proof fn law_identifiers_are_compared_whole(a: Seq<char>, b: Seq<char>)
    ensures
        identifier::is_same(a, b) <==> laws::is_same_but_for_case(
            identifier::bare(a),
            identifier::bare(b),
        ),
{
    laws::law_lower_case_compares_letter_by_letter(identifier::bare(a), identifier::bare(b));
}

/// The text of a message is its preview, whole. Without one it is the start of its HTML, up to 400
/// characters of the words in it with single blanks between them.
pub proof fn law_preview_is_the_text(content: message::ContentView)
    ensures
        content.text matches Some(text) ==> message::preview(content) == text,
        content.text is None && content.html is Some ==> ({
            let all = words::joined(words::words(content.html->0), seq![' ']);
            &&& all.len() <= 400 ==> message::preview(content) == all
            &&& all.len() > 400 ==> message::preview(content) == all.subrange(0, 400)
        }),
{
    if content.html is Some {
        let all = words::joined(words::words(content.html->0), seq![' ']);
        assert(all.len() > 400 ==> all.take(400) =~= all.subrange(0, 400));
    }
}

/// Without text and HTML the preview is the start, up to 400 characters, of the first attachment
/// that is marked as text and is valid UTF-8; it is empty where there is none.
pub proof fn law_preview_falls_back_to_an_attachment(content: message::ContentView, i: int)
    requires
        content.text is None,
        content.html is None,
        0 <= i <= content.attachments.len(),
        forall|j: int|
            0 <= j < i ==> (#[trigger] content.attachments[j]).main_type != Some("text"@)
                || !vstd::utf8::valid_utf8(content.attachments[j].contents),
    ensures
        i == content.attachments.len() ==> message::preview(content).len() == 0,
        i < content.attachments.len() && content.attachments[i].main_type == Some("text"@)
            && vstd::utf8::valid_utf8(content.attachments[i].contents) ==> ({
            let all = vstd::utf8::decode_utf8(content.attachments[i].contents);
            &&& all.len() <= 400 ==> message::preview(content) == all
            &&& all.len() > 400 ==> message::preview(content) == all.subrange(0, 400)
        }),
{
    lemma_attached_text(content.attachments, i);
    if i < content.attachments.len() {
        let all = vstd::utf8::decode_utf8(content.attachments[i].contents);
        assert(all.len() > 400 ==> all.take(400) =~= all.subrange(0, 400));
    }
}

proof fn lemma_attached_text(attachments: Seq<message::AttachmentView>, i: int)
    requires
        0 <= i <= attachments.len(),
        forall|j: int|
            0 <= j < i ==> (#[trigger] attachments[j]).main_type != Some("text"@)
                || !vstd::utf8::valid_utf8(attachments[j].contents),
    ensures
        message::attached_text(attachments) == message::attached_text(attachments.skip(i)),
        i < attachments.len() ==> attachments.skip(i)[0] == attachments[i],
    decreases i,
{
    if i == 0 {
        assert(attachments.skip(0) =~= attachments);
    } else {
        let rest = attachments.drop_first();
        assert(!message::is_readable(attachments[0]));
        assert forall|j: int| 0 <= j < i - 1 implies (#[trigger] rest[j]).main_type != Some(
            "text"@,
        ) || !vstd::utf8::valid_utf8(rest[j].contents) by {
            assert(rest[j] == attachments[j + 1]);
        }
        lemma_attached_text(rest, i - 1);
        assert(rest.skip(i - 1) =~= attachments.skip(i));
    }
}

/// The sender is the first address, where there is one.
pub proof fn law_sender_is_the_first_address(from: Option<Seq<Option<Seq<char>>>>)
    ensures
        from matches Some(list) && list.len() > 0 && list[0] is Some ==> message::sender(from)
            == from->0[0]->0,
        !(from matches Some(list) && list.len() > 0 && list[0] is Some) ==> message::sender(from)
            == "unknown"@,
{
}

/// The recipients are all addresses that are there, in order.
pub proof fn law_recipients_are_all_addresses(
    list: Seq<Option<Seq<char>>>,
    address: Seq<char>,
)
    ensures
        message::recipients(None).len() == 0,
        message::recipients(Some(Seq::empty())).len() == 0,
        message::recipients(Some(list.push(Some(address)))) == message::recipients(
            Some(list),
        ).push(address),
        message::recipients(Some(list.push(None))) == message::recipients(Some(list)),
{
    assert(list.push(Some(address)).drop_last() =~= list);
    assert(list.push(None).drop_last() =~= list);
}

/// What is kept of a message is what its headers and its body say, whole, with a stand-in for what
/// they do not.
pub proof fn law_record_keeps_what_the_message_says(
    folder: Seq<char>,
    headers: message::HeadersView,
    content: message::ContentView,
    fresh: Seq<char>,
)
    ensures
        ({
            let r = message::record_of(folder, headers, content, fresh);
            &&& r.folder == folder
            &&& headers.message_id matches Some(id) ==> r.message_id == id
            &&& headers.message_id is None ==> r.message_id == "generated-"@ + fresh
            &&& r.from == message::sender(headers.from)
            &&& r.to == message::recipients(headers.to)
            &&& headers.subject matches Some(subject) ==> r.subject == subject
            &&& headers.subject is None ==> r.subject == "(no subject)"@
            &&& r.timestamp == calendar::message_time(headers.date)
            &&& r.body_preview == message::preview(content)
        }),
{
    calendar::lemma_message_time_fits(headers.date);
}

/// A message whose bytes read as one is kept, and no other; each is kept once, in order.
pub proof fn law_every_readable_message_is_kept(
    folder: Seq<char>,
    bodies: Seq<Option<Vec<u8>>>,
    body: Option<Vec<u8>>,
    fresh: Seq<Seq<char>>,
    id: Seq<char>,
)
    requires
        fresh.len() == bodies.len(),
    ensures
        message::fetched_records(folder, Seq::empty(), Seq::empty()).len() == 0,
        ({
            let before = message::fetched_records(folder, bodies, fresh);
            let after = message::fetched_records(folder, bodies.push(body), fresh.push(id));
            &&& body is None ==> after == before
            &&& body matches Some(raw) ==> (match (
                message::parsed_headers(raw@),
                message::parsed_content(raw@),
            ) {
                (Some(headers), Some(content)) => after == before.push(
                    message::record_of(folder, headers, content, id),
                ),
                _ => after == before,
            })
        }),
{
    assert(bodies.push(body).drop_last() =~= bodies);
    assert(fresh.push(id).drop_last() =~= fresh);
}

/// Whether an object says of a message what its record holds.
pub open spec fn tells_of(document: json::Json, r: record::RecordView) -> bool {
    &&& json::field_of(document, "folder"@) == Some(json::Json::Text(r.folder))
    &&& json::field_of(document, "message_id"@) == Some(json::Json::Text(r.message_id))
    &&& json::field_of(document, "from"@) == Some(json::Json::Text(r.from))
    &&& json::field_of(document, "to"@) matches Some(json::Json::List(items)) && items.len()
        == r.to.len() && forall|i: int|
        0 <= i < r.to.len() ==> #[trigger] items[i] == json::Json::Text(r.to[i])
    &&& json::field_of(document, "subject"@) == Some(json::Json::Text(r.subject))
    &&& json::field_of(document, "timestamp"@) == Some(json::Json::Unsigned(r.timestamp))
    &&& json::field_of(document, "body_preview"@) == Some(json::Json::Text(r.body_preview))
}

/// What is shown of a message tells all that its record holds, and nothing besides; the objects of a
/// list stand in the order of the messages.
pub proof fn law_shown_message_tells_its_record(
    r: record::RecordView,
    records: Seq<record::RecordView>,
)
    ensures
        tells_of(record::record_json(r), r),
        tells_of(record::sorted_record_json(r), r),
        record::record_json(r) matches json::Json::Object(fields) && fields.len() == 7,
        record::sorted_record_json(r) matches json::Json::Object(fields) && fields.len() == 7,
        record::records_json(records) matches json::Json::List(items) && items.len()
            == records.len() && forall|i: int|
            0 <= i < records.len() ==> #[trigger] items[i] == record::record_json(records[i]),
{
    record::lemma_record_keys();
    let f = record::record_json(r)->Object_0;
    let g = record::sorted_record_json(r)->Object_0;
    lemma_seven_fields(f);
    lemma_seven_fields(g);
}

/// Of seven fields whose names all differ each is found by its name.
proof fn lemma_seven_fields(f: Seq<(Seq<char>, json::Json)>)
    requires
        f.len() == 7,
        forall|i: int, j: int| 0 <= i < j < 7 ==> (#[trigger] f[i]).0 != (#[trigger] f[j]).0,
    ensures
        forall|i: int|
            0 <= i < 7 ==> json::field_of(json::Json::Object(f), (#[trigger] f[i]).0) == Some(
                f[i].1,
            ),
{
    assert forall|i: int| 0 <= i < 7 implies json::field_of(
        json::Json::Object(f),
        (#[trigger] f[i]).0,
    ) == Some(f[i].1) by {
        json::law_field_is_found_by_name(f, f[i].0);
    }
}

/// A record says all that its fields hold, and so does a list of records.
pub proof fn law_record_view_says_all(r: record::MailRecord, records: Seq<record::MailRecord>)
    ensures
        r@.folder == r.folder@,
        r@.message_id == r.message_id@,
        r@.from == r.from@,
        r@.to.len() == r.to@.len(),
        forall|i: int| 0 <= i < r.to@.len() ==> #[trigger] r@.to[i] == r.to@[i]@,
        r@.subject == r.subject@,
        r@.timestamp == r.timestamp,
        r@.body_preview == r.body_preview@,
        record::record_views(records).len() == records.len(),
        forall|i: int|
            0 <= i < records.len() ==> #[trigger] record::record_views(records)[i] == records[i]@,
{
}

/// Headers and a body say all that their fields hold.
pub proof fn law_message_view_says_all(
    headers: message::MailHeaders,
    content: message::MailContent,
)
    ensures
        headers@.subject == chars::string_option(headers.subject),
        headers@.message_id == chars::string_option(headers.message_id),
        headers@.date == headers.date,
        headers.from is Some <==> headers@.from is Some,
        headers.from matches Some(list) ==> headers@.from->0.len() == list@.len() && forall|i: int|
            0 <= i < list@.len() ==> #[trigger] headers@.from->0[i] == chars::string_option(list@[i]),
        headers.to is Some <==> headers@.to is Some,
        headers.to matches Some(list) ==> headers@.to->0.len() == list@.len() && forall|i: int|
            0 <= i < list@.len() ==> #[trigger] headers@.to->0[i] == chars::string_option(list@[i]),
        content@.text == chars::string_option(content.text),
        content@.html == chars::string_option(content.html),
        content@.attachments.len() == content.attachments@.len(),
        forall|i: int|
            0 <= i < content.attachments@.len() ==> (#[trigger] content@.attachments[i]).contents
                == content.attachments@[i].contents@ && content@.attachments[i].main_type
                == chars::string_option(content.attachments@[i].main_type),
{
}

} // verus!
